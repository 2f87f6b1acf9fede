use hue_cli::client::HueClient;
use hue_cli::command::{dispatch, lookup_preset, parse_color, parse_toggle, str_eq, Command};
use hue_cli::errors::HueError;
use hue_cli::load::load_config;

fn test_client() -> HueClient {
    let text = r#"{"ip": "10.0.0.1", "user": "abc123",
        "colors": [{"name": "warm", "x": 0.5, "y": 0.4},
                   {"name": "warm", "x": 0.9, "y": 0.9}]}"#;
    HueClient::from_config(text).unwrap()
}

#[test]
fn toggle_on_produces_on_true_body() {
    let client = test_client();
    let cmd = parse_toggle(1, "on").unwrap();
    let req = dispatch(&client, &cmd);
    assert_eq!(req.url, "http://10.0.0.1/api/abc123/groups/1/action");
    assert_eq!(req.body, r#"{"on": true}"#);
}

#[test]
fn toggle_off_produces_on_false_body() {
    let client = test_client();
    let cmd = parse_toggle(1, "off").unwrap();
    let req = dispatch(&client, &cmd);
    assert_eq!(req.body, r#"{"on": false}"#);
}

#[test]
fn toggle_with_other_status_is_invalid_argument() {
    assert_eq!(parse_toggle(1, "maybe").unwrap_err(), HueError::InvalidArgument);
    assert_eq!(parse_toggle(1, "On").unwrap_err(), HueError::InvalidArgument);
    assert_eq!(parse_toggle(1, "OFF").unwrap_err(), HueError::InvalidArgument);
    assert_eq!(parse_toggle(1, "").unwrap_err(), HueError::InvalidArgument);
}

#[test]
fn color_with_explicit_xy_produces_xy_body() {
    let client = test_client();
    let cmd = parse_color(
        1,
        Some(("0.3".to_string(), "0.4".to_string())),
        None,
        &client.colors,
    )
    .unwrap();
    let req = dispatch(&client, &cmd);
    assert_eq!(req.url, "http://10.0.0.1/api/abc123/groups/1/action");
    assert_eq!(req.body, r#"{"xy": [0.3, 0.4]}"#);
}

#[test]
fn color_with_malformed_xy_is_invalid_argument() {
    let client = test_client();
    let r = parse_color(
        1,
        Some(("0.3".to_string(), "moss".to_string())),
        None,
        &client.colors,
    );
    assert_eq!(r.unwrap_err(), HueError::InvalidArgument);
}

#[test]
fn color_by_name_resolves_first_matching_preset() {
    let client = test_client();
    let cmd = parse_color(1, None, Some("warm".to_string()), &client.colors).unwrap();
    let req = dispatch(&client, &cmd);
    assert_eq!(req.body, r#"{"xy": [0.5, 0.4]}"#);
}

#[test]
fn color_by_unknown_name_is_preset_lookup_error() {
    let client = test_client();
    let r = parse_color(1, None, Some("cold".to_string()), &client.colors);
    assert_eq!(r.unwrap_err(), HueError::PresetLookup);
}

#[test]
fn color_with_both_forms_is_invalid_argument() {
    let client = test_client();
    let r = parse_color(
        1,
        Some(("0.3".to_string(), "0.4".to_string())),
        Some("warm".to_string()),
        &client.colors,
    );
    assert_eq!(r.unwrap_err(), HueError::InvalidArgument);
}

#[test]
fn color_with_neither_form_is_invalid_argument() {
    let client = test_client();
    let r = parse_color(1, None, None, &client.colors);
    assert_eq!(r.unwrap_err(), HueError::InvalidArgument);
}

#[test]
fn lookup_on_empty_presets_is_preset_lookup_error() {
    let r = lookup_preset(&Vec::new(), "warm");
    assert_eq!(r.unwrap_err(), HueError::PresetLookup);
}

#[test]
fn group_number_appears_in_decimal_in_the_url() {
    let client = test_client();
    let cmd = parse_toggle(42, "on").unwrap();
    let req = dispatch(&client, &cmd);
    assert_eq!(req.url, "http://10.0.0.1/api/abc123/groups/42/action");
}

#[test]
fn toggle_command_carries_group_and_state() {
    match parse_toggle(7, "on").unwrap() {
        Command::Toggle { group, on } => {
            assert_eq!(group, 7);
            assert!(on);
        }
        _ => panic!("expected a toggle command"),
    }
}

#[test]
fn light_requests_use_the_lights_endpoint() {
    let client = test_client();
    let req = client.light_on_request(3, false);
    assert_eq!(req.url, "http://10.0.0.1/api/abc123/lights/3/state");
    assert_eq!(req.body, r#"{"on": false}"#);
    let x = hue_cli::config::Coord::new("0.1".to_string()).unwrap();
    let y = hue_cli::config::Coord::new("0.2".to_string()).unwrap();
    let req = client.light_color_request(3, &x, &y);
    assert_eq!(req.url, "http://10.0.0.1/api/abc123/lights/3/state");
    assert_eq!(req.body, r#"{"xy": [0.1, 0.2]}"#);
}

#[test]
fn str_eq_is_exact_and_case_sensitive() {
    assert!(str_eq("", ""));
    assert!(str_eq("on", "on"));
    assert!(!str_eq("on", "On"));
    assert!(!str_eq("on", "only"));
    assert!(str_eq("zo\u{e9}", "zo\u{e9}"));
    assert!(!str_eq("zo\u{e9}", "zoe"));
}

#[test]
fn config_ip_and_user_flow_into_every_request() {
    let text = r#"{"ip": "192.168.1.50", "user": "key9"}"#;
    let client = HueClient::from_config(text).unwrap();
    let cmd = parse_toggle(0, "off").unwrap();
    let req = dispatch(&client, &cmd);
    assert_eq!(req.url, "http://192.168.1.50/api/key9/groups/0/action");
}
