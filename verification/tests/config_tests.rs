use hue_cli::client::HueClient;
use hue_cli::config::Coord;
use hue_cli::errors::HueError;
use hue_cli::load::load_config;

#[test]
fn well_formed_config_yields_client_with_ip_and_user() {
    let text = r#"{"ip": "10.0.0.1", "user": "abc123"}"#;
    let client = HueClient::from_config(text).unwrap();
    assert_eq!(client.ip, "10.0.0.1");
    assert_eq!(client.user, "abc123");
    assert_eq!(client.colors.len(), 0);
    let req = client.group_on_request(1, true);
    assert_eq!(req.url, "http://10.0.0.1/api/abc123/groups/1/action");
    assert!(req.url.contains("10.0.0.1"));
    assert!(req.url.contains("abc123"));
}

#[test]
fn config_missing_ip_fails_with_parse_error() {
    let text = r#"{"user": "abc123"}"#;
    assert_eq!(load_config(text).unwrap_err(), HueError::ConfigParse);
}

#[test]
fn config_missing_user_fails_with_parse_error() {
    let text = r#"{"ip": "10.0.0.1"}"#;
    assert_eq!(load_config(text).unwrap_err(), HueError::ConfigParse);
}

#[test]
fn config_that_is_not_json_fails_with_parse_error() {
    assert_eq!(load_config("{not json").unwrap_err(), HueError::ConfigParse);
    assert_eq!(load_config("").unwrap_err(), HueError::ConfigParse);
}

#[test]
fn config_with_empty_ip_fails_with_parse_error() {
    let text = r#"{"ip": "", "user": "abc123"}"#;
    assert_eq!(load_config(text).unwrap_err(), HueError::ConfigParse);
}

#[test]
fn config_with_empty_user_fails_with_parse_error() {
    let text = r#"{"ip": "10.0.0.1", "user": ""}"#;
    assert_eq!(load_config(text).unwrap_err(), HueError::ConfigParse);
}

#[test]
fn config_with_non_string_ip_fails_with_parse_error() {
    let text = r#"{"ip": 10, "user": "abc123"}"#;
    assert_eq!(load_config(text).unwrap_err(), HueError::ConfigParse);
}

#[test]
fn config_that_is_not_an_object_fails_with_parse_error() {
    assert_eq!(load_config("[1, 2]").unwrap_err(), HueError::ConfigParse);
    assert_eq!(load_config("3").unwrap_err(), HueError::ConfigParse);
}

#[test]
fn config_without_colors_has_no_presets() {
    let text = r#"{"ip": "10.0.0.1", "user": "abc123"}"#;
    let config = load_config(text).unwrap();
    assert_eq!(config.colors.len(), 0);
}

#[test]
fn config_with_colors_keeps_them_in_order() {
    let text = r#"{"ip": "10.0.0.1", "user": "abc123",
        "colors": [{"name": "warm", "x": 0.5, "y": 0.4},
                   {"name": "cold", "x": 0.25, "y": 0.75}]}"#;
    let config = load_config(text).unwrap();
    assert_eq!(config.colors.len(), 2);
    assert_eq!(config.colors[0].name, "warm");
    assert_eq!(config.colors[0].x.text, "0.5");
    assert_eq!(config.colors[0].y.text, "0.4");
    assert_eq!(config.colors[1].name, "cold");
    assert_eq!(config.colors[1].x.text, "0.25");
    assert_eq!(config.colors[1].y.text, "0.75");
}

#[test]
fn config_with_integer_coordinates_is_accepted() {
    let text = r#"{"ip": "10.0.0.1", "user": "abc123",
        "colors": [{"name": "one", "x": 1, "y": 0}]}"#;
    let config = load_config(text).unwrap();
    assert_eq!(config.colors[0].x.text, "1");
    assert_eq!(config.colors[0].y.text, "0");
}

#[test]
fn config_with_non_list_colors_fails_with_parse_error() {
    let text = r#"{"ip": "10.0.0.1", "user": "abc123", "colors": "warm"}"#;
    assert_eq!(load_config(text).unwrap_err(), HueError::ConfigParse);
}

#[test]
fn config_preset_missing_a_field_fails_with_parse_error() {
    let text = r#"{"ip": "10.0.0.1", "user": "abc123",
        "colors": [{"name": "warm", "x": 0.5}]}"#;
    assert_eq!(load_config(text).unwrap_err(), HueError::ConfigParse);
}

#[test]
fn config_preset_with_string_coordinate_fails_with_parse_error() {
    let text = r#"{"ip": "10.0.0.1", "user": "abc123",
        "colors": [{"name": "warm", "x": "0.5", "y": 0.4}]}"#;
    assert_eq!(load_config(text).unwrap_err(), HueError::ConfigParse);
}

#[test]
fn coordinate_accepts_json_numbers_only() {
    assert_eq!(Coord::new("0.3".to_string()).unwrap().text, "0.3");
    assert_eq!(Coord::new("-1.5e10".to_string()).unwrap().text, "-1.5e10");
    assert_eq!(
        Coord::new("fern".to_string()).unwrap_err(),
        HueError::InvalidArgument
    );
}

#[test]
fn config_with_empty_colors_list_has_no_presets() {
    let text = r#"{"ip": "10.0.0.1", "user": "abc123", "colors": []}"#;
    let config = load_config(text).unwrap();
    assert_eq!(config.colors.len(), 0);
}
