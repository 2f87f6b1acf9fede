use vstd::prelude::*;
use vstd::string::StringExecFns;
use crate::config::BridgeConfig;
use crate::config::ColorPreset;
use crate::config::Coord;
use crate::decimal::dec_spec;
use crate::decimal::usize_to_decimal;
use crate::errors::HueError;
use crate::jsondoc::json_doc;
use crate::load::config_matches_doc;
use crate::load::doc_ok;
use crate::load::load_config;

verus! {

/// One outbound bridge call, fully built: the URL to PUT to and the JSON
/// body to send. The transport around the library performs it.
#[derive(Debug)]
pub struct Request {
    pub url: String,
    pub body: String,
}

/// The URL that addresses a light group's action endpoint.
pub open spec fn group_action_url_spec(ip: Seq<char>, user: Seq<char>, group: int) -> Seq<char> {
    "http://"@ + ip + "/api/"@ + user + "/groups/"@ + dec_spec(group) + "/action"@
}

/// The URL that addresses a single light's state endpoint.
pub open spec fn light_state_url_spec(ip: Seq<char>, user: Seq<char>, light: int) -> Seq<char> {
    "http://"@ + ip + "/api/"@ + user + "/lights/"@ + dec_spec(light) + "/state"@
}

/// Law: a group action URL embeds the configured bridge address and user key
/// exactly, each at its fixed place: the address right after the scheme, the
/// key right after `/api/`.
pub proof fn lemma_url_embeds_credentials(ip: Seq<char>, user: Seq<char>, group: int)
    ensures
        group_action_url_spec(ip, user, group).subrange(7, 7 + ip.len() as int) == ip,
        group_action_url_spec(ip, user, group).subrange(
            12 + ip.len() as int,
            12 + ip.len() as int + user.len() as int,
        ) == user,
{
    reveal_strlit("http://");
    reveal_strlit("/api/");
    assert(group_action_url_spec(ip, user, group).subrange(7, 7 + ip.len() as int) =~= ip);
    assert(group_action_url_spec(ip, user, group).subrange(
        12 + ip.len() as int,
        12 + ip.len() as int + user.len() as int,
    ) =~= user);
}

/// The JSON body that turns a group or light on or off.
pub open spec fn on_body_spec(on: bool) -> Seq<char> {
    if on {
        "{\"on\": true}"@
    } else {
        "{\"on\": false}"@
    }
}

/// Law: the two power bodies are distinct, so a toggle's direction is always
/// visible in the request that leaves.
pub proof fn lemma_on_bodies_differ()
    ensures
        on_body_spec(true) != on_body_spec(false),
{
    reveal_strlit("{\"on\": true}");
    reveal_strlit("{\"on\": false}");
    assert(on_body_spec(true).len() != on_body_spec(false).len());
}

/// The JSON body that sets an xy color from two coordinate texts.
pub open spec fn xy_body_spec(x: Seq<char>, y: Seq<char>) -> Seq<char> {
    "{\"xy\": ["@ + x + ", "@ + y + "]}"@
}

/// Builds the power body, exactly per `on_body_spec`.
pub fn on_body(on: bool) -> (r: String)
    ensures
        r@ == on_body_spec(on),
{
    if on {
        String::from_str("{\"on\": true}")
    } else {
        String::from_str("{\"on\": false}")
    }
}

/// Builds the color body, exactly per `xy_body_spec`.
pub fn xy_body(x: &Coord, y: &Coord) -> (r: String)
    ensures
        r@ == xy_body_spec(x.text@, y.text@),
{
    let mut body = String::from_str("{\"xy\": [");
    body.append(x.text.as_str());
    body.append(", ");
    body.append(y.text.as_str());
    body.append("]}");
    proof {
        assert(body@ =~= xy_body_spec(x.text@, y.text@));
    }
    body
}

/// The configured bridge client: address, user key and presets, as the
/// configuration file gave them.
#[derive(Debug)]
pub struct HueClient {
    pub ip: String,
    pub user: String,
    pub colors: Vec<ColorPreset>,
}

impl HueClient {
    pub open spec fn wf(&self) -> bool {
        &&& self.ip@.len() > 0
        &&& self.user@.len() > 0
        &&& forall|i: int| 0 <= i < self.colors@.len() ==> (#[trigger] self.colors@[i]).wf()
    }

    /// A client from a validated configuration, field for field.
    pub fn from_bridge_config(c: BridgeConfig) -> (r: HueClient)
        ensures
            r.ip@ == c.ip@,
            r.user@ == c.user@,
            r.colors@ == c.colors@,
            c.wf() ==> r.wf(),
    {
        HueClient { ip: c.ip, user: c.user, colors: c.colors }
    }

    /// A client straight from the text of the configuration file: it
    /// succeeds exactly when `load_config` does, and carries the document's
    /// fields verbatim.
    pub fn from_config(text: &str) -> (r: Result<HueClient, HueError>)
        ensures
            (r is Ok) == (json_doc(text@) matches Some(d) && doc_ok(d)),
            r matches Ok(c) ==> (json_doc(text@) matches Some(d) && config_matches_doc(
                d,
                c.ip@,
                c.user@,
                c.colors@,
            )),
            r matches Ok(c) ==> c.wf(),
            r is Err ==> r == Err::<HueClient, HueError>(HueError::ConfigParse),
    {
        match load_config(text) {
            Ok(c) => Ok(HueClient::from_bridge_config(c)),
            Err(e) => Err(e),
        }
    }

    /// The action URL of a group, exactly per `group_action_url_spec`.
    pub fn group_action_url(&self, group: usize) -> (r: String)
        ensures
            r@ == group_action_url_spec(self.ip@, self.user@, group as int),
    {
        let mut url = String::from_str("http://");
        url.append(self.ip.as_str());
        url.append("/api/");
        url.append(self.user.as_str());
        url.append("/groups/");
        let g = usize_to_decimal(group);
        url.append(g.as_str());
        url.append("/action");
        proof {
            assert(url@ =~= group_action_url_spec(self.ip@, self.user@, group as int));
        }
        url
    }

    /// The state URL of a single light, exactly per `light_state_url_spec`.
    pub fn light_state_url(&self, light: usize) -> (r: String)
        ensures
            r@ == light_state_url_spec(self.ip@, self.user@, light as int),
    {
        let mut url = String::from_str("http://");
        url.append(self.ip.as_str());
        url.append("/api/");
        url.append(self.user.as_str());
        url.append("/lights/");
        let l = usize_to_decimal(light);
        url.append(l.as_str());
        url.append("/state");
        proof {
            assert(url@ =~= light_state_url_spec(self.ip@, self.user@, light as int));
        }
        url
    }

    /// The request that turns a group on or off.
    pub fn group_on_request(&self, group: usize, on: bool) -> (r: Request)
        ensures
            r.url@ == group_action_url_spec(self.ip@, self.user@, group as int),
            r.body@ == on_body_spec(on),
    {
        Request { url: self.group_action_url(group), body: on_body(on) }
    }

    /// The request that sets a group's color.
    pub fn group_color_request(&self, group: usize, x: &Coord, y: &Coord) -> (r: Request)
        ensures
            r.url@ == group_action_url_spec(self.ip@, self.user@, group as int),
            r.body@ == xy_body_spec(x.text@, y.text@),
    {
        Request { url: self.group_action_url(group), body: xy_body(x, y) }
    }

    /// The request that turns a single light on or off.
    pub fn light_on_request(&self, light: usize, on: bool) -> (r: Request)
        ensures
            r.url@ == light_state_url_spec(self.ip@, self.user@, light as int),
            r.body@ == on_body_spec(on),
    {
        Request { url: self.light_state_url(light), body: on_body(on) }
    }

    /// The request that sets a single light's color.
    pub fn light_color_request(&self, light: usize, x: &Coord, y: &Coord) -> (r: Request)
        ensures
            r.url@ == light_state_url_spec(self.ip@, self.user@, light as int),
            r.body@ == xy_body_spec(x.text@, y.text@),
    {
        Request { url: self.light_state_url(light), body: xy_body(x, y) }
    }
}

} // verus!
