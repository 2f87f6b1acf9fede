use vstd::prelude::*;
use crate::client::HueClient;
use crate::client::Request;
use crate::client::group_action_url_spec;
use crate::client::on_body_spec;
use crate::client::xy_body_spec;
use crate::config::ColorPreset;
use crate::config::Coord;
use crate::errors::HueError;
use crate::numtext::is_json_number;
use crate::numtext::check_json_number;

verus! {

/// A parsed command line: either toggle a group's power, or set its color
/// to an xy pair (given directly or resolved from a preset).
#[derive(Debug)]
pub enum Command {
    Toggle { group: usize, on: bool },
    Color { group: usize, x: Coord, y: Coord },
}

/// Character-for-character equality of two texts.
pub fn str_eq(a: &str, b: &str) -> (r: bool)
    ensures
        r == (a@ == b@),
{
    let n = a.unicode_len();
    let m = b.unicode_len();
    if n != m {
        return false;
    }
    let mut i: usize = 0;
    while i < n
        invariant
            0 <= i <= n,
            n == a@.len(),
            n == b@.len(),
            forall|j: int| 0 <= j < i ==> a@[j] == b@[j],
        decreases n - i,
    {
        if a.get_char(i) != b.get_char(i) {
            return false;
        }
        i = i + 1;
    }
    proof {
        assert(a@ =~= b@);
    }
    true
}

/// The first preset whose name is the one asked for, if any; names need not
/// be unique, so the earliest match wins.
pub open spec fn find_preset(ps: Seq<ColorPreset>, name: Seq<char>) -> Option<ColorPreset>
    decreases ps.len(),
{
    if ps.len() == 0 {
        None
    } else if ps[0].name@ == name {
        Some(ps[0])
    } else {
        find_preset(ps.drop_first(), name)
    }
}

proof fn lemma_find_preset_step(ps: Seq<ColorPreset>, name: Seq<char>, i: int)
    requires
        0 <= i < ps.len(),
        ps[i].name@ != name,
    ensures
        find_preset(ps.skip(i), name) == find_preset(ps.skip(i + 1), name),
{
    assert(ps.skip(i).len() > 0);
    assert(ps.skip(i)[0] == ps[i]);
    assert(ps.skip(i).drop_first() =~= ps.skip(i + 1));
}

/// Position `i` holds the first preset whose name is the one asked for.
pub open spec fn first_match_at(ps: Seq<ColorPreset>, name: Seq<char>, i: int) -> bool {
    &&& 0 <= i < ps.len()
    &&& ps[i].name@ == name
    &&& forall|j: int| 0 <= j < i ==> (#[trigger] ps[j]).name@ != name
}

/// Law: preset lookup finds nothing exactly when no name matches, and what
/// it finds is the preset at the first matching position — names need not be
/// unique, the earliest wins.
pub proof fn lemma_find_preset_first_match(ps: Seq<ColorPreset>, name: Seq<char>)
    ensures
        (find_preset(ps, name) is None) == (forall|i: int|
            0 <= i < ps.len() ==> (#[trigger] ps[i]).name@ != name),
        find_preset(ps, name) matches Some(p) ==> exists|i: int|
            #[trigger] first_match_at(ps, name, i) && ps[i] == p,
    decreases ps.len(),
{
    if ps.len() == 0 {
    } else if ps[0].name@ == name {
        assert(first_match_at(ps, name, 0));
    } else {
        let tail = ps.drop_first();
        lemma_find_preset_first_match(tail, name);
        if find_preset(ps, name) is None {
            assert forall|i: int| 0 <= i < ps.len() implies (#[trigger] ps[i]).name@
                != name by {
                if i > 0 {
                    assert(tail[i - 1] == ps[i]);
                }
            }
        } else {
            assert forall|i: int| 0 <= i < tail.len() implies tail[i] == ps[i + 1] by {}
            let wit = choose|i: int| #[trigger] first_match_at(tail, name, i) && tail[i]
                == find_preset(ps, name).unwrap();
            assert forall|j: int| 0 <= j < wit + 1 implies (#[trigger] ps[j]).name@
                != name by {
                if j > 0 {
                    assert(tail[j - 1] == ps[j]);
                }
            }
            assert(first_match_at(ps, name, wit + 1));
        }
        if forall|i: int| 0 <= i < ps.len() ==> (#[trigger] ps[i]).name@ != name {
            assert forall|i: int| 0 <= i < tail.len() implies (#[trigger] tail[i]).name@
                != name by {
                assert(tail[i] == ps[i + 1]);
            }
        }
    }
}

/// Looks a preset up by name; `PresetLookup` exactly when no name matches.
pub fn lookup_preset(ps: &Vec<ColorPreset>, name: &str) -> (r: Result<ColorPreset, HueError>)
    ensures
        match find_preset(ps@, name@) {
            Some(p) => r == Ok::<ColorPreset, HueError>(p),
            None => r == Err::<ColorPreset, HueError>(HueError::PresetLookup),
        },
{
    let ghost whole = ps@;
    let mut i: usize = 0;
    proof {
        assert(whole.skip(0) =~= whole);
    }
    while i < ps.len()
        invariant
            0 <= i <= ps@.len(),
            ps@ == whole,
            find_preset(whole, name@) == find_preset(whole.skip(i as int), name@),
        decreases ps@.len() - i,
    {
        let p = &ps[i];
        if str_eq(p.name.as_str(), name) {
            proof {
                assert(whole.skip(i as int)[0] == whole[i as int]);
                assert(find_preset(whole.skip(i as int), name@) == Some(whole[i as int]));
            }
            return Ok(
                ColorPreset {
                    name: p.name.clone(),
                    x: p.x.duplicate(),
                    y: p.y.duplicate(),
                },
            );
        }
        proof {
            lemma_find_preset_step(whole, name@, i as int);
        }
        i = i + 1;
    }
    proof {
        assert(whole.skip(i as int).len() == 0);
    }
    Err(HueError::PresetLookup)
}

/// Validates the toggle status word: exactly `on` or `off`, case-sensitive;
/// anything else is a rejected argument and no command.
pub fn parse_toggle(group: usize, status: &str) -> (r: Result<Command, HueError>)
    ensures
        status@ == "on"@ ==> (r matches Ok(c) && c == (Command::Toggle { group, on: true })),
        status@ == "off"@ ==> (r matches Ok(c) && c == (Command::Toggle { group, on: false })),
        status@ != "on"@ && status@ != "off"@ ==> r == Err::<Command, HueError>(
            HueError::InvalidArgument,
        ),
{
    proof {
        reveal_strlit("on");
        reveal_strlit("off");
        assert("on"@.len() == 2);
        assert("off"@.len() == 3);
        assert("on"@ != "off"@);
    }
    if str_eq(status, "on") {
        Ok(Command::Toggle { group, on: true })
    } else if str_eq(status, "off") {
        Ok(Command::Toggle { group, on: false })
    } else {
        Err(HueError::InvalidArgument)
    }
}

/// What the color subcommand must produce for each shape of its arguments:
/// the two selection forms are mutually exclusive and one is required; a
/// direct pair must be two JSON numbers; a name resolves to the first
/// matching preset or fails the lookup.
pub open spec fn color_outcome(
    group: usize,
    xy: Option<(String, String)>,
    name: Option<String>,
    presets: Seq<ColorPreset>,
    r: Result<Command, HueError>,
) -> bool {
    match (xy, name) {
        (Some(_), Some(_)) => r == Err::<Command, HueError>(HueError::InvalidArgument),
        (None, None) => r == Err::<Command, HueError>(HueError::InvalidArgument),
        (Some(p), None) => {
            if is_json_number(p.0@) && is_json_number(p.1@) {
                r matches Ok(c) && c matches Command::Color { group: g, x, y } && g == group
                    && x.text@ == p.0@ && y.text@ == p.1@
            } else {
                r == Err::<Command, HueError>(HueError::InvalidArgument)
            }
        },
        (None, Some(nm)) => match find_preset(presets, nm@) {
            Some(p) => r matches Ok(c) && c matches Command::Color { group: g, x, y } && g
                == group && x.text@ == p.x.text@ && y.text@ == p.y.text@,
            None => r == Err::<Command, HueError>(HueError::PresetLookup),
        },
    }
}

/// Builds the color command. Exactly one of the two selection forms must be
/// given; see `color_outcome` for the full contract.
pub fn parse_color(
    group: usize,
    xy: Option<(String, String)>,
    name: Option<String>,
    presets: &Vec<ColorPreset>,
) -> (r: Result<Command, HueError>)
    ensures
        color_outcome(group, xy, name, presets@, r),
{
    match (xy, name) {
        (Some(_), Some(_)) => Err(HueError::InvalidArgument),
        (None, None) => Err(HueError::InvalidArgument),
        (Some(p), None) => {
            if check_json_number(p.0.as_str()) && check_json_number(p.1.as_str()) {
                Ok(Command::Color { group, x: Coord { text: p.0 }, y: Coord { text: p.1 } })
            } else {
                Err(HueError::InvalidArgument)
            }
        },
        (None, Some(nm)) => match lookup_preset(presets, nm.as_str()) {
            Ok(p) => Ok(Command::Color { group, x: p.x, y: p.y }),
            Err(e) => Err(e),
        },
    }
}

/// Turns a parsed command into the one bridge request it stands for: a PUT
/// to the group's action endpoint, with the power body or the color body.
pub fn dispatch(client: &HueClient, cmd: &Command) -> (r: Request)
    ensures
        *cmd matches Command::Toggle { group, on } ==> r.url@ == group_action_url_spec(
            client.ip@,
            client.user@,
            group as int,
        ) && r.body@ == on_body_spec(on),
        *cmd matches Command::Color { group, x, y } ==> r.url@ == group_action_url_spec(
            client.ip@,
            client.user@,
            group as int,
        ) && r.body@ == xy_body_spec(x.text@, y.text@),
{
    match cmd {
        Command::Toggle { group, on } => client.group_on_request(*group, *on),
        Command::Color { group, x, y } => client.group_color_request(*group, x, y),
    }
}

} // verus!

