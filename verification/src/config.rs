use vstd::prelude::*;
use crate::errors::HueError;
use crate::numtext::is_json_number;
use crate::numtext::check_json_number;

verus! {

/// One CIE xy coordinate, kept as the text of a JSON number. The bridge
/// protocol only ever carries the coordinate back out as JSON, so the digits
/// are the value the logic works with.
#[derive(Debug)]
pub struct Coord {
    pub text: String,
}

impl Coord {
    /// A coordinate is well formed when its text is a JSON number.
    pub open spec fn wf(&self) -> bool {
        is_json_number(self.text@)
    }

    /// Accepts exactly the texts that are JSON numbers; anything else is a
    /// rejected argument.
    pub fn new(text: String) -> (r: Result<Coord, HueError>)
        ensures
            (r is Ok) == is_json_number(text@),
            r matches Ok(c) ==> c.text@ == text@ && c.wf(),
            r is Err ==> r == Err::<Coord, HueError>(HueError::InvalidArgument),
    {
        if check_json_number(text.as_str()) {
            Ok(Coord { text })
        } else {
            Err(HueError::InvalidArgument)
        }
    }

    /// A copy with the same text.
    pub fn duplicate(&self) -> (r: Coord)
        ensures
            r == *self,
    {
        Coord { text: self.text.clone() }
    }
}

/// A named color: a preset name and the xy pair it stands for. Names need
/// not be unique; lookup takes the first match.
#[derive(Debug)]
pub struct ColorPreset {
    pub name: String,
    pub x: Coord,
    pub y: Coord,
}

impl ColorPreset {
    pub open spec fn wf(&self) -> bool {
        self.x.wf() && self.y.wf()
    }
}

/// The validated configuration: bridge address, API user key, and the color
/// presets. The address and key are non-empty and every preset carries JSON
/// number coordinates.
#[derive(Debug)]
pub struct BridgeConfig {
    pub ip: String,
    pub user: String,
    pub colors: Vec<ColorPreset>,
}

impl BridgeConfig {
    pub open spec fn wf(&self) -> bool {
        &&& self.ip@.len() > 0
        &&& self.user@.len() > 0
        &&& forall|i: int| 0 <= i < self.colors@.len() ==> (#[trigger] self.colors@[i]).wf()
    }
}

/// One preset as it came out of the configuration file, before validation:
/// `None` marks a field that is missing or of the wrong JSON type.
#[derive(Debug)]
pub struct RawPreset {
    pub name: Option<String>,
    pub x: Option<String>,
    pub y: Option<String>,
}

/// The preset list as it came out of the file: absent (fine, presets are
/// optional), present but not a list, or a list of raw presets.
#[derive(Debug)]
pub enum RawColors {
    Absent,
    NotList,
    List(Vec<RawPreset>),
}

/// The whole file as it came out of the JSON layer, before validation.
#[derive(Debug)]
pub struct RawConfig {
    pub ip: Option<String>,
    pub user: Option<String>,
    pub colors: RawColors,
}

/// A raw preset is acceptable when all three fields are present and both
/// coordinates are JSON numbers.
pub open spec fn preset_ok(p: RawPreset) -> bool {
    &&& p.name is Some
    &&& p.x matches Some(x) && is_json_number(x@)
    &&& p.y matches Some(y) && is_json_number(y@)
}

/// Every preset in the sequence is acceptable.
pub open spec fn presets_all_ok(ps: Seq<RawPreset>) -> bool {
    forall|i: int| 0 <= i < ps.len() ==> preset_ok(#[trigger] ps[i])
}

pub open spec fn colors_ok(c: RawColors) -> bool {
    match c {
        RawColors::Absent => true,
        RawColors::NotList => false,
        RawColors::List(ps) => presets_all_ok(ps@),
    }
}

/// A raw configuration is acceptable when the address and key are present,
/// non-empty strings and the preset list is acceptable.
pub open spec fn raw_ok(r: RawConfig) -> bool {
    &&& r.ip matches Some(ip) && ip@.len() > 0
    &&& r.user matches Some(u) && u@.len() > 0
    &&& colors_ok(r.colors)
}

/// The validated presets carry exactly the raw texts, in order.
pub open spec fn presets_match_seq(ps: Seq<RawPreset>, colors: Seq<ColorPreset>) -> bool {
    &&& colors.len() == ps.len()
    &&& forall|i: int| 0 <= i < ps.len() ==> {
        &&& (#[trigger] colors[i]).name@ == ps[i].name.unwrap()@
        &&& colors[i].x.text@ == ps[i].x.unwrap()@
        &&& colors[i].y.text@ == ps[i].y.unwrap()@
    }
}

pub open spec fn presets_match(raw: RawColors, colors: Seq<ColorPreset>) -> bool {
    match raw {
        RawColors::Absent => colors.len() == 0,
        RawColors::NotList => false,
        RawColors::List(ps) => presets_match_seq(ps@, colors),
    }
}

proof fn lemma_bad_preset(ps: Vec<RawPreset>, i: int)
    requires
        0 <= i < ps@.len(),
        !preset_ok(ps@[i]),
    ensures
        !colors_ok(RawColors::List(ps)),
{
    if colors_ok(RawColors::List(ps)) {
        assert(presets_all_ok(ps@));
        assert(preset_ok(ps@[i]));
    }
}

/// Turns a raw configuration into a validated one. Succeeds exactly on
/// acceptable raw configurations and keeps every field as it was; anything
/// else is a configuration parse failure.
pub fn resolve_config(raw: RawConfig) -> (r: Result<BridgeConfig, HueError>)
    ensures
        (r is Ok) == raw_ok(raw),
        r matches Ok(c) ==> {
            &&& c.ip@ == raw.ip.unwrap()@
            &&& c.user@ == raw.user.unwrap()@
            &&& presets_match(raw.colors, c.colors@)
            &&& c.wf()
        },
        r is Err ==> r == Err::<BridgeConfig, HueError>(HueError::ConfigParse),
{
    let ip = match raw.ip {
        Some(ip) => ip,
        None => {
            return Err(HueError::ConfigParse);
        },
    };
    let user = match raw.user {
        Some(user) => user,
        None => {
            return Err(HueError::ConfigParse);
        },
    };
    if ip.as_str().unicode_len() == 0 || user.as_str().unicode_len() == 0 {
        return Err(HueError::ConfigParse);
    }
    let colors = match raw.colors {
        RawColors::Absent => Vec::new(),
        RawColors::NotList => {
            return Err(HueError::ConfigParse);
        },
        RawColors::List(ps) => {
            let mut colors: Vec<ColorPreset> = Vec::new();
            let mut i: usize = 0;
            while i < ps.len()
                invariant
                    raw.colors == RawColors::List(ps),
                    0 <= i <= ps.len(),
                    colors@.len() == i,
                    forall|j: int| 0 <= j < i ==> preset_ok(#[trigger] ps@[j]),
                    forall|j: int| 0 <= j < i ==> {
                        &&& (#[trigger] colors@[j]).name@ == ps@[j].name.unwrap()@
                        &&& colors@[j].x.text@ == ps@[j].x.unwrap()@
                        &&& colors@[j].y.text@ == ps@[j].y.unwrap()@
                        &&& colors@[j].wf()
                    },
                decreases ps.len() - i,
            {
                let p = &ps[i];
                let name = match &p.name {
                    Some(name) => name.clone(),
                    None => {
                        proof {
                            lemma_bad_preset(ps, i as int);
                        }
                        return Err(HueError::ConfigParse);
                    },
                };
                let x = match &p.x {
                    Some(x) => x.clone(),
                    None => {
                        proof {
                            lemma_bad_preset(ps, i as int);
                        }
                        return Err(HueError::ConfigParse);
                    },
                };
                let y = match &p.y {
                    Some(y) => y.clone(),
                    None => {
                        proof {
                            lemma_bad_preset(ps, i as int);
                        }
                        return Err(HueError::ConfigParse);
                    },
                };
                if !check_json_number(x.as_str()) || !check_json_number(y.as_str()) {
                    proof {
                        lemma_bad_preset(ps, i as int);
                    }
                    return Err(HueError::ConfigParse);
                }
                colors.push(ColorPreset { name, x: Coord { text: x }, y: Coord { text: y } });
                i = i + 1;
            }
            colors
        },
    };
    Ok(BridgeConfig { ip, user, colors })
}

} // verus!
