use vstd::prelude::*;
use crate::config::BridgeConfig;
use crate::config::ColorPreset;
use crate::config::RawColors;
use crate::config::RawConfig;
use crate::config::RawPreset;
use crate::config::colors_ok;
use crate::config::preset_ok;
use crate::config::presets_all_ok;
use crate::config::presets_match;
use crate::config::raw_ok;
use crate::config::resolve_config;
use crate::errors::HueError;
use crate::jsondoc::JsonDoc;
use crate::jsondoc::doc_field;
use crate::jsondoc::doc_field_exec;
use crate::jsondoc::get_number_field;
use crate::jsondoc::get_string_field;
use crate::jsondoc::json_doc;
use crate::jsondoc::number_field;
use crate::jsondoc::parse_document;
use crate::jsondoc::string_field;
use crate::numtext::is_json_number;

verus! {

/// A preset entry of the document is acceptable when it has a string name
/// and two number coordinates.
pub open spec fn preset_doc_ok(item: JsonDoc) -> bool {
    &&& string_field(item, "name"@) is Some
    &&& number_field(item, "x"@) matches Some(x) && is_json_number(x@)
    &&& number_field(item, "y"@) matches Some(y) && is_json_number(y@)
}

pub open spec fn presets_doc_ok(items: Seq<JsonDoc>) -> bool {
    forall|i: int| 0 <= i < items.len() ==> preset_doc_ok(#[trigger] items[i])
}

/// The document's preset list is acceptable: absent, or a list of
/// acceptable entries.
pub open spec fn colors_doc_ok(d: JsonDoc) -> bool {
    match doc_field(d, "colors"@) {
        Some(cd) => cd matches JsonDoc::Arr(items) && presets_doc_ok(items@),
        None => true,
    }
}

/// A parsed document is an acceptable configuration: non-empty string
/// fields `ip` and `user`, and an acceptable preset list.
pub open spec fn doc_ok(d: JsonDoc) -> bool {
    &&& string_field(d, "ip"@) matches Some(ip) && ip@.len() > 0
    &&& string_field(d, "user"@) matches Some(u) && u@.len() > 0
    &&& colors_doc_ok(d)
}

/// The raw preset that one entry of the document's list reads as.
pub open spec fn raw_preset_of(item: JsonDoc) -> RawPreset {
    RawPreset {
        name: string_field(item, "name"@),
        x: number_field(item, "x"@),
        y: number_field(item, "y"@),
    }
}

pub open spec fn presets_from_docs(items: Seq<JsonDoc>, ps: Seq<RawPreset>) -> bool {
    &&& ps.len() == items.len()
    &&& forall|i: int| 0 <= i < items.len() ==> #[trigger] ps[i] == raw_preset_of(items[i])
}

/// The raw configuration reads the document field for field.
pub open spec fn raw_matches_doc(d: JsonDoc, raw: RawConfig) -> bool {
    &&& raw.ip == string_field(d, "ip"@)
    &&& raw.user == string_field(d, "user"@)
    &&& match doc_field(d, "colors"@) {
        Some(cd) => match cd {
            JsonDoc::Arr(items) => raw.colors matches RawColors::List(ps) && presets_from_docs(
                items@,
                ps@,
            ),
            _ => raw.colors == RawColors::NotList,
        },
        None => raw.colors == RawColors::Absent,
    }
}

/// A validated preset carries exactly the texts of one document entry.
pub open spec fn preset_matches(item: JsonDoc, p: ColorPreset) -> bool {
    &&& p.name@ == string_field(item, "name"@).unwrap()@
    &&& p.x.text@ == number_field(item, "x"@).unwrap()@
    &&& p.y.text@ == number_field(item, "y"@).unwrap()@
}

pub open spec fn presets_match_docs(items: Seq<JsonDoc>, colors: Seq<ColorPreset>) -> bool {
    &&& colors.len() == items.len()
    &&& forall|i: int| 0 <= i < items.len() ==> preset_matches(#[trigger] items[i], colors[i])
}

/// A loaded configuration carries exactly what the document holds: the two
/// credential strings, and the preset texts in order.
pub open spec fn config_matches_doc(
    d: JsonDoc,
    ip: Seq<char>,
    user: Seq<char>,
    colors: Seq<ColorPreset>,
) -> bool {
    &&& string_field(d, "ip"@) matches Some(i2) && ip == i2@
    &&& string_field(d, "user"@) matches Some(u2) && user == u2@
    &&& match doc_field(d, "colors"@) {
        Some(cd) => cd matches JsonDoc::Arr(items) && presets_match_docs(items@, colors),
        None => colors.len() == 0,
    }
}

/// Reads one entry of the preset list, field by field.
fn extract_preset(item: &JsonDoc) -> (r: RawPreset)
    ensures
        r == raw_preset_of(*item),
{
    RawPreset {
        name: get_string_field(item, "name"),
        x: get_number_field(item, "x"),
        y: get_number_field(item, "y"),
    }
}

/// Copies out of the parsed document the fields the configuration speaks
/// of, without judging them yet.
fn extract_raw(d: &JsonDoc) -> (r: RawConfig)
    ensures
        raw_matches_doc(*d, r),
{
    let ip = get_string_field(d, "ip");
    let user = get_string_field(d, "user");
    let colors = match doc_field_exec(d, "colors") {
        None => RawColors::Absent,
        Some(cd) => match cd {
            JsonDoc::Arr(items) => {
                let mut ps: Vec<RawPreset> = Vec::new();
                let mut i: usize = 0;
                while i < items.len()
                    invariant
                        0 <= i <= items@.len(),
                        ps@.len() == i,
                        forall|j: int| 0 <= j < i ==> #[trigger] ps@[j] == raw_preset_of(
                            items@[j],
                        ),
                    decreases items@.len() - i,
                {
                    ps.push(extract_preset(&items[i]));
                    i = i + 1;
                }
                RawColors::List(ps)
            },
            _ => RawColors::NotList,
        },
    };
    RawConfig { ip, user, colors }
}

proof fn lemma_raw_doc_ok(d: JsonDoc, raw: RawConfig)
    requires
        raw_matches_doc(d, raw),
    ensures
        raw_ok(raw) == doc_ok(d),
{
    if doc_field(d, "colors"@) is Some {
        let cd = doc_field(d, "colors"@).unwrap();
        if cd is Arr {
            let items = cd->Arr_0;
            let ps = raw.colors->List_0;
            assert(raw.colors == RawColors::List(ps));
            assert(colors_ok(raw.colors) == presets_all_ok(ps@));
            if presets_all_ok(ps@) {
                assert forall|i: int| 0 <= i < items@.len() implies preset_doc_ok(
                    #[trigger] items@[i],
                ) by {
                    assert(ps@[i] == raw_preset_of(items@[i]));
                    assert(preset_ok(ps@[i]));
                }
            }
            if presets_doc_ok(items@) {
                assert forall|i: int| 0 <= i < ps@.len() implies preset_ok(
                    #[trigger] ps@[i],
                ) by {
                    assert(preset_doc_ok(items@[i]));
                    assert(ps@[i] == raw_preset_of(items@[i]));
                }
            }
            assert(colors_doc_ok(d) == presets_doc_ok(items@));
        } else {
            assert(raw.colors == RawColors::NotList);
            assert(!colors_doc_ok(d));
        }
    } else {
        assert(raw.colors == RawColors::Absent);
        assert(colors_doc_ok(d));
    }
}

proof fn lemma_config_matches_doc(d: JsonDoc, raw: RawConfig, c: BridgeConfig)
    requires
        raw_matches_doc(d, raw),
        raw_ok(raw),
        c.ip@ == raw.ip.unwrap()@,
        c.user@ == raw.user.unwrap()@,
        presets_match(raw.colors, c.colors@),
    ensures
        config_matches_doc(d, c.ip@, c.user@, c.colors@),
{
    if doc_field(d, "colors"@) is Some {
        let cd = doc_field(d, "colors"@).unwrap();
        if !(cd is Arr) {
            assert(raw.colors == RawColors::NotList);
            assert(!colors_ok(raw.colors));
        }
        let items = cd->Arr_0;
        let ps = raw.colors->List_0;
        assert(raw.colors == RawColors::List(ps));
        assert forall|i: int| 0 <= i < items@.len() implies preset_matches(
            #[trigger] items@[i],
            c.colors@[i],
        ) by {
            assert(ps@[i] == raw_preset_of(items@[i]));
            assert(c.colors@[i].name@ == ps@[i].name.unwrap()@);
            assert(c.colors@[i].x.text@ == ps@[i].x.unwrap()@);
            assert(c.colors@[i].y.text@ == ps@[i].y.unwrap()@);
        }
    } else {
        assert(raw.colors == RawColors::Absent);
        assert(c.colors@.len() == 0);
    }
}

/// Loads the configuration from the text of the configuration file.
/// Succeeds exactly when the text parses as JSON (`json_doc`) and the
/// document is an acceptable configuration (`doc_ok`); the result then
/// carries the document's fields verbatim (`config_matches_doc`) and is
/// well formed. Every failure is a configuration parse failure.
pub fn load_config(text: &str) -> (r: Result<BridgeConfig, HueError>)
    ensures
        (r is Ok) == (json_doc(text@) matches Some(d) && doc_ok(d)),
        r matches Ok(c) ==> (json_doc(text@) matches Some(d) && config_matches_doc(
            d,
            c.ip@,
            c.user@,
            c.colors@,
        )),
        r matches Ok(c) ==> c.wf(),
        r is Err ==> r == Err::<BridgeConfig, HueError>(HueError::ConfigParse),
{
    match parse_document(text) {
        None => Err(HueError::ConfigParse),
        Some(doc) => {
            let raw = extract_raw(&doc);
            let out = resolve_config(raw);
            proof {
                lemma_raw_doc_ok(doc, raw);
                if out is Ok {
                    lemma_config_matches_doc(doc, raw, out->Ok_0);
                }
            }
            out
        },
    }
}

} // verus!
