use vstd::prelude::*;
use crate::command::str_eq;

verus! {

/// A parsed JSON document in the library's own model, so that everything
/// read out of it is verified. Numbers are kept as their decimal text: the
/// configuration never computes on them, only carries them back out.
/// Object entries keep the parser's key order, with duplicate keys already
/// resolved by the parser.
#[derive(Debug)]
pub enum JsonDoc {
    Null,
    Bool(bool),
    Num(String),
    Str(String),
    Arr(Vec<JsonDoc>),
    Obj(Vec<(String, JsonDoc)>),
}

/// The value of the first entry with the given key, if any.
pub open spec fn field_of(entries: Seq<(String, JsonDoc)>, key: Seq<char>) -> Option<JsonDoc>
    decreases entries.len(),
{
    if entries.len() == 0 {
        None
    } else if entries[0].0@ == key {
        Some(entries[0].1)
    } else {
        field_of(entries.drop_first(), key)
    }
}

/// The named field of a document: `None` for a missing key or a non-object.
pub open spec fn doc_field(d: JsonDoc, key: Seq<char>) -> Option<JsonDoc> {
    match d {
        JsonDoc::Obj(entries) => field_of(entries@, key),
        _ => None,
    }
}

/// The named field as a string, when it is present and a JSON string.
pub open spec fn string_field(d: JsonDoc, key: Seq<char>) -> Option<String> {
    match doc_field(d, key) {
        Some(JsonDoc::Str(s)) => Some(s),
        _ => None,
    }
}

/// The named field as a number's decimal text, when it is present and a
/// JSON number.
pub open spec fn number_field(d: JsonDoc, key: Seq<char>) -> Option<String> {
    match doc_field(d, key) {
        Some(JsonDoc::Num(t)) => Some(t),
        _ => None,
    }
}

proof fn lemma_field_of_step(entries: Seq<(String, JsonDoc)>, key: Seq<char>, i: int)
    requires
        0 <= i < entries.len(),
        entries[i].0@ != key,
    ensures
        field_of(entries.skip(i), key) == field_of(entries.skip(i + 1), key),
{
    assert(entries.skip(i).len() > 0);
    assert(entries.skip(i)[0] == entries[i]);
    assert(entries.skip(i).drop_first() =~= entries.skip(i + 1));
}

/// Looks a field up in a document, exactly per `doc_field`.
pub fn doc_field_exec<'a>(d: &'a JsonDoc, key: &str) -> (r: Option<&'a JsonDoc>)
    ensures
        match doc_field(*d, key@) {
            Some(v) => r matches Some(f) && *f == v,
            None => r is None,
        },
{
    match d {
        JsonDoc::Obj(entries) => {
            let ghost whole = entries@;
            proof {
                assert(whole.skip(0) =~= whole);
            }
            let mut i: usize = 0;
            while i < entries.len()
                invariant
                    0 <= i <= whole.len(),
                    entries@ == whole,
                    doc_field(*d, key@) == field_of(whole.skip(i as int), key@),
                decreases whole.len() - i,
            {
                let entry = &entries[i];
                if str_eq(entry.0.as_str(), key) {
                    proof {
                        assert(whole.skip(i as int)[0] == whole[i as int]);
                    }
                    return Some(&entry.1);
                }
                proof {
                    lemma_field_of_step(whole, key@, i as int);
                }
                i = i + 1;
            }
            proof {
                assert(whole.skip(i as int).len() == 0);
            }
            None
        },
        _ => None,
    }
}

/// The named field as an owned string, exactly per `string_field`.
pub fn get_string_field(d: &JsonDoc, key: &str) -> (r: Option<String>)
    ensures
        r == string_field(*d, key@),
{
    match doc_field_exec(d, key) {
        Some(f) => match f {
            JsonDoc::Str(s) => Some(s.clone()),
            _ => None,
        },
        None => None,
    }
}

/// The named field as a number's decimal text, exactly per `number_field`.
pub fn get_number_field(d: &JsonDoc, key: &str) -> (r: Option<String>)
    ensures
        r == number_field(*d, key@),
{
    match doc_field_exec(d, key) {
        Some(f) => match f {
            JsonDoc::Num(t) => Some(t.clone()),
            _ => None,
        },
        None => None,
    }
}

#[verifier::external_type_specification]
#[verifier::external_body]
pub struct ExValue(serde_json::Value);

/// The parsed form of a text, in the library's model: `None` exactly when
/// the text is not well-formed JSON. Parsing is a function of the text
/// alone, so the result has a name.
pub uninterp spec fn json_doc(s: Seq<char>) -> Option<JsonDoc>;

/// Restates a parsed value in the library's model, variant for variant,
/// moving each field; a number becomes its decimal text (serde_json's
/// display form for it). Called only by `parse_document`, whose contract
/// names the composed result.
#[verifier::external_body]
fn to_doc(v: serde_json::Value) -> JsonDoc {
    match v {
        serde_json::Value::Null => JsonDoc::Null,
        serde_json::Value::Bool(b) => JsonDoc::Bool(b),
        serde_json::Value::Number(n) => JsonDoc::Num(n.to_string()),
        serde_json::Value::String(s) => JsonDoc::Str(s),
        serde_json::Value::Array(items) => JsonDoc::Arr(items.into_iter().map(to_doc).collect()),
        serde_json::Value::Object(entries) => JsonDoc::Obj(
            entries.into_iter().map(|(k, x)| (k, to_doc(x))).collect(),
        ),
    }
}

/// Relies on serde_json::from_str: whether and how a text parses is decided
/// by the text alone. The result, restated in the library's model, is what
/// `json_doc` names.
#[verifier::external_body]
pub(crate) fn parse_document(s: &str) -> (r: Option<JsonDoc>)
    ensures
        r == json_doc(s@),
{
    serde_json::from_str::<serde_json::Value>(s).ok().map(to_doc)
}

} // verus!
