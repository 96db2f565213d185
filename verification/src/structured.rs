//! Structured documents: TOML manifests, JSON manifests and diagnostics,
//! YAML workflows, as the parsers read them, in one model of strings,
//! mappings and lists.
use vstd::prelude::*;
use crate::text::str_eq;

verus! {

/// A parsed value: a string, a boolean, a JSON number (with its value
/// where it is an unsigned 64-bit integer), a mapping (its entries in the
/// parser's order), a list, or anything else (TOML and YAML numbers, null,
/// dates).
#[derive(Debug)]
pub enum DocValue {
    Str(String),
    Bool(bool),
    Number(Option<u64>),
    Mapping(Vec<(DocValue, DocValue)>),
    List(Vec<DocValue>),
    Other,
}

#[verifier::external_type_specification]
#[verifier::external_body]
pub struct ExTomlValue(toml::Value);

#[verifier::external_type_specification]
#[verifier::external_body]
pub struct ExJsonValue(serde_json::Value);

#[verifier::external_type_specification]
#[verifier::external_body]
pub struct ExYamlValue(serde_yaml::Value);

/// What `toml::from_str` gives a text, as a model; `None` where it fails.
pub uninterp spec fn toml_parse_of(text: Seq<char>) -> Option<DocValue>;

/// What `serde_json::from_str` gives a text, as a model; `None` where it
/// fails.
pub uninterp spec fn json_parse_of(text: Seq<char>) -> Option<DocValue>;

/// What `serde_yaml::from_str` gives a text, as a model; `None` where it
/// fails.
pub uninterp spec fn yaml_parse_of(text: Seq<char>) -> Option<DocValue>;

/// A `toml::Value` as a model: strings, booleans, tables (keys as strings, in the
/// table's order) and arrays kept, every other value `Other`.
#[verifier::external_body]
fn doc_of_toml(value: &toml::Value) -> DocValue {
    match value {
        toml::Value::String(text) => DocValue::Str(text.clone()),
        toml::Value::Boolean(flag) => DocValue::Bool(*flag),
        toml::Value::Array(items) => DocValue::List(items.iter().map(doc_of_toml).collect()),
        toml::Value::Table(table) => DocValue::Mapping(
            table.iter().map(|(key, item)| (DocValue::Str(key.clone()), doc_of_toml(item))).collect(),
        ),
        _ => DocValue::Other,
    }
}

/// A `serde_json::Value` as a model: strings, booleans, numbers (as
/// `as_u64` reads them), objects (keys as strings, in
/// the object's order) and arrays kept, every other value `Other`.
#[verifier::external_body]
fn doc_of_json(value: &serde_json::Value) -> DocValue {
    match value {
        serde_json::Value::String(text) => DocValue::Str(text.clone()),
        serde_json::Value::Bool(flag) => DocValue::Bool(*flag),
        serde_json::Value::Number(number) => DocValue::Number(number.as_u64()),
        serde_json::Value::Array(items) => DocValue::List(items.iter().map(doc_of_json).collect()),
        serde_json::Value::Object(map) => DocValue::Mapping(
            map.iter().map(|(key, item)| (DocValue::Str(key.clone()), doc_of_json(item))).collect(),
        ),
        _ => DocValue::Other,
    }
}

/// A `serde_yaml::Value` as a model: strings, booleans, mappings (keys and values in
/// the mapping's order) and sequences kept, every other value `Other`.
#[verifier::external_body]
fn doc_of_yaml(value: &serde_yaml::Value) -> DocValue {
    match value {
        serde_yaml::Value::String(text) => DocValue::Str(text.clone()),
        serde_yaml::Value::Bool(flag) => DocValue::Bool(*flag),
        serde_yaml::Value::Sequence(items) => DocValue::List(items.iter().map(doc_of_yaml).collect()),
        serde_yaml::Value::Mapping(map) => DocValue::Mapping(
            map.iter().map(|(key, item)| (doc_of_yaml(key), doc_of_yaml(item))).collect(),
        ),
        _ => DocValue::Other,
    }
}

/// `toml::from_str::<toml::Value>`: the text parsed and modelled, or the
/// parser's message. The contract says that the model is the one named
/// `toml_parse_of` for the text, and that an error comes exactly where that
/// name gives none; the grammar itself is not stated.
#[verifier::external_body]
fn toml_from_str(text: &str) -> (r: Result<DocValue, String>)
    ensures
        match r {
            Ok(d) => toml_parse_of(text@) == Some(d),
            Err(_) => toml_parse_of(text@) is None,
        },
{
    match toml::from_str::<toml::Value>(text) {
        Ok(value) => Ok(doc_of_toml(&value)),
        Err(error) => Err(error.to_string()),
    }
}

/// `serde_json::from_str::<serde_json::Value>`: the text parsed and
/// modelled, or the parser's message. The model is the one named
/// `json_parse_of`, and an error comes exactly where that name gives none;
/// the grammar is not stated.
#[verifier::external_body]
fn json_from_str(text: &str) -> (r: Result<DocValue, String>)
    ensures
        match r {
            Ok(d) => json_parse_of(text@) == Some(d),
            Err(_) => json_parse_of(text@) is None,
        },
{
    match serde_json::from_str::<serde_json::Value>(text) {
        Ok(value) => Ok(doc_of_json(&value)),
        Err(error) => Err(error.to_string()),
    }
}

/// The first JSON value of a text, as serde_json's streaming
/// `Deserializer` reads it (text after that value is not read); `None`
/// where no value can be read.
pub uninterp spec fn json_first_value_of(text: Seq<char>) -> Option<DocValue>;

/// `serde_json::Value::deserialize` on a `serde_json::Deserializer` over
/// the text: its first JSON value, modelled, or the parser's message. The
/// model is the one named `json_first_value_of`, and an error comes
/// exactly where that name gives none; the grammar is not stated.
#[verifier::external_body]
fn json_first_value(text: &str) -> (r: Result<DocValue, String>)
    ensures
        match r {
            Ok(d) => json_first_value_of(text@) == Some(d),
            Err(_) => json_first_value_of(text@) is None,
        },
{
    let mut deserializer = serde_json::Deserializer::from_str(text);
    match <serde_json::Value as serde::Deserialize>::deserialize(&mut deserializer) {
        Ok(value) => Ok(doc_of_json(&value)),
        Err(error) => Err(error.to_string()),
    }
}

/// The first JSON value of a text as a model, or the parser's message.
pub fn parse_json_first_value(text: &str) -> (r: Result<DocValue, String>)
    ensures
        match r {
            Ok(d) => json_first_value_of(text@) == Some(d),
            Err(_) => json_first_value_of(text@) is None,
        },
{
    json_first_value(text)
}

/// `serde_yaml::from_str::<serde_yaml::Value>`: the text parsed and
/// modelled, or the parser's message. The model is the one named
/// `yaml_parse_of`, and an error comes exactly where that name gives none;
/// the grammar is not stated.
#[verifier::external_body]
fn yaml_from_str(text: &str) -> (r: Result<DocValue, String>)
    ensures
        match r {
            Ok(d) => yaml_parse_of(text@) == Some(d),
            Err(_) => yaml_parse_of(text@) is None,
        },
{
    match serde_yaml::from_str::<serde_yaml::Value>(text) {
        Ok(value) => Ok(doc_of_yaml(&value)),
        Err(error) => Err(error.to_string()),
    }
}

/// A TOML text as a model, or the parser's message.
pub fn parse_toml(text: &str) -> (r: Result<DocValue, String>)
    ensures
        match r {
            Ok(d) => toml_parse_of(text@) == Some(d),
            Err(_) => toml_parse_of(text@) is None,
        },
{
    toml_from_str(text)
}

/// A JSON text as a model, or the parser's message.
pub fn parse_json(text: &str) -> (r: Result<DocValue, String>)
    ensures
        match r {
            Ok(d) => json_parse_of(text@) == Some(d),
            Err(_) => json_parse_of(text@) is None,
        },
{
    json_from_str(text)
}

/// A YAML text as a model, or the parser's message.
pub fn parse_yaml(text: &str) -> (r: Result<DocValue, String>)
    ensures
        match r {
            Ok(d) => yaml_parse_of(text@) == Some(d),
            Err(_) => yaml_parse_of(text@) is None,
        },
{
    yaml_from_str(text)
}

// ---------------------------------------------------------------------------
// Reading a model
// ---------------------------------------------------------------------------

/// The value is the string `key`.
pub open spec fn key_is(k: DocValue, key: Seq<char>) -> bool {
    k matches DocValue::Str(s) && s@ == key
}

/// The value of the first entry whose key is `key`.
pub open spec fn entry_for(es: Seq<(DocValue, DocValue)>, key: Seq<char>) -> Option<DocValue>
    decreases es.len(),
{
    if es.len() == 0 {
        None
    } else if key_is(es[0].0, key) {
        Some(es[0].1)
    } else {
        entry_for(es.drop_first(), key)
    }
}

/// The member `key` of a mapping; nothing for any other value.
pub open spec fn member(v: DocValue, key: Seq<char>) -> Option<DocValue> {
    match v {
        DocValue::Mapping(es) => entry_for(es@, key),
        _ => None,
    }
}

/// The value reached by following the keys of `path` from `v`.
pub open spec fn at_path(v: DocValue, path: Seq<Seq<char>>) -> Option<DocValue>
    decreases path.len(),
{
    if path.len() == 0 {
        Some(v)
    } else {
        match member(v, path[0]) {
            Some(c) => at_path(c, path.drop_first()),
            None => None,
        }
    }
}

/// The text of a string value.
pub open spec fn str_of(o: Option<DocValue>) -> Option<Seq<char>> {
    match o {
        Some(DocValue::Str(s)) => Some(s@),
        _ => None,
    }
}

/// The entries of a mapping; none for anything else.
pub open spec fn entries_of(o: Option<DocValue>) -> Seq<(DocValue, DocValue)> {
    match o {
        Some(DocValue::Mapping(es)) => es@,
        _ => Seq::empty(),
    }
}

/// The items of a list; none for anything else.
pub open spec fn items_of(o: Option<DocValue>) -> Seq<DocValue> {
    match o {
        Some(DocValue::List(xs)) => xs@,
        _ => Seq::empty(),
    }
}

pub fn is_key(k: &DocValue, key: &str) -> (b: bool)
    ensures
        b == key_is(*k, key@),
{
    match k {
        DocValue::Str(s) => str_eq(s.as_str(), key),
        _ => false,
    }
}

pub fn entry_value<'a>(es: &'a Vec<(DocValue, DocValue)>, key: &str) -> (r: Option<&'a DocValue>)
    ensures
        match r {
            Some(x) => entry_for(es@, key@) == Some(*x),
            None => entry_for(es@, key@) is None,
        },
{
    let mut i: usize = 0;
    assert(es@.subrange(0, es@.len() as int) =~= es@);
    while i < es.len()
        invariant
            i <= es.len(),
            entry_for(es@, key@) == entry_for(es@.subrange(i as int, es@.len() as int), key@),
        decreases es.len() - i,
    {
        let ghost rest = es@.subrange(i as int, es@.len() as int);
        assert(rest.drop_first() =~= es@.subrange(i + 1, es@.len() as int));
        if is_key(&es[i].0, key) {
            return Some(&es[i].1);
        }
        i += 1;
    }
    None
}

pub fn member_of<'a>(v: &'a DocValue, key: &str) -> (r: Option<&'a DocValue>)
    ensures
        match r {
            Some(x) => member(*v, key@) == Some(*x),
            None => member(*v, key@) is None,
        },
{
    match v {
        DocValue::Mapping(es) => entry_value(es, key),
        _ => None,
    }
}

pub fn path_of<'a>(v: &'a DocValue, path: &Vec<&str>) -> (r: Option<&'a DocValue>)
    ensures
        match r {
            Some(x) => at_path(*v, path@.map_values(|s: &str| s@)) == Some(*x),
            None => at_path(*v, path@.map_values(|s: &str| s@)) is None,
        },
{
    let ghost ps = path@.map_values(|s: &str| s@);
    let mut current: &DocValue = v;
    let mut i: usize = 0;
    assert(ps.subrange(0, ps.len() as int) =~= ps);
    while i < path.len()
        invariant
            i <= path.len(),
            ps == path@.map_values(|s: &str| s@),
            at_path(*v, ps) == at_path(*current, ps.subrange(i as int, ps.len() as int)),
        decreases path.len() - i,
    {
        let ghost rest = ps.subrange(i as int, ps.len() as int);
        assert(rest.drop_first() =~= ps.subrange(i + 1, ps.len() as int));
        assert(rest[0] == path@[i as int]@);
        match member_of(current, path[i]) {
            Some(next) => {
                current = next;
            },
            None => {
                return None;
            },
        }
        i += 1;
    }
    assert(ps.subrange(path.len() as int, ps.len() as int) =~= Seq::<Seq<char>>::empty());
    Some(current)
}

pub open spec fn opt_text(o: Option<String>) -> Option<Seq<char>> {
    match o {
        Some(s) => Some(s@),
        None => None,
    }
}

pub fn str_value(o: Option<&DocValue>) -> (r: Option<String>)
    ensures
        match o {
            Some(x) => opt_text(r) == str_of(Some(*x)),
            None => r is None,
        },
{
    match o {
        Some(DocValue::Str(s)) => Some(s.clone()),
        _ => None,
    }
}

} // verus!
