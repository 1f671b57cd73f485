//! The parsed form of a configuration document: a list of top-level key-value
//! pairs, each value a [`TomlValue`]. The `toml` crate reads the raw text;
//! everything this crate's schema later does with the tree is verified.

use vstd::prelude::*;
use toml::Value as TV;

verus! {

/// A TOML value as the schema sees it: the scalar shapes it reads, one level
/// of tables for profiles, and `Other` for every shape it rejects (floats,
/// arrays, datetimes, tables nested below a profile), carrying the TOML
/// reader's name for that shape.
#[derive(Debug, PartialEq)]
pub enum TomlValue {
    Int(i64),
    Text(String),
    Bool(bool),
    Table(Vec<(String, TomlValue)>),
    Other(String),
}

/// The human-readable name of a value's shape, as the TOML reader gives it.
pub open spec fn shape(v: TomlValue) -> Seq<char> {
    match v {
        TomlValue::Int(_) => "integer"@,
        TomlValue::Text(_) => "string"@,
        TomlValue::Bool(_) => "boolean"@,
        TomlValue::Table(_) => "table"@,
        TomlValue::Other(s) => s@,
    }
}

/// The entries of a table value; the empty list for any other shape.
pub open spec fn table_entries(v: TomlValue) -> Seq<(String, TomlValue)> {
    match v {
        TomlValue::Table(es) => es@,
        _ => Seq::empty(),
    }
}

/// The tree that the TOML reader yields for `s`, or `None` where `s` is not
/// well-formed TOML. The reader's output is a function of the text alone.
pub uninterp spec fn toml_tree(s: Seq<char>) -> Option<Seq<(String, TomlValue)>>;

/// Relies on `str::parse::<toml::Table>` (the `toml` crate's reader): it
/// accepts exactly the well-formed TOML documents and yields the document's
/// top-level table, each value converted shape for shape into a [`TomlValue`]
/// (`toml::Value::type_str` names the shapes the schema rejects). `toml_tree`
/// names the resulting tree; the error is the reader's own message.
#[verifier::external_body]
pub(crate) fn parse_toml(s: &str) -> (r: Result<Vec<(String, TomlValue)>, String>)
    ensures
        r is Ok <==> toml_tree(s@) is Some,
        r matches Ok(d) ==> toml_tree(s@) == Some(d@),
{
    let t: toml::Table = match s.parse() {
        Ok(t) => t,
        Err(e) => return Err(e.to_string()),
    };
    let conv = |v: TV| match v {
        TV::Integer(i) => TomlValue::Int(i),
        TV::String(x) => TomlValue::Text(x),
        TV::Boolean(b) => TomlValue::Bool(b),
        v => TomlValue::Other(v.type_str().to_owned()),
    };
    Ok(t.into_iter().map(|(k, v)| (k, match v {
        TV::Table(p) => TomlValue::Table(p.into_iter().map(|(k2, v2)| (k2, conv(v2))).collect()),
        v => conv(v),
    })).collect())
}

} // verus!
