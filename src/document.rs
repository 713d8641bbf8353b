//! A parsed configuration document as plain values, and the parsers of the
//! supported formats that produce it.

use vstd::prelude::*;

verus! {

/// A parsed document: the data model shared by TOML, YAML and JSON.
#[derive(Debug)]
pub enum Doc {
    Null,
    Bool(bool),
    /// A number; the configuration never reads its value.
    Number,
    Str(String),
    Array(Vec<Doc>),
    /// The entries of a table, in the parser's order.
    Object(Vec<(String, Doc)>),
}

#[verifier::external_type_specification]
#[verifier::external_body]
pub struct ExJsonValue(serde_json::Value);

/// What `toml::from_str` makes of a text, as a document, or its error message.
pub uninterp spec fn toml_doc(content: Seq<char>) -> Result<Doc, Seq<char>>;

/// What `serde_yaml::from_str` makes of a text, as a document, or its error message.
pub uninterp spec fn yaml_doc(content: Seq<char>) -> Result<Doc, Seq<char>>;

/// What `serde_json::from_str` makes of a text, as a document, or its error message.
pub uninterp spec fn json_doc(content: Seq<char>) -> Result<Doc, Seq<char>>;

/// What `json5::from_str` makes of a text, as a document, or its error message.
pub uninterp spec fn json5_doc(content: Seq<char>) -> Result<Doc, Seq<char>>;

/// Moves a `serde_json::Value` into a document, variant for variant.
#[verifier::external_body]
fn doc_of(v: serde_json::Value) -> Doc {
    match v {
        serde_json::Value::Null => Doc::Null,
        serde_json::Value::Bool(b) => Doc::Bool(b),
        serde_json::Value::Number(_) => Doc::Number,
        serde_json::Value::String(s) => Doc::Str(s),
        serde_json::Value::Array(a) => Doc::Array(a.into_iter().map(doc_of).collect()),
        serde_json::Value::Object(m) => Doc::Object(m.into_iter().map(|(k, v)| (k, doc_of(v))).collect()),
    }
}

/// Relies on `toml::from_str`: the document that a TOML text holds, which
/// depends on the text alone.
#[verifier::external_body]
pub(crate) fn parse_toml(content: &str) -> (r: Result<Doc, String>)
    ensures
        match r {
            Ok(d) => toml_doc(content@) == Ok::<Doc, Seq<char>>(d),
            Err(e) => toml_doc(content@) == Err::<Doc, Seq<char>>(e@),
        },
{
    toml::from_str::<serde_json::Value>(content).map(doc_of).map_err(|e| e.to_string())
}

/// Relies on `serde_yaml::from_str`: the document that a YAML text holds,
/// which depends on the text alone.
#[verifier::external_body]
pub(crate) fn parse_yaml(content: &str) -> (r: Result<Doc, String>)
    ensures
        match r {
            Ok(d) => yaml_doc(content@) == Ok::<Doc, Seq<char>>(d),
            Err(e) => yaml_doc(content@) == Err::<Doc, Seq<char>>(e@),
        },
{
    serde_yaml::from_str::<serde_json::Value>(content).map(doc_of).map_err(|e| e.to_string())
}

/// Relies on `serde_json::from_str`: the document that a JSON text holds,
/// which depends on the text alone.
#[verifier::external_body]
pub(crate) fn parse_json(content: &str) -> (r: Result<Doc, String>)
    ensures
        match r {
            Ok(d) => json_doc(content@) == Ok::<Doc, Seq<char>>(d),
            Err(e) => json_doc(content@) == Err::<Doc, Seq<char>>(e@),
        },
{
    serde_json::from_str::<serde_json::Value>(content).map(doc_of).map_err(|e| e.to_string())
}

/// Relies on `json5::from_str`: the document that a JSON5 text (JSON with
/// comments and relaxed syntax) holds, which depends on the text alone.
#[verifier::external_body]
pub(crate) fn parse_json5(content: &str) -> (r: Result<Doc, String>)
    ensures
        match r {
            Ok(d) => json5_doc(content@) == Ok::<Doc, Seq<char>>(d),
            Err(e) => json5_doc(content@) == Err::<Doc, Seq<char>>(e@),
        },
{
    json5::from_str::<serde_json::Value>(content).map(doc_of).map_err(|e| e.to_string())
}

} // verus!
