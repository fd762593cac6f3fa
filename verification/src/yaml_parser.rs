//! The document parser: text in, structured value out, behind a trusted
//! boundary around the YAML engine.
use vstd::prelude::*;

verus! {

/// A parse failure: an optional 1-based location and a reason.
#[derive(Debug, Clone, PartialEq)]
pub struct ParseError {
    pub line: Option<u64>,
    pub column: Option<u64>,
    pub reason: String,
}

impl ParseError {
    /// A location-free failure with the given reason.
    pub fn reason(reason: String) -> (r: ParseError)
        ensures
            r == (ParseError { line: None, column: None, reason }),
    {
        ParseError { line: None, column: None, reason }
    }

    /// The human-readable reason; the underlying engine already embeds the
    /// location in it when one is known.
    pub fn message(&self) -> (r: String)
        ensures
            r@ == self.reason@,
    {
        self.reason.clone()
    }
}

#[verifier::external_type_specification]
#[verifier::external_body]
pub struct ExYamlValue(serde_yaml::Value);

/// The structured value a document parses to, when it parses at all.
pub uninterp spec fn parsed_doc(text: Seq<char>) -> Option<crate::value::Val>;

/// The value of this crate's model that a parsed document node stands for.
pub uninterp spec fn node_model(v: serde_yaml::Value) -> crate::value::Val;

/// Relies on `serde_yaml::from_str`: parses a YAML document into a
/// structured node, or fails with a location-tagged error.
#[verifier::external_body]
fn parse_node(text: &str) -> (r: Result<serde_yaml::Value, ParseError>)
    ensures
        r is Ok <==> parsed_doc(text@) is Some,
        r is Ok ==> parsed_doc(text@) == Some(node_model(r->Ok_0)),
{
    match serde_yaml::from_str::<serde_yaml::Value>(text) {
        Ok(v) => Ok(v),
        Err(e) => Err(ParseError {
            line: e.location().map(|l| l.line() as u64),
            column: e.location().map(|l| l.column() as u64),
            reason: e.to_string(),
        }),
    }
}

/// Relies on `serde_yaml::Value`: converts a parsed node one for one into
/// the crate's value model; a number keeps its decimal text, a tagged node
/// stands for its inner value.
#[verifier::external_body]
fn convert_node(v: serde_yaml::Value) -> (r: crate::value::Val)
    ensures
        r == node_model(v),
{
    match v {
        serde_yaml::Value::Null => crate::value::Val::Null,
        serde_yaml::Value::Bool(b) => crate::value::Val::Bool(b),
        serde_yaml::Value::Number(n) => crate::value::Val::Num(n.to_string()),
        serde_yaml::Value::String(s) => crate::value::Val::Str(s),
        serde_yaml::Value::Sequence(s) => crate::value::Val::List(
            s.into_iter().map(convert_node).collect(),
        ),
        serde_yaml::Value::Mapping(m) => crate::value::Val::Dict(
            m.into_iter().map(|(k, w)| (convert_node(k), convert_node(w))).collect(),
        ),
        serde_yaml::Value::Tagged(t) => convert_node(t.value),
    }
}

/// A generic document parser.
pub struct YamlParser;

impl YamlParser {
    /// Parses a document into the structured value model; a failure carries
    /// an optional location and a reason. An empty document parses to the
    /// null value; a mapping with a duplicate key is a parse failure.
    pub fn parse(contents: &str) -> (r: Result<crate::value::Val, ParseError>)
        ensures
            r is Ok <==> parsed_doc(contents@) is Some,
            r is Ok ==> Some(r->Ok_0) == parsed_doc(contents@),
    {
        match parse_node(contents) {
            Ok(v) => Ok(convert_node(v)),
            Err(e) => Err(e),
        }
    }
}

} // verus!
