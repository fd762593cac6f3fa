//! The config-file parser: the same document grammar as `YamlParser`.
pub use crate::yaml_parser::ParseError;
use crate::value::Val;
use crate::yaml_parser::{parsed_doc, YamlParser};
use vstd::prelude::*;

verus! {

/// A document parser for configuration files.
pub struct Parser;

impl Parser {
    /// Parses a document into the structured value model; a failure carries
    /// an optional location and a reason.
    pub fn parse(contents: &str) -> (r: Result<Val, ParseError>)
        ensures
            r is Ok <==> parsed_doc(contents@) is Some,
            r is Ok ==> Some(r->Ok_0) == parsed_doc(contents@),
    {
        YamlParser::parse(contents)
    }
}

} // verus!
