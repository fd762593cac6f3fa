//! The colorscheme record: the same fixed shape of named colors as the
//! theme model, taken from a document without the hex validation step.
use crate::theme::{scheme_of, spec_scheme_of, AnsiColors, SpecialColors};
use crate::value::Val;
use crate::yaml_parser::{parsed_doc, ParseError, YamlParser};
use vstd::prelude::*;

verus! {

/// A colorscheme: special colors plus a normal and a bright palette.
#[derive(Debug, Clone, PartialEq)]
pub struct Colorscheme {
    pub special: SpecialColors,
    pub normal: AnsiColors,
    pub bright: AnsiColors,
}

impl Colorscheme {
    /// Parses a colorscheme document: the document must parse and have the
    /// three-part shape with every color field a string.
    pub fn new(yaml: &str) -> (r: Result<Colorscheme, ParseError>)
        ensures
            r is Ok <==> (parsed_doc(yaml@) is Some && spec_scheme_of(
                parsed_doc(yaml@)->Some_0,
            ) is Some),
            r is Ok ==> {
                let t = spec_scheme_of(parsed_doc(yaml@)->Some_0)->Some_0;
                r->Ok_0.special == t.special && r->Ok_0.normal == t.normal && r->Ok_0.bright
                    == t.bright
            },
    {
        let doc: Val = match YamlParser::parse(yaml) {
            Ok(v) => v,
            Err(e) => {
                return Err(e);
            },
        };
        match scheme_of(&doc) {
            Ok(t) => Ok(Colorscheme { special: t.special, normal: t.normal, bright: t.bright }),
            Err(e) => Err(e),
        }
    }
}

} // verus!
