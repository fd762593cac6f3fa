//! The template renderer: executes template text against one fixed context
//! through a prepared engine registry, and maps every engine failure into
//! the renderer's own stable error shape, so that callers never see the
//! engine's error type.
use crate::strutil::{append_dec, push_char, spec_dec};
use handlebars::RenderErrorReason;
use vstd::prelude::*;

verus! {

#[verifier::external_type_specification]
#[verifier::external_body]
pub struct ExHandlebars<'a>(handlebars::Handlebars<'a>);

#[verifier::external_type_specification]
#[verifier::external_body]
pub struct ExHbRenderError(handlebars::RenderError);

#[verifier::external_type_specification]
#[verifier::external_body]
pub struct ExJsonValue(serde_json::Value);

/// An engine failure as plain data: the failure kind, and the engine's
/// position fields when it fills them.
#[derive(Debug, Clone, PartialEq)]
pub enum EngineFail {
    TemplateSyntax(String, Option<(u64, u64)>),
    MissingVariable(Option<String>),
    ParamTypeMismatch(String, String, String),
    HelperNotFound(String),
    Other(String),
}

/// An engine failure with the engine's outer position fields.
#[derive(Debug, Clone, PartialEq)]
pub struct EngineError {
    pub line: Option<u64>,
    pub column: Option<u64>,
    pub fail: EngineFail,
}

/// A rendering failure in the renderer's own stable shape: a reason, and a
/// 1-based source location when the engine provided one.
#[derive(Debug, Clone, PartialEq)]
pub struct RenderFailure {
    pub line: Option<u64>,
    pub column: Option<u64>,
    pub reason: String,
}

/// Relies on `handlebars::RenderError`: reads the failure kind and the
/// position fields, moving each into plain data, one arm per kind.
#[verifier::external_body]
fn classify_engine_error(e: handlebars::RenderError) -> (r: EngineError) {
    let line = e.line_no.map(|n| n as u64);
    let column = e.column_no.map(|n| n as u64);
    let fail = match e.reason() {
        RenderErrorReason::TemplateError(t) => EngineFail::TemplateSyntax(t.reason().to_string(), t.pos().map(|(l, c)| (l as u64, c as u64))),
        RenderErrorReason::MissingVariable(n) => EngineFail::MissingVariable(n.clone()),
        RenderErrorReason::ParamTypeMismatchForName(h, p, t) => EngineFail::ParamTypeMismatch(h.to_string(), p.clone(), t.clone()),
        RenderErrorReason::HelperNotFound(n) => EngineFail::HelperNotFound(n.clone()),
        reason => EngineFail::Other(reason.to_string()),
    };
    EngineError { line, column, fail }
}

/// Relies on `handlebars::Handlebars::render_template`: renders template
/// text against the given context; the outcome depends on the registry's
/// helpers and settings.
#[verifier::external_body]
fn hb_render(
    registry: &handlebars::Handlebars<'static>,
    template: &str,
    context: &serde_json::Value,
) -> (r: Result<String, handlebars::RenderError>) {
    registry.render_template(template, context)
}

/// The reason text for each failure kind: a template error keeps the
/// engine's message; the other kinds get fixed renderer-owned phrasings.
pub open spec fn spec_reason_text(f: EngineFail) -> Seq<char> {
    match f {
        EngineFail::TemplateSyntax(msg, pos) => msg@,
        EngineFail::MissingVariable(name) => match name {
            Some(n) => "missing variable '"@ + n@ + seq!['\''],
            None => "missing variable"@,
        },
        EngineFail::ParamTypeMismatch(helper, param, expected) => "helper '"@ + helper@
            + "' expected '"@ + expected@ + "' value for param '"@ + param@ + seq!['\''],
        EngineFail::HelperNotFound(name) => "undefined helper '"@ + name@ + seq!['\''],
        EngineFail::Other(msg) => msg@,
    }
}

/// The line of a failure: a template error's own position wins over the
/// engine's outer position fields.
pub open spec fn spec_failure_line(e: EngineError) -> Option<u64> {
    match e.fail {
        EngineFail::TemplateSyntax(msg, pos) => match pos {
            Some(p) => Some(p.0),
            None => e.line,
        },
        _ => e.line,
    }
}

pub open spec fn spec_failure_column(e: EngineError) -> Option<u64> {
    match e.fail {
        EngineFail::TemplateSyntax(msg, pos) => match pos {
            Some(p) => Some(p.1),
            None => e.column,
        },
        _ => e.column,
    }
}

/// Whether `r` is the stable shape of the engine failure `e`.
pub open spec fn spec_mapped_failure(r: RenderFailure, e: EngineError) -> bool {
    &&& r.reason@ == spec_reason_text(e.fail)
    &&& r.line == spec_failure_line(e)
    &&& r.column == spec_failure_column(e)
}

/// Maps an engine failure into the renderer's stable shape: the reason is
/// rephrased per kind, and a template error's own position wins.
pub fn map_engine_error(e: EngineError) -> (r: RenderFailure)
    ensures
        spec_mapped_failure(r, e),
{
    let (line, column) = match &e.fail {
        EngineFail::TemplateSyntax(msg, pos) => match pos {
            Some(p) => (Some(p.0), Some(p.1)),
            None => (e.line, e.column),
        },
        _ => (e.line, e.column),
    };
    let reason = match e.fail {
        EngineFail::TemplateSyntax(msg, pos) => msg,
        EngineFail::MissingVariable(name) => match name {
            Some(n) => {
                let mut m = String::from_str("missing variable '");
                m.append(n.as_str());
                push_char(&mut m, '\'');
                assert(m@ =~= "missing variable '"@ + n@ + seq!['\'']);
                m
            },
            None => String::from_str("missing variable"),
        },
        EngineFail::ParamTypeMismatch(helper, param, expected) => {
            let mut m = String::from_str("helper '");
            m.append(helper.as_str());
            m.append("' expected '");
            m.append(expected.as_str());
            m.append("' value for param '");
            m.append(param.as_str());
            push_char(&mut m, '\'');
            assert(m@ =~= "helper '"@ + helper@ + "' expected '"@ + expected@
                + "' value for param '"@ + param@ + seq!['\'']);
            m
        },
        EngineFail::HelperNotFound(name) => {
            let mut m = String::from_str("undefined helper '");
            m.append(name.as_str());
            push_char(&mut m, '\'');
            assert(m@ =~= "undefined helper '"@ + name@ + seq!['\'']);
            m
        },
        EngineFail::Other(msg) => msg,
    };
    RenderFailure { line, column, reason }
}

/// The user-visible message: the reason, with ` at line L` and ` column C`
/// appended when the location is known.
pub open spec fn spec_failure_message(r: RenderFailure) -> Seq<char> {
    r.reason@ + match r.line {
        Some(l) => " at line "@ + spec_dec(l as int) + match r.column {
            Some(c) => " column "@ + spec_dec(c as int),
            None => Seq::empty(),
        },
        None => Seq::empty(),
    }
}

impl RenderFailure {
    /// A failure with a bare reason and no location.
    pub fn reason(reason: String) -> (r: RenderFailure)
        ensures
            r == (RenderFailure { line: None, column: None, reason }),
    {
        RenderFailure { line: None, column: None, reason }
    }

    pub fn message(&self) -> (r: String)
        ensures
            r@ == spec_failure_message(*self),
    {
        let mut m = self.reason.clone();
        match self.line {
            Some(l) => {
                m.append(" at line ");
                append_dec(&mut m, l);
                match self.column {
                    Some(c) => {
                        m.append(" column ");
                        append_dec(&mut m, c);
                    },
                    None => {},
                }
            },
            None => {},
        }
        assert(m@ =~= spec_failure_message(*self));
        m
    }
}

/// Renders templates against one fixed context through a prepared engine
/// registry. The caller builds the registry — strict mode and the helper
/// set — and the context value; both stay fixed for the renderer's life.
pub struct Renderer {
    registry: handlebars::Handlebars<'static>,
    context: serde_json::Value,
}

impl Renderer {
    pub fn new(registry: handlebars::Handlebars<'static>, context: serde_json::Value) -> (r:
        Renderer) {
        Renderer { registry, context }
    }

    /// Renders template text against the context: the engine's output, or
    /// its failure mapped into the renderer's own stable shape.
    pub fn render(&self, template: &str) -> (r: Result<String, RenderFailure>)
        ensures
            r is Err ==> exists|e: EngineError| #[trigger] spec_mapped_failure(r->Err_0, e),
    {
        match hb_render(&self.registry, template, &self.context) {
            Ok(s) => Ok(s),
            Err(e) => {
                let classified = classify_engine_error(e);
                let failure = map_engine_error(classified);
                let out: Result<String, RenderFailure> = Err(failure);
                proof {
                    assert(spec_mapped_failure(out->Err_0, classified));
                }
                out
            },
        }
    }
}

} // verus!
