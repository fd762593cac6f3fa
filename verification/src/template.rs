//! Template jobs and the driver that renders them. Each job runs
//! independently: a failing template yields a warning naming it and its
//! stage, and never stops the remaining templates from being processed.
use crate::files::{spec_read_error_message, spec_write_error_message, ReadError, WriteError};
use crate::paths::{join_path, spec_join};
use crate::renderer::{spec_failure_message, RenderFailure, Renderer};
use vstd::prelude::*;

verus! {

/// Why one template failed: at the read, render or write stage.
#[derive(Debug, Clone, PartialEq)]
pub enum TemplateError {
    Read(ReadError),
    Render(RenderFailure),
    Write(WriteError),
}

pub open spec fn spec_template_error_message(e: TemplateError) -> Seq<char> {
    match e {
        TemplateError::Read(r) => "read failed -> "@ + spec_read_error_message(r),
        TemplateError::Render(r) => "render failed -> "@ + spec_failure_message(r),
        TemplateError::Write(w) => "write failed -> "@ + spec_write_error_message(w),
    }
}

impl TemplateError {
    pub fn message(&self) -> (r: String)
        ensures
            r@ == spec_template_error_message(*self),
    {
        match self {
            TemplateError::Read(e) => {
                let mut m = String::from_str("read failed -> ");
                let detail = e.message();
                m.append(detail.as_str());
                m
            },
            TemplateError::Render(e) => {
                let mut m = String::from_str("render failed -> ");
                let detail = e.message();
                m.append(detail.as_str());
                m
            },
            TemplateError::Write(e) => {
                let mut m = String::from_str("write failed -> ");
                let detail = e.message();
                m.append(detail.as_str());
                m
            },
        }
    }
}

/// One template job: its name, its resolved source path and its target
/// path.
#[derive(Debug, Clone, PartialEq)]
pub struct Template {
    pub name: String,
    pub source: String,
    pub target: String,
}

impl Template {
    /// A job named after its source entry, reading from
    /// `<template_dir>/<source>` and writing to `target`.
    pub fn new(source: &str, target: &str, template_dir: &str) -> (t: Template)
        ensures
            t.name@ == source@,
            t.source@ == spec_join(template_dir@, source@),
            t.target@ == target@,
    {
        Template {
            name: source.to_owned(),
            source: join_path(template_dir, source),
            target: target.to_owned(),
        }
    }
}

/// The warning the driver logs when one template fails.
pub open spec fn spec_template_warning(name: Seq<char>, e: TemplateError) -> Seq<char> {
    "could not render template '"@ + name + "' -> "@ + spec_template_error_message(e)
}

/// The warning naming the failed template and the failing stage.
pub fn template_warning(name: &str, e: &TemplateError) -> (r: String)
    ensures
        r@ == spec_template_warning(name@, *e),
{
    let mut m = String::from_str("could not render template '");
    m.append(name);
    m.append("' -> ");
    let detail = e.message();
    m.append(detail.as_str());
    assert(m@ =~= spec_template_warning(name@, *e));
    m
}

/// The outcome of one template: text to be written to its target, or a
/// warning to be logged.
#[derive(Debug, Clone, PartialEq)]
pub enum TemplateOutcome {
    Write { target: String, text: String },
    Warn { warning: String },
}

/// The warning for a render-stage failure.
pub open spec fn spec_render_warning(name: Seq<char>, f: RenderFailure) -> Seq<char> {
    spec_template_warning(name, TemplateError::Render(f))
}

/// What the driver owes for one template: a read failure turns into its
/// warning; readable text either renders into a write to the template's own
/// target, or turns into a render warning.
pub open spec fn spec_outcome_ok(
    t: Template,
    src: Result<String, ReadError>,
    o: TemplateOutcome,
) -> bool {
    match src {
        Err(re) => o is Warn && o->Warn_warning@ == spec_template_warning(
            t.name@,
            TemplateError::Read(re),
        ),
        Ok(text) => match o {
            TemplateOutcome::Write { target, text: out } => target@ == t.target@,
            TemplateOutcome::Warn { warning } => exists|f: RenderFailure|
                warning@ == #[trigger] spec_render_warning(t.name@, f),
        },
    }
}

/// Renders every template against the context, one outcome per template.
/// `sources` holds, for each template in order, the result of reading its
/// source file. Every template yields an outcome: a failure of one never
/// drops or aborts another.
pub fn render_templates(
    templates: &Vec<Template>,
    sources: Vec<Result<String, ReadError>>,
    renderer: &Renderer,
) -> (r: Vec<TemplateOutcome>)
    requires
        sources@.len() == templates@.len(),
    ensures
        r@.len() == templates@.len(),
        forall|i: int|
            0 <= i < templates@.len() ==> spec_outcome_ok(
                templates@[i],
                sources@[i],
                #[trigger] r@[i],
            ),
{
    let n = templates.len();
    let mut out: Vec<TemplateOutcome> = Vec::new();
    let mut i: usize = 0;
    while i < n
        invariant
            i <= n,
            n == templates@.len(),
            sources@.len() == templates@.len(),
            out@.len() == i,
            forall|j: int|
                0 <= j < i ==> spec_outcome_ok(templates@[j], sources@[j], #[trigger] out@[j]),
        decreases n - i,
    {
        let t = &templates[i];
        match &sources[i] {
            Err(e) => {
                let te = TemplateError::Read(e.clone());
                let warning = template_warning(t.name.as_str(), &te);
                out.push(TemplateOutcome::Warn { warning });
            },
            Ok(text) => {
                match renderer.render(text.as_str()) {
                    Ok(rendered) => {
                        out.push(
                            TemplateOutcome::Write { target: t.target.clone(), text: rendered },
                        );
                    },
                    Err(f) => {
                        let te = TemplateError::Render(f);
                        let warning = template_warning(t.name.as_str(), &te);
                        proof {
                            assert(warning@ == spec_render_warning(t.name@, te->Render_0));
                        }
                        out.push(TemplateOutcome::Warn { warning });
                    },
                }
            },
        }
        i = i + 1;
    }
    out
}

/// The warnings among the outcomes, in order.
pub fn collect_warnings(outcomes: &Vec<TemplateOutcome>) -> (r: Vec<String>)
    ensures
        r@.len() == outcomes@.filter(|o: TemplateOutcome| o is Warn).len(),
{
    let n = outcomes.len();
    let mut out: Vec<String> = Vec::new();
    let mut i: usize = 0;
    proof {
        assert(outcomes@.take(0).filter(|o: TemplateOutcome| o is Warn) =~= Seq::empty());
    }
    while i < n
        invariant
            i <= n,
            n == outcomes@.len(),
            out@.len() == outcomes@.take(i as int).filter(|o: TemplateOutcome| o is Warn).len(),
        decreases n - i,
    {
        match &outcomes[i] {
            TemplateOutcome::Warn { warning } => {
                out.push(warning.clone());
            },
            _ => {},
        }
        proof {
            let f = |o: TemplateOutcome| o is Warn;
            let pre = outcomes@.take(i as int);
            pre.lemma_filter_push(outcomes@[i as int], f);
            assert(pre.push(outcomes@[i as int]) =~= outcomes@.take(i as int + 1));
        }
        i = i + 1;
    }
    proof {
        assert(outcomes@.take(n as int) =~= outcomes@);
    }
    out
}

} // verus!
