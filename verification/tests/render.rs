use themer::renderer::{EngineError, EngineFail, map_engine_error, RenderFailure, Renderer};
use themer::template::{render_templates, collect_warnings, Template, TemplateOutcome};

struct HexHelper;

impl handlebars::HelperDef for HexHelper {
    fn call_inner<'reg: 'rc, 'rc>(
        &self,
        h: &handlebars::Helper<'rc>,
        _: &'reg handlebars::Handlebars<'reg>,
        _: &'rc handlebars::Context,
        _: &mut handlebars::RenderContext<'reg, 'rc>,
    ) -> Result<handlebars::ScopedJson<'rc>, handlebars::RenderError> {
        let n = h.param(0).and_then(|p| p.value().as_u64()).unwrap_or(0);
        let text = themer::colors::byte_hex(n as u8);
        Ok(handlebars::ScopedJson::Derived(serde_json::Value::from(text)))
    }
}

struct DivHelper;

impl handlebars::HelperDef for DivHelper {
    fn call_inner<'reg: 'rc, 'rc>(
        &self,
        h: &handlebars::Helper<'rc>,
        _: &'reg handlebars::Handlebars<'reg>,
        _: &'rc handlebars::Context,
        _: &mut handlebars::RenderContext<'reg, 'rc>,
    ) -> Result<handlebars::ScopedJson<'rc>, handlebars::RenderError> {
        let a = h.param(0).and_then(|p| p.value().as_f64()).unwrap_or(0.0) as f32;
        let b = h.param(1).and_then(|p| p.value().as_f64()).unwrap_or(0.0) as f32;
        Ok(handlebars::ScopedJson::Derived(serde_json::Value::from(a / b)))
    }
}

struct MulHelper;

impl handlebars::HelperDef for MulHelper {
    fn call_inner<'reg: 'rc, 'rc>(
        &self,
        h: &handlebars::Helper<'rc>,
        _: &'reg handlebars::Handlebars<'reg>,
        _: &'rc handlebars::Context,
        _: &mut handlebars::RenderContext<'reg, 'rc>,
    ) -> Result<handlebars::ScopedJson<'rc>, handlebars::RenderError> {
        let a = h.param(0).and_then(|p| p.value().as_f64()).unwrap_or(0.0) as f32;
        let b = h.param(1).and_then(|p| p.value().as_f64()).unwrap_or(0.0) as f32;
        Ok(handlebars::ScopedJson::Derived(serde_json::Value::from(a * b)))
    }
}

struct IntHelper;

impl handlebars::HelperDef for IntHelper {
    fn call_inner<'reg: 'rc, 'rc>(
        &self,
        h: &handlebars::Helper<'rc>,
        _: &'reg handlebars::Handlebars<'reg>,
        _: &'rc handlebars::Context,
        _: &mut handlebars::RenderContext<'reg, 'rc>,
    ) -> Result<handlebars::ScopedJson<'rc>, handlebars::RenderError> {
        let a = h.param(0).and_then(|p| p.value().as_f64()).unwrap_or(0.0) as f32;
        Ok(handlebars::ScopedJson::Derived(serde_json::Value::from(a as u32)))
    }
}

fn registry() -> handlebars::Handlebars<'static> {
    let mut registry = handlebars::Handlebars::new();
    registry.set_strict_mode(true);
    registry.register_helper("hex", Box::new(HexHelper));
    registry.register_helper("div", Box::new(DivHelper));
    registry.register_helper("mul", Box::new(MulHelper));
    registry.register_helper("int", Box::new(IntHelper));
    registry
}

fn json(text: &str) -> serde_json::Value {
    serde_json::from_str(text).unwrap()
}

#[test]
fn test_renderer() {
    let renderer = Renderer::new(registry(), json(r#"{"name": "John", "age": 21}"#));

    assert_eq!(renderer.render("name: {{name}}").unwrap(), "name: John");
    assert_eq!(renderer.render("age: {{age}}").unwrap(), "age: 21");
}

#[test]
fn test_render() {
    let renderer = Renderer::new(registry(), json(r#"{"name": "John", "age": 20}"#));

    let rendered = renderer.render("{{name}} is {{age}} years old.");
    assert_eq!(rendered.unwrap(), "John is 20 years old.");

    let rendered = renderer.render("{{hex age}}");
    assert_eq!(rendered.unwrap(), "14");

    let rendered = renderer.render("{{div 20 5}}");
    assert_eq!(rendered.unwrap(), "4.0");

    let rendered = renderer.render("{{mul 20 5}}");
    assert_eq!(rendered.unwrap(), "100.0");

    let rendered = renderer.render("{{int (mul 20 5)}}");
    assert_eq!(rendered.unwrap(), "100");
}

#[test]
fn renders_variables_and_rejects_missing_ones() {
    let renderer = Renderer::new(registry(), json(r#"{"variables": {"name": "John"}}"#));

    assert_eq!(renderer.render("{{variables.name}}").unwrap(), "John");

    let failure = renderer.render("{{variables.missing}}").unwrap_err();
    assert!(failure.message().contains("missing variable"));
}

#[test]
fn syntax_error_carries_location() {
    let renderer = Renderer::new(registry(), json(r#"{}"#));
    let failure = renderer.render("line one\n{{#if}}").unwrap_err();
    assert!(failure.line.is_some());
    assert!(failure.message().contains(" at line "));
}

#[test]
fn render() {
    let renderer = Renderer::new(registry(), json(r#"{"name": "John"}"#));
    let templates = vec![Template::new("source", "/tmp/target", "/tmp/templates")];
    assert_eq!(templates[0].source, "/tmp/templates/source");
    assert_eq!(templates[0].name, "source");

    let outcomes = render_templates(&templates, vec![Ok(String::from("name: {{name}}"))], &renderer);
    assert_eq!(
        outcomes,
        vec![TemplateOutcome::Write {
            target: String::from("/tmp/target"),
            text: String::from("name: John"),
        }]
    );
}

#[test]
fn partial_failure_keeps_later_templates() {
    let renderer = Renderer::new(registry(), json(r#"{"variables": {"name": "John"}}"#));
    let templates = vec![
        Template::new("broken", "/tmp/broken.out", "/tmp/templates"),
        Template::new("fine", "/tmp/fine.out", "/tmp/templates"),
    ];
    let sources = vec![
        Ok(String::from("{{#if}}")),
        Ok(String::from("hello {{variables.name}}")),
    ];
    let outcomes = render_templates(&templates, sources, &renderer);
    assert_eq!(outcomes.len(), 2);
    match &outcomes[0] {
        TemplateOutcome::Warn { warning } => {
            assert!(warning.starts_with("could not render template 'broken' -> render failed -> "));
        },
        other => panic!("expected a warning, got {:?}", other),
    }
    assert_eq!(
        outcomes[1],
        TemplateOutcome::Write {
            target: String::from("/tmp/fine.out"),
            text: String::from("hello John"),
        }
    );
    let warnings = collect_warnings(&outcomes);
    assert_eq!(warnings.len(), 1);
}

#[test]
fn read_failure_becomes_a_warning() {
    let renderer = Renderer::new(registry(), json(r#"{}"#));
    let templates = vec![Template::new("gone", "/tmp/gone.out", "/tmp/templates")];
    let sources = vec![Err(themer::files::ReadError::FileNotFound)];
    let outcomes = render_templates(&templates, sources, &renderer);
    assert_eq!(
        outcomes,
        vec![TemplateOutcome::Warn {
            warning: String::from("could not render template 'gone' -> read failed -> file not found"),
        }]
    );
}

#[test]
fn engine_error_mapping() {
    let missing = map_engine_error(EngineError {
        line: Some(3),
        column: Some(7),
        fail: EngineFail::MissingVariable(Some(String::from("alpha"))),
    });
    assert_eq!(missing.reason, "missing variable 'alpha'");
    assert_eq!(missing.message(), "missing variable 'alpha' at line 3 column 7");

    let anonymous = map_engine_error(EngineError {
        line: None,
        column: None,
        fail: EngineFail::MissingVariable(None),
    });
    assert_eq!(anonymous.message(), "missing variable");

    let mismatch = map_engine_error(EngineError {
        line: None,
        column: None,
        fail: EngineFail::ParamTypeMismatch(
            String::from("hex"),
            String::from("0"),
            String::from("u8"),
        ),
    });
    assert_eq!(mismatch.reason, "helper 'hex' expected 'u8' value for param '0'");

    let unknown = map_engine_error(EngineError {
        line: Some(2),
        column: None,
        fail: EngineFail::HelperNotFound(String::from("nope")),
    });
    assert_eq!(unknown.message(), "undefined helper 'nope' at line 2");

    let syntax = map_engine_error(EngineError {
        line: None,
        column: None,
        fail: EngineFail::TemplateSyntax(String::from("bad syntax"), Some((4, 9))),
    });
    assert_eq!(syntax.message(), "bad syntax at line 4 column 9");
}

#[test]
fn template_error_messages() {
    let e = themer::template::TemplateError::Render(RenderFailure {
        line: None,
        column: None,
        reason: String::from("why"),
    });
    assert_eq!(e.message(), "render failed -> why");
    assert_eq!(
        themer::template::template_warning("tpl", &e),
        "could not render template 'tpl' -> render failed -> why"
    );
    let w = themer::template::TemplateError::Write(themer::files::WriteError::DirectoryDoesNotExist);
    assert_eq!(w.message(), "write failed -> directory does not exist");
}
