use themer::config::Config;
use themer::value::Val;

#[test]
fn config_test_parser() {
    let config = Config::new(
        "
theme: monokai

hooks:
  - set-wallpaper.sh

variables:
  alpha: 0.1

templates:
  - source: dunstrc
    target: ~/.config/dunst/dunstrc
  - source: colors.rasi
    target: ~/.config/rofi/colors.rasi
",
    )
    .unwrap();

    let homedir = home::home_dir().unwrap();

    let templates = config.templates.unwrap_or_default();
    let variables = config.variables.unwrap_or_default();
    let hooks = config.hooks.unwrap_or_default();

    let dunstrc = templates.get(0).unwrap();
    assert_eq!(dunstrc.source, "dunstrc");
    assert_eq!(
        dunstrc.target,
        homedir.join(".config/dunst/dunstrc").to_str().unwrap()
    );

    let rofi_colors = templates.get(1).unwrap();
    assert_eq!(rofi_colors.source, "colors.rasi");
    assert_eq!(
        rofi_colors.target,
        homedir.join(".config/rofi/colors.rasi").to_str().unwrap()
    );

    assert_eq!(variables.get(0).unwrap(), &(String::from("alpha"), Val::Num(String::from("0.1"))));
    assert_eq!(config.theme.unwrap(), "monokai");

    assert_eq!(hooks.get(0).unwrap(), "set-wallpaper.sh");
}

#[test]
fn config_fields_are_optional() {
    let config = Config::new("theme: monokai\n").unwrap();
    assert_eq!(config.theme.as_deref(), Some("monokai"));
    assert!(config.hooks.is_none());
    assert!(config.variables.is_none());
    assert!(config.templates.is_none());
}

#[test]
fn config_rejects_malformed_document() {
    let err = Config::new("theme: [oops\n").unwrap_err();
    assert!(matches!(err, themer::config::ConfigError::ParseFailed(_)));
    let msg = err.message();
    assert!(msg.starts_with("could not parse config ("));
    assert!(msg.ends_with(")"));
}

#[test]
fn config_rejects_non_mapping_document() {
    let err = Config::new("- just\n- a\n- list\n").unwrap_err();
    assert!(matches!(err, themer::config::ConfigError::ParseFailed(_)));
}

#[test]
fn config_rejects_wrongly_typed_fields() {
    assert!(Config::new("theme: [a, b]\n").is_err());
    assert!(Config::new("hooks: nope\n").is_err());
    assert!(Config::new("hooks:\n  - 1\n").is_err());
    assert!(Config::new("variables: nope\n").is_err());
    assert!(Config::new("templates:\n  - nope\n").is_err());
    assert!(Config::new("templates:\n  - source: a\n").is_err());
}

#[test]
fn config_error_messages() {
    let read = themer::config::ConfigError::ReadFailed(themer::files::ReadError::PermissionDenied);
    assert_eq!(read.message(), "could not read config (permission denied)");
}

#[test]
fn parser_test_parser() {
    let input = "
name: John
age: 21
";
    let parsed = themer::parser::Parser::parse(input).unwrap();
    let pairs = match parsed {
        Val::Dict(pairs) => pairs,
        other => panic!("expected a mapping, got {:?}", other),
    };
    assert_eq!(
        themer::value::dict_get(&pairs, "name"),
        Some(&Val::Str(String::from("John")))
    );
    assert_eq!(themer::value::dict_get(&pairs, "age"), Some(&Val::Num(String::from("21"))));
}

#[test]
fn yaml_parser_test_parser() {
    let input = "
name: John
age: 21
";
    let parsed = themer::yaml_parser::YamlParser::parse(input).unwrap();
    let pairs = match parsed {
        Val::Dict(pairs) => pairs,
        other => panic!("expected a mapping, got {:?}", other),
    };
    assert_eq!(
        themer::value::dict_get(&pairs, "name"),
        Some(&Val::Str(String::from("John")))
    );
    assert_eq!(themer::value::dict_get(&pairs, "age"), Some(&Val::Num(String::from("21"))));
}

#[test]
fn yaml_parser_reports_location() {
    let err = themer::yaml_parser::YamlParser::parse("a: b\n- oops\n").unwrap_err();
    assert!(err.line.is_some());
    assert!(!err.message().is_empty());
}

#[test]
fn yaml_parser_builds_nested_values() {
    let parsed = themer::yaml_parser::YamlParser::parse("xs:\n  - 1\n  - two\n").unwrap();
    let pairs = match parsed {
        Val::Dict(pairs) => pairs,
        other => panic!("expected a mapping, got {:?}", other),
    };
    let xs = themer::value::dict_get(&pairs, "xs").unwrap();
    assert_eq!(
        xs,
        &Val::List(vec![Val::Num(String::from("1")), Val::Str(String::from("two"))])
    );
}

#[test]
fn empty_document_parses_to_null() {
    assert_eq!(themer::yaml_parser::YamlParser::parse("").unwrap(), Val::Null);
}

#[test]
fn duplicate_keys_are_rejected() {
    assert!(themer::yaml_parser::YamlParser::parse("a: 1\na: 2\n").is_err());
}
