use themer::cli::{parse_config_dir, parse_key_value_pair};
use themer::files::{IoKind, ReadDirError, ReadError, WriteError};
use themer::context::{build_context, lookup_pairs, merge_variables};
use themer::directories::Directories;
use themer::hook::{env_pairs, Hook, HookError};
use themer::value::Val;

fn pair(k: &str, v: Val) -> (String, Val) {
    (String::from(k), v)
}

#[test]
fn cli_variable_parsing() {
    let (key, value) = parse_key_value_pair("alpha=0.1").unwrap();
    assert_eq!(key, "alpha");
    assert_eq!(value, Val::Num(String::from("0.1")));

    let (key, value) = parse_key_value_pair("dark=true").unwrap();
    assert_eq!(key, "dark");
    assert_eq!(value, Val::Bool(true));

    let (key, value) = parse_key_value_pair("name=John").unwrap();
    assert_eq!(key, "name");
    assert_eq!(value, Val::Str(String::from("John")));

    let err = "variables should be specified as 'key=value' pairs";
    assert_eq!(parse_key_value_pair("alpha=").unwrap_err(), err);
    assert_eq!(parse_key_value_pair("=0.1").unwrap_err(), err);
    assert_eq!(parse_key_value_pair("alpha").unwrap_err(), err);
}

fn theme_layer() -> Vec<(String, Val)> {
    vec![pair("k", Val::Str(String::from("A"))), pair("t", Val::Num(String::from("1")))]
}

fn config_layer() -> Vec<(String, Val)> {
    vec![pair("k", Val::Str(String::from("B"))), pair("c", Val::Num(String::from("2")))]
}

#[test]
fn merge_precedence() {
    let cli = vec![pair("k", Val::Str(String::from("C")))];

    let all = merge_variables(theme_layer(), config_layer(), cli);
    assert_eq!(lookup_pairs(&all, "k"), Some(&Val::Str(String::from("C"))));
    assert_eq!(lookup_pairs(&all, "c"), Some(&Val::Num(String::from("2"))));
    assert_eq!(lookup_pairs(&all, "t"), Some(&Val::Num(String::from("1"))));

    let two = merge_variables(theme_layer(), config_layer(), Vec::new());
    assert_eq!(lookup_pairs(&two, "k"), Some(&Val::Str(String::from("B"))));

    let one = merge_variables(theme_layer(), Vec::new(), Vec::new());
    assert_eq!(lookup_pairs(&one, "k"), Some(&Val::Str(String::from("A"))));
    assert_eq!(lookup_pairs(&one, "missing"), None);
}

#[test]
fn context_regions_do_not_collide() {
    let theme = themer::theme::Theme::new(
        "
special:
  background: '#222222'
  foreground: '#f7f1ff'
  cursor: '#f7f1ff'

normal:
  black: '#363537'
  blue: '#948ae3'
  cyan: '#5ad4e6'
  green: '#7bd88f'
  magenta: '#fd9353'
  red: '#fc618d'
  white: '#bab6c0'
  yellow: '#fce566'

bright:
  black: '#69676c'
  blue: '#948ae3'
  cyan: '#5ad4e6'
  green: '#7bd88f'
  magenta: '#fd9353'
  red: '#fc618d'
  white: '#f7f1ff'
  yellow: '#fce566'
",
    )
    .unwrap();
    let config_vars = vec![pair("colors", Val::Str(String::from("shadowed")))];
    let cli_vars = vec![pair("alpha", Val::Num(String::from("0.1")))];
    let ctx = build_context(theme, Some(config_vars), Some(cli_vars));
    assert_eq!(ctx.colors.special.background, "#222222");
    assert_eq!(lookup_pairs(&ctx.variables, "colors"), Some(&Val::Str(String::from("shadowed"))));
    assert_eq!(lookup_pairs(&ctx.variables, "alpha"), Some(&Val::Num(String::from("0.1"))));
}

#[test]
fn test_paths() {
    let config_dir = "/root/.config/foo/";
    let dirs = Directories::new(config_dir);

    assert_eq!(dirs.template_dir, config_dir.to_string() + "templates");
    assert_eq!(dirs.theme_dir, config_dir.to_string() + "themes");
    assert_eq!(dirs.hook_dir, config_dir.to_string() + "hooks");
}

#[test]
fn path() {
    let hook = Hook::new("hook", "/root/.config/foo/hooks");

    assert_eq!(hook.path, "/root/.config/foo/hooks/hook");
}

#[test]
fn hook_environment() {
    let vars = vec![
        pair("first-name", Val::Str(String::from("John"))),
        pair("alpha", Val::Num(String::from("0.1"))),
        pair("count", Val::Num(String::from("100.0"))),
        pair("flag", Val::Bool(true)),
        pair("nothing", Val::Null),
        pair(
            "xs",
            Val::List(vec![Val::Num(String::from("1")), Val::Str(String::from("two"))]),
        ),
        pair(
            "m",
            Val::Dict(vec![(Val::Str(String::from("k")), Val::Num(String::from("2")))]),
        ),
    ];
    let env = env_pairs(&vars);
    assert_eq!(env[0], (String::from("FIRST_NAME"), String::from("John")));
    assert_eq!(env[1], (String::from("ALPHA"), String::from("0.1")));
    assert_eq!(env[2], (String::from("COUNT"), String::from("100")));
    assert_eq!(env[3], (String::from("FLAG"), String::from("true")));
    assert_eq!(env[4], (String::from("NOTHING"), String::from("null")));
    assert_eq!(env[5], (String::from("XS"), String::from("[1, two]")));
    assert_eq!(env[6], (String::from("M"), String::from("{k: 2}")));
}

#[test]
fn hook_error_messages() {
    assert_eq!(HookError::NonZeroStatus(3).message(), "non zero exit status: 3");
    assert_eq!(HookError::DoesNotExist.message(), "does not exist");
    assert_eq!(HookError::PermissionDenied.message(), "permission denied");
    assert_eq!(HookError::Other(String::from("odd")).message(), "odd");
}

#[test]
fn path_resolution() {
    let resolved = themer::paths::resolve_path("~/.config").unwrap();
    assert_eq!(resolved, home::home_dir().unwrap().join(".config").to_str().unwrap());

    assert_eq!(themer::paths::resolve_path("/etc/hosts").unwrap(), "/etc/hosts");
    assert_eq!(parse_config_dir("/etc/foo").unwrap(), "/etc/foo");
}

#[test]
fn theme_listing_is_filtered_and_sorted() {
    let files = vec![
        String::from("/themes/zebra.yaml"),
        String::from("/themes/notes.txt"),
        String::from("/themes/alpha.yaml"),
        String::from("/themes/.yaml"),
        String::from("/themes/noext"),
        String::from("/themes/mid.point.yaml"),
    ];
    let names = themer::paths::theme_names(&files);
    assert_eq!(names, vec![
        String::from("alpha"),
        String::from("mid.point"),
        String::from("zebra"),
    ]);
}

#[test]
fn io_error_messages() {
    assert_eq!(ReadError::from_kind(IoKind::NotFound, String::new()).message(), "file not found");
    assert_eq!(
        ReadError::from_kind(IoKind::InvalidData, String::new()).message(),
        "file contents are not valid utf-8"
    );
    assert_eq!(
        ReadError::from_kind(IoKind::Other, String::from("boom")).message(),
        "boom"
    );
    assert_eq!(
        WriteError::from_kind(IoKind::NotFound, String::new()).message(),
        "directory does not exist"
    );
    assert_eq!(
        ReadDirError::from_kind(IoKind::PermissionDenied, String::new()).message(),
        "permission denied"
    );
}

#[test]
fn value_serialization_conventions() {
    assert_eq!(Val::Num(String::from("4.0")).serialize(), "4");
    assert_eq!(Val::Num(String::from("4.05")).serialize(), "4.05");
    assert_eq!(Val::Str(String::from("plain")).serialize(), "plain");
    assert_eq!(Val::List(Vec::new()).serialize(), "[]");
    assert_eq!(
        Val::Dict(vec![
            (Val::Str(String::from("a")), Val::Num(String::from("1"))),
            (Val::Str(String::from("b")), Val::Bool(false)),
        ])
        .serialize(),
        "{a: 1, b: false}"
    );
}
