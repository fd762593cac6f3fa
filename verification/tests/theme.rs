use themer::colorscheme::Colorscheme;
use themer::theme::Theme;

#[test]
fn colorscheme_test_parser() {
    let input = r##"
special:
  background: "#222222"
  foreground: "#f7f1ff"
  cursor: "#f7f1ff"

normal:
  black: "#363537"
  blue: "#948ae3"
  cyan: "#5ad4e6"
  green: "#7bd88f"
  magenta: "#fc618d"
  red: "#fd9353"
  white: "#bab6c0"
  yellow: "#fce566"

bright:
  black: "#69676c"
  blue: "#948ae3"
  cyan: "#5ad4e6"
  green: "#7bd88f"
  magenta: "#fc618d"
  red: "#fd9353"
  white: "#f7f1ff"
  yellow: "#fce566"
"##;
    let colorscheme = Colorscheme::new(input).unwrap();

    assert_eq!(colorscheme.special.background, "#222222");
    assert_eq!(colorscheme.special.foreground, "#f7f1ff");
    assert_eq!(colorscheme.special.cursor, "#f7f1ff");

    assert_eq!(colorscheme.normal.black, "#363537");
    assert_eq!(colorscheme.normal.blue, "#948ae3");
    assert_eq!(colorscheme.normal.cyan, "#5ad4e6");
    assert_eq!(colorscheme.normal.green, "#7bd88f");
    assert_eq!(colorscheme.normal.magenta, "#fc618d");
    assert_eq!(colorscheme.normal.red, "#fd9353");
    assert_eq!(colorscheme.normal.white, "#bab6c0");
    assert_eq!(colorscheme.normal.yellow, "#fce566");

    assert_eq!(colorscheme.bright.black, "#69676c");
    assert_eq!(colorscheme.bright.blue, "#948ae3");
    assert_eq!(colorscheme.bright.cyan, "#5ad4e6");
    assert_eq!(colorscheme.bright.green, "#7bd88f");
    assert_eq!(colorscheme.bright.magenta, "#fc618d");
    assert_eq!(colorscheme.bright.red, "#fd9353");
    assert_eq!(colorscheme.bright.white, "#f7f1ff");
    assert_eq!(colorscheme.bright.yellow, "#fce566");
}

#[test]
fn parse() {
    let theme = Theme::new(
        "
special:
  background: '#222222'
  foreground: '#f7f1ff'
  cursor: '#f7f1ff'

normal:
  black: '#363537'
  blue: '#948ae3'
  cyan: '#5ad4e6'
  green: '#7bd88f'
  magenta: '#fd9353'
  red: '#fc618d'
  white: '#bab6c0'
  yellow: '#fce566'

bright:
  black: '#69676c'
  blue: '#948ae3'
  cyan: '#5ad4e6'
  green: '#7bd88f'
  magenta: '#fd9353'
  red: '#fc618d'
  white: '#f7f1ff'
  yellow: '#fce566'
",
    )
    .unwrap();

    assert_eq!(theme.special.background, "#222222");
    assert_eq!(theme.special.foreground, "#f7f1ff");
    assert_eq!(theme.special.cursor, "#f7f1ff");

    assert_eq!(theme.normal.black, "#363537");
    assert_eq!(theme.normal.blue, "#948ae3");
    assert_eq!(theme.normal.cyan, "#5ad4e6");
    assert_eq!(theme.normal.green, "#7bd88f");
    assert_eq!(theme.normal.magenta, "#fd9353");
    assert_eq!(theme.normal.red, "#fc618d");
    assert_eq!(theme.normal.white, "#bab6c0");
    assert_eq!(theme.normal.yellow, "#fce566");

    assert_eq!(theme.bright.black, "#69676c");
    assert_eq!(theme.bright.blue, "#948ae3");
    assert_eq!(theme.bright.cyan, "#5ad4e6");
    assert_eq!(theme.bright.green, "#7bd88f");
    assert_eq!(theme.bright.magenta, "#fd9353");
    assert_eq!(theme.bright.red, "#fc618d");
    assert_eq!(theme.bright.white, "#f7f1ff");
    assert_eq!(theme.bright.yellow, "#fce566");
}

#[test]
fn theme_rejects_missing_field() {
    let err = Theme::new("special:\n  background: '#222222'\n").unwrap_err();
    let msg = match err {
        themer::theme::ThemeError::Parse(p) => p.message(),
        other => panic!("unexpected error: {:?}", other),
    };
    assert!(msg.contains("missing or invalid field"));
}

#[test]
fn theme_rejects_malformed_hex() {
    let input = "
special:
  background: 'not-a-color'
  foreground: '#f7f1ff'
  cursor: '#f7f1ff'

normal:
  black: '#363537'
  blue: '#948ae3'
  cyan: '#5ad4e6'
  green: '#7bd88f'
  magenta: '#fd9353'
  red: '#fc618d'
  white: '#bab6c0'
  yellow: '#fce566'

bright:
  black: '#69676c'
  blue: '#948ae3'
  cyan: '#5ad4e6'
  green: '#7bd88f'
  magenta: '#fd9353'
  red: '#fc618d'
  white: '#f7f1ff'
  yellow: '#fce566'
";
    assert!(Theme::new(input).is_err());
    // The same document is fine for the unvalidated colorscheme shape.
    assert!(Colorscheme::new(input).is_ok());
}

#[test]
fn theme_error_messages() {
    let parse = themer::theme::ThemeError::Parse(themer::yaml_parser::ParseError {
        line: None,
        column: None,
        reason: String::from("bad"),
    });
    assert_eq!(parse.message(), "parse failed -> bad");
    let read = themer::theme::ThemeError::Read(themer::files::ReadError::FileNotFound);
    assert_eq!(read.message(), "read failed -> file not found");
}

#[test]
fn theme_file_path() {
    assert_eq!(themer::theme::theme_file("monokai", "/cfg/themes"), "/cfg/themes/monokai.yaml");
}
