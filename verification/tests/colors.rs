use themer::colors::{Color, ColorError};

#[test]
fn test_color_parse_and_render() {
    let color = Color::from_hex("#ffffff").unwrap();
    assert_eq!((color.red, color.green, color.blue), (255, 255, 255));

    let color = Color::from_hex("#ffffff").unwrap();
    assert_eq!(color.to_hex(), "#ffffff");
}

#[test]
fn test_color_transforms() {
    let color = Color::from_hex("#000000").unwrap().lighten(500);
    assert_eq!((color.red, color.green, color.blue), (128, 128, 128));

    let color = Color::from_hex("#ffffff").unwrap().darken(500);
    assert_eq!((color.red, color.green, color.blue), (128, 128, 128));
}

#[test]
fn round_trip_stability() {
    for s in ["#AbCdEf", "#000000", "#ffffff", "#123456", "#FA0b9C"] {
        let first = Color::from_hex(s).unwrap();
        let again = Color::from_hex(&first.to_hex()).unwrap();
        assert_eq!(first, again);
    }
}

#[test]
fn rejects_malformed_hex() {
    for s in ["", "#", "abcdef#", "#12345", "#1234567", "#12345g", "1234567", "##12345", "#12 456"]
    {
        assert_eq!(Color::from_hex(s), Err(ColorError::InvalidHex));
    }
}

#[test]
fn transform_identity_and_extremes() {
    let c = Color::from_hex("#3a7b9c").unwrap();
    assert_eq!(c.lighten(0), c);
    assert_eq!(c.darken(0), c);
    assert_eq!(c.lighten(1000).to_hex(), "#ffffff");
    assert_eq!(c.darken(1000).to_hex(), "#000000");
}

#[test]
fn hex_formatting_is_lower_case_and_padded() {
    let c = Color::new(1, 10, 255);
    assert_eq!(c.to_hex(), "#010aff");
}

#[test]
fn byte_hex_natural_form() {
    assert_eq!(themer::colors::byte_hex(20), "14");
    assert_eq!(themer::colors::byte_hex(9), "9");
    assert_eq!(themer::colors::byte_hex(255), "ff");
}

#[test]
fn rgba_formatting() {
    let c = Color::new(255, 0, 10);
    assert_eq!(c.to_rgba(50), "rgba(255, 0, 10, 0.50)");
    assert_eq!(c.to_rgba(100), "rgba(255, 0, 10, 1.00)");
    assert_eq!(c.to_rgba(5), "rgba(255, 0, 10, 0.05)");
}
