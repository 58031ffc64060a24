use polychromatic_effects::Color;

#[test]
fn test() {
    let color = Color::from_quantized(255, 127, 0);
    assert_eq!(Color::from_hex(&color.to_hex()).unwrap(), color);
    let color = Color::from_quantized(69, 42, 127);
    assert_eq!(Color::from_hex(&color.to_hex()).unwrap(), color);
}

#[test]
fn to_hex_renders_uppercase_rgb() {
    assert_eq!(Color::from_quantized(255, 127, 0).to_hex(), "#FF7F00");
    assert_eq!(Color::from_quantized(0, 0, 0).to_hex(), "#000000");
    assert_eq!(Color::from_quantized(69, 42, 127).to_hex(), "#452A7F");
}

#[test]
fn from_hex_six_digit_form() {
    assert_eq!(
        Color::from_hex("#452A7F").unwrap(),
        Color::from_quantized(69, 42, 127)
    );
    assert_eq!(
        Color::from_hex("452a7f").unwrap(),
        Color::from_quantized(69, 42, 127)
    );
}

#[test]
fn from_hex_three_digit_form_expands_by_seventeen() {
    assert_eq!(
        Color::from_hex("#FFF").unwrap(),
        Color::from_quantized(255, 255, 255)
    );
    assert_eq!(
        Color::from_hex("abc").unwrap(),
        Color::from_quantized(170, 187, 204)
    );
}

#[test]
fn from_hex_alpha_digits_are_ignored() {
    assert_eq!(
        Color::from_hex("#F00A").unwrap(),
        Color::from_quantized(255, 0, 0)
    );
    assert_eq!(
        Color::from_hex("#452A7F99").unwrap(),
        Color::from_quantized(69, 42, 127)
    );
}

#[test]
fn from_hex_rejects_bad_input() {
    assert!(Color::from_hex("").is_none());
    assert!(Color::from_hex("#GG0").is_none());
    assert!(Color::from_hex("#FFFF0").is_none());
    assert!(Color::from_hex("#452A7").is_none());
    assert!(Color::from_hex("#ZZ2A7F99").is_none());
}

#[test]
fn is_black_tests_quantized_channels() {
    assert!(Color::from_quantized(0, 0, 0).is_black());
    assert!(!Color::from_quantized(1, 0, 0).is_black());
    assert!(!Color::from_quantized(0, 0, 255).is_black());
}

#[test]
fn default_color_is_black() {
    assert_eq!(Color::default(), Color::from_quantized(0, 0, 0));
}

#[test]
fn from_hsl_primaries() {
    assert_eq!(Color::from_hsl(0, 1000, 500).to_quantized(), (255, 0, 0));
    assert_eq!(
        Color::from_hsl(120_000, 1000, 500).to_quantized(),
        (0, 255, 0)
    );
    assert_eq!(
        Color::from_hsl(240_000, 1000, 500).to_quantized(),
        (0, 0, 255)
    );
}

#[test]
fn from_hsl_wraps_hue_and_clamps() {
    assert_eq!(Color::from_hsl(360_000, 1000, 500), Color::from_hsl(0, 1000, 500));
    assert_eq!(
        Color::from_hsl(-240_000, 1000, 500),
        Color::from_hsl(120_000, 1000, 500)
    );
    assert_eq!(Color::from_hsl(0, 2000, 500), Color::from_hsl(0, 1000, 500));
    assert_eq!(Color::from_hsl(0, 1000, -5), Color::from_hsl(0, 1000, 0));
}

#[test]
fn from_hsl_extremes() {
    assert_eq!(Color::from_hsl(0, 1000, 1000).to_quantized(), (255, 255, 255));
    assert_eq!(Color::from_hsl(0, 1000, 0).to_quantized(), (0, 0, 0));
    assert_eq!(Color::from_hsl(0, 0, 500).to_quantized(), (127, 127, 127));
}
