use rsvg_internals::error::ValueErrorKind;
use rsvg_internals::font_props::{
    FontSizeSpec, FontWeightSpec, LetterSpacingSpec, SingleFontFamily,
};
use rsvg_internals::length::{Axis, ComputedValues, Length, LengthUnit, ViewParams};
use rsvg_internals::num::Frac;

fn absolute_px(num: i64, den: i64) -> ComputedValues {
    ComputedValues {
        font_size: Length::new(num, den, LengthUnit::Px, Axis::Both),
    }
}

#[test]
fn detects_invalid_invalid_font_size() {
    assert!(FontSizeSpec::parse_str("furlong").is_err());
}

#[test]
fn parses_font_weight() {
    assert_eq!(FontWeightSpec::parse_str("normal"), Ok(FontWeightSpec::Normal));
    assert_eq!(FontWeightSpec::parse_str("bold"), Ok(FontWeightSpec::Bold));
    assert_eq!(FontWeightSpec::parse_str("100"), Ok(FontWeightSpec::W100));
}

#[test]
fn detects_invalid_font_weight() {
    assert!(FontWeightSpec::parse_str("").is_err());
    assert!(FontWeightSpec::parse_str("strange").is_err());
    assert!(FontWeightSpec::parse_str("314").is_err());
    assert!(FontWeightSpec::parse_str("3.14").is_err());
}

#[test]
fn parses_letter_spacing() {
    assert_eq!(
        LetterSpacingSpec::parse_str("normal"),
        Ok(LetterSpacingSpec::Normal)
    );
    assert_eq!(
        LetterSpacingSpec::parse_str("10em"),
        Ok(LetterSpacingSpec::Value(Length::new(
            10,
            1,
            LengthUnit::Em,
            Axis::Horizontal,
        )))
    );
}

#[test]
fn computes_letter_spacing() {
    assert_eq!(
        LetterSpacingSpec::parse_str("normal").map(|s| s.compute()),
        Ok(LetterSpacingSpec::Value(Length::new(
            0,
            1,
            LengthUnit::Px,
            Axis::Horizontal,
        )))
    );
    assert_eq!(
        LetterSpacingSpec::parse_str("10em").map(|s| s.compute()),
        Ok(LetterSpacingSpec::Value(Length::new(
            10,
            1,
            LengthUnit::Em,
            Axis::Horizontal,
        )))
    );
}

#[test]
fn detects_invalid_invalid_letter_spacing() {
    assert!(LetterSpacingSpec::parse_str("furlong").is_err());
}

#[test]
fn parses_font_family() {
    assert_eq!(
        SingleFontFamily::parse_str("'Hello world'"),
        Ok(SingleFontFamily("Hello world".to_owned()))
    );

    assert_eq!(
        SingleFontFamily::parse_str("\"Hello world\""),
        Ok(SingleFontFamily("Hello world".to_owned()))
    );

    assert_eq!(
        SingleFontFamily::parse_str("  Hello  world  "),
        Ok(SingleFontFamily("Hello world".to_owned()))
    );

    assert_eq!(
        SingleFontFamily::parse_str("Plonk"),
        Ok(SingleFontFamily("Plonk".to_owned()))
    );
}

#[test]
fn detects_invalid_font_family() {
    assert!(SingleFontFamily::parse_str("").is_err());
    assert!(SingleFontFamily::parse_str("''").is_err());
    assert!(SingleFontFamily::parse_str("42").is_err());
}

#[test]
fn parses_font_size_lengths() {
    assert_eq!(
        FontSizeSpec::parse_str("10px"),
        Ok(FontSizeSpec::Value(Length::new(
            10,
            1,
            LengthUnit::Px,
            Axis::Both
        )))
    );
    assert_eq!(
        FontSizeSpec::parse_str("10"),
        Ok(FontSizeSpec::Value(Length::new(
            10,
            1,
            LengthUnit::Px,
            Axis::Both
        )))
    );
    assert_eq!(
        FontSizeSpec::parse_str("2.5in"),
        Ok(FontSizeSpec::Value(Length::new(
            25,
            10,
            LengthUnit::In,
            Axis::Both
        )))
    );
    assert_eq!(
        FontSizeSpec::parse_str("-1.5em"),
        Ok(FontSizeSpec::Value(Length::new(
            -15,
            10,
            LengthUnit::Em,
            Axis::Both
        )))
    );
    assert_eq!(
        FontSizeSpec::parse_str("150%"),
        Ok(FontSizeSpec::Value(Length::new(
            150,
            100,
            LengthUnit::Percent,
            Axis::Both
        )))
    );
    assert!(FontSizeSpec::parse_str("10px extra").is_err());
    assert!(FontSizeSpec::parse_str("1.").is_err());
}

#[test]
fn parses_font_size_keywords() {
    assert_eq!(FontSizeSpec::parse_str("medium"), Ok(FontSizeSpec::Medium));
    assert_eq!(FontSizeSpec::parse_str("  x-large "), Ok(FontSizeSpec::XLarge));
    assert_eq!(FontSizeSpec::parse_str("SMALLER"), Ok(FontSizeSpec::Smaller));
}

#[test]
fn computes_relative_font_size_scaling() {
    let v = absolute_px(12, 1);
    assert_eq!(
        FontSizeSpec::Smaller.compute(&v),
        FontSizeSpec::Value(Length::new(60, 6, LengthUnit::Px, Axis::Both))
    );
    assert_eq!(
        FontSizeSpec::Larger.compute(&v),
        FontSizeSpec::Value(Length::new(72, 5, LengthUnit::Px, Axis::Both))
    );
}

#[test]
fn computes_absolute_font_size_keywords() {
    // Medium ignores the inherited size: always 1/6 inch (12pt).
    let small_inherited = absolute_px(1, 1);
    let large_inherited = absolute_px(1000, 1);
    let expected = FontSizeSpec::Value(Length::new(1, 6, LengthUnit::In, Axis::Both));
    assert_eq!(FontSizeSpec::Medium.compute(&small_inherited), expected);
    assert_eq!(FontSizeSpec::Medium.compute(&large_inherited), expected);

    let v = absolute_px(12, 1);
    assert_eq!(
        FontSizeSpec::XXSmall.compute(&v),
        FontSizeSpec::Value(Length::new(125, 1296, LengthUnit::In, Axis::Both))
    );
    assert_eq!(
        FontSizeSpec::XXLarge.compute(&v),
        FontSizeSpec::Value(Length::new(36, 125, LengthUnit::In, Axis::Both))
    );
}

#[test]
fn computes_percentage_font_size() {
    let v = absolute_px(10, 1);
    let spec = FontSizeSpec::parse_str("150%").unwrap();
    assert_eq!(
        spec.compute(&v),
        FontSizeSpec::Value(Length::new(1500, 100, LengthUnit::Px, Axis::Both))
    );
}

#[test]
fn computes_passthrough_font_size() {
    let v = absolute_px(10, 1);
    let spec = FontSizeSpec::parse_str("3cm").unwrap();
    assert_eq!(
        spec.compute(&v),
        FontSizeSpec::Value(Length::new(3, 1, LengthUnit::Cm, Axis::Both))
    );
}

#[test]
fn parses_all_numeric_font_weights() {
    let expected = [
        FontWeightSpec::W100,
        FontWeightSpec::W200,
        FontWeightSpec::W300,
        FontWeightSpec::W400,
        FontWeightSpec::W500,
        FontWeightSpec::W600,
        FontWeightSpec::W700,
        FontWeightSpec::W800,
        FontWeightSpec::W900,
    ];
    let texts = [
        "100", "200", "300", "400", "500", "600", "700", "800", "900",
    ];
    for k in 0..9 {
        assert_eq!(FontWeightSpec::parse_str(texts[k]), Ok(expected[k]));
    }
    assert_eq!(FontWeightSpec::parse_str("bolder"), Ok(FontWeightSpec::Bolder));
    assert_eq!(FontWeightSpec::parse_str("lighter"), Ok(FontWeightSpec::Lighter));
}

#[test]
fn distinguishes_weight_error_kinds() {
    // An integer outside the table is a semantic error; a non-integer
    // token is a syntax error.
    assert_eq!(
        FontWeightSpec::parse_str("314").unwrap_err().kind,
        ValueErrorKind::Semantic
    );
    assert_eq!(
        FontWeightSpec::parse_str("1000").unwrap_err().kind,
        ValueErrorKind::Semantic
    );
    assert_eq!(
        FontWeightSpec::parse_str("-100").unwrap_err().kind,
        ValueErrorKind::Semantic
    );
    assert_eq!(
        FontWeightSpec::parse_str("3.14").unwrap_err().kind,
        ValueErrorKind::Syntax
    );
    assert_eq!(
        FontWeightSpec::parse_str("100px").unwrap_err().kind,
        ValueErrorKind::Syntax
    );
}

#[test]
fn empty_font_family_is_semantic_error() {
    assert_eq!(
        SingleFontFamily::parse_str("''").unwrap_err().kind,
        ValueErrorKind::Semantic
    );
    assert_eq!(
        SingleFontFamily::parse_str("\"\"").unwrap_err().kind,
        ValueErrorKind::Semantic
    );
    assert_eq!(
        SingleFontFamily::parse_str("42").unwrap_err().kind,
        ValueErrorKind::Syntax
    );
}

#[test]
fn joins_many_family_idents() {
    assert_eq!(
        SingleFontFamily::parse_str("Gill Sans Extra Bold"),
        Ok(SingleFontFamily("Gill Sans Extra Bold".to_owned()))
    );
    assert!(SingleFontFamily::parse_str("Hello, world").is_err());
}

#[test]
fn normalizes_lengths_to_pixels() {
    let v = absolute_px(12, 1);
    let params = ViewParams {
        width: Frac::new(200, 1),
        height: Frac::new(100, 1),
        diagonal: Frac::new(158, 1),
        dpi: Frac::new(96, 1),
    };
    // 10em at 12px font-size: 120px.
    let spacing = LetterSpacingSpec::parse_str("10em").unwrap();
    assert_eq!(spacing.normalize(&v, &params), Some(Frac::new(120, 1)));
    // 1in is dpi pixels.
    let size = FontSizeSpec::parse_str("1in").unwrap();
    assert_eq!(size.normalize(&v, &params), Some(Frac::new(96, 1)));
    // 50% letter-spacing resolves against the viewport width.
    let pct = LetterSpacingSpec::parse_str("50%").unwrap();
    let r = pct.normalize(&v, &params).unwrap();
    // 50/100 * 200/1 = 10000/100.
    assert_eq!(r, Frac::new(10000, 100));
    // 2ex is one em at half weight: 2 * 12 / 2 = 12px.
    let ex = LetterSpacingSpec::parse_str("2ex").unwrap();
    assert_eq!(ex.normalize(&v, &params), Some(Frac::new(24, 2)));
}

#[test]
fn accepts_signed_and_fractional_forms() {
    assert_eq!(FontWeightSpec::parse_str("+100"), Ok(FontWeightSpec::W100));
    assert_eq!(
        FontSizeSpec::parse_str(".5in"),
        Ok(FontSizeSpec::Value(Length::new(
            5,
            10,
            LengthUnit::In,
            Axis::Both
        )))
    );
    assert_eq!(
        LetterSpacingSpec::parse_str("-0.25px"),
        Ok(LetterSpacingSpec::Value(Length::new(
            -25,
            100,
            LengthUnit::Px,
            Axis::Horizontal
        )))
    );
}

#[test]
fn rejects_overlong_numerals() {
    // Magnitudes are exact: more than fifteen digits cannot be
    // represented and parsing reports an error instead of rounding.
    assert!(FontSizeSpec::parse_str("1234567890123456").is_err());
    assert_eq!(
        FontSizeSpec::parse_str("123456789012345"),
        Ok(FontSizeSpec::Value(Length::new(
            123456789012345,
            1,
            LengthUnit::Px,
            Axis::Both
        )))
    );
}
