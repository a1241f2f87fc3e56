use svg_invert::colors::{invert_color, invert_parsed, is_color_attribute, parse_color, ColorError, Rgba};

#[test]
fn colors_test_invert_color() {
    assert_eq!(invert_color("currentColor").unwrap(), "currentColor");
    assert_eq!(invert_color("#000000").unwrap(), "#FFFFFFFF");
    assert_eq!(invert_color("#FFFFFF").unwrap(), "#000000FF");
    assert_eq!(invert_color("#FF0000").unwrap(), "#00FFFFFF");
    assert_eq!(invert_color("#00FF00").unwrap(), "#FF00FFFF");
    assert_eq!(invert_color("#0000FF").unwrap(), "#FFFF00FF");
    assert_eq!(invert_color("#FF00FF").unwrap(), "#00FF00FF");
    assert_eq!(invert_color("#00FFFF").unwrap(), "#FF0000FF");
    assert_eq!(invert_color("#FFFF00").unwrap(), "#0000FFFF");
}

#[test]
fn lib_test_invert_color() {
    assert_eq!(invert_color("currentColor").unwrap(), "currentColor");
    assert_eq!(invert_color("#000000").unwrap(), "#FFFFFFFF");
    assert_eq!(invert_color("#FFFFFF").unwrap(), "#000000FF");
    assert_eq!(invert_color("#FF0000").unwrap(), "#00FFFFFF");
    assert_eq!(invert_color("#00FF00").unwrap(), "#FF00FFFF");
    assert_eq!(invert_color("#0000FF").unwrap(), "#FFFF00FF");
    assert_eq!(invert_color("#FF00FF").unwrap(), "#00FF00FF");
    assert_eq!(invert_color("#00FFFF").unwrap(), "#FF0000FF");
    assert_eq!(invert_color("#FFFF00").unwrap(), "#0000FFFF");
}

#[test]
fn current_color_is_its_own_inversion() {
    assert_eq!(invert_color("currentColor"), Ok("currentColor".to_string()));
}

#[test]
fn current_color_is_case_sensitive() {
    for literal in ["currentcolor", "CurrentColor", "CURRENTCOLOR", " currentColor"] {
        assert_ne!(invert_color(literal), Ok(literal.to_string()));
    }
}

#[test]
fn unparseable_literal_is_refused() {
    assert_eq!(invert_color("not-a-color"), Err(ColorError::Unparseable));
    assert_eq!(invert_color(""), Err(ColorError::Unparseable));
    assert_eq!(invert_color("none"), Err(ColorError::Unparseable));
    assert_eq!(invert_color("url(#sky)"), Err(ColorError::Unparseable));
    assert_eq!(invert_color("#12345"), Err(ColorError::Unparseable));
    assert_eq!(invert_color("#GGGGGG"), Err(ColorError::Unparseable));
}

#[test]
fn every_hex_form_is_read() {
    assert_eq!(invert_color("#123").unwrap(), "#EEDDCCFF");
    assert_eq!(invert_color("#1234").unwrap(), "#EEDDCC44");
    assert_eq!(invert_color("#102030").unwrap(), "#EFDFCFFF");
    assert_eq!(invert_color("#10203040").unwrap(), "#EFDFCF40");
    assert_eq!(invert_color("#abcdef").unwrap(), "#543210FF");
}

#[test]
fn output_is_canonical_whatever_the_input_form() {
    assert_eq!(invert_color("red").unwrap(), "#00FFFFFF");
    assert_eq!(invert_color("rgb(255, 0, 0)").unwrap(), "#00FFFFFF");
    assert_eq!(invert_color("#f00").unwrap(), "#00FFFFFF");
    assert_eq!(invert_color("hsl(0, 100%, 50%)").unwrap(), "#00FFFFFF");
    assert_eq!(invert_color("black").unwrap(), "#FFFFFFFF");
    assert_eq!(invert_color("white").unwrap(), "#000000FF");
}

#[test]
fn alpha_passes_through() {
    assert_eq!(invert_color("#00000000").unwrap(), "#FFFFFF00");
    assert_eq!(invert_color("#FFFFFF80").unwrap(), "#00000080");
    assert_eq!(invert_color("#0A0B0C0D").unwrap(), "#F5F4F30D");
    assert_eq!(invert_color("transparent").unwrap(), "#FFFFFF00");
}

#[test]
fn inversion_complements_the_channels() {
    for literal in ["#0A141E80", "rgba(10, 20, 30, 0.5)", "teal", "#fed", "hsl(120, 50%, 25%)"] {
        let [r, g, b, a] = csscolorparser::parse(literal).unwrap().to_rgba8();
        let inverse = invert_color(literal).unwrap();
        let read_back = csscolorparser::parse(&inverse).unwrap().to_rgba8();
        assert_eq!(read_back, [255 - r, 255 - g, 255 - b, a]);
    }
}

#[test]
fn parse_color_agrees_with_the_parser() {
    assert_eq!(parse_color("#0A141E80"), Some(Rgba { r: 10, g: 20, b: 30, a: 128 }));
    assert_eq!(parse_color("teal"), Some(Rgba { r: 0, g: 128, b: 128, a: 255 }));
    assert_eq!(parse_color("no color"), None);
}

#[test]
fn canonical_literal_reads_back_as_printed() {
    for value in [
        Rgba { r: 0, g: 0, b: 0, a: 0 },
        Rgba { r: 255, g: 255, b: 255, a: 255 },
        Rgba { r: 1, g: 2, b: 3, a: 4 },
        Rgba { r: 0x9A, g: 0xBC, b: 0xDE, a: 0xF0 },
        Rgba { r: 127, g: 128, b: 129, a: 130 },
    ] {
        assert_eq!(parse_color(&value.to_hex_literal()), Some(value));
    }
}

#[test]
fn every_byte_reads_back_as_printed() {
    for byte in 0..=255u8 {
        let same = Rgba { r: byte, g: byte, b: byte, a: byte };
        assert_eq!(parse_color(&same.to_hex_literal()), Some(same));
        let mixed = Rgba { r: byte, g: 255 - byte, b: byte / 2, a: byte ^ 0x5A };
        assert_eq!(parse_color(&mixed.to_hex_literal()), Some(mixed));
    }
}

#[test]
fn double_inversion_of_a_canonical_literal_is_identity() {
    for literal in ["#12345678", "#000000FF", "#FFFFFFFF", "#00FFFFFF", "#ABCDEF01"] {
        let once = invert_color(literal).unwrap();
        assert_eq!(invert_color(&once).unwrap(), literal);
    }
}

#[test]
fn double_inversion_of_other_forms_is_not_identity() {
    let once = invert_color("red").unwrap();
    assert_eq!(once, "#00FFFFFF");
    let twice = invert_color(&once).unwrap();
    assert_eq!(twice, "#FF0000FF");
    assert_ne!(twice, "red");
    assert_ne!(invert_color(&invert_color("#f00").unwrap()).unwrap(), "#f00");
}

#[test]
fn to_hex_literal_prints_two_upper_case_digits_per_channel() {
    assert_eq!(Rgba { r: 0, g: 1, b: 10, a: 15 }.to_hex_literal(), "#00010A0F");
    assert_eq!(Rgba { r: 16, g: 171, b: 205, a: 239 }.to_hex_literal(), "#10ABCDEF");
    assert_eq!(Rgba { r: 255, g: 254, b: 153, a: 9 }.to_hex_literal(), "#FFFE9909");
}

#[test]
fn inverted_complements_red_green_and_blue_only() {
    assert_eq!(Rgba { r: 0, g: 255, b: 100, a: 7 }.inverted(), Rgba { r: 255, g: 0, b: 155, a: 7 });
    assert_eq!(Rgba { r: 1, g: 2, b: 3, a: 255 }.inverted(), Rgba { r: 254, g: 253, b: 252, a: 255 });
}

#[test]
fn invert_parsed_prints_the_complement_or_refuses() {
    assert_eq!(invert_parsed(Some(Rgba { r: 255, g: 0, b: 0, a: 255 })), Ok("#00FFFFFF".to_string()));
    assert_eq!(invert_parsed(Some(Rgba { r: 18, g: 52, b: 86, a: 120 })), Ok("#EDCBA978".to_string()));
    assert_eq!(invert_parsed(None), Err(ColorError::Unparseable));
}

#[test]
fn fill_and_stroke_carry_colors() {
    assert!(is_color_attribute("fill"));
    assert!(is_color_attribute("stroke"));
    assert!(!is_color_attribute("Fill"));
    assert!(!is_color_attribute("STROKE"));
    assert!(!is_color_attribute("stroke-width"));
    assert!(!is_color_attribute("stop-color"));
    assert!(!is_color_attribute("color"));
    assert!(!is_color_attribute(""));
    assert!(!is_color_attribute("fill "));
}
