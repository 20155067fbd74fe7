use nokto_theme::color::{alpha, alpha_from_parsed, hex, hex_from_parsed, parse_color, to_css_hex, Rgba8};
use nokto_theme::theme::{
    ALPHA_FIFTEEN, ALPHA_FORTY, ALPHA_HALF, ALPHA_QUARTER, ALPHA_TEN, ALPHA_THIRTY, ALPHA_TWENTY,
};

#[test]
fn hex_lowercases_a_hex_colour() {
    assert_eq!(hex("#3D5FCF"), "#3d5fcf");
    assert_eq!(hex("#FF9E64"), "#ff9e64");
}

#[test]
fn hex_writes_translucent_rgba_with_alpha_byte() {
    assert_eq!(hex("rgba(1,4,9,0.85)"), "#010409d9");
}

#[test]
fn hex_expands_named_and_short_colours() {
    assert_eq!(hex("red"), "#ff0000");
    assert_eq!(hex("#fff"), "#ffffff");
}

#[test]
fn hex_keeps_text_that_is_no_colour() {
    assert_eq!(hex("not a colour"), "not a colour");
    assert_eq!(hex(""), "");
}

#[test]
fn alpha_replaces_the_alpha_byte() {
    assert_eq!(alpha("#3d5fcf", ALPHA_TWENTY), "#3d5fcf33");
    assert_eq!(alpha("rgba(1,4,9,0.85)", 255), "#010409");
    assert_eq!(alpha("#6e7681", ALPHA_HALF), "#6e768180");
}

#[test]
fn alpha_keeps_text_that_is_no_colour() {
    assert_eq!(alpha("bogus", ALPHA_TEN), "bogus");
}

#[test]
fn parse_color_reads_the_channels() {
    assert_eq!(parse_color("#ff0000"), Some(Rgba8 { r: 255, g: 0, b: 0, a: 255 }));
    assert_eq!(parse_color("#0102037f"), Some(Rgba8 { r: 1, g: 2, b: 3, a: 127 }));
    assert_eq!(parse_color("nope"), None);
}

#[test]
fn css_hex_formats_each_byte_with_two_digits() {
    assert_eq!(to_css_hex(Rgba8 { r: 0, g: 10, b: 255, a: 255 }), "#000aff");
    assert_eq!(to_css_hex(Rgba8 { r: 171, g: 205, b: 239, a: 1 }), "#abcdef01");
    assert_eq!(to_css_hex(Rgba8 { r: 0, g: 0, b: 0, a: 254 }), "#000000fe");
}

#[test]
fn formatting_after_the_parser_answered() {
    let c = Rgba8 { r: 18, g: 52, b: 86, a: 255 };
    assert_eq!(hex_from_parsed("whatever", Some(c)), "#123456");
    assert_eq!(hex_from_parsed("whatever", None), "whatever");
    assert_eq!(alpha_from_parsed("x", Some(c), 0), "#12345600");
    assert_eq!(alpha_from_parsed("x", None, 0), "x");
}

#[test]
fn alpha_bytes_match_the_parser_scaling() {
    let byte = |a: f32| csscolorparser::Color::new(0.0, 0.0, 0.0, a).to_rgba8()[3];
    assert_eq!(byte(0.5), ALPHA_HALF);
    assert_eq!(byte(0.2), ALPHA_TWENTY);
    assert_eq!(byte(0.1), ALPHA_TEN);
    assert_eq!(byte(0.25), ALPHA_QUARTER);
    assert_eq!(byte(0.3), ALPHA_THIRTY);
    assert_eq!(byte(0.4), ALPHA_FORTY);
    assert_eq!(byte(0.15), ALPHA_FIFTEEN);
}

#[test]
fn distinct_colours_get_distinct_notations() {
    let a = to_css_hex(Rgba8 { r: 1, g: 2, b: 3, a: 255 });
    let b = to_css_hex(Rgba8 { r: 1, g: 2, b: 3, a: 254 });
    let c = to_css_hex(Rgba8 { r: 1, g: 2, b: 4, a: 255 });
    assert_ne!(a, b);
    assert_ne!(a, c);
    assert_eq!(a.len(), 7);
    assert_eq!(b.len(), 9);
}

#[test]
fn hex_notation_reads_back_every_byte() {
    for x in 0..=255u8 {
        let y = 255 - x;
        let long = format!("#{:02x}{:02x}{:02x}{:02x}", x, y, x, y);
        assert_eq!(parse_color(&long), Some(Rgba8 { r: x, g: y, b: x, a: y }));
        let upper = format!("#{:02X}{:02X}{:02X}", y, x, y);
        assert_eq!(parse_color(&upper), Some(Rgba8 { r: y, g: x, b: y, a: 255 }));
    }
    for d in 0..16u8 {
        let short = format!("#{:x}{:x}{:X}{:x}", d, 15 - d, d, d);
        let v = d * 17;
        let w = (15 - d) * 17;
        assert_eq!(parse_color(&short), Some(Rgba8 { r: v, g: w, b: v, a: v }));
        let short3 = format!("#{:x}{:x}{:x}", d, d, 15 - d);
        assert_eq!(parse_color(&short3), Some(Rgba8 { r: v, g: v, b: w, a: 255 }));
    }
}

#[test]
fn normalising_twice_changes_nothing() {
    for s in ["#3D5FCF", "rgba(1,4,9,0.85)", "red", "#abc", "bogus", "hsl(120,50%,50%)"] {
        let once = hex(s);
        assert_eq!(hex(&once), once);
    }
}

#[test]
fn the_last_alpha_wins() {
    for s in ["#3d5fcf", "rgba(1,4,9,0.85)", "red", "bogus"] {
        assert_eq!(alpha(&alpha(s, 51), 128), alpha(s, 128));
        assert_eq!(hex(&alpha(s, 77)), alpha(s, 77));
    }
}
