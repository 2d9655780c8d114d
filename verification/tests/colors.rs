use muzui::lang::color::hex_color_of;
use muzui::lang::lexer::Lexer;
use muzui::lang::parser::Parser;
use muzui::lang::program::{parse_f32, parse_i64};
use muzui::styling::{Color, FontFamily, FontSize};

fn parser_of(source: &str) -> Parser {
    Parser::new(Lexer::parse(source))
}

#[test]
fn hexadecimal_colours() {
    assert_eq!(hex_color_of("FF0000"), Some(0xFFFF_0000));
    assert_eq!(hex_color_of("00ff7f"), Some(0xFF00_FF7F));
    assert_eq!(hex_color_of("80FF0000"), Some(0x80FF_0000));
    assert_eq!(hex_color_of("f"), Some(0xF));
    assert_eq!(hex_color_of("FFFFFFFF"), Some(u32::MAX));
    assert_eq!(hex_color_of("0FFFFFFFF"), Some(u32::MAX));
    assert_eq!(hex_color_of("100000000"), None);
    assert_eq!(hex_color_of(""), None);
    assert_eq!(hex_color_of("GG0000"), None);
    assert_eq!(hex_color_of("ff-000"), None);
    assert_eq!(hex_color_of("12345g"), None);
}

#[test]
fn colours_in_the_source() {
    assert_eq!(Color::parse(&mut parser_of("#FF8000")).unwrap(), Color::from_rgb(255, 128, 0));
    assert_eq!(Color::parse(&mut parser_of("#123456")).unwrap(), Color::from_rgb(0x12, 0x34, 0x56));
    assert_eq!(
        Color::parse(&mut parser_of("#80FF8000")).unwrap(),
        Color::from_rgba(255, 128, 0, 0x80)
    );
    assert_eq!(
        Color::parse(&mut parser_of("argb(1, 2, 3, 4)")).unwrap(),
        Color::from_rgba(2, 3, 4, 1)
    );
    assert_eq!(
        Color::parse(&mut parser_of("rgba(1, 2, 3, 4)")).unwrap(),
        Color::from_rgba(1, 2, 3, 4)
    );
    assert_eq!(Color::parse(&mut parser_of("rgb(1 2 3)")).unwrap(), Color::from_rgb(1, 2, 3));
    let mut parser = parser_of("rgb(1, 2, 3) next");
    assert!(Color::parse(&mut parser).is_ok());
    assert_eq!(parser.mark(), 8);
}

#[test]
fn colour_errors_leave_the_cursor() {
    for (source, message) in [
        ("red", "failed to parse color"),
        ("", "failed to parse color"),
        ("#", "Unexpected nothing"),
        ("#GG0000", "Unexpected GG0000"),
        ("rgb 1", "Expected (, found 1"),
        ("rgb(1, 2)", "Unexpected )"),
        ("rgb(1, 2, 256)", "Unexpected 256"),
        ("rgb(1, 2, -1)", "Unexpected -1"),
        ("rgb(, 1, 2, 3)", "Unexpected ,"),
        ("rgb(1, 2, 3", "Expected ), found nothing"),
        ("rgb(1, 2, 3, 4)", "Expected ), found ,"),
        ("argb(1, 2, 3)", "Unexpected )"),
        ("rgba(1,, 2, 3, 4)", "Unexpected ,"),
    ] {
        let mut parser = parser_of(source);
        assert_eq!(Color::parse(&mut parser).unwrap_err().to_string(), message, "{source}");
        assert_eq!(parser.mark(), 0, "{source}");
    }
}

#[test]
fn numbers_and_fonts_in_the_source() {
    assert_eq!(parse_i64(&mut parser_of("-7")).unwrap(), -7);
    assert_eq!(parse_i64(&mut parser_of("7.5")).unwrap_err().to_string(), "Unexpected 7.5");
    assert_eq!(parse_f32(&mut parser_of("7.5")).unwrap(), 7);
    assert_eq!(parse_f32(&mut parser_of("7")).unwrap(), 7);
    assert_eq!(parse_f32(&mut parser_of("x")).unwrap_err().to_string(), "Unexpected x");
    assert_eq!(FontSize::parse(&mut parser_of("32")).unwrap().size, 32);
    assert_eq!(FontFamily::parse(&mut parser_of("\"Mono\"")).unwrap().family, "Mono");
    assert_eq!(
        FontFamily::parse(&mut parser_of("Mono")).unwrap_err().to_string(),
        "Unexpected Mono"
    );
}
