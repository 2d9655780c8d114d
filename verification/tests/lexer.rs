use muzui::lang::lexer::{Lexer, StringPart, Token};

const DATA: &str = "Column {
        padding: 8,
        background: theme.surface_container,
        spacing: 8,
        width: 50%,

        Row {
            height: 200,
            width: 100%,
            background: theme.primary_container,
            corner-radius: 50,
            
            Row {
                height: 50%,
                width: 50%,
                background: theme.tertiary_container,
                corner-radius: 50,
            }
        }

        Row {
            height: 200,
            width: 200,
            background: theme.primary_container,
            corner-radius: 50
        }

        Text(\"АЛО {sub.wtf} ВАШИХ\") {
            background: theme.primary_container,
            color: theme.on_primary_container,
            font-family: \"Source Code Pro\",
            font-size: 32,
            font-weight: bold
        }

        Text(\"АЛО {xd} ВАШИХ\") {
            background: theme.primary_container,
            color: theme.on_primary_container,
            font-family: \"Source Code Pro\",
            font-size: 32,
            font-weight: bold
        }

        Image(\"/home/aiving/Pictures/e4c2e8651098c6989b2e47b1b910e788.png\") {
            height: 200,
            width: 200,
            position: absolute,
            x: 100,
            y: 50,
            corner-radius: 50
        }
    }";

fn ident(name: &str) -> Token {
    Token::Ident(name.to_string())
}

#[test]
fn test_lexer() {
    let tokens = Lexer::parse(DATA);
    println!("{:#?}", tokens);
    assert_eq!(tokens.len(), 174);
    assert_eq!(tokens[0], ident("Column"));
    assert_eq!(tokens[1], Token::BraceOpen);
    assert_eq!(tokens[2], ident("padding"));
    assert_eq!(tokens[3], Token::Colon);
    assert_eq!(tokens[4], Token::Integer(8));
    assert_eq!(tokens[5], Token::Comma);
    assert_eq!(tokens[tokens.len() - 1], Token::BraceClose);
    assert!(!tokens.iter().any(|token| matches!(token, Token::Unknown(_))));
}

#[test]
fn trailing_dot_is_integer_then_dot() {
    assert_eq!(Lexer::parse("50."), vec![Token::Integer(50), Token::Dot]);
}

#[test]
fn digits_dot_digits_is_a_float() {
    assert_eq!(Lexer::parse("12.5"), vec![Token::Float("12.5".to_string())]);
    assert_eq!(Lexer::parse("-0.25"), vec![Token::Float("-0.25".to_string())]);
}

#[test]
fn range_lexes_as_two_dots() {
    assert_eq!(
        Lexer::parse("0..5"),
        vec![Token::Integer(0), Token::Dot, Token::Dot, Token::Integer(5)]
    );
}

#[test]
fn whitespace_is_skipped() {
    assert_eq!(Lexer::parse(" \t\r\n\x0C"), Vec::<Token>::new());
    assert_eq!(Lexer::parse(""), Vec::<Token>::new());
}

#[test]
fn booleans_are_not_identifiers() {
    assert_eq!(
        Lexer::parse("true false truth"),
        vec![Token::Boolean(true), Token::Boolean(false), ident("truth")]
    );
}

#[test]
fn identifiers_take_dashes_and_underscores() {
    assert_eq!(
        Lexer::parse("corner-radius on_primary a1"),
        vec![ident("corner-radius"), ident("on_primary"), ident("a1")]
    );
}

#[test]
fn minus_before_a_digit_signs_the_number() {
    assert_eq!(Lexer::parse("-12"), vec![Token::Integer(-12)]);
    assert_eq!(Lexer::parse("- 12"), vec![Token::Minus, Token::Integer(12)]);
    assert_eq!(Lexer::parse("-x"), vec![Token::Minus, ident("x")]);
    assert_eq!(Lexer::parse("-5."), vec![Token::Integer(-5), Token::Dot]);
}

#[test]
fn long_digit_runs_saturate() {
    assert_eq!(
        Lexer::parse("9223372036854775807"),
        vec![Token::Integer(i64::MAX)]
    );
    assert_eq!(
        Lexer::parse("9223372036854775808"),
        vec![Token::Integer(i64::MAX)]
    );
    assert_eq!(
        Lexer::parse("-9223372036854775808"),
        vec![Token::Integer(i64::MIN)]
    );
    assert_eq!(
        Lexer::parse("-99999999999999999999999999"),
        vec![Token::Integer(i64::MIN)]
    );
    assert_eq!(Lexer::parse("007"), vec![Token::Integer(7)]);
}

#[test]
fn pound_then_alphanumeric_run() {
    assert_eq!(Lexer::parse("#FF00aa"), vec![Token::Pound, ident("FF00aa")]);
    assert_eq!(Lexer::parse("#12"), vec![Token::Pound, ident("12")]);
    assert_eq!(Lexer::parse("# x"), vec![Token::Pound, ident("x")]);
}

#[test]
fn punctuation_tokens() {
    assert_eq!(
        Lexer::parse("[]{}():+-*/#%.,"),
        vec![
            Token::BracketOpen,
            Token::BracketClose,
            Token::BraceOpen,
            Token::BraceClose,
            Token::ParenOpen,
            Token::ParenClose,
            Token::Colon,
            Token::Plus,
            Token::Minus,
            Token::Star,
            Token::Slash,
            Token::Pound,
            Token::Percent,
            Token::Dot,
            Token::Comma,
        ]
    );
}

#[test]
fn unknown_characters_pass_through() {
    assert_eq!(
        Lexer::parse("a ? _b ж"),
        vec![
            ident("a"),
            Token::Unknown('?'),
            Token::Unknown('_'),
            ident("b"),
            Token::Unknown('ж'),
        ]
    );
}

#[test]
fn plain_string() {
    assert_eq!(
        Lexer::parse("\"Source Code Pro\""),
        vec![Token::String("Source Code Pro".to_string())]
    );
    assert_eq!(Lexer::parse("\"\""), vec![Token::String(String::new())]);
    assert_eq!(Lexer::parse("\"open"), vec![Token::String("open".to_string())]);
}

#[test]
fn escaped_quote_is_a_quote() {
    assert_eq!(
        Lexer::parse("\"a\\\"b\" c"),
        vec![Token::String("a\"b".to_string()), ident("c")]
    );
    assert_eq!(
        Lexer::parse("\"a\\b\""),
        vec![Token::String("a\\b".to_string())]
    );
}

#[test]
fn interpolated_string_parts() {
    assert_eq!(
        Lexer::parse("\"hello {x}\""),
        vec![Token::FormattedString(vec![
            StringPart::String("hello ".to_string()),
            StringPart::Formatted(vec![ident("x")]),
            StringPart::String(String::new()),
        ])]
    );
    assert_eq!(
        Lexer::parse("\"{a.b[0]} and {c}!\" d"),
        vec![
            Token::FormattedString(vec![
                StringPart::String(String::new()),
                StringPart::Formatted(vec![
                    ident("a"),
                    Token::Dot,
                    ident("b"),
                    Token::BracketOpen,
                    Token::Integer(0),
                    Token::BracketClose,
                ]),
                StringPart::String(" and ".to_string()),
                StringPart::Formatted(vec![ident("c")]),
                StringPart::String("!".to_string()),
            ]),
            ident("d"),
        ]
    );
}

#[test]
fn region_runs_to_the_next_brace() {
    assert_eq!(
        Lexer::parse("\"{a{b}\""),
        vec![Token::FormattedString(vec![
            StringPart::String(String::new()),
            StringPart::Formatted(vec![ident("a")]),
            StringPart::String(String::new()),
            StringPart::Formatted(vec![ident("b")]),
            StringPart::String(String::new()),
        ])]
    );
    assert_eq!(
        Lexer::parse("\"{a"),
        vec![Token::FormattedString(vec![
            StringPart::String(String::new()),
            StringPart::Formatted(vec![ident("a")]),
            StringPart::String(String::new()),
        ])]
    );
}

#[test]
fn token_text_for_diagnostics() {
    assert_eq!(Token::Integer(-42).to_string(), "-42");
    assert_eq!(Token::Integer(0).to_string(), "0");
    assert_eq!(Token::Integer(i64::MIN).to_string(), "-9223372036854775808");
    assert_eq!(Token::Integer(i64::MAX).to_string(), "9223372036854775807");
    assert_eq!(Token::Boolean(true).to_string(), "true");
    assert_eq!(Token::Boolean(false).to_string(), "false");
    assert_eq!(Token::Float("1.50".to_string()).to_string(), "1.50");
    assert_eq!(ident("abc").to_string(), "abc");
    assert_eq!(Token::BraceOpen.to_string(), "{");
    assert_eq!(Token::Dot.to_string(), ".");
    assert_eq!(Token::Percent.to_string(), "%");
    assert_eq!(Token::Unknown('?').to_string(), "unknown token ?");
    assert_eq!(
        Lexer::parse("\"a {b.c} d\"")[0].to_string(),
        "a b.c d"
    );
}

#[test]
fn token_accessors() {
    assert!(ident("a").is_ident());
    assert!(Token::Float("1.5".to_string()).is_f32());
    assert!(Token::Integer(1).is_i64());
    assert!(Token::Integer(1).is_i64_or_f32());
    assert!(Token::Float("1.5".to_string()).is_i64_or_f32());
    assert!(!ident("a").is_i64_or_f32());
    assert!(Token::String("s".to_string()).is_string());
    assert!(Token::Boolean(true).is_bool());
    assert!(Token::FormattedString(vec![]).is_formatted_string());
    assert_eq!(Token::String("s".to_string()).into_string(), "s");
    assert_eq!(ident("a").into_ident(), "a");
    assert_eq!(Token::Integer(7).into_i64(), 7);
    assert!(Token::Boolean(true).into_bool());
    assert_eq!(Token::String("s".to_string()).as_str(), "s");
    assert_eq!(Token::Boolean(false).try_as_bool(), Some(false));
    assert_eq!(ident("a").try_as_bool(), None);
    assert_eq!(Token::String("s".to_string()).try_as_str(), Some("s"));
    assert_eq!(ident("a").try_as_ident(), Some("a"));
    assert_eq!(Token::Integer(7).try_as_i64(), Some(7));
    assert_eq!(Token::Integer(255).try_as_u8(), Some(255));
    assert_eq!(Token::Integer(256).try_as_u8(), None);
    assert_eq!(Token::Integer(-1).try_as_u8(), None);
    assert_eq!(Token::ident("for"), ident("for"));
}

#[test]
fn numeric_tokens_as_whole_pixels() {
    assert_eq!(Token::Integer(12).try_as_f32(), Some(12));
    assert_eq!(Token::Float("12.75".to_string()).try_as_f32(), Some(12));
    assert_eq!(Token::Float("-3.7".to_string()).try_as_f32(), Some(-3));
    assert_eq!(ident("a").try_as_f32(), None);
    assert_eq!(Token::Float("2.5".to_string()).into_f32(), 2);
}

#[test]
fn token_copies_are_equal() {
    let tokens = Lexer::parse("\"a {b \"c\" 1.5} d\" e");
    let copy = tokens.clone();
    assert_eq!(tokens, copy);
    assert_ne!(tokens[0], tokens[1]);
}
