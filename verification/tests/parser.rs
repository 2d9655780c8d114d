use muzui::lang::lexer::{Lexer, Token};
use muzui::lang::parser::{ParseError, Parser};
use muzui::lang::program::{
    parse_bool, parse_index, parse_range, parse_string, Attribute, Expression, ForStatement,
    Formatting, Literal, NodeDecl, Number, Statement,
};
use muzui::lang::value::Index;
use muzui::elements::Orientation;
use muzui::styling::{FontSlant, FontWeight, Length, Position, Thickness};

const SOURCE: &str = r#"Column {
  padding: 96 96 96 0,
  spacing: 48,
  background: theme.surface_container,
  width: 100%,
  height: 100%,

  Row {
    spacing: 48,

    Column {
      padding: 320 0 48 0,
      background: theme.surface_container_highest,
      corner-radius: 48,

      Text("{user_info.user_info.nickname}") {
        background: theme.primary_container,
        color: theme.primary,
        font-size: 96,
      }
    }

    Column {
      padding: 0 48,
      background: theme.surface_container_highest,
      corner-radius: 48,

      Text("{user_info.user_info.introduce} a") {
        color: theme.primary,
        font-size: 96,
      }
    }
  }

  Column {
    background: theme.surface_container_highest,
    width: 100%,
    height: 100%,
    corner-radius: 72 72 0 0,
    padding: 12 120 12 12,

    Text("{characters.list[0].weapon.name} a") {
      background: theme.primary_container,
      color: theme.primary,
      font-weight: bold,
      font-size: 80
    }

    Text("{characters.list[0].weapon.desc}") {
      color: theme.primary,
      font-size: 72
    }
  }

  Image("") {
    position: absolute,
    corner-radius: 72,
    width: 320,
    height: 320,
    x: 48,
    y: 48
  }
}"#;

fn parser_of(source: &str) -> Parser {
    Parser::new(Lexer::parse(source))
}

fn expression(source: &str) -> Expression {
    Expression::parse(&mut parser_of(source)).unwrap()
}

fn path(expression: &Expression) -> (String, Vec<String>) {
    match expression {
        Expression::Index(path) => (
            path.target.clone(),
            path.index
                .iter()
                .map(|key| match key {
                    Index::String(name) => name.clone(),
                    Index::Number(place) => format!("[{place}]"),
                })
                .collect(),
        ),
        other => panic!("not a path: {other:?}"),
    }
}

#[test]
fn test_node() {
    let mut parser = parser_of(SOURCE);
    let node = NodeDecl::parse(&mut parser).unwrap();
    println!("{:#?}", node);
    assert!(parser.is_done());
    assert_eq!(node.name, "Column");
    assert!(node.args.is_empty());
    assert_eq!(node.attributes.len(), 5);
    assert_eq!(node.attributes[0].name, "padding");
    assert!(matches!(
        node.attributes[0].value,
        Expression::Thickness(Thickness { left: 96, top: 96, right: 96, bottom: 0 })
    ));
    assert_eq!(node.attributes[3].name, "width");
    assert!(matches!(
        node.attributes[3].value,
        Expression::Literal(Literal::Length(Length::Percent(100)))
    ));
    assert_eq!(node.body.len(), 3);
    match &node.body[2] {
        Statement::Node(image) => {
            assert_eq!(image.name, "Image");
            assert_eq!(image.args.len(), 1);
            assert_eq!(image.attributes.len(), 6);
            assert!(matches!(image.attributes[0].value, Expression::Position(Position::Absolute)));
            assert!(image.body.is_empty());
        }
        other => panic!("not a node: {other:?}"),
    }
    match &node.body[1] {
        Statement::Node(column) => match &column.body[0] {
            Statement::Node(text) => {
                assert_eq!(text.name, "Text");
                match &text.args[0] {
                    Expression::FormattedString(pieces) => {
                        assert_eq!(pieces.len(), 3);
                        match &pieces[1] {
                            Formatting::Expression(inner) => assert_eq!(
                                path(inner),
                                (
                                    "characters".to_string(),
                                    vec![
                                        "list".to_string(),
                                        "[0]".to_string(),
                                        "weapon".to_string(),
                                        "name".to_string()
                                    ]
                                )
                            ),
                            other => panic!("not an expression: {other:?}"),
                        }
                        assert!(matches!(&pieces[2], Formatting::String(text) if text == " a"));
                    }
                    other => panic!("not an interpolated string: {other:?}"),
                }
                assert!(matches!(
                    text.attributes[2].value,
                    Expression::FontWeight(FontWeight::Bold)
                ));
            }
            other => panic!("not a node: {other:?}"),
        },
        other => panic!("not a node: {other:?}"),
    }
}

#[test]
fn keywords_come_first() {
    assert!(matches!(expression("light"), Expression::FontWeight(FontWeight::Light)));
    assert!(matches!(expression("normal"), Expression::FontWeight(FontWeight::Normal)));
    assert!(matches!(expression("bold"), Expression::FontWeight(FontWeight::Bold)));
    assert!(matches!(expression("upright"), Expression::FontSlant(FontSlant::Upright)));
    assert!(matches!(expression("italic"), Expression::FontSlant(FontSlant::Italic)));
    assert!(matches!(expression("oblique"), Expression::FontSlant(FontSlant::Oblique)));
    assert!(matches!(expression("absolute"), Expression::Position(Position::Absolute)));
    assert!(matches!(expression("relative"), Expression::Position(Position::Relative)));
    assert!(matches!(expression("vertical"), Expression::Orientation(Orientation::Vertical)));
    assert!(matches!(expression("horizontal"), Expression::Orientation(Orientation::Horizontal)));
}

#[test]
fn a_name_alone_is_a_path() {
    assert_eq!(path(&expression("theme")), ("theme".to_string(), vec![]));
    assert_eq!(
        path(&expression("a.b[3].c")),
        ("a".to_string(), vec!["b".to_string(), "[3]".to_string(), "c".to_string()])
    );
}

#[test]
fn a_spoilt_chain_leaves_the_name() {
    let mut parser = parser_of("a.5");
    let parsed = Expression::parse(&mut parser).unwrap();
    assert!(matches!(parsed, Expression::Ident(ref name) if name == "a"));
    assert_eq!(parser.mark(), 1);
    let mut parser = parser_of("a[b]");
    let parsed = Expression::parse(&mut parser).unwrap();
    assert!(matches!(parsed, Expression::Ident(ref name) if name == "a"));
    assert_eq!(parser.mark(), 1);
    let mut parser = parser_of("a[1");
    assert!(matches!(Expression::parse(&mut parser).unwrap(), Expression::Ident(_)));
    assert_eq!(parse_index(&mut parser_of("a[1")).unwrap_err().to_string(), "Expected ], found nothing");
    assert_eq!(parse_index(&mut parser_of("a.")).unwrap_err().to_string(), "Unexpected nothing");
    assert_eq!(parse_index(&mut parser_of("a[-1]")).unwrap_err().to_string(), "Unexpected -1");
}

#[test]
fn literals() {
    assert!(matches!(expression("true"), Expression::Literal(Literal::Boolean(true))));
    assert!(matches!(expression("0..5"), Expression::Literal(Literal::Range(0, 5))));
    assert!(matches!(expression("12"), Expression::Literal(Literal::Number(Number::Int(12)))));
    assert!(matches!(expression("-12"), Expression::Literal(Literal::Number(Number::Int(-12)))));
    assert!(matches!(
        expression("1.5"),
        Expression::Literal(Literal::Number(Number::Float(ref text))) if text == "1.5"
    ));
    assert!(matches!(
        expression("50%"),
        Expression::Literal(Literal::Length(Length::Percent(50)))
    ));
    assert!(matches!(
        expression("12.5%"),
        Expression::Literal(Literal::Length(Length::Percent(12)))
    ));
    assert!(matches!(
        expression("\"abc\""),
        Expression::Literal(Literal::String(ref text)) if text == "abc"
    ));
}

#[test]
fn thickness_in_short() {
    assert!(matches!(
        expression("1 2 3 4"),
        Expression::Thickness(Thickness { left: 1, top: 2, right: 3, bottom: 4 })
    ));
    assert!(matches!(
        expression("1 2"),
        Expression::Thickness(Thickness { left: 2, top: 1, right: 2, bottom: 1 })
    ));
    let mut parser = parser_of("1 2 3 x");
    assert!(matches!(
        Expression::parse(&mut parser).unwrap(),
        Expression::Thickness(Thickness { left: 2, top: 1, right: 2, bottom: 1 })
    ));
    assert_eq!(parser.mark(), 3);
    let mut parser = parser_of("1 2 3 4 5");
    assert!(matches!(Expression::parse(&mut parser).unwrap(), Expression::Thickness(_)));
    assert_eq!(parser.mark(), 4);
    assert_eq!(
        Thickness::parse(&mut parser_of("x")).unwrap_err().to_string(),
        "failed to parse thickness"
    );
    assert!(matches!(
        Thickness::parse(&mut parser_of("7")).unwrap(),
        Thickness { left: 7, top: 7, right: 7, bottom: 7 }
    ));
}

#[test]
fn interpolated_string_expression() {
    match expression("\"hello {x}\"") {
        Expression::FormattedString(pieces) => {
            assert_eq!(pieces.len(), 3);
            assert!(matches!(&pieces[0], Formatting::String(text) if text == "hello "));
            assert!(matches!(&pieces[1], Formatting::Expression(Expression::Index(_))));
            assert!(matches!(&pieces[2], Formatting::String(text) if text.is_empty()));
        }
        other => panic!("not an interpolated string: {other:?}"),
    }
    let mut parser = parser_of("\"a {} b\"");
    assert_eq!(
        Expression::parse(&mut parser).unwrap_err().to_string(),
        "Unexpected a  b"
    );
    assert_eq!(parser.mark(), 0);
}

#[test]
fn expression_errors() {
    assert_eq!(
        Expression::parse(&mut parser_of("")).unwrap_err().to_string(),
        "Unexpected nothing"
    );
    assert_eq!(
        Expression::parse(&mut parser_of(":")).unwrap_err().to_string(),
        "Unexpected :"
    );
    assert_eq!(
        Expression::parse(&mut parser_of("?")).unwrap_err().to_string(),
        "Unexpected unknown token ?"
    );
}

#[test]
fn simple_productions() {
    assert!(parse_bool(&mut parser_of("false")).is_ok_and(|value| !value));
    assert_eq!(parse_bool(&mut parser_of("1")).unwrap_err().to_string(), "Unexpected 1");
    assert_eq!(parse_string(&mut parser_of("\"s\"")).unwrap(), "s");
    assert_eq!(parse_range(&mut parser_of("2..9")).unwrap(), (2, 9));
    assert_eq!(
        parse_range(&mut parser_of("2.x")).unwrap_err().to_string(),
        "Expected ., found x"
    );
    assert_eq!(
        parse_range(&mut parser_of("2")).unwrap_err().to_string(),
        "Expected ., found nothing"
    );
    assert_eq!(
        Length::parse(&mut parser_of("5")).unwrap_err().to_string(),
        "Expected %, found nothing"
    );
    assert_eq!(
        Number::parse(&mut parser_of("5%")).unwrap_err().to_string(),
        "Unexpected %"
    );
}

#[test]
fn attribute_production() {
    let attribute = Attribute::parse(&mut parser_of("font-size: 32")).unwrap();
    assert_eq!(attribute.name, "font-size");
    assert!(matches!(attribute.value, Expression::Literal(Literal::Number(Number::Int(32)))));
    let mut parser = parser_of("a b");
    assert_eq!(
        Attribute::parse(&mut parser).unwrap_err().to_string(),
        "Expected :, found b"
    );
    assert_eq!(parser.mark(), 0);
    let mut parser = parser_of("a: ");
    assert_eq!(Attribute::parse(&mut parser).unwrap_err().to_string(), "Unexpected nothing");
    assert_eq!(parser.mark(), 0);
}

#[test]
fn node_shapes() {
    let bare = NodeDecl::parse(&mut parser_of("Row")).unwrap();
    assert_eq!(bare.name, "Row");
    assert!(bare.args.is_empty() && bare.attributes.is_empty() && bare.body.is_empty());
    let with_args = NodeDecl::parse(&mut parser_of("Text(\"a\", 2)")).unwrap();
    assert_eq!(with_args.args.len(), 2);
    let empty_args = NodeDecl::parse(&mut parser_of("Text()")).unwrap();
    assert!(empty_args.args.is_empty());
    let nested = NodeDecl::parse(&mut parser_of("Column { width: 100%, Row { height: 50 } }")).unwrap();
    assert_eq!(nested.attributes.len(), 1);
    assert_eq!(nested.body.len(), 1);
    let no_comma = NodeDecl::parse(&mut parser_of("Column { width: 1 Row Row }")).unwrap();
    assert_eq!(no_comma.attributes.len(), 1);
    assert_eq!(no_comma.body.len(), 2);
    let only_children = NodeDecl::parse(&mut parser_of("Column { Row {} Row {} }")).unwrap();
    assert!(only_children.attributes.is_empty());
    assert_eq!(only_children.body.len(), 2);
}

#[test]
fn node_errors_leave_the_cursor() {
    for (source, message) in [
        ("", "Unexpected nothing"),
        ("{", "Unexpected {"),
        ("Text(\"a\" \"b\")", "Expected ,, found b"),
        ("Text(\"a\"", "Expected ,, found nothing"),
        ("Text(", "Unexpected nothing"),
        ("Row {", "Unexpected nothing"),
        ("Row { a: 1, : }", "Unexpected :"),
        ("Row { Row { }", "Unexpected nothing"),
    ] {
        let mut parser = parser_of(source);
        let error = NodeDecl::parse(&mut parser).unwrap_err();
        assert_eq!(error.to_string(), message, "{source}");
        assert_eq!(parser.mark(), 0, "{source}");
    }
}

#[test]
fn for_statement_production() {
    let mut parser = parser_of("for item in 0..3 { Row {} Text(\"{item}\") }");
    let repeat = ForStatement::parse(&mut parser).unwrap();
    assert_eq!(repeat.name, "item");
    assert!(matches!(repeat.target, Expression::Literal(Literal::Range(0, 3))));
    assert_eq!(repeat.body.len(), 2);
    assert!(parser.is_done());
    assert_eq!(
        ForStatement::parse(&mut parser_of("Row")).unwrap_err().to_string(),
        "Expected for, found Row"
    );
    assert_eq!(
        ForStatement::parse(&mut parser_of("for x of y {}")).unwrap_err().to_string(),
        "Expected in, found of"
    );
    assert_eq!(
        ForStatement::parse(&mut parser_of("for x in y")).unwrap_err().to_string(),
        "Expected {, found nothing"
    );
    assert_eq!(
        ForStatement::parse(&mut parser_of("for 1")).unwrap_err().to_string(),
        "Unexpected 1"
    );
    match Statement::parse(&mut parser_of("for x in data.list { Row }")).unwrap() {
        Statement::ForStatement(repeat) => assert_eq!(repeat.body.len(), 1),
        other => panic!("not a repetition: {other:?}"),
    }
    // Without its keyword a repetition reads as a node.
    assert!(matches!(
        Statement::parse(&mut parser_of("fore x in y")).unwrap(),
        Statement::Node(_)
    ));
}

#[test]
fn cursor_primitives() {
    let mut parser = parser_of("a , 1");
    assert!(parser.check(&Token::ident("a")));
    assert!(!parser.check(&Token::Comma));
    assert!(parser.check_if(Token::is_ident));
    assert!(!parser.try_consume(&Token::Comma));
    assert!(parser.try_consume(&Token::ident("a")));
    assert_eq!(parser.peek(), Some(&Token::Comma));
    assert_eq!(
        parser.consume(&Token::Colon).unwrap_err().to_string(),
        "Expected :, found ,"
    );
    assert_eq!(parser.consume(&Token::Comma).unwrap(), Token::Comma);
    assert_eq!(parser.next_if(Token::is_ident), None);
    assert_eq!(
        parser.consume_if(Token::is_ident).unwrap_err().to_string(),
        "Unexpected 1"
    );
    assert_eq!(parser.consume_map(Token::try_as_i64).unwrap(), 1);
    assert_eq!(parser.next(), None);
    assert_eq!(parser.peek(), None);
    assert!(parser.is_done());
    assert_eq!(
        parser.consume(&Token::Comma).unwrap_err().to_string(),
        "Expected ,, found nothing"
    );
    assert_eq!(
        parser.consume_map(Token::try_as_i64).unwrap_err().to_string(),
        "Unexpected nothing"
    );
    parser.rewind(0);
    assert_eq!(parser.next(), Some(Token::ident("a")));
    assert_eq!(parser.next_if(|token| *token == Token::Comma), Some(Token::Comma));
}

#[test]
fn one_of_several_tokens() {
    let mut parser = parser_of(". x");
    let either = vec![Token::Dot, Token::BracketOpen];
    assert_eq!(parser.consume_one_of(&either).unwrap(), Token::Dot);
    assert_eq!(
        parser.consume_one_of(&either).unwrap_err().to_string(),
        "Expected . or [, found x"
    );
    assert_eq!(
        parser.consume_one_of(&vec![Token::Dot, Token::Comma, Token::Colon]).unwrap_err().to_string(),
        "Expected ., , or :, found x"
    );
    assert_eq!(
        parser.consume_one_of(&vec![Token::Dot]).unwrap_err().to_string(),
        "Expected ., found x"
    );
    assert_eq!(
        parser.consume_one_of(&Vec::new()).unwrap_err().to_string(),
        "Expected nothing, found x"
    );
}

#[test]
fn error_descriptions() {
    assert_eq!(ParseError::new("failed to parse color").to_string(), "failed to parse color");
    assert_eq!(ParseError::unexpected_token(None).to_string(), "Unexpected nothing");
    assert_eq!(
        ParseError::unexpected_token(Some(&Token::Integer(5))).to_string(),
        "Unexpected 5"
    );
    assert_eq!(
        ParseError::expected_token(&Token::BraceOpen, Some(&Token::ident("x"))).to_string(),
        "Expected {, found x"
    );
    assert_eq!(
        ParseError::expected_token(&Token::BraceOpen, None).to_string(),
        "Expected {, found nothing"
    );
}
