use muzui::elements::{Element, Orientation};
use muzui::geometry::{Rect, Size};
use muzui::graphics::Context;
use muzui::lang::binder::{bind, parse_node, resolve, text_of, Binding, NoData, Resolved, ThemeColor};
use muzui::lang::lexer::Lexer;
use muzui::lang::parser::Parser;
use muzui::lang::program::{Expression, IndexExpression, NodeDecl};
use muzui::lang::value::{Index, Indexable, Value};
use muzui::node::Node;
use muzui::records::{LevelExp, RelicOptions};
use muzui::styling::{Color, FontSlant, FontWeight, Length, Position, Thickness};

fn theme() -> Vec<ThemeColor> {
    vec![
        ThemeColor::new("primary", Color::from_rgb(1, 2, 3)),
        ThemeColor::new("surface_container", Color::from_rgb(10, 20, 30)),
        ThemeColor::new("primary", Color::from_rgb(9, 9, 9)),
    ]
}

fn build(source: &str) -> Node {
    let mut parser = Parser::new(Lexer::parse(source));
    parse_node::<NoData>(&mut parser, &theme(), None).unwrap()
}

fn build_with<D: Indexable>(source: &str, data: &D) -> Node {
    let mut parser = Parser::new(Lexer::parse(source));
    parse_node(&mut parser, &theme(), Some(data)).unwrap()
}

fn children(node: &Node) -> &Vec<Node> {
    match &node.element {
        Element::Container(container) => &container.children,
        Element::Masonry(masonry) => &masonry.children,
        Element::Grid(grid) => &grid.children,
        other => panic!("no container: {other:?}"),
    }
}

fn text(node: &Node) -> &str {
    match &node.element {
        Element::Text(text) => &text.data,
        other => panic!("no text: {other:?}"),
    }
}

fn expression(source: &str) -> Expression {
    Expression::parse(&mut Parser::new(Lexer::parse(source))).unwrap()
}

#[test]
fn end_to_end_column_and_row() {
    let root = build("Column { width: 100%, Row { height: 50 } }");
    assert!(root.is_measurable());
    let tree = root.measure(&Context::new(400, 300), &Rect::from_xywh(0, 0, 400, 300));
    assert_eq!(tree.outer.size.width, 400);
    assert_eq!(tree.children.len(), 1);
    assert_eq!(tree.children[0].outer.size.height, 50);
    assert_eq!(tree.outer.size, Size::new(400, 50));
}

#[test]
fn interpolation_of_a_bound_name() {
    let mut scope = vec![Binding { name: "x".to_string(), value: Value::I64(5) }];
    let decl = NodeDecl::parse(&mut Parser::new(Lexer::parse("Text(\"hello {x}\")"))).unwrap();
    let node = bind::<NoData>(&decl, &mut scope, None, &theme()).unwrap();
    assert_eq!(text(&node), "hello 5");
    assert_eq!(scope.len(), 1);
    assert_eq!(
        text_of::<NoData>(&expression("\"hello {x}\""), &scope, None, &theme()),
        Some("hello 5".to_string())
    );
}

#[test]
fn unresolved_interpolation_is_empty_text() {
    let node = build("Text(\"a{missing.path}b{theme.primary}c\")");
    assert_eq!(text(&node), "abc");
}

#[test]
fn element_names() {
    assert!(matches!(
        build("Row").element,
        Element::Container(ref flow) if flow.orientation == Orientation::Horizontal
    ));
    assert!(matches!(
        build("Column").element,
        Element::Container(ref flow) if flow.orientation == Orientation::Vertical
    ));
    assert!(matches!(
        build("Container { orientation: horizontal, spacing: 4 }").element,
        Element::Container(ref flow) if flow.orientation == Orientation::Horizontal && flow.spacing == 4
    ));
    assert!(matches!(
        build("Masonry(175) { spacing: 8 }").element,
        Element::Masonry(ref masonry) if masonry.item_width == 175 && masonry.spacing == 8
    ));
    assert!(matches!(build("Masonry").element, Element::Masonry(ref masonry) if masonry.item_width == 0));
    assert!(matches!(build("Grid { spacing: 2 }").element, Element::Grid(ref grid) if grid.spacing == 2));
    assert_eq!(text(&build("Text")), "");
    assert_eq!(text(&build("Text(12)")), "12");
    assert_eq!(text(&build("Text(1.50)")), "1.50");
    assert_eq!(text(&build("Text(true)")), "true");
    assert!(matches!(
        build("Image(\"picture.png\")").element,
        Element::Image(ref image) if image.name == "picture.png" && image.data.is_empty()
            && image.width == 0 && image.height == 0
    ));
}

#[test]
fn unknown_element_is_an_error() {
    let mut parser = Parser::new(Lexer::parse("Column { Row {} Button {} Other {} }"));
    let error = parse_node::<NoData>(&mut parser, &theme(), None).unwrap_err();
    assert_eq!(error.to_string(), "Unknown element Button");
    assert_eq!(parser.mark(), 0);
    let mut parser = Parser::new(Lexer::parse("Column {"));
    let error = parse_node::<NoData>(&mut parser, &theme(), None).unwrap_err();
    assert_eq!(error.to_string(), "Unexpected nothing");
}

#[test]
fn attributes_map_onto_the_style() {
    let node = build(
        "Column {
            margin: 1 2 3 4,
            padding: 8,
            corner-radius: 72 72 0 0,
            width: 50%,
            height: 200,
            background: theme.surface_container,
            color: theme.primary,
            font-family: \"Source Code Pro\",
            font-size: 32,
            font-weight: bold,
            font-slant: italic,
            position: absolute,
            x: 100,
            y: -50,
            row: 1,
            row-span: 2,
            column: 3,
            column-span: 4
        }",
    );
    let style = node.get_style();
    assert_eq!(style.margin, Thickness::custom(1, 2, 3, 4));
    assert_eq!(style.padding, Thickness::all(8));
    assert_eq!(style.corner_radius, Thickness::custom(72, 72, 0, 0));
    assert!(matches!(style.width, Some(Length::Percent(50))));
    assert!(matches!(style.height, Some(Length::Px(200))));
    assert_eq!(style.background, Some(Color::from_rgb(10, 20, 30)));
    // The first entry of a name wins.
    assert_eq!(style.color, Some(Color::from_rgb(1, 2, 3)));
    assert_eq!(style.font_family.family, "Source Code Pro");
    assert_eq!(style.font_size.size, 32);
    assert_eq!(style.font_weight, FontWeight::Bold);
    assert_eq!(style.font_slant, FontSlant::Italic);
    assert_eq!(style.position, Position::Absolute);
    assert_eq!(style.x, Some(100));
    assert_eq!(style.y, Some(-50));
    assert_eq!((style.row, style.row_span, style.column, style.column_span), (1, 2, 3, 4));
}

#[test]
fn unresolved_attributes_keep_the_default() {
    let node = build(
        "Column {
            margin: theme.primary,
            width: bold,
            background: theme.missing,
            color: 12.5,
            font-size: \"big\",
            font-weight: 7,
            row: -1,
            flavour: 3,
            background: 4278255360
        }",
    );
    let style = node.get_style();
    assert_eq!(style.margin, Thickness::all(0));
    assert!(style.width.is_none());
    assert_eq!(style.background, Some(Color::from_rgba(0, 255, 0, 255)));
    assert_eq!(style.color, None);
    assert_eq!(style.font_size.size, 12);
    assert_eq!(style.font_weight, FontWeight::Normal);
    assert_eq!(style.row, 0);
    assert_eq!(style.row_span, 1);
    assert_eq!(style.font_family.family, "Arial");
}

#[test]
fn later_attributes_override_earlier_ones() {
    let node = build("Row { x: 1, x: 2, spacing: 3, spacing: 4 }");
    assert_eq!(node.get_style().x, Some(2));
    assert!(matches!(node.element, Element::Container(ref flow) if flow.spacing == 4));
}

#[test]
fn loops_unroll_in_order() {
    let root = build("Column { for i in 2..5 { Text(\"{i}\") Row { x: i } } Text(\"end\") }");
    let nodes = children(&root);
    assert_eq!(nodes.len(), 7);
    assert_eq!(text(&nodes[0]), "2");
    assert_eq!(nodes[1].get_style().x, Some(2));
    assert_eq!(text(&nodes[2]), "3");
    assert_eq!(text(&nodes[4]), "4");
    assert_eq!(nodes[5].get_style().x, Some(4));
    assert_eq!(text(&nodes[6]), "end");
}

#[test]
fn nested_loops_shadow_inside_only() {
    let root = build(
        "Column {
            for i in 0..2 {
                Text(\"outer {i}\")
                for i in 7..9 { Text(\"inner {i}\") }
                Text(\"after {i}\")
            }
        }",
    );
    let texts: Vec<&str> = children(&root).iter().map(text).collect();
    assert_eq!(
        texts,
        vec![
            "outer 0", "inner 7", "inner 8", "after 0", "outer 1", "inner 7", "inner 8",
            "after 1"
        ]
    );
}

#[test]
fn loops_over_what_is_no_sequence_give_nothing() {
    assert!(children(&build("Column { for i in 5..5 { Row } }")).is_empty());
    assert!(children(&build("Column { for i in 9..2 { Row } }")).is_empty());
    assert!(children(&build("Column { for i in missing { Row } }")).is_empty());
    assert!(children(&build("Column { for i in \"abc\" { Row } }")).is_empty());
    assert!(children(&build("Column { for i in theme.primary { Row } }")).is_empty());
}

#[test]
fn loops_over_bytes_of_the_data() {
    let data = RelicOptions {
        sand_main_property_list: vec![3, 1, 4],
        goblet_main_property_list: vec![],
        circlet_main_property_list: vec![],
        sub_property_list: vec![],
    };
    let root = build_with(
        "Row { for kind in sand_main_property_list { Text(\"{kind}\") } Image(sand_main_property_list) }",
        &data,
    );
    let nodes = children(&root);
    assert_eq!(nodes.len(), 4);
    assert_eq!(text(&nodes[0]), "3");
    assert_eq!(text(&nodes[1]), "1");
    assert_eq!(text(&nodes[2]), "4");
    assert!(matches!(nodes[3].element, Element::Image(ref image) if image.data == vec![3, 1, 4]
        && image.name == "<binary>"));
}

#[test]
fn paths_resolve_scope_then_data_then_theme() {
    let data = LevelExp { level: 60, exp: 1234, game_id: 2 };
    let scope = vec![
        Binding { name: "level".to_string(), value: Value::U8(1) },
        Binding { name: "theme".to_string(), value: Value::Boolean(true) },
        Binding { name: "level".to_string(), value: Value::U8(2) },
    ];
    let none: Vec<Binding> = Vec::new();
    let path = |target: &str, index: Vec<Index>| IndexExpression { target: target.to_string(), index };
    // The innermost binding shadows the data.
    assert!(matches!(
        resolve(&path("level", vec![]), &scope, Some(&data), &theme()),
        Some(Resolved::Value(Value::U8(2)))
    ));
    assert!(matches!(
        resolve(&path("level", vec![]), &none, Some(&data), &theme()),
        Some(Resolved::Value(Value::U8(60)))
    ));
    assert!(matches!(
        resolve(&path("exp", vec![]), &scope, Some(&data), &theme()),
        Some(Resolved::Value(Value::U64(1234)))
    ));
    // A bound name has no fields.
    assert!(resolve(&path("level", vec![Index::String("x".to_string())]), &scope, Some(&data), &theme()).is_none());
    assert!(
        resolve(&path("theme", vec![Index::String("primary".to_string())]), &scope, Some(&data), &theme())
            .is_none()
    );
    assert!(matches!(
        resolve(&path("theme", vec![Index::String("primary".to_string())]), &none, Some(&data), &theme()),
        Some(Resolved::Color(color)) if color == Color::from_rgb(1, 2, 3)
    ));
    assert!(resolve::<NoData>(&path("theme", vec![]), &none, None, &theme()).is_none());
    assert!(resolve::<NoData>(&path("theme", vec![Index::Number(0)]), &none, None, &theme()).is_none());
    assert!(resolve::<NoData>(&path("exp", vec![]), &none, None, &theme()).is_none());
}

#[test]
fn data_in_attributes_and_text() {
    let data = LevelExp { level: 60, exp: 1234, game_id: 2 };
    let node = build_with("Text(\"level {level}: {exp} exp\") { font-size: level, x: exp }", &data);
    assert_eq!(text(&node), "level 60: 1234 exp");
    assert_eq!(node.get_style().font_size.size, 60);
    assert_eq!(node.get_style().x, Some(1234));
}

#[test]
fn children_of_leaves_are_dropped() {
    let node = build("Text(\"a\") { Row {} Row {} }");
    assert_eq!(text(&node), "a");
}
