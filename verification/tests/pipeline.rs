use material_colors::color::Argb;
use material_colors::theme::ThemeBuilder;
use muzui::elements::{Element, GridLength};
use muzui::geometry::{Rect, Size};
use muzui::graphics::Context;
use muzui::lang::binder::{parse_node, NoData, ThemeColor};
use muzui::lang::lexer::Lexer;
use muzui::lang::parser::Parser;
use muzui::node::Node;
use muzui::styling::{Color, FontWeight, Length, Position, Thickness};

const DATA: &str = "Column {
        padding: 8,
        background: theme.surface_container,
        spacing: 8,
        width: 50%,

        Row {
            height: 200,
            width: 100%,
            background: theme.primary_container,
            corner-radius: 50,
            
            Row {
                height: 50%,
                width: 50%,
                background: theme.tertiary_container,
                corner-radius: 50,
            }
        }

        Row {
            height: 200,
            width: 200,
            background: theme.primary_container,
            corner-radius: 50
        }

        Text(\"АЛО {sub.wtf} ВАШИХ\") {
            background: theme.primary_container,
            color: theme.on_primary_container,
            font-family: \"Source Code Pro\",
            font-size: 32,
            font-weight: bold
        }

        Text(\"АЛО {xd} ВАШИХ\") {
            background: theme.primary_container,
            color: theme.on_primary_container,
            font-family: \"Source Code Pro\",
            font-size: 32,
            font-weight: bold
        }

        Image(\"/home/aiving/Pictures/e4c2e8651098c6989b2e47b1b910e788.png\") {
            height: 200,
            width: 200,
            position: absolute,
            x: 100,
            y: 50,
            corner-radius: 50
        }
    }";

const CARD: &str = r#"Column {
  padding: 96 96 96 0,
  spacing: 48,
  background: theme.surface_container,
  width: 100%,
  height: 100%,

  Row {
    spacing: 48,

    Column {
      padding: 320 0 48 0,
      background: theme.surface_container_highest,
      corner-radius: 48,

      Text("{user_info.user_info.nickname}") {
        background: theme.primary_container,
        color: theme.primary,
        font-size: 96,
      }
    }

    Column {
      padding: 0 48,
      background: theme.surface_container_highest,
      corner-radius: 48,

      Text("{user_info.user_info.introduce} a") {
        color: theme.primary,
        font-size: 96,
      }
    }
  }

  Column {
    background: theme.surface_container_highest,
    width: 100%,
    height: 100%,
    corner-radius: 72 72 0 0,
    padding: 12 120 12 12,

    Text("{characters.list[0].weapon.name} a") {
      background: theme.primary_container,
      color: theme.primary,
      font-weight: bold,
      font-size: 80
    }

    Text("{characters.list[0].weapon.desc}") {
      color: theme.primary,
      font-size: 72
    }
  }

  Image("") {
    position: absolute,
    corner-radius: 72,
    width: 320,
    height: 320,
    x: 48,
    y: 48
  }
}"#;

fn as_color(argb: Argb) -> Color {
    Color::from_rgba(argb.red, argb.green, argb.blue, argb.alpha)
}

fn dark_theme(source: u32) -> Vec<ThemeColor> {
    ThemeBuilder::with_source(Argb::from_u32(source))
        .build()
        .schemes
        .dark
        .into_iter()
        .map(|(name, color)| ThemeColor::new(&name, as_color(color)))
        .collect()
}

fn children(node: &Node) -> &Vec<Node> {
    match &node.element {
        Element::Container(container) => &container.children,
        other => panic!("no container: {other:?}"),
    }
}

#[test]
fn test_parser() {
    let mut parser = Parser::new(Lexer::parse(DATA));
    let theme = dark_theme(0xFFFF0000);
    let dark = ThemeBuilder::with_source(Argb::from_u32(0xFFFF0000)).build().schemes.dark;

    let node = parse_node::<NoData>(&mut parser, &theme, None);

    println!("{:#?}", node);

    let node = node.unwrap();
    assert!(parser.is_done());
    let style = node.get_style();
    assert_eq!(style.padding, Thickness::all(8));
    assert_eq!(style.background, Some(as_color(dark.surface_container)));
    assert!(matches!(style.width, Some(Length::Percent(50))));
    assert!(matches!(node.element, Element::Container(ref flow) if flow.spacing == 8));
    let nodes = children(&node);
    assert_eq!(nodes.len(), 5);
    assert_eq!(nodes[0].get_style().background, Some(as_color(dark.primary_container)));
    assert_eq!(nodes[0].get_style().corner_radius, Thickness::all(50));
    assert_eq!(children(&nodes[0]).len(), 1);
    assert_eq!(
        children(&nodes[0])[0].get_style().background,
        Some(as_color(dark.tertiary_container))
    );
    // The paths lead nowhere: they read as no text.
    assert!(matches!(nodes[2].element, Element::Text(ref text) if text.data == "АЛО  ВАШИХ"));
    assert_eq!(nodes[2].get_style().color, Some(as_color(dark.on_primary_container)));
    assert_eq!(nodes[2].get_style().font_family.family, "Source Code Pro");
    assert_eq!(nodes[2].get_style().font_size.size, 32);
    assert_eq!(nodes[2].get_style().font_weight, FontWeight::Bold);
    assert!(matches!(nodes[4].element, Element::Image(ref image)
        if image.name == "/home/aiving/Pictures/e4c2e8651098c6989b2e47b1b910e788.png"));
    assert_eq!(nodes[4].get_style().position, Position::Absolute);
    assert_eq!((nodes[4].get_style().x, nodes[4].get_style().y), (Some(100), Some(50)));
}

#[test]
fn test_result() {
    let mut parser = Parser::new(Lexer::parse(DATA));
    let theme = dark_theme(0xFFFF0000);
    let node = parse_node::<NoData>(&mut parser, &theme, None).expect("failed to parse node");

    assert!(node.is_measurable());
    let tree = node.measure(&Context::new(1000, 1000), &Rect::from_xywh(0, 0, 1000, 1000));

    // Half of the surface wide, and as high as the flow and the padding.
    assert_eq!(tree.outer.origin.x, 0);
    assert_eq!(tree.outer.size.width, 500);
    assert_eq!(tree.inner, Rect::from_xywh(8, 8, 484, 200 + 8 + 200 + 8 + 32 + 8 + 32));
    assert_eq!(tree.children.len(), 5);
    assert_eq!(tree.children[0].outer, Rect::from_xywh(8, 8, 484, 200));
    assert_eq!(tree.children[0].children[0].outer, Rect::from_xywh(8, 8, 242, 100));
    assert_eq!(tree.children[1].outer, Rect::from_xywh(8, 216, 200, 200));
    // Ten characters of 16 pixels, and one pixel more.
    assert_eq!(tree.children[2].outer, Rect::from_xywh(8, 424, 161, 32));
    assert_eq!(tree.children[3].outer, Rect::from_xywh(8, 464, 161, 32));
    assert_eq!(tree.children[4].outer, Rect::from_xywh(100, 50, 200, 200));
}

#[test]
fn test_a() {
    let mut parser = Parser::new(Lexer::parse(CARD));
    let theme = dark_theme(0xFF00FF00);
    let root = parse_node::<NoData>(&mut parser, &theme, None).unwrap();

    assert!(root.is_measurable());
    let tree = root.measure(&Context::new(1920, 1080), &Rect::from_xywh(0, 0, 1920, 1080));

    assert_eq!(tree.outer, Rect::from_xywh(0, 0, 1920, 1080));
    assert_eq!(tree.inner, Rect::from_xywh(96, 96, 1728, 984));
    assert_eq!(tree.children.len(), 3);
    // The image stands at its own place, out of the flow.
    assert_eq!(tree.children[2].outer, Rect::from_xywh(48, 48, 320, 320));
    // The second column takes all of what the row before it left.
    assert_eq!(tree.children[1].outer.origin.x, 96);
    assert_eq!(tree.children[1].outer.size.width, 1728);
    assert_eq!(
        tree.children[1].outer.origin.y,
        tree.children[0].outer.origin.y + tree.children[0].outer.size.height + 48
    );
    assert_eq!(tree.children[0].children.len(), 2);
    assert_eq!(tree.children[1].children.len(), 2);
}

#[test]
fn test_measure() {
    let root = Node::column()
        .padding(Thickness::all(8))
        .background(Color::from_rgba(255, 0, 0, 255))
        .spacing(8)
        .width_p(50)
        .child(
            Node::row()
                .height(Length::Px(200))
                .width_p(100)
                .background(Color::from_rgba(0, 255, 0, 255))
                .corner_radius(Thickness::all(50))
                .child(
                    Node::row()
                        .height_p(50)
                        .width_p(50)
                        .background(Color::from_rgba(0, 0, 255, 255))
                        .corner_radius(Thickness::all(50))
                        .build(),
                )
                .build(),
        )
        .child(
            Node::image("sussy", Vec::new(), 640, 480)
                .size(Length::Px(200))
                .position(Position::Absolute)
                .x(100)
                .y(50)
                .background(Color::from_rgba(0, 255, 0, 255))
                .corner_radius(Thickness::all(50))
                .build(),
        )
        .child(
            Node::row()
                .size(Length::Px(200))
                .background(Color::from_rgba(0, 255, 0, 255))
                .corner_radius(Thickness::all(50))
                .build(),
        )
        .child(
            Node::text("АЛО ДЕБИЛЫ ВАШИХ")
                .background(Color::from_rgba(0, 255, 0, 255))
                .color(Color::from_rgba(0, 0, 255, 255))
                .font_family("Source Code Pro")
                .font_size(32)
                .font_weight(FontWeight::Bold)
                .build(),
        )
        .child(
            Node::text("АЛО ДЕБИЛЫ Я ВАШИХ МАТЕРЕЙ")
                .background(Color::from_rgba(0, 255, 0, 255))
                .color(Color::from_rgba(0, 0, 255, 255))
                .font_family("Source Code Pro")
                .font_size(32)
                .font_weight(FontWeight::Bold)
                .build(),
        )
        .build();

    let tree = root.measure(&Context::new(1000, 1000), &Rect::from_xywh(0, 0, 1000, 1000));

    assert_eq!(tree.outer.size.width, 500);
    assert_eq!(tree.children[0].outer, Rect::from_xywh(8, 8, 484, 200));
    assert_eq!(tree.children[0].children[0].outer, Rect::from_xywh(8, 8, 242, 100));
    assert_eq!(tree.children[1].outer, Rect::from_xywh(100, 50, 200, 200));
    assert_eq!(tree.children[2].outer, Rect::from_xywh(8, 216, 200, 200));
    // Sixteen characters of 16 pixels, and one pixel more.
    assert_eq!(tree.children[3].outer, Rect::from_xywh(8, 424, 257, 32));
    // Twenty-six characters: 416 pixels on one line.
    assert_eq!(tree.children[4].outer, Rect::from_xywh(8, 464, 417, 32));
    assert_eq!(tree.inner.size, Size::new(484, 200 + 8 + 200 + 8 + 32 + 8 + 32));
}

#[test]
fn test_graphics() {
    let cell = |row: usize, column: usize| {
        Node::column()
            .height_p(100)
            .width_p(100)
            .row(row)
            .column(column)
            .padding(Thickness::all(8))
            .corner_radius(Thickness::all(24))
            .child(Node::text("Hello World").font_family("JetBrainsMono Nerd Font Mono").build())
            .build()
    };

    let node = Node::grid()
        .padding(Thickness::all(8))
        .height_p(100)
        .width_p(100)
        .columns(vec![GridLength::Weight(1), GridLength::Weight(1), GridLength::Weight(3)])
        .rows(vec![GridLength::Weight(1), GridLength::Weight(1)])
        .spacing(8)
        .child(cell(0, 0))
        .child(cell(0, 1))
        .child(cell(0, 2))
        .child(cell(1, 2))
        .build();

    assert!(node.is_measurable());
    let tree = node.measure(&Context::new(600, 100), &Rect::from_xywh(0, 0, 600, 100));

    assert_eq!(tree.outer, Rect::from_xywh(0, 0, 600, 100));
    assert_eq!(tree.inner, Rect::from_xywh(8, 8, 584, 84));
    // 584 pixels in five parts and 84 in two: the gaps take nothing from them.
    assert_eq!(tree.children[0].outer, Rect::from_xywh(8, 8, 116, 42));
    assert_eq!(tree.children[1].outer, Rect::from_xywh(132, 8, 116, 42));
    assert_eq!(tree.children[2].outer, Rect::from_xywh(256, 8, 350, 42));
    assert_eq!(tree.children[3].outer, Rect::from_xywh(256, 58, 350, 42));
    assert_eq!(tree.children[0].inner, Rect::from_xywh(16, 16, 100, 26));
    assert_eq!(tree.children[0].children[0].outer, Rect::from_xywh(16, 16, 67, 12));
}
