use muzui::elements::{Element, GridLength, Orientation};
use muzui::geometry::{Point, Rect, Size};
use muzui::lang::value::Value;
use muzui::node::{Node, NodeBuilder};
use muzui::styling::{
    Color, FontSlant, FontWeight, Length, Operation, Position, Thickness,
};

#[test]
fn builders_start_from_the_default_style() {
    let node = Node::column().build();
    let style = node.get_style();
    assert_eq!(style.row_span, 1);
    assert_eq!(style.column_span, 1);
    assert_eq!(style.font_family.family, "Arial");
    assert_eq!(style.font_size.size, 12);
    assert!(style.width.is_none() && style.height.is_none());
    assert_eq!(style.position, Position::Relative);
    assert!(matches!(node.element, Element::Container(ref flow)
        if flow.orientation == Orientation::Vertical && flow.spacing == 0 && flow.children.is_empty()));
    assert!(matches!(Node::row().build().element, Element::Container(ref flow)
        if flow.orientation == Orientation::Horizontal));
    assert!(matches!(Node::masonry(175).build().element, Element::Masonry(ref masonry)
        if masonry.item_width == 175 && masonry.spacing == 0));
    assert!(matches!(Node::grid().build().element, Element::Grid(ref grid)
        if grid.rows.is_empty() && grid.columns.is_empty()));
    assert!(matches!(Node::text("Hello").build().element, Element::Text(ref text) if text.data == "Hello"));
    assert!(matches!(Node::image("a.png", vec![1], 2, 3).build().element, Element::Image(ref image)
        if image.name == "a.png" && image.data == vec![1] && image.width == 2 && image.height == 3));
}

#[test]
fn builder_sets_each_property() {
    let node = Node::row()
        .margin(Thickness::all(1))
        .padding(Thickness::all(2))
        .corner_radius(Thickness::all(3))
        .row(4)
        .row_span(5)
        .column(6)
        .column_span(7)
        .background(Color::from_rgb(8, 8, 8))
        .color(Color::from_rgb(9, 9, 9))
        .font_family("Mono")
        .font_size(10)
        .font_weight(FontWeight::Bold)
        .font_slant(FontSlant::Italic)
        .width(Length::Px(11))
        .height(Length::Percent(12))
        .position(Position::Absolute)
        .x(13)
        .y(14)
        .spacing(15)
        .build();
    let style = node.get_style();
    assert_eq!(style.margin, Thickness::all(1));
    assert_eq!(style.padding, Thickness::all(2));
    assert_eq!(style.corner_radius, Thickness::all(3));
    assert_eq!((style.row, style.row_span, style.column, style.column_span), (4, 5, 6, 7));
    assert_eq!(style.background, Some(Color::from_rgb(8, 8, 8)));
    assert_eq!(style.color, Some(Color::from_rgb(9, 9, 9)));
    assert_eq!(style.font_family.family, "Mono");
    assert_eq!(style.font_size.size, 10);
    assert_eq!(style.font_weight, FontWeight::Bold);
    assert_eq!(style.font_slant, FontSlant::Italic);
    assert!(matches!(style.width, Some(Length::Px(11))));
    assert!(matches!(style.height, Some(Length::Percent(12))));
    assert_eq!(style.position, Position::Absolute);
    assert_eq!((style.x, style.y), (Some(13), Some(14)));
    assert!(matches!(node.element, Element::Container(ref flow) if flow.spacing == 15));
}

#[test]
fn sizes_in_one_call() {
    let node = Node::row().size(Length::Px(5)).build();
    assert!(matches!(node.get_style().width, Some(Length::Px(5))));
    assert!(matches!(node.get_style().height, Some(Length::Px(5))));
    let node = Node::row().size_p(50).build();
    assert!(matches!(node.get_style().width, Some(Length::Percent(50))));
    assert!(matches!(node.get_style().height, Some(Length::Percent(50))));
    let node = Node::row().width_p(10).height_p(20).build();
    assert!(matches!(node.get_style().width, Some(Length::Percent(10))));
    assert!(matches!(node.get_style().height, Some(Length::Percent(20))));
    let node = Node::row()
        .dynamic_height(vec![Operation::Mul(Length::ParentWidth, Length::Px(2))])
        .build();
    assert!(matches!(node.get_style().height, Some(Length::Dynamic(ref operations)) if operations.len() == 1));
}

#[test]
fn children_go_to_containers_only() {
    let column = Node::column()
        .child(Node::text("a").build())
        .children(vec![Node::text("b").build(), Node::text("c").build()])
        .child(Node::text("d").build())
        .build();
    match &column.element {
        Element::Container(flow) => {
            let texts: Vec<&str> = flow
                .children
                .iter()
                .map(|node| match &node.element {
                    Element::Text(text) => text.data.as_str(),
                    _ => "",
                })
                .collect();
            assert_eq!(texts, vec!["a", "b", "c", "d"]);
        }
        other => panic!("no container: {other:?}"),
    }
    assert!(matches!(
        Node::masonry(1).child(Node::row().build()).build().element,
        Element::Masonry(ref masonry) if masonry.children.len() == 1
    ));
    assert!(matches!(
        Node::grid().children(vec![Node::row().build(), Node::row().build()]).build().element,
        Element::Grid(ref grid) if grid.children.len() == 2
    ));
    let text = Node::text("a").child(Node::row().build()).spacing(3).build();
    assert!(matches!(text.element, Element::Text(ref text) if text.data == "a"));
}

#[test]
fn grid_tracks() {
    let grid = Node::grid()
        .rows(vec![GridLength::Auto, GridLength::Px(5)])
        .rows(vec![GridLength::Weight(2)])
        .columns(vec![GridLength::Weight(1)])
        .build();
    match &grid.element {
        Element::Grid(grid) => {
            let rows: Vec<GridLength> = grid.rows.iter().map(|row| row.height).collect();
            assert_eq!(rows, vec![GridLength::Auto, GridLength::Px(5), GridLength::Weight(2)]);
            assert_eq!(grid.columns.len(), 1);
            assert_eq!(grid.columns[0].width, GridLength::Weight(1));
        }
        other => panic!("no grid: {other:?}"),
    }
    // Tracks are for grids alone.
    assert!(matches!(
        Node::column().rows(vec![GridLength::Auto]).build().element,
        Element::Container(_)
    ));
}

#[test]
fn a_node_goes_on_as_a_builder() {
    let node = Node::row().x(1).build();
    let again: NodeBuilder = node.into_builder();
    let node = again.y(2).build();
    assert_eq!((node.get_style().x, node.get_style().y), (Some(1), Some(2)));
}

#[test]
fn conversions() {
    assert_eq!(Color::from(0x80FF_4020), Color::from_rgba(0xFF, 0x40, 0x20, 0x80));
    assert_eq!(Thickness::from(4), Thickness::all(4));
    assert_eq!(Rect::from(Thickness::custom(1, 2, 3, 4)), Rect::from_xywh(1, 2, 3, 4));
    assert_eq!(Size::from(Point::new(1, 2)), Size::new(1, 2));
    assert_eq!(Point::from(Size::new(1, 2)), Point::new(1, 2));
    assert_eq!(GridLength::from(Length::Px(3)), GridLength::Px(3));
    assert_eq!(GridLength::from(Length::Auto), GridLength::Auto);
    assert!(matches!(Value::from(-1i8), Value::I8(-1)));
    assert!(matches!(Value::from(1u8), Value::U8(1)));
    assert!(matches!(Value::from(-1i16), Value::I16(-1)));
    assert!(matches!(Value::from(1u16), Value::U16(1)));
    assert!(matches!(Value::from(-1i32), Value::I32(-1)));
    assert!(matches!(Value::from(1u32), Value::U32(1)));
    assert!(matches!(Value::from(-1i64), Value::I64(-1)));
    assert!(matches!(Value::from(1u64), Value::U64(1)));
    assert!(matches!(Value::from(true), Value::Boolean(true)));
    assert!(matches!(Value::from("text".to_string()), Value::String(text) if text == "text"));
}
