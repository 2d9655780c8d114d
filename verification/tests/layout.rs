use muzui::elements::{GridLength, Orientation};
use muzui::geometry::{px_add, px_div, px_mul, px_scale, px_sub, Point, Rect, Size};
use muzui::graphics::Context;
use muzui::layout::{eval_length, MeasureNode, TextMetrics};
use muzui::node::{Node, NodeType};
use muzui::styling::{
    dynamic, parent_height, parent_width, percent, px, Length, Operation, Position, Style,
    Thickness,
};

fn context() -> Context {
    Context::new(400, 300)
}

fn bounds() -> Rect {
    Rect::from_xywh(0, 0, 400, 300)
}

fn boxed(width: i64, height: i64) -> Node {
    Node::row().width(px(width)).height(px(height)).build()
}

#[test]
fn saturating_pixels() {
    assert_eq!(px_add(1, 2), 3);
    assert_eq!(px_add(i64::MAX, 1), i64::MAX);
    assert_eq!(px_add(i64::MIN, -1), i64::MIN);
    assert_eq!(px_sub(5, 7), -2);
    assert_eq!(px_sub(i64::MIN, 1), i64::MIN);
    assert_eq!(px_sub(i64::MAX, -1), i64::MAX);
    assert_eq!(px_mul(6, 7), 42);
    assert_eq!(px_mul(i64::MAX, 2), i64::MAX);
    assert_eq!(px_mul(i64::MAX, -2), i64::MIN);
    assert_eq!(px_mul(i64::MIN, i64::MIN), i64::MAX);
    assert_eq!(px_div(7, 2), 3);
    assert_eq!(px_div(-7, 2), -4);
    assert_eq!(px_div(7, -2), -4);
    assert_eq!(px_div(-7, -2), 3);
    assert_eq!(px_div(5, 0), i64::MAX);
    assert_eq!(px_div(-5, 0), i64::MIN);
    assert_eq!(px_div(0, 0), 0);
    assert_eq!(px_div(i64::MIN, -1), i64::MAX);
    assert_eq!(px_scale(400, 50, 100), 200);
    assert_eq!(px_scale(i64::MAX, 100, 100), i64::MAX);
    assert_eq!(px_scale(i64::MAX, 200, 100), i64::MAX);
    assert_eq!(px_scale(-1, 1, 100), -1);
}

#[test]
fn percent_of_available_space() {
    let available = Size::new(400, 300);
    assert_eq!(eval_length(&percent(50), 400, available), 200);
    assert_eq!(eval_length(&percent(33), 100, available), 33);
    assert_eq!(eval_length(&percent(1), 150, available), 1);
    assert_eq!(eval_length(&percent(100), 399, available), 399);
    assert_eq!(eval_length(&percent(-50), 101, available), -51);
    assert_eq!(eval_length(&percent(200), i64::MAX, available), i64::MAX);
}

#[test]
fn pixels_are_themselves() {
    let available = Size::new(400, 300);
    assert_eq!(eval_length(&px(50), 400, available), 50);
    assert_eq!(eval_length(&px(-3), 0, available), -3);
    assert_eq!(eval_length(&muzui::styling::auto(), 400, available), 0);
    assert_eq!(eval_length(&parent_width(), 7, available), 400);
    assert_eq!(eval_length(&parent_height(), 7, available), 300);
}

#[test]
fn arithmetic_lengths() {
    let available = Size::new(400, 300);
    assert_eq!(eval_length(&dynamic(vec![]), 400, available), 0);
    assert_eq!(
        eval_length(&dynamic(vec![Operation::Add(px(1), px(2))]), 400, available),
        3
    );
    assert_eq!(
        eval_length(&dynamic(vec![Operation::Sub(parent_width(), px(100))]), 0, available),
        300
    );
    assert_eq!(
        eval_length(&dynamic(vec![Operation::Mul(parent_height(), px(2))]), 0, available),
        600
    );
    assert_eq!(
        eval_length(&dynamic(vec![Operation::Div(parent_width(), px(3))]), 0, available),
        133
    );
    assert_eq!(
        eval_length(&dynamic(vec![Operation::Div(px(1), px(0))]), 0, available),
        i64::MAX
    );
    // The last operation gives the value.
    assert_eq!(
        eval_length(
            &dynamic(vec![Operation::Add(px(1), px(2)), Operation::Mul(px(4), px(5))]),
            0,
            available
        ),
        20
    );
    // Three quarters of the width, as a picture's aspect asks.
    let aspect = dynamic(vec![Operation::Div(
        dynamic(vec![Operation::Mul(parent_width(), px(3))]),
        px(4),
    )]);
    assert_eq!(eval_length(&aspect, 0, available), 300);
    assert!(muzui::styling::auto().is_auto());
    assert!(dynamic(vec![Operation::Add(px(1), muzui::styling::auto())]).is_auto());
    assert!(!dynamic(vec![Operation::Add(px(1), px(2))]).is_auto());
    assert!(!px(0).is_auto());
}

#[test]
fn measure_node_boxes() {
    let style = Style::builder()
        .margin(Thickness::custom(1, 2, 3, 4))
        .padding(Thickness::custom(10, 20, 30, 40))
        .build();
    let plain = MeasureNode::new(&style, &Rect::from_xywh(100, 200, 400, 300), Size::new(50, 60));
    assert_eq!(plain.outer, Rect::from_xywh(101, 202, 50, 60));
    assert_eq!(plain.inner, Rect::from_xywh(111, 222, 10, 0));
    assert!(plain.children.is_empty());
    let hosted = MeasureNode::from_parent(&style, &Rect::from_xywh(100, 200, 400, 300));
    assert_eq!(hosted.outer, Rect::from_xywh(101, 202, 397, 296));
    assert_eq!(hosted.inner, Rect::from_xywh(111, 222, 357, 236));
    let absolute = Style::builder()
        .position(Position::Absolute)
        .x(7)
        .margin(Thickness::all(1))
        .width(percent(50))
        .build();
    let placed =
        MeasureNode::new(&absolute, &Rect::from_xywh(100, 200, 400, 300), Size::new(50, 60));
    assert_eq!(placed.outer, Rect::from_xywh(8, 1, 200, 60));
    let mut moved = plain;
    moved.set_x(&style, 0);
    moved.set_y(&style, 0);
    assert_eq!(moved.outer.origin, Point::new(1, 2));
    assert_eq!(moved.inner.origin, Point::new(11, 22));
    moved.set_width(&style, 100);
    moved.set_height(&style, 200);
    assert_eq!(moved.inner.size, Size::new(100, 200));
    assert_eq!(moved.outer.size, Size::new(140, 260));
    assert_eq!(moved.offset(Point::new(5, 6)), Rect::from_xywh(16, 28, 95, 194));
}

#[test]
fn column_height_is_sum_of_children_and_spacing() {
    let column = Node::column()
        .spacing(8)
        .child(boxed(30, 10))
        .child(boxed(50, 20))
        .child(boxed(40, 30))
        .build();
    let tree = column.measure(&context(), &bounds());
    assert_eq!(tree.inner.size.height, 10 + 20 + 30 + 8 * 2);
    assert_eq!(tree.inner.size.width, 50);
    assert_eq!(tree.outer.size, Size::new(50, 76));
    assert_eq!(tree.children.len(), 3);
    assert_eq!(tree.children[0].outer, Rect::from_xywh(0, 0, 30, 10));
    assert_eq!(tree.children[1].outer, Rect::from_xywh(0, 18, 50, 20));
    assert_eq!(tree.children[2].outer, Rect::from_xywh(0, 46, 40, 30));
}

#[test]
fn row_width_is_sum_of_children_and_spacing() {
    let row = Node::row()
        .spacing(5)
        .padding(Thickness::all(2))
        .child(boxed(30, 10))
        .child(boxed(50, 20))
        .build();
    let tree = row.measure(&context(), &bounds());
    assert_eq!(tree.inner.size, Size::new(85, 20));
    assert_eq!(tree.outer.size, Size::new(89, 24));
    assert_eq!(tree.children[0].outer, Rect::from_xywh(2, 2, 30, 10));
    assert_eq!(tree.children[1].outer, Rect::from_xywh(37, 2, 50, 20));
}

#[test]
fn negative_spacing_and_extents_add_up_too() {
    let column = Node::column()
        .spacing(-3)
        .child(boxed(30, 10))
        .child(boxed(50, -4))
        .child(boxed(40, 20))
        .build();
    let tree = column.measure(&context(), &bounds());
    assert_eq!(tree.inner.size.height, 10 - 4 + 20 - 3 * 2);
    assert_eq!(tree.inner.size.width, 50);
    assert_eq!(tree.children[1].outer, Rect::from_xywh(0, 7, 50, -4));
    assert_eq!(tree.children[2].outer, Rect::from_xywh(0, 0, 40, 20));
    // Where every child is narrower than nothing, the flow has no width.
    let narrow = Node::column().child(boxed(-5, 10)).child(boxed(-7, 10)).build();
    assert_eq!(narrow.measure(&context(), &bounds()).inner.size, Size::new(0, 20));
}

#[test]
fn a_flow_beyond_the_pixel_range_stops_at_its_end() {
    let column = Node::column()
        .spacing(8)
        .child(boxed(1, i64::MAX))
        .child(boxed(1, i64::MAX))
        .build();
    let tree = column.measure(&context(), &bounds());
    assert_eq!(tree.inner.size.height, i64::MAX);
}

#[test]
fn single_child_takes_no_spacing() {
    let column = Node::column().spacing(8).child(boxed(30, 10)).build();
    let tree = column.measure(&context(), &bounds());
    assert_eq!(tree.inner.size, Size::new(30, 10));
    let empty = Node::column().spacing(8).build();
    assert_eq!(empty.measure(&context(), &bounds()).inner.size, Size::new(0, 0));
}

#[test]
fn absolute_children_stay_out_of_the_flow() {
    let floating = Node::row()
        .width(px(500))
        .height(percent(50))
        .position(Position::Absolute)
        .x(100)
        .y(50)
        .margin(Thickness::all(3))
        .build();
    let column = Node::column()
        .spacing(8)
        .padding(Thickness::all(10))
        .width(px(200))
        .child(floating)
        .child(boxed(30, 10))
        .child(boxed(50, 20))
        .build();
    let tree = column.measure(&context(), &bounds());
    assert_eq!(tree.inner.size.height, 10 + 20 + 8);
    assert_eq!(tree.outer.size, Size::new(200, 58));
    // Against the container's inner box, at its own place.
    assert_eq!(tree.children[0].outer, Rect::from_xywh(103, 53, 500, 140));
    assert_eq!(tree.children[1].outer, Rect::from_xywh(10, 10, 30, 10));
    assert_eq!(tree.children[2].outer, Rect::from_xywh(10, 28, 50, 20));
}

#[test]
fn explicit_size_wins_over_content() {
    let column = Node::column()
        .width(px(20))
        .height(px(5))
        .child(boxed(30, 10))
        .build();
    let tree = column.measure(&context(), &bounds());
    assert_eq!(tree.outer.size, Size::new(20, 5));
    assert_eq!(tree.children[0].outer.size, Size::new(30, 10));
}

#[test]
fn an_auto_length_leaves_the_size_to_the_content() {
    let column = Node::column()
        .width(muzui::styling::auto())
        .height(muzui::styling::auto())
        .child(boxed(30, 10))
        .build();
    let tree = column.measure(&context(), &bounds());
    assert_eq!(tree.outer.size, Size::new(30, 10));
}

#[test]
fn percentages_follow_the_offered_space() {
    let column = Node::column()
        .size_p(100)
        .child(Node::row().width(percent(50)).height(percent(10)).build())
        .child(Node::row().width(percent(50)).height(percent(10)).build())
        .build();
    let tree = column.measure(&context(), &bounds());
    assert_eq!(tree.outer.size, Size::new(400, 300));
    assert_eq!(tree.children[0].outer, Rect::from_xywh(0, 0, 200, 30));
    // What the first child leaves: 270 high.
    assert_eq!(tree.children[1].outer, Rect::from_xywh(0, 30, 200, 27));
}

#[test]
fn masonry_of_one_column_fills_the_width() {
    let masonry = Node::masonry(300)
        .size_p(100)
        .spacing(8)
        .child(Node::column().height(px(25)).build())
        .child(Node::column().height(px(35)).build())
        .build();
    let tree = masonry.measure(&context(), &bounds());
    assert_eq!(tree.children[0].outer, Rect::from_xywh(0, 0, 400, 25));
    assert_eq!(tree.children[1].outer, Rect::from_xywh(0, 33, 400, 35));
    assert_eq!(masonry.measure(&context(), &Rect::from_xywh(0, 0, 650, 300)).children[1].outer,
        Rect::from_xywh(329, 0, 321, 35));
    // Too narrow for even one column: one column all the same.
    let narrow = Node::masonry(1000)
        .size_p(100)
        .child(Node::column().height(px(25)).build())
        .build();
    assert_eq!(narrow.measure(&context(), &bounds()).children[0].outer.size.width, 400);
    let no_pitch = Node::masonry(0)
        .size_p(100)
        .child(Node::column().height(px(25)).build())
        .build();
    assert_eq!(no_pitch.measure(&context(), &bounds()).children[0].outer.size.width, 400);
}

#[test]
fn test_masonry() {
    let heights = [200, 100, 150, 175, 75];
    let root = Node::masonry(100)
        .padding(Thickness::all(8))
        .spacing(8)
        .width_p(100)
        .height_p(100)
        .children(
            (0..25)
                .map(|index| {
                    Node::column()
                        .height(px(heights[index % 5]))
                        .width_p(100)
                        .corner_radius(Thickness::all(12))
                        .padding(Thickness::all(4))
                        .children(vec![Node::column().size_p(100).corner_radius(Thickness::all(12)).build()])
                        .build()
                })
                .collect(),
        )
        .build();
    let tree = root.measure(&Context::new(1000, 1000), &Rect::from_xywh(0, 0, 1000, 1000));
    // 984 wide inside; 9 columns of (984 - 8 * 8) / 9 = 102.
    assert_eq!(tree.inner, Rect::from_xywh(8, 8, 984, 984));
    assert_eq!(tree.children.len(), 25);
    // An item is as high as its content measures, and its padding round it.
    assert_eq!(tree.children[0].outer, Rect::from_xywh(8, 8, 102, 208));
    assert_eq!(tree.children[0].inner, Rect::from_xywh(12, 12, 94, 200));
    assert_eq!(tree.children[1].outer, Rect::from_xywh(118, 8, 102, 108));
    assert_eq!(tree.children[8].outer, Rect::from_xywh(888, 8, 102, 183));
    // Each column stacks by itself.
    assert_eq!(tree.children[9].outer, Rect::from_xywh(8, 224, 102, 83));
    assert_eq!(tree.children[10].outer, Rect::from_xywh(118, 124, 102, 208));
    assert_eq!(tree.children[18].outer, Rect::from_xywh(8, 315, 102, 183));
    assert_eq!(tree.children[0].children.len(), 1);
    assert_eq!(tree.children[0].children[0].outer, Rect::from_xywh(16, 16, 86, 192));
}

fn cell(row: usize, column: usize) -> Node {
    Node::column().size_p(100).row(row).column(column).build()
}

#[test]
fn weighted_tracks_share_in_proportion() {
    let grid = Node::grid()
        .size_p(100)
        .columns(vec![GridLength::Weight(1), GridLength::Weight(1), GridLength::Weight(3)])
        .rows(vec![GridLength::Weight(1), GridLength::Weight(2)])
        .child(cell(0, 0))
        .child(cell(0, 1))
        .child(cell(0, 2))
        .child(cell(1, 2))
        .build();
    let tree = grid.measure(&Context::new(500, 300), &Rect::from_xywh(0, 0, 500, 300));
    assert_eq!(tree.children[0].outer, Rect::from_xywh(0, 0, 100, 100));
    assert_eq!(tree.children[1].outer, Rect::from_xywh(100, 0, 100, 100));
    assert_eq!(tree.children[2].outer, Rect::from_xywh(200, 0, 300, 100));
    assert_eq!(tree.children[3].outer, Rect::from_xywh(200, 100, 300, 200));
}

#[test]
fn grid_with_spacing_padding_and_spans() {
    let grid = Node::grid()
        .padding(Thickness::all(8))
        .size_p(100)
        .spacing(8)
        .columns(vec![GridLength::Weight(1), GridLength::Weight(1), GridLength::Weight(3)])
        .rows(vec![GridLength::Weight(1), GridLength::Weight(1)])
        .child(cell(0, 0))
        .child(cell(1, 2))
        .child(Node::column().size_p(100).row(0).column(1).column_span(2).row_span(2).build())
        .build();
    let tree = grid.measure(&Context::new(600, 100), &Rect::from_xywh(0, 0, 600, 100));
    // 584 by 84 inside, shared out whole: the gaps take nothing from it.
    assert_eq!(tree.inner, Rect::from_xywh(8, 8, 584, 84));
    assert_eq!(tree.children[0].outer, Rect::from_xywh(8, 8, 116, 42));
    assert_eq!(tree.children[1].outer, Rect::from_xywh(8 + 116 + 8 + 116 + 8, 8 + 42 + 8, 350, 42));
    assert_eq!(tree.children[2].outer, Rect::from_xywh(8 + 116 + 8, 8, 116 + 350, 84));
}

#[test]
fn a_gap_takes_nothing_from_the_weighted_share() {
    let grid = Node::grid()
        .width(px(100))
        .height(px(30))
        .spacing(10)
        .columns(vec![GridLength::Weight(1), GridLength::Weight(1)])
        .rows(vec![GridLength::Weight(1), GridLength::Weight(2)])
        .child(cell(0, 0))
        .child(cell(0, 1))
        .child(cell(1, 1))
        .build();
    let tree = grid.measure(&context(), &bounds());
    assert_eq!(tree.children[0].outer, Rect::from_xywh(0, 0, 50, 10));
    // One gap for the boundary before it.
    assert_eq!(tree.children[1].outer, Rect::from_xywh(60, 0, 50, 10));
    assert_eq!(tree.children[2].outer, Rect::from_xywh(60, 20, 50, 20));
}

#[test]
fn fixed_and_auto_tracks() {
    let grid = Node::grid()
        .width(px(300))
        .height(px(100))
        .columns(vec![GridLength::Px(50), GridLength::Auto, GridLength::Weight(1)])
        .rows(vec![GridLength::Auto])
        .child(Node::row().width(px(70)).height(px(20)).row(0).column(1).build())
        .child(Node::row().width(px(30)).height(px(40)).row(0).column(1).build())
        .child(Node::row().size_p(100).row(0).column(2).build())
        .child(Node::row().size_p(100).row(0).column(0).build())
        .build();
    let tree = grid.measure(&context(), &bounds());
    // The automatic column is 70 wide, which leaves 180 to the weighted one;
    // the automatic row is as high as its highest child that measures in
    // the whole grid: 100.
    assert_eq!(tree.children[0].outer, Rect::from_xywh(50, 0, 70, 20));
    assert_eq!(tree.children[2].outer, Rect::from_xywh(120, 0, 180, 100));
    assert_eq!(tree.children[3].outer, Rect::from_xywh(0, 0, 50, 100));
}

#[test]
fn grid_without_tracks_or_weights() {
    let grid = Node::grid()
        .width(px(300))
        .height(px(100))
        .spacing(10)
        .child(Node::row().size_p(100).row(1).column(2).build())
        .build();
    let tree = grid.measure(&context(), &bounds());
    assert_eq!(tree.children[0].outer, Rect::from_xywh(20, 10, 0, 0));
    let weightless = Node::grid()
        .width(px(300))
        .height(px(100))
        .columns(vec![GridLength::Weight(0), GridLength::Px(40)])
        .child(Node::row().size_p(100).column(1).build())
        .build();
    let tree = weightless.measure(&context(), &bounds());
    assert_eq!(tree.children[0].outer, Rect::from_xywh(0, 0, 40, 0));
}

#[test]
fn grids_ask_for_an_explicit_size() {
    assert!(!Node::grid().build().is_measurable());
    assert!(!Node::grid().width(px(10)).build().is_measurable());
    assert!(!Node::grid().width(px(10)).height(muzui::styling::auto()).build().is_measurable());
    assert!(Node::grid().width(px(10)).height(percent(10)).build().is_measurable());
    assert!(!Node::column().child(Node::grid().build()).build().is_measurable());
    assert!(!Node::masonry(10)
        .child(Node::column().child(Node::grid().build()).build())
        .build()
        .is_measurable());
    assert!(Node::column().child(Node::text("a").build()).build().is_measurable());
}

#[test]
fn images_measure_as_their_picture() {
    let image = Node::image("picture", vec![1, 2, 3], 64, 48).build();
    assert_eq!(image.measure(&context(), &bounds()).outer, Rect::from_xywh(0, 0, 64, 48));
    let sized = Node::image("picture", vec![], 64, 48).width(px(10)).build();
    assert_eq!(sized.measure(&context(), &bounds()).outer.size, Size::new(10, 48));
    assert_eq!(image.get_ty(), NodeType::Image);
    assert_eq!(Node::text("a").build().get_ty(), NodeType::Text);
    assert_eq!(Node::grid().build().get_ty(), NodeType::Container);
}

#[test]
fn text_at_a_fixed_pitch() {
    let metrics = context();
    let style = Style::builder().font_size(20).build();
    assert_eq!(metrics.measure_text(&style, "hello", 400), Size::new(50, 20));
    assert_eq!(metrics.measure_text(&style, "hello", 30), Size::new(30, 40));
    assert_eq!(metrics.measure_text(&style, "hello", 5), Size::new(10, 100));
    assert_eq!(metrics.measure_text(&style, "", 400), Size::new(0, 0));
    assert_eq!(metrics.measure_text(&style, "привет", 400), Size::new(60, 20));
    assert_eq!(metrics.bounds_width(), 400);
    let text = Node::text("hello").font_size(20).build();
    let tree = text.measure(&metrics, &bounds());
    assert_eq!(tree.outer.size, Size::new(51, 20));
    // Without a width from the parent the bounds give it.
    let tree = text.measure(&metrics, &Rect::from_xywh(0, 0, 0, 0));
    assert_eq!(tree.outer.size, Size::new(51, 20));
}

struct Wide;

impl TextMetrics for Wide {
    fn bounds_width(&self) -> i64 {
        1000
    }

    fn measure_text(&self, _: &Style, text: &str, width: i64) -> Size {
        Size::new(width.min(7 * text.len() as i64), 11)
    }
}

#[test]
fn text_through_the_hosts_metrics() {
    let column = Node::column()
        .child(Node::text("abc").build())
        .child(Node::text("abcdef").build())
        .build();
    let tree = column.measure(&Wide, &bounds());
    assert_eq!(tree.children[0].outer, Rect::from_xywh(0, 0, 22, 11));
    assert_eq!(tree.children[1].outer, Rect::from_xywh(0, 11, 43, 11));
    assert_eq!(tree.outer.size, Size::new(43, 22));
    let loose = Node::text("abc").build().measure(&Wide, &Rect::from_xywh(0, 0, 0, 50));
    assert_eq!(loose.outer.size, Size::new(22, 11));
}

#[test]
fn orientation_default() {
    assert_eq!(Orientation::default(), Orientation::Vertical);
    assert_eq!(GridLength::default(), GridLength::Weight(1));
    assert_eq!(GridLength::from_length(Length::Px(5)), GridLength::Px(5));
    assert_eq!(GridLength::from_length(Length::Percent(5)), GridLength::Auto);
}
