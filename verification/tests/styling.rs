use muzui::geometry::{Point, Rect, Size};
use muzui::styling::{
    Color, FontFamily, FontSize, FontSlant, FontWeight, Length, Position, Style, StyleBuilder,
    Thickness,
};

#[test]
fn colours_from_channels() {
    assert_eq!(Color::from_rgb(1, 2, 3), Color { red: 1, green: 2, blue: 3, alpha: 255 });
    assert_eq!(Color::from_rgba(1, 2, 3, 4), Color { red: 1, green: 2, blue: 3, alpha: 4 });
}

#[test]
fn colours_from_numbers() {
    assert_eq!(Color::from_u32(0x80FF_4020), Color::from_rgba(0xFF, 0x40, 0x20, 0x80));
    // Without an alpha byte the colour is opaque.
    assert_eq!(Color::from_u32(0x00FF_FF00), Color::from_rgba(0xFF, 0xFF, 0x00, 0xFF));
    assert_eq!(Color::from_u32(0), Color::from_rgba(0, 0, 0, 255));
    assert_eq!(Color::from_u32(0x0100_0000), Color::from_rgba(0, 0, 0, 1));
    assert_eq!(Color::from_u32(u32::MAX), Color::from_rgba(255, 255, 255, 255));
}

#[test]
fn colours_as_numbers() {
    assert_eq!(Color::from_rgba(0x12, 0x34, 0x56, 0x78).as_u32(), 0x1234_5678);
    assert_eq!(Color::from_rgb(0, 0, 0).as_u32(), 0xFF);
    assert_eq!(Color::from_rgba(255, 255, 255, 255).as_u32(), u32::MAX);
    assert_eq!(Color::from_rgba(255, 0, 0, 0).as_u32(), 0xFF00_0000);
}

#[test]
fn thickness_shapes() {
    assert_eq!(Thickness::all(3), Thickness { left: 3, top: 3, right: 3, bottom: 3 });
    assert_eq!(Thickness::axis(1, 2), Thickness { left: 2, top: 1, right: 2, bottom: 1 });
    assert_eq!(Thickness::custom(1, 2, 3, 4), Thickness { left: 1, top: 2, right: 3, bottom: 4 });
    assert_eq!(Thickness::default(), Thickness::all(0));
    assert_eq!(Thickness::custom(1, 2, 3, 4).to_rect(), Rect::from_xywh(1, 2, 3, 4));
}

#[test]
fn defaults() {
    assert_eq!(FontWeight::default(), FontWeight::Normal);
    assert_eq!(FontSlant::default(), FontSlant::Upright);
    assert_eq!(FontSize::default().size, 12);
    assert_eq!(FontSize::new(32).size, 32);
    assert_eq!(FontFamily::default().family, "Arial");
    assert_eq!(FontFamily::new("Source Code Pro").family, "Source Code Pro");
    assert_eq!(Position::default(), Position::Relative);
    assert!(Position::Absolute.is_absolute());
    assert!(!Position::Absolute.is_relative());
    assert!(Position::Relative.is_relative());
    assert!(!Position::Relative.is_absolute());
}

#[test]
fn style_spans() {
    assert_eq!(Style::new().row_span, 1);
    assert_eq!(Style::new().column_span, 1);
    assert_eq!(Style::builder().build().row_span, 1);
    assert_eq!(Style::default().row_span, 0);
    assert_eq!(StyleBuilder::new().build().column_span, 0);
    assert_eq!(StyleBuilder::default().build().column_span, 0);
}

#[test]
fn style_builder_sets_each_property() {
    let style = Style::builder()
        .margin(Thickness::all(1))
        .padding(Thickness::all(2))
        .corner_radius(Thickness::all(3))
        .row(4)
        .row_span(5)
        .column(6)
        .column_span(7)
        .background(Color::from_rgb(8, 8, 8))
        .color(Color::from_rgb(9, 9, 9))
        .font_family("Mono")
        .font_size(10)
        .font_weight(FontWeight::Light)
        .font_slant(FontSlant::Oblique)
        .width(Length::Px(11))
        .height(Length::Percent(12))
        .position(Position::Absolute)
        .x(13)
        .y(14)
        .build();
    assert_eq!(style.margin, Thickness::all(1));
    assert_eq!(style.padding, Thickness::all(2));
    assert_eq!(style.corner_radius, Thickness::all(3));
    assert_eq!((style.row, style.row_span, style.column, style.column_span), (4, 5, 6, 7));
    assert_eq!(style.background, Some(Color::from_rgb(8, 8, 8)));
    assert_eq!(style.color, Some(Color::from_rgb(9, 9, 9)));
    assert_eq!(style.font_family.family, "Mono");
    assert_eq!(style.font_size.size, 10);
    assert_eq!(style.font_weight, FontWeight::Light);
    assert_eq!(style.font_slant, FontSlant::Oblique);
    assert!(matches!(style.width, Some(Length::Px(11))));
    assert!(matches!(style.height, Some(Length::Percent(12))));
    assert_eq!(style.position, Position::Absolute);
    assert_eq!((style.x, style.y), (Some(13), Some(14)));
    let square = Style::builder().size(Length::Px(5)).build();
    assert!(matches!((square.width, square.height), (Some(Length::Px(5)), Some(Length::Px(5)))));
    let copy = style.clone();
    assert_eq!(copy.font_family.family, "Mono");
    assert!(matches!(copy.width, Some(Length::Px(11))));
}

#[test]
fn plane_types() {
    let rect = Rect::new(Point::new(1, 2), Size::new(3, 4));
    assert_eq!(rect, Rect::from_xywh(1, 2, 3, 4));
    assert_eq!((rect.x(), rect.y(), rect.width(), rect.height()), (1, 2, 3, 4));
}
