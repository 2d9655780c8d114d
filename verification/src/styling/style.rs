//! The style of a node and its builder.

use vstd::prelude::*;
use crate::geometry::Px;
use crate::styling::colors::Color;
use crate::styling::font::{FontFamily, FontSize, FontSlant, FontWeight};
use crate::styling::position::Position;
use crate::styling::thickness::Thickness;
use crate::styling::{Length, LengthView};

verus! {

/// The resolved properties of a node.
#[derive(Debug)]
pub struct Style {
    pub margin: Thickness,
    pub padding: Thickness,
    pub row: usize,
    pub row_span: usize,
    pub column: usize,
    pub column_span: usize,
    pub width: Option<Length>,
    pub height: Option<Length>,
    pub background: Option<Color>,
    pub color: Option<Color>,
    pub font_family: FontFamily,
    pub font_weight: FontWeight,
    pub font_slant: FontSlant,
    pub font_size: FontSize,
    pub corner_radius: Thickness,
    pub position: Position,
    pub x: Option<Px>,
    pub y: Option<Px>,
}

/// The mathematical value of a [`Style`].
pub struct StyleView {
    pub margin: Thickness,
    pub padding: Thickness,
    pub row: usize,
    pub row_span: usize,
    pub column: usize,
    pub column_span: usize,
    pub width: Option<LengthView>,
    pub height: Option<LengthView>,
    pub background: Option<Color>,
    pub color: Option<Color>,
    pub font_family: Seq<char>,
    pub font_weight: FontWeight,
    pub font_slant: FontSlant,
    pub font_size: FontSize,
    pub corner_radius: Thickness,
    pub position: Position,
    pub x: Option<Px>,
    pub y: Option<Px>,
}

/// The value of a length that may be missing.
pub open spec fn optional_length(length: Option<Length>) -> Option<LengthView> {
    match length {
        Some(value) => Some(value@),
        None => None,
    }
}

impl View for Style {
    type V = StyleView;

    open spec fn view(&self) -> StyleView {
        StyleView {
            margin: self.margin,
            padding: self.padding,
            row: self.row,
            row_span: self.row_span,
            column: self.column,
            column_span: self.column_span,
            width: optional_length(self.width),
            height: optional_length(self.height),
            background: self.background,
            color: self.color,
            font_family: self.font_family@,
            font_weight: self.font_weight,
            font_slant: self.font_slant,
            font_size: self.font_size,
            corner_radius: self.corner_radius,
            position: self.position,
            x: self.x,
            y: self.y,
        }
    }
}

/// The style in which every property has its default: no margin, padding
/// or radius, no explicit size or colour, Arial at 12 pixels, in the flow,
/// in the first grid cell, spanning `spans` rows and columns.
pub open spec fn plain_style(spans: usize) -> StyleView {
    StyleView {
        margin: Thickness { left: 0, top: 0, right: 0, bottom: 0 },
        padding: Thickness { left: 0, top: 0, right: 0, bottom: 0 },
        row: 0,
        row_span: spans,
        column: 0,
        column_span: spans,
        width: None,
        height: None,
        background: None,
        color: None,
        font_family: "Arial"@,
        font_weight: FontWeight::Normal,
        font_slant: FontSlant::Upright,
        font_size: FontSize { size: 12 },
        corner_radius: Thickness { left: 0, top: 0, right: 0, bottom: 0 },
        position: Position::Relative,
        x: None,
        y: None,
    }
}

impl Default for Style {
    /// Every property at its default, and spans of zero.
    fn default() -> (r: Self)
        ensures
            r@ == plain_style(0),
    {
        Style {
            margin: Thickness::default(),
            padding: Thickness::default(),
            row: 0,
            row_span: 0,
            column: 0,
            column_span: 0,
            width: None,
            height: None,
            background: None,
            color: None,
            font_family: FontFamily::default(),
            font_weight: FontWeight::default(),
            font_slant: FontSlant::default(),
            font_size: FontSize::default(),
            corner_radius: Thickness::default(),
            position: Position::default(),
            x: None,
            y: None,
        }
    }
}

impl Clone for Style {
    fn clone(&self) -> (r: Self)
        ensures
            r@ == self@,
    {
        Style {
            margin: self.margin,
            padding: self.padding,
            row: self.row,
            row_span: self.row_span,
            column: self.column,
            column_span: self.column_span,
            width: match &self.width {
                Some(value) => Some(value.duplicate()),
                None => None,
            },
            height: match &self.height {
                Some(value) => Some(value.duplicate()),
                None => None,
            },
            background: self.background,
            color: self.color,
            font_family: self.font_family.clone(),
            font_weight: self.font_weight,
            font_slant: self.font_slant,
            font_size: self.font_size,
            corner_radius: self.corner_radius,
            position: self.position,
            x: self.x,
            y: self.y,
        }
    }
}

impl Style {
    /// Every property at its default, spanning one row and one column.
    #[must_use]
    pub fn new() -> (r: Self)
        ensures
            r@ == plain_style(1),
    {
        let mut style = Style::default();
        style.row_span = 1;
        style.column_span = 1;
        style
    }

    #[must_use]
    pub fn builder() -> (r: StyleBuilder)
        ensures
            r@ == plain_style(1),
    {
        StyleBuilder { style: Self::new() }
    }
}

/// Builds a [`Style`] property by property.
pub struct StyleBuilder {
    style: Style,
}

impl View for StyleBuilder {
    type V = StyleView;

    closed spec fn view(&self) -> StyleView {
        self.style@
    }
}

impl Default for StyleBuilder {
    fn default() -> (r: Self)
        ensures
            r@ == plain_style(0),
    {
        StyleBuilder { style: Style::default() }
    }
}

impl StyleBuilder {
    /// A builder over the default style, whose spans are zero.
    #[must_use]
    pub fn new() -> (r: Self)
        ensures
            r@ == plain_style(0),
    {
        StyleBuilder { style: Style::default() }
    }

    #[must_use]
    pub fn margin(self, value: Thickness) -> (r: Self)
        ensures
            r@ == (StyleView { margin: value, ..self@ }),
    {
        let mut style = self.style;
        style.margin = value;
        StyleBuilder { style }
    }

    #[must_use]
    pub fn padding(self, value: Thickness) -> (r: Self)
        ensures
            r@ == (StyleView { padding: value, ..self@ }),
    {
        let mut style = self.style;
        style.padding = value;
        StyleBuilder { style }
    }

    #[must_use]
    pub fn corner_radius(self, value: Thickness) -> (r: Self)
        ensures
            r@ == (StyleView { corner_radius: value, ..self@ }),
    {
        let mut style = self.style;
        style.corner_radius = value;
        StyleBuilder { style }
    }

    #[must_use]
    pub fn row(self, value: usize) -> (r: Self)
        ensures
            r@ == (StyleView { row: value, ..self@ }),
    {
        let mut style = self.style;
        style.row = value;
        StyleBuilder { style }
    }

    #[must_use]
    pub fn row_span(self, value: usize) -> (r: Self)
        ensures
            r@ == (StyleView { row_span: value, ..self@ }),
    {
        let mut style = self.style;
        style.row_span = value;
        StyleBuilder { style }
    }

    #[must_use]
    pub fn column(self, value: usize) -> (r: Self)
        ensures
            r@ == (StyleView { column: value, ..self@ }),
    {
        let mut style = self.style;
        style.column = value;
        StyleBuilder { style }
    }

    #[must_use]
    pub fn column_span(self, value: usize) -> (r: Self)
        ensures
            r@ == (StyleView { column_span: value, ..self@ }),
    {
        let mut style = self.style;
        style.column_span = value;
        StyleBuilder { style }
    }

    #[must_use]
    pub fn background(self, value: Color) -> (r: Self)
        ensures
            r@ == (StyleView { background: Some(value), ..self@ }),
    {
        let mut style = self.style;
        style.background = Some(value);
        StyleBuilder { style }
    }

    #[must_use]
    pub fn color(self, value: Color) -> (r: Self)
        ensures
            r@ == (StyleView { color: Some(value), ..self@ }),
    {
        let mut style = self.style;
        style.color = Some(value);
        StyleBuilder { style }
    }

    #[must_use]
    pub fn font_family(self, family: &str) -> (r: Self)
        ensures
            r@ == (StyleView { font_family: family@, ..self@ }),
    {
        let mut style = self.style;
        style.font_family = FontFamily::new(family);
        StyleBuilder { style }
    }

    #[must_use]
    pub fn font_size(self, size: Px) -> (r: Self)
        ensures
            r@ == (StyleView { font_size: FontSize { size }, ..self@ }),
    {
        let mut style = self.style;
        style.font_size = FontSize::new(size);
        StyleBuilder { style }
    }

    #[must_use]
    pub fn font_weight(self, value: FontWeight) -> (r: Self)
        ensures
            r@ == (StyleView { font_weight: value, ..self@ }),
    {
        let mut style = self.style;
        style.font_weight = value;
        StyleBuilder { style }
    }

    #[must_use]
    pub fn font_slant(self, value: FontSlant) -> (r: Self)
        ensures
            r@ == (StyleView { font_slant: value, ..self@ }),
    {
        let mut style = self.style;
        style.font_slant = value;
        StyleBuilder { style }
    }

    #[must_use]
    pub fn width(self, value: Length) -> (r: Self)
        ensures
            r@ == (StyleView { width: Some(value@), ..self@ }),
    {
        let mut style = self.style;
        style.width = Some(value);
        StyleBuilder { style }
    }

    #[must_use]
    pub fn height(self, value: Length) -> (r: Self)
        ensures
            r@ == (StyleView { height: Some(value@), ..self@ }),
    {
        let mut style = self.style;
        style.height = Some(value);
        StyleBuilder { style }
    }

    /// Sets both the width and the height.
    #[must_use]
    pub fn size(self, value: Length) -> (r: Self)
        ensures
            r@ == (StyleView { width: Some(value@), height: Some(value@), ..self@ }),
    {
        let copy = value.duplicate();
        self.height(copy).width(value)
    }

    #[must_use]
    pub fn position(self, value: Position) -> (r: Self)
        ensures
            r@ == (StyleView { position: value, ..self@ }),
    {
        let mut style = self.style;
        style.position = value;
        StyleBuilder { style }
    }

    #[must_use]
    pub fn x(self, value: Px) -> (r: Self)
        ensures
            r@ == (StyleView { x: Some(value), ..self@ }),
    {
        let mut style = self.style;
        style.x = Some(value);
        StyleBuilder { style }
    }

    #[must_use]
    pub fn y(self, value: Px) -> (r: Self)
        ensures
            r@ == (StyleView { y: Some(value), ..self@ }),
    {
        let mut style = self.style;
        style.y = Some(value);
        StyleBuilder { style }
    }

    #[must_use]
    pub fn build(self) -> (r: Style)
        ensures
            r@ == self@,
    {
        self.style
    }
}

} // verus!
