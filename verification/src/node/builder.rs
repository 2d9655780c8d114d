//! Building a node property by property.

use vstd::prelude::*;
use crate::elements::{Column, Element, GridLength, Row};
use crate::geometry::Px;
use crate::node::{
    children_of, column_tracks, node_views, row_tracks, with_children, with_columns, with_rows,
    with_spacing, ElementView, Node, NodeView,
};
use crate::styling::style::plain_style;
use crate::styling::{
    Color, FontFamily, FontSize, FontSlant, FontWeight, Length, LengthView, Position, Style,
    StyleView, Thickness,
};

verus! {

/// A node in the making.
pub struct NodeBuilder {
    pub style: Style,
    pub element: Element,
}

impl View for NodeBuilder {
    type V = NodeView;

    open spec fn view(&self) -> NodeView {
        NodeView { style: self.style@, element: self.element@ }
    }
}

/// `node` with `style` in place of its own.
pub open spec fn restyled(node: NodeView, style: StyleView) -> NodeView {
    NodeView { style, element: node.element }
}

/// `node` with `element` in place of its own.
pub open spec fn refilled(node: NodeView, element: ElementView) -> NodeView {
    NodeView { style: node.style, element }
}

fn rows_of(heights: &Vec<GridLength>) -> (r: Vec<Row>)
    ensures
        row_tracks(r@) == heights@,
{
    let mut out: Vec<Row> = Vec::new();
    let mut i: usize = 0;
    while i < heights.len()
        invariant
            i <= heights.len(),
            out.len() == i,
            row_tracks(out@) == heights@.take(i as int),
        decreases heights.len() - i,
    {
        let ghost before = out@;
        out.push(Row { height: heights[i] });
        i += 1;
        assert forall|k: int| 0 <= k < i implies row_tracks(out@)[k] == heights@.take(
            i as int,
        )[k] by {
            if k < i - 1 {
                assert(row_tracks(before)[k] == heights@.take(i - 1)[k]);
            }
        }
        assert(row_tracks(out@) =~= heights@.take(i as int));
    }
    assert(heights@.take(heights.len() as int) =~= heights@);
    out
}

fn columns_of(widths: &Vec<GridLength>) -> (r: Vec<Column>)
    ensures
        column_tracks(r@) == widths@,
{
    let mut out: Vec<Column> = Vec::new();
    let mut i: usize = 0;
    while i < widths.len()
        invariant
            i <= widths.len(),
            out.len() == i,
            column_tracks(out@) == widths@.take(i as int),
        decreases widths.len() - i,
    {
        let ghost before = out@;
        out.push(Column { width: widths[i] });
        i += 1;
        assert forall|k: int| 0 <= k < i implies column_tracks(out@)[k] == widths@.take(
            i as int,
        )[k] by {
            if k < i - 1 {
                assert(column_tracks(before)[k] == widths@.take(i - 1)[k]);
            }
        }
        assert(column_tracks(out@) =~= widths@.take(i as int));
    }
    assert(widths@.take(widths.len() as int) =~= widths@);
    out
}

impl NodeBuilder {
    /// A builder for a node that holds `element`, in the default style
    /// spanning one row and one column.
    #[must_use]
    pub fn new(element: Element) -> (r: Self)
        ensures
            r@ == (NodeView { style: plain_style(1), element: element@ }),
    {
        Self { style: Style::new(), element }
    }

    /// Puts `node` behind the children of a container of any kind; drops it
    /// for an image or a text.
    #[must_use]
    pub fn child(self, node: Node) -> (r: Self)
        ensures
            r@ == refilled(
                self@,
                with_children(self@.element, children_of(self@.element).push(node@)),
            ),
    {
        let mut builder = self;
        let mut nodes: Vec<Node> = Vec::new();
        nodes.push(node);
        proof {
            assert(node_views(nodes@) =~= seq![node@]);
            assert(children_of(builder@.element) + seq![node@] =~= children_of(
                builder@.element,
            ).push(node@));
        }
        builder.element.extend(nodes);
        builder
    }

    /// Puts `nodes` behind the children of a container of any kind; drops
    /// them for an image or a text.
    #[must_use]
    pub fn children(self, nodes: Vec<Node>) -> (r: Self)
        ensures
            r@ == refilled(
                self@,
                with_children(self@.element, children_of(self@.element) + node_views(nodes@)),
            ),
    {
        let mut builder = self;
        builder.element.extend(nodes);
        builder
    }

    /// Puts rows of the given heights behind the rows of a grid.
    #[must_use]
    pub fn rows(self, rows: Vec<GridLength>) -> (r: Self)
        ensures
            r@ == refilled(self@, with_rows(self@.element, rows@)),
    {
        let mut builder = self;
        match &mut builder.element {
            Element::Grid(grid) => {
                let mut added = rows_of(&rows);
                assert(row_tracks(grid.rows@ + added@) =~= row_tracks(grid.rows@) + rows@);
                grid.rows.append(&mut added);
            },
            _ => {},
        }
        builder
    }

    /// Puts columns of the given widths behind the columns of a grid.
    #[must_use]
    pub fn columns(self, columns: Vec<GridLength>) -> (r: Self)
        ensures
            r@ == refilled(self@, with_columns(self@.element, columns@)),
    {
        let mut builder = self;
        match &mut builder.element {
            Element::Grid(grid) => {
                let mut added = columns_of(&columns);
                assert(column_tracks(grid.columns@ + added@) =~= column_tracks(grid.columns@)
                    + columns@);
                grid.columns.append(&mut added);
            },
            _ => {},
        }
        builder
    }

    #[must_use]
    pub fn row(self, value: usize) -> (r: Self)
        ensures
            r@ == restyled(self@, StyleView { row: value, ..self@.style }),
    {
        let mut builder = self;
        builder.style.row = value;
        builder
    }

    #[must_use]
    pub fn row_span(self, value: usize) -> (r: Self)
        ensures
            r@ == restyled(self@, StyleView { row_span: value, ..self@.style }),
    {
        let mut builder = self;
        builder.style.row_span = value;
        builder
    }

    #[must_use]
    pub fn column(self, value: usize) -> (r: Self)
        ensures
            r@ == restyled(self@, StyleView { column: value, ..self@.style }),
    {
        let mut builder = self;
        builder.style.column = value;
        builder
    }

    #[must_use]
    pub fn column_span(self, value: usize) -> (r: Self)
        ensures
            r@ == restyled(self@, StyleView { column_span: value, ..self@.style }),
    {
        let mut builder = self;
        builder.style.column_span = value;
        builder
    }

    /// Sets the gap between the children of a container of any kind.
    #[must_use]
    pub fn spacing(self, value: Px) -> (r: Self)
        ensures
            r@ == refilled(self@, with_spacing(self@.element, value)),
    {
        let mut builder = self;
        builder.element.set_spacing(value);
        builder
    }

    #[must_use]
    pub fn margin(self, value: Thickness) -> (r: Self)
        ensures
            r@ == restyled(self@, StyleView { margin: value, ..self@.style }),
    {
        let mut builder = self;
        builder.style.margin = value;
        builder
    }

    #[must_use]
    pub fn padding(self, value: Thickness) -> (r: Self)
        ensures
            r@ == restyled(self@, StyleView { padding: value, ..self@.style }),
    {
        let mut builder = self;
        builder.style.padding = value;
        builder
    }

    #[must_use]
    pub fn corner_radius(self, value: Thickness) -> (r: Self)
        ensures
            r@ == restyled(self@, StyleView { corner_radius: value, ..self@.style }),
    {
        let mut builder = self;
        builder.style.corner_radius = value;
        builder
    }

    #[must_use]
    pub fn background(self, value: Color) -> (r: Self)
        ensures
            r@ == restyled(self@, StyleView { background: Some(value), ..self@.style }),
    {
        let mut builder = self;
        builder.style.background = Some(value);
        builder
    }

    #[must_use]
    pub fn color(self, value: Color) -> (r: Self)
        ensures
            r@ == restyled(self@, StyleView { color: Some(value), ..self@.style }),
    {
        let mut builder = self;
        builder.style.color = Some(value);
        builder
    }

    #[must_use]
    pub fn font_family(self, family: &str) -> (r: Self)
        ensures
            r@ == restyled(self@, StyleView { font_family: family@, ..self@.style }),
    {
        let mut builder = self;
        builder.style.font_family = FontFamily::new(family);
        builder
    }

    #[must_use]
    pub fn font_size(self, size: Px) -> (r: Self)
        ensures
            r@ == restyled(self@, StyleView { font_size: FontSize { size }, ..self@.style }),
    {
        let mut builder = self;
        builder.style.font_size = FontSize::new(size);
        builder
    }

    #[must_use]
    pub fn font_weight(self, value: FontWeight) -> (r: Self)
        ensures
            r@ == restyled(self@, StyleView { font_weight: value, ..self@.style }),
    {
        let mut builder = self;
        builder.style.font_weight = value;
        builder
    }

    #[must_use]
    pub fn font_slant(self, value: FontSlant) -> (r: Self)
        ensures
            r@ == restyled(self@, StyleView { font_slant: value, ..self@.style }),
    {
        let mut builder = self;
        builder.style.font_slant = value;
        builder
    }

    #[must_use]
    pub fn width(self, value: Length) -> (r: Self)
        ensures
            r@ == restyled(self@, StyleView { width: Some(value@), ..self@.style }),
    {
        let mut builder = self;
        builder.style.width = Some(value);
        builder
    }

    #[must_use]
    pub fn height(self, value: Length) -> (r: Self)
        ensures
            r@ == restyled(self@, StyleView { height: Some(value@), ..self@.style }),
    {
        let mut builder = self;
        builder.style.height = Some(value);
        builder
    }

    /// Sets both the width and the height.
    #[must_use]
    pub fn size(self, value: Length) -> (r: Self)
        ensures
            r@ == restyled(
                self@,
                StyleView { width: Some(value@), height: Some(value@), ..self@.style },
            ),
    {
        let copy = value.duplicate();
        self.height(copy).width(value)
    }

    /// Sets the width to hundredths of what the parent offers.
    #[must_use]
    pub fn width_p(self, value: Px) -> (r: Self)
        ensures
            r@ == restyled(
                self@,
                StyleView { width: Some(LengthView::Percent(value)), ..self@.style },
            ),
    {
        self.width(Length::Percent(value))
    }

    /// Sets the height to hundredths of what the parent offers.
    #[must_use]
    pub fn height_p(self, value: Px) -> (r: Self)
        ensures
            r@ == restyled(
                self@,
                StyleView { height: Some(LengthView::Percent(value)), ..self@.style },
            ),
    {
        self.height(Length::Percent(value))
    }

    /// Sets both sizes to hundredths of what the parent offers.
    #[must_use]
    pub fn size_p(self, value: Px) -> (r: Self)
        ensures
            r@ == restyled(
                self@,
                StyleView {
                    width: Some(LengthView::Percent(value)),
                    height: Some(LengthView::Percent(value)),
                    ..self@.style
                },
            ),
    {
        self.height_p(value).width_p(value)
    }

    /// Sets the height to arithmetic over other lengths.
    #[must_use]
    pub fn dynamic_height(self, value: Vec<crate::styling::Operation>) -> (r: Self)
        ensures
            r@ == restyled(
                self@,
                StyleView {
                    height: Some(LengthView::Dynamic(crate::styling::operation_views(value@))),
                    ..self@.style
                },
            ),
    {
        self.height(crate::styling::dynamic(value))
    }

    #[must_use]
    pub fn position(self, value: Position) -> (r: Self)
        ensures
            r@ == restyled(self@, StyleView { position: value, ..self@.style }),
    {
        let mut builder = self;
        builder.style.position = value;
        builder
    }

    #[must_use]
    pub fn x(self, value: Px) -> (r: Self)
        ensures
            r@ == restyled(self@, StyleView { x: Some(value), ..self@.style }),
    {
        let mut builder = self;
        builder.style.x = Some(value);
        builder
    }

    #[must_use]
    pub fn y(self, value: Px) -> (r: Self)
        ensures
            r@ == restyled(self@, StyleView { y: Some(value), ..self@.style }),
    {
        let mut builder = self;
        builder.style.y = Some(value);
        builder
    }

    #[must_use]
    pub fn build(self) -> (r: Node)
        ensures
            r@ == self@,
    {
        Node { style: self.style, element: self.element }
    }
}

} // verus!
