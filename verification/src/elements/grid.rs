//! Rows and columns, each automatic, fixed or weighted.

use vstd::prelude::*;
use vstd::std_specs::convert::FromSpecImpl;
use crate::elements::Orientation;
use crate::geometry::{px_add, px_share, px_sub, px_times, Px, Rect};
use crate::layout::{
    added, all_measurable, auto_extent, budget, cells, declared, lemma_all_measurable,
    lemma_tree_children, lemma_tree_views_push, measured, sits_in, span_extent, track_size,
    track_sizes, track_start, tree_views, unresolved, Budget, MeasureNode, TextMetrics,
};
use crate::node::{column_tracks, node_views, row_tracks, ElementView, Node, NodeView};
use crate::styling::{Length, Style};

verus! {

/// The size of one track of a grid.
#[derive(Debug, Clone, Copy, PartialEq, Eq, Structural)]
pub enum GridLength {
    /// As large as the largest child that sits in this track alone.
    Auto,
    /// Whole pixels.
    Px(Px),
    /// A share of what the other tracks leave, in proportion to the weight.
    Weight(u32),
}

impl GridLength {
    /// The track size that a length stands for: its pixels, or `Auto` for
    /// any other length.
    pub fn from_length(value: Length) -> (r: Self)
        ensures
            r == match value {
                Length::Px(pixels) => GridLength::Px(pixels),
                _ => GridLength::Auto,
            },
    {
        match value {
            Length::Px(pixels) => GridLength::Px(pixels),
            _ => GridLength::Auto,
        }
    }
}

impl Default for GridLength {
    fn default() -> (r: Self)
        ensures
            r == GridLength::Weight(1),
    {
        GridLength::Weight(1)
    }
}

#[derive(Debug, Clone, Copy, PartialEq, Eq, Structural)]
pub struct Row {
    pub height: GridLength,
}

impl Default for Row {
    fn default() -> (r: Self)
        ensures
            r.height == GridLength::Weight(1),
    {
        Row { height: GridLength::default() }
    }
}

#[derive(Debug, Clone, Copy, PartialEq, Eq, Structural)]
pub struct Column {
    pub width: GridLength,
}

impl Default for Column {
    fn default() -> (r: Self)
        ensures
            r.width == GridLength::Weight(1),
    {
        Column { width: GridLength::default() }
    }
}

#[derive(Debug)]
pub struct GridElement {
    pub rows: Vec<Row>,
    pub columns: Vec<Column>,
    pub spacing: Px,
    pub children: Vec<Node>,
}

impl Default for GridElement {
    fn default() -> (r: Self)
        ensures
            r.rows@.len() == 0,
            r.columns@.len() == 0,
            r.spacing == 0,
            r.children@.len() == 0,
    {
        GridElement { rows: Vec::new(), columns: Vec::new(), spacing: 0, children: Vec::new() }
    }
}

fn row_lengths(rows: &Vec<Row>) -> (r: Vec<GridLength>)
    ensures
        r@ == row_tracks(rows@),
{
    let mut out: Vec<GridLength> = Vec::new();
    let mut i: usize = 0;
    while i < rows.len()
        invariant
            i <= rows.len(),
            out@ == row_tracks(rows@).take(i as int),
        decreases rows.len() - i,
    {
        out.push(rows[i].height);
        i += 1;
        assert(out@ =~= row_tracks(rows@).take(i as int));
    }
    assert(out@ =~= row_tracks(rows@));
    out
}

fn column_lengths(columns: &Vec<Column>) -> (r: Vec<GridLength>)
    ensures
        r@ == column_tracks(columns@),
{
    let mut out: Vec<GridLength> = Vec::new();
    let mut i: usize = 0;
    while i < columns.len()
        invariant
            i <= columns.len(),
            out@ == column_tracks(columns@).take(i as int),
        decreases columns.len() - i,
    {
        out.push(columns[i].width);
        i += 1;
        assert(out@ =~= column_tracks(columns@).take(i as int));
    }
    assert(out@ =~= column_tracks(columns@));
    out
}

fn sits(style: &Style, axis: Orientation, index: usize) -> (r: bool)
    ensures
        r == sits_in(style@, axis, index as int),
{
    match axis {
        Orientation::Vertical => style.row == index && style.row_span == 1,
        Orientation::Horizontal => style.column == index && style.column_span == 1,
    }
}

/// The extent of an automatic track: the largest, along the axis, of the
/// children that sit in it alone.
fn auto_size<M: TextMetrics>(
    children: &Vec<Node>,
    axis: Orientation,
    index: usize,
    inner: &Rect,
    metrics: &M,
) -> (r: Px)
    requires
        all_measurable(node_views(children@), children.len() as int),
    ensures
        r == auto_extent(
            node_views(children@),
            children.len() as int,
            axis,
            index as int,
            *inner,
            *metrics,
        ),
    decreases children, 1int,
{
    let ghost kids = node_views(children@);
    let mut largest: Px = 0;
    let mut i: usize = 0;
    while i < children.len()
        invariant
            i <= children.len(),
            kids == node_views(children@),
            all_measurable(kids, children.len() as int),
            largest == auto_extent(kids, i as int, axis, index as int, *inner, *metrics),
        decreases children.len() - i,
    {
        let child = &children[i];
        proof {
            lemma_all_measurable(kids, children.len() as int, i as int);
        }
        if sits(&child.style, axis, index) {
            let tree = child.measure(metrics, inner);
            let extent = match axis {
                Orientation::Vertical => tree.outer.size.height,
                Orientation::Horizontal => tree.outer.size.width,
            };
            if extent > largest {
                largest = extent;
            }
        }
        i += 1;
    }
    largest
}

/// The sizes of the tracks along one axis, in two passes: the first sizes
/// the automatic tracks and finds what is left to share out, the second
/// hands each weighted track its share.
fn sizes_along<M: TextMetrics>(
    children: &Vec<Node>,
    tracks: &Vec<GridLength>,
    axis: Orientation,
    inner: &Rect,
    metrics: &M,
) -> (r: Vec<Px>)
    requires
        all_measurable(node_views(children@), children.len() as int),
    ensures
        r@ == track_sizes(
            node_views(children@),
            tracks@,
            tracks.len() as int,
            axis,
            *inner,
            *metrics,
        ),
    decreases children, 2int,
{
    let ghost kids = node_views(children@);
    let mut available: Px = match axis {
        Orientation::Vertical => inner.size.height,
        Orientation::Horizontal => inner.size.width,
    };
    let mut weight: u128 = 0;
    let mut autos: Vec<Px> = Vec::new();
    let mut i: usize = 0;
    while i < tracks.len()
        invariant
            i <= tracks.len(),
            kids == node_views(children@),
            all_measurable(kids, children.len() as int),
            autos.len() == i,
            weight <= i * 0xffff_ffff,
            (Budget { available, weight: weight as nat }) == budget(
                kids,
                tracks@,
                i as int,
                axis,
                *inner,
                *metrics,
            ),
            forall|k: int|
                0 <= k < i && tracks@[k] is Auto ==> #[trigger] autos@[k] == auto_extent(
                    kids,
                    children.len() as int,
                    axis,
                    k,
                    *inner,
                    *metrics,
                ),
        decreases tracks.len() - i,
    {
        match tracks[i] {
            GridLength::Auto => {
                let size = auto_size(children, axis, i, inner, metrics);
                autos.push(size);
                available = px_sub(available, size);
            },
            GridLength::Px(size) => {
                autos.push(0);
                available = px_sub(available, size);
            },
            GridLength::Weight(value) => {
                autos.push(0);
                weight = weight + value as u128;
            },
        }
        i += 1;
    }
    let mut sizes: Vec<Px> = Vec::new();
    let mut j: usize = 0;
    while j < tracks.len()
        invariant
            j <= tracks.len(),
            kids == node_views(children@),
            autos.len() == tracks.len(),
            weight <= tracks.len() * 0xffff_ffff,
            (Budget { available, weight: weight as nat }) == budget(
                kids,
                tracks@,
                tracks.len() as int,
                axis,
                *inner,
                *metrics,
            ),
            forall|k: int|
                0 <= k < tracks.len() && tracks@[k] is Auto ==> #[trigger] autos@[k]
                    == auto_extent(kids, children.len() as int, axis, k, *inner, *metrics),
            sizes@ == track_sizes(kids, tracks@, j as int, axis, *inner, *metrics),
        decreases tracks.len() - j,
    {
        let size = match tracks[j] {
            GridLength::Auto => autos[j],
            GridLength::Px(size) => size,
            GridLength::Weight(value) => {
                px_share(available, value, weight)
            },
        };
        assert(size == track_size(kids, tracks@, j as int, axis, *inner, *metrics));
        sizes.push(size);
        j += 1;
    }
    sizes
}

/// `from`, and the sizes of the `count` tracks from `first` on added to it.
fn add_tracks(sizes: &Vec<Px>, first: usize, count: usize, from: Px) -> (r: Px)
    requires
        first + count <= sizes.len(),
    ensures
        r == added(sizes@, first as int, count as int, from),
{
    let mut total: Px = from;
    let mut i: usize = 0;
    while i < count
        invariant
            i <= count,
            first + count <= sizes.len(),
            total == added(sizes@, first as int, i as int, from),
        decreases count - i,
    {
        total = px_add(total, sizes[first + i]);
        i += 1;
    }
    total
}

fn declared_count(len: usize, first: usize, span: usize) -> (r: usize)
    ensures
        r == declared(len as int, first as int, span as int),
        first < len ==> first + r <= len,
        first >= len ==> r == 0,
{
    if first >= len {
        0
    } else if span <= len - first {
        span
    } else {
        len - first
    }
}

fn start_of(sizes: &Vec<Px>, index: usize, origin: Px, spacing: Px) -> (r: Px)
    ensures
        r == track_start(sizes@, index as int, origin, spacing),
{
    let count = declared_count(sizes.len(), 0, index);
    add_tracks(sizes, 0, count, px_add(origin, px_times(spacing, index)))
}

fn extent_of(sizes: &Vec<Px>, first: usize, span: usize) -> (r: Px)
    ensures
        r == span_extent(sizes@, first as int, span as int),
{
    let count = declared_count(sizes.len(), first, span);
    if first >= sizes.len() {
        0
    } else {
        add_tracks(sizes, first, count, 0)
    }
}

impl GridElement {
    /// The value of a grid node with this element and `style`.
    pub open spec fn as_node(&self, style: Style) -> NodeView {
        NodeView {
            style: style@,
            element: ElementView::Grid {
                rows: row_tracks(self.rows@),
                columns: column_tracks(self.columns@),
                spacing: self.spacing,
                children: node_views(self.children@),
            },
        }
    }

    /// The geometry of the grid in `parent`: the tracks sized along both
    /// axes, then each child measured in the box of the tracks that it
    /// spans.
    pub fn measure<M: TextMetrics>(&self, metrics: &M, style: &Style, parent: &Rect) -> (r:
        MeasureNode)
        requires
            !unresolved(style@.width),
            !unresolved(style@.height),
            all_measurable(node_views(self.children@), self.children.len() as int),
        ensures
            r@ == measured(self.as_node(*style), *metrics, *parent),
        decreases self, 0int,
    {
        let mut root = MeasureNode::new(style, parent, parent.size);
        let ghost base = root@;
        let ghost kids = node_views(self.children@);
        let inner = root.inner;
        let rows = row_lengths(&self.rows);
        let columns = column_lengths(&self.columns);
        let row_sizes = sizes_along(
            &self.children,
            &rows,
            Orientation::Vertical,
            &inner,
            metrics,
        );
        let column_sizes = sizes_along(
            &self.children,
            &columns,
            Orientation::Horizontal,
            &inner,
            metrics,
        );
        let mut i: usize = 0;
        proof {
            lemma_tree_children(root);
        }
        while i < self.children.len()
            invariant
                i <= self.children.len(),
                kids == node_views(self.children@),
                all_measurable(kids, self.children.len() as int),
                root.outer == base.outer,
                root.inner == base.inner,
                inner == base.inner,
                tree_views(root.children@) == cells(
                    kids,
                    i as int,
                    row_sizes@,
                    column_sizes@,
                    self.spacing,
                    inner,
                    *metrics,
                ),
            decreases self.children.len() - i,
        {
            let child = &self.children[i];
            proof {
                lemma_all_measurable(kids, self.children.len() as int, i as int);
            }
            let ghost before = root.children@;
            let x = start_of(&column_sizes, child.style.column, inner.origin.x, self.spacing);
            let y = start_of(&row_sizes, child.style.row, inner.origin.y, self.spacing);
            let width = extent_of(&column_sizes, child.style.column, child.style.column_span);
            let height = extent_of(&row_sizes, child.style.row, child.style.row_span);
            let tree = child.measure(metrics, &Rect::from_xywh(x, y, width, height));
            proof {
                lemma_tree_views_push(before, tree);
            }
            root.children.push(tree);
            i += 1;
        }
        proof {
            lemma_tree_children(root);
        }
        root
    }
}

impl From<Length> for GridLength {
    fn from(value: Length) -> (r: Self) {
        GridLength::from_length(value)
    }
}

impl FromSpecImpl<Length> for GridLength {
    open spec fn obeys_from_spec() -> bool {
        true
    }

    open spec fn from_spec(value: Length) -> Self {
        match value {
            Length::Px(pixels) => GridLength::Px(pixels),
            _ => GridLength::Auto,
        }
    }
}

} // verus!
