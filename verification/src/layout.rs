//! The geometry tree and the rules that size and place a node.

use vstd::prelude::*;
use crate::elements::{GridLength, Orientation};
use crate::geometry::{
    clamp, div_or_limit, px_add, px_div, px_max, px_mul, px_scale, px_sub, share, Point, Px, Rect,
    Size,
};
use crate::node::{ElementView, NodeView};
use crate::styling::{
    is_auto, lemma_dynamic_view, operation_views, Length, LengthView, Operation, OperationView,
    Position, Style, StyleView, Thickness,
};

verus! {

/// What lays out a paragraph: the one part of measuring that the tree does
/// not decide by itself.
///
/// The two specification functions name what the two methods return. An
/// implementation that is not verified leaves them as they are declared
/// here, and stands by its methods returning the same for the same.
pub trait TextMetrics {
    /// The width along which text is laid out where its parent offers none.
    open spec fn fallback_width(&self) -> Px {
        arbitrary()
    }

    /// The longest line and the height of `text`, set in `style` and broken
    /// into lines no wider than `width`.
    open spec fn paragraph(&self, style: StyleView, text: Seq<char>, width: Px) -> Size {
        arbitrary()
    }

    fn bounds_width(&self) -> (r: Px)
        ensures
            r == self.fallback_width(),
    ;

    fn measure_text(&self, style: &Style, text: &str, width: Px) -> (r: Size)
        ensures
            r == self.paragraph(style@, text@, width),
    ;
}

/// The pixels of a length, where the parent offers `space` along the
/// length's axis and `available` in all.
///
/// A percentage is that many hundredths of `space`, rounded down. Arithmetic
/// has the value of its last operation, and zero without one; it saturates,
/// and a division by zero gives the far end of the range on the dividend's
/// side. `Auto` counts as zero.
pub open spec fn length_value(length: LengthView, space: Px, available: Size) -> Px
    decreases length,
{
    match length {
        LengthView::Auto => 0,
        LengthView::Px(value) => value,
        LengthView::Percent(value) => div_or_limit(space * value, 100),
        LengthView::ParentWidth => available.width,
        LengthView::ParentHeight => available.height,
        LengthView::Dynamic(operations) => if operations.len() == 0 {
            0
        } else {
            match operations.last() {
                OperationView::Add(a, b) => clamp(
                    length_value(a, space, available) + length_value(b, space, available),
                ),
                OperationView::Sub(a, b) => clamp(
                    length_value(a, space, available) - length_value(b, space, available),
                ),
                OperationView::Mul(a, b) => clamp(
                    length_value(a, space, available) * length_value(b, space, available),
                ),
                OperationView::Div(a, b) => div_or_limit(
                    length_value(a, space, available) as int,
                    length_value(b, space, available) as int,
                ),
            }
        },
    }
}

/// Whether a style leaves a size to the content: it names no length, or one
/// that is auto.
pub open spec fn unresolved(length: Option<LengthView>) -> bool {
    match length {
        Some(value) => is_auto(value),
        None => true,
    }
}

/// The explicit size along one axis, or `fallback` where the style leaves
/// the size to the content.
pub open spec fn size_or(length: Option<LengthView>, space: Px, available: Size, fallback: Px) -> Px {
    match length {
        Some(value) if !is_auto(value) => length_value(value, space, available),
        _ => fallback,
    }
}

/// The box inside `outer` that `padding` leaves.
pub open spec fn inset(outer: Rect, padding: Thickness) -> Rect {
    Rect {
        origin: Point {
            x: clamp(outer.origin.x + padding.left),
            y: clamp(outer.origin.y + padding.top),
        },
        size: Size {
            width: clamp(clamp(outer.size.width - padding.left) - padding.right),
            height: clamp(clamp(outer.size.height - padding.top) - padding.bottom),
        },
    }
}

/// The allocated box of a node in `parent` whose content measures `content`.
///
/// The origin is the parent's, or the node's own `x` and `y` where it is
/// absolute, moved in by the left and top margins. The size is the explicit
/// one, else that of the content.
pub open spec fn placed_box(style: StyleView, parent: Rect, content: Size) -> Rect {
    Rect {
        origin: if style.position == Position::Absolute {
            Point {
                x: clamp(
                    match style.x {
                        Some(x) => x,
                        None => 0,
                    } + style.margin.left,
                ),
                y: clamp(
                    match style.y {
                        Some(y) => y,
                        None => 0,
                    } + style.margin.top,
                ),
            }
        } else {
            Point {
                x: clamp(parent.origin.x + style.margin.left),
                y: clamp(parent.origin.y + style.margin.top),
            }
        },
        size: Size {
            width: size_or(style.width, parent.size.width, parent.size, content.width),
            height: size_or(style.height, parent.size.height, parent.size, content.height),
        },
    }
}

/// The allocated box of a node that fills `parent`: placed in the flow, and
/// as large as the parent less the right and bottom margins where the style
/// names no size.
pub open spec fn hosted_box(style: StyleView, parent: Rect) -> Rect {
    Rect {
        origin: Point {
            x: clamp(parent.origin.x + style.margin.left),
            y: clamp(parent.origin.y + style.margin.top),
        },
        size: Size {
            width: size_or(
                style.width,
                parent.size.width,
                parent.size,
                clamp(parent.size.width - style.margin.right),
            ),
            height: size_or(
                style.height,
                parent.size.height,
                parent.size,
                clamp(parent.size.height - style.margin.bottom),
            ),
        },
    }
}

/// The geometry of one node: its allocated box, the box that its padding
/// leaves, and the geometry of its children.
pub struct MeasureTree {
    pub outer: Rect,
    pub inner: Rect,
    pub children: Seq<MeasureTree>,
}

/// A node without children, allocated `outer`.
pub open spec fn leaf(outer: Rect, padding: Thickness) -> MeasureTree {
    MeasureTree { outer, inner: inset(outer, padding), children: Seq::empty() }
}

/// `tree` with a content width of `width`, and the padding round it.
pub open spec fn with_width(tree: MeasureTree, padding: Thickness, width: Px) -> MeasureTree {
    MeasureTree {
        outer: Rect {
            origin: tree.outer.origin,
            size: Size {
                width: clamp(clamp(width + padding.left) + padding.right),
                height: tree.outer.size.height,
            },
        },
        inner: Rect {
            origin: tree.inner.origin,
            size: Size { width, height: tree.inner.size.height },
        },
        children: tree.children,
    }
}

/// `tree` with a content height of `height`, and the padding round it.
pub open spec fn with_height(tree: MeasureTree, padding: Thickness, height: Px) -> MeasureTree {
    MeasureTree {
        outer: Rect {
            origin: tree.outer.origin,
            size: Size {
                width: tree.outer.size.width,
                height: clamp(clamp(height + padding.top) + padding.bottom),
            },
        },
        inner: Rect {
            origin: tree.inner.origin,
            size: Size { width: tree.inner.size.width, height },
        },
        children: tree.children,
    }
}

/// `tree` moved so that a box at `x` would hold it behind its left margin.
pub open spec fn with_x(tree: MeasureTree, style: StyleView, x: Px) -> MeasureTree {
    MeasureTree {
        outer: Rect {
            origin: Point { x: clamp(x + style.margin.left), y: tree.outer.origin.y },
            size: tree.outer.size,
        },
        inner: Rect {
            origin: Point {
                x: clamp(clamp(x + style.margin.left) + style.padding.left),
                y: tree.inner.origin.y,
            },
            size: tree.inner.size,
        },
        children: tree.children,
    }
}

/// `tree` moved so that a box at `y` would hold it below its top margin.
pub open spec fn with_y(tree: MeasureTree, style: StyleView, y: Px) -> MeasureTree {
    MeasureTree {
        outer: Rect {
            origin: Point { x: tree.outer.origin.x, y: clamp(y + style.margin.top) },
            size: tree.outer.size,
        },
        inner: Rect {
            origin: Point {
                x: tree.inner.origin.x,
                y: clamp(clamp(y + style.margin.top) + style.padding.top),
            },
            size: tree.inner.size,
        },
        children: tree.children,
    }
}

/// What is left of `inner` behind `by`: moved by it, and smaller by it.
pub open spec fn remainder(inner: Rect, by: Point) -> Rect {
    Rect {
        origin: Point { x: clamp(inner.origin.x + by.x), y: clamp(inner.origin.y + by.y) },
        size: Size {
            width: clamp(inner.size.width - by.x),
            height: clamp(inner.size.height - by.y),
        },
    }
}

/// The step of `distance` along the axis.
pub open spec fn along(axis: Orientation, distance: Px) -> Point {
    match axis {
        Orientation::Vertical => Point { x: 0, y: distance },
        Orientation::Horizontal => Point { x: distance, y: 0 },
    }
}

/// The extent of `size` along the axis.
pub open spec fn main_extent(axis: Orientation, size: Size) -> Px {
    match axis {
        Orientation::Vertical => size.height,
        Orientation::Horizontal => size.width,
    }
}

/// The extent of `size` across the axis.
pub open spec fn cross_extent(axis: Orientation, size: Size) -> Px {
    match axis {
        Orientation::Vertical => size.width,
        Orientation::Horizontal => size.height,
    }
}

/// A linear flow after some of its children: how far it reaches along and
/// across the axis, whether a child of the flow was placed yet, and the
/// geometry of the children so far.
pub struct Flow {
    pub main: Px,
    pub cross: Px,
    pub placed: bool,
    pub nodes: Seq<MeasureTree>,
}

/// What a grid has to share out along one axis: the space that automatic
/// and fixed tracks leave of the inner extent, and the sum of the weights.
pub struct Budget {
    pub available: Px,
    pub weight: nat,
}

/// How many columns a masonry of `available` width has: as many as fit at
/// `item_width` with `spacing` behind each, and one where not even one fits.
pub open spec fn masonry_columns(available: Px, item_width: Px, spacing: Px) -> int {
    let pitch = clamp(item_width + spacing);
    if pitch > 0 && available / pitch >= 1 {
        available / pitch
    } else {
        1
    }
}

/// The width that each column of a masonry gets, so that the columns and
/// the gaps between them fill `available`.
pub open spec fn masonry_item_width(available: Px, item_width: Px, spacing: Px) -> Px {
    let columns = masonry_columns(available, item_width, spacing);
    div_or_limit(clamp(available - clamp(spacing * (columns - 1))) as int, columns)
}

/// Whether a child sits in track `index` alone: the row for the vertical
/// axis, the column for the horizontal one.
pub open spec fn sits_in(style: StyleView, axis: Orientation, index: int) -> bool {
    match axis {
        Orientation::Vertical => style.row == index && style.row_span == 1,
        Orientation::Horizontal => style.column == index && style.column_span == 1,
    }
}

/// The geometry of `node` in `parent`.
///
/// A container places an absolute child against its own inner box, and a
/// child of the flow against what the flow so far leaves of it; it takes the
/// flow's extent for a size that its style leaves to the content. A masonry
/// and a grid fill their parent. An image has the size of its picture and a
/// text that of its paragraph, one pixel wider than the longest line.
pub open spec fn measured<M: TextMetrics>(node: NodeView, metrics: M, parent: Rect) -> MeasureTree
    decreases node, 0int, 0int,
{
    let style = node.style;
    match node.element {
        ElementView::Container { orientation, spacing, children } => {
            let base = leaf(placed_box(style, parent, parent.size), style.padding);
            let end = flow(
                children,
                children.len() as int,
                orientation,
                spacing,
                base.inner,
                metrics,
            );
            let held = MeasureTree { outer: base.outer, inner: base.inner, children: end.nodes };
            let wide = if unresolved(style.width) {
                with_width(held, style.padding, cross_or_main(orientation, end).0)
            } else {
                held
            };
            if unresolved(style.height) {
                with_height(wide, style.padding, cross_or_main(orientation, end).1)
            } else {
                wide
            }
        },
        ElementView::Masonry { spacing, item_width, children } => {
            let base = leaf(hosted_box(style, parent), style.padding);
            MeasureTree {
                outer: base.outer,
                inner: base.inner,
                children: tiles(
                    children,
                    children.len() as int,
                    item_width,
                    spacing,
                    base.inner,
                    metrics,
                ),
            }
        },
        ElementView::Grid { rows, columns, spacing, children } => {
            let base = leaf(placed_box(style, parent, parent.size), style.padding);
            MeasureTree {
                outer: base.outer,
                inner: base.inner,
                children: cells(
                    children,
                    children.len() as int,
                    track_sizes(
                        children,
                        rows,
                        rows.len() as int,
                        Orientation::Vertical,
                        base.inner,
                        metrics,
                    ),
                    track_sizes(
                        children,
                        columns,
                        columns.len() as int,
                        Orientation::Horizontal,
                        base.inner,
                        metrics,
                    ),
                    spacing,
                    base.inner,
                    metrics,
                ),
            }
        },
        ElementView::Image { name, bytes, width, height } => leaf(
            placed_box(style, parent, Size { width, height }),
            style.padding,
        ),
        ElementView::Text { data } => {
            let lines = metrics.paragraph(
                style,
                data,
                if parent.size.width == 0 {
                    metrics.fallback_width()
                } else {
                    parent.size.width
                },
            );
            leaf(
                placed_box(
                    style,
                    parent,
                    Size { width: clamp(lines.width + 1), height: lines.height },
                ),
                style.padding,
            )
        },
    }
}

/// The width and the height that a flow reaches.
pub open spec fn cross_or_main(axis: Orientation, end: Flow) -> (Px, Px) {
    match axis {
        Orientation::Vertical => (end.cross, end.main),
        Orientation::Horizontal => (end.main, end.cross),
    }
}

/// The linear flow of a container with inner box `inner` after the first `n`
/// of its children.
///
/// A child of the flow stands where the flow has got to, behind one
/// `spacing` unless it is the first such child; the flow then reaches to its
/// far side and is as wide as the widest child. An absolute child leaves the
/// flow as it was.
pub open spec fn flow<M: TextMetrics>(
    children: Seq<NodeView>,
    n: int,
    axis: Orientation,
    spacing: Px,
    inner: Rect,
    metrics: M,
) -> Flow
    decreases children, 1int, n,
{
    if n <= 0 || n > children.len() {
        Flow { main: 0, cross: 0, placed: false, nodes: Seq::empty() }
    } else {
        let before = flow(children, n - 1, axis, spacing, inner, metrics);
        let child = children[n - 1];
        if child.style.position == Position::Relative {
            let start = if before.placed {
                clamp(before.main + spacing)
            } else {
                before.main
            };
            let tree = measured(child, metrics, remainder(inner, along(axis, start)));
            Flow {
                main: clamp(start + main_extent(axis, tree.outer.size)),
                cross: px_max(before.cross, cross_extent(axis, tree.outer.size)),
                placed: true,
                nodes: before.nodes.push(tree),
            }
        } else {
            Flow {
                main: before.main,
                cross: before.cross,
                placed: before.placed,
                nodes: before.nodes.push(measured(child, metrics, inner)),
            }
        }
    }
}

/// The geometry of the first `n` items of a masonry with inner box `inner`.
///
/// Item `k` stands in column `k mod columns`, at the top of the box in the
/// first row and else one `spacing` below the item `columns` before it. It
/// is as wide as a column and as high as its content measures in a box of
/// that width and no height.
pub open spec fn tiles<M: TextMetrics>(
    children: Seq<NodeView>,
    n: int,
    item_width: Px,
    spacing: Px,
    inner: Rect,
    metrics: M,
) -> Seq<MeasureTree>
    decreases children, 1int, n,
{
    if n <= 0 || n > children.len() {
        Seq::empty()
    } else {
        let before = tiles(children, n - 1, item_width, spacing, inner, metrics);
        let k = n - 1;
        let columns = masonry_columns(inner.size.width, item_width, spacing);
        let width = masonry_item_width(inner.size.width, item_width, spacing);
        let y = if k < columns || k - columns >= before.len() {
            inner.origin.y
        } else {
            let above = before[k - columns];
            clamp(clamp(above.outer.origin.y + above.outer.size.height) + spacing)
        };
        let x = clamp(inner.origin.x + clamp(clamp(width + spacing) * (k % columns)));
        let style = children[k].style;
        let base = leaf(
            hosted_box(
                style,
                Rect { origin: Point { x, y }, size: Size { width, height: 0 } },
            ),
            style.padding,
        );
        let content = measured(children[k], metrics, base.inner);
        let sized = with_height(base, style.padding, content.outer.size.height);
        before.push(
            MeasureTree { outer: sized.outer, inner: sized.inner, children: content.children },
        )
    }
}

/// The largest extent along the axis, and at least zero, that those of the
/// first `n` children measure in `inner` which sit in track `index` alone.
pub open spec fn auto_extent<M: TextMetrics>(
    children: Seq<NodeView>,
    n: int,
    axis: Orientation,
    index: int,
    inner: Rect,
    metrics: M,
) -> Px
    decreases children, 1int, n,
{
    if n <= 0 || n > children.len() {
        0
    } else {
        let before = auto_extent(children, n - 1, axis, index, inner, metrics);
        if sits_in(children[n - 1].style, axis, index) {
            px_max(
                before,
                main_extent(axis, measured(children[n - 1], metrics, inner).outer.size),
            )
        } else {
            before
        }
    }
}

/// What the first `n` tracks leave to share out along the axis.
///
/// The space starts as the inner extent: the gaps between tracks take
/// nothing from it. An automatic track takes its extent from it and a fixed
/// track its pixels; a weighted track adds its weight to the sum.
pub open spec fn budget<M: TextMetrics>(
    children: Seq<NodeView>,
    tracks: Seq<GridLength>,
    n: int,
    axis: Orientation,
    inner: Rect,
    metrics: M,
) -> Budget
    decreases children, 2int, n,
{
    if n <= 0 || n > tracks.len() {
        Budget { available: main_extent(axis, inner.size), weight: 0 }
    } else {
        let before = budget(children, tracks, n - 1, axis, inner, metrics);
        match tracks[n - 1] {
            GridLength::Auto => Budget {
                available: clamp(
                    before.available - auto_extent(
                        children,
                        children.len() as int,
                        axis,
                        n - 1,
                        inner,
                        metrics,
                    ),
                ),
                weight: before.weight,
            },
            GridLength::Px(size) => Budget {
                available: clamp(before.available - size),
                weight: before.weight,
            },
            GridLength::Weight(weight) => Budget {
                available: before.available,
                weight: before.weight + weight as nat,
            },
        }
    }
}

/// The size of track `index`: the extent of an automatic track, the pixels
/// of a fixed one, the share of a weighted one. A track that the grid does
/// not declare has no size.
pub open spec fn track_size<M: TextMetrics>(
    children: Seq<NodeView>,
    tracks: Seq<GridLength>,
    index: int,
    axis: Orientation,
    inner: Rect,
    metrics: M,
) -> Px
    decreases children, 3int, 0int,
{
    if index < 0 || index >= tracks.len() {
        0
    } else {
        match tracks[index] {
            GridLength::Auto => auto_extent(
                children,
                children.len() as int,
                axis,
                index,
                inner,
                metrics,
            ),
            GridLength::Px(size) => size,
            GridLength::Weight(weight) => {
                let whole = budget(
                    children,
                    tracks,
                    tracks.len() as int,
                    axis,
                    inner,
                    metrics,
                );
                share(whole.available, weight, whole.weight)
            },
        }
    }
}

/// The sizes of the first `n` tracks along the axis.
pub open spec fn track_sizes<M: TextMetrics>(
    children: Seq<NodeView>,
    tracks: Seq<GridLength>,
    n: int,
    axis: Orientation,
    inner: Rect,
    metrics: M,
) -> Seq<Px>
    decreases children, 4int, n,
{
    if n <= 0 || n > tracks.len() {
        Seq::empty()
    } else {
        track_sizes(children, tracks, n - 1, axis, inner, metrics).push(
            track_size(children, tracks, n - 1, axis, inner, metrics),
        )
    }
}

/// The size of track `index`, and nothing for a track that the grid does
/// not declare.
pub open spec fn size_at(sizes: Seq<Px>, index: int) -> Px {
    if 0 <= index < sizes.len() {
        sizes[index]
    } else {
        0
    }
}

/// `from`, and the sizes of the `count` tracks from `first` on added to it
/// one by one.
pub open spec fn added(sizes: Seq<Px>, first: int, count: int, from: Px) -> Px
    decreases count,
{
    if count <= 0 {
        from
    } else {
        clamp(added(sizes, first, count - 1, from) + size_at(sizes, first + count - 1))
    }
}

/// How many of the `span` tracks from `first` on the grid declares.
pub open spec fn declared(len: int, first: int, span: int) -> int {
    if first >= len {
        0
    } else if span <= len - first {
        span
    } else {
        len - first
    }
}

/// Where track `index` starts along its axis: at `origin`, behind one
/// `spacing` and the size of each track before it.
pub open spec fn track_start(sizes: Seq<Px>, index: int, origin: Px, spacing: Px) -> Px {
    added(
        sizes,
        0,
        declared(sizes.len() as int, 0, index),
        clamp(origin + clamp(spacing * index)),
    )
}

/// The extent of the `span` tracks from `first` on.
pub open spec fn span_extent(sizes: Seq<Px>, first: int, span: int) -> Px {
    added(sizes, first, declared(sizes.len() as int, first, span), 0)
}

/// The box that a grid allocates to a child: from the start of its first
/// row and column over the tracks that it spans.
pub open spec fn cell_box(
    style: StyleView,
    row_sizes: Seq<Px>,
    column_sizes: Seq<Px>,
    spacing: Px,
    inner: Rect,
) -> Rect {
    Rect {
        origin: Point {
            x: track_start(column_sizes, style.column as int, inner.origin.x, spacing),
            y: track_start(row_sizes, style.row as int, inner.origin.y, spacing),
        },
        size: Size {
            width: span_extent(column_sizes, style.column as int, style.column_span as int),
            height: span_extent(row_sizes, style.row as int, style.row_span as int),
        },
    }
}

/// The geometry of the first `n` children of a grid, each measured in its
/// cell.
pub open spec fn cells<M: TextMetrics>(
    children: Seq<NodeView>,
    n: int,
    row_sizes: Seq<Px>,
    column_sizes: Seq<Px>,
    spacing: Px,
    inner: Rect,
    metrics: M,
) -> Seq<MeasureTree>
    decreases children, 1int, n,
{
    if n <= 0 || n > children.len() {
        Seq::empty()
    } else {
        cells(children, n - 1, row_sizes, column_sizes, spacing, inner, metrics).push(
            measured(
                children[n - 1],
                metrics,
                cell_box(children[n - 1].style, row_sizes, column_sizes, spacing, inner),
            ),
        )
    }
}

/// Whether every grid in the tree has an explicit width and height, as
/// measuring asks.
pub open spec fn measurable(node: NodeView) -> bool
    decreases node, 0int,
{
    match node.element {
        ElementView::Container { orientation, spacing, children } => all_measurable(
            children,
            children.len() as int,
        ),
        ElementView::Masonry { spacing, item_width, children } => all_measurable(
            children,
            children.len() as int,
        ),
        ElementView::Grid { rows, columns, spacing, children } => !unresolved(node.style.width)
            && !unresolved(node.style.height) && all_measurable(children, children.len() as int),
        _ => true,
    }
}

/// Whether the first `n` nodes are measurable.
pub open spec fn all_measurable(nodes: Seq<NodeView>, n: int) -> bool
    decreases nodes, n,
{
    if n <= 0 || n > nodes.len() {
        true
    } else {
        all_measurable(nodes, n - 1) && measurable(nodes[n - 1])
    }
}

pub proof fn lemma_all_measurable(nodes: Seq<NodeView>, n: int, k: int)
    requires
        0 <= k < n <= nodes.len(),
        all_measurable(nodes, n),
    ensures
        measurable(nodes[k]),
    decreases n,
{
    if k < n - 1 {
        lemma_all_measurable(nodes, n - 1, k);
    }
}

/// Evaluates a length against the space that the parent offers.
pub fn eval_length(length: &Length, available_space: Px, available: Size) -> (r: Px)
    ensures
        r == length_value(length@, available_space, available),
    decreases length,
{
    match length {
        Length::Auto => 0,
        Length::Px(value) => *value,
        Length::Percent(value) => px_scale(available_space, *value, 100),
        Length::ParentWidth => available.width,
        Length::ParentHeight => available.height,
        Length::Dynamic(operations) => {
            proof {
                lemma_dynamic_view(*operations);
            }
            if operations.len() == 0 {
                0
            } else {
                let last = &operations[operations.len() - 1];
                assert(operation_views(operations@).last() == last@);
                match last {
                    Operation::Add(a, b) => px_add(
                        eval_length(a, available_space, available),
                        eval_length(b, available_space, available),
                    ),
                    Operation::Sub(a, b) => px_sub(
                        eval_length(a, available_space, available),
                        eval_length(b, available_space, available),
                    ),
                    Operation::Mul(a, b) => px_mul(
                        eval_length(a, available_space, available),
                        eval_length(b, available_space, available),
                    ),
                    Operation::Div(a, b) => px_div(
                        eval_length(a, available_space, available),
                        eval_length(b, available_space, available),
                    ),
                }
            }
        },
    }
}

fn explicit_or(length: &Option<Length>, space: Px, available: Size, fallback: Px) -> (r: Px)
    ensures
        r == size_or(crate::styling::style::optional_length(*length), space, available, fallback),
{
    match length {
        Some(value) => {
            if value.is_auto() {
                fallback
            } else {
                eval_length(value, space, available)
            }
        },
        None => fallback,
    }
}

/// Whether the style leaves the size to the content.
pub fn is_unresolved(length: &Option<Length>) -> (r: bool)
    ensures
        r == unresolved(crate::styling::style::optional_length(*length)),
{
    match length {
        Some(value) => value.is_auto(),
        None => true,
    }
}

fn inset_of(outer: &Rect, padding: &Thickness) -> (r: Rect)
    ensures
        r == inset(*outer, *padding),
{
    Rect::new(
        Point::new(px_add(outer.origin.x, padding.left), px_add(outer.origin.y, padding.top)),
        Size::new(
            px_sub(px_sub(outer.size.width, padding.left), padding.right),
            px_sub(px_sub(outer.size.height, padding.top), padding.bottom),
        ),
    )
}

/// The geometry of one node.
#[derive(Debug)]
pub struct MeasureNode {
    /// The allocated box; its origin lies behind the margin.
    pub outer: Rect,
    /// The box that the padding leaves.
    pub inner: Rect,
    pub children: Vec<MeasureNode>,
}

/// The values of the first `n` measured nodes.
pub open spec fn leading_trees(nodes: Seq<MeasureNode>, n: int) -> Seq<MeasureTree>
    decreases nodes, n,
{
    if n <= 0 || n > nodes.len() {
        Seq::empty()
    } else {
        leading_trees(nodes, n - 1).push(nodes[n - 1].view())
    }
}

impl View for MeasureNode {
    type V = MeasureTree;

    open spec fn view(&self) -> MeasureTree
        decreases self, 0int,
    {
        MeasureTree {
            outer: self.outer,
            inner: self.inner,
            children: leading_trees(self.children@, self.children@.len() as int),
        }
    }
}

/// The values of a sequence of measured nodes.
pub open spec fn tree_views(nodes: Seq<MeasureNode>) -> Seq<MeasureTree> {
    nodes.map_values(|n: MeasureNode| n@)
}

pub proof fn lemma_leading_trees(nodes: Seq<MeasureNode>, n: int)
    requires
        0 <= n <= nodes.len(),
    ensures
        leading_trees(nodes, n) == tree_views(nodes.take(n)),
    decreases n,
{
    if n > 0 {
        lemma_leading_trees(nodes, n - 1);
        let shorter = tree_views(nodes.take(n - 1)).push(nodes[n - 1]@);
        let whole = tree_views(nodes.take(n));
        assert forall|i: int| 0 <= i < n implies shorter[i] == whole[i] by {
            if i < n - 1 {
                assert(nodes.take(n - 1)[i] == nodes.take(n)[i]);
            }
        }
        assert(shorter =~= whole);
    } else {
        assert(leading_trees(nodes, n) =~= tree_views(nodes.take(n)));
    }
}

/// The children of a measured node's value are the values of its children.
pub proof fn lemma_tree_children(node: MeasureNode)
    ensures
        node@.children == tree_views(node.children@),
{
    lemma_leading_trees(node.children@, node.children@.len() as int);
    assert(node.children@.take(node.children@.len() as int) =~= node.children@);
}

pub proof fn lemma_tree_views_push(nodes: Seq<MeasureNode>, node: MeasureNode)
    ensures
        tree_views(nodes.push(node)) == tree_views(nodes).push(node@),
{
    assert(tree_views(nodes.push(node)) =~= tree_views(nodes).push(node@));
}

impl MeasureNode {
    /// The geometry of a childless node in `parent` whose content measures
    /// `size`.
    #[must_use]
    pub fn new(style: &Style, parent: &Rect, size: Size) -> (r: Self)
        ensures
            r@ == leaf(placed_box(style@, *parent, size), style.padding),
    {
        let width = explicit_or(&style.width, parent.size.width, parent.size, size.width);
        let height = explicit_or(&style.height, parent.size.height, parent.size, size.height);
        let origin = if style.position.is_absolute() {
            Point::new(
                px_add(
                    match style.x {
                        Some(x) => x,
                        None => 0,
                    },
                    style.margin.left,
                ),
                px_add(
                    match style.y {
                        Some(y) => y,
                        None => 0,
                    },
                    style.margin.top,
                ),
            )
        } else {
            Point::new(
                px_add(parent.origin.x, style.margin.left),
                px_add(parent.origin.y, style.margin.top),
            )
        };
        let outer = Rect::new(origin, Size::new(width, height));
        let inner = inset_of(&outer, &style.padding);
        let node = MeasureNode { outer, inner, children: Vec::new() };
        proof {
            lemma_tree_children(node);
            assert(node@.children =~= Seq::empty());
        }
        node
    }

    /// The geometry of a childless node that fills `parent`.
    #[must_use]
    pub fn from_parent(style: &Style, parent: &Rect) -> (r: Self)
        ensures
            r@ == leaf(hosted_box(style@, *parent), style.padding),
    {
        let width = explicit_or(
            &style.width,
            parent.size.width,
            parent.size,
            px_sub(parent.size.width, style.margin.right),
        );
        let height = explicit_or(
            &style.height,
            parent.size.height,
            parent.size,
            px_sub(parent.size.height, style.margin.bottom),
        );
        let outer = Rect::new(
            Point::new(
                px_add(parent.origin.x, style.margin.left),
                px_add(parent.origin.y, style.margin.top),
            ),
            Size::new(width, height),
        );
        let inner = inset_of(&outer, &style.padding);
        let node = MeasureNode { outer, inner, children: Vec::new() };
        proof {
            lemma_tree_children(node);
            assert(node@.children =~= Seq::empty());
        }
        node
    }

    /// Moves the node so that a box at `y` holds it below its top margin.
    pub fn set_y(&mut self, style: &Style, y: Px)
        ensures
            final(self)@ == with_y(old(self)@, style@, y),
    {
        proof {
            lemma_tree_children(*self);
        }
        let top = px_add(y, style.margin.top);
        self.outer.origin.y = top;
        self.inner.origin.y = px_add(top, style.padding.top);
        proof {
            lemma_tree_children(*self);
        }
    }

    /// Moves the node so that a box at `x` holds it behind its left margin.
    pub fn set_x(&mut self, style: &Style, x: Px)
        ensures
            final(self)@ == with_x(old(self)@, style@, x),
    {
        proof {
            lemma_tree_children(*self);
        }
        let left = px_add(x, style.margin.left);
        self.outer.origin.x = left;
        self.inner.origin.x = px_add(left, style.padding.left);
        proof {
            lemma_tree_children(*self);
        }
    }

    /// Gives the node a content height of `height`, and the padding round
    /// it.
    pub fn set_height(&mut self, style: &Style, height: Px)
        ensures
            final(self)@ == with_height(old(self)@, style.padding, height),
    {
        proof {
            lemma_tree_children(*self);
        }
        self.outer.size.height = px_add(px_add(height, style.padding.top), style.padding.bottom);
        self.inner.size.height = height;
        proof {
            lemma_tree_children(*self);
        }
    }

    /// Gives the node a content width of `width`, and the padding round it.
    pub fn set_width(&mut self, style: &Style, width: Px)
        ensures
            final(self)@ == with_width(old(self)@, style.padding, width),
    {
        proof {
            lemma_tree_children(*self);
        }
        self.outer.size.width = px_add(px_add(width, style.padding.left), style.padding.right);
        self.inner.size.width = width;
        proof {
            lemma_tree_children(*self);
        }
    }

    /// What is left of the inner box behind `point`.
    #[must_use]
    pub fn offset(&self, point: Point) -> (r: Rect)
        ensures
            r == remainder(self.inner, point),
    {
        Rect::new(
            Point::new(px_add(self.inner.origin.x, point.x), px_add(self.inner.origin.y, point.y)),
            Size::new(
                px_sub(self.inner.size.width, point.x),
                px_sub(self.inner.size.height, point.y),
            ),
        )
    }
}

} // verus!
