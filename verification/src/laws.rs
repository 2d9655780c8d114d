//! What holds of every layout.

use vstd::prelude::*;
use crate::elements::{GridLength, Orientation};
use crate::geometry::{clamp, Px, Rect, Size};
use crate::layout::{
    budget, cell_box, cells, cross_extent, flow, length_value, main_extent, masonry_columns,
    masonry_item_width, measured, tiles, track_size, track_sizes, unresolved, MeasureTree,
    TextMetrics,
};
use crate::node::{children_of, ElementView, NodeView};
use crate::styling::{LengthView, Position};

verus! {

/// A percentage of a space is that many hundredths of it, rounded down, as
/// long as that is a pixel value; a length in pixels is those pixels.
pub proof fn law_percent_and_pixels(percent: Px, pixels: Px, space: Px, available: Size)
    requires
        Px::MIN <= space * percent / 100 <= Px::MAX,
    ensures
        length_value(LengthView::Percent(percent), space, available) == space * percent / 100,
        length_value(LengthView::Px(pixels), space, available) == pixels,
{
}

/// How many of the first `n` children stand in the flow.
pub open spec fn flow_count(children: Seq<NodeView>, n: int) -> int
    decreases n,
{
    if n <= 0 || n > children.len() {
        0
    } else {
        flow_count(children, n - 1) + if children[n - 1].style.position == Position::Relative {
            1int
        } else {
            0int
        }
    }
}

/// The extents along the axis of those of the first `n` children that stand
/// in the flow, summed.
pub open spec fn main_sum(
    children: Seq<NodeView>,
    trees: Seq<MeasureTree>,
    n: int,
    axis: Orientation,
) -> int
    decreases n,
{
    if n <= 0 || n > children.len() || n > trees.len() {
        0
    } else {
        main_sum(children, trees, n - 1, axis) + if children[n - 1].style.position
            == Position::Relative {
            main_extent(axis, trees[n - 1].outer.size) as int
        } else {
            0int
        }
    }
}

/// The largest extent across the axis of those of the first `n` children
/// that stand in the flow; none where no child stands in it.
pub open spec fn widest(
    children: Seq<NodeView>,
    trees: Seq<MeasureTree>,
    n: int,
    axis: Orientation,
) -> Option<int>
    decreases n,
{
    if n <= 0 || n > children.len() || n > trees.len() {
        None
    } else {
        let before = widest(children, trees, n - 1, axis);
        if children[n - 1].style.position == Position::Relative {
            let extent = cross_extent(axis, trees[n - 1].outer.size) as int;
            match before {
                Some(largest) if largest >= extent => Some(largest),
                _ => Some(extent),
            }
        } else {
            before
        }
    }
}

/// How far a flow reaches across its axis: as far as its widest child, and
/// not at all where no child reaches beyond its start.
pub open spec fn breadth(
    children: Seq<NodeView>,
    trees: Seq<MeasureTree>,
    n: int,
    axis: Orientation,
) -> int {
    match widest(children, trees, n, axis) {
        Some(largest) if largest > 0 => largest,
        _ => 0,
    }
}

/// How far the first `n` children reach along the axis: the extents of
/// those in the flow, and one spacing between each two of them.
pub open spec fn reach(
    children: Seq<NodeView>,
    trees: Seq<MeasureTree>,
    n: int,
    axis: Orientation,
    spacing: Px,
) -> int {
    if flow_count(children, n) > 0 {
        main_sum(children, trees, n, axis) + spacing * (flow_count(children, n) - 1)
    } else {
        0
    }
}

/// Whether a number is a pixel value.
pub open spec fn in_range(value: int) -> bool {
    Px::MIN <= value <= Px::MAX
}

/// Whether no partial sum of the flow through the first `n` children leaves
/// the pixel range: neither where a child of the flow starts, one spacing
/// behind the child before it, nor where it ends.
pub open spec fn flow_fits(
    children: Seq<NodeView>,
    trees: Seq<MeasureTree>,
    n: int,
    axis: Orientation,
    spacing: Px,
) -> bool
    decreases n,
{
    if n <= 0 || n > children.len() || n > trees.len() {
        true
    } else {
        &&& flow_fits(children, trees, n - 1, axis, spacing)
        &&& children[n - 1].style.position == Position::Relative ==> {
            &&& flow_count(children, n - 1) > 0 ==> in_range(
                reach(children, trees, n - 1, axis, spacing) + spacing,
            )
            &&& in_range(reach(children, trees, n, axis, spacing))
        }
    }
}

/// The children that a flow has measured stay as they are when it goes on.
pub proof fn lemma_flow_nodes<M: TextMetrics>(
    children: Seq<NodeView>,
    n: int,
    k: int,
    axis: Orientation,
    spacing: Px,
    inner: Rect,
    metrics: M,
)
    requires
        0 <= k <= n <= children.len(),
    ensures
        flow(children, n, axis, spacing, inner, metrics).nodes.len() == n,
        flow(children, k, axis, spacing, inner, metrics).nodes == flow(
            children,
            n,
            axis,
            spacing,
            inner,
            metrics,
        ).nodes.take(k),
    decreases n,
{
    let whole = flow(children, n, axis, spacing, inner, metrics).nodes;
    if n > 0 {
        lemma_flow_nodes(children, n - 1, if k < n {
            k
        } else {
            n - 1
        }, axis, spacing, inner, metrics);
        let shorter = flow(children, n - 1, axis, spacing, inner, metrics).nodes;
        assert(whole.take(n - 1) =~= shorter);
        if k < n {
            assert(shorter.take(k) =~= whole.take(k));
        } else {
            assert(whole.take(n) =~= whole);
        }
    } else {
        assert(whole.take(0) =~= whole);
    }
}

proof fn lemma_sums_of_prefix(
    children: Seq<NodeView>,
    trees: Seq<MeasureTree>,
    n: int,
    m: int,
    axis: Orientation,
    spacing: Px,
)
    requires
        0 <= n <= m <= trees.len(),
        n <= children.len(),
    ensures
        main_sum(children, trees.take(m), n, axis) == main_sum(children, trees, n, axis),
        widest(children, trees.take(m), n, axis) == widest(children, trees, n, axis),
        reach(children, trees.take(m), n, axis, spacing) == reach(
            children,
            trees,
            n,
            axis,
            spacing,
        ),
        flow_fits(children, trees.take(m), n, axis, spacing) == flow_fits(
            children,
            trees,
            n,
            axis,
            spacing,
        ),
    decreases n,
{
    if n > 0 {
        lemma_sums_of_prefix(children, trees, n - 1, m, axis, spacing);
    }
}

proof fn lemma_no_flow_no_sum(
    children: Seq<NodeView>,
    trees: Seq<MeasureTree>,
    n: int,
    axis: Orientation,
)
    requires
        0 <= n <= children.len(),
        flow_count(children, n) == 0,
    ensures
        main_sum(children, trees, n, axis) == 0,
        widest(children, trees, n, axis) is None,
    decreases n,
{
    if n > 0 {
        lemma_flow_count_grows(children, n - 1, n);
        lemma_no_flow_no_sum(children, trees, n - 1, axis);
    }
}

proof fn lemma_flow_count_grows(children: Seq<NodeView>, k: int, n: int)
    requires
        0 <= k <= n <= children.len(),
    ensures
        0 <= flow_count(children, k) <= flow_count(children, n),
    decreases n,
{
    if n > 0 {
        lemma_flow_count_grows(children, if k < n {
            k
        } else {
            n - 1
        }, n - 1);
    }
}

/// Where every child stands in the flow, the flow counts them all.
pub proof fn law_flow_of_all(children: Seq<NodeView>, n: int)
    requires
        0 <= n <= children.len(),
        forall|i: int| 0 <= i < n ==> (#[trigger] children[i]).style.position == Position::Relative,
    ensures
        flow_count(children, n) == n,
    decreases n,
{
    if n > 0 {
        law_flow_of_all(children, n - 1);
    }
}

/// A linear flow reaches, along its axis, as far as the extents of its
/// children and one spacing between each two of them add up to, as long as
/// no partial sum leaves the pixel range; across the axis it reaches as far
/// as its widest child, and that is the largest of the children's extents
/// unless all of them are negative. Absolute children count for nothing.
pub proof fn law_flow_extent<M: TextMetrics>(
    children: Seq<NodeView>,
    n: int,
    axis: Orientation,
    spacing: Px,
    inner: Rect,
    metrics: M,
)
    requires
        0 <= n <= children.len(),
    ensures
        ({
            let end = flow(children, n, axis, spacing, inner, metrics);
            &&& end.nodes.len() == n
            &&& end.placed == (flow_count(children, n) > 0)
            &&& end.cross == breadth(children, end.nodes, n, axis)
            &&& (widest(children, end.nodes, n, axis) matches Some(largest) ==> largest >= 0
                ==> end.cross == largest)
            &&& flow_fits(children, end.nodes, n, axis, spacing) ==> end.main == reach(
                children,
                end.nodes,
                n,
                axis,
                spacing,
            )
        }),
    decreases n,
{
    let end = flow(children, n, axis, spacing, inner, metrics);
    lemma_flow_nodes(children, n, n, axis, spacing, inner, metrics);
    if n > 0 {
        let before = flow(children, n - 1, axis, spacing, inner, metrics);
        lemma_flow_nodes(children, n, n - 1, axis, spacing, inner, metrics);
        lemma_sums_of_prefix(children, end.nodes, n - 1, n - 1, axis, spacing);
        lemma_flow_count_grows(children, n - 1, n);
        law_flow_extent(children, n - 1, axis, spacing, inner, metrics);
        let count = flow_count(children, n);
        let fewer = flow_count(children, n - 1);
        if children[n - 1].style.position == Position::Relative {
            let extent = main_extent(axis, end.nodes[n - 1].outer.size);
            assert(count == fewer + 1);
            if fewer == 0 {
                lemma_no_flow_no_sum(children, end.nodes, n - 1, axis);
                assert(spacing * (count - 1) == 0) by (nonlinear_arith)
                    requires
                        count == 1,
                ;
            } else {
                assert(spacing * (count - 1) == spacing * (fewer - 1) + spacing)
                    by (nonlinear_arith)
                    requires
                        count == fewer + 1,
                ;
            }
            if flow_fits(children, end.nodes, n, axis, spacing) {
                let start = if before.placed {
                    clamp(before.main + spacing)
                } else {
                    before.main
                };
                assert(before.main == reach(children, end.nodes, n - 1, axis, spacing));
                assert(end.main == clamp(start + extent));
                assert(start + extent == reach(children, end.nodes, n, axis, spacing));
            }
        }
    }
}

/// The content box of a container whose style leaves the height to the
/// content is as high as its flow reaches: for a column, the heights of the
/// children in the flow and one spacing between each two of them, as long
/// as no partial sum leaves the pixel range; for a row, the height of the
/// highest child. The outer box is higher by the padding above and below,
/// as long as that is a pixel value.
pub proof fn law_auto_height<M: TextMetrics>(node: NodeView, metrics: M, parent: Rect)
    requires
        node.element is Container,
        unresolved(node.style.height),
    ensures
        ({
            let tree = measured(node, metrics, parent);
            let children = node.element->Container_children;
            let spacing = node.element->Container_spacing;
            let count = children.len() as int;
            let padding = node.style.padding;
            let height = tree.inner.size.height;
            &&& tree.children.len() == count
            &&& node.element->Container_orientation == Orientation::Horizontal ==> height
                == breadth(children, tree.children, count, Orientation::Horizontal)
            &&& node.element->Container_orientation == Orientation::Vertical && flow_fits(
                children,
                tree.children,
                count,
                Orientation::Vertical,
                spacing,
            ) ==> height == reach(children, tree.children, count, Orientation::Vertical, spacing)
            &&& in_range(height + padding.top) && in_range(height + padding.top + padding.bottom)
                ==> tree.outer.size.height == height + padding.top + padding.bottom
        }),
{
    let children = node.element->Container_children;
    let base = crate::layout::leaf(
        crate::layout::placed_box(node.style, parent, parent.size),
        node.style.padding,
    );
    law_flow_extent(
        children,
        children.len() as int,
        node.element->Container_orientation,
        node.element->Container_spacing,
        base.inner,
        metrics,
    );
}

/// The content box of a container whose style leaves the width to the
/// content is as wide as its flow reaches: for a column, the width of the
/// widest child; for a row, the widths of the children in the flow and one
/// spacing between each two of them, as long as no partial sum leaves the
/// pixel range. The outer box is wider by the padding left and right, as
/// long as that is a pixel value.
pub proof fn law_auto_width<M: TextMetrics>(node: NodeView, metrics: M, parent: Rect)
    requires
        node.element is Container,
        unresolved(node.style.width),
    ensures
        ({
            let tree = measured(node, metrics, parent);
            let children = node.element->Container_children;
            let spacing = node.element->Container_spacing;
            let count = children.len() as int;
            let padding = node.style.padding;
            let width = tree.inner.size.width;
            &&& tree.children.len() == count
            &&& node.element->Container_orientation == Orientation::Vertical ==> width
                == breadth(children, tree.children, count, Orientation::Vertical)
            &&& node.element->Container_orientation == Orientation::Horizontal && flow_fits(
                children,
                tree.children,
                count,
                Orientation::Horizontal,
                spacing,
            ) ==> width == reach(children, tree.children, count, Orientation::Horizontal, spacing)
            &&& in_range(width + padding.left) && in_range(width + padding.left + padding.right)
                ==> tree.outer.size.width == width + padding.left + padding.right
        }),
{
    let children = node.element->Container_children;
    let base = crate::layout::leaf(
        crate::layout::placed_box(node.style, parent, parent.size),
        node.style.padding,
    );
    law_flow_extent(
        children,
        children.len() as int,
        node.element->Container_orientation,
        node.element->Container_spacing,
        base.inner,
        metrics,
    );
}

/// A masonry of one column gives its items the whole available width.
pub proof fn law_single_column_width(available: Px, item_width: Px, spacing: Px)
    requires
        masonry_columns(available, item_width, spacing) == 1,
    ensures
        masonry_item_width(available, item_width, spacing) == available,
{
    assert(spacing * 0 == 0);
}

/// The weights of the first `n` tracks, summed.
pub open spec fn weight_sum(tracks: Seq<GridLength>, n: int) -> nat
    decreases n,
{
    if n <= 0 || n > tracks.len() {
        0
    } else {
        weight_sum(tracks, n - 1) + match tracks[n - 1] {
            GridLength::Weight(weight) => weight as nat,
            _ => 0nat,
        }
    }
}

proof fn lemma_weighted_budget<M: TextMetrics>(
    children: Seq<NodeView>,
    tracks: Seq<GridLength>,
    n: int,
    axis: Orientation,
    inner: Rect,
    metrics: M,
)
    requires
        0 <= n <= tracks.len(),
        forall|i: int| 0 <= i < tracks.len() ==> #[trigger] tracks[i] is Weight,
    ensures
        budget(children, tracks, n, axis, inner, metrics).available == main_extent(
            axis,
            inner.size,
        ),
        budget(children, tracks, n, axis, inner, metrics).weight == weight_sum(tracks, n),
    decreases n,
{
    if n > 0 {
        lemma_weighted_budget(children, tracks, n - 1, axis, inner, metrics);
        assert(tracks[n - 1] is Weight);
    }
}

proof fn lemma_weight_in_sum(tracks: Seq<GridLength>, n: int, index: int)
    requires
        0 <= index < n <= tracks.len(),
        tracks[index] is Weight,
    ensures
        tracks[index]->Weight_0 <= weight_sum(tracks, n),
    decreases n,
{
    if index < n - 1 {
        lemma_weight_in_sum(tracks, n - 1, index);
    }
}

/// In a grid whose tracks along an axis are all sized by weight, each track
/// gets of the inner extent as many parts as its weight is of the sum of the
/// weights, rounded down, whatever the gap between the tracks.
pub proof fn law_weighted_tracks<M: TextMetrics>(
    children: Seq<NodeView>,
    tracks: Seq<GridLength>,
    index: int,
    axis: Orientation,
    inner: Rect,
    metrics: M,
)
    requires
        0 <= index < tracks.len(),
        forall|i: int| 0 <= i < tracks.len() ==> #[trigger] tracks[i] is Weight,
        weight_sum(tracks, tracks.len() as int) > 0,
    ensures
        track_size(children, tracks, index, axis, inner, metrics) == main_extent(
            axis,
            inner.size,
        ) * tracks[index]->Weight_0 / (weight_sum(tracks, tracks.len() as int) as int),
{
    lemma_weighted_budget(children, tracks, tracks.len() as int, axis, inner, metrics);
    lemma_weight_in_sum(tracks, tracks.len() as int, index);
    let space = main_extent(axis, inner.size) as int;
    let weight = tracks[index]->Weight_0 as int;
    let total = weight_sum(tracks, tracks.len() as int) as int;
    assert(tracks[index] is Weight);
    lemma_share_within(space, weight, total);
}

/// A share of a space lies between nothing and the space.
pub proof fn lemma_share_within(space: int, weight: int, total: int)
    requires
        0 <= weight <= total,
        total > 0,
    ensures
        space >= 0 ==> 0 <= space * weight / total <= space,
        space <= 0 ==> space <= space * weight / total <= 0,
{
    if space >= 0 {
        assert(0 <= space * weight <= space * total) by (nonlinear_arith)
            requires
                space >= 0,
                0 <= weight <= total,
        ;
        vstd::arithmetic::div_mod::lemma_div_is_ordered(0, space * weight, total);
        vstd::arithmetic::div_mod::lemma_div_is_ordered(space * weight, space * total, total);
        vstd::arithmetic::div_mod::lemma_div_multiples_vanish(space, total);
        assert(space * total == total * space) by (nonlinear_arith);
    } else {
        assert(space * total <= space * weight <= 0) by (nonlinear_arith)
            requires
                space <= 0,
                0 <= weight <= total,
        ;
        vstd::arithmetic::div_mod::lemma_div_is_ordered(space * weight, 0, total);
        vstd::arithmetic::div_mod::lemma_div_is_ordered(space * total, space * weight, total);
        vstd::arithmetic::div_mod::lemma_div_multiples_vanish(space, total);
        assert(space * total == total * space) by (nonlinear_arith);
    }
}

proof fn lemma_tiles_count<M: TextMetrics>(
    children: Seq<NodeView>,
    n: int,
    item_width: Px,
    spacing: Px,
    inner: Rect,
    metrics: M,
)
    requires
        0 <= n <= children.len(),
    ensures
        tiles(children, n, item_width, spacing, inner, metrics).len() == n,
    decreases n,
{
    if n > 0 {
        lemma_tiles_count(children, n - 1, item_width, spacing, inner, metrics);
    }
}

proof fn lemma_cells_count<M: TextMetrics>(
    children: Seq<NodeView>,
    n: int,
    row_sizes: Seq<Px>,
    column_sizes: Seq<Px>,
    spacing: Px,
    inner: Rect,
    metrics: M,
)
    requires
        0 <= n <= children.len(),
    ensures
        cells(children, n, row_sizes, column_sizes, spacing, inner, metrics).len() == n,
    decreases n,
{
    if n > 0 {
        lemma_cells_count(children, n - 1, row_sizes, column_sizes, spacing, inner, metrics);
    }
}

/// The geometry of a node has one child for each child of the node, in the
/// same order: none for an image and a text.
pub proof fn law_tree_shape<M: TextMetrics>(node: NodeView, metrics: M, parent: Rect)
    ensures
        measured(node, metrics, parent).children.len() == children_of(node.element).len(),
{
    let style = node.style;
    match node.element {
        ElementView::Container { orientation, spacing, children } => {
            let base = crate::layout::leaf(
                crate::layout::placed_box(style, parent, parent.size),
                style.padding,
            );
            lemma_flow_nodes(
                children,
                children.len() as int,
                0,
                orientation,
                spacing,
                base.inner,
                metrics,
            );
        },
        ElementView::Masonry { spacing, item_width, children } => {
            let base = crate::layout::leaf(crate::layout::hosted_box(style, parent), style.padding);
            lemma_tiles_count(
                children,
                children.len() as int,
                item_width,
                spacing,
                base.inner,
                metrics,
            );
        },
        ElementView::Grid { rows, columns, spacing, children } => {
            let base = crate::layout::leaf(
                crate::layout::placed_box(style, parent, parent.size),
                style.padding,
            );
            lemma_cells_count(
                children,
                children.len() as int,
                crate::layout::track_sizes(
                    children,
                    rows,
                    rows.len() as int,
                    Orientation::Vertical,
                    base.inner,
                    metrics,
                ),
                crate::layout::track_sizes(
                    children,
                    columns,
                    columns.len() as int,
                    Orientation::Horizontal,
                    base.inner,
                    metrics,
                ),
                spacing,
                base.inner,
                metrics,
            );
        },
        _ => {},
    }
}

/// The inner box of a node lies in its outer box, the padding between
/// them: the outer size is the inner size and the padding on each side.
/// This holds wherever the padding is not negative and no side of a box
/// has run into an end of the pixel range.
pub proof fn law_inner_within_outer<M: TextMetrics>(node: NodeView, metrics: M, parent: Rect)
    requires
        node.style.padding.left >= 0,
        node.style.padding.top >= 0,
        node.style.padding.right >= 0,
        node.style.padding.bottom >= 0,
        measured(node, metrics, parent).inner.origin.x < Px::MAX,
        measured(node, metrics, parent).inner.origin.y < Px::MAX,
        measured(node, metrics, parent).inner.size.width > Px::MIN,
        measured(node, metrics, parent).inner.size.height > Px::MIN,
        measured(node, metrics, parent).outer.size.width < Px::MAX,
        measured(node, metrics, parent).outer.size.height < Px::MAX,
    ensures
        ({
            let tree = measured(node, metrics, parent);
            let padding = node.style.padding;
            &&& tree.inner.origin.x == tree.outer.origin.x + padding.left
            &&& tree.inner.origin.y == tree.outer.origin.y + padding.top
            &&& tree.outer.size.width == tree.inner.size.width + padding.left + padding.right
            &&& tree.outer.size.height == tree.inner.size.height + padding.top + padding.bottom
            &&& tree.outer.origin.x <= tree.inner.origin.x
            &&& tree.outer.origin.y <= tree.inner.origin.y
            &&& tree.inner.origin.x + tree.inner.size.width <= tree.outer.origin.x
                + tree.outer.size.width
            &&& tree.inner.origin.y + tree.inner.size.height <= tree.outer.origin.y
                + tree.outer.size.height
        }),
{
}

proof fn lemma_cell<M: TextMetrics>(
    children: Seq<NodeView>,
    n: int,
    k: int,
    row_sizes: Seq<Px>,
    column_sizes: Seq<Px>,
    spacing: Px,
    inner: Rect,
    metrics: M,
)
    requires
        0 <= k < n <= children.len(),
    ensures
        cells(children, n, row_sizes, column_sizes, spacing, inner, metrics)[k] == measured(
            children[k],
            metrics,
            cell_box(children[k].style, row_sizes, column_sizes, spacing, inner),
        ),
    decreases n,
{
    lemma_cells_count(children, n - 1, row_sizes, column_sizes, spacing, inner, metrics);
    if k < n - 1 {
        lemma_cell(children, n - 1, k, row_sizes, column_sizes, spacing, inner, metrics);
    }
}

proof fn lemma_track_sizes_count<M: TextMetrics>(
    children: Seq<NodeView>,
    tracks: Seq<GridLength>,
    n: int,
    axis: Orientation,
    inner: Rect,
    metrics: M,
)
    requires
        0 <= n <= tracks.len(),
    ensures
        track_sizes(children, tracks, n, axis, inner, metrics).len() == n,
    decreases n,
{
    if n > 0 {
        lemma_track_sizes_count(children, tracks, n - 1, axis, inner, metrics);
    }
}

proof fn lemma_track_sizes_at<M: TextMetrics>(
    children: Seq<NodeView>,
    tracks: Seq<GridLength>,
    n: int,
    index: int,
    axis: Orientation,
    inner: Rect,
    metrics: M,
)
    requires
        0 <= index < n <= tracks.len(),
    ensures
        track_sizes(children, tracks, n, axis, inner, metrics).len() == n,
        track_sizes(children, tracks, n, axis, inner, metrics)[index] == track_size(
            children,
            tracks,
            index,
            axis,
            inner,
            metrics,
        ),
    decreases n,
{
    lemma_track_sizes_count(children, tracks, n - 1, axis, inner, metrics);
    if index < n - 1 {
        lemma_track_sizes_at(children, tracks, n - 1, index, axis, inner, metrics);
    }
}

/// The tracks of a grid along the axis: its rows for the vertical one, its
/// columns for the horizontal one.
pub open spec fn tracks_along(element: ElementView, axis: Orientation) -> Seq<GridLength> {
    match axis {
        Orientation::Vertical => element->Grid_rows,
        Orientation::Horizontal => element->Grid_columns,
    }
}

/// The box that the grid `node`, measured in `parent`, allocates to its
/// child `k`.
pub open spec fn cell_of<M: TextMetrics>(node: NodeView, k: int, metrics: M, parent: Rect) -> Rect {
    let children = node.element->Grid_children;
    let rows = node.element->Grid_rows;
    let columns = node.element->Grid_columns;
    let inner = measured(node, metrics, parent).inner;
    cell_box(
        children[k].style,
        track_sizes(children, rows, rows.len() as int, Orientation::Vertical, inner, metrics),
        track_sizes(
            children,
            columns,
            columns.len() as int,
            Orientation::Horizontal,
            inner,
            metrics,
        ),
        node.element->Grid_spacing,
        inner,
    )
}

/// In a grid whose tracks along an axis are all sized by weight, a child
/// that sits in one track alone is measured in a box that has, along the
/// axis, of the grid's inner extent as many parts as the track's weight is
/// of the sum of the weights, rounded down, whatever the gap between the
/// tracks.
pub proof fn law_weighted_cell<M: TextMetrics>(
    node: NodeView,
    k: int,
    axis: Orientation,
    metrics: M,
    parent: Rect,
)
    requires
        node.element is Grid,
        0 <= k < node.element->Grid_children.len(),
        forall|i: int|
            0 <= i < tracks_along(node.element, axis).len() ==> #[trigger] tracks_along(
                node.element,
                axis,
            )[i] is Weight,
        weight_sum(
            tracks_along(node.element, axis),
            tracks_along(node.element, axis).len() as int,
        ) > 0,
        axis == Orientation::Vertical ==> node.element->Grid_children[k].style.row
            < node.element->Grid_rows.len() && node.element->Grid_children[k].style.row_span == 1,
        axis == Orientation::Horizontal ==> node.element->Grid_children[k].style.column
            < node.element->Grid_columns.len() && node.element->Grid_children[k].style.column_span
            == 1,
    ensures
        ({
            let tree = measured(node, metrics, parent);
            let tracks = tracks_along(node.element, axis);
            let style = node.element->Grid_children[k].style;
            let track = match axis {
                Orientation::Vertical => style.row as int,
                Orientation::Horizontal => style.column as int,
            };
            &&& tree.children[k] == measured(
                node.element->Grid_children[k],
                metrics,
                cell_of(node, k, metrics, parent),
            )
            &&& main_extent(axis, cell_of(node, k, metrics, parent).size) == main_extent(
                axis,
                tree.inner.size,
            ) * tracks[track]->Weight_0 / (weight_sum(tracks, tracks.len() as int) as int)
        }),
{
    let children = node.element->Grid_children;
    let rows = node.element->Grid_rows;
    let columns = node.element->Grid_columns;
    let spacing = node.element->Grid_spacing;
    let inner = measured(node, metrics, parent).inner;
    let row_sizes = track_sizes(
        children,
        rows,
        rows.len() as int,
        Orientation::Vertical,
        inner,
        metrics,
    );
    let column_sizes = track_sizes(
        children,
        columns,
        columns.len() as int,
        Orientation::Horizontal,
        inner,
        metrics,
    );
    lemma_cell(children, children.len() as int, k, row_sizes, column_sizes, spacing, inner, metrics);
    let style = children[k].style;
    match axis {
        Orientation::Vertical => {
            lemma_track_sizes_at(
                children,
                rows,
                rows.len() as int,
                style.row as int,
                axis,
                inner,
                metrics,
            );
            law_weighted_tracks(children, rows, style.row as int, axis, inner, metrics);
            assert(crate::layout::added(row_sizes, style.row as int, 1, 0) == clamp(
                crate::layout::added(row_sizes, style.row as int, 0, 0) + row_sizes[style.row as int],
            ));
        },
        Orientation::Horizontal => {
            lemma_track_sizes_at(
                children,
                columns,
                columns.len() as int,
                style.column as int,
                axis,
                inner,
                metrics,
            );
            law_weighted_tracks(children, columns, style.column as int, axis, inner, metrics);
            assert(crate::layout::added(column_sizes, style.column as int, 1, 0) == clamp(
                crate::layout::added(column_sizes, style.column as int, 0, 0)
                    + column_sizes[style.column as int],
            ));
        },
    }
}

} // verus!
