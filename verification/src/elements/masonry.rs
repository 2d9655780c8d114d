//! Columns of one width, each stacking its own items.

use vstd::prelude::*;
use crate::geometry::{px_add, px_div, px_mul, px_sub, Px, Rect};
use crate::layout::{
    all_measurable, lemma_all_measurable, lemma_tree_children, lemma_tree_views_push,
    masonry_columns, masonry_item_width, measured, tiles, tree_views, MeasureNode, TextMetrics,
};
use crate::node::{node_views, ElementView, Node, NodeView};
use crate::styling::Style;

verus! {

#[derive(Debug)]
pub struct Masonry {
    pub spacing: Px,
    /// The least width of a column.
    pub item_width: Px,
    pub children: Vec<Node>,
}

impl Masonry {
    #[must_use]
    pub fn new(item_width: Px) -> (r: Self)
        ensures
            r.item_width == item_width,
            r.spacing == 0,
            r.children@.len() == 0,
    {
        Self { spacing: 0, item_width, children: Vec::new() }
    }
}

impl Masonry {
    /// The value of a masonry node with this element and `style`.
    pub open spec fn as_node(&self, style: Style) -> NodeView {
        NodeView {
            style: style@,
            element: ElementView::Masonry {
                spacing: self.spacing,
                item_width: self.item_width,
                children: node_views(self.children@),
            },
        }
    }

    /// How many columns fit in `available_width`; at least one.
    pub fn columns(&self, available_width: Px) -> (r: Px)
        ensures
            r == masonry_columns(available_width, self.item_width, self.spacing),
            r >= 1,
    {
        let pitch = px_add(self.item_width, self.spacing);
        if pitch > 0 && available_width >= pitch {
            assert((available_width as int) / (pitch as int) >= 1) by (nonlinear_arith)
                requires
                    available_width >= pitch,
                    pitch > 0,
            ;
            assert((available_width as int) / (pitch as int) <= (available_width as int)) by (nonlinear_arith)
                requires
                    available_width >= pitch,
                    pitch > 0,
            ;
            available_width / pitch
        } else {
            if pitch > 0 {
                assert((available_width as int) / (pitch as int) < 1int) by (nonlinear_arith)
                    requires
                        available_width < pitch,
                        pitch > 0,
                ;
            }
            1
        }
    }

    /// The width of each column, so that the columns and the gaps between
    /// them fill `available_width`.
    pub fn item_width(&self, available_width: Px) -> (r: Px)
        ensures
            r == masonry_item_width(available_width, self.item_width, self.spacing),
    {
        let columns = self.columns(available_width);
        px_div(px_sub(available_width, px_mul(self.spacing, columns - 1)), columns)
    }

    /// The geometry of the masonry in `parent`: its children dealt out to
    /// the columns in declared order, each below the one before it in its
    /// column.
    pub fn measure<M: TextMetrics>(&self, metrics: &M, style: &Style, parent: &Rect) -> (r:
        MeasureNode)
        requires
            all_measurable(node_views(self.children@), self.children.len() as int),
        ensures
            r@ == measured(self.as_node(*style), *metrics, *parent),
        decreases self, 0int,
    {
        let mut node = MeasureNode::from_parent(style, parent);
        let ghost base = node@;
        let ghost kids = node_views(self.children@);
        let columns = self.columns(node.inner.size.width);
        let width = self.item_width(node.inner.size.width);
        let pitch = px_add(width, self.spacing);
        let mut k: usize = 0;
        proof {
            lemma_tree_children(node);
            assert(tree_views(node.children@).len() == 0);
        }
        while k < self.children.len()
            invariant
                k <= self.children.len(),
                kids == node_views(self.children@),
                all_measurable(kids, self.children.len() as int),
                node.outer == base.outer,
                node.inner == base.inner,
                node.children.len() == k,
                columns == masonry_columns(base.inner.size.width, self.item_width, self.spacing),
                columns >= 1,
                width == masonry_item_width(
                    base.inner.size.width,
                    self.item_width,
                    self.spacing,
                ),
                pitch == crate::geometry::clamp(width + self.spacing),
                tree_views(node.children@) == tiles(
                    kids,
                    k as int,
                    self.item_width,
                    self.spacing,
                    base.inner,
                    *metrics,
                ),
            decreases self.children.len() - k,
        {
            let child = &self.children[k];
            proof {
                lemma_all_measurable(kids, self.children.len() as int, k as int);
            }
            let ghost before = node.children@;
            let column: Px = ((k as i128) % (columns as i128)) as Px;
            let y = if (k as i128) < (columns as i128) {
                node.inner.origin.y
            } else {
                let above = &node.children[k - columns as usize];
                px_add(px_add(above.outer.origin.y, above.outer.size.height), self.spacing)
            };
            let x = px_add(node.inner.origin.x, px_mul(pitch, column));
            let mut tile = MeasureNode::from_parent(
                &child.style,
                &Rect::from_xywh(x, y, width, 0),
            );
            let content = child.measure(metrics, &tile.inner);
            tile.set_height(&child.style, content.outer.size.height);
            proof {
                lemma_tree_children(content);
            }
            tile.children = content.children;
            proof {
                lemma_tree_children(tile);
                lemma_tree_views_push(before, tile);
            }
            node.children.push(tile);
            k += 1;
        }
        proof {
            lemma_tree_children(node);
        }
        node
    }
}

} // verus!
