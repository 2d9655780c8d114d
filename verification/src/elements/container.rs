//! The linear flow: children stacked along one axis.

use vstd::prelude::*;
use crate::geometry::{px_add, Point, Px, Rect};
use crate::layout::{
    all_measurable, along, flow, is_unresolved, lemma_all_measurable, lemma_tree_children,
    lemma_tree_views_push, measured, tree_views, Flow, MeasureNode, TextMetrics,
};
use crate::node::{node_views, ElementView, Node, NodeView};
use crate::styling::Style;

verus! {

/// The axis along which a container stacks its children.
#[derive(Debug, Clone, Copy, PartialEq, Eq, Structural)]
pub enum Orientation {
    Vertical,
    Horizontal,
}

impl Default for Orientation {
    fn default() -> (r: Self)
        ensures
            r == Orientation::Vertical,
    {
        Orientation::Vertical
    }
}

#[derive(Debug)]
pub struct ContainerElement {
    pub orientation: Orientation,
    /// The gap between two children of the flow.
    pub spacing: Px,
    pub children: Vec<Node>,
}

impl ContainerElement {
    /// An empty container that stacks downwards.
    #[must_use]
    pub fn column() -> (r: Self)
        ensures
            r.orientation == Orientation::Vertical,
            r.spacing == 0,
            r.children@.len() == 0,
    {
        Self { orientation: Orientation::Vertical, spacing: 0, children: Vec::new() }
    }

    /// A container that stacks `children` downwards.
    #[must_use]
    pub fn column_of(children: Vec<Node>) -> (r: Self)
        ensures
            r.orientation == Orientation::Vertical,
            r.spacing == 0,
            r.children == children,
    {
        Self { orientation: Orientation::Vertical, spacing: 0, children }
    }

    /// A container that stacks `children` rightwards.
    #[must_use]
    pub fn row_of(children: Vec<Node>) -> (r: Self)
        ensures
            r.orientation == Orientation::Horizontal,
            r.spacing == 0,
            r.children == children,
    {
        Self { orientation: Orientation::Horizontal, spacing: 0, children }
    }

    /// An empty container that stacks rightwards.
    #[must_use]
    pub fn row() -> (r: Self)
        ensures
            r.orientation == Orientation::Horizontal,
            r.spacing == 0,
            r.children@.len() == 0,
    {
        Self { orientation: Orientation::Horizontal, spacing: 0, children: Vec::new() }
    }
}

impl ContainerElement {
    /// The value of a container node with this element and `style`.
    pub open spec fn as_node(&self, style: Style) -> NodeView {
        NodeView {
            style: style@,
            element: ElementView::Container {
                orientation: self.orientation,
                spacing: self.spacing,
                children: node_views(self.children@),
            },
        }
    }

    /// The geometry of the container in `parent`: its children stacked
    /// along the axis in declared order.
    pub fn measure<M: TextMetrics>(&self, metrics: &M, style: &Style, parent: &Rect) -> (r:
        MeasureNode)
        requires
            all_measurable(node_views(self.children@), self.children.len() as int),
        ensures
            r@ == measured(self.as_node(*style), *metrics, *parent),
        decreases self, 0int,
    {
        let mut node = MeasureNode::new(style, parent, parent.size);
        let ghost base = node@;
        let ghost kids = node_views(self.children@);
        let mut main: Px = 0;
        let mut cross: Px = 0;
        let mut placed = false;
        let mut i: usize = 0;
        proof {
            lemma_tree_children(node);
        }
        while i < self.children.len()
            invariant
                i <= self.children.len(),
                kids == node_views(self.children@),
                all_measurable(kids, self.children.len() as int),
                node.outer == base.outer,
                node.inner == base.inner,
                (Flow { main, cross, placed, nodes: tree_views(node.children@) }) == flow(
                    kids,
                    i as int,
                    self.orientation,
                    self.spacing,
                    base.inner,
                    *metrics,
                ),
            decreases self.children.len() - i,
        {
            let child = &self.children[i];
            proof {
                lemma_all_measurable(kids, self.children.len() as int, i as int);
            }
            let ghost before = node.children@;
            if child.style.position.is_relative() {
                let start = if placed {
                    px_add(main, self.spacing)
                } else {
                    main
                };
                let step = match self.orientation {
                    Orientation::Vertical => Point::new(0, start),
                    Orientation::Horizontal => Point::new(start, 0),
                };
                let tree = child.measure(metrics, &node.offset(step));
                match self.orientation {
                    Orientation::Vertical => {
                        main = px_add(start, tree.outer.size.height);
                        if tree.outer.size.width > cross {
                            cross = tree.outer.size.width;
                        }
                    },
                    Orientation::Horizontal => {
                        main = px_add(start, tree.outer.size.width);
                        if tree.outer.size.height > cross {
                            cross = tree.outer.size.height;
                        }
                    },
                }
                placed = true;
                proof {
                    lemma_tree_views_push(before, tree);
                }
                node.children.push(tree);
            } else {
                let tree = child.measure(metrics, &node.inner);
                proof {
                    lemma_tree_views_push(before, tree);
                }
                node.children.push(tree);
            }
            i += 1;
        }
        proof {
            lemma_tree_children(node);
        }
        let (width, height) = match self.orientation {
            Orientation::Vertical => (cross, main),
            Orientation::Horizontal => (main, cross),
        };
        if is_unresolved(&style.width) {
            node.set_width(style, width);
        }
        if is_unresolved(&style.height) {
            node.set_height(style, height);
        }
        node
    }
}

} // verus!
