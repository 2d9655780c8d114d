//! The styled tree.

pub mod builder;

pub use self::builder::NodeBuilder;

use vstd::prelude::*;
use crate::elements::{
    ContainerElement, Element, GridElement, GridLength, ImageElement, Masonry, Orientation,
    TextElement,
};
use crate::geometry::{Px, Rect};
use crate::layout::{measurable, measured, MeasureNode, TextMetrics};
use crate::styling::{Style, StyleView};

verus! {

/// One element of the styled tree.
#[derive(Debug)]
pub struct Node {
    pub style: Style,
    pub element: Element,
}

/// The kinds of node.
#[derive(Debug, Clone, Copy, PartialEq, Eq, Structural)]
pub enum NodeType {
    Container,
    Text,
    Image,
}

/// The mathematical value of an [`Element`].
pub enum ElementView {
    Container { orientation: Orientation, spacing: Px, children: Seq<NodeView> },
    Masonry { spacing: Px, item_width: Px, children: Seq<NodeView> },
    Image { name: Seq<char>, bytes: Seq<u8>, width: Px, height: Px },
    Grid { rows: Seq<GridLength>, columns: Seq<GridLength>, spacing: Px, children: Seq<NodeView> },
    Text { data: Seq<char> },
}

/// The mathematical value of a [`Node`].
pub struct NodeView {
    pub style: StyleView,
    pub element: ElementView,
}

/// The values of the first `n` nodes.
pub open spec fn leading_nodes(nodes: Seq<Node>, n: int) -> Seq<NodeView>
    decreases nodes, 2int + n,
{
    if n <= 0 || n > nodes.len() {
        Seq::empty()
    } else {
        leading_nodes(nodes, n - 1).push(nodes[n - 1].view())
    }
}

impl View for Element {
    type V = ElementView;

    open spec fn view(&self) -> ElementView
        decreases self, 0int,
    {
        match self {
            Element::Container(container) => ElementView::Container {
                orientation: container.orientation,
                spacing: container.spacing,
                children: leading_nodes(container.children@, container.children@.len() as int),
            },
            Element::Masonry(masonry) => ElementView::Masonry {
                spacing: masonry.spacing,
                item_width: masonry.item_width,
                children: leading_nodes(masonry.children@, masonry.children@.len() as int),
            },
            Element::Image(image) => ElementView::Image {
                name: image.name@,
                bytes: image.data@,
                width: image.width,
                height: image.height,
            },
            Element::Grid(grid) => ElementView::Grid {
                rows: grid.rows@.map_values(|row: crate::elements::Row| row.height),
                columns: grid.columns@.map_values(|column: crate::elements::Column| column.width),
                spacing: grid.spacing,
                children: leading_nodes(grid.children@, grid.children@.len() as int),
            },
            Element::Text(text) => ElementView::Text { data: text.data@ },
        }
    }
}

impl View for Node {
    type V = NodeView;

    open spec fn view(&self) -> NodeView
        decreases self, 1int,
    {
        NodeView { style: self.style@, element: self.element.view() }
    }
}

/// The values of a sequence of nodes.
pub open spec fn node_views(nodes: Seq<Node>) -> Seq<NodeView> {
    nodes.map_values(|n: Node| n@)
}

pub proof fn lemma_leading_nodes(nodes: Seq<Node>, n: int)
    requires
        0 <= n <= nodes.len(),
    ensures
        leading_nodes(nodes, n) == node_views(nodes.take(n)),
    decreases n,
{
    if n > 0 {
        lemma_leading_nodes(nodes, n - 1);
        let shorter = node_views(nodes.take(n - 1)).push(nodes[n - 1]@);
        let whole = node_views(nodes.take(n));
        assert forall|i: int| 0 <= i < n implies shorter[i] == whole[i] by {
            if i < n - 1 {
                assert(nodes.take(n - 1)[i] == nodes.take(n)[i]);
            }
        }
        assert(shorter =~= whole);
    } else {
        assert(leading_nodes(nodes, n) =~= node_views(nodes.take(n)));
    }
}

/// The children of a node's value are the values of its children.
pub proof fn lemma_children_views(nodes: Seq<Node>)
    ensures
        leading_nodes(nodes, nodes.len() as int) == node_views(nodes),
{
    lemma_leading_nodes(nodes, nodes.len() as int);
    assert(nodes.take(nodes.len() as int) =~= nodes);
}

/// The grid tracks of a sequence of row definitions.
pub open spec fn row_tracks(rows: Seq<crate::elements::Row>) -> Seq<GridLength> {
    rows.map_values(|row: crate::elements::Row| row.height)
}

/// The grid tracks of a sequence of column definitions.
pub open spec fn column_tracks(columns: Seq<crate::elements::Column>) -> Seq<GridLength> {
    columns.map_values(|column: crate::elements::Column| column.width)
}

impl Node {
    /// The geometry of the node and of all below it, in `parent`.
    pub fn measure<M: TextMetrics>(&self, metrics: &M, parent: &Rect) -> (r: MeasureNode)
        requires
            measurable(self@),
        ensures
            r@ == measured(self@, *metrics, *parent),
        decreases self, 0int,
    {
        match &self.element {
            Element::Container(container) => {
                proof {
                    lemma_children_views(container.children@);
                }
                container.measure(metrics, &self.style, parent)
            },
            Element::Masonry(masonry) => {
                proof {
                    lemma_children_views(masonry.children@);
                }
                masonry.measure(metrics, &self.style, parent)
            },
            Element::Grid(grid) => {
                proof {
                    lemma_children_views(grid.children@);
                }
                grid.measure(metrics, &self.style, parent)
            },
            Element::Image(image) => image.measure(metrics, &self.style, parent),
            Element::Text(text) => text.measure(metrics, &self.style, parent),
        }
    }

    /// Whether every grid in the tree has an explicit width and height.
    pub fn is_measurable(&self) -> (r: bool)
        ensures
            r == measurable(self@),
        decreases self, 0int,
    {
        match &self.element {
            Element::Container(container) => {
                proof {
                    lemma_children_views(container.children@);
                }
                all_nodes_measurable(&container.children)
            },
            Element::Masonry(masonry) => {
                proof {
                    lemma_children_views(masonry.children@);
                }
                all_nodes_measurable(&masonry.children)
            },
            Element::Grid(grid) => {
                proof {
                    lemma_children_views(grid.children@);
                }
                !crate::layout::is_unresolved(&self.style.width) && !crate::layout::is_unresolved(
                    &self.style.height,
                ) && all_nodes_measurable(&grid.children)
            },
            _ => true,
        }
    }

    #[must_use]
    pub fn get_style(&self) -> (r: &Style)
        ensures
            *r == self.style,
    {
        &self.style
    }

    /// The kind of the node; a masonry and a grid count as containers.
    #[must_use]
    pub fn get_ty(&self) -> (r: NodeType)
        ensures
            r == match self@.element {
                ElementView::Image { .. } => NodeType::Image,
                ElementView::Text { .. } => NodeType::Text,
                _ => NodeType::Container,
            },
    {
        match &self.element {
            Element::Image(_) => NodeType::Image,
            Element::Text(_) => NodeType::Text,
            _ => NodeType::Container,
        }
    }
}

fn all_nodes_measurable(nodes: &Vec<Node>) -> (r: bool)
    ensures
        r == crate::layout::all_measurable(node_views(nodes@), nodes.len() as int),
    decreases nodes, 1int,
{
    let ghost views = node_views(nodes@);
    let mut i: usize = 0;
    while i < nodes.len()
        invariant
            i <= nodes.len(),
            views == node_views(nodes@),
            crate::layout::all_measurable(views, i as int),
        decreases nodes.len() - i,
    {
        if !nodes[i].is_measurable() {
            proof {
                if crate::layout::all_measurable(views, nodes.len() as int) {
                    crate::layout::lemma_all_measurable(views, nodes.len() as int, i as int);
                }
            }
            return false;
        }
        i += 1;
    }
    true
}

/// The children of a container of any kind; an image and a text have none.
pub open spec fn children_of(element: ElementView) -> Seq<NodeView> {
    match element {
        ElementView::Container { children, .. } => children,
        ElementView::Masonry { children, .. } => children,
        ElementView::Grid { children, .. } => children,
        _ => Seq::empty(),
    }
}

/// The element with `children` for its own, where it is a container of any
/// kind; an image and a text stay as they are.
pub open spec fn with_children(element: ElementView, children: Seq<NodeView>) -> ElementView {
    match element {
        ElementView::Container { orientation, spacing, children: _ } => ElementView::Container {
            orientation,
            spacing,
            children,
        },
        ElementView::Masonry { spacing, item_width, children: _ } => ElementView::Masonry {
            spacing,
            item_width,
            children,
        },
        ElementView::Grid { rows, columns, spacing, children: _ } => ElementView::Grid {
            rows,
            columns,
            spacing,
            children,
        },
        other => other,
    }
}

/// The element with the gap `spacing` between its children, where it is a
/// container of any kind.
pub open spec fn with_spacing(element: ElementView, spacing: Px) -> ElementView {
    match element {
        ElementView::Container { orientation, spacing: _, children } => ElementView::Container {
            orientation,
            spacing,
            children,
        },
        ElementView::Masonry { spacing: _, item_width, children } => ElementView::Masonry {
            spacing,
            item_width,
            children,
        },
        ElementView::Grid { rows, columns, spacing: _, children } => ElementView::Grid {
            rows,
            columns,
            spacing,
            children,
        },
        other => other,
    }
}

/// The element stacking along `orientation`, where it is a linear flow.
pub open spec fn with_orientation(element: ElementView, orientation: Orientation) -> ElementView {
    match element {
        ElementView::Container { orientation: _, spacing, children } => ElementView::Container {
            orientation,
            spacing,
            children,
        },
        other => other,
    }
}

/// The grid with `rows` behind its rows.
pub open spec fn with_rows(element: ElementView, added: Seq<GridLength>) -> ElementView {
    match element {
        ElementView::Grid { rows, columns, spacing, children } => ElementView::Grid {
            rows: rows + added,
            columns,
            spacing,
            children,
        },
        other => other,
    }
}

/// The grid with `columns` behind its columns.
pub open spec fn with_columns(element: ElementView, added: Seq<GridLength>) -> ElementView {
    match element {
        ElementView::Grid { rows, columns, spacing, children } => ElementView::Grid {
            rows,
            columns: columns + added,
            spacing,
            children,
        },
        other => other,
    }
}

pub proof fn lemma_node_views_push(nodes: Seq<Node>, node: Node)
    ensures
        node_views(nodes.push(node)) == node_views(nodes).push(node@),
{
    assert(node_views(nodes.push(node)) =~= node_views(nodes).push(node@));
}

pub proof fn lemma_node_views_add(nodes: Seq<Node>, more: Seq<Node>)
    ensures
        node_views(nodes + more) == node_views(nodes) + node_views(more),
{
    assert(node_views(nodes + more) =~= node_views(nodes) + node_views(more));
}

impl Element {
    /// Puts `nodes` behind the children of a container of any kind; drops
    /// them for an image or a text.
    pub fn extend(&mut self, nodes: Vec<Node>)
        ensures
            final(self)@ == with_children(
                old(self)@,
                children_of(old(self)@) + node_views(nodes@),
            ),
    {
        let mut nodes = nodes;
        let ghost added = nodes@;
        match self {
            Element::Container(container) => {
                proof {
                    lemma_children_views(container.children@);
                    lemma_children_views(container.children@ + added);
                    lemma_node_views_add(container.children@, added);
                }
                container.children.append(&mut nodes);
            },
            Element::Masonry(masonry) => {
                proof {
                    lemma_children_views(masonry.children@);
                    lemma_children_views(masonry.children@ + added);
                    lemma_node_views_add(masonry.children@, added);
                }
                masonry.children.append(&mut nodes);
            },
            Element::Grid(grid) => {
                proof {
                    lemma_children_views(grid.children@);
                    lemma_children_views(grid.children@ + added);
                    lemma_node_views_add(grid.children@, added);
                }
                grid.children.append(&mut nodes);
            },
            _ => {},
        }
    }

    /// Sets the gap between the children of a container of any kind.
    pub fn set_spacing(&mut self, spacing: Px)
        ensures
            final(self)@ == with_spacing(old(self)@, spacing),
    {
        match self {
            Element::Container(container) => {
                container.spacing = spacing;
            },
            Element::Masonry(masonry) => {
                masonry.spacing = spacing;
            },
            Element::Grid(grid) => {
                grid.spacing = spacing;
            },
            _ => {},
        }
    }

    /// Sets the axis of a linear flow.
    pub fn set_orientation(&mut self, orientation: Orientation)
        ensures
            final(self)@ == with_orientation(old(self)@, orientation),
    {
        match self {
            Element::Container(container) => {
                container.orientation = orientation;
            },
            _ => {},
        }
    }
}

impl Node {
    /// A builder for a container that stacks downwards.
    #[must_use]
    pub fn column() -> (r: NodeBuilder)
        ensures
            r@ == (NodeView {
                style: crate::styling::style::plain_style(1),
                element: ElementView::Container {
                    orientation: Orientation::Vertical,
                    spacing: 0,
                    children: Seq::empty(),
                },
            }),
    {
        let element = ContainerElement::column();
        proof {
            lemma_children_views(element.children@);
            assert(node_views(element.children@) =~= Seq::empty());
        }
        NodeBuilder::new(Element::Container(element))
    }

    /// A builder for a container that stacks rightwards.
    #[must_use]
    pub fn row() -> (r: NodeBuilder)
        ensures
            r@ == (NodeView {
                style: crate::styling::style::plain_style(1),
                element: ElementView::Container {
                    orientation: Orientation::Horizontal,
                    spacing: 0,
                    children: Seq::empty(),
                },
            }),
    {
        let element = ContainerElement::row();
        proof {
            lemma_children_views(element.children@);
            assert(node_views(element.children@) =~= Seq::empty());
        }
        NodeBuilder::new(Element::Container(element))
    }

    /// A builder for a grid without tracks.
    #[must_use]
    pub fn grid() -> (r: NodeBuilder)
        ensures
            r@ == (NodeView {
                style: crate::styling::style::plain_style(1),
                element: ElementView::Grid {
                    rows: Seq::empty(),
                    columns: Seq::empty(),
                    spacing: 0,
                    children: Seq::empty(),
                },
            }),
    {
        let element = GridElement::default();
        proof {
            lemma_children_views(element.children@);
            assert(node_views(element.children@) =~= Seq::empty());
            assert(row_tracks(element.rows@) =~= Seq::empty());
            assert(column_tracks(element.columns@) =~= Seq::empty());
        }
        NodeBuilder::new(Element::Grid(element))
    }

    /// A builder for a masonry with columns of at least `item_width`.
    #[must_use]
    pub fn masonry(item_width: Px) -> (r: NodeBuilder)
        ensures
            r@ == (NodeView {
                style: crate::styling::style::plain_style(1),
                element: ElementView::Masonry { spacing: 0, item_width, children: Seq::empty() },
            }),
    {
        let element = Masonry::new(item_width);
        proof {
            lemma_children_views(element.children@);
            assert(node_views(element.children@) =~= Seq::empty());
        }
        NodeBuilder::new(Element::Masonry(element))
    }

    /// A builder for a text.
    pub fn text(data: &str) -> (r: NodeBuilder)
        ensures
            r@ == (NodeView {
                style: crate::styling::style::plain_style(1),
                element: ElementView::Text { data: data@ },
            }),
    {
        NodeBuilder::new(Element::Text(TextElement::new(data.to_owned())))
    }

    /// A builder for an image of the given encoded bytes and decoded size.
    #[must_use]
    pub fn image(name: &str, data: Vec<u8>, width: Px, height: Px) -> (r: NodeBuilder)
        ensures
            r@ == (NodeView {
                style: crate::styling::style::plain_style(1),
                element: ElementView::Image { name: name@, bytes: data@, width, height },
            }),
    {
        NodeBuilder::new(Element::Image(ImageElement::new(name, data, width, height)))
    }

    /// A builder that goes on from this node.
    #[must_use]
    pub fn into_builder(self) -> (r: NodeBuilder)
        ensures
            r@ == self@,
    {
        NodeBuilder { style: self.style, element: self.element }
    }
}

} // verus!
