//! An encoded image with the size that its decoder reported.

use vstd::prelude::*;
use crate::geometry::{Px, Rect, Size};
use crate::layout::{measured, MeasureNode, TextMetrics};
use crate::node::{ElementView, NodeView};
use crate::styling::Style;

verus! {

#[derive(Debug)]
pub struct ImageElement {
    /// What the image is called in diagnostics.
    pub name: String,
    /// The encoded bytes.
    pub data: Vec<u8>,
    /// The width of the decoded picture.
    pub width: Px,
    /// The height of the decoded picture.
    pub height: Px,
}

impl ImageElement {
    pub fn new(name: &str, data: Vec<u8>, width: Px, height: Px) -> (r: Self)
        ensures
            r.name@ == name@,
            r.data == data,
            r.width == width,
            r.height == height,
    {
        Self { name: name.to_owned(), data, width, height }
    }
}

impl ImageElement {
    /// The geometry of the image in `parent`: as large as the picture where
    /// the style names no size.
    pub fn measure<M: TextMetrics>(&self, metrics: &M, style: &Style, parent: &Rect) -> (r:
        MeasureNode)
        ensures
            r@ == measured(
                NodeView {
                    style: style@,
                    element: ElementView::Image {
                        name: self.name@,
                        bytes: self.data@,
                        width: self.width,
                        height: self.height,
                    },
                },
                *metrics,
                *parent,
            ),
    {
        MeasureNode::new(style, parent, Size::new(self.width, self.height))
    }
}

} // verus!
