//! A paragraph of text.

use vstd::prelude::*;
use crate::geometry::{px_add, Rect, Size};
use crate::layout::{measured, MeasureNode, TextMetrics};
use crate::node::{ElementView, NodeView};
use crate::styling::Style;

verus! {

#[derive(Debug)]
pub struct TextElement {
    pub data: String,
}

impl TextElement {
    #[must_use]
    pub fn new(data: String) -> (r: Self)
        ensures
            r.data == data,
    {
        Self { data }
    }
}

impl TextElement {
    /// The geometry of the text in `parent`: that of its paragraph, laid
    /// out in the parent's width, or in the fallback width where the parent
    /// has none, and one pixel wider than the longest line.
    pub fn measure<M: TextMetrics>(&self, metrics: &M, style: &Style, parent: &Rect) -> (r:
        MeasureNode)
        ensures
            r@ == measured(
                NodeView { style: style@, element: ElementView::Text { data: self.data@ } },
                *metrics,
                *parent,
            ),
    {
        let width = if parent.size.width == 0 {
            metrics.bounds_width()
        } else {
            parent.size.width
        };
        let lines = metrics.measure_text(style, self.data.as_str(), width);
        MeasureNode::new(style, parent, Size::new(px_add(lines.width, 1), lines.height))
    }
}

} // verus!
