//! Four-sided measures: margins, paddings, corner radii.

use vstd::prelude::*;
use vstd::std_specs::convert::FromSpecImpl;
use crate::geometry::{Point, Px, Rect, Size};

verus! {

#[derive(Debug, Clone, Copy, PartialEq, Eq, Structural)]
pub struct Thickness {
    pub left: Px,
    pub top: Px,
    pub right: Px,
    pub bottom: Px,
}

impl Thickness {
    /// The same measure on every side.
    pub fn all(value: Px) -> (r: Self)
        ensures
            r == (Thickness { left: value, top: value, right: value, bottom: value }),
    {
        Self { left: value, top: value, right: value, bottom: value }
    }

    /// One measure for top and bottom, one for left and right.
    pub fn axis(vertical: Px, horizontal: Px) -> (r: Self)
        ensures
            r == (Thickness {
                left: horizontal,
                top: vertical,
                right: horizontal,
                bottom: vertical,
            }),
    {
        Self { left: horizontal, top: vertical, right: horizontal, bottom: vertical }
    }

    pub fn custom(left: Px, top: Px, right: Px, bottom: Px) -> (r: Self)
        ensures
            r == (Thickness { left, top, right, bottom }),
    {
        Self { left, top, right, bottom }
    }

    /// The four sides as the four numbers of a rectangle, in the order left,
    /// top, right, bottom.
    pub fn to_rect(self) -> (r: Rect)
        ensures
            r.origin.x == self.left,
            r.origin.y == self.top,
            r.size.width == self.right,
            r.size.height == self.bottom,
    {
        Rect::from_xywh(self.left, self.top, self.right, self.bottom)
    }
}

impl Default for Thickness {
    fn default() -> (r: Self)
        ensures
            r == (Thickness { left: 0, top: 0, right: 0, bottom: 0 }),
    {
        Self { left: 0, top: 0, right: 0, bottom: 0 }
    }
}

impl From<Px> for Thickness {
    fn from(value: Px) -> (r: Self) {
        Thickness { left: value, top: value, right: value, bottom: value }
    }
}

impl FromSpecImpl<Px> for Thickness {
    open spec fn obeys_from_spec() -> bool {
        true
    }

    open spec fn from_spec(value: Px) -> Self {
        Thickness { left: value, top: value, right: value, bottom: value }
    }
}

impl From<Thickness> for Rect {
    fn from(value: Thickness) -> (r: Self) {
        Rect { origin: Point { x: value.left, y: value.top }, size: Size { width: value.right, height: value.bottom } }
    }
}

impl FromSpecImpl<Thickness> for Rect {
    open spec fn obeys_from_spec() -> bool {
        true
    }

    open spec fn from_spec(value: Thickness) -> Self {
        Rect { origin: Point { x: value.left, y: value.top }, size: Size { width: value.right, height: value.bottom } }
    }
}

} // verus!
