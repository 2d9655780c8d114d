//! A context that measures without drawing.

use vstd::prelude::*;
use vstd::string::StrSliceExecFns;
use crate::geometry::{clamp, px_mul, px_times, Px, Rect, Size};
use crate::layout::TextMetrics;
use crate::styling::{Style, StyleView};

verus! {

/// The bounds of a surface, and text measured at a fixed pitch: every
/// character as wide as half the font size.
#[derive(Debug, Clone, Copy, PartialEq, Eq, Structural)]
pub struct Context {
    pub bounds: Rect,
}

/// The width of one character at a fixed pitch: half the font size, and at
/// least one pixel.
pub open spec fn pitch(font_size: Px) -> Px {
    if font_size > 1 {
        (font_size / 2) as Px
    } else {
        1
    }
}

/// How many characters of that pitch a line of `width` takes: at least one.
pub open spec fn line_capacity(font_size: Px, width: Px) -> int {
    if width >= pitch(font_size) {
        width / pitch(font_size)
    } else {
        1
    }
}

/// How many lines `count` characters take.
pub open spec fn line_count(font_size: Px, count: nat, width: Px) -> int {
    if count == 0 {
        0
    } else {
        (count - 1) / line_capacity(font_size, width) + 1
    }
}

/// The longest line and the height of `count` characters at a fixed pitch:
/// lines as high as the font size, each full but the last.
pub open spec fn fixed_pitch(font_size: Px, count: nat, width: Px) -> Size {
    Size {
        width: clamp(
            pitch(font_size) * (if count < line_capacity(font_size, width) {
                count as int
            } else {
                line_capacity(font_size, width)
            }),
        ),
        height: clamp(font_size * line_count(font_size, count, width)),
    }
}

impl Context {
    /// A context for a surface of the given size.
    pub fn new(width: Px, height: Px) -> (r: Self)
        ensures
            r.bounds == (Rect::from_xywh_spec(0, 0, width, height)),
    {
        Self { bounds: Rect::from_xywh(0, 0, width, height) }
    }
}

impl TextMetrics for Context {
    open spec fn fallback_width(&self) -> Px {
        self.bounds.size.width
    }

    open spec fn paragraph(&self, style: StyleView, text: Seq<char>, width: Px) -> Size {
        fixed_pitch(style.font_size.size, text.len(), width)
    }

    fn bounds_width(&self) -> (r: Px) {
        self.bounds.size.width
    }

    fn measure_text(&self, style: &Style, text: &str, width: Px) -> (r: Size) {
        let font_size = style.font_size.size;
        let count: usize = text.unicode_len();
        let advance: Px = if font_size > 1 {
            font_size / 2
        } else {
            1
        };
        let capacity: Px = if width >= advance {
            assert((width as int) / (advance as int) >= 1) by (nonlinear_arith)
                requires
                    width >= advance,
                    advance >= 1,
            ;
            assert((width as int) / (advance as int) <= (width as int)) by (nonlinear_arith)
                requires
                    width >= advance,
                    advance >= 1,
            ;
            width / advance
        } else {
            1
        };
        let lines: usize = if count == 0 {
            0
        } else {
            let above: i128 = (count as i128 - 1) / (capacity as i128);
            assert(0 <= ((count - 1) as int) / (capacity as int) <= count - 1)
                by (nonlinear_arith)
                requires
                    count >= 1,
                    capacity >= 1,
            ;
            (above + 1) as usize
        };
        let longest: Px = if (count as i128) < (capacity as i128) {
            count as Px
        } else {
            capacity
        };
        Size::new(px_mul(advance, longest), px_times(font_size, lines))
    }
}

} // verus!
