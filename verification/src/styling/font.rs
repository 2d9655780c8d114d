//! Font properties of a style.

use vstd::prelude::*;
use crate::geometry::Px;

verus! {

#[derive(Debug, Clone, Copy, PartialEq, Eq, Structural)]
pub enum FontWeight {
    Light,
    Normal,
    Bold,
}

impl Default for FontWeight {
    fn default() -> (r: Self)
        ensures
            r == FontWeight::Normal,
    {
        FontWeight::Normal
    }
}

#[derive(Debug, Clone, Copy, PartialEq, Eq, Structural)]
pub enum FontSlant {
    Upright,
    Italic,
    Oblique,
}

impl Default for FontSlant {
    fn default() -> (r: Self)
        ensures
            r == FontSlant::Upright,
    {
        FontSlant::Upright
    }
}

#[derive(Debug, Clone, Copy, PartialEq, Eq, Structural)]
pub struct FontSize {
    pub size: Px,
}

impl FontSize {
    #[must_use]
    pub fn new(size: Px) -> (r: Self)
        ensures
            r.size == size,
    {
        Self { size }
    }
}

impl Default for FontSize {
    fn default() -> (r: Self)
        ensures
            r.size == 12,
    {
        Self::new(12)
    }
}

#[derive(Debug)]
pub struct FontFamily {
    pub family: String,
}

impl View for FontFamily {
    type V = Seq<char>;

    open spec fn view(&self) -> Seq<char> {
        self.family@
    }
}

impl FontFamily {
    pub fn new(family: &str) -> (r: Self)
        ensures
            r@ == family@,
    {
        Self { family: family.to_owned() }
    }
}

impl Clone for FontFamily {
    fn clone(&self) -> (r: Self)
        ensures
            r@ == self@,
    {
        Self { family: self.family.clone() }
    }
}

impl Default for FontFamily {
    fn default() -> (r: Self)
        ensures
            r@ == "Arial"@,
    {
        Self::new("Arial")
    }
}

} // verus!
