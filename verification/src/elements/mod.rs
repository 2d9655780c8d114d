//! What a node holds: a container of one of three kinds, an image or a text.

pub mod container;
pub mod grid;
pub mod image;
pub mod masonry;
pub mod text;

pub use self::container::{ContainerElement, Orientation};
pub use self::grid::{Column, GridElement, GridLength, Row};
pub use self::image::ImageElement;
pub use self::masonry::Masonry;
pub use self::text::TextElement;

use vstd::prelude::*;

verus! {

#[derive(Debug)]
pub enum Element {
    Container(ContainerElement),
    Masonry(Masonry),
    Image(ImageElement),
    Grid(GridElement),
    Text(TextElement),
}

} // verus!
