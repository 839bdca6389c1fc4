//! The colours in which the kinds of annotation are shown.

use vstd::prelude::*;
use crate::annotation::AnnotationType;

verus! {

/// A colour, by its red, green and blue parts.
#[derive(Clone, Copy, Debug, PartialEq, Eq, Structural)]
pub struct Rgb {
    pub r: u8,
    pub g: u8,
    pub b: u8,
}

/// The colours of a stretch of text; `None` leaves a colour as it is.
#[derive(Clone, Copy, Debug, PartialEq, Eq, Structural)]
pub struct Attribute {
    pub foreground: Option<Rgb>,
    pub background: Option<Rgb>,
}

impl Attribute {
    /// The colours of a kind of annotation: occurrences of the query are
    /// white on green, darker on the selected line, and the rest of the
    /// selected line has a dark background.
    pub open spec fn of(annotation_type: AnnotationType) -> Attribute {
        match annotation_type {
            AnnotationType::Match => Attribute {
                foreground: Some(Rgb { r: 255, g: 255, b: 255 }),
                background: Some(Rgb { r: 150, g: 220, b: 130 }),
            },
            AnnotationType::SelectedMatch => Attribute {
                foreground: Some(Rgb { r: 255, g: 255, b: 255 }),
                background: Some(Rgb { r: 60, g: 150, b: 30 }),
            },
            AnnotationType::Selected => Attribute {
                foreground: None,
                background: Some(Rgb { r: 60, g: 55, b: 30 }),
            },
        }
    }

    /// The colours of a kind of annotation.
    pub fn from(annotation_type: AnnotationType) -> (r: Self)
        ensures
            r == Self::of(annotation_type),
    {
        match annotation_type {
            AnnotationType::Match => Attribute {
                foreground: Some(Rgb { r: 255, g: 255, b: 255 }),
                background: Some(Rgb { r: 150, g: 220, b: 130 }),
            },
            AnnotationType::SelectedMatch => Attribute {
                foreground: Some(Rgb { r: 255, g: 255, b: 255 }),
                background: Some(Rgb { r: 60, g: 150, b: 30 }),
            },
            AnnotationType::Selected => Attribute {
                foreground: None,
                background: Some(Rgb { r: 60, g: 55, b: 30 }),
            },
        }
    }
}

} // verus!
