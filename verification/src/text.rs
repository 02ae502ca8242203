//! Text styling vocabulary: fonts, flow and placement of a text block.
use vstd::prelude::*;

verus! {

/// Identifies a font loaded into the text backend.
#[derive(Debug, Clone, Copy, PartialEq, Eq, Default)]
pub struct FontId(pub u32);

/// How text lines flow inside a text block.
#[derive(Debug, Clone, Copy, PartialEq, Eq)]
pub enum TextFlow {
    /// All text on one line.
    SingleLine,
    /// Lines wrap at the available width.
    Wrap,
}

impl TextFlow {
    pub fn single_line() -> (f: Self)
        ensures
            f == TextFlow::SingleLine,
    {
        TextFlow::SingleLine
    }
}

/// Font, size, weight and flow of a run of text.
#[derive(Debug, Clone, Copy, PartialEq)]
pub struct TextStyle<L> {
    pub font: FontId,
    pub size: L,
    pub weight: u16,
    pub flow: TextFlow,
}

impl<L> TextStyle<L> {
    pub fn new(font: FontId, size: L, weight: u16, flow: TextFlow) -> (s: Self)
        ensures
            s == (TextStyle { font, size, weight, flow }),
    {
        TextStyle { font, size, weight, flow }
    }
}

/// Alignment of a block along one axis.
#[derive(Debug, Clone, Copy, PartialEq, Eq)]
pub enum Align {
    Start,
    Center,
    End,
}

/// Placement of a prepared text block along one axis of its rect.
#[derive(Debug, Clone, Copy, PartialEq, Eq)]
pub enum ContentPlacement {
    /// The block spans the whole axis.
    Fill,
    /// The block keeps its own extent and is aligned.
    Align(Align),
}

/// Placement of a prepared text block inside a widget's rect, per axis.
#[derive(Debug, Clone, Copy, PartialEq, Eq)]
pub struct TextContentPlacement {
    pub x: ContentPlacement,
    pub y: ContentPlacement,
}

impl TextContentPlacement {
    /// Placement given by logical (reading-direction) axes.
    pub fn logical(x: ContentPlacement, y: ContentPlacement) -> (p: Self)
        ensures
            p == (TextContentPlacement { x, y }),
    {
        TextContentPlacement { x, y }
    }

    /// Block aligned to the start of both axes.
    pub fn top_left() -> (p: Self)
        ensures
            p == (TextContentPlacement {
                x: ContentPlacement::Align(Align::Start),
                y: ContentPlacement::Align(Align::Start),
            }),
    {
        TextContentPlacement {
            x: ContentPlacement::Align(Align::Start),
            y: ContentPlacement::Align(Align::Start),
        }
    }

    /// Block centred on both axes.
    pub fn center() -> (p: Self)
        ensures
            p == (TextContentPlacement {
                x: ContentPlacement::Align(Align::Center),
                y: ContentPlacement::Align(Align::Center),
            }),
    {
        TextContentPlacement {
            x: ContentPlacement::Align(Align::Center),
            y: ContentPlacement::Align(Align::Center),
        }
    }
}

} // verus!
