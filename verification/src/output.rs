//! What a frame asks of the host window besides drawing.
use vstd::prelude::*;

verus! {

/// The mouse cursor a widget requests while it is hovered.
#[derive(Debug, Clone, Copy, PartialEq, Eq)]
pub enum CursorIcon {
    Default,
    Pointer,
    Text,
}

} // verus!
