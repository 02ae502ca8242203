//! Decisions shared by the interactive widgets.
use vstd::prelude::*;

use crate::types::Color;

verus! {

/// The fill an interactive widget shows: its pressed colour while pressed,
/// else its hovered colour while hovered, else its resting colour.
pub open spec fn spec_interaction_color<L>(
    base: Color<L>,
    hovered: Color<L>,
    pressed: Color<L>,
    is_hovered: bool,
    is_pressed: bool,
) -> Color<L> {
    if is_pressed {
        pressed
    } else if is_hovered {
        hovered
    } else {
        base
    }
}

/// Picks the fill of an interactive widget; pressing wins over hovering.
pub fn interaction_color<L: Copy>(
    base: Color<L>,
    hovered: Color<L>,
    pressed: Color<L>,
    is_hovered: bool,
    is_pressed: bool,
) -> (c: Color<L>)
    ensures
        c == spec_interaction_color(base, hovered, pressed, is_hovered, is_pressed),
        is_pressed ==> c == pressed,
        !is_pressed && is_hovered ==> c == hovered,
        !is_pressed && !is_hovered ==> c == base,
{
    if is_pressed {
        pressed
    } else if is_hovered {
        hovered
    } else {
        base
    }
}

} // verus!
