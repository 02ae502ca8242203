//! Per-phase button functions.
use vstd::prelude::*;

use super::ButtonStyle;
use crate::types::{ClipRect, Color, Layer, Rect};
use crate::widgets::widget_helpers::{interaction_color, spec_interaction_color};
use crate::widget::InputInfo;

verus! {

/// Everything the button needs for one frame once layout has placed it.
#[derive(Debug, Clone, Copy, PartialEq)]
pub struct ButtonSpec<'a, L> {
    pub layer: Layer,
    pub rect: Rect<L>,
    pub text: &'a str,
    pub style: ButtonStyle<L>,
    pub clip_rect: ClipRect<L>,
    pub disabled: bool,
}

/// What the button's intrinsic size depends on.
#[derive(Debug, Clone, Copy, PartialEq)]
pub struct ButtonCalcIntrinsicSizeSpec<'a, L> {
    pub text: &'a str,
    pub style: ButtonStyle<L>,
}

/// What the button reports after drawing.
#[derive(Debug, Clone, Copy, PartialEq)]
pub struct ButtonResult<L> {
    pub input: InputInfo,
    pub focused: bool,
    pub content_bounds: Rect<L>,
}

/// What a button shows and reports this frame.
#[derive(Debug, Clone, Copy, PartialEq)]
pub struct ButtonDecisions<L> {
    /// What the button reports.
    pub input: InputInfo,
    pub focused: bool,
    /// Fill of the body, before disabled tinting.
    pub fill: Color<L>,
    /// Colours are tinted by the style's disabled alpha.
    pub tinted: bool,
    pub draw_focus_ring: bool,
}

/// The decisions of one button frame. `focused` and `input` are what the
/// press interaction reported for the button; a disabled button runs no
/// interaction, so they are ignored there: it reports no interaction, is
/// not focused, shows its resting fill tinted and draws no focus ring. An
/// enabled button reports the interaction, picks its fill by press and
/// hover, and draws its focus ring while it is focused.
pub fn button_decisions<L: Copy>(
    style: &ButtonStyle<L>,
    disabled: bool,
    focused: bool,
    input: InputInfo,
) -> (d: ButtonDecisions<L>)
    ensures
        d.input == if disabled {
            InputInfo { hovered: false, pressed: false, clicked: false }
        } else {
            input
        },
        d.focused == (focused && !disabled),
        d.fill == if disabled {
            style.background
        } else {
            spec_interaction_color(
                style.background,
                style.hovered,
                style.pressed,
                input.hovered,
                input.pressed,
            )
        },
        d.tinted == disabled,
        d.draw_focus_ring == (!disabled && focused),
        !disabled && input.pressed ==> d.fill == style.pressed,
        !disabled && !input.pressed && input.hovered ==> d.fill == style.hovered,
        !disabled && !input.pressed && !input.hovered ==> d.fill == style.background,
{
    if disabled {
        ButtonDecisions {
            input: InputInfo { hovered: false, pressed: false, clicked: false },
            focused: false,
            fill: style.background,
            tinted: true,
            draw_focus_ring: false,
        }
    } else {
        ButtonDecisions {
            input,
            focused,
            fill: interaction_color(
                style.background,
                style.hovered,
                style.pressed,
                input.hovered,
                input.pressed,
            ),
            tinted: false,
            draw_focus_ring: focused,
        }
    }
}

} // verus!
