//! Per-phase button functions.
use vstd::prelude::*;

use super::ButtonStyle;
use crate::layout::SizeRequest;
use crate::draw::{
    border_command, fill_command, focus_ring_command, one_if, BorderPlacement, DrawCmd,
    DrawCommands,
};
use crate::types::{ClipRect, Color, Layer, Rect, Stroke};
use crate::widgets::widget_helpers::{interaction_color, spec_interaction_color};
use crate::widget::InputInfo;

verus! {

/// Everything the button needs for one frame once layout has placed it.
#[derive(Debug, Clone, Copy, PartialEq)]
pub struct ButtonSpec<'a, L> {
    pub layer: Layer,
    pub rect: Rect<L>,
    pub text: &'a str,
    pub style: ButtonStyle<L>,
    pub clip_rect: ClipRect<L>,
    pub disabled: bool,
}

/// What the button's size request depends on.
#[derive(Debug, Clone, Copy, PartialEq)]
pub struct ButtonPreLayoutSpec<'a, L> {
    pub text: &'a str,
    pub style: ButtonStyle<L>,
}

/// The button's size request.
#[derive(Debug, Clone, Copy, PartialEq)]
pub struct ButtonPreLayoutResult<L> {
    pub size_request: SizeRequest<L>,
}

/// What the button reports after drawing.
#[derive(Debug, Clone, Copy, PartialEq)]
pub struct ButtonResult<L> {
    pub input: InputInfo,
    pub focused: bool,
    pub content_bounds: Rect<L>,
}

/// What a button shows and reports this frame.
#[derive(Debug, Clone, Copy, PartialEq)]
pub struct ButtonDecisions<L> {
    /// What the button reports.
    pub input: InputInfo,
    pub focused: bool,
    /// Fill of the body, before disabled tinting.
    pub fill: Color<L>,
    /// Colours are tinted by the style's disabled alpha.
    pub tinted: bool,
    pub draw_focus_ring: bool,
    /// The border is drawn: whenever the style has one.
    pub draw_border: bool,
}

/// The decisions of one button frame. `focused` and `input` are what the
/// press interaction reported for the button; a disabled button runs no
/// interaction, so they are ignored there: it reports no interaction, is
/// not focused, shows its resting fill tinted and draws no focus ring. An
/// enabled button reports the interaction, picks its fill by press and
/// hover, and draws its focus ring while it is focused and its style has one.
pub fn button_decisions<L: Copy>(
    style: &ButtonStyle<L>,
    disabled: bool,
    focused: bool,
    input: InputInfo,
) -> (d: ButtonDecisions<L>)
    ensures
        d.input == if disabled {
            InputInfo { hovered: false, pressed: false, clicked: false }
        } else {
            input
        },
        d.focused == (focused && !disabled),
        d.fill == if disabled {
            style.background
        } else {
            spec_interaction_color(
                style.background,
                style.hovered,
                style.pressed,
                input.hovered,
                input.pressed,
            )
        },
        d.tinted == disabled,
        d.draw_focus_ring == (!disabled && focused && style.focus is Some),
        !disabled && input.pressed ==> d.fill == style.pressed,
        !disabled && !input.pressed && input.hovered ==> d.fill == style.hovered,
        !disabled && !input.pressed && !input.hovered ==> d.fill == style.background,
        d.draw_border == style.border is Some,
{
    if disabled {
        ButtonDecisions {
            input: InputInfo { hovered: false, pressed: false, clicked: false },
            focused: false,
            fill: style.background,
            tinted: true,
            draw_focus_ring: false,
            draw_border: style.border.is_some(),
        }
    } else {
        ButtonDecisions {
            input,
            focused,
            fill: interaction_color(
                style.background,
                style.hovered,
                style.pressed,
                input.hovered,
                input.pressed,
            ),
            tinted: false,
            draw_focus_ring: focused && style.focus.is_some(),
            draw_border: style.border.is_some(),
        }
    }
}

/// The geometry and tinted colours of a button frame, as the caller laid
/// them out (floating point).
#[derive(Debug, Clone, Copy, PartialEq)]
pub struct ButtonPaint<L> {
    /// The button's rect.
    pub rect: Rect<L>,
    /// The rect the focus ring surrounds: the button's rect grown by the
    /// outline's offset.
    pub ring_rect: Rect<L>,
    /// The focus outline's stroke.
    pub ring: Stroke<L>,
    /// The body fill, tinted.
    pub fill: Color<L>,
    /// The border, tinted, if the style has one.
    pub border: Option<Stroke<L>>,
    /// The layer's depth and its focus depth.
    pub z: u32,
    pub focus_z: u32,
}

/// The commands a button draws before its label: the focus ring when it is
/// drawn, the body fill, then the border, if any.
pub open spec fn button_commands_spec<L>(d: ButtonDecisions<L>, paint: ButtonPaint<L>) -> Seq<
    DrawCmd<L>,
> {
    focus_ring_command(d.draw_focus_ring, paint.ring_rect, paint.ring, paint.focus_z)
        + fill_command(paint.rect, paint.fill, paint.z) + border_command(
        paint.rect,
        paint.border,
        BorderPlacement::Inside,
        paint.z,
    )
}

/// Appends the commands a button draws before its label glyphs, which the
/// caller adds after them.
pub fn button_commands<L: Copy>(
    cmds: &mut DrawCommands<L>,
    d: &ButtonDecisions<L>,
    paint: &ButtonPaint<L>,
)
    ensures
        final(cmds)@ == old(cmds)@ + button_commands_spec(*d, *paint),
        // The commands already in the list are kept.
        final(cmds)@.subrange(0, old(cmds)@.len() as int) == old(cmds)@,
        // One command for the ring when it is drawn, one for the fill, one
        // for the border when there is one.
        final(cmds)@.len() == old(cmds)@.len() + one_if(d.draw_focus_ring) + 1 + one_if(
            paint.border is Some,
        ),
        // The focus ring, when drawn, comes first, around the ring rect at
        // the focus depth.
        d.draw_focus_ring ==> final(cmds)@[old(cmds)@.len() as int] == (DrawCmd::BorderRect {
            rect: paint.ring_rect,
            color: paint.ring.color,
            width: paint.ring.width,
            placement: BorderPlacement::Outside,
            z: paint.focus_z,
        }),
        // Then the body fill.
        final(cmds)@[old(cmds)@.len() + one_if(d.draw_focus_ring)] == (DrawCmd::FillRect {
            anti_alias: false,
            rect: paint.rect,
            color: paint.fill,
            z: paint.z,
        }),
        // Then the border, inside the rect.
        paint.border matches Some(b) ==> final(cmds)@[old(cmds)@.len() + one_if(
            d.draw_focus_ring,
        ) + 1] == (DrawCmd::BorderRect {
            rect: paint.rect,
            color: b.color,
            width: b.width,
            placement: BorderPlacement::Inside,
            z: paint.z,
        }),
{
    cmds.push_focus_ring(d.draw_focus_ring, paint.ring_rect, paint.ring, paint.focus_z);
    cmds.push_fill_rect(paint.rect, paint.fill, paint.z);
    cmds.push_border_rect(paint.rect, paint.border, BorderPlacement::Inside, paint.z);
    proof {
        assert(cmds@ =~= old(cmds)@ + button_commands_spec(*d, *paint));
    }
}

/// A button whose decisions draw the focus ring begins with one ring around
/// the ring rect at the focus depth; otherwise it begins with its fill.
pub proof fn lemma_button_ring_first<L>(d: ButtonDecisions<L>, paint: ButtonPaint<L>)
    ensures
        d.draw_focus_ring ==> button_commands_spec(d, paint)[0] == (DrawCmd::BorderRect {
            rect: paint.ring_rect,
            color: paint.ring.color,
            width: paint.ring.width,
            placement: BorderPlacement::Outside,
            z: paint.focus_z,
        }),
        !d.draw_focus_ring ==> button_commands_spec(d, paint)[0] == (DrawCmd::FillRect {
            anti_alias: false,
            rect: paint.rect,
            color: paint.fill,
            z: paint.z,
        }),
        button_commands_spec(d, paint).len() == one_if(d.draw_focus_ring) + 1 + one_if(
            paint.border is Some,
        ),
{
}

} // verus!
