//! Per-phase chip functions.
use vstd::prelude::*;

use super::{ChipState, ChipStyle};
use crate::layout::{SizeOffer, SizeRequest};
use crate::output::CursorIcon;
use crate::draw::{
    border_command, fill_command, focus_ring_command, one_if, BorderPlacement, DrawCmd,
    DrawCommands,
};
use crate::types::{ClipRect, Color, Layer, Rect, Stroke, Vec2};
use crate::widget::InputInfo;
use crate::widgets::chip::raw::toggle_on_click;

verus! {

/// Everything the chip needs for one frame once layout has placed it.
#[derive(Debug, Clone, Copy, PartialEq)]
pub struct ChipSpec<'a, L> {
    pub layer: Layer,
    /// Top-left origin.
    pub rect: Rect<L>,
    pub text: &'a str,
    pub style: ChipStyle<L>,
    pub disabled: bool,
    pub clip_rect: ClipRect<L>,
}

/// What the chip's size request depends on.
#[derive(Debug, Clone, Copy, PartialEq)]
pub struct ChipPreLayoutSpec<'a, L> {
    pub text: &'a str,
    pub style: ChipStyle<L>,
}

/// The chip's size request.
#[derive(Debug, Clone, Copy, PartialEq)]
pub struct ChipPreLayoutResult<L> {
    pub size_request: SizeRequest<L>,
}

/// What the chip reports after drawing.
#[derive(Debug, Clone, Copy, PartialEq)]
pub struct ChipResult<L> {
    pub input: InputInfo,
    pub focused: bool,
    pub content_bounds: Rect<L>,
    pub cursor_icon: Option<CursorIcon>,
}

/// The colours and cursor a chip shows once its click is applied.
#[derive(Debug, Clone, Copy, PartialEq)]
pub struct ChipAppearance<L> {
    /// Fill of the chip body, before disabled tinting.
    pub background: Color<L>,
    /// Colour of the label, before disabled tinting.
    pub text: Color<L>,
    pub cursor_icon: Option<CursorIcon>,
    pub draw_focus_ring: bool,
}

/// The size this chip requests: exactly the logical size of its text,
/// whatever the offer. `text_size` is the logical size the text backend
/// measured for `spec.text` in `spec.style.text_style` without bounds.
pub fn pre_layout_chip<'a, L>(
    spec: &ChipPreLayoutSpec<'a, L>,
    offer: SizeOffer<L>,
    text_size: Vec2<L>,
) -> (r: ChipPreLayoutResult<L>)
    ensures
        r.size_request == (SizeRequest { preferred: Some(text_size) }),
{
    ChipPreLayoutResult { size_request: chip_size_request(spec, offer, text_size) }
}

fn chip_size_request<'a, L>(
    spec: &ChipPreLayoutSpec<'a, L>,
    _offer: SizeOffer<L>,
    text_size: Vec2<L>,
) -> (r: SizeRequest<L>)
    ensures
        r == (SizeRequest { preferred: Some(text_size) }),
{
    SizeRequest::preferred(text_size)
}

/// Applies a frame's interaction to a chip. `input` and `focused` are what
/// the press interaction reported for it (nothing when it is disabled). A
/// click flips its checked state; a checked chip uses the active background
/// and text colours; the pointer cursor is requested while an enabled chip
/// is hovered; the focus ring is drawn while the chip is focused and its
/// style has one.
pub fn apply_chip_interaction<L: Copy>(
    state: &mut ChipState,
    style: &ChipStyle<L>,
    input: InputInfo,
    focused: bool,
    disabled: bool,
) -> (look: ChipAppearance<L>)
    ensures
        final(state).checked == toggle_on_click(old(state).checked, input.clicked),
        final(state).is_active == old(state).is_active,
        final(state).space_is_active == old(state).space_is_active,
        final(state).focus_id == old(state).focus_id,
        look.background == if final(state).checked {
            style.active_bg
        } else {
            style.background
        },
        look.text == if final(state).checked {
            style.active_text
        } else {
            style.text
        },
        look.cursor_icon == if input.hovered && !disabled {
            Some(CursorIcon::Pointer)
        } else {
            None
        },
        look.draw_focus_ring == (focused && style.focus is Some),
        final(state).checked == (old(state).checked != input.clicked),
{
    if input.clicked {
        state.checked = !state.checked;
    }
    let background = if state.checked {
        style.active_bg
    } else {
        style.background
    };
    let text = if state.checked {
        style.active_text
    } else {
        style.text
    };
    let cursor_icon = if input.hovered && !disabled {
        Some(CursorIcon::Pointer)
    } else {
        None
    };
    ChipAppearance {
        background,
        text,
        cursor_icon,
        draw_focus_ring: focused && style.focus.is_some(),
    }
}

/// The geometry and tinted colours of a chip frame, as the caller laid them
/// out (floating point).
#[derive(Debug, Clone, Copy, PartialEq)]
pub struct ChipPaint<L> {
    /// The chip's body rect.
    pub rect: Rect<L>,
    /// The rect the focus ring surrounds.
    pub ring_rect: Rect<L>,
    /// The focus outline's stroke, tinted.
    pub ring: Stroke<L>,
    /// The body fill, tinted.
    pub fill: Color<L>,
    /// The border, tinted, if the style has one.
    pub border: Option<Stroke<L>>,
    pub z: u32,
    pub focus_z: u32,
}

/// The commands a chip draws before its label: the focus ring when it is
/// drawn, the body fill, then the border, if any.
pub open spec fn chip_commands_spec<L>(look: ChipAppearance<L>, paint: ChipPaint<L>) -> Seq<
    DrawCmd<L>,
> {
    focus_ring_command(look.draw_focus_ring, paint.ring_rect, paint.ring, paint.focus_z)
        + fill_command(paint.rect, paint.fill, paint.z) + border_command(
        paint.rect,
        paint.border,
        BorderPlacement::Inside,
        paint.z,
    )
}

/// Appends the commands a chip draws before its label glyphs, which the
/// caller adds after them.
pub fn chip_commands<L: Copy>(
    cmds: &mut DrawCommands<L>,
    look: &ChipAppearance<L>,
    paint: &ChipPaint<L>,
)
    ensures
        final(cmds)@ == old(cmds)@ + chip_commands_spec(*look, *paint),
        // The commands already in the list are kept.
        final(cmds)@.subrange(0, old(cmds)@.len() as int) == old(cmds)@,
        // One command for the ring when it is drawn, one for the fill, one
        // for the border when there is one.
        final(cmds)@.len() == old(cmds)@.len() + one_if(look.draw_focus_ring) + 1 + one_if(
            paint.border is Some,
        ),
        // The focus ring, when drawn, comes first, around the ring rect at
        // the focus depth.
        look.draw_focus_ring ==> final(cmds)@[old(cmds)@.len() as int] == (DrawCmd::BorderRect {
            rect: paint.ring_rect,
            color: paint.ring.color,
            width: paint.ring.width,
            placement: BorderPlacement::Outside,
            z: paint.focus_z,
        }),
        // Then the body fill.
        final(cmds)@[old(cmds)@.len() + one_if(look.draw_focus_ring)] == (DrawCmd::FillRect {
            anti_alias: false,
            rect: paint.rect,
            color: paint.fill,
            z: paint.z,
        }),
        // Then the border, inside the body rect, right after the fill.
        paint.border matches Some(b) ==> final(cmds)@[old(cmds)@.len() + one_if(
            look.draw_focus_ring,
        ) + 1] == (DrawCmd::BorderRect {
            rect: paint.rect,
            color: b.color,
            width: b.width,
            placement: BorderPlacement::Inside,
            z: paint.z,
        }),
{
    cmds.push_focus_ring(look.draw_focus_ring, paint.ring_rect, paint.ring, paint.focus_z);
    cmds.push_fill_rect(paint.rect, paint.fill, paint.z);
    cmds.push_border_rect(paint.rect, paint.border, BorderPlacement::Inside, paint.z);
    proof {
        assert(cmds@ =~= old(cmds)@ + chip_commands_spec(*look, *paint));
    }
}

/// A chip with a border stroke draws it once, inside its rect at its depth,
/// right after the body fill, and last.
pub proof fn lemma_chip_border_after_fill<L>(look: ChipAppearance<L>, paint: ChipPaint<L>, b: Stroke<L>)
    requires
        paint.border == Some(b),
    ensures
        chip_commands_spec(look, paint).len() == one_if(look.draw_focus_ring) + 2,
        chip_commands_spec(look, paint).last() == (DrawCmd::BorderRect {
            rect: paint.rect,
            color: b.color,
            width: b.width,
            placement: BorderPlacement::Inside,
            z: paint.z,
        }),
{
}

} // verus!
