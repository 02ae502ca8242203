//! Per-phase colour swatch functions.
use vstd::prelude::*;

use crate::layout::{SizeOffer, SizeRequest};
use crate::types::{Color, Layer, Rect, Stroke};

use crate::draw::{border_command, fill_command, one_if, BorderPlacement, DrawCmd, DrawCommands};

verus! {

/// Everything the swatch needs to draw once layout has placed it.
#[derive(Debug, Clone, Copy, PartialEq)]
pub struct ColorSwatchSpec<L> {
    pub layer: Layer,
    pub rect: Rect<L>,
    pub color: Color<L>,
    /// Border stroke drawn around the swatch.
    pub border: Option<Stroke<L>>,
}

/// What the swatch's size request depends on: nothing.
#[derive(Debug, Clone, Copy, PartialEq)]
pub struct ColorSwatchPreLayoutSpec {}

/// The swatch's size request.
#[derive(Debug, Clone, Copy, PartialEq)]
pub struct ColorSwatchPreLayoutResult<L> {
    pub size_request: SizeRequest<L>,
}

/// What the swatch reports after drawing.
#[derive(Debug, Clone, Copy, PartialEq)]
pub struct ColorSwatchResult<L> {
    pub content_bounds: Rect<L>,
}

/// A swatch has no inherent size: it requests the unknown size, whatever
/// the offer.
pub fn pre_layout_color_swatch<L>(spec: &ColorSwatchPreLayoutSpec, offer: SizeOffer<L>) -> (r:
    ColorSwatchPreLayoutResult<L>)
    ensures
        r.size_request == SizeRequest::<L>::spec_unknown(),
{
    ColorSwatchPreLayoutResult { size_request: color_swatch_size_request(spec, offer) }
}

fn color_swatch_size_request<L>(spec: &ColorSwatchPreLayoutSpec, _offer: SizeOffer<L>) -> (r:
    SizeRequest<L>)
    ensures
        r == SizeRequest::<L>::spec_unknown(),
{
    SizeRequest::unknown()
}

/// The commands a swatch draws: its colour over its rect, then its border,
/// if any, inside the rect, at its layer's depth.
pub open spec fn color_swatch_commands_spec<L>(spec: ColorSwatchSpec<L>) -> Seq<DrawCmd<L>> {
    fill_command(spec.rect, spec.color, spec.layer.z) + border_command(
        spec.rect,
        spec.border,
        BorderPlacement::Inside,
        spec.layer.z,
    )
}

/// Appends the commands a swatch draws.
pub fn color_swatch_commands<L: Copy>(spec: &ColorSwatchSpec<L>, cmds: &mut DrawCommands<L>)
    ensures
        final(cmds)@ == old(cmds)@ + color_swatch_commands_spec(*spec),
        final(cmds)@.subrange(0, old(cmds)@.len() as int) == old(cmds)@,
        // The colour over the swatch's rect, then its border, if any.
        final(cmds)@.len() == old(cmds)@.len() + 1 + one_if(spec.border is Some),
        final(cmds)@[old(cmds)@.len() as int] == (DrawCmd::FillRect {
            anti_alias: false,
            rect: spec.rect,
            color: spec.color,
            z: spec.layer.z,
        }),
        spec.border matches Some(b) ==> final(cmds)@.last() == (DrawCmd::BorderRect {
            rect: spec.rect,
            color: b.color,
            width: b.width,
            placement: BorderPlacement::Inside,
            z: spec.layer.z,
        }),
{
    cmds.push_fill_rect(spec.rect, spec.color, spec.layer.z);
    cmds.push_border_rect(spec.rect, spec.border, BorderPlacement::Inside, spec.layer.z);
    proof {
        assert(cmds@ =~= old(cmds)@ + color_swatch_commands_spec(*spec));
    }
}

} // verus!
