//! The design tokens every widget style is derived from.
use vstd::prelude::*;

use crate::text::FontId;
use crate::types::Color;

verus! {

/// Colours, fonts, sizes and metrics shared by all widget styles.
#[derive(Debug, Clone, Copy, PartialEq)]
pub struct Theme<L> {
    pub ink: Color<L>,
    pub paper: Color<L>,
    pub paper_hover: Color<L>,
    pub paper_press: Color<L>,
    pub paper_elev: Color<L>,
    pub paper_elev_hover: Color<L>,
    pub paper_elev_press: Color<L>,
    pub hover: Color<L>,
    pub press: Color<L>,
    pub line: Color<L>,
    pub line_on_paper: Color<L>,
    pub line_on_paper_elev: Color<L>,
    pub muted: Color<L>,
    pub rust: Color<L>,
    pub rust_soft: Color<L>,
    pub rust_soft_on_paper_elev: Color<L>,
    pub sans_font: FontId,
    pub mono_font: FontId,
    pub sans_weight_regular: u16,
    pub text_sm: L,
    pub text_md: L,
    pub text_mono: L,
    pub border: L,
    pub focus_width: L,
    pub focus_offset: L,
    pub focus_offset_tight: L,
    pub h_sm: L,
    pub h_md: L,
    pub row_height: L,
}

} // verus!
