//! Label widget whose underline rule is a flag plus a colour.
//!
//! Specs are assembled with [`LabelSpecBuilder`]: unset fields are filled
//! from a theme by [`LabelSpecBuilder::defaults_from_theme`], which never
//! overrides a field the caller set.
use vstd::prelude::*;

use crate::text::{Align, ContentPlacement, TextContentPlacement, TextFlow, TextStyle};
use crate::theme::Theme;
use crate::types::Color;
use crate::widget::LayoutInfo;

pub mod label;
pub mod raw;

verus! {

/// Visual configuration for a label.
#[derive(Debug, Clone, Copy, PartialEq)]
pub struct LabelStyle<L> {
    /// How text lines flow, align, and clip inside the prepared text block.
    pub text_style: TextStyle<L>,
    /// Placement of the prepared text block inside the label's own rect.
    pub content_placement: TextContentPlacement,
    pub text_color: Color<L>,
    /// Whether a rule is drawn along the bottom edge of the label.
    pub rule: bool,
    pub rule_color: Color<L>,
}

impl<L> LabelStyle<L> {
    /// The label style a theme prescribes: regular sans text at the theme's
    /// medium size on a single line, filling the width and aligned to the
    /// top, in ink, without a rule (whose colour is the theme's line colour).
    pub open spec fn spec_from_theme(theme: Theme<L>) -> Self {
        LabelStyle {
            text_style: TextStyle {
                font: theme.sans_font,
                size: theme.text_md,
                weight: theme.sans_weight_regular,
                flow: TextFlow::SingleLine,
            },
            content_placement: TextContentPlacement {
                x: ContentPlacement::Fill,
                y: ContentPlacement::Align(Align::Start),
            },
            text_color: theme.ink,
            rule: false,
            rule_color: theme.line,
        }
    }
}

impl<L: Copy> LabelStyle<L> {
    pub fn from_theme(theme: &Theme<L>) -> (s: Self)
        ensures
            s == Self::spec_from_theme(*theme),
    {
        LabelStyle {
            text_style: TextStyle::new(
                theme.sans_font,
                theme.text_md,
                theme.sans_weight_regular,
                TextFlow::single_line(),
            ),
            content_placement: TextContentPlacement::logical(
                ContentPlacement::Fill,
                ContentPlacement::Align(Align::Start),
            ),
            text_color: theme.ink,
            rule: false,
            rule_color: theme.line,
        }
    }
}

/// What a label reports after a frame.
#[derive(Debug, Clone, Copy, PartialEq)]
pub struct LabelResult<L> {
    pub layout: LayoutInfo<L>,
}

/// A complete label description.
#[derive(Debug, Clone, Copy, PartialEq)]
pub struct LabelSpec<'a, L> {
    pub text: &'a str,
    pub style: LabelStyle<L>,
}

/// Builder for [`LabelSpec`].
#[derive(Debug, Clone, Copy, PartialEq)]
pub struct LabelSpecBuilder<'a, L> {
    pub text: Option<&'a str>,
    pub style: Option<LabelStyle<L>>,
}

impl<'a, L> LabelSpecBuilder<'a, L> {
    /// The builder after [`LabelSpecBuilder::defaults_from_theme`].
    pub open spec fn spec_defaults_from_theme(self, theme: Theme<L>) -> Self {
        LabelSpecBuilder {
            text: self.text,
            style: match self.style {
                Some(s) => Some(s),
                None => Some(LabelStyle::spec_from_theme(theme)),
            },
        }
    }

    pub fn new() -> (b: Self)
        ensures
            b.text is None,
            b.style is None,
    {
        LabelSpecBuilder { text: None, style: None }
    }

    pub fn text(self, text: &'a str) -> (b: Self)
        ensures
            b.text == Some(text),
            b.style == self.style,
    {
        LabelSpecBuilder { text: Some(text), style: self.style }
    }

    pub fn style(self, style: LabelStyle<L>) -> (b: Self)
        ensures
            b.text == self.text,
            b.style == Some(style),
    {
        LabelSpecBuilder { text: self.text, style: Some(style) }
    }

    /// The spec; text and style must both have been set.
    pub fn build(self) -> (spec: LabelSpec<'a, L>)
        requires
            self.text is Some,
            self.style is Some,
        ensures
            Some(spec.text) == self.text,
            Some(spec.style) == self.style,
    {
        LabelSpec { text: self.text.unwrap(), style: self.style.unwrap() }
    }
}

impl<'a, L: Copy> LabelSpecBuilder<'a, L> {
    /// Fills unset fields from `theme`; fields already set are kept.
    pub fn defaults_from_theme(self, theme: &Theme<L>) -> (b: Self)
        ensures
            b == self.spec_defaults_from_theme(*theme),
    {
        let style = match self.style {
            Some(s) => Some(s),
            None => Some(LabelStyle::from_theme(theme)),
        };
        LabelSpecBuilder { text: self.text, style }
    }
}

/// Filling defaults from a theme twice is the same as doing it once, and
/// after it the builder has a style.
pub proof fn lemma_label_defaults_idempotent<'a, L>(b: LabelSpecBuilder<'a, L>, theme: Theme<L>)
    ensures
        b.spec_defaults_from_theme(theme).spec_defaults_from_theme(theme)
            == b.spec_defaults_from_theme(theme),
        b.spec_defaults_from_theme(theme).style is Some,
{
}

/// A style set explicitly survives filling defaults from any theme.
pub proof fn lemma_label_defaults_keep_explicit_style<'a, L>(
    b: LabelSpecBuilder<'a, L>,
    style: LabelStyle<L>,
    theme: Theme<L>,
)
    requires
        b.style == Some(style),
    ensures
        b.spec_defaults_from_theme(theme).style == Some(style),
{
}

} // verus!
