use lib::layout::{IntrinsicSize, SizeOffer, SizeRequest};
use lib::text::{Align, ContentPlacement, FontId, TextContentPlacement, TextFlow, TextStyle};
use lib::theme::Theme;
use lib::types::{Color, Outline, Rect, Stroke, Vec2};
use lib::widgets::button::button::{ButtonSpecBuilder, ButtonStyle};
use lib::widgets::color_swatch::color_swatch::raw::{pre_layout_color_swatch, ColorSwatchPreLayoutSpec};
use lib::widgets::color_swatch::color_swatch::ColorSwatchSpec;
use lib::widgets::color_swatch::ColorSwatchSpecBuilder;
use lib::widgets::divider::DividerSpecBuilder;
use lib::widgets::keycap::keycap::raw::{keycap_draws_text, pre_layout_keycap, KeycapPreLayoutSpec, KeycapSpec as RawKeycapSpec};
use lib::widgets::keycap::keycap::{KeycapSpecBuilder, KeycapStyle};
use lib::widgets::keycap::raw::{calc_keycap_intrinsic_size, KeycapCalcSizeRequestSpec};
use lib::widgets::label::label::raw::{pre_layout_label, LabelPreLayoutSpec};
use lib::widgets::label::label::{LabelSpecBuilder as NewLabelSpecBuilder, LabelStyle as NewLabelStyle};
use lib::widgets::label::raw::{calc_label_intrinsic_size, LabelCalcIntrinsicSizeSpec};
use lib::widgets::label::LabelStyle;
use lib::widgets::menu::menu::{MenuItem, MenuSpec, MenuStyle};
use lib::widgets::menu::{MenuItem as OldMenuItem, MenuSpecBuilder, MenuStyle as OldMenuStyle};
use lib::types::Layer;

fn col(r: f32, g: f32, b: f32) -> Color<f32> {
    Color::linear_rgba(r, g, b, 1.0)
}

fn sample_theme() -> Theme<f32> {
    Theme {
        ink: col(0.1, 0.09, 0.08),
        paper: col(0.95, 0.93, 0.9),
        paper_hover: col(0.9, 0.88, 0.85),
        paper_press: col(0.85, 0.83, 0.8),
        paper_elev: col(0.98, 0.97, 0.95),
        paper_elev_hover: col(0.93, 0.92, 0.9),
        paper_elev_press: col(0.88, 0.87, 0.85),
        hover: col(0.9, 0.9, 0.9),
        press: col(0.8, 0.8, 0.8),
        line: col(0.7, 0.68, 0.65),
        line_on_paper: col(0.72, 0.7, 0.67),
        line_on_paper_elev: col(0.74, 0.72, 0.69),
        muted: col(0.5, 0.48, 0.45),
        rust: col(0.7, 0.3, 0.14),
        rust_soft: col(0.9, 0.7, 0.6),
        rust_soft_on_paper_elev: col(0.92, 0.72, 0.62),
        sans_font: FontId(1),
        mono_font: FontId(2),
        sans_weight_regular: 400,
        text_sm: 11.0,
        text_md: 13.0,
        text_mono: 12.0,
        border: 1.0,
        focus_width: 2.0,
        focus_offset: 2.0,
        focus_offset_tight: 1.0,
        h_sm: 22.0,
        h_md: 28.0,
        row_height: 26.0,
    }
}

fn keycap_style() -> KeycapStyle<f32> {
    KeycapStyle {
        background: col(1.0, 1.0, 1.0),
        shadow: col(0.7, 0.7, 0.7),
        shadow_offset: 1.0,
        shadow_height: 2.0,
        border: Some(Stroke::new(col(0.7, 0.7, 0.7), 1.0)),
        text_color: col(0.1, 0.1, 0.1),
        text_style: TextStyle::new(FontId(2), 11.0, 400, TextFlow::single_line()),
        content_placement: TextContentPlacement::center(),
    }
}

#[test]
fn divider_test_builder_defaults_from_theme_fills_unset_color() {
    let theme = sample_theme();
    let builder = DividerSpecBuilder { color: None, width: 1.0, rect: None };
    assert!(builder.color.is_none());
    let builder = builder.defaults_from_theme(&theme);
    assert_eq!(builder.color, Some(theme.line));
}

#[test]
fn divider_test_builder_defaults_from_theme_preserves_explicit_color() {
    let theme = sample_theme();
    let sentinel = Color::linear_rgba(1.0 / 255.0, 2.0 / 255.0, 3.0 / 255.0, 1.0);
    let builder = DividerSpecBuilder { color: None, width: 1.0, rect: None }.color(sentinel);
    let builder = builder.defaults_from_theme(&theme);
    assert_eq!(builder.color, Some(sentinel));
}

#[test]
fn divider_builder_builds_what_was_set() {
    let rect = Rect::new(0.0, 0.0, 100.0, 10.0);
    let spec = DividerSpecBuilder { color: None, width: 1.0, rect: None }
        .rect(rect)
        .width(2.0)
        .defaults_from_theme(&sample_theme())
        .build();
    assert_eq!(spec.rect, rect);
    assert_eq!(spec.width, 2.0);
    assert_eq!(spec.color, sample_theme().line);
}

#[test]
fn swatch_defaults_fill_border_but_never_color() {
    let theme = sample_theme();
    let b = ColorSwatchSpecBuilder::<f32>::new().defaults_from_theme(&theme);
    assert_eq!(b.border, Some(theme.ink));
    assert_eq!(b.color, None);
    let shown = col(0.2, 0.6, 0.3);
    let spec = ColorSwatchSpecBuilder::new().color(shown).border(theme.rust).defaults_from_theme(&theme).build();
    assert_eq!(spec.color, shown);
    assert_eq!(spec.border, theme.rust);
}

#[test]
fn swatch_spec_setters_and_request() {
    let spec = ColorSwatchSpec { color: col(1.0, 0.0, 0.0), border: None };
    let spec = spec.color(col(0.0, 1.0, 0.0)).border(Some(Stroke::new(col(0.0, 0.0, 0.0), 1.0)));
    assert_eq!(spec.color, col(0.0, 1.0, 0.0));
    assert_eq!(spec.border, Some(Stroke::new(col(0.0, 0.0, 0.0), 1.0)));
    let r = pre_layout_color_swatch::<f32>(&ColorSwatchPreLayoutSpec {}, SizeOffer::unbounded());
    assert_eq!(r.size_request, SizeRequest::unknown());
}

#[test]
fn label_style_from_theme_copies_theme_tokens() {
    let theme = sample_theme();
    let s = LabelStyle::from_theme(&theme);
    assert_eq!(s.text_style, TextStyle::new(FontId(1), 13.0, 400, TextFlow::SingleLine));
    assert_eq!(
        s.content_placement,
        TextContentPlacement::logical(ContentPlacement::Fill, ContentPlacement::Align(Align::Start))
    );
    assert_eq!(s.text_color, theme.ink);
    assert!(!s.rule);
    assert_eq!(s.rule_color, theme.line);
    let n = NewLabelStyle::from_theme(&theme);
    assert_eq!(n.text_style, s.text_style);
    assert_eq!(n.rule, None);
}

#[test]
fn label_builder_build_and_defaults_idempotent() {
    let theme = sample_theme();
    let once = NewLabelSpecBuilder::new().text("hi").defaults_from_theme(&theme);
    let twice = once.defaults_from_theme(&theme);
    assert_eq!(once, twice);
    let spec = twice.build();
    assert_eq!(spec.text, "hi");
    assert_eq!(spec.style, NewLabelStyle::from_theme(&theme));
}

#[test]
fn label_sizes_are_text_size() {
    let theme = sample_theme();
    let style = LabelStyle::from_theme(&theme);
    let r = calc_label_intrinsic_size(&LabelCalcIntrinsicSizeSpec { text: "abc", style }, Vec2::new(20.0, 13.0));
    assert_eq!(r, IntrinsicSize::preferred(Vec2::new(20.0, 13.0)));
    let spec = LabelPreLayoutSpec { text: "abc", style: NewLabelStyle::from_theme(&theme) };
    let r = pre_layout_label(&spec, SizeOffer::unbounded(), Vec2::new(20.0, 13.0));
    assert_eq!(r.size_request.preferred, Some(Vec2::new(20.0, 13.0)));
}

#[test]
fn keycap_sizes_and_text_presence() {
    let style = keycap_style();
    let r = pre_layout_keycap(&KeycapPreLayoutSpec { text: "K", style }, SizeOffer::unbounded(), Vec2::new(7.0, 11.0));
    assert_eq!(r.size_request, SizeRequest::preferred(Vec2::new(7.0, 11.0)));
    let spec = RawKeycapSpec { layer: Layer::default(), rect: Rect::new(0.0, 0.0, 20.0, 20.0), text: "", style };
    assert!(!keycap_draws_text(&spec));
    let spec = RawKeycapSpec { text: "Esc", ..spec };
    assert!(keycap_draws_text(&spec));
    let b = KeycapSpecBuilder::new().text("Ctrl").style(style).build();
    assert_eq!(b.text, "Ctrl");
    assert_eq!(b.style, style);
}

#[test]
fn old_keycap_request_is_text_size() {
    let style = lib::widgets::keycap::KeycapStyle {
        background: col(1.0, 1.0, 1.0),
        shadow: col(0.7, 0.7, 0.7),
        shadow_offset: 1.0,
        shadow_height: 2.0,
        border: col(0.7, 0.7, 0.7),
        border_width: 1.0,
        text_color: col(0.1, 0.1, 0.1),
        text_style: TextStyle::new(FontId(2), 11.0, 400, TextFlow::single_line()),
        content_placement: TextContentPlacement::center(),
    };
    let r = calc_keycap_intrinsic_size(&KeycapCalcSizeRequestSpec { text: "K", style }, Vec2::new(7.0, 11.0));
    assert_eq!(r.preferred, Some(Vec2::new(7.0, 11.0)));
}

#[test]
fn button_builder_builds_what_was_set() {
    let theme = sample_theme();
    let style = ButtonStyle {
        background: theme.paper,
        hovered: theme.paper_hover,
        pressed: theme.paper_press,
        border: Some(Stroke::new(theme.ink, theme.border)),
        focus: Some(Outline::new(theme.rust, theme.focus_width, theme.focus_offset)),
        text_style: TextStyle::new(theme.sans_font, theme.text_md, 500, TextFlow::single_line()),
        content_placement: TextContentPlacement::center(),
        text_color: theme.ink,
        disabled_alpha: 0.32,
        pad_x: 14.0,
        pad_y: 6.0,
        min_height: theme.h_md,
    };
    let spec = ButtonSpecBuilder::new().text("OK").style(style).build();
    assert_eq!(spec.text, "OK");
    assert_eq!(spec.style, style);
    assert!(!spec.disabled);
    let spec = ButtonSpecBuilder::new().text("OK").style(style).disabled(true).build();
    assert!(spec.disabled);
}

fn old_menu_style() -> OldMenuStyle<f32> {
    OldMenuStyle {
        row_height: 26.0,
        separator_height: 9.0,
        group_height: 22.0,
        pad_x: 12.0,
        pad_y: 4.0,
        group_text_y: 8.0,
        separator_y: 4.0,
        min_width: 200.0,
        label_size: 13.0,
        meta_size: 11.0,
        label_font: FontId(1),
        meta_font: FontId(2),
        background: col(1.0, 1.0, 1.0),
        border: col(0.0, 0.0, 0.0),
        separator: col(0.7, 0.7, 0.7),
        selected_bg: col(0.1, 0.1, 0.1),
        selected_text: col(0.95, 0.95, 0.95),
        text: col(0.1, 0.1, 0.1),
        muted: col(0.5, 0.5, 0.5),
        shortcut_selected_alpha: 0.6,
        disabled_alpha: 0.4,
        border_width: 1.0,
    }
}

#[test]
fn menu_builder_builds_what_was_set() {
    let items = [
        OldMenuItem::Group("File"),
        OldMenuItem::Item { label: "Open", shortcut: Some("Ctrl+O"), selected: true, disabled: false },
        OldMenuItem::Separator,
    ];
    let rect = Rect::new(0.0, 0.0, 200.0, 100.0);
    let spec = MenuSpecBuilder::new().items(&items).style(old_menu_style()).rect(rect).build();
    assert_eq!(spec.items, &items);
    assert_eq!(spec.rect, rect);
    assert_eq!(spec.style, old_menu_style());
}

#[test]
fn menu_spec_setters_replace_one_field() {
    let theme = sample_theme();
    let style = MenuStyle {
        row_height: 26.0,
        separator_height: 9.0,
        group_height: 22.0,
        pad_x: 12.0,
        pad_y: 4.0,
        group_text_y: 8.0,
        separator_y: 4.0,
        min_width: 200.0,
        label_style: TextStyle::new(theme.sans_font, theme.text_md, 400, TextFlow::single_line()),
        meta_style: TextStyle::new(theme.mono_font, theme.text_sm, 400, TextFlow::single_line()),
        background: theme.paper_elev,
        border: None,
        separator: None,
        selected_bg: theme.ink,
        selected_text: theme.paper,
        text: theme.ink,
        muted: theme.muted,
        shortcut_selected_alpha: 0.6,
        disabled_alpha: 0.4,
    };
    let a = [MenuItem::Separator];
    let b = [MenuItem::Group("g")];
    let spec = MenuSpec { items: &a, style };
    let spec = spec.items(&b);
    assert_eq!(spec.items, &b);
    assert_eq!(spec.style, style);
}
