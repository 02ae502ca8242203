use lib::types::Color;
use lib::widgets::meter::meter::raw::meter_bar_colors;
use lib::widgets::meter::meter::{MeterSpec as NewMeterSpec, MeterStyle as NewMeterStyle};
use lib::widgets::meter::{MeterSpecBuilder, MeterStyle};

fn meter_style() -> NewMeterStyle<f32> {
    NewMeterStyle {
        bar_w: 6.0,
        bar_h: 14.0,
        bar_gap: 2.0,
        ink: Color::linear_rgba(0.1, 0.1, 0.1, 1.0),
        rust: Color::linear_rgba(0.7, 0.3, 0.14, 1.0),
        unlit: Color::linear_rgba(0.5, 0.5, 0.5, 1.0),
    }
}

#[test]
fn meter_half_lit_bars() {
    let style = meter_style();
    let colors = meter_bar_colors(&style, 10, 5, None);
    assert_eq!(colors.len(), 10);
    for (i, color) in colors.iter().enumerate() {
        let expected = if i < 5 { style.ink } else { style.unlit };
        assert_eq!(*color, expected);
    }
}

#[test]
fn meter_peak_bar_uses_accent() {
    let style = meter_style();
    let colors = meter_bar_colors(&style, 10, 5, Some(7));
    for (i, color) in colors.iter().enumerate() {
        let expected = if i == 7 {
            style.rust
        } else if i < 5 {
            style.ink
        } else {
            style.unlit
        };
        assert_eq!(*color, expected);
    }
}

#[test]
fn meter_peak_overrides_a_lit_bar() {
    let style = meter_style();
    let colors = meter_bar_colors(&style, 4, 4, Some(1));
    assert_eq!(colors, vec![style.ink, style.rust, style.ink, style.ink]);
}

#[test]
fn meter_with_no_bars_shows_one() {
    let style = meter_style();
    assert_eq!(meter_bar_colors(&style, 0, 0, None), vec![style.unlit]);
    assert_eq!(meter_bar_colors(&style, 0, 1, None), vec![style.ink]);
}

#[test]
fn meter_builder_defaults() {
    let style = MeterStyle {
        bar_w: 6.0,
        bar_h: 14.0,
        bar_gap: 2.0,
        ink: Color::linear_rgba(0.0, 0.0, 0.0, 1.0),
        rust: Color::linear_rgba(1.0, 0.0, 0.0, 1.0),
        unlit: Color::linear_rgba(0.5, 0.5, 0.5, 1.0),
    };
    let spec = MeterSpecBuilder::new().value(0.5).style(style).build();
    assert_eq!(spec.peak, None);
    assert_eq!(spec.bars, 10);
    assert_eq!(spec.value, 0.5);
    let spec = MeterSpecBuilder::new().value(0.5).style(style).peak(Some(0.8)).bars(4).build();
    assert_eq!(spec.peak, Some(0.8));
    assert_eq!(spec.bars, 4);
}

#[test]
fn meter_spec_setters() {
    let spec = NewMeterSpec { value: 0.1, style: meter_style(), peak: None, bars: 10 };
    let spec = spec.value(0.9).peak(Some(0.95)).bars(12);
    assert_eq!(spec.value, 0.9);
    assert_eq!(spec.peak, Some(0.95));
    assert_eq!(spec.bars, 12);
    assert_eq!(spec.style, meter_style());
}
