use lib::layout::{AxisBound, SizeOffer, SizeRequest};
use lib::types::{Color, Stroke};
use lib::widgets::divider::divider::DividerSpec;
use lib::widgets::divider::divider::raw;

#[test]
fn test_size_divider_ignores_offer() {
    let spec = raw::DividerPreLayoutSpec {};
    let offers = [
        SizeOffer::unbounded(),
        SizeOffer::new(AxisBound::Exact(50.0), AxisBound::Exact(20.0)),
        SizeOffer::new(AxisBound::AtMost(100.0), AxisBound::AtMost(40.0)),
    ];

    let expected = raw::pre_layout_divider(&spec, offers[0]).size_request;
    for offer in offers {
        assert_eq!(raw::pre_layout_divider(&spec, offer).size_request, expected);
    }
}

#[test]
fn divider_request_is_unknown() {
    let spec = raw::DividerPreLayoutSpec {};
    let r = raw::pre_layout_divider::<f32>(&spec, SizeOffer::unbounded());
    assert_eq!(r.size_request, SizeRequest::unknown());
    assert_eq!(r.size_request.preferred, None);
}

#[test]
fn divider_spec_patches_color_and_width() {
    let red = Color::linear_rgba(1.0, 0.0, 0.0, 1.0);
    let blue = Color::linear_rgba(0.0, 0.0, 1.0, 1.0);
    let spec = DividerSpec { stroke: Stroke::new(red, 1.0) };
    let spec = spec.width(3.0);
    assert_eq!(spec.stroke, Stroke::new(red, 3.0));
    let spec = spec.color(blue);
    assert_eq!(spec.stroke, Stroke::new(blue, 3.0));
}
