use lib::draw::{DrawCmd, DrawCommands};
use lib::layout::{SizeOffer, SizeRequest};
use lib::types::{Color, Layer, Rect, Stroke, Vec2};
use lib::widgets::frame::frame::raw::{
    begin_frame_commands, end_frame_commands, pre_layout_frame, FramePreLayoutSpec, FrameSpec,
};
use lib::widgets::frame::frame::FrameStyle;
use lib::widgets::frame::{FrameSpecBuilder, FrameStyle as OldFrameStyle};

fn frame_style() -> FrameStyle<f32> {
    FrameStyle { background: Color::linear_rgba(0.9, 0.9, 0.9, 1.0), border: None, padding: 4.0 }
}

#[test]
fn frame_begin_pushes_fill_and_clip_placeholders() {
    let mut cmds = DrawCommands::new();
    cmds.push(DrawCmd::PopClip);
    let spec = FrameSpec { layer: Layer { z: 3 }, rect: Rect::new(0.0, 0.0, 0.0, 0.0), style: frame_style() };
    let content = Rect::new(5.0, 5.0, 0.0, 0.0);
    let res = begin_frame_commands(spec, content, &mut cmds);
    assert_eq!(res.token.fill_index, 1);
    assert_eq!(res.token.clip_index, 2);
    assert_eq!(res.content_bounds, content);
    assert_eq!(
        cmds.cmds[1..],
        [
            DrawCmd::FillRect { anti_alias: false, rect: spec.rect, color: frame_style().background, z: 3 },
            DrawCmd::PushClip { rect: content },
        ]
    );
}

#[test]
fn frame_end_patches_placeholders_after_children() {
    let mut cmds = DrawCommands::new();
    let spec = FrameSpec { layer: Layer { z: 1 }, rect: Rect::new(10.0, 10.0, 0.0, 0.0), style: frame_style() };
    let res = begin_frame_commands(spec, Rect::new(15.0, 15.0, 0.0, 0.0), &mut cmds);
    let child = DrawCmd::StrokeLine {
        anti_alias: false,
        p0: Vec2::new(15.0, 15.0),
        p1: Vec2::new(40.0, 15.0),
        color: Color::linear_rgba(0.0, 0.0, 0.0, 1.0),
        width: 1.0,
        z: 1,
    };
    cmds.push(child);
    let bounds = Rect::new(10.0, 10.0, 40.0, 20.0);
    let content = Rect::new(15.0, 15.0, 30.0, 10.0);
    end_frame_commands(res.token, FrameSpec { rect: bounds, ..spec }, bounds, content, &mut cmds);
    assert_eq!(
        cmds.cmds,
        vec![
            DrawCmd::FillRect { anti_alias: false, rect: bounds, color: frame_style().background, z: 1 },
            DrawCmd::PushClip { rect: content },
            child,
            DrawCmd::PopClip,
        ]
    );
}

#[test]
fn nested_frames_end_in_order() {
    let mut cmds = DrawCommands::new();
    let outer = FrameSpec { layer: Layer { z: 0 }, rect: Rect::new(0.0, 0.0, 0.0, 0.0), style: frame_style() };
    let inner = FrameSpec { layer: Layer { z: 0 }, rect: Rect::new(4.0, 4.0, 0.0, 0.0), style: frame_style() };
    let o = begin_frame_commands(outer, Rect::new(4.0, 4.0, 0.0, 0.0), &mut cmds);
    let i = begin_frame_commands(inner, Rect::new(8.0, 8.0, 0.0, 0.0), &mut cmds);
    end_frame_commands(i.token, inner, Rect::new(4.0, 4.0, 10.0, 10.0), Rect::new(8.0, 8.0, 2.0, 2.0), &mut cmds);
    end_frame_commands(o.token, outer, Rect::new(0.0, 0.0, 18.0, 18.0), Rect::new(4.0, 4.0, 10.0, 10.0), &mut cmds);
    assert_eq!(cmds.len(), 6);
    assert_eq!(cmds.cmds[0], DrawCmd::FillRect { anti_alias: false, rect: Rect::new(0.0, 0.0, 18.0, 18.0), color: frame_style().background, z: 0 });
    assert_eq!(cmds.cmds[1], DrawCmd::PushClip { rect: Rect::new(4.0, 4.0, 10.0, 10.0) });
    assert_eq!(cmds.cmds[4], DrawCmd::PopClip);
    assert_eq!(cmds.cmds[5], DrawCmd::PopClip);
}

#[test]
fn frame_request_is_unknown() {
    let spec = FramePreLayoutSpec { style: frame_style() };
    assert_eq!(pre_layout_frame(&spec, SizeOffer::unbounded()).size_request, SizeRequest::unknown());
}

#[test]
fn frame_builder_builds_what_was_set() {
    let style = OldFrameStyle {
        background: Color::linear_rgba(1.0, 1.0, 1.0, 1.0),
        border: Color::linear_rgba(0.0, 0.0, 0.0, 1.0),
        border_width: 1.0,
        padding: 4.0,
    };
    let rect = Rect::new(1.0, 2.0, 3.0, 4.0);
    let spec = FrameSpecBuilder::new().style(style).rect(rect).build();
    assert_eq!(spec.rect, rect);
    assert_eq!(spec.style, style);
}

#[test]
fn frame_tests_test_frame_layout_and_draw() {
    let mut cmds = DrawCommands::new();
    let rect = Rect::new(10.0, 10.0, 100.0, 50.0);
    let grey = Color::linear_rgba(0.5, 0.5, 0.5, 1.0);
    let white = Color::linear_rgba(1.0, 1.0, 1.0, 1.0);
    let style = FrameStyle { background: white, border: Some(Stroke::new(grey, 2.0)), padding: 3.0 };
    let spec = FrameSpec { layer: Layer::default(), rect, style };
    let pre_layout = pre_layout_frame(&FramePreLayoutSpec { style }, SizeOffer::unbounded());
    assert_eq!(pre_layout.size_request, SizeRequest::unknown());
    // Content rect is inset by border width + padding = 5.0.
    let res = begin_frame_commands(spec, Rect::new(15.0, 15.0, 90.0, 40.0), &mut cmds);
    let content = res.content_bounds;
    assert_eq!(content.x, 15.0);
    assert_eq!(content.y, 15.0);
    assert_eq!(content.w, 90.0);
    assert_eq!(content.h, 40.0);

    // Fill and clip placeholders are pushed before children.
    assert_eq!(cmds.len(), 2);
    assert!(matches!(cmds.cmds[0], DrawCmd::FillRect { anti_alias: false, .. }));
    assert!(matches!(cmds.cmds[1], DrawCmd::PushClip { .. }));

    // The end step patches both placeholders, then appends the clip pop and the border.
    let final_rect = Rect::new(10.0, 10.0, 120.0, 60.0);
    let final_content = Rect::new(15.0, 15.0, 110.0, 50.0);
    end_frame_commands(
        res.token,
        FrameSpec { layer: Layer::default(), rect: final_rect, ..spec },
        final_rect,
        final_content,
        &mut cmds,
    );
    assert_eq!(
        cmds.cmds,
        vec![
            DrawCmd::FillRect { anti_alias: false, rect: final_rect, color: white, z: 0 },
            DrawCmd::PushClip { rect: final_content },
            DrawCmd::PopClip,
            DrawCmd::StrokeRect { anti_alias: false, rect: final_rect, color: grey, width: 2.0, z: 0 },
        ]
    );
}
