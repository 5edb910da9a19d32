use wmdraw::color::Color;
use wmdraw::draw::{Draw, RenderOp};
use wmdraw::errors::{ContextError, FontError, ScreenError, TextError};
use wmdraw::protocol::{creation_requests, visual_for_root, ScreenInfo, XRequest};
use wmdraw::window_type::WindowType;

fn screen(width_px: u16, height_px: u16) -> ScreenInfo {
    ScreenInfo { root: 1, root_visual: 33, black_pixel: 0, width_px, height_px }
}

#[test]
fn screen_size_valid_and_out_of_range() {
    let d = Draw::new(vec![screen(1920, 1080), screen(1280, 1024)]);
    assert_eq!(d.screen_size(0), Ok((1920, 1080)));
    assert_eq!(d.screen_size(1), Ok((1280, 1024)));
    assert_eq!(d.screen_size(2), Err(ScreenError));
    let (w, h) = d.screen_size(0).unwrap();
    assert!(w > 0 && h > 0);
}

#[test]
fn context_for_requires_recorded_window() {
    let mut d = Draw::new(vec![screen(800, 600)]);
    assert!(matches!(d.context_for(42), Err(ContextError)));
    d.record_window(42);
    let ctx = d.context_for(42).unwrap();
    assert_eq!(ctx.window, 42);
    assert!(ctx.active_font.is_none());
    assert!(ctx.ops.is_empty());
    assert!(matches!(d.context_for(7), Err(ContextError)));
}

#[test]
fn font_selection_requires_registration() {
    let mut d = Draw::new(vec![screen(800, 600)]);
    d.register_font("ProFont For Powerline:size=10");
    d.record_window(5);
    let mut ctx = d.context_for(5).unwrap();
    assert_eq!(ctx.font("ProFont For Powerline:size=10", 12), Ok(()));
    let chosen = ctx.active_font.as_ref().unwrap();
    assert_eq!(chosen.name, "ProFont For Powerline:size=10");
    assert_eq!(chosen.point_size, 12);
    assert_eq!(ctx.font("sans", 12), Err(FontError));
    // a failed selection keeps the previous active font
    let chosen = ctx.active_font.as_ref().unwrap();
    assert_eq!(chosen.name, "ProFont For Powerline:size=10");
}

#[test]
fn font_snapshot_isolation_across_registration() {
    let mut d = Draw::new(vec![screen(800, 600)]);
    d.record_window(9);
    d.register_font("first");
    let mut before = d.context_for(9).unwrap();
    d.register_font("second");
    let mut after = d.context_for(9).unwrap();
    assert_eq!(before.font("second", 10), Err(FontError));
    assert_eq!(before.font("first", 10), Ok(()));
    assert_eq!(after.font("second", 10), Ok(()));
    assert_eq!(after.font("first", 10), Ok(()));
}

#[test]
fn register_font_twice_is_idempotent() {
    let mut d = Draw::new(vec![screen(800, 600)]);
    d.register_font("mono");
    d.register_font("mono");
    d.record_window(1);
    let mut ctx = d.context_for(1).unwrap();
    assert_eq!(ctx.font("mono", 8), Ok(()));
}

#[test]
fn prepare_window_plan_contents() {
    let s = ScreenInfo { root: 77, root_visual: 3, black_pixel: 11, width_px: 640, height_px: 480 };
    let d = Draw::new(vec![s]);
    let reqs = d.prepare_window(&WindowType::Dock, 123, 640, 32).unwrap();
    assert_eq!(reqs.len(), 4);
    assert_eq!(
        reqs[0],
        XRequest::CreateWindow {
            id: 123,
            parent: 77,
            x: 0,
            y: 0,
            width: 640,
            height: 32,
            border_width: 0,
            background_pixel: 11,
            exposure_events: true,
        }
    );
    assert_eq!(
        reqs[1],
        XRequest::ChangeProperty {
            window: 123,
            property: "_NET_WM_WINDOW_TYPE".to_string(),
            property_type: "UTF8_STRING".to_string(),
            value: "_NET_WM_WINDOW_TYPE_DOCK".to_string(),
        }
    );
    assert_eq!(reqs[2], XRequest::MapWindow { id: 123 });
    assert_eq!(reqs[3], XRequest::Flush);
}

#[test]
fn prepare_window_fails_without_screens() {
    let d = Draw::new(vec![]);
    assert!(d.prepare_window(&WindowType::Menu, 1, 100, 100).is_err());
}

#[test]
fn property_change_precedes_map_request() {
    let s = screen(640, 480);
    for t in [WindowType::Dock, WindowType::Menu, WindowType::Normal] {
        let reqs = creation_requests(&s, &t, 9, 100, 20);
        let prop = reqs.iter().position(|r| matches!(r, XRequest::ChangeProperty { .. })).unwrap();
        let map = reqs.iter().position(|r| matches!(r, XRequest::MapWindow { .. })).unwrap();
        assert!(prop < map);
    }
}

#[test]
fn visual_lookup_finds_first_match() {
    assert_eq!(visual_for_root(&vec![5, 7, 7, 9], 7), Ok(1));
    assert_eq!(visual_for_root(&vec![5], 5), Ok(0));
    assert!(visual_for_root(&vec![5, 7], 8).is_err());
    assert!(visual_for_root(&vec![], 8).is_err());
}

fn test_context() -> wmdraw::draw::DrawContext {
    let mut d = Draw::new(vec![screen(800, 600)]);
    d.register_font("mono");
    d.record_window(3);
    d.context_for(3).unwrap()
}

#[test]
fn text_empty_string_costs_only_padding() {
    let mut ctx = test_context();
    assert_eq!(ctx.text("", Some((0, 0)), (3, 4, 5, 6)), Ok((7, 11)));
}

#[test]
fn empty_text_ignores_backend_line_height() {
    // a text engine reports its line height for an empty layout; the extent
    // must still be exactly the padding sums, and the recorded render has
    // zero size
    let mut ctx = test_context();
    assert_eq!(ctx.text("", Some((7, 13)), (3, 4, 5, 6)), Ok((7, 11)));
    match &ctx.ops[1] {
        RenderOp::ShowText { text, width, height, .. } => {
            assert_eq!(text, "");
            assert_eq!((*width, *height), (0, 0));
        }
        other => panic!("unexpected op: {:?}", other),
    }
    assert_eq!(ctx.text("", None, (1, 2, 3, 4)), Err(TextError));
}

#[test]
fn text_zero_padding_reports_measured_size() {
    let mut ctx = test_context();
    assert_eq!(ctx.text("hello", Some((42, 13)), (0, 0, 0, 0)), Ok((42, 13)));
}

#[test]
fn text_without_layout_fails() {
    let mut ctx = test_context();
    assert_eq!(ctx.text("hello", None, (1, 1, 1, 1)), Err(TextError));
    assert!(ctx.ops.is_empty());
}

#[test]
fn text_restores_origin_and_records_render() {
    let mut ctx = test_context();
    ctx.translate(10, 20);
    ctx.font("mono", 11).unwrap();
    assert_eq!(ctx.text("hi", Some((5, 7)), (1, 2, 3, 4)), Ok((8, 14)));
    assert_eq!((ctx.origin_x, ctx.origin_y), (10, 20));
    assert_eq!(ctx.ops.len(), 4);
    assert!(matches!(ctx.ops[0], RenderOp::Translate { dx: 10, dy: 20 }));
    assert!(matches!(ctx.ops[1], RenderOp::Translate { dx: 1, dy: 3 }));
    match &ctx.ops[2] {
        RenderOp::ShowText { text, font, width, height } => {
            assert_eq!(text, "hi");
            let f = font.as_ref().unwrap();
            assert_eq!(f.name, "mono");
            assert_eq!(f.point_size, 11);
            assert_eq!((*width, *height), (5, 7));
        }
        other => panic!("unexpected op: {:?}", other),
    }
    assert!(matches!(ctx.ops[3], RenderOp::Translate { dx: -1, dy: -3 }));
}

#[test]
fn color_and_rectangle_are_recorded() {
    let mut ctx = test_context();
    ctx.color(0x112233);
    assert_eq!(ctx.active_color, Color::new_from_hex(0x112233));
    ctx.rectangle(1, 2, 30, 40);
    assert_eq!(ctx.ops.len(), 2);
    match ctx.ops[0] {
        RenderOp::SetColor { color } => assert_eq!(color.rgb(), (0x11, 0x22, 0x33)),
        _ => panic!("expected a color op"),
    }
    assert!(matches!(ctx.ops[1], RenderOp::FillRectangle { x: 1, y: 2, w: 30, h: 40 }));
}

#[test]
fn layout_request_carries_font_and_ellipsization() {
    let mut ctx = test_context();
    let req = ctx.layout_request("status text");
    assert_eq!(req.text, "status text");
    assert!(req.font.is_none());
    assert!(req.ellipsize_end);
    ctx.font("mono", 9).unwrap();
    let req = ctx.layout_request("status text");
    let f = req.font.unwrap();
    assert_eq!(f.name, "mono");
    assert_eq!(f.point_size, 9);
}
