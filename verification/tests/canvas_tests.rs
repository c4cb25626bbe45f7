use gnome_shot::annotations::{Annotation, Color, DrawOp, Point, RectAnnotation};
use gnome_shot::canvas::{CanvasWidget, SCALE_MAX, SCALE_MIN, SCALE_ONE};
use gnome_shot::capture::{CaptureMode, Screenshot};
use gnome_shot::tools::Tool;

fn loaded_canvas() -> CanvasWidget {
    let mut c = CanvasWidget::new();
    let shot = Screenshot::new(100, 80, CaptureMode::Region);
    // A zero-sized viewport keeps the identity transform (scale 1.0, no
    // offsets), so surface and image coordinates coincide.
    c.load_screenshot(shot, 0, 0);
    c
}

#[test]
fn new_canvas_defaults() {
    let c = CanvasWidget::new();
    assert!(c.screenshot.is_none());
    assert_eq!(c.current_tool(), Tool::Arrow);
    assert_eq!(c.current_color(), Color::new(1000, 0, 0, 1000));
    assert_eq!(c.stroke_width, 3000);
    assert_eq!(c.scale, SCALE_ONE);
    assert!(!c.is_drawing);
}

#[test]
fn press_without_image_is_ignored() {
    let mut c = CanvasWidget::new();
    c.on_press(1000, 1000);
    assert!(!c.is_drawing);
    assert!(c.drag_start.is_none());
}

#[test]
fn short_drag_commits_nothing() {
    // Start (0, 0), release (2, 2): distance about 2.83 pixels, under
    // the five-pixel threshold.
    let mut c = loaded_canvas();
    c.on_press(0, 0);
    c.on_release(2000, 2000);
    assert_eq!(c.annotations.len(), 0);
    assert!(!c.can_undo());
    assert!(!c.can_redo());
    assert!(!c.is_drawing);
    assert!(c.drag_start.is_none());
}

#[test]
fn long_drag_commits_one_rectangle_with_exact_bounds() {
    // Start (0, 0), release (10, 10): distance about 14.1 pixels.
    let mut c = loaded_canvas();
    c.set_tool(Tool::Rectangle);
    c.on_press(0, 0);
    c.on_release(10_000, 10_000);
    assert_eq!(c.annotations.len(), 1);
    let committed = c.annotations[0];
    assert_eq!(
        committed,
        Annotation::Rectangle(RectAnnotation::new(
            Point::new(0, 0),
            Point::new(10_000, 10_000),
            Color::new(1000, 0, 0, 1000),
            3000,
            false,
        ))
    );
    assert_eq!(committed.bounds(), (0, 0, 10_000, 10_000));
    assert!(c.can_undo());
    assert!(!c.can_redo());
}

#[test]
fn commit_uses_current_color_and_stroke() {
    let mut c = loaded_canvas();
    c.set_tool(Tool::Line);
    c.set_color(Color::new(0, 800, 0, 1000));
    c.set_stroke_width(5000);
    c.on_press(0, 0);
    c.on_motion(4000, 4000);
    c.on_release(20_000, 0);
    assert_eq!(c.annotations.len(), 1);
    match c.annotations[0] {
        Annotation::Line(l) => {
            assert_eq!(l.color, Color::new(0, 800, 0, 1000));
            assert_eq!(l.stroke_width, 5000);
            assert_eq!(l.end, Point::new(20_000, 0));
        }
        _ => panic!("expected a line"),
    }
}

#[test]
fn motion_without_drag_changes_nothing() {
    let mut c = loaded_canvas();
    c.on_motion(5000, 5000);
    assert!(c.drag_current.is_none());
}

#[test]
fn release_transform_maps_surface_to_image_space() {
    let mut c = CanvasWidget::new();
    // 2000x1000 image in a 1000x800 viewport: fits at scale 0.5,
    // centered vertically.
    let shot = Screenshot::new(2000, 1000, CaptureMode::Fullscreen);
    c.load_screenshot(shot, 1000, 800);
    assert_eq!(c.scale, 500_000);
    assert_eq!(c.offset_x, 0);
    assert_eq!(c.offset_y, 150_000);
    c.set_tool(Tool::Rectangle);
    // Surface (0, 150) px maps to image (0, 0); surface (100, 250) px
    // maps to image (200, 200).
    c.on_press(0, 150_000);
    c.on_release(100_000, 250_000);
    assert_eq!(c.annotations.len(), 1);
    match c.annotations[0] {
        Annotation::Rectangle(r) => {
            assert_eq!(r.start, Point::new(0, 0));
            assert_eq!(r.end, Point::new(200_000, 200_000));
        }
        _ => panic!("expected a rectangle"),
    }
}

#[test]
fn undo_redo_roundtrip_on_canvas() {
    let mut c = loaded_canvas();
    c.on_press(0, 0);
    c.on_release(30_000, 0);
    let before = c.annotations.clone();
    assert!(c.undo());
    assert_eq!(c.annotations.len(), 0);
    assert!(c.can_redo());
    assert!(c.redo());
    assert_eq!(c.annotations, before);
    // Nothing left to redo, and another undo still works.
    assert!(!c.can_redo());
    assert!(c.undo());
    assert!(!c.can_undo());
    assert!(!c.undo());
}

#[test]
fn new_commit_after_undo_clears_redo() {
    let mut c = loaded_canvas();
    c.on_press(0, 0);
    c.on_release(30_000, 0);
    assert!(c.undo());
    assert!(c.can_redo());
    c.on_press(0, 0);
    c.on_release(0, 30_000);
    assert!(!c.can_redo());
    assert_eq!(c.annotations.len(), 1);
}

#[test]
fn load_screenshot_resets_history_and_list() {
    let mut c = loaded_canvas();
    c.on_press(0, 0);
    c.on_release(30_000, 0);
    c.on_press(0, 0);
    c.on_release(0, 30_000);
    assert!(c.undo());
    assert!(c.can_undo());
    assert!(c.can_redo());
    let shot = Screenshot::new(640, 480, CaptureMode::Window);
    c.load_screenshot(shot, 0, 0);
    assert!(!c.can_undo());
    assert!(!c.can_redo());
    assert_eq!(c.annotations.len(), 0);
    assert_eq!(c.screenshot, Some(shot));
}

#[test]
fn scale_never_leaves_range_under_any_scrolling() {
    let mut c = loaded_canvas();
    let deltas: [i64; 10] = [
        1000,
        -1000,
        50_000,
        -50_000,
        1_000_000_000_000,
        -1_000_000_000_000,
        7,
        -7,
        999_999_999,
        -3,
    ];
    for _ in 0..20 {
        for &dy in deltas.iter() {
            c.on_scroll(dy);
            assert!(SCALE_MIN <= c.scale && c.scale <= SCALE_MAX);
        }
    }
}

#[test]
fn scroll_steps_are_multiplicative_and_clamped() {
    let mut c = loaded_canvas();
    assert_eq!(c.scale, SCALE_ONE);
    // dy = 1.0 scales by 0.9.
    c.on_scroll(1000);
    assert_eq!(c.scale, 900_000);
    // dy = -1.0 scales by 1.1.
    c.on_scroll(-1000);
    assert_eq!(c.scale, 990_000);
    // A huge zoom-out lands on the lower clamp.
    c.on_scroll(1_000_000_000_000);
    assert_eq!(c.scale, SCALE_MIN);
    // Repeated zoom-in saturates at the upper clamp.
    for _ in 0..50 {
        c.on_scroll(-9000);
    }
    assert_eq!(c.scale, SCALE_MAX);
}

#[test]
fn export_plan_of_empty_list_is_base_image_only() {
    let c = loaded_canvas();
    let plan = c.export_plan().expect("image is loaded");
    assert_eq!(plan.scale, SCALE_ONE);
    assert_eq!(plan.offset_x, 0);
    assert_eq!(plan.offset_y, 0);
    assert_eq!(plan.ops, vec![DrawOp::PaintBase]);
}

#[test]
fn export_plan_without_image_is_none() {
    let c = CanvasWidget::new();
    assert!(c.export_plan().is_none());
    assert!(c.render_plan().is_none());
}

#[test]
fn export_plan_flattens_annotations_in_order_at_native_scale() {
    let mut c = loaded_canvas();
    c.on_scroll(1000);
    c.set_tool(Tool::Highlight);
    c.on_press(0, 0);
    c.on_release(9000, 9000);
    let plan = c.export_plan().expect("image is loaded");
    // Export ignores the live view scale.
    assert_eq!(plan.scale, SCALE_ONE);
    assert_eq!(plan.ops[0], DrawOp::PaintBase);
    let expected = c.annotations[0].draw();
    assert_eq!(&plan.ops[1..], &expected[..]);
}

#[test]
fn render_plan_overlays_provisional_shape_while_dragging() {
    let mut c = loaded_canvas();
    c.set_tool(Tool::Rectangle);
    c.on_press(0, 0);
    c.on_motion(12_000, 8_000);
    let plan = c.render_plan().expect("image is loaded");
    // Nothing is committed yet; the plan still previews the rectangle.
    assert_eq!(c.annotations.len(), 0);
    let preview = RectAnnotation::new(
        Point::new(0, 0),
        Point::new(12_000, 8_000),
        Color::new(1000, 0, 0, 1000),
        3000,
        false,
    );
    let expected = preview.draw();
    assert_eq!(plan.ops[0], DrawOp::PaintBase);
    assert_eq!(&plan.ops[1..], &expected[..]);
    // The live plan carries the view transform.
    assert_eq!(plan.scale, c.scale);
    // Release under the threshold: the preview leaves no trace.
    c.on_release(1000, 1000);
    let after = c.render_plan().expect("image is loaded");
    assert_eq!(after.ops, vec![DrawOp::PaintBase]);
}

#[test]
fn screenshot_getters() {
    let shot = Screenshot::new(800, 600, CaptureMode::Region);
    assert_eq!(shot.width(), 800);
    assert_eq!(shot.height(), 600);
    assert_eq!(shot.capture_mode, CaptureMode::Region);
}

#[test]
fn tool_names() {
    assert_eq!(Tool::Arrow.name(), "Arrow");
    assert_eq!(Tool::Rectangle.name(), "Rectangle");
    assert_eq!(Tool::Line.name(), "Line");
    assert_eq!(Tool::Ellipse.name(), "Ellipse");
    assert_eq!(Tool::Highlight.name(), "Highlight");
    assert_eq!(Tool::Blur.name(), "Blur");
    assert_eq!(Tool::default(), Tool::Arrow);
}

#[test]
fn every_tool_commits_its_own_variant() {
    let tools = [
        Tool::Arrow,
        Tool::Rectangle,
        Tool::Line,
        Tool::Ellipse,
        Tool::Highlight,
        Tool::Blur,
    ];
    for tool in tools {
        let mut c = loaded_canvas();
        c.set_tool(tool);
        c.on_press(0, 0);
        c.on_release(20_000, 20_000);
        assert_eq!(c.annotations.len(), 1);
        let matches_tool = match (tool, c.annotations[0]) {
            (Tool::Arrow, Annotation::Arrow(_)) => true,
            (Tool::Rectangle, Annotation::Rectangle(r)) => !r.filled,
            (Tool::Line, Annotation::Line(_)) => true,
            (Tool::Ellipse, Annotation::Ellipse(e)) => !e.filled,
            (Tool::Highlight, Annotation::Highlight(_)) => true,
            (Tool::Blur, Annotation::Blur(_)) => true,
            _ => false,
        };
        assert!(matches_tool);
    }
}
