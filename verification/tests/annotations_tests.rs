use gnome_shot::annotations::{
    Annotation, ArrowAnnotation, BlurAnnotation, Color, DrawOp, EllipseAnnotation,
    HighlightAnnotation, LineAnnotation, Point, RectAnnotation, ARROW_HEAD_LENGTH,
    BLUR_BLOCK_SIZE, HIGHLIGHT_ALPHA,
};

fn blue() -> Color {
    Color::new(0, 400, 1000, 1000)
}

fn all_variants(start: Point, end: Point) -> Vec<Annotation> {
    vec![
        Annotation::Arrow(ArrowAnnotation::new(start, end, blue(), 3000)),
        Annotation::Rectangle(RectAnnotation::new(start, end, blue(), 3000, false)),
        Annotation::Line(LineAnnotation::new(start, end, blue(), 3000)),
        Annotation::Ellipse(EllipseAnnotation::new(start, end, blue(), 3000, true)),
        Annotation::Highlight(HighlightAnnotation::new(start, end, blue())),
        Annotation::Blur(BlurAnnotation::new(start, end)),
    ]
}

#[test]
fn bounds_are_nonnegative_and_corner_order_independent() {
    // The same box described by both drag directions: (5, 5) -> (1, 1)
    // and (1, 1) -> (5, 5), in milli-pixels.
    let a = Point::new(5000, 5000);
    let b = Point::new(1000, 1000);
    let forward = all_variants(b, a);
    let backward = all_variants(a, b);
    for (f, r) in forward.iter().zip(backward.iter()) {
        let fb = f.bounds();
        let rb = r.bounds();
        assert_eq!(fb, rb);
        assert_eq!(fb, (1000, 1000, 4000, 4000));
        assert!(fb.2 >= 0 && fb.3 >= 0);
    }
}

#[test]
fn bounds_of_degenerate_box_are_zero_sized() {
    let p = Point::new(2500, -1500);
    for v in all_variants(p, p) {
        assert_eq!(v.bounds(), (2500, -1500, 0, 0));
    }
}

#[test]
fn arrow_ops_end_with_head_of_fixed_length() {
    let arrow = ArrowAnnotation::new(Point::new(0, 0), Point::new(20000, 0), blue(), 3000);
    let ops = arrow.draw();
    assert_eq!(ops.len(), 7);
    assert_eq!(ops[0], DrawOp::SetSourceRgba { color: blue() });
    assert_eq!(ops[1], DrawOp::SetLineWidth { width: 3000 });
    assert_eq!(ops[2], DrawOp::SetLineCapRound);
    assert_eq!(ops[3], DrawOp::MoveTo { x: 0, y: 0 });
    assert_eq!(ops[4], DrawOp::LineTo { x: 20000, y: 0 });
    assert_eq!(ops[5], DrawOp::Stroke);
    assert_eq!(
        ops[6],
        DrawOp::ArrowHead { sx: 0, sy: 0, ex: 20000, ey: 0, length: ARROW_HEAD_LENGTH }
    );
}

#[test]
fn rectangle_ops_use_bounding_box_and_fill_flag() {
    let stroked = RectAnnotation::new(Point::new(4000, 1000), Point::new(1000, 3000), blue(), 2000, false);
    let ops = stroked.draw();
    assert_eq!(ops.len(), 4);
    assert_eq!(ops[2], DrawOp::Rect { x: 1000, y: 1000, width: 3000, height: 2000 });
    assert_eq!(ops[3], DrawOp::Stroke);

    let filled = RectAnnotation::new(Point::new(4000, 1000), Point::new(1000, 3000), blue(), 2000, true);
    assert_eq!(filled.draw()[3], DrawOp::Fill);
}

#[test]
fn highlight_forces_fixed_translucency() {
    let solid = Color::new(1000, 900, 0, 1000);
    let h = HighlightAnnotation::new(Point::new(0, 0), Point::new(8000, 4000), solid);
    let ops = h.draw();
    assert_eq!(ops.len(), 3);
    assert_eq!(
        ops[0],
        DrawOp::SetSourceRgba { color: Color::new(1000, 900, 0, HIGHLIGHT_ALPHA) }
    );
    assert_eq!(ops[1], DrawOp::Rect { x: 0, y: 0, width: 8000, height: 4000 });
    assert_eq!(ops[2], DrawOp::Fill);
}

#[test]
fn ellipse_ops_carry_center_and_radii() {
    let e = EllipseAnnotation::new(Point::new(0, 0), Point::new(10000, 6000), blue(), 2000, false);
    let ops = e.draw();
    assert_eq!(ops.len(), 4);
    assert_eq!(ops[2], DrawOp::Ellipse { cx: 5000, cy: 3000, rx: 5000, ry: 3000 });
    assert_eq!(ops[3], DrawOp::Stroke);
}

#[test]
fn degenerate_ellipse_draws_nothing() {
    let e = EllipseAnnotation::new(Point::new(3000, 0), Point::new(3000, 9000), blue(), 2000, true);
    let ops = e.draw();
    assert_eq!(ops.len(), 2);
}

#[test]
fn blur_tiles_checkerboard_with_clipped_last_cells() {
    // A 25x15 pixel box with 10-pixel cells: 3 columns, 2 rows.
    let b = BlurAnnotation::new(Point::new(0, 0), Point::new(25000, 15000));
    assert_eq!(b.block_size, BLUR_BLOCK_SIZE);
    let ops = b.draw();
    assert_eq!(ops.len(), 2 * 3 * 3);
    // First cell: dark shade, full cell.
    assert_eq!(ops[0], DrawOp::SetSourceGray { shade: 300 });
    assert_eq!(ops[1], DrawOp::Rect { x: 0, y: 0, width: 10000, height: 10000 });
    assert_eq!(ops[2], DrawOp::Fill);
    // Second cell alternates the shade.
    assert_eq!(ops[3], DrawOp::SetSourceGray { shade: 500 });
    // Last cell of the first row is clipped to the remaining 5 pixels.
    assert_eq!(ops[7], DrawOp::Rect { x: 20000, y: 0, width: 5000, height: 10000 });
    // Second row starts with the light shade and is clipped to 5 pixels
    // of height.
    assert_eq!(ops[9], DrawOp::SetSourceGray { shade: 500 });
    assert_eq!(ops[10], DrawOp::Rect { x: 0, y: 10000, width: 10000, height: 5000 });
}

#[test]
fn empty_blur_draws_nothing() {
    let b = BlurAnnotation::new(Point::new(500, 500), Point::new(500, 9000));
    assert_eq!(b.draw().len(), 0);
}

#[test]
fn line_ops_connect_the_two_points() {
    let l = LineAnnotation::new(Point::new(-2000, 0), Point::new(4000, 3000), blue(), 1000);
    let ops = l.draw();
    assert_eq!(ops.len(), 6);
    assert_eq!(ops[3], DrawOp::MoveTo { x: -2000, y: 0 });
    assert_eq!(ops[4], DrawOp::LineTo { x: 4000, y: 3000 });
}
