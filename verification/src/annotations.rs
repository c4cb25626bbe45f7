//! The annotation model: shape variants, their bounding boxes, and the
//! exact stream of drawing operations each shape renders as.
//!
//! Coordinates are image-space milli-pixels (1 pixel = 1000 units); colors
//! are RGBA with milli-unit channels (1.0 = 1000). A rendering backend
//! executes a [`DrawOp`] stream against a real drawing surface, applying
//! the output scale uniformly to every coordinate, width and length it
//! contains; everything the backend must draw is decided here.

use vstd::prelude::*;

verus! {

/// Bound on image-space coordinates, in milli-pixels. Large enough for any
/// point a pointer gesture can reach (surface coordinates are bounded by
/// the canvas, and the view scale never drops below one micro-unit), and
/// small enough that all bounding-box and tiling arithmetic stays within
/// `i64`.
pub const COORD_LIMIT: i64 = 2_000_000_000_000_000;

/// Largest channel value of a color: 1.0 in milli-units.
pub const COLOR_MAX: i64 = 1000;

/// The fixed translucency of a highlight: 0.35 in milli-units.
pub const HIGHLIGHT_ALPHA: i64 = 350;

/// Side of one mosaic cell of a blur, in milli-pixels (10 pixels).
pub const BLUR_BLOCK_SIZE: i64 = 10_000;

/// Largest mosaic cell side accepted, in milli-pixels (1000 pixels).
pub const MAX_BLOCK_SIZE: i64 = 1_000_000;

/// The two gray shades of the blur checkerboard: 0.3 and 0.5 in
/// milli-units.
pub const BLUR_SHADE_DARK: i64 = 300;
pub const BLUR_SHADE_LIGHT: i64 = 500;

/// Length of the two arrow-head wings, in milli-pixels (15 pixels).
pub const ARROW_HEAD_LENGTH: i64 = 15_000;

/// The smaller of two integers.
pub open spec fn imin(a: int, b: int) -> int {
    if a <= b {
        a
    } else {
        b
    }
}

/// The magnitude of an integer.
pub open spec fn iabs(a: int) -> int {
    if a >= 0 {
        a
    } else {
        -a
    }
}

/// A 2D point in image-space milli-pixels.
#[derive(Debug, Clone, Copy, PartialEq, Eq, Structural)]
pub struct Point {
    pub x: i64,
    pub y: i64,
}

impl Point {
    /// A point within the coordinate range all geometry arithmetic is
    /// proved safe for.
    pub open spec fn wf(&self) -> bool {
        &&& -COORD_LIMIT <= self.x <= COORD_LIMIT
        &&& -COORD_LIMIT <= self.y <= COORD_LIMIT
    }

    pub fn new(x: i64, y: i64) -> (p: Self)
        ensures
            p == (Point { x, y }),
    {
        Point { x, y }
    }
}

/// An RGBA color with channels in milli-units.
#[derive(Debug, Clone, Copy, PartialEq, Eq, Structural)]
pub struct Color {
    pub red: i64,
    pub green: i64,
    pub blue: i64,
    pub alpha: i64,
}

impl Color {
    /// Every channel within [0, 1] in milli-units.
    pub open spec fn wf(&self) -> bool {
        &&& 0 <= self.red <= COLOR_MAX
        &&& 0 <= self.green <= COLOR_MAX
        &&& 0 <= self.blue <= COLOR_MAX
        &&& 0 <= self.alpha <= COLOR_MAX
    }

    pub fn new(red: i64, green: i64, blue: i64, alpha: i64) -> (c: Self)
        ensures
            c == (Color { red, green, blue, alpha }),
    {
        Color { red, green, blue, alpha }
    }
}

/// One primitive operation of the rendering backend. Coordinates, widths
/// and lengths are image-space milli-pixels; the backend multiplies each
/// by the output scale of the stream it executes.
#[derive(Debug, Clone, Copy, PartialEq, Eq, Structural)]
pub enum DrawOp {
    /// Select an RGBA source color.
    SetSourceRgba { color: Color },
    /// Select an opaque gray source, all three channels at `shade`.
    SetSourceGray { shade: i64 },
    /// Set the stroke width.
    SetLineWidth { width: i64 },
    /// Round the caps of subsequent strokes.
    SetLineCapRound,
    /// Begin a path at a point.
    MoveTo { x: i64, y: i64 },
    /// Extend the path with a line segment.
    LineTo { x: i64, y: i64 },
    /// Set the path to an axis-aligned rectangle.
    Rect { x: i64, y: i64, width: i64, height: i64 },
    /// Set the path to an axis-aligned ellipse with center and radii.
    Ellipse { cx: i64, cy: i64, rx: i64, ry: i64 },
    /// Stroke the two arrow-head wing segments at the `(ex, ey)` end of
    /// the shaft from `(sx, sy)`, each wing `length` long. The wing
    /// directions need trigonometry, so they are the backend's to compute.
    ArrowHead { sx: i64, sy: i64, ex: i64, ey: i64, length: i64 },
    /// Stroke the current path.
    Stroke,
    /// Fill the current path.
    Fill,
    /// Paint the base image at the origin, at the stream's output scale.
    PaintBase,
}

/// X of the bounding box spanned by two corner points.
pub open spec fn rect_x(start: Point, end: Point) -> int {
    imin(start.x as int, end.x as int)
}

/// Y of the bounding box spanned by two corner points.
pub open spec fn rect_y(start: Point, end: Point) -> int {
    imin(start.y as int, end.y as int)
}

/// Width of the bounding box spanned by two corner points.
pub open spec fn rect_w(start: Point, end: Point) -> int {
    iabs(end.x - start.x)
}

/// Height of the bounding box spanned by two corner points.
pub open spec fn rect_h(start: Point, end: Point) -> int {
    iabs(end.y - start.y)
}

/// The axis-aligned bounding box `(x, y, width, height)` spanned by two
/// corner points, independent of drag direction.
pub open spec fn bounds_rect(start: Point, end: Point) -> (int, int, int, int) {
    (rect_x(start, end), rect_y(start, end), rect_w(start, end), rect_h(start, end))
}

/// Shared executable bounding-box computation.
fn bounds_of(start: &Point, end: &Point) -> (r: (i64, i64, i64, i64))
    requires
        start.wf(),
        end.wf(),
    ensures
        (r.0 as int, r.1 as int, r.2 as int, r.3 as int) == bounds_rect(*start, *end),
        r.2 >= 0,
        r.3 >= 0,
{
    let x = if start.x <= end.x {
        start.x
    } else {
        end.x
    };
    let y = if start.y <= end.y {
        start.y
    } else {
        end.y
    };
    let w = if end.x >= start.x {
        end.x - start.x
    } else {
        start.x - end.x
    };
    let h = if end.y >= start.y {
        end.y - start.y
    } else {
        start.y - end.y
    };
    (x, y, w, h)
}

/// An arrow from `start` to `end` with a head at `end`.
#[derive(Debug, Clone, Copy, PartialEq, Eq, Structural)]
pub struct ArrowAnnotation {
    pub start: Point,
    pub end: Point,
    pub color: Color,
    pub stroke_width: i64,
}

/// The operations that render an arrow: its shaft stroked with round
/// caps, then the two head wings.
pub open spec fn arrow_draw_ops(a: ArrowAnnotation) -> Seq<DrawOp> {
    seq![
        DrawOp::SetSourceRgba { color: a.color },
        DrawOp::SetLineWidth { width: a.stroke_width },
        DrawOp::SetLineCapRound,
        DrawOp::MoveTo { x: a.start.x, y: a.start.y },
        DrawOp::LineTo { x: a.end.x, y: a.end.y },
        DrawOp::Stroke,
        DrawOp::ArrowHead {
            sx: a.start.x,
            sy: a.start.y,
            ex: a.end.x,
            ey: a.end.y,
            length: ARROW_HEAD_LENGTH,
        },
    ]
}

impl ArrowAnnotation {
    pub open spec fn wf(&self) -> bool {
        &&& self.start.wf()
        &&& self.end.wf()
        &&& self.color.wf()
    }

    pub fn new(start: Point, end: Point, color: Color, stroke_width: i64) -> (a: Self)
        ensures
            a == (ArrowAnnotation { start, end, color, stroke_width }),
    {
        ArrowAnnotation { start, end, color, stroke_width }
    }

    /// The operations that render this arrow.
    pub fn draw(&self) -> (ops: Vec<DrawOp>)
        ensures
            ops@ == arrow_draw_ops(*self),
    {
        let mut ops: Vec<DrawOp> = Vec::new();
        ops.push(DrawOp::SetSourceRgba { color: self.color });
        ops.push(DrawOp::SetLineWidth { width: self.stroke_width });
        ops.push(DrawOp::SetLineCapRound);
        ops.push(DrawOp::MoveTo { x: self.start.x, y: self.start.y });
        ops.push(DrawOp::LineTo { x: self.end.x, y: self.end.y });
        ops.push(DrawOp::Stroke);
        ops.push(
            DrawOp::ArrowHead {
                sx: self.start.x,
                sy: self.start.y,
                ex: self.end.x,
                ey: self.end.y,
                length: ARROW_HEAD_LENGTH,
            },
        );
        proof {
            assert(ops@ =~= arrow_draw_ops(*self));
        }
        ops
    }

    /// Bounding box in image-space milli-pixels.
    pub fn bounds(&self) -> (r: (i64, i64, i64, i64))
        requires
            self.wf(),
        ensures
            (r.0 as int, r.1 as int, r.2 as int, r.3 as int) == bounds_rect(self.start, self.end),
            r.2 >= 0,
            r.3 >= 0,
    {
        bounds_of(&self.start, &self.end)
    }
}

/// An axis-aligned rectangle, stroked or filled.
#[derive(Debug, Clone, Copy, PartialEq, Eq, Structural)]
pub struct RectAnnotation {
    pub start: Point,
    pub end: Point,
    pub color: Color,
    pub stroke_width: i64,
    pub filled: bool,
}

/// The operations that render a rectangle over its bounding box.
pub open spec fn rect_draw_ops(r: RectAnnotation) -> Seq<DrawOp> {
    seq![
        DrawOp::SetSourceRgba { color: r.color },
        DrawOp::SetLineWidth { width: r.stroke_width },
        DrawOp::Rect {
            x: rect_x(r.start, r.end) as i64,
            y: rect_y(r.start, r.end) as i64,
            width: rect_w(r.start, r.end) as i64,
            height: rect_h(r.start, r.end) as i64,
        },
        if r.filled {
            DrawOp::Fill
        } else {
            DrawOp::Stroke
        },
    ]
}

impl RectAnnotation {
    pub open spec fn wf(&self) -> bool {
        &&& self.start.wf()
        &&& self.end.wf()
        &&& self.color.wf()
    }

    pub fn new(start: Point, end: Point, color: Color, stroke_width: i64, filled: bool) -> (a:
        Self)
        ensures
            a == (RectAnnotation { start, end, color, stroke_width, filled }),
    {
        RectAnnotation { start, end, color, stroke_width, filled }
    }

    /// The operations that render this rectangle.
    pub fn draw(&self) -> (ops: Vec<DrawOp>)
        requires
            self.wf(),
        ensures
            ops@ == rect_draw_ops(*self),
    {
        let (x, y, w, h) = bounds_of(&self.start, &self.end);
        let mut ops: Vec<DrawOp> = Vec::new();
        ops.push(DrawOp::SetSourceRgba { color: self.color });
        ops.push(DrawOp::SetLineWidth { width: self.stroke_width });
        ops.push(DrawOp::Rect { x, y, width: w, height: h });
        ops.push(
            if self.filled {
                DrawOp::Fill
            } else {
                DrawOp::Stroke
            },
        );
        proof {
            assert(ops@ =~= rect_draw_ops(*self));
        }
        ops
    }

    /// Bounding box in image-space milli-pixels.
    pub fn bounds(&self) -> (r: (i64, i64, i64, i64))
        requires
            self.wf(),
        ensures
            (r.0 as int, r.1 as int, r.2 as int, r.3 as int) == bounds_rect(self.start, self.end),
            r.2 >= 0,
            r.3 >= 0,
    {
        bounds_of(&self.start, &self.end)
    }
}

/// A straight line segment.
#[derive(Debug, Clone, Copy, PartialEq, Eq, Structural)]
pub struct LineAnnotation {
    pub start: Point,
    pub end: Point,
    pub color: Color,
    pub stroke_width: i64,
}

/// The operations that render a line: one stroked segment with round
/// caps.
pub open spec fn line_draw_ops(l: LineAnnotation) -> Seq<DrawOp> {
    seq![
        DrawOp::SetSourceRgba { color: l.color },
        DrawOp::SetLineWidth { width: l.stroke_width },
        DrawOp::SetLineCapRound,
        DrawOp::MoveTo { x: l.start.x, y: l.start.y },
        DrawOp::LineTo { x: l.end.x, y: l.end.y },
        DrawOp::Stroke,
    ]
}

impl LineAnnotation {
    pub open spec fn wf(&self) -> bool {
        &&& self.start.wf()
        &&& self.end.wf()
        &&& self.color.wf()
    }

    pub fn new(start: Point, end: Point, color: Color, stroke_width: i64) -> (a: Self)
        ensures
            a == (LineAnnotation { start, end, color, stroke_width }),
    {
        LineAnnotation { start, end, color, stroke_width }
    }

    /// The operations that render this line.
    pub fn draw(&self) -> (ops: Vec<DrawOp>)
        ensures
            ops@ == line_draw_ops(*self),
    {
        let mut ops: Vec<DrawOp> = Vec::new();
        ops.push(DrawOp::SetSourceRgba { color: self.color });
        ops.push(DrawOp::SetLineWidth { width: self.stroke_width });
        ops.push(DrawOp::SetLineCapRound);
        ops.push(DrawOp::MoveTo { x: self.start.x, y: self.start.y });
        ops.push(DrawOp::LineTo { x: self.end.x, y: self.end.y });
        ops.push(DrawOp::Stroke);
        proof {
            assert(ops@ =~= line_draw_ops(*self));
        }
        ops
    }

    /// Bounding box in image-space milli-pixels.
    pub fn bounds(&self) -> (r: (i64, i64, i64, i64))
        requires
            self.wf(),
        ensures
            (r.0 as int, r.1 as int, r.2 as int, r.3 as int) == bounds_rect(self.start, self.end),
            r.2 >= 0,
            r.3 >= 0,
    {
        bounds_of(&self.start, &self.end)
    }
}

/// An axis-aligned ellipse inscribed in the bounding box, stroked or
/// filled.
#[derive(Debug, Clone, Copy, PartialEq, Eq, Structural)]
pub struct EllipseAnnotation {
    pub start: Point,
    pub end: Point,
    pub color: Color,
    pub stroke_width: i64,
    pub filled: bool,
}

/// The operations that render an ellipse. A degenerate bounding box (zero
/// width or height) sets color and stroke width but draws nothing, as the
/// path would be empty.
pub open spec fn ellipse_draw_ops(e: EllipseAnnotation) -> Seq<DrawOp> {
    let x = rect_x(e.start, e.end);
    let y = rect_y(e.start, e.end);
    let w = rect_w(e.start, e.end);
    let h = rect_h(e.start, e.end);
    let base = seq![
        DrawOp::SetSourceRgba { color: e.color },
        DrawOp::SetLineWidth { width: e.stroke_width },
    ];
    if w > 0 && h > 0 {
        base + seq![
            DrawOp::Ellipse {
                cx: (x + w / 2) as i64,
                cy: (y + h / 2) as i64,
                rx: (w / 2) as i64,
                ry: (h / 2) as i64,
            },
            if e.filled {
                DrawOp::Fill
            } else {
                DrawOp::Stroke
            },
        ]
    } else {
        base
    }
}

impl EllipseAnnotation {
    pub open spec fn wf(&self) -> bool {
        &&& self.start.wf()
        &&& self.end.wf()
        &&& self.color.wf()
    }

    pub fn new(start: Point, end: Point, color: Color, stroke_width: i64, filled: bool) -> (a:
        Self)
        ensures
            a == (EllipseAnnotation { start, end, color, stroke_width, filled }),
    {
        EllipseAnnotation { start, end, color, stroke_width, filled }
    }

    /// The operations that render this ellipse.
    pub fn draw(&self) -> (ops: Vec<DrawOp>)
        requires
            self.wf(),
        ensures
            ops@ == ellipse_draw_ops(*self),
    {
        let (x, y, w, h) = bounds_of(&self.start, &self.end);
        let mut ops: Vec<DrawOp> = Vec::new();
        ops.push(DrawOp::SetSourceRgba { color: self.color });
        ops.push(DrawOp::SetLineWidth { width: self.stroke_width });
        if w > 0 && h > 0 {
            ops.push(DrawOp::Ellipse { cx: x + w / 2, cy: y + h / 2, rx: w / 2, ry: h / 2 });
            ops.push(
                if self.filled {
                    DrawOp::Fill
                } else {
                    DrawOp::Stroke
                },
            );
        }
        proof {
            assert(ops@ =~= ellipse_draw_ops(*self));
        }
        ops
    }

    /// Bounding box in image-space milli-pixels.
    pub fn bounds(&self) -> (r: (i64, i64, i64, i64))
        requires
            self.wf(),
        ensures
            (r.0 as int, r.1 as int, r.2 as int, r.3 as int) == bounds_rect(self.start, self.end),
            r.2 >= 0,
            r.3 >= 0,
    {
        bounds_of(&self.start, &self.end)
    }
}

/// A translucent filled rectangle. Its fill always uses the fixed
/// highlight alpha, whatever the selected color's alpha was.
#[derive(Debug, Clone, Copy, PartialEq, Eq, Structural)]
pub struct HighlightAnnotation {
    pub start: Point,
    pub end: Point,
    pub color: Color,
}

/// The operations that render a highlight: a fill of the bounding box in
/// the annotation's color forced to the fixed translucency.
pub open spec fn highlight_draw_ops(h: HighlightAnnotation) -> Seq<DrawOp> {
    seq![
        DrawOp::SetSourceRgba {
            color: Color {
                red: h.color.red,
                green: h.color.green,
                blue: h.color.blue,
                alpha: HIGHLIGHT_ALPHA,
            },
        },
        DrawOp::Rect {
            x: rect_x(h.start, h.end) as i64,
            y: rect_y(h.start, h.end) as i64,
            width: rect_w(h.start, h.end) as i64,
            height: rect_h(h.start, h.end) as i64,
        },
        DrawOp::Fill,
    ]
}

impl HighlightAnnotation {
    pub open spec fn wf(&self) -> bool {
        &&& self.start.wf()
        &&& self.end.wf()
        &&& self.color.wf()
    }

    pub fn new(start: Point, end: Point, color: Color) -> (a: Self)
        ensures
            a == (HighlightAnnotation { start, end, color }),
    {
        HighlightAnnotation { start, end, color }
    }

    /// The operations that render this highlight.
    pub fn draw(&self) -> (ops: Vec<DrawOp>)
        requires
            self.wf(),
        ensures
            ops@ == highlight_draw_ops(*self),
    {
        let (x, y, w, h) = bounds_of(&self.start, &self.end);
        let mut ops: Vec<DrawOp> = Vec::new();
        ops.push(
            DrawOp::SetSourceRgba {
                color: Color {
                    red: self.color.red,
                    green: self.color.green,
                    blue: self.color.blue,
                    alpha: HIGHLIGHT_ALPHA,
                },
            },
        );
        ops.push(DrawOp::Rect { x, y, width: w, height: h });
        ops.push(DrawOp::Fill);
        proof {
            assert(ops@ =~= highlight_draw_ops(*self));
        }
        ops
    }

    /// Bounding box in image-space milli-pixels.
    pub fn bounds(&self) -> (r: (i64, i64, i64, i64))
        requires
            self.wf(),
        ensures
            (r.0 as int, r.1 as int, r.2 as int, r.3 as int) == bounds_rect(self.start, self.end),
            r.2 >= 0,
            r.3 >= 0,
    {
        bounds_of(&self.start, &self.end)
    }
}

/// A redaction placeholder: the bounding box tiled with a gray
/// checkerboard mosaic.
#[derive(Debug, Clone, Copy, PartialEq, Eq, Structural)]
pub struct BlurAnnotation {
    pub start: Point,
    pub end: Point,
    pub block_size: i64,
}

/// Number of mosaic columns: the bounding-box width divided by the cell
/// side, rounded up.
pub open spec fn blur_cols(b: BlurAnnotation) -> int {
    (rect_w(b.start, b.end) + b.block_size - 1) / (b.block_size as int)
}

/// Number of mosaic rows: the bounding-box height divided by the cell
/// side, rounded up.
pub open spec fn blur_rows(b: BlurAnnotation) -> int {
    (rect_h(b.start, b.end) + b.block_size - 1) / (b.block_size as int)
}

/// The three operations that render one mosaic cell: a gray chosen by
/// checkerboard parity, the cell's rectangle (the last row and column are
/// clipped to the remaining width and height), and a fill.
pub open spec fn blur_cell_ops(b: BlurAnnotation, row: int, col: int) -> Seq<DrawOp> {
    let x = rect_x(b.start, b.end);
    let y = rect_y(b.start, b.end);
    let w = rect_w(b.start, b.end);
    let h = rect_h(b.start, b.end);
    let block = b.block_size as int;
    let bx = x + col * block;
    let by = y + row * block;
    let shade = if (row + col) % 2 == 0 {
        BLUR_SHADE_DARK
    } else {
        BLUR_SHADE_LIGHT
    };
    seq![
        DrawOp::SetSourceGray { shade },
        DrawOp::Rect {
            x: bx as i64,
            y: by as i64,
            width: imin(block, x + w - bx) as i64,
            height: imin(block, y + h - by) as i64,
        },
        DrawOp::Fill,
    ]
}

/// The cells of one mosaic row, columns `0 .. ncols`, in order.
pub open spec fn blur_row_ops_upto(b: BlurAnnotation, row: int, ncols: int) -> Seq<DrawOp>
    decreases ncols,
{
    if ncols <= 0 {
        Seq::empty()
    } else {
        blur_row_ops_upto(b, row, ncols - 1) + blur_cell_ops(b, row, ncols - 1)
    }
}

/// The full mosaic rows `0 .. nrows`, each of `blur_cols(b)` cells, in
/// row-major order.
pub open spec fn blur_rows_ops_upto(b: BlurAnnotation, nrows: int) -> Seq<DrawOp>
    decreases nrows,
{
    if nrows <= 0 {
        Seq::empty()
    } else {
        blur_rows_ops_upto(b, nrows - 1) + blur_row_ops_upto(b, nrows - 1, blur_cols(b))
    }
}

/// The operations that render a blur: the whole checkerboard mosaic over
/// its bounding box.
pub open spec fn blur_draw_ops(b: BlurAnnotation) -> Seq<DrawOp> {
    blur_rows_ops_upto(b, blur_rows(b))
}

impl BlurAnnotation {
    pub open spec fn wf(&self) -> bool {
        &&& self.start.wf()
        &&& self.end.wf()
        &&& 1 <= self.block_size <= MAX_BLOCK_SIZE
    }

    pub fn new(start: Point, end: Point) -> (a: Self)
        ensures
            a == (BlurAnnotation { start, end, block_size: BLUR_BLOCK_SIZE }),
    {
        BlurAnnotation { start, end, block_size: BLUR_BLOCK_SIZE }
    }

    /// The operations that render this blur.
    pub fn draw(&self) -> (ops: Vec<DrawOp>)
        requires
            self.wf(),
        ensures
            ops@ == blur_draw_ops(*self),
    {
        let (x, y, w, h) = bounds_of(&self.start, &self.end);
        let block = self.block_size;
        let cols = (w + block - 1) / block;
        let rows = (h + block - 1) / block;
        proof {
            assert(cols == blur_cols(*self));
            assert(rows == blur_rows(*self));
            assert(cols * block <= w + block - 1) by {
                vstd::arithmetic::div_mod::lemma_fundamental_div_mod(w + block - 1, block as int);
                vstd::arithmetic::div_mod::lemma_mod_bound(w + block - 1, block as int);
            }
            assert(rows * block <= h + block - 1) by {
                vstd::arithmetic::div_mod::lemma_fundamental_div_mod(h + block - 1, block as int);
                vstd::arithmetic::div_mod::lemma_mod_bound(h + block - 1, block as int);
            }
        }
        let mut ops: Vec<DrawOp> = Vec::new();
        let mut row: i64 = 0;
        while row < rows
            invariant
                self.wf(),
                0 <= row <= rows,
                (x as int, y as int, w as int, h as int) == bounds_rect(self.start, self.end),
                block == self.block_size,
                cols == blur_cols(*self),
                rows == blur_rows(*self),
                cols * block <= w + block - 1,
                rows * block <= h + block - 1,
                ops@ == blur_rows_ops_upto(*self, row as int),
            decreases rows - row,
        {
            let mut col: i64 = 0;
            while col < cols
                invariant
                    self.wf(),
                    0 <= row < rows,
                    0 <= col <= cols,
                    (x as int, y as int, w as int, h as int) == bounds_rect(self.start, self.end),
                    block == self.block_size,
                    cols == blur_cols(*self),
                    rows == blur_rows(*self),
                    cols * block <= w + block - 1,
                    rows * block <= h + block - 1,
                    ops@ == blur_rows_ops_upto(*self, row as int) + blur_row_ops_upto(
                        *self,
                        row as int,
                        col as int,
                    ),
                decreases cols - col,
            {
                proof {
                    assert(col * block <= cols * block && row * block <= rows * block) by (nonlinear_arith)
                        requires
                            0 <= col < cols,
                            0 <= row < rows,
                            block >= 1,
                    ;
                }
                let shade = if (row + col) % 2 == 0 {
                    BLUR_SHADE_DARK
                } else {
                    BLUR_SHADE_LIGHT
                };
                let bx = x + col * block;
                let by = y + row * block;
                let rem_w = x + w - bx;
                let rem_h = y + h - by;
                let bw = if block <= rem_w {
                    block
                } else {
                    rem_w
                };
                let bh = if block <= rem_h {
                    block
                } else {
                    rem_h
                };
                ops.push(DrawOp::SetSourceGray { shade });
                ops.push(DrawOp::Rect { x: bx, y: by, width: bw, height: bh });
                ops.push(DrawOp::Fill);
                proof {
                    assert(ops@ =~= blur_rows_ops_upto(*self, row as int) + blur_row_ops_upto(
                        *self,
                        row as int,
                        col + 1,
                    ));
                }
                col = col + 1;
            }
            proof {
                assert(ops@ =~= blur_rows_ops_upto(*self, row + 1));
            }
            row = row + 1;
        }
        ops
    }

    /// Bounding box in image-space milli-pixels.
    pub fn bounds(&self) -> (r: (i64, i64, i64, i64))
        requires
            self.wf(),
        ensures
            (r.0 as int, r.1 as int, r.2 as int, r.3 as int) == bounds_rect(self.start, self.end),
            r.2 >= 0,
            r.3 >= 0,
    {
        bounds_of(&self.start, &self.end)
    }
}

/// One completed drawing action, as a closed set of shape variants.
#[derive(Debug, Clone, Copy, PartialEq, Eq, Structural)]
pub enum Annotation {
    Arrow(ArrowAnnotation),
    Rectangle(RectAnnotation),
    Line(LineAnnotation),
    Ellipse(EllipseAnnotation),
    Highlight(HighlightAnnotation),
    Blur(BlurAnnotation),
}

/// The start corner of any annotation variant.
pub open spec fn start_of(a: Annotation) -> Point {
    match a {
        Annotation::Arrow(x) => x.start,
        Annotation::Rectangle(x) => x.start,
        Annotation::Line(x) => x.start,
        Annotation::Ellipse(x) => x.start,
        Annotation::Highlight(x) => x.start,
        Annotation::Blur(x) => x.start,
    }
}

/// The end corner of any annotation variant.
pub open spec fn end_of(a: Annotation) -> Point {
    match a {
        Annotation::Arrow(x) => x.end,
        Annotation::Rectangle(x) => x.end,
        Annotation::Line(x) => x.end,
        Annotation::Ellipse(x) => x.end,
        Annotation::Highlight(x) => x.end,
        Annotation::Blur(x) => x.end,
    }
}

/// The same annotation with its two corner points exchanged.
pub open spec fn with_swapped_corners(a: Annotation) -> Annotation {
    match a {
        Annotation::Arrow(x) => Annotation::Arrow(
            ArrowAnnotation { start: x.end, end: x.start, ..x },
        ),
        Annotation::Rectangle(x) => Annotation::Rectangle(
            RectAnnotation { start: x.end, end: x.start, ..x },
        ),
        Annotation::Line(x) => Annotation::Line(LineAnnotation { start: x.end, end: x.start, ..x }),
        Annotation::Ellipse(x) => Annotation::Ellipse(
            EllipseAnnotation { start: x.end, end: x.start, ..x },
        ),
        Annotation::Highlight(x) => Annotation::Highlight(
            HighlightAnnotation { start: x.end, end: x.start, ..x },
        ),
        Annotation::Blur(x) => Annotation::Blur(BlurAnnotation { start: x.end, end: x.start, ..x }),
    }
}

/// The bounding box of any annotation variant: every variant computes it
/// the same way from its two corner points.
pub open spec fn bounds_spec(a: Annotation) -> (int, int, int, int) {
    bounds_rect(start_of(a), end_of(a))
}

/// The operations that render any annotation variant.
pub open spec fn draw_ops_spec(a: Annotation) -> Seq<DrawOp> {
    match a {
        Annotation::Arrow(x) => arrow_draw_ops(x),
        Annotation::Rectangle(x) => rect_draw_ops(x),
        Annotation::Line(x) => line_draw_ops(x),
        Annotation::Ellipse(x) => ellipse_draw_ops(x),
        Annotation::Highlight(x) => highlight_draw_ops(x),
        Annotation::Blur(x) => blur_draw_ops(x),
    }
}

impl Annotation {
    pub open spec fn wf(&self) -> bool {
        match *self {
            Annotation::Arrow(x) => x.wf(),
            Annotation::Rectangle(x) => x.wf(),
            Annotation::Line(x) => x.wf(),
            Annotation::Ellipse(x) => x.wf(),
            Annotation::Highlight(x) => x.wf(),
            Annotation::Blur(x) => x.wf(),
        }
    }

    /// The operations that render this annotation.
    pub fn draw(&self) -> (ops: Vec<DrawOp>)
        requires
            self.wf(),
        ensures
            ops@ == draw_ops_spec(*self),
    {
        match self {
            Annotation::Arrow(a) => a.draw(),
            Annotation::Rectangle(r) => r.draw(),
            Annotation::Line(l) => l.draw(),
            Annotation::Ellipse(e) => e.draw(),
            Annotation::Highlight(h) => h.draw(),
            Annotation::Blur(b) => b.draw(),
        }
    }

    /// Bounding box in image-space milli-pixels: `(x, y, width, height)`
    /// with `x`/`y` the per-axis minima of the corner points and
    /// non-negative `width`/`height`, independent of drag direction.
    pub fn bounds(&self) -> (r: (i64, i64, i64, i64))
        requires
            self.wf(),
        ensures
            (r.0 as int, r.1 as int, r.2 as int, r.3 as int) == bounds_spec(*self),
            r.2 >= 0,
            r.3 >= 0,
    {
        match self {
            Annotation::Arrow(a) => a.bounds(),
            Annotation::Rectangle(r) => r.bounds(),
            Annotation::Line(l) => l.bounds(),
            Annotation::Ellipse(e) => e.bounds(),
            Annotation::Highlight(h) => h.bounds(),
            Annotation::Blur(b) => b.bounds(),
        }
    }
}

/// The bounding box of every annotation variant has non-negative width
/// and height, and is the same whichever way the drag ran: swapping the
/// two corner points leaves it unchanged.
pub proof fn lemma_bounds_corner_order_irrelevant(a: Annotation)
    ensures
        bounds_spec(with_swapped_corners(a)) == bounds_spec(a),
        bounds_spec(a).2 >= 0,
        bounds_spec(a).3 >= 0,
{
}

} // verus!
