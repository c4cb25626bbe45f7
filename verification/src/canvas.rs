//! The canvas state machine: annotation list, history, tool/color/stroke
//! selection, view transform, and the pointer-driven drag gesture.
//!
//! Surface-space pointer coordinates arrive in milli-pixels; the view
//! transform maps image space to surface space by `surface = image *
//! scale + offset`, with the scale in micro-units. A drag that travels
//! more than five pixels in image space commits one annotation built from
//! the current tool; a shorter drag (a click) commits nothing.

use vstd::prelude::*;

use crate::annotations::Annotation;
use crate::annotations::ArrowAnnotation;
use crate::annotations::BlurAnnotation;
use crate::annotations::BLUR_BLOCK_SIZE;
use crate::annotations::Color;
use crate::annotations::COORD_LIMIT;
use crate::annotations::DrawOp;
use crate::annotations::draw_ops_spec;
use crate::annotations::EllipseAnnotation;
use crate::annotations::HighlightAnnotation;
use crate::annotations::imin;
use crate::annotations::LineAnnotation;
use crate::annotations::Point;
use crate::annotations::RectAnnotation;
use crate::capture::Screenshot;
use crate::history::adds_of;
use crate::history::commit_step;
use crate::history::History;
use crate::history::HistoryAction;
use crate::history::state_of;
use crate::history::undo_ok;
use crate::history::undo_step;
use crate::history::redo_step;
use crate::tools::Tool;

verus! {

/// A view scale of 1.0, in micro-units.
pub const SCALE_ONE: i64 = 1_000_000;

/// Lower clamp of the scroll zoom: 0.1 in micro-units.
pub const SCALE_MIN: i64 = 100_000;

/// Upper clamp of the scroll zoom: 5.0 in micro-units.
pub const SCALE_MAX: i64 = 5_000_000;

/// Bound on surface-space pointer coordinates and view offsets, in
/// milli-pixels (one million pixels).
pub const SURFACE_LIMIT: i64 = 1_000_000_000;

/// Largest viewport dimension, in pixels.
pub const MAX_VIEWPORT: i64 = 1_000_000;

/// Bound on one scroll delta, in milli-units.
pub const MAX_SCROLL_DELTA: i64 = 1_000_000_000_000;

/// Square of the five-pixel commit threshold, in milli-pixels squared: a
/// drag commits an annotation exactly when its image-space travel exceeds
/// five pixels.
pub const COMMIT_DIST_SQ: i64 = 25_000_000;

/// The default stroke width: three pixels, in milli-pixels.
pub const DEFAULT_STROKE_WIDTH: i64 = 3000;

/// Division that truncates toward zero (what the executable code
/// computes), for a positive divisor.
pub open spec fn tdiv(a: int, b: int) -> int {
    if a >= 0 {
        a / b
    } else {
        -((-a) / b)
    }
}

/// The inverse view transform on one axis: a surface-space coordinate
/// back to image space, `(surface - offset) / scale` with the scale in
/// micro-units.
pub open spec fn to_image(v: int, offset: int, scale: int) -> int {
    tdiv((v - offset) * 1_000_000, scale)
}

/// The scroll clamp: scales below 0.1 become 0.1, above 5.0 become 5.0.
pub open spec fn clamp_scale(v: int) -> int {
    if v < SCALE_MIN {
        SCALE_MIN as int
    } else if v > SCALE_MAX {
        SCALE_MAX as int
    } else {
        v
    }
}

/// One scroll step: the scale is multiplied by `1 - dy/10` (the delta in
/// milli-units) and clamped to `[0.1, 5.0]`. A delta so large that the
/// factor is not positive lands on the lower clamp.
pub open spec fn scroll_scale(scale: int, dy: int) -> int {
    let factor = 1000 - tdiv(dy, 10);
    if factor <= 0 {
        SCALE_MIN as int
    } else {
        clamp_scale(scale * factor / 1000)
    }
}

/// The scale that fits an image into a viewport without upscaling past
/// 1.0: the smaller of the two per-axis fits, and never more than 1.0. A
/// viewport axis that is not yet laid out (zero) fits at 1.0.
pub open spec fn fit_scale(img_w: int, img_h: int, viewport_w: int, viewport_h: int) -> int {
    let sx = if viewport_w > 0 {
        viewport_w * 1_000_000 / img_w
    } else {
        SCALE_ONE as int
    };
    let sy = if viewport_h > 0 {
        viewport_h * 1_000_000 / img_h
    } else {
        SCALE_ONE as int
    };
    imin(imin(sx, sy), SCALE_ONE as int)
}

/// The offset that centers a scaled image axis in the viewport, clamped
/// to be non-negative, in milli-pixels.
pub open spec fn center_offset(viewport_px: int, img_px: int, scale: int) -> int {
    let diff = viewport_px * 1000 - img_px * scale / 1000;
    if diff <= 0 {
        0
    } else {
        diff / 2
    }
}

/// The annotation a drag from `start` to `end` commits under each tool,
/// carrying the current color and stroke width where the shape takes
/// them. Interactive rectangles and ellipses are stroked, not filled.
pub open spec fn built_annotation(
    tool: Tool,
    start: Point,
    end: Point,
    color: Color,
    stroke_width: i64,
) -> Annotation {
    match tool {
        Tool::Arrow => Annotation::Arrow(ArrowAnnotation { start, end, color, stroke_width }),
        Tool::Rectangle => Annotation::Rectangle(
            RectAnnotation { start, end, color, stroke_width, filled: false },
        ),
        Tool::Line => Annotation::Line(LineAnnotation { start, end, color, stroke_width }),
        Tool::Ellipse => Annotation::Ellipse(
            EllipseAnnotation { start, end, color, stroke_width, filled: false },
        ),
        Tool::Highlight => Annotation::Highlight(HighlightAnnotation { start, end, color }),
        Tool::Blur => Annotation::Blur(
            BlurAnnotation { start, end, block_size: BLUR_BLOCK_SIZE },
        ),
    }
}

/// The operations that render every committed annotation, in list order
/// (insertion order is z-order).
pub open spec fn flatten_draw_ops(anns: Seq<Annotation>) -> Seq<DrawOp>
    decreases anns.len(),
{
    if anns.len() == 0 {
        Seq::empty()
    } else {
        flatten_draw_ops(anns.drop_last()) + draw_ops_spec(anns.last())
    }
}

/// A flattening plan for a rendering backend: execute `ops` in order,
/// multiplying every coordinate by `scale` (micro-units) and translating
/// by the offsets (milli-pixels).
pub struct RenderPlan {
    pub scale: i64,
    pub offset_x: i64,
    pub offset_y: i64,
    pub ops: Vec<DrawOp>,
}

/// The editable canvas: the loaded screenshot, the committed annotations
/// with their history, the active selection, the view transform, and the
/// transient drag gesture.
pub struct CanvasWidget {
    pub screenshot: Option<Screenshot>,
    pub annotations: Vec<Annotation>,
    pub history: History,
    pub current_tool: Tool,
    pub primary_color: Color,
    pub stroke_width: i64,
    pub scale: i64,
    pub offset_x: i64,
    pub offset_y: i64,
    pub drag_start: Option<(i64, i64)>,
    pub drag_current: Option<(i64, i64)>,
    pub is_drawing: bool,
}

/// The view transform, selection and loaded image are the same in both
/// states.
pub open spec fn same_view_and_selection(a: CanvasWidget, b: CanvasWidget) -> bool {
    &&& a.screenshot == b.screenshot
    &&& a.current_tool == b.current_tool
    &&& a.primary_color == b.primary_color
    &&& a.stroke_width == b.stroke_width
    &&& a.scale == b.scale
    &&& a.offset_x == b.offset_x
    &&& a.offset_y == b.offset_y
}

/// The transient drag gesture is the same in both states.
pub open spec fn same_drag_state(a: CanvasWidget, b: CanvasWidget) -> bool {
    &&& a.drag_start == b.drag_start
    &&& a.drag_current == b.drag_current
    &&& a.is_drawing == b.is_drawing
}

/// The annotation list and history are the same in both states.
pub open spec fn same_edits(a: CanvasWidget, b: CanvasWidget) -> bool {
    &&& a.annotations@ == b.annotations@
    &&& a.history.undo_actions() == b.history.undo_actions()
    &&& a.history.redo_actions() == b.history.redo_actions()
}

/// The provisional annotation's operations: while a drag is in progress,
/// exactly the shape that the current tool would commit between the
/// drag's image-space endpoints; otherwise nothing.
pub open spec fn provisional_ops(c: CanvasWidget) -> Seq<DrawOp> {
    if c.is_drawing {
        match (c.drag_start, c.drag_current) {
            (Some(d), Some(cur)) => {
                let ix1 = to_image(d.0 as int, c.offset_x as int, c.scale as int);
                let iy1 = to_image(d.1 as int, c.offset_y as int, c.scale as int);
                let ix2 = to_image(cur.0 as int, c.offset_x as int, c.scale as int);
                let iy2 = to_image(cur.1 as int, c.offset_y as int, c.scale as int);
                draw_ops_spec(
                    built_annotation(
                        c.current_tool,
                        Point { x: ix1 as i64, y: iy1 as i64 },
                        Point { x: ix2 as i64, y: iy2 as i64 },
                        c.primary_color,
                        c.stroke_width,
                    ),
                )
            },
            _ => Seq::empty(),
        }
    } else {
        Seq::empty()
    }
}

/// Surface-to-image conversion on one axis, with the bound every
/// committed coordinate obeys.
fn surface_to_image(v: i64, offset: i64, scale: i64) -> (r: i64)
    requires
        -SURFACE_LIMIT <= v <= SURFACE_LIMIT,
        0 <= offset <= SURFACE_LIMIT,
        1 <= scale <= SCALE_MAX,
    ensures
        r == to_image(v as int, offset as int, scale as int),
        -COORD_LIMIT <= r <= COORD_LIMIT,
{
    let d = (v - offset) * 1_000_000;
    if d >= 0 {
        proof {
            vstd::arithmetic::div_mod::lemma_div_nonincreasing(d as int, scale as int);
            vstd::arithmetic::div_mod::lemma_div_pos_is_pos(d as int, scale as int);
        }
        d / scale
    } else {
        proof {
            vstd::arithmetic::div_mod::lemma_div_nonincreasing(-d as int, scale as int);
            vstd::arithmetic::div_mod::lemma_div_pos_is_pos(-d as int, scale as int);
        }
        -((-d) / scale)
    }
}

/// Whether an image-space travel of `(dx, dy)` milli-pixels exceeds the
/// five-pixel commit threshold.
fn travel_exceeds_threshold(dx: i64, dy: i64) -> (r: bool)
    requires
        -2 * COORD_LIMIT <= dx <= 2 * COORD_LIMIT,
        -2 * COORD_LIMIT <= dy <= 2 * COORD_LIMIT,
    ensures
        r == (dx * dx + dy * dy > COMMIT_DIST_SQ),
{
    let ax = if dx >= 0 {
        dx
    } else {
        -dx
    };
    let ay = if dy >= 0 {
        dy
    } else {
        -dy
    };
    proof {
        assert(ax * ax == dx * dx && ay * ay == dy * dy) by (nonlinear_arith)
            requires
                ax == if dx >= 0 { dx as int } else { -dx as int },
                ay == if dy >= 0 { dy as int } else { -dy as int },
        ;
    }
    if ax > 5000 || ay > 5000 {
        proof {
            assert(ax * ax + ay * ay > COMMIT_DIST_SQ) by (nonlinear_arith)
                requires
                    ax >= 0,
                    ay >= 0,
                    ax > 5000 || ay > 5000,
            ;
        }
        true
    } else {
        proof {
            assert(ax * ax <= 25_000_000 && ay * ay <= 25_000_000) by (nonlinear_arith)
                requires
                    0 <= ax <= 5000,
                    0 <= ay <= 5000,
            ;
        }
        ax * ax + ay * ay > COMMIT_DIST_SQ
    }
}

/// The annotation a drag commits: the current tool's shape between two
/// image-space points, with the current color and stroke width.
pub fn build_annotation(tool: Tool, start: Point, end: Point, color: Color, stroke_width: i64) -> (a:
    Annotation)
    ensures
        a == built_annotation(tool, start, end, color, stroke_width),
{
    match tool {
        Tool::Arrow => Annotation::Arrow(ArrowAnnotation::new(start, end, color, stroke_width)),
        Tool::Rectangle => Annotation::Rectangle(
            RectAnnotation::new(start, end, color, stroke_width, false),
        ),
        Tool::Line => Annotation::Line(LineAnnotation::new(start, end, color, stroke_width)),
        Tool::Ellipse => Annotation::Ellipse(
            EllipseAnnotation::new(start, end, color, stroke_width, false),
        ),
        Tool::Highlight => Annotation::Highlight(HighlightAnnotation::new(start, end, color)),
        Tool::Blur => Annotation::Blur(BlurAnnotation::new(start, end)),
    }
}

impl CanvasWidget {
    /// The invariant every canvas state satisfies: a well-formed loaded
    /// image, the view transform in range, well-formed annotations, a
    /// drag state present exactly while drawing, and a history that
    /// mirrors the list — the canvas only ever records appends, so the
    /// undo stack is exactly one `Add` per list element, and everything
    /// waiting on the redo stack is a well-formed `Add`.
    pub open spec fn wf(&self) -> bool {
        &&& (self.screenshot matches Some(s) ==> s.wf())
        &&& 1 <= self.scale <= SCALE_MAX
        &&& 0 <= self.offset_x <= SURFACE_LIMIT
        &&& 0 <= self.offset_y <= SURFACE_LIMIT
        &&& self.primary_color.wf()
        &&& (self.is_drawing <==> self.drag_start is Some)
        &&& (self.is_drawing <==> self.drag_current is Some)
        &&& (self.drag_start matches Some(d) ==> -SURFACE_LIMIT <= d.0 <= SURFACE_LIMIT
            && -SURFACE_LIMIT <= d.1 <= SURFACE_LIMIT)
        &&& (self.drag_current matches Some(d) ==> -SURFACE_LIMIT <= d.0 <= SURFACE_LIMIT
            && -SURFACE_LIMIT <= d.1 <= SURFACE_LIMIT)
        &&& (forall|i: int|
            0 <= i < self.annotations@.len() ==> (#[trigger] self.annotations@[i]).wf())
        &&& self.history.undo_actions() == adds_of(self.annotations@)
        &&& (forall|i: int|
            0 <= i < self.history.redo_actions().len() ==> ((
            #[trigger] self.history.redo_actions()[i]) matches HistoryAction::Add(a)
                && a.wf()))
    }

    /// A fresh canvas: nothing loaded, nothing drawn, arrow tool, red
    /// color, three-pixel stroke, identity view transform, no gesture.
    pub fn new() -> (c: Self)
        ensures
            c.wf(),
            c.screenshot is None,
            c.annotations@ == Seq::<Annotation>::empty(),
            c.history.undo_actions().len() == 0,
            c.history.redo_actions().len() == 0,
            c.current_tool == Tool::Arrow,
            c.primary_color == (Color { red: 1000, green: 0, blue: 0, alpha: 1000 }),
            c.stroke_width == DEFAULT_STROKE_WIDTH,
            c.scale == SCALE_ONE,
            c.offset_x == 0,
            c.offset_y == 0,
            c.drag_start is None,
            c.drag_current is None,
            !c.is_drawing,
    {
        let c = CanvasWidget {
            screenshot: None,
            annotations: Vec::new(),
            history: History::new(),
            current_tool: Tool::Arrow,
            primary_color: Color::new(1000, 0, 0, 1000),
            stroke_width: DEFAULT_STROKE_WIDTH,
            scale: SCALE_ONE,
            offset_x: 0,
            offset_y: 0,
            drag_start: None,
            drag_current: None,
            is_drawing: false,
        };
        proof {
            assert(c.history.undo_actions() =~= adds_of(c.annotations@));
        }
        c
    }

    /// Pointer-down: if an image is loaded, the gesture starts with both
    /// drag points at the press position; with no image the press is
    /// ignored.
    pub fn on_press(&mut self, x: i64, y: i64)
        requires
            old(self).wf(),
            -SURFACE_LIMIT <= x <= SURFACE_LIMIT,
            -SURFACE_LIMIT <= y <= SURFACE_LIMIT,
        ensures
            final(self).wf(),
            old(self).screenshot is Some ==> *final(self) == (CanvasWidget {
                drag_start: Some((x, y)),
                drag_current: Some((x, y)),
                is_drawing: true,
                ..*old(self)
            }),
            old(self).screenshot is None ==> *final(self) == *old(self),
    {
        if self.screenshot.is_some() {
            self.drag_start = Some((x, y));
            self.drag_current = Some((x, y));
            self.is_drawing = true;
        }
    }

    /// Pointer motion: only effective while a drag is in progress, when
    /// it moves the drag's current point.
    pub fn on_motion(&mut self, x: i64, y: i64)
        requires
            old(self).wf(),
            -SURFACE_LIMIT <= x <= SURFACE_LIMIT,
            -SURFACE_LIMIT <= y <= SURFACE_LIMIT,
        ensures
            final(self).wf(),
            old(self).is_drawing ==> *final(self) == (CanvasWidget {
                drag_current: Some((x, y)),
                ..*old(self)
            }),
            !old(self).is_drawing ==> *final(self) == *old(self),
    {
        if self.is_drawing {
            self.drag_current = Some((x, y));
        }
    }

    /// Pointer-up: ends the gesture. Both drag endpoints are converted to
    /// image space through the inverse view transform; if their distance
    /// exceeds the five-pixel threshold, exactly one annotation built
    /// from the current tool is appended and recorded in the history
    /// (invalidating redo); otherwise the click commits nothing. The drag
    /// state is cleared either way. A release without a drag in progress
    /// changes nothing.
    pub fn on_release(&mut self, x: i64, y: i64)
        requires
            old(self).wf(),
            -SURFACE_LIMIT <= x <= SURFACE_LIMIT,
            -SURFACE_LIMIT <= y <= SURFACE_LIMIT,
        ensures
            final(self).wf(),
            same_view_and_selection(*old(self), *final(self)),
            !old(self).is_drawing ==> *final(self) == *old(self),
            old(self).is_drawing ==> !final(self).is_drawing && final(self).drag_start is None
                && final(self).drag_current is None,
            old(self).is_drawing ==> (old(self).drag_start matches Some(d) && {
                let ix1 = to_image(d.0 as int, old(self).offset_x as int, old(self).scale as int);
                let iy1 = to_image(d.1 as int, old(self).offset_y as int, old(self).scale as int);
                let ix2 = to_image(x as int, old(self).offset_x as int, old(self).scale as int);
                let iy2 = to_image(y as int, old(self).offset_y as int, old(self).scale as int);
                let dx = ix2 - ix1;
                let dy = iy2 - iy1;
                if dx * dx + dy * dy > COMMIT_DIST_SQ {
                    state_of(final(self).history, final(self).annotations@) == commit_step(
                        state_of(old(self).history, old(self).annotations@),
                        built_annotation(
                            old(self).current_tool,
                            Point { x: ix1 as i64, y: iy1 as i64 },
                            Point { x: ix2 as i64, y: iy2 as i64 },
                            old(self).primary_color,
                            old(self).stroke_width,
                        ),
                    )
                } else {
                    same_edits(*old(self), *final(self))
                }
            }),
    {
        if !self.is_drawing {
            return ;
        }
        let d = self.drag_start.unwrap();
        let ix1 = surface_to_image(d.0, self.offset_x, self.scale);
        let iy1 = surface_to_image(d.1, self.offset_y, self.scale);
        let ix2 = surface_to_image(x, self.offset_x, self.scale);
        let iy2 = surface_to_image(y, self.offset_y, self.scale);
        let dx = ix2 - ix1;
        let dy = iy2 - iy1;
        if travel_exceeds_threshold(dx, dy) {
            let annotation = build_annotation(
                self.current_tool,
                Point::new(ix1, iy1),
                Point::new(ix2, iy2),
                self.primary_color,
                self.stroke_width,
            );
            self.annotations.push(annotation);
            self.history.push_add(annotation);
            proof {
                assert(self.history.undo_actions() =~= adds_of(self.annotations@));
            }
        }
        self.drag_start = None;
        self.drag_current = None;
        self.is_drawing = false;
    }

    /// Scroll zoom: one multiplicative step, always landing inside
    /// `[0.1, 5.0]` whatever the delta's magnitude or sign. Offsets are
    /// not touched (a uniform rescale, not zoom-to-cursor).
    pub fn on_scroll(&mut self, dy: i64)
        requires
            old(self).wf(),
            -MAX_SCROLL_DELTA <= dy <= MAX_SCROLL_DELTA,
        ensures
            final(self).wf(),
            final(self).scale == scroll_scale(old(self).scale as int, dy as int),
            SCALE_MIN <= final(self).scale <= SCALE_MAX,
            *final(self) == (CanvasWidget { scale: final(self).scale, ..*old(self) }),
    {
        let t = if dy >= 0 {
            proof {
                vstd::arithmetic::div_mod::lemma_div_nonincreasing(dy as int, 10);
                vstd::arithmetic::div_mod::lemma_div_pos_is_pos(dy as int, 10);
            }
            dy / 10
        } else {
            proof {
                vstd::arithmetic::div_mod::lemma_div_nonincreasing(-dy as int, 10);
                vstd::arithmetic::div_mod::lemma_div_pos_is_pos(-dy as int, 10);
            }
            -((-dy) / 10)
        };
        let factor = 1000 - t;
        let new_scale = if factor <= 0 {
            SCALE_MIN
        } else {
            proof {
                assert(0 < self.scale * factor <= SCALE_MAX * 100_000_001_000i64)
                    by (nonlinear_arith)
                    requires
                        1 <= self.scale <= SCALE_MAX,
                        0 < factor <= 100_000_001_000i64,
                ;
            }
            let v = self.scale * factor;
            let s = v / 1000;
            if s < SCALE_MIN {
                SCALE_MIN
            } else if s > SCALE_MAX {
                SCALE_MAX
            } else {
                s
            }
        };
        self.scale = new_scale;
    }

    /// Load a new base image: compute the fit-to-viewport scale (never
    /// upscaling past 1.0), center the scaled image, and unconditionally
    /// clear the annotation list and the history. The one state change
    /// that bypasses the history.
    pub fn load_screenshot(&mut self, screenshot: Screenshot, viewport_w: i64, viewport_h: i64)
        requires
            old(self).wf(),
            screenshot.wf(),
            0 <= viewport_w <= MAX_VIEWPORT,
            0 <= viewport_h <= MAX_VIEWPORT,
        ensures
            final(self).wf(),
            final(self).screenshot == Some(screenshot),
            final(self).scale == fit_scale(
                screenshot.width as int,
                screenshot.height as int,
                viewport_w as int,
                viewport_h as int,
            ),
            final(self).offset_x == center_offset(
                viewport_w as int,
                screenshot.width as int,
                final(self).scale as int,
            ),
            final(self).offset_y == center_offset(
                viewport_h as int,
                screenshot.height as int,
                final(self).scale as int,
            ),
            final(self).annotations@ == Seq::<Annotation>::empty(),
            final(self).history.undo_actions().len() == 0,
            final(self).history.redo_actions().len() == 0,
            final(self).current_tool == old(self).current_tool,
            final(self).primary_color == old(self).primary_color,
            final(self).stroke_width == old(self).stroke_width,
            same_drag_state(*old(self), *final(self)),
    {
        let img_w = screenshot.width();
        let img_h = screenshot.height();
        let scale_x = if viewport_w > 0 {
            proof {
                vstd::arithmetic::div_mod::lemma_div_by_self(img_w as int);
                vstd::arithmetic::div_mod::lemma_div_is_ordered(
                    img_w as int,
                    viewport_w * 1_000_000,
                    img_w as int,
                );
            }
            viewport_w * 1_000_000 / img_w
        } else {
            SCALE_ONE
        };
        let scale_y = if viewport_h > 0 {
            proof {
                vstd::arithmetic::div_mod::lemma_div_by_self(img_h as int);
                vstd::arithmetic::div_mod::lemma_div_is_ordered(
                    img_h as int,
                    viewport_h * 1_000_000,
                    img_h as int,
                );
            }
            viewport_h * 1_000_000 / img_h
        } else {
            SCALE_ONE
        };
        let mut scale = if scale_x <= scale_y {
            scale_x
        } else {
            scale_y
        };
        if scale > SCALE_ONE {
            scale = SCALE_ONE;
        }
        proof {
            assert(0 <= img_w * scale <= 1_000_000_000_000i64 && 0 <= img_h * scale
                <= 1_000_000_000_000i64) by (nonlinear_arith)
                requires
                    1 <= img_w <= 1_000_000,
                    1 <= img_h <= 1_000_000,
                    1 <= scale <= 1_000_000,
            ;
        }
        let scaled_w = img_w * scale / 1000;
        let scaled_h = img_h * scale / 1000;
        proof {
            vstd::arithmetic::div_mod::lemma_div_pos_is_pos(img_w * scale, 1000);
            vstd::arithmetic::div_mod::lemma_div_pos_is_pos(img_h * scale, 1000);
        }
        let diff_x = viewport_w * 1000 - scaled_w;
        let diff_y = viewport_h * 1000 - scaled_h;
        let offset_x = if diff_x <= 0 {
            0
        } else {
            diff_x / 2
        };
        let offset_y = if diff_y <= 0 {
            0
        } else {
            diff_y / 2
        };
        self.scale = scale;
        self.offset_x = offset_x;
        self.offset_y = offset_y;
        self.screenshot = Some(screenshot);
        self.annotations.clear();
        self.history.clear();
        proof {
            assert(self.history.undo_actions() =~= adds_of(self.annotations@));
        }
    }

    /// Select the tool the next gesture will draw with.
    pub fn set_tool(&mut self, tool: Tool)
        requires
            old(self).wf(),
        ensures
            final(self).wf(),
            *final(self) == (CanvasWidget { current_tool: tool, ..*old(self) }),
    {
        self.current_tool = tool;
    }

    pub fn current_tool(&self) -> (t: Tool)
        ensures
            t == self.current_tool,
    {
        self.current_tool
    }

    /// Select the color the next gesture will draw with; already
    /// committed annotations keep theirs.
    pub fn set_color(&mut self, color: Color)
        requires
            old(self).wf(),
            color.wf(),
        ensures
            final(self).wf(),
            *final(self) == (CanvasWidget { primary_color: color, ..*old(self) }),
    {
        self.primary_color = color;
    }

    pub fn current_color(&self) -> (c: Color)
        ensures
            c == self.primary_color,
    {
        self.primary_color
    }

    /// Select the stroke width the next gesture will draw with.
    pub fn set_stroke_width(&mut self, width: i64)
        requires
            old(self).wf(),
        ensures
            final(self).wf(),
            *final(self) == (CanvasWidget { stroke_width: width, ..*old(self) }),
    {
        self.stroke_width = width;
    }

    /// Undo the most recent edit; returns whether anything changed (and a
    /// redraw is due).
    pub fn undo(&mut self) -> (r: bool)
        requires
            old(self).wf(),
        ensures
            final(self).wf(),
            r == (old(self).history.undo_actions().len() > 0),
            state_of(final(self).history, final(self).annotations@) == undo_step(
                state_of(old(self).history, old(self).annotations@),
            ),
            same_view_and_selection(*old(self), *final(self)),
            same_drag_state(*old(self), *final(self)),
    {
        proof {
            if self.history.undo_actions().len() > 0 {
                assert(self.history.undo_actions().last() == HistoryAction::Add(
                    self.annotations@.last(),
                ));
            }
            assert(undo_ok(state_of(self.history, self.annotations@)));
        }
        let r = self.history.undo(&mut self.annotations);
        proof {
            let pre = state_of(old(self).history, old(self).annotations@);
            if pre.undo.len() > 0 {
                assert(pre.undo.last() == HistoryAction::Add(pre.list.last()));
                assert(pre.list.len() == pre.undo.len());
                assert(self.annotations@ == pre.list.drop_last());
                assert(self.history.undo_actions() =~= adds_of(self.annotations@));
                assert(forall|i: int|
                    0 <= i < self.annotations@.len() ==> (#[trigger] self.annotations@[i])
                        == old(self).annotations@[i]);
                assert(forall|i: int|
                    0 <= i < self.history.redo_actions().len() ==> ((
                    #[trigger] self.history.redo_actions()[i])
                        matches HistoryAction::Add(a) && a.wf())) by {
                    assert(self.history.redo_actions() == pre.redo.push(
                        HistoryAction::Add(pre.list.last()),
                    ));
                }
            } else {
                assert(self.history.undo_actions() =~= adds_of(self.annotations@));
            }
        }
        r
    }

    /// Redo the most recently undone edit; returns whether anything
    /// changed (and a redraw is due).
    pub fn redo(&mut self) -> (r: bool)
        requires
            old(self).wf(),
        ensures
            final(self).wf(),
            r == (old(self).history.redo_actions().len() > 0),
            state_of(final(self).history, final(self).annotations@) == redo_step(
                state_of(old(self).history, old(self).annotations@),
            ),
            same_view_and_selection(*old(self), *final(self)),
            same_drag_state(*old(self), *final(self)),
    {
        let r = self.history.redo(&mut self.annotations);
        proof {
            let pre = state_of(old(self).history, old(self).annotations@);
            if pre.redo.len() > 0 {
                assert(pre.redo.last() matches HistoryAction::Add(a) && a.wf());
                assert(self.history.undo_actions() =~= adds_of(self.annotations@));
                assert(forall|i: int|
                    0 <= i < self.history.redo_actions().len() ==> ((
                    #[trigger] self.history.redo_actions()[i])
                        matches HistoryAction::Add(a) && a.wf())) by {
                    assert(self.history.redo_actions() == pre.redo.drop_last());
                }
            } else {
                assert(self.history.undo_actions() =~= adds_of(self.annotations@));
            }
        }
        r
    }

    /// The flattening plan for export: the base image painted at native
    /// resolution (scale 1.0, no offset), then every committed
    /// annotation in list order — never the in-progress provisional
    /// shape. `None` exactly when no image is loaded. Clipboard and file
    /// export both execute this one plan.
    pub fn export_plan(&self) -> (r: Option<RenderPlan>)
        requires
            self.wf(),
        ensures
            (r is Some) == (self.screenshot is Some),
            r matches Some(plan) ==> plan.scale == SCALE_ONE && plan.offset_x == 0
                && plan.offset_y == 0 && plan.ops@ == seq![DrawOp::PaintBase]
                + flatten_draw_ops(self.annotations@),
    {
        if self.screenshot.is_none() {
            return None;
        }
        let ops = self.flattened_ops();
        Some(RenderPlan { scale: SCALE_ONE, offset_x: 0, offset_y: 0, ops })
    }

    /// The plan for the live view: the base image and committed
    /// annotations under the current view transform and, while a drag is
    /// in progress, the provisional shape that release would commit —
    /// recomputed from the transient drag state, never stored. `None`
    /// exactly when no image is loaded.
    pub fn render_plan(&self) -> (r: Option<RenderPlan>)
        requires
            self.wf(),
        ensures
            (r is Some) == (self.screenshot is Some),
            r matches Some(plan) ==> plan.scale == self.scale && plan.offset_x == self.offset_x
                && plan.offset_y == self.offset_y && plan.ops@ == seq![DrawOp::PaintBase]
                + flatten_draw_ops(self.annotations@) + provisional_ops(*self),
    {
        if self.screenshot.is_none() {
            return None;
        }
        let mut ops = self.flattened_ops();
        if self.is_drawing {
            let d = self.drag_start.unwrap();
            let cur = self.drag_current.unwrap();
            let ix1 = surface_to_image(d.0, self.offset_x, self.scale);
            let iy1 = surface_to_image(d.1, self.offset_y, self.scale);
            let ix2 = surface_to_image(cur.0, self.offset_x, self.scale);
            let iy2 = surface_to_image(cur.1, self.offset_y, self.scale);
            let provisional = build_annotation(
                self.current_tool,
                Point::new(ix1, iy1),
                Point::new(ix2, iy2),
                self.primary_color,
                self.stroke_width,
            );
            let mut more = provisional.draw();
            ops.append(&mut more);
        }
        proof {
            assert(ops@ =~= seq![DrawOp::PaintBase] + flatten_draw_ops(self.annotations@)
                + provisional_ops(*self));
        }
        Some(
            RenderPlan {
                scale: self.scale,
                offset_x: self.offset_x,
                offset_y: self.offset_y,
                ops,
            },
        )
    }

    /// The base-image paint followed by every committed annotation's
    /// operations, in list order.
    fn flattened_ops(&self) -> (ops: Vec<DrawOp>)
        requires
            self.wf(),
        ensures
            ops@ == seq![DrawOp::PaintBase] + flatten_draw_ops(self.annotations@),
    {
        let mut ops: Vec<DrawOp> = Vec::new();
        ops.push(DrawOp::PaintBase);
        proof {
            assert(ops@ =~= seq![DrawOp::PaintBase] + flatten_draw_ops(
                self.annotations@.take(0),
            ));
        }
        let n = self.annotations.len();
        let mut i: usize = 0;
        while i < n
            invariant
                self.wf(),
                n == self.annotations@.len(),
                0 <= i <= n,
                ops@ == seq![DrawOp::PaintBase] + flatten_draw_ops(self.annotations@.take(i as int)),
            decreases n - i,
        {
            let mut more = self.annotations[i].draw();
            ops.append(&mut more);
            proof {
                let taken = self.annotations@.take(i + 1);
                assert(taken.drop_last() =~= self.annotations@.take(i as int));
                assert(taken.last() == self.annotations@[i as int]);
                assert(ops@ =~= seq![DrawOp::PaintBase] + flatten_draw_ops(taken));
            }
            i = i + 1;
        }
        proof {
            assert(self.annotations@.take(n as int) =~= self.annotations@);
        }
        ops
    }

    pub fn can_undo(&self) -> (r: bool)
        ensures
            r == (self.history.undo_actions().len() > 0),
    {
        self.history.can_undo()
    }

    pub fn can_redo(&self) -> (r: bool)
        ensures
            r == (self.history.redo_actions().len() > 0),
    {
        self.history.can_redo()
    }
}

/// Law: the scroll zoom can never leave `[0.1, 5.0]`, whatever the
/// current scale and whatever the delta's magnitude or sign — so any
/// number of repeated scroll steps stays in range.
pub proof fn lemma_scroll_scale_in_range(scale: int, dy: int)
    ensures
        SCALE_MIN <= scroll_scale(scale, dy) <= SCALE_MAX,
{
}

/// Law: the live preview is WYSIWYG — while a drag is in progress, the
/// provisional shape in the render plan is drawn by exactly the
/// operations of the annotation that releasing the pointer at the
/// drag's current position would commit.
pub proof fn lemma_preview_is_commit_shape(c: CanvasWidget)
    requires
        c.is_drawing,
        c.drag_start is Some,
        c.drag_current is Some,
    ensures
        ({
            let d = c.drag_start->0;
            let cur = c.drag_current->0;
            provisional_ops(c) == draw_ops_spec(
                built_annotation(
                    c.current_tool,
                    Point {
                        x: to_image(d.0 as int, c.offset_x as int, c.scale as int) as i64,
                        y: to_image(d.1 as int, c.offset_y as int, c.scale as int) as i64,
                    },
                    Point {
                        x: to_image(cur.0 as int, c.offset_x as int, c.scale as int) as i64,
                        y: to_image(cur.1 as int, c.offset_y as int, c.scale as int) as i64,
                    },
                    c.primary_color,
                    c.stroke_width,
                ),
            )
        }),
{
}

/// Law: with no annotations committed, the flattened export contains
/// exactly the base-image paint and nothing else, so the compositor's
/// output is pixel-identical to the base image.
pub proof fn lemma_empty_flatten_is_base(anns: Seq<Annotation>)
    requires
        anns.len() == 0,
    ensures
        seq![DrawOp::PaintBase] + flatten_draw_ops(anns) =~= seq![DrawOp::PaintBase],
{
}

} // verus!
