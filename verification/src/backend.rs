//! The values that are handed to the PDF surface, and the surface itself.
//!
//! The surface records what is drawn on it, in order. Transforms and clips
//! that are pushed on it form a stack of their own, which `pop` unwinds.

use vstd::prelude::*;
use crate::context::Transforms;
use crate::fixed::{affine, affine_of, max_len, max_of, min_len, min_of, saturate, clamp};

verus! {

/// A point in surface coordinates.
#[derive(Clone, Copy, PartialEq, Eq, Structural, Debug)]
pub struct Point {
    pub x: i64,
    pub y: i64,
}

/// A width and a height in surface coordinates.
#[derive(Clone, Copy, PartialEq, Eq, Structural, Debug)]
pub struct Size {
    pub width: i64,
    pub height: i64,
}

/// An affine map in row-major order.
#[derive(Clone, Copy, PartialEq, Eq, Structural, Debug)]
pub struct Transform {
    pub sx: i64,
    pub ky: i64,
    pub kx: i64,
    pub sy: i64,
    pub tx: i64,
    pub ty: i64,
}

/// A rectangle with its edges in order: `left <= right` and `top <= bottom`.
#[derive(Clone, Copy, PartialEq, Eq, Structural, Debug)]
pub struct Rect {
    pub left: i64,
    pub top: i64,
    pub right: i64,
    pub bottom: i64,
}

/// One step of a surface path.
#[derive(Clone, Copy, PartialEq, Eq, Structural, Debug)]
pub enum Segment {
    MoveTo(Point),
    LineTo(Point),
    CubicTo(Point, Point, Point),
    Close,
}

/// Which points count as inside a path.
#[derive(Clone, Copy, PartialEq, Eq, Structural, Debug)]
pub enum FillRule {
    NonZero,
    EvenOdd,
}

/// The shape of the ends of a stroked line.
#[derive(Clone, Copy, PartialEq, Eq, Structural, Debug)]
pub enum LineCap {
    Butt,
    Round,
    Square,
}

/// The shape of the corners of a stroked line.
#[derive(Clone, Copy, PartialEq, Eq, Structural, Debug)]
pub enum LineJoin {
    Miter,
    Round,
    Bevel,
}

/// An opaque colour.
#[derive(Clone, Copy, PartialEq, Eq, Structural, Debug)]
pub struct Rgb {
    pub r: u8,
    pub g: u8,
    pub b: u8,
}

/// What an area or an outline is coloured with. A gradient or a pattern
/// carries the transforms of the place where it is used.
#[derive(Clone, Copy, PartialEq, Eq, Structural, Debug)]
pub enum Paint {
    Rgb(Rgb),
    Gradient(u64, Transforms),
    Pattern(u64, Transforms),
}

/// How a path or a run of glyphs is filled.
#[derive(Clone, Copy, PartialEq, Eq, Structural, Debug)]
pub struct Fill {
    pub paint: Paint,
    pub rule: FillRule,
    pub opacity: u8,
}

/// How a path or a run of glyphs is stroked.
#[derive(Clone, Copy, PartialEq, Eq, Structural, Debug)]
pub struct Stroke {
    pub paint: Paint,
    pub width: i64,
    pub miter_limit: i64,
    pub line_cap: LineCap,
    pub line_join: LineJoin,
    pub opacity: u8,
}

/// A glyph as the surface draws it.
#[derive(Clone, Copy, PartialEq, Eq, Structural, Debug)]
pub struct PdfGlyph {
    pub glyph_id: u32,
    pub text_start: usize,
    pub text_end: usize,
    pub x_advance: i64,
    pub x_offset: i64,
    pub y_advance: i64,
    pub y_offset: i64,
}

/// The unit of the advances and offsets of glyphs.
#[derive(Clone, Copy, PartialEq, Eq, Structural, Debug)]
pub enum GlyphUnits {
    /// Relative to the font size.
    Normalized,
    /// In surface coordinates.
    UserSpace,
}

/// How a vector image is drawn.
#[derive(Clone, Copy, PartialEq, Eq, Structural, Debug)]
pub struct SvgSettings {
    /// Whether text stays text.
    pub embed_text: bool,
}

/// A surface path that draws something.
#[derive(Clone, PartialEq, Eq, Debug)]
pub struct Path {
    pub segments: Vec<Segment>,
}

/// Gathers the steps of a surface path.
#[derive(Clone, PartialEq, Eq, Debug)]
pub struct PathBuilder {
    pub segments: Vec<Segment>,
}

/// What a link does when it is followed.
#[derive(Clone, PartialEq, Eq, Debug)]
pub enum Target {
    /// Opens an address.
    Link(String),
    /// Shows a point of a page; pages are counted from zero.
    Xyz(usize, Point),
}

/// A link over a rectangle of the page.
#[derive(Clone, PartialEq, Eq, Debug)]
pub struct LinkAnnotation {
    pub rect: Rect,
    pub target: Target,
}

/// Something that lies over the content of a page.
#[derive(Clone, PartialEq, Eq, Debug)]
pub enum Annotation {
    Link(LinkAnnotation),
}

/// One call on the surface.
#[derive(Clone, PartialEq, Eq, Debug)]
pub enum SurfaceOp {
    PushTransform(Transform),
    PushClipPath(Path, FillRule),
    Pop,
    FillPath(Path, Fill),
    StrokePath(Path, Stroke),
    FillGlyphs {
        origin: Point,
        fill: Fill,
        glyphs: Vec<PdfGlyph>,
        font: u64,
        text: String,
        size: i64,
        units: GlyphUnits,
        ignore_spacing: bool,
    },
    StrokeGlyphs {
        origin: Point,
        stroke: Stroke,
        glyphs: Vec<PdfGlyph>,
        font: u64,
        text: String,
        size: i64,
        units: GlyphUnits,
        ignore_spacing: bool,
    },
    DrawImage(u64, Size),
    DrawSvg(u64, Size, SvgSettings),
}

/// The model of a link target.
pub enum TargetView {
    Link(Seq<char>),
    Xyz(usize, Point),
}

/// The model of an annotation.
pub struct AnnotationView {
    pub rect: Rect,
    pub target: TargetView,
}

/// The model of one call on the surface.
pub enum OpView {
    PushTransform(Transform),
    PushClipPath(Seq<Segment>, FillRule),
    Pop,
    FillPath(Seq<Segment>, Fill),
    StrokePath(Seq<Segment>, Stroke),
    FillGlyphs {
        origin: Point,
        fill: Fill,
        glyphs: Seq<PdfGlyph>,
        font: u64,
        text: Seq<char>,
        size: i64,
        units: GlyphUnits,
        ignore_spacing: bool,
    },
    StrokeGlyphs {
        origin: Point,
        stroke: Stroke,
        glyphs: Seq<PdfGlyph>,
        font: u64,
        text: Seq<char>,
        size: i64,
        units: GlyphUnits,
        ignore_spacing: bool,
    },
    DrawImage(u64, Size),
    DrawSvg(u64, Size, SvgSettings),
}

/// The surface of one page: the calls made on it, in order.
pub struct Surface {
    pub ops: Vec<SurfaceOp>,
}

impl View for Path {
    type V = Seq<Segment>;

    open spec fn view(&self) -> Seq<Segment> {
        self.segments@
    }
}

impl View for PathBuilder {
    type V = Seq<Segment>;

    open spec fn view(&self) -> Seq<Segment> {
        self.segments@
    }
}

impl View for Target {
    type V = TargetView;

    open spec fn view(&self) -> TargetView {
        match self {
            Target::Link(url) => TargetView::Link(url@),
            Target::Xyz(page, point) => TargetView::Xyz(*page, *point),
        }
    }
}

impl View for Annotation {
    type V = AnnotationView;

    open spec fn view(&self) -> AnnotationView {
        match self {
            Annotation::Link(link) => AnnotationView { rect: link.rect, target: link.target@ },
        }
    }
}

impl View for SurfaceOp {
    type V = OpView;

    open spec fn view(&self) -> OpView {
        match self {
            SurfaceOp::PushTransform(ts) => OpView::PushTransform(*ts),
            SurfaceOp::PushClipPath(path, rule) => OpView::PushClipPath(path@, *rule),
            SurfaceOp::Pop => OpView::Pop,
            SurfaceOp::FillPath(path, fill) => OpView::FillPath(path@, *fill),
            SurfaceOp::StrokePath(path, stroke) => OpView::StrokePath(path@, *stroke),
            SurfaceOp::FillGlyphs {
                origin,
                fill,
                glyphs,
                font,
                text,
                size,
                units,
                ignore_spacing,
            } => OpView::FillGlyphs {
                origin: *origin,
                fill: *fill,
                glyphs: glyphs@,
                font: *font,
                text: text@,
                size: *size,
                units: *units,
                ignore_spacing: *ignore_spacing,
            },
            SurfaceOp::StrokeGlyphs {
                origin,
                stroke,
                glyphs,
                font,
                text,
                size,
                units,
                ignore_spacing,
            } => OpView::StrokeGlyphs {
                origin: *origin,
                stroke: *stroke,
                glyphs: glyphs@,
                font: *font,
                text: text@,
                size: *size,
                units: *units,
                ignore_spacing: *ignore_spacing,
            },
            SurfaceOp::DrawImage(image, size) => OpView::DrawImage(*image, *size),
            SurfaceOp::DrawSvg(tree, size, settings) => OpView::DrawSvg(*tree, *size, *settings),
        }
    }
}

/// The models of a run of calls.
pub open spec fn ops_view(ops: Seq<SurfaceOp>) -> Seq<OpView> {
    Seq::new(ops.len(), |i: int| ops[i]@)
}

/// The models of a run of annotations.
pub open spec fn annotations_view(annotations: Seq<Annotation>) -> Seq<AnnotationView> {
    Seq::new(annotations.len(), |i: int| annotations[i]@)
}

impl View for Surface {
    type V = Seq<OpView>;

    open spec fn view(&self) -> Seq<OpView> {
        ops_view(self.ops@)
    }
}

impl Point {
    /// The image of the point under `ts`.
    pub open spec fn spec_transform(self, ts: Transform) -> Point {
        let x = self.x as int;
        let y = self.y as int;
        Point {
            x: affine(ts.sx as int, ts.kx as int, ts.tx as int, x, y) as i64,
            y: affine(ts.ky as int, ts.sy as int, ts.ty as int, x, y) as i64,
        }
    }

    /// The point with the given coordinates.
    pub fn from_xy(x: i64, y: i64) -> (p: Point)
        ensures
            p == (Point { x, y }),
    {
        Point { x, y }
    }

    /// Maps the point through `ts`.
    pub fn transform(self, ts: Transform) -> (p: Point)
        ensures
            p == self.spec_transform(ts),
    {
        Point {
            x: affine_of(ts.sx, ts.kx, ts.tx, self.x, self.y),
            y: affine_of(ts.ky, ts.sy, ts.ty, self.x, self.y),
        }
    }
}

impl PdfGlyph {
    /// The index of the glyph in its font.
    pub fn glyph_id(&self) -> (id: u32)
        ensures
            id == self.glyph_id,
    {
        self.glyph_id
    }

    /// Where the source of the glyph starts and ends in the text of its run.
    pub fn text_range(&self) -> (range: (usize, usize))
        ensures
            range == (self.text_start, self.text_end),
    {
        (self.text_start, self.text_end)
    }

    /// How far the glyph moves along the line.
    pub fn x_advance(&self) -> (v: i64)
        ensures
            v == self.x_advance,
    {
        self.x_advance
    }

    /// How far the glyph is shifted along the line.
    pub fn x_offset(&self) -> (v: i64)
        ensures
            v == self.x_offset,
    {
        self.x_offset
    }

    /// How far the glyph is shifted across the line.
    pub fn y_offset(&self) -> (v: i64)
        ensures
            v == self.y_offset,
    {
        self.y_offset
    }

    /// How far the glyph moves across the line.
    pub fn y_advance(&self) -> (v: i64)
        ensures
            v == self.y_advance,
    {
        self.y_advance
    }
}

impl Size {
    /// The size with the given width and height.
    pub fn from_wh(width: i64, height: i64) -> (s: Size)
        ensures
            s == (Size { width, height }),
    {
        Size { width, height }
    }
}

impl Transform {
    /// The map with the given entries, row by row.
    pub fn from_row(sx: i64, ky: i64, kx: i64, sy: i64, tx: i64, ty: i64) -> (t: Transform)
        ensures
            t == (Transform { sx, ky, kx, sy, tx, ty }),
    {
        Transform { sx, ky, kx, sy, tx, ty }
    }

    /// The scaling by the ratios `sx` and `sy` about the origin.
    pub open spec fn spec_from_scale(sx: i64, sy: i64) -> Transform {
        Transform { sx, ky: 0, kx: 0, sy, tx: 0, ty: 0 }
    }

    /// The scaling by the ratios `sx` and `sy` about the origin.
    pub fn from_scale(sx: i64, sy: i64) -> (t: Transform)
        ensures
            t == Transform::spec_from_scale(sx, sy),
    {
        Transform { sx, ky: 0, kx: 0, sy, tx: 0, ty: 0 }
    }
}

impl Rect {
    /// The edges are in order.
    pub open spec fn wf(&self) -> bool {
        self.left <= self.right && self.top <= self.bottom
    }

    /// The rectangle with the given edges, where they are in order.
    pub open spec fn spec_from_ltrb(left: i64, top: i64, right: i64, bottom: i64) -> Option<Rect> {
        if left <= right && top <= bottom {
            Some(Rect { left, top, right, bottom })
        } else {
            None
        }
    }

    /// The rectangle between `(x, y)` and the corner that lies the given
    /// width and height from it, where that corner lies neither to the left
    /// of nor above `(x, y)`. A corner beyond the bounds of lengths is moved
    /// to the nearest bound.
    pub open spec fn spec_from_xywh(x: i64, y: i64, w: i64, h: i64) -> Option<Rect> {
        Rect::spec_from_ltrb(x, y, clamp(x + w) as i64, clamp(y + h) as i64)
    }

    /// The box around the images of the four corners under `ts`.
    pub open spec fn spec_transform(self, ts: Transform) -> Rect {
        let a = (Point { x: self.left, y: self.top }).spec_transform(ts);
        let b = (Point { x: self.right, y: self.top }).spec_transform(ts);
        let c = (Point { x: self.right, y: self.bottom }).spec_transform(ts);
        let d = (Point { x: self.left, y: self.bottom }).spec_transform(ts);
        Rect {
            left: min_of(min_of(a.x as int, b.x as int), min_of(c.x as int, d.x as int)) as i64,
            top: min_of(min_of(a.y as int, b.y as int), min_of(c.y as int, d.y as int)) as i64,
            right: max_of(max_of(a.x as int, b.x as int), max_of(c.x as int, d.x as int)) as i64,
            bottom: max_of(max_of(a.y as int, b.y as int), max_of(c.y as int, d.y as int)) as i64,
        }
    }

    /// Creates the rectangle with the given edges. There is none where an
    /// edge lies beyond the opposite one.
    pub fn from_ltrb(left: i64, top: i64, right: i64, bottom: i64) -> (r: Option<Rect>)
        ensures
            r == Rect::spec_from_ltrb(left, top, right, bottom),
            r is Some ==> r->0.wf(),
    {
        if left <= right && top <= bottom {
            Some(Rect { left, top, right, bottom })
        } else {
            None
        }
    }

    /// Creates the rectangle between `(x, y)` and the corner that lies the
    /// given width and height from it. There is none where that corner lies
    /// to the left of or above `(x, y)`, as it does for a negative width or
    /// height within the bounds of lengths.
    pub fn from_xywh(x: i64, y: i64, w: i64, h: i64) -> (r: Option<Rect>)
        ensures
            r == Rect::spec_from_xywh(x, y, w, h),
            r is Some ==> r->0.wf(),
    {
        Rect::from_ltrb(
            x,
            y,
            saturate((x as i128) + (w as i128)),
            saturate((y as i128) + (h as i128)),
        )
    }

    /// The box around the images of the four corners under `ts`.
    pub fn transform(self, ts: Transform) -> (r: Rect)
        ensures
            r == self.spec_transform(ts),
            r.wf(),
    {
        let a: Point = Point::from_xy(self.left, self.top).transform(ts);
        let b: Point = Point::from_xy(self.right, self.top).transform(ts);
        let c: Point = Point::from_xy(self.right, self.bottom).transform(ts);
        let d: Point = Point::from_xy(self.left, self.bottom).transform(ts);
        Rect {
            left: min_len(min_len(a.x, b.x), min_len(c.x, d.x)),
            top: min_len(min_len(a.y, b.y), min_len(c.y, d.y)),
            right: max_len(max_len(a.x, b.x), max_len(c.x, d.x)),
            bottom: max_len(max_len(a.y, b.y), max_len(c.y, d.y)),
        }
    }
}

impl Segment {
    /// Every point of the step is `p`.
    pub open spec fn spec_stays_at(self, p: Point) -> bool {
        match self {
            Segment::MoveTo(a) => a == p,
            Segment::LineTo(a) => a == p,
            Segment::CubicTo(a, b, c) => a == p && b == p && c == p,
            Segment::Close => true,
        }
    }

    /// The step draws a line or a curve.
    pub open spec fn spec_draws(self) -> bool {
        self is LineTo || self is CubicTo
    }

    /// The step with its points mapped through `ts`.
    pub open spec fn spec_transform(self, ts: Transform) -> Segment {
        match self {
            Segment::MoveTo(a) => Segment::MoveTo(a.spec_transform(ts)),
            Segment::LineTo(a) => Segment::LineTo(a.spec_transform(ts)),
            Segment::CubicTo(a, b, c) => Segment::CubicTo(
                a.spec_transform(ts),
                b.spec_transform(ts),
                c.spec_transform(ts),
            ),
            Segment::Close => Segment::Close,
        }
    }

    /// Whether every point of the step is `p`.
    pub fn stays_at(&self, p: Point) -> (b: bool)
        ensures
            b == self.spec_stays_at(p),
    {
        match self {
            Segment::MoveTo(a) => a.x == p.x && a.y == p.y,
            Segment::LineTo(a) => a.x == p.x && a.y == p.y,
            Segment::CubicTo(a, b, c) => a.x == p.x && a.y == p.y && b.x == p.x && b.y == p.y
                && c.x == p.x && c.y == p.y,
            Segment::Close => true,
        }
    }

    /// Whether the step draws a line or a curve.
    pub fn draws(&self) -> (b: bool)
        ensures
            b == self.spec_draws(),
    {
        match self {
            Segment::LineTo(_) => true,
            Segment::CubicTo(_, _, _) => true,
            _ => false,
        }
    }

    /// Maps the points of the step through `ts`.
    pub fn transform(&self, ts: Transform) -> (s: Segment)
        ensures
            s == self.spec_transform(ts),
    {
        match self {
            Segment::MoveTo(a) => Segment::MoveTo(a.transform(ts)),
            Segment::LineTo(a) => Segment::LineTo(a.transform(ts)),
            Segment::CubicTo(a, b, c) => Segment::CubicTo(
                a.transform(ts),
                b.transform(ts),
                c.transform(ts),
            ),
            Segment::Close => Segment::Close,
        }
    }
}

/// Where a path starts: at its first step if that is a move, else at the
/// origin.
pub open spec fn path_start(segments: Seq<Segment>) -> Point {
    if segments.len() > 0 && segments[0] is MoveTo {
        segments[0]->MoveTo_0
    } else {
        Point { x: 0, y: 0 }
    }
}

/// A path is empty where it draws nothing: it has no line and no curve, or
/// none of its points leaves the point where it starts.
pub open spec fn path_is_empty(segments: Seq<Segment>) -> bool {
    ||| forall|i: int| 0 <= i < segments.len() ==> !(#[trigger] segments[i]).spec_draws()
    ||| forall|i: int|
        0 <= i < segments.len() ==> (#[trigger] segments[i]).spec_stays_at(path_start(segments))
}

/// The steps of a path with every point mapped through `ts`.
pub open spec fn path_transformed(segments: Seq<Segment>, ts: Transform) -> Seq<Segment> {
    Seq::new(segments.len(), |i: int| segments[i].spec_transform(ts))
}

/// The steps that draw the outline of `rect`.
pub open spec fn rect_segments(rect: Rect) -> Seq<Segment> {
    seq![
        Segment::MoveTo(Point { x: rect.left, y: rect.top }),
        Segment::LineTo(Point { x: rect.right, y: rect.top }),
        Segment::LineTo(Point { x: rect.right, y: rect.bottom }),
        Segment::LineTo(Point { x: rect.left, y: rect.bottom }),
        Segment::Close,
    ]
}

/// What is left of a run of steps when it is finished: nothing where the
/// path is empty.
pub open spec fn path_finished(segments: Seq<Segment>) -> Option<Seq<Segment>> {
    if path_is_empty(segments) {
        None
    } else {
        Some(segments)
    }
}

/// Whether a run of steps is an empty path.
pub fn segments_are_empty(segments: &Vec<Segment>) -> (b: bool)
    ensures
        b == path_is_empty(segments@),
{
    let start: Point = if segments.len() > 0 {
        match segments[0] {
            Segment::MoveTo(p) => p,
            _ => Point { x: 0, y: 0 },
        }
    } else {
        Point { x: 0, y: 0 }
    };
    let mut drawing: bool = false;
    let mut leaving: bool = false;
    let ghost mut drawn: int = 0;
    let ghost mut left: int = 0;
    let mut i: usize = 0;
    while i < segments.len()
        invariant
            i <= segments.len(),
            start == path_start(segments@),
            !drawing ==> forall|j: int| 0 <= j < i ==> !(#[trigger] segments@[j]).spec_draws(),
            drawing ==> 0 <= drawn < i && segments@[drawn].spec_draws(),
            !leaving ==> forall|j: int|
                0 <= j < i ==> (#[trigger] segments@[j]).spec_stays_at(start),
            leaving ==> 0 <= left < i && !segments@[left].spec_stays_at(start),
        decreases segments.len() - i,
    {
        if segments[i].draws() {
            drawing = true;
            proof {
                drawn = i as int;
            }
        }
        if !segments[i].stays_at(start) {
            leaving = true;
            proof {
                left = i as int;
            }
        }
        i += 1;
    }
    !(drawing && leaving)
}

impl PathBuilder {
    /// Creates a builder without steps.
    pub fn new() -> (b: PathBuilder)
        ensures
            b@ == Seq::<Segment>::empty(),
    {
        PathBuilder { segments: Vec::new() }
    }

    /// Starts a contour at `(x, y)`.
    pub fn move_to(&mut self, x: i64, y: i64)
        ensures
            final(self)@ == old(self)@.push(Segment::MoveTo(Point { x, y })),
    {
        self.segments.push(Segment::MoveTo(Point { x, y }));
    }

    /// Adds a line to `(x, y)`.
    pub fn line_to(&mut self, x: i64, y: i64)
        ensures
            final(self)@ == old(self)@.push(Segment::LineTo(Point { x, y })),
    {
        self.segments.push(Segment::LineTo(Point { x, y }));
    }

    /// Adds a cubic curve to `(x, y)` with the two control points before it.
    pub fn cubic_to(&mut self, x1: i64, y1: i64, x2: i64, y2: i64, x: i64, y: i64)
        ensures
            final(self)@ == old(self)@.push(
                Segment::CubicTo(Point { x: x1, y: y1 }, Point { x: x2, y: y2 }, Point { x, y }),
            ),
    {
        self.segments.push(
            Segment::CubicTo(Point { x: x1, y: y1 }, Point { x: x2, y: y2 }, Point { x, y }),
        );
    }

    /// Closes the contour.
    pub fn close(&mut self)
        ensures
            final(self)@ == old(self)@.push(Segment::Close),
    {
        self.segments.push(Segment::Close);
    }

    /// Adds the outline of `rect`.
    pub fn push_rect(&mut self, rect: Rect)
        ensures
            final(self)@ == old(self)@ + rect_segments(rect),
    {
        self.move_to(rect.left, rect.top);
        self.line_to(rect.right, rect.top);
        self.line_to(rect.right, rect.bottom);
        self.line_to(rect.left, rect.bottom);
        self.close();
        proof {
            assert(self@ =~= old(self)@ + rect_segments(rect));
        }
    }

    /// Finishes the path. There is none where the steps draw nothing.
    pub fn finish(self) -> (path: Option<Path>)
        ensures
            path is Some == path_finished(self@) is Some,
            path is Some ==> path->0@ == self@ && path->0.wf(),
    {
        if segments_are_empty(&self.segments) {
            None
        } else {
            Some(Path { segments: self.segments })
        }
    }
}

impl Path {
    /// A path draws something.
    pub open spec fn wf(&self) -> bool {
        !path_is_empty(self@)
    }

    /// Makes a copy of the path.
    pub fn duplicate(&self) -> (path: Path)
        ensures
            path@ == self@,
    {
        let mut segments: Vec<Segment> = Vec::new();
        let mut i: usize = 0;
        while i < self.segments.len()
            invariant
                i <= self.segments.len(),
                segments@ == self@.take(i as int),
            decreases self.segments.len() - i,
        {
            segments.push(self.segments[i]);
            proof {
                assert(segments@ =~= self@.take(i + 1));
            }
            i += 1;
        }
        proof {
            assert(self@.take(i as int) =~= self@);
        }
        Path { segments }
    }

    /// The path with every point mapped through `ts`, where that still
    /// draws something.
    pub open spec fn spec_transform(segments: Seq<Segment>, ts: Transform) -> Option<
        Seq<Segment>,
    > {
        path_finished(path_transformed(segments, ts))
    }

    /// Maps every point of the path through `ts`. There is no path where
    /// the result draws nothing.
    pub fn transform(self, ts: Transform) -> (path: Option<Path>)
        ensures
            path is Some == Path::spec_transform(self@, ts) is Some,
            path is Some ==> path->0@ == path_transformed(self@, ts) && path->0.wf(),
    {
        let mut mapped: Vec<Segment> = Vec::new();
        let mut i: usize = 0;
        while i < self.segments.len()
            invariant
                i <= self.segments.len(),
                mapped@.len() == i,
                forall|j: int| 0 <= j < i ==> mapped@[j] == self@[j].spec_transform(ts),
            decreases self.segments.len() - i,
        {
            mapped.push(self.segments[i].transform(ts));
            i += 1;
        }
        proof {
            assert(mapped@ =~= path_transformed(self@, ts));
        }
        if segments_are_empty(&mapped) {
            None
        } else {
            Some(Path { segments: mapped })
        }
    }
}

/// What a call on the surface adds to the number of open transforms and
/// clips.
pub open spec fn op_delta(op: OpView) -> int {
    match op {
        OpView::PushTransform(_) => 1,
        OpView::PushClipPath(_, _) => 1,
        OpView::Pop => -1,
        _ => 0,
    }
}

/// The number of transforms and clips that a run of calls leaves open.
pub open spec fn depth_of(ops: Seq<OpView>) -> int
    decreases ops.len(),
{
    if ops.len() == 0 {
        0
    } else {
        depth_of(ops.drop_last()) + op_delta(ops.last())
    }
}

/// A run of calls never closes what it did not open.
pub open spec fn well_nested(ops: Seq<OpView>) -> bool {
    forall|n: int| 0 <= n <= ops.len() ==> depth_of(#[trigger] ops.take(n)) >= 0
}

/// The depth after two runs of calls is the sum of their depths.
pub proof fn lemma_depth_concat(a: Seq<OpView>, b: Seq<OpView>)
    ensures
        depth_of(a + b) == depth_of(a) + depth_of(b),
    decreases b.len(),
{
    if b.len() == 0 {
        assert(a + b =~= a);
    } else {
        lemma_depth_concat(a, b.drop_last());
        assert((a + b).drop_last() =~= a + b.drop_last());
        assert((a + b).last() == b.last());
    }
}

/// The depth after one more call.
pub proof fn lemma_depth_push(a: Seq<OpView>, op: OpView)
    ensures
        depth_of(a.push(op)) == depth_of(a) + op_delta(op),
{
    assert(a.push(op).drop_last() =~= a);
}

impl Surface {
    /// The number of transforms and clips that are open.
    pub open spec fn depth(&self) -> int {
        depth_of(self@)
    }

    /// A surface never has closed more than was opened on it.
    pub open spec fn wf(&self) -> bool {
        self.depth() >= 0
    }

    /// Creates a surface without calls.
    pub fn new() -> (s: Surface)
        ensures
            s@ == Seq::<OpView>::empty(),
            s.depth() == 0,
            s.wf(),
    {
        let s = Surface { ops: Vec::new() };
        proof {
            assert(s@ =~= Seq::<OpView>::empty());
        }
        s
    }

    /// Records one call.
    pub fn record(&mut self, op: SurfaceOp)
        ensures
            final(self)@ == old(self)@.push(op@),
            final(self).depth() == old(self).depth() + op_delta(op@),
    {
        self.ops.push(op);
        proof {
            assert(self@ =~= old(self)@.push(op@));
            lemma_depth_push(old(self)@, op@);
        }
    }

    /// Opens a transform: what is drawn until the matching `pop` is mapped
    /// through it.
    pub fn push_transform(&mut self, transform: &Transform)
        ensures
            final(self)@ == old(self)@.push(OpView::PushTransform(*transform)),
            final(self).depth() == old(self).depth() + 1,
    {
        self.record(SurfaceOp::PushTransform(*transform));
    }

    /// Opens a clip: what is drawn until the matching `pop` shows only
    /// inside the path.
    pub fn push_clip_path(&mut self, path: Path, rule: &FillRule)
        ensures
            final(self)@ == old(self)@.push(OpView::PushClipPath(path@, *rule)),
            final(self).depth() == old(self).depth() + 1,
    {
        self.record(SurfaceOp::PushClipPath(path, *rule));
    }

    /// Closes the transform or clip that was opened last.
    pub fn pop(&mut self)
        requires
            old(self).depth() > 0,
        ensures
            final(self)@ == old(self)@.push(OpView::Pop),
            final(self).depth() == old(self).depth() - 1,
    {
        self.record(SurfaceOp::Pop);
    }

    /// Fills a path.
    pub fn fill_path(&mut self, path: Path, fill: Fill)
        ensures
            final(self)@ == old(self)@.push(OpView::FillPath(path@, fill)),
            final(self).depth() == old(self).depth(),
    {
        self.record(SurfaceOp::FillPath(path, fill));
    }

    /// Strokes a path.
    pub fn stroke_path(&mut self, path: Path, stroke: Stroke)
        ensures
            final(self)@ == old(self)@.push(OpView::StrokePath(path@, stroke)),
            final(self).depth() == old(self).depth(),
    {
        self.record(SurfaceOp::StrokePath(path, stroke));
    }

    /// Fills a run of glyphs of the font with the identity `font`.
    pub fn fill_glyphs(
        &mut self,
        origin: Point,
        fill: Fill,
        glyphs: Vec<PdfGlyph>,
        font: u64,
        text: String,
        size: i64,
        units: GlyphUnits,
        ignore_spacing: bool,
    )
        ensures
            final(self)@ == old(self)@.push(
                OpView::FillGlyphs {
                    origin,
                    fill,
                    glyphs: glyphs@,
                    font,
                    text: text@,
                    size,
                    units,
                    ignore_spacing,
                },
            ),
            final(self).depth() == old(self).depth(),
    {
        self.record(
            SurfaceOp::FillGlyphs { origin, fill, glyphs, font, text, size, units, ignore_spacing },
        );
    }

    /// Strokes a run of glyphs of the font with the identity `font`.
    pub fn stroke_glyphs(
        &mut self,
        origin: Point,
        stroke: Stroke,
        glyphs: Vec<PdfGlyph>,
        font: u64,
        text: String,
        size: i64,
        units: GlyphUnits,
        ignore_spacing: bool,
    )
        ensures
            final(self)@ == old(self)@.push(
                OpView::StrokeGlyphs {
                    origin,
                    stroke,
                    glyphs: glyphs@,
                    font,
                    text: text@,
                    size,
                    units,
                    ignore_spacing,
                },
            ),
            final(self).depth() == old(self).depth(),
    {
        self.record(
            SurfaceOp::StrokeGlyphs {
                origin,
                stroke,
                glyphs,
                font,
                text,
                size,
                units,
                ignore_spacing,
            },
        );
    }

    /// Draws the raster image with the identity `image` into a box of the
    /// given size.
    pub fn draw_image(&mut self, image: u64, size: Size)
        ensures
            final(self)@ == old(self)@.push(OpView::DrawImage(image, size)),
            final(self).depth() == old(self).depth(),
    {
        self.record(SurfaceOp::DrawImage(image, size));
    }

    /// Draws the vector image with the tree `tree` into a box of the given
    /// size.
    pub fn draw_svg(&mut self, tree: u64, size: Size, settings: SvgSettings)
        ensures
            final(self)@ == old(self)@.push(OpView::DrawSvg(tree, size, settings)),
            final(self).depth() == old(self).depth(),
    {
        self.record(SurfaceOp::DrawSvg(tree, size, settings));
    }

    /// Ends the page content and hands out the calls that make it up.
    pub fn finish(self) -> (ops: Vec<SurfaceOp>)
        ensures
            ops == self.ops,
    {
        self.ops
    }
}

} // verus!
