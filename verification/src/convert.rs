//! Conversion of the primitives of the document into those of the surface.

use vstd::prelude::*;
use crate::backend;
use crate::backend::{PathBuilder, PdfGlyph, Segment};
use crate::context::Transforms;
use crate::document::{FillRule, FixedStroke, Glyph, LineCap, LineJoin, Paint, Path, PathItem};
use crate::geometry::{Point, Size, Transform};

verus! {

/// The surface point with the coordinates of `p`.
pub open spec fn point_converted(p: Point) -> backend::Point {
    backend::Point { x: p.x, y: p.y }
}

/// The surface size with the sides of `s`.
pub open spec fn size_converted(s: Size) -> backend::Size {
    backend::Size { width: s.x, height: s.y }
}

/// The row-major map with the entries of `t`.
pub open spec fn transform_converted(t: Transform) -> backend::Transform {
    backend::Transform { sx: t.sx, ky: t.ky, kx: t.kx, sy: t.sy, tx: t.tx, ty: t.ty }
}

/// The fill rule of the surface for `rule`.
pub open spec fn fill_rule_converted(rule: FillRule) -> backend::FillRule {
    match rule {
        FillRule::NonZero => backend::FillRule::NonZero,
        FillRule::EvenOdd => backend::FillRule::EvenOdd,
    }
}

/// The line cap of the surface for `cap`.
pub open spec fn line_cap_converted(cap: LineCap) -> backend::LineCap {
    match cap {
        LineCap::Butt => backend::LineCap::Butt,
        LineCap::Round => backend::LineCap::Round,
        LineCap::Square => backend::LineCap::Square,
    }
}

/// The line join of the surface for `join`.
pub open spec fn line_join_converted(join: LineJoin) -> backend::LineJoin {
    match join {
        LineJoin::Miter => backend::LineJoin::Miter,
        LineJoin::Round => backend::LineJoin::Round,
        LineJoin::Bevel => backend::LineJoin::Bevel,
    }
}

/// The step of a surface path for `item`.
pub open spec fn path_item_converted(item: PathItem) -> Segment {
    match item {
        PathItem::MoveTo(p) => Segment::MoveTo(point_converted(p)),
        PathItem::LineTo(p) => Segment::LineTo(point_converted(p)),
        PathItem::CubicTo(a, b, c) => Segment::CubicTo(
            point_converted(a),
            point_converted(b),
            point_converted(c),
        ),
        PathItem::ClosePath => Segment::Close,
    }
}

/// The steps of a surface path for the steps of a document path, in order.
pub open spec fn path_converted(items: Seq<PathItem>) -> Seq<Segment> {
    Seq::new(items.len(), |i: int| path_item_converted(items[i]))
}

/// The paint of the surface for `paint` and the opacity that goes with it.
/// A solid colour is split into its opaque part and its alpha; a gradient
/// or pattern is opaque and is laid out by `transforms`.
pub open spec fn paint_converted(paint: Paint, transforms: Transforms) -> (backend::Paint, u8) {
    match paint {
        Paint::Solid(c) => (backend::Paint::Rgb(backend::Rgb { r: c.r, g: c.g, b: c.b }), c.a),
        Paint::Gradient(g) => (backend::Paint::Gradient(g.id, transforms), 255u8),
        Paint::Pattern(p) => (backend::Paint::Pattern(p.id, transforms), 255u8),
    }
}

/// The fill of the surface for `paint` under `rule`.
pub open spec fn fill_converted(
    paint: Paint,
    rule: FillRule,
    transforms: Transforms,
) -> backend::Fill {
    backend::Fill {
        paint: paint_converted(paint, transforms).0,
        rule: fill_rule_converted(rule),
        opacity: paint_converted(paint, transforms).1,
    }
}

/// The stroke of the surface for `stroke`.
pub open spec fn stroke_converted(stroke: FixedStroke, transforms: Transforms) -> backend::Stroke {
    backend::Stroke {
        paint: paint_converted(stroke.paint, transforms).0,
        width: stroke.thickness,
        miter_limit: stroke.miter_limit,
        line_cap: line_cap_converted(stroke.cap),
        line_join: line_join_converted(stroke.join),
        opacity: paint_converted(stroke.paint, transforms).1,
    }
}

/// The glyph of the surface for `glyph`: it advances along the line only.
pub open spec fn glyph_converted(glyph: Glyph) -> PdfGlyph {
    PdfGlyph {
        glyph_id: glyph.id as u32,
        text_start: glyph.start as usize,
        text_end: glyph.end as usize,
        x_advance: glyph.x_advance,
        x_offset: glyph.x_offset,
        y_advance: 0,
        y_offset: 0,
    }
}

/// The glyphs of the surface for a run of glyphs, in order.
pub open spec fn glyphs_converted(glyphs: Seq<Glyph>) -> Seq<PdfGlyph> {
    Seq::new(glyphs.len(), |i: int| glyph_converted(glyphs[i]))
}

/// Converts a point.
pub fn convert_point(p: Point) -> (r: backend::Point)
    ensures
        r == point_converted(p),
{
    backend::Point::from_xy(p.x, p.y)
}

/// Converts a size.
pub fn convert_size(s: Size) -> (r: backend::Size)
    ensures
        r == size_converted(s),
{
    backend::Size::from_wh(s.x, s.y)
}

/// Converts an affine map into the row-major map of the surface.
pub fn convert_transform(t: Transform) -> (r: backend::Transform)
    ensures
        r == transform_converted(t),
{
    backend::Transform::from_row(t.sx, t.ky, t.kx, t.sy, t.tx, t.ty)
}

/// Converts a fill rule.
pub fn convert_fill_rule(rule: FillRule) -> (r: backend::FillRule)
    ensures
        r == fill_rule_converted(rule),
{
    match rule {
        FillRule::NonZero => backend::FillRule::NonZero,
        FillRule::EvenOdd => backend::FillRule::EvenOdd,
    }
}

/// Converts a line cap.
pub fn convert_line_cap(cap: LineCap) -> (r: backend::LineCap)
    ensures
        r == line_cap_converted(cap),
{
    match cap {
        LineCap::Butt => backend::LineCap::Butt,
        LineCap::Round => backend::LineCap::Round,
        LineCap::Square => backend::LineCap::Square,
    }
}

/// Converts a line join.
pub fn convert_line_join(join: LineJoin) -> (r: backend::LineJoin)
    ensures
        r == line_join_converted(join),
{
    match join {
        LineJoin::Miter => backend::LineJoin::Miter,
        LineJoin::Round => backend::LineJoin::Round,
        LineJoin::Bevel => backend::LineJoin::Bevel,
    }
}

/// Replays the steps of `path` on `builder`, in order.
pub fn convert_path(path: &Path, builder: &mut PathBuilder)
    ensures
        final(builder)@ == old(builder)@ + path_converted(path@),
{
    let mut i: usize = 0;
    while i < path.0.len()
        invariant
            i <= path.0.len(),
            builder@ == old(builder)@ + path_converted(path@.take(i as int)),
        decreases path.0.len() - i,
    {
        let ghost before = builder@;
        match &path.0[i] {
            PathItem::MoveTo(p) => builder.move_to(p.x, p.y),
            PathItem::LineTo(p) => builder.line_to(p.x, p.y),
            PathItem::CubicTo(p1, p2, p3) => builder.cubic_to(p1.x, p1.y, p2.x, p2.y, p3.x, p3.y),
            PathItem::ClosePath => builder.close(),
        }
        proof {
            assert(builder@ == before.push(path_item_converted(path@[i as int])));
            assert(path_converted(path@.take(i + 1)) =~= path_converted(path@.take(i as int)).push(
                path_item_converted(path@[i as int]),
            ));
            assert(builder@ =~= old(builder)@ + path_converted(path@.take(i + 1)));
        }
        i += 1;
    }
    proof {
        assert(path@.take(i as int) =~= path@);
    }
}

/// Converts a paint into the paint of the surface and its opacity.
pub fn convert_paint(paint: &Paint, transforms: Transforms) -> (r: (backend::Paint, u8))
    ensures
        r == paint_converted(*paint, transforms),
{
    match paint {
        Paint::Solid(c) => (backend::Paint::Rgb(backend::Rgb { r: c.r, g: c.g, b: c.b }), c.a),
        Paint::Gradient(g) => (backend::Paint::Gradient(g.id, transforms), 255u8),
        Paint::Pattern(p) => (backend::Paint::Pattern(p.id, transforms), 255u8),
    }
}

/// Converts a paint and a fill rule into a fill of the surface.
pub fn convert_fill(paint: &Paint, rule: FillRule, transforms: Transforms) -> (r: backend::Fill)
    ensures
        r == fill_converted(*paint, rule, transforms),
{
    let (converted, opacity) = convert_paint(paint, transforms);
    backend::Fill { paint: converted, rule: convert_fill_rule(rule), opacity }
}

/// Converts a stroke: its paint and opacity, width, miter limit, cap and
/// join.
pub fn convert_fixed_stroke(stroke: &FixedStroke, transforms: Transforms) -> (r: backend::Stroke)
    ensures
        r == stroke_converted(*stroke, transforms),
{
    let (converted, opacity) = convert_paint(&stroke.paint, transforms);
    backend::Stroke {
        paint: converted,
        width: stroke.thickness,
        miter_limit: stroke.miter_limit,
        line_cap: convert_line_cap(stroke.cap),
        line_join: convert_line_join(stroke.join),
        opacity,
    }
}

/// Converts a glyph.
pub fn convert_glyph(glyph: &Glyph) -> (r: PdfGlyph)
    ensures
        r == glyph_converted(*glyph),
{
    PdfGlyph {
        glyph_id: glyph.id as u32,
        text_start: glyph.start as usize,
        text_end: glyph.end as usize,
        x_advance: glyph.x_advance,
        x_offset: glyph.x_offset,
        y_advance: 0,
        y_offset: 0,
    }
}

/// Converts a run of glyphs, in order.
pub fn convert_glyphs(glyphs: &Vec<Glyph>) -> (r: Vec<PdfGlyph>)
    ensures
        r@ == glyphs_converted(glyphs@),
{
    let mut converted: Vec<PdfGlyph> = Vec::new();
    let mut i: usize = 0;
    while i < glyphs.len()
        invariant
            i <= glyphs.len(),
            converted@.len() == i,
            forall|j: int| 0 <= j < i ==> converted@[j] == glyph_converted(glyphs@[j]),
        decreases glyphs.len() - i,
    {
        converted.push(convert_glyph(&glyphs[i]));
        i += 1;
    }
    proof {
        assert(converted@ =~= glyphs_converted(glyphs@));
    }
    converted
}

} // verus!
