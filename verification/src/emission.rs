//! What the walk over a frame gives out: the calls on the surface, the
//! links of the page and the resources that are used, each in the order of
//! the walk.

use vstd::prelude::*;
use crate::backend;
use crate::backend::{
    path_finished, path_is_empty, rect_segments, AnnotationView, GlyphUnits, OpView, Rect,
    Segment, SvgSettings, TargetView,
};
use crate::context::State;
use crate::convert::{
    fill_converted, glyphs_converted, path_converted, point_converted, size_converted,
    stroke_converted, transform_converted,
};
use crate::document::{
    Destination, FillRule, FixedStroke, Frame, FrameItem, Geometry, GroupItem, ImageKind, Paint,
    Picture, Shape, TextItem,
};
use crate::fixed::{magnitude, max_of, min_of, ONE};
use crate::geometry::{Point, Size, Transform};
use crate::resources::Resource;

verus! {

/// What a part of the walk gives out.
pub struct Emission {
    /// The calls on the surface.
    pub ops: Seq<OpView>,
    /// The links for the page.
    pub links: Seq<AnnotationView>,
    /// The fonts and raster images that are used.
    pub uses: Seq<Resource>,
}

impl Emission {
    /// Nothing at all.
    pub open spec fn nothing() -> Emission {
        Emission { ops: Seq::empty(), links: Seq::empty(), uses: Seq::empty() }
    }

    /// Calls on the surface and nothing else.
    pub open spec fn of_ops(ops: Seq<OpView>) -> Emission {
        Emission { ops, links: Seq::empty(), uses: Seq::empty() }
    }

    /// This emission followed by `next`.
    pub open spec fn followed_by(self, next: Emission) -> Emission {
        Emission {
            ops: self.ops + next.ops,
            links: self.links + next.links,
            uses: self.uses + next.uses,
        }
    }
}

/// The ratio that keeps or flips a side: minus one for a negative side, one
/// for any other.
pub open spec fn sign_ratio(v: i64) -> i64 {
    if v < 0 {
        (-ONE) as i64
    } else {
        ONE
    }
}

/// The rectangle that is drawn for a rectangle of the given size. A negative
/// side is drawn by its magnitude, flipped about the axis across it.
pub open spec fn shape_rect(size: Size) -> Option<Rect> {
    if size.x < 0 || size.y < 0 {
        match Rect::spec_from_xywh(
            0,
            0,
            magnitude(size.x as int) as i64,
            magnitude(size.y as int) as i64,
        ) {
            Some(rect) => Some(
                rect.spec_transform(
                    backend::Transform::spec_from_scale(sign_ratio(size.x), sign_ratio(size.y)),
                ),
            ),
            None => None,
        }
    } else {
        Rect::spec_from_xywh(0, 0, size.x, size.y)
    }
}

/// The steps of the surface path for a geometry.
pub open spec fn geometry_segments(geometry: Geometry) -> Seq<Segment> {
    match geometry {
        Geometry::Line(l) => seq![
            Segment::MoveTo(backend::Point { x: 0, y: 0 }),
            Segment::LineTo(point_converted(l)),
        ],
        Geometry::Rect(size) => match shape_rect(size) {
            Some(rect) => rect_segments(rect),
            None => Seq::empty(),
        },
        Geometry::Path(p) => path_converted(p@),
    }
}

/// The stroke that is drawn: none where the thickness is not positive.
pub open spec fn stroke_drawn(stroke: Option<FixedStroke>) -> Option<FixedStroke> {
    match stroke {
        Some(s) => if s.thickness > 0 {
            Some(s)
        } else {
            None
        },
        None => None,
    }
}

/// The calls that draw a shape in the state `st`: nothing for an empty
/// path; else the fill and the stroke, as far as the shape has them, inside
/// the map to the page.
pub open spec fn shape_ops(shape: Shape, st: State) -> Seq<OpView> {
    let segments = geometry_segments(shape.geometry);
    let transforms = st.spec_transforms(shape.geometry.spec_bbox_size());
    if path_is_empty(segments) {
        Seq::empty()
    } else {
        seq![OpView::PushTransform(transform_converted(st.transform_chain))] + (match shape.fill {
            Some(paint) => seq![
                OpView::FillPath(segments, fill_converted(paint, shape.fill_rule, transforms)),
            ],
            None => Seq::empty(),
        }) + (match stroke_drawn(shape.stroke) {
            Some(stroke) => seq![
                OpView::StrokePath(segments, stroke_converted(stroke, transforms)),
            ],
            None => Seq::empty(),
        }) + seq![OpView::Pop]
    }
}

/// The calls that draw a run of glyphs in the state `st`. The paints of a
/// run are laid out in the container, not in a box of the run's own.
pub open spec fn text_ops(text: TextItem, st: State) -> Seq<OpView> {
    let transforms = st.spec_transforms(Size::spec_zero());
    seq![
        OpView::PushTransform(transform_converted(st.transform_chain)),
        OpView::FillGlyphs {
            origin: backend::Point { x: 0, y: 0 },
            fill: fill_converted(text.fill, FillRule::NonZero, transforms),
            glyphs: glyphs_converted(text.glyphs@),
            font: text.font.id,
            text: text.text@,
            size: text.size,
            units: GlyphUnits::Normalized,
            ignore_spacing: false,
        },
    ] + (match stroke_drawn(text.stroke) {
        Some(stroke) => seq![
            OpView::StrokeGlyphs {
                origin: backend::Point { x: 0, y: 0 },
                stroke: stroke_converted(stroke, transforms),
                glyphs: glyphs_converted(text.glyphs@),
                font: text.font.id,
                text: text.text@,
                size: text.size,
                units: GlyphUnits::Normalized,
                ignore_spacing: true,
            },
        ],
        None => Seq::empty(),
    }) + seq![OpView::Pop]
}

/// What a run of glyphs gives out: its calls and the use of its font.
pub open spec fn emit_text(text: TextItem, st: State) -> Emission {
    Emission {
        ops: text_ops(text, st),
        links: Seq::empty(),
        uses: seq![Resource::of_font(text.font)],
    }
}

/// The call that draws an image into a box of the given size.
pub open spec fn image_op(image: Picture, size: Size) -> OpView {
    match image.kind {
        ImageKind::Raster(raster) => OpView::DrawImage(raster.id, size_converted(size)),
        ImageKind::Svg(svg) => OpView::DrawSvg(
            svg.tree,
            size_converted(size),
            SvgSettings { embed_text: !svg.flatten_text },
        ),
    }
}

/// What an image gives out: its call inside the map to the page and, for a
/// raster image, the use of it.
pub open spec fn emit_image(image: Picture, size: Size, st: State) -> Emission {
    Emission {
        ops: seq![
            OpView::PushTransform(transform_converted(st.transform_chain)),
            image_op(image, size),
            OpView::Pop,
        ],
        links: Seq::empty(),
        uses: match image.kind {
            ImageKind::Raster(raster) => seq![Resource::of_raster(raster)],
            ImageKind::Svg(_) => Seq::empty(),
        },
    }
}

/// The box around the images under `ts` of the corners of a rectangle of
/// the given size at the origin.
pub open spec fn link_rect(size: Size, ts: Transform) -> Rect {
    let a = Point::spec_zero().spec_transform(ts);
    let b = (Point { x: size.x, y: 0 }).spec_transform(ts);
    let c = (Point { x: 0, y: size.y }).spec_transform(ts);
    let d = size.spec_to_point().spec_transform(ts);
    Rect {
        left: min_of(min_of(a.x as int, b.x as int), min_of(c.x as int, d.x as int)) as i64,
        top: min_of(min_of(a.y as int, b.y as int), min_of(c.y as int, d.y as int)) as i64,
        right: max_of(max_of(a.x as int, b.x as int), max_of(c.x as int, d.x as int)) as i64,
        bottom: max_of(max_of(a.y as int, b.y as int), max_of(c.y as int, d.y as int)) as i64,
    }
}

/// What following a link to `dest` does. There is no target for a location
/// that is not resolved, nor for a position on a page before the first.
pub open spec fn link_target(dest: Destination) -> Option<TargetView> {
    match dest {
        Destination::Url(url) => Some(TargetView::Link(url@)),
        Destination::Position(p) => if p.page >= 1 {
            Some(TargetView::Xyz((p.page - 1) as usize, point_converted(p.point)))
        } else {
            None
        },
        Destination::Location(_) => None,
    }
}

/// The links that a link item of the given size adds in the state `st`.
pub open spec fn link_annotations(dest: Destination, size: Size, st: State) -> Seq<
    AnnotationView,
> {
    match link_target(dest) {
        Some(target) => seq![AnnotationView { rect: link_rect(size, st.transform), target }],
        None => Seq::empty(),
    }
}

/// The state in a frame that is entered in the state `st`: a hard frame
/// makes itself the container.
pub open spec fn frame_state(frame: Frame, st: State) -> State {
    if frame.kind.spec_is_hard() {
        st.spec_set_container_transform().spec_size(frame.size)
    } else {
        st
    }
}

/// The state of an item at `point` in a frame with the state `st`.
pub open spec fn item_state(st: State, point: Point) -> State {
    st.spec_transform(Transform::spec_translate(point.x, point.y))
}

/// The clip of a group whose state is `st`: the clip path of the group on
/// the page, where it is not empty.
pub open spec fn group_clip(group: GroupItem, st: State) -> Option<Seq<Segment>> {
    match group.clip_path {
        Some(p) => match path_finished(path_converted(p@)) {
            Some(segments) => backend::Path::spec_transform(
                segments,
                transform_converted(st.transform_chain),
            ),
            None => None,
        },
        None => None,
    }
}

/// What the background of a frame gives out.
pub open spec fn emit_background(frame: Frame, fill: Option<Paint>, st: State) -> Emission {
    match fill {
        Some(paint) => Emission::of_ops(
            shape_ops(Geometry::Rect(frame.size).spec_filled(paint), st),
        ),
        None => Emission::nothing(),
    }
}

/// What a frame gives out when it is entered in the state `st`: its
/// background, then its items.
pub open spec fn emit_frame(frame: Frame, fill: Option<Paint>, st: State) -> Emission
    decreases frame, 0nat,
{
    emit_background(frame, fill, frame_state(frame, st)).followed_by(
        emit_items(frame.items@, frame_state(frame, st)),
    )
}

/// What a run of items gives out in a frame with the state `st`, each item
/// in the state of its own.
pub open spec fn emit_items(items: Seq<(Point, FrameItem)>, st: State) -> Emission
    decreases items, 1nat,
{
    if items.len() == 0 {
        Emission::nothing()
    } else {
        emit_items(items.drop_last(), st).followed_by(
            emit_item(items.last().1, item_state(st, items.last().0)),
        )
    }
}

/// What an item gives out in the state `st`.
pub open spec fn emit_item(item: FrameItem, st: State) -> Emission
    decreases item, 0nat,
{
    match item {
        FrameItem::Group(group) => emit_group(group, st),
        FrameItem::Text(text) => emit_text(text, st),
        FrameItem::Shape(shape) => Emission::of_ops(shape_ops(shape, st)),
        FrameItem::Image(image, size) => emit_image(image, size, st),
        FrameItem::Link(dest, size) => Emission {
            ops: Seq::empty(),
            links: link_annotations(dest, size, st),
            uses: Seq::empty(),
        },
        FrameItem::Tag(_) => Emission::nothing(),
    }
}

/// What a group gives out in the state `st`: its frame, in the state that
/// the transform of the group leads to, inside its clip where it has one.
pub open spec fn emit_group(group: GroupItem, st: State) -> Emission
    decreases group, 0nat,
{
    let inner_state = st.spec_transform(group.transform);
    let inner = emit_frame(group.frame, None, inner_state);
    match group_clip(group, inner_state) {
        Some(clip) => Emission {
            ops: seq![OpView::PushClipPath(clip, backend::FillRule::NonZero)] + inner.ops + seq![
                OpView::Pop,
            ],
            ..inner
        },
        None => inner,
    }
}

} // verus!
