//! The walk over a frame: every item is drawn on the surface in the state
//! that the frames and groups around it lead to.

use vstd::prelude::*;
use crate::backend;
use crate::backend::{
    Annotation, GlyphUnits, LinkAnnotation, OpView, PathBuilder, Rect, Surface, SvgSettings,
    Target,
};
use crate::context::{FrameContext, State, Transforms};
use crate::convert::{
    convert_fill, convert_fixed_stroke, convert_glyphs, convert_path, convert_point,
    convert_size, convert_transform, path_converted, transform_converted,
};
use crate::document::{
    Destination, FillRule, Frame, FrameItem, Geometry, GroupItem, ImageKind, Paint, Picture,
    Shape, TextItem,
};
use crate::emission::{
    emit_background, emit_frame, emit_group, emit_image, emit_item, emit_items, emit_text,
    frame_state, geometry_segments, group_clip, item_state, link_annotations, shape_ops,
    shape_rect, sign_ratio, text_ops, Emission,
};
use crate::fixed::{magnitude_of, max_len, min_len, ONE};
use crate::geometry::{Point, Size, Transform};
use crate::resources::{
    lemma_resolve_concat, lemma_resolve_single, resolve, GlobalContext, Known, PdfError,
    Resource,
};

verus! {

/// What a part of the walk leaves behind, where `e` is what it gives out.
/// The stack of states and the number of open transforms and clips are as
/// before, and nothing that was drawn or kept before is lost. The resources
/// are used in order up to the first that cannot be built, which is the
/// failure. Without failure the calls and the links are added to those that
/// were there.
pub open spec fn walked(
    e: Emission,
    fc0: FrameContext,
    fc1: FrameContext,
    surface0: Surface,
    surface1: Surface,
    known0: Known,
    known1: Known,
    r: Result<(), PdfError>,
) -> bool {
    &&& fc1.states@ == fc0.states@
    &&& surface1.depth() == surface0.depth()
    &&& surface0@.is_prefix_of(surface1@)
    &&& fc0.links().is_prefix_of(fc1.links())
    &&& known1 == resolve(known0, e.uses).known
    &&& match r {
        Ok(_) => {
            &&& resolve(known0, e.uses).failure is None
            &&& surface1@ == surface0@ + e.ops
            &&& fc1.links() == fc0.links() + e.links
        },
        Err(failure) => resolve(known0, e.uses).failure == Some(failure),
    }
}

/// What starts a run that starts another run starts that run.
pub proof fn lemma_prefix_transitive<T>(a: Seq<T>, b: Seq<T>, c: Seq<T>)
    requires
        a.is_prefix_of(b),
        b.is_prefix_of(c),
    ensures
        a.is_prefix_of(c),
{
    assert(a =~= c.subrange(0, a.len() as int)) by {
        assert(b.subrange(0, a.len() as int) =~= c.subrange(0, b.len() as int).subrange(
            0,
            a.len() as int,
        ));
    }
}

/// A run starts the run that it becomes when more is added to it.
pub proof fn lemma_prefix_extended<T>(a: Seq<T>, b: Seq<T>)
    ensures
        a.is_prefix_of(a + b),
        a.is_prefix_of(a),
{
    assert(a =~= (a + b).subrange(0, a.len() as int));
    assert(a =~= a.subrange(0, a.len() as int));
}

/// A part of the walk after another: what the two leave behind is what
/// their emissions in a row leave behind.
pub proof fn lemma_walked_step(
    before: Emission,
    one: Emission,
    fc0: FrameContext,
    fc1: FrameContext,
    fc2: FrameContext,
    surface0: Surface,
    surface1: Surface,
    surface2: Surface,
    known0: Known,
    known1: Known,
    known2: Known,
    r: Result<(), PdfError>,
)
    requires
        walked(before, fc0, fc1, surface0, surface1, known0, known1, Ok(())),
        walked(one, fc1, fc2, surface1, surface2, known1, known2, r),
    ensures
        walked(before.followed_by(one), fc0, fc2, surface0, surface2, known0, known2, r),
{
    lemma_resolve_concat(known0, before.uses, one.uses);
    lemma_prefix_transitive(surface0@, surface1@, surface2@);
    lemma_prefix_transitive(fc0.links(), fc1.links(), fc2.links());
    if r is Ok {
        assert(surface2@ =~= surface0@ + before.followed_by(one).ops);
        assert(fc2.links() =~= fc0.links() + before.followed_by(one).links);
    }
}

/// The ratio that keeps or flips a side, see [`sign_ratio`].
pub fn sign_of(v: i64) -> (r: i64)
    ensures
        r == sign_ratio(v),
{
    if v < 0 {
        -ONE
    } else {
        ONE
    }
}

/// The rectangle to draw for a rectangle of the given size, see
/// [`shape_rect`].
pub fn rect_of(size: Size) -> (rect: Option<Rect>)
    ensures
        rect == shape_rect(size),
        rect is Some,
{
    let w: i64 = size.x;
    let h: i64 = size.y;
    if w < 0 || h < 0 {
        let transform = backend::Transform::from_scale(sign_of(w), sign_of(h));
        match Rect::from_xywh(0, 0, magnitude_of(w), magnitude_of(h)) {
            Some(rect) => Some(rect.transform(transform)),
            None => None,
        }
    } else {
        Rect::from_xywh(0, 0, w, h)
    }
}

/// Gathers the steps of the surface path for a geometry.
pub fn build_geometry(geometry: &Geometry) -> (builder: PathBuilder)
    ensures
        builder@ == geometry_segments(*geometry),
{
    let mut builder = PathBuilder::new();
    match geometry {
        Geometry::Line(l) => {
            builder.move_to(0, 0);
            builder.line_to(l.x, l.y);
            proof {
                assert(builder@ =~= geometry_segments(*geometry));
            }
        },
        Geometry::Rect(size) => {
            if let Some(rect) = rect_of(*size) {
                builder.push_rect(rect);
            }
            proof {
                assert(builder@ =~= geometry_segments(*geometry));
            }
        },
        Geometry::Path(p) => {
            convert_path(p, &mut builder);
            proof {
                assert(builder@ =~= geometry_segments(*geometry));
            }
        },
    }
    builder
}

/// Draws a shape. An empty path draws nothing. Else the map to the page is
/// opened, the path is filled where the shape has a fill and stroked where
/// it has a stroke of positive thickness, and the map is closed. The state
/// and the resources stay as they are.
pub fn handle_shape(
    fc: &mut FrameContext,
    shape: &Shape,
    surface: &mut Surface,
    gc: &mut GlobalContext,
)
    requires
        old(fc).wf(),
        old(surface).wf(),
    ensures
        *final(fc) == *old(fc),
        *final(gc) == *old(gc),
        final(surface)@ == old(surface)@ + shape_ops(*shape, old(fc).top()),
        final(surface).depth() == old(surface).depth(),
{
    let path_builder = build_geometry(&shape.geometry);
    if let Some(path) = path_builder.finish() {
        let transforms: Transforms = fc.state().transforms(shape.geometry.bbox_size());
        surface.push_transform(&convert_transform(fc.state().transform_chain));
        if let Some(paint) = &shape.fill {
            let fill = convert_fill(paint, shape.fill_rule, transforms);
            surface.fill_path(path.duplicate(), fill);
        }
        if let Some(stroke) = &shape.stroke {
            if stroke.thickness > 0 {
                let stroke = convert_fixed_stroke(stroke, transforms);
                surface.stroke_path(path.duplicate(), stroke);
            }
        }
        surface.pop();
        proof {
            assert(surface@ =~= old(surface)@ + shape_ops(*shape, old(fc).top()));
        }
    } else {
        proof {
            assert(surface@ =~= old(surface)@ + shape_ops(*shape, old(fc).top()));
        }
    }
}

/// Draws a run of glyphs. The font is taken from the resources, where it is
/// built if it is new; a font that cannot be built is the failure, and
/// nothing is drawn. Else the map to the page is opened, the glyphs are
/// filled and, where the run has a stroke of positive thickness, stroked,
/// and the map is closed.
pub fn handle_text(
    fc: &mut FrameContext,
    t: &TextItem,
    surface: &mut Surface,
    gc: &mut GlobalContext,
) -> (r: Result<(), PdfError>)
    requires
        old(fc).wf(),
        old(surface).wf(),
    ensures
        walked(
            emit_text(*t, old(fc).top()),
            *old(fc),
            *final(fc),
            *old(surface),
            *final(surface),
            old(gc)@,
            final(gc)@,
            r,
        ),
        r is Err ==> *final(surface) == *old(surface),
        *final(fc) == *old(fc),
{
    proof {
        lemma_resolve_single(gc@, Resource::of_font(t.font));
        lemma_prefix_extended(surface@, text_ops(*t, fc.top()));
        lemma_prefix_extended(fc.links(), Seq::<backend::AnnotationView>::empty());
    }
    let font: u64 = match gc.font_or_intern(&t.font) {
        Ok(key) => key,
        Err(failure) => {
            return Err(failure);
        },
    };
    let transforms: Transforms = fc.state().transforms(Size::zero());
    let fill = convert_fill(&t.fill, FillRule::NonZero, transforms);
    surface.push_transform(&convert_transform(fc.state().transform_chain));
    surface.fill_glyphs(
        backend::Point::from_xy(0, 0),
        fill,
        convert_glyphs(&t.glyphs),
        font,
        t.text.clone(),
        t.size,
        GlyphUnits::Normalized,
        false,
    );
    if let Some(stroke) = &t.stroke {
        if stroke.thickness > 0 {
            let stroke = convert_fixed_stroke(stroke, transforms);
            surface.stroke_glyphs(
                backend::Point::from_xy(0, 0),
                stroke,
                convert_glyphs(&t.glyphs),
                font,
                t.text.clone(),
                t.size,
                GlyphUnits::Normalized,
                true,
            );
        }
    }
    surface.pop();
    proof {
        assert(surface@ =~= old(surface)@ + text_ops(*t, old(fc).top()));
        assert(fc.links() =~= old(fc).links() + Seq::<backend::AnnotationView>::empty());
    }
    Ok(())
}

/// Draws an image into a box of the given size, inside the map to the page.
/// A raster image is taken from the resources, where it is decoded if it is
/// new; one that cannot be decoded is the failure. A vector image keeps its
/// text as text unless it asks for outlines.
pub fn handle_image(
    fc: &mut FrameContext,
    image: &Picture,
    size: Size,
    surface: &mut Surface,
    gc: &mut GlobalContext,
) -> (r: Result<(), PdfError>)
    requires
        old(fc).wf(),
        old(surface).wf(),
    ensures
        walked(
            emit_image(*image, size, old(fc).top()),
            *old(fc),
            *final(fc),
            *old(surface),
            *final(surface),
            old(gc)@,
            final(gc)@,
            r,
        ),
        *final(fc) == *old(fc),
{
    proof {
        lemma_prefix_extended(surface@, emit_image(*image, size, fc.top()).ops);
        lemma_prefix_extended(fc.links(), Seq::<backend::AnnotationView>::empty());
    }
    surface.push_transform(&convert_transform(fc.state().transform_chain));
    match &image.kind {
        ImageKind::Raster(raster) => {
            proof {
                lemma_resolve_single(gc@, Resource::of_raster(*raster));
            }
            match gc.raster_or_decode(raster) {
                Ok(key) => {
                    surface.draw_image(key, convert_size(size));
                },
                Err(failure) => {
                    surface.pop();
                    proof {
                        let opened = OpView::PushTransform(
                            transform_converted(fc.top().transform_chain),
                        );
                        lemma_prefix_extended(old(surface)@, seq![opened, OpView::Pop]);
                        assert(surface@ =~= old(surface)@ + seq![opened, OpView::Pop]);
                    }
                    return Err(failure);
                },
            }
        },
        ImageKind::Svg(svg) => {
            surface.draw_svg(
                svg.tree,
                convert_size(size),
                SvgSettings { embed_text: !svg.flatten_text },
            );
        },
    }
    surface.pop();
    proof {
        assert(surface@ =~= old(surface)@ + emit_image(*image, size, old(fc).top()).ops);
        assert(fc.links() =~= old(fc).links() + Seq::<backend::AnnotationView>::empty());
    }
    Ok(())
}

/// Keeps a link for the page. Its rectangle is the box around the corners of
/// the link's own box, each mapped through the transform of the item. A URL
/// is opened; a position is shown on its page, counted from zero. A location
/// that is not resolved, or a position on no page, adds nothing.
pub fn write_link(fc: &mut FrameContext, dest: &Destination, size: Size)
    requires
        old(fc).wf(),
    ensures
        final(fc).states@ == old(fc).states@,
        final(fc).links() == old(fc).links() + link_annotations(*dest, size, old(fc).top()),
{
    let ts: Transform = fc.state().transform;
    let pos: Point = Point::zero();
    let a: Point = pos.transform(ts);
    let b: Point = Point::with_x(size.x).transform(ts);
    let c: Point = Point::with_y(size.y).transform(ts);
    let d: Point = size.to_point().transform(ts);
    let x1: i64 = min_len(min_len(a.x, b.x), min_len(c.x, d.x));
    let y1: i64 = min_len(min_len(a.y, b.y), min_len(c.y, d.y));
    let x2: i64 = max_len(max_len(a.x, b.x), max_len(c.x, d.x));
    let y2: i64 = max_len(max_len(a.y, b.y), max_len(c.y, d.y));
    let rect: Rect = match Rect::from_ltrb(x1, y1, x2, y2) {
        Some(rect) => rect,
        None => {
            proof {
                assert(false);
            }
            return ;
        },
    };
    let target: Target = match dest {
        Destination::Url(u) => Target::Link(u.clone()),
        Destination::Position(p) => {
            if p.page >= 1 {
                Target::Xyz(p.page - 1, convert_point(p.point))
            } else {
                proof {
                    assert(fc.links() =~= old(fc).links() + link_annotations(
                        *dest,
                        size,
                        old(fc).top(),
                    ));
                }
                return ;
            }
        },
        Destination::Location(_) => {
            proof {
                assert(fc.links() =~= old(fc).links() + link_annotations(
                    *dest,
                    size,
                    old(fc).top(),
                ));
            }
            return ;
        },
    };
    fc.annotations.push(Annotation::Link(LinkAnnotation { rect, target }));
    proof {
        assert(fc.links() =~= old(fc).links() + link_annotations(*dest, size, old(fc).top()));
    }
}

/// Walks a group. A state is opened and the transform of the group is
/// applied in it. The clip path of the group, if it has one and the path is
/// not empty on the page, is opened on the surface around the frame of the
/// group and closed after it, also where the frame fails.
pub fn handle_group(
    fc: &mut FrameContext,
    group: &GroupItem,
    surface: &mut Surface,
    gc: &mut GlobalContext,
) -> (r: Result<(), PdfError>)
    requires
        old(fc).wf(),
        old(surface).wf(),
    ensures
        walked(
            emit_group(*group, old(fc).top()),
            *old(fc),
            *final(fc),
            *old(surface),
            *final(surface),
            old(gc)@,
            final(gc)@,
            r,
        ),
    decreases group, 0nat,
{
    let ghost st = fc.top();
    let ghost inner_state = st.spec_transform(group.transform);
    fc.push();
    fc.state_mut().transform(group.transform);
    assert(fc.states@ =~= old(fc).states@.push(inner_state));
    let clip_path: Option<backend::Path> = match &group.clip_path {
        Some(p) => {
            let mut builder = PathBuilder::new();
            convert_path(p, &mut builder);
            assert(builder@ =~= path_converted(p@));
            match builder.finish() {
                Some(path) => path.transform(convert_transform(fc.state().transform_chain)),
                None => None,
            }
        },
        None => None,
    };
    assert(clip_path is Some == group_clip(*group, inner_state) is Some);
    let clipped: bool = clip_path.is_some();
    if let Some(clip) = clip_path {
        assert(clip@ == group_clip(*group, inner_state)->0);
        surface.push_clip_path(clip, &backend::FillRule::NonZero);
    }
    let ghost surface_inside = surface@;
    let r = process_frame(fc, &group.frame, None, surface, gc);
    let ghost surface_after = surface@;
    if clipped {
        surface.pop();
    }
    fc.pop();
    proof {
        assert(fc.states@ =~= old(fc).states@);
        assert(old(surface)@.is_prefix_of(surface_inside)) by {
            if clipped {
                lemma_prefix_extended(old(surface)@, surface_inside.subrange(
                    old(surface)@.len() as int,
                    surface_inside.len() as int,
                ));
                assert(surface_inside =~= old(surface)@ + surface_inside.subrange(
                    old(surface)@.len() as int,
                    surface_inside.len() as int,
                ));
            } else {
                lemma_prefix_extended(old(surface)@, Seq::<OpView>::empty());
            }
        }
        lemma_prefix_transitive(old(surface)@, surface_inside, surface_after);
        lemma_prefix_extended(surface_after, seq![OpView::Pop]);
        assert(surface_after.push(OpView::Pop) =~= surface_after + seq![OpView::Pop]);
        lemma_prefix_transitive(old(surface)@, surface_after, surface@);
        if r is Ok {
            assert(surface@ =~= old(surface)@ + emit_group(*group, st).ops);
        }
    }
    r
}

/// What the first `n` items of a frame give out, after its background.
pub open spec fn emit_prefix(frame: Frame, fill: Option<Paint>, st: State, n: int) -> Emission {
    emit_background(frame, fill, frame_state(frame, st)).followed_by(
        emit_items(frame.items@.take(n), frame_state(frame, st)),
    )
}

/// One more item adds what the item gives out in the state of its own.
pub proof fn lemma_emit_prefix_step(frame: Frame, fill: Option<Paint>, st: State, n: int)
    requires
        0 <= n < frame.items@.len(),
    ensures
        emit_prefix(frame, fill, st, n + 1) == emit_prefix(frame, fill, st, n).followed_by(
            emit_item(
                frame.items@[n].1,
                item_state(frame_state(frame, st), frame.items@[n].0),
            ),
        ),
{
    let items = frame.items@;
    let st1 = frame_state(frame, st);
    assert(items.take(n + 1).drop_last() =~= items.take(n));
    assert(items.take(n + 1).last() == items[n]);
    let bg = emit_background(frame, fill, st1);
    let before = emit_items(items.take(n), st1);
    let one = emit_item(items[n].1, item_state(st1, items[n].0));
    assert(emit_items(items.take(n + 1), st1) == before.followed_by(one));
    assert(bg.followed_by(before.followed_by(one)).ops =~= bg.followed_by(before).followed_by(
        one,
    ).ops);
    assert(bg.followed_by(before.followed_by(one)).links =~= bg.followed_by(before).followed_by(
        one,
    ).links);
    assert(bg.followed_by(before.followed_by(one)).uses =~= bg.followed_by(before).followed_by(
        one,
    ).uses);
}

/// A failure among the first `n` items of a frame is the failure of the
/// frame, and the resources stay as the failure left them.
pub proof fn lemma_failure_stays(frame: Frame, fill: Option<Paint>, st: State, n: int, known: Known)
    requires
        0 <= n <= frame.items@.len(),
        resolve(known, emit_prefix(frame, fill, st, n).uses).failure is Some,
    ensures
        resolve(known, emit_frame(frame, fill, st).uses) == resolve(
            known,
            emit_prefix(frame, fill, st, n).uses,
        ),
    decreases frame.items@.len() - n,
{
    if n == frame.items@.len() {
        assert(frame.items@.take(n) =~= frame.items@);
    } else {
        lemma_emit_prefix_step(frame, fill, st, n);
        let before = emit_prefix(frame, fill, st, n);
        let one = emit_item(
            frame.items@[n].1,
            item_state(frame_state(frame, st), frame.items@[n].0),
        );
        lemma_resolve_concat(known, before.uses, one.uses);
        lemma_failure_stays(frame, fill, st, n + 1, known);
    }
}

/// Handles one item of a frame in a state of its own, which is moved to the
/// position of the item and closed when the item is done, also where it
/// fails.
pub fn process_item(
    fc: &mut FrameContext,
    point: &Point,
    item: &FrameItem,
    surface: &mut Surface,
    gc: &mut GlobalContext,
) -> (r: Result<(), PdfError>)
    requires
        old(fc).wf(),
        old(surface).wf(),
    ensures
        walked(
            emit_item(*item, item_state(old(fc).top(), *point)),
            *old(fc),
            *final(fc),
            *old(surface),
            *final(surface),
            old(gc)@,
            final(gc)@,
            r,
        ),
    decreases item, 1nat,
{
    let ghost one = emit_item(*item, item_state(old(fc).top(), *point));
    proof {
        lemma_prefix_extended(surface@, one.ops);
        lemma_prefix_extended(fc.links(), one.links);
    }
    fc.push();
    fc.state_mut().transform(Transform::translate(point.x, point.y));
    assert(fc.states@ =~= old(fc).states@.push(item_state(old(fc).top(), *point)));
    let r: Result<(), PdfError> = match item {
        FrameItem::Group(g) => handle_group(fc, g, surface, gc),
        FrameItem::Text(t) => handle_text(fc, t, surface, gc),
        FrameItem::Shape(s) => {
            handle_shape(fc, s, surface, gc);
            proof {
                assert(fc.links() =~= old(fc).links() + one.links);
            }
            Ok(())
        },
        FrameItem::Image(image, size) => handle_image(fc, image, *size, surface, gc),
        FrameItem::Link(d, s) => {
            write_link(fc, d, *s);
            proof {
                assert(surface@ =~= old(surface)@ + one.ops);
            }
            Ok(())
        },
        FrameItem::Tag(_) => {
            proof {
                assert(surface@ =~= old(surface)@ + one.ops);
                assert(fc.links() =~= old(fc).links() + one.links);
            }
            Ok(())
        },
    };
    fc.pop();
    proof {
        assert(fc.states@ =~= old(fc).states@);
    }
    r
}

/// Walks a frame. A state is opened for the frame, in which a hard frame
/// makes itself the container. The background, if there is one, is drawn as
/// a filled rectangle of the size of the frame. Then every item is handled
/// in order, each in a state of its own that is moved to the item's
/// position. Every state that was opened is closed again, also where an item
/// fails.
pub fn process_frame(
    fc: &mut FrameContext,
    frame: &Frame,
    fill: Option<Paint>,
    surface: &mut Surface,
    gc: &mut GlobalContext,
) -> (r: Result<(), PdfError>)
    requires
        old(fc).wf(),
        old(surface).wf(),
    ensures
        walked(
            emit_frame(*frame, fill, old(fc).top()),
            *old(fc),
            *final(fc),
            *old(surface),
            *final(surface),
            old(gc)@,
            final(gc)@,
            r,
        ),
    decreases frame, 2nat,
{
    let ghost st = fc.top();
    let ghost st1 = frame_state(*frame, st);
    fc.push();
    if frame.kind().is_hard() {
        fc.state_mut().set_container_transform();
        fc.state_mut().size(frame.size());
    }
    assert(fc.states@ =~= old(fc).states@.push(st1));
    let ghost inside = *fc;
    if let Some(paint) = fill {
        let shape = Geometry::Rect(frame.size()).filled(paint);
        handle_shape(fc, &shape, surface, gc);
    }
    proof {
        assert(frame.items@.take(0) =~= Seq::<(Point, FrameItem)>::empty());
        assert(surface@ =~= old(surface)@ + emit_prefix(*frame, fill, st, 0).ops);
        assert(fc.links() =~= inside.links() + emit_prefix(*frame, fill, st, 0).links);
        assert(emit_prefix(*frame, fill, st, 0).uses =~= Seq::<Resource>::empty());
        lemma_prefix_extended(old(surface)@, emit_prefix(*frame, fill, st, 0).ops);
        lemma_prefix_extended(inside.links(), emit_prefix(*frame, fill, st, 0).links);
    }
    let mut i: usize = 0;
    while i < frame.items.len()
        invariant
            i <= frame.items.len(),
            old(fc).wf(),
            inside.states@ == old(fc).states@.push(st1),
            inside.annotations == old(fc).annotations,
            st == old(fc).top(),
            st1 == frame_state(*frame, st),
            surface.wf(),
            walked(
                emit_prefix(*frame, fill, st, i as int),
                inside,
                *fc,
                *old(surface),
                *surface,
                old(gc)@,
                gc@,
                Ok(()),
            ),
        decreases frame.items.len() - i,
    {
        let ghost fc_before = *fc;
        let ghost surface_before = *surface;
        let ghost known_before = gc@;
        let entry = &frame.items[i];
        let r = process_item(fc, &entry.0, &entry.1, surface, gc);
        proof {
            lemma_emit_prefix_step(*frame, fill, st, i as int);
            lemma_walked_step(
                emit_prefix(*frame, fill, st, i as int),
                emit_item(entry.1, item_state(st1, entry.0)),
                inside,
                fc_before,
                *fc,
                *old(surface),
                surface_before,
                *surface,
                old(gc)@,
                known_before,
                gc@,
                r,
            );
        }
        match r {
            Err(failure) => {
                fc.pop();
                proof {
                    assert(fc.states@ =~= old(fc).states@);
                    lemma_failure_stays(*frame, fill, st, i as int + 1, old(gc)@);
                }
                return Err(failure);
            },
            Ok(_) => {},
        }
        i += 1;
    }
    fc.pop();
    proof {
        assert(frame.items@.take(i as int) =~= frame.items@);
        assert(fc.states@ =~= old(fc).states@);
        assert(inside.links() =~= old(fc).links());
    }
    Ok(())
}

} // verus!
