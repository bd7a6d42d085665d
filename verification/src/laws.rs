//! What holds of every walk: the laws that the export is built on.

use vstd::prelude::*;
use crate::backend;
use crate::backend::{
    depth_of, lemma_depth_concat, lemma_depth_push, op_delta, path_is_empty, path_start,
    well_nested, AnnotationView, OpView, Rect,
};
use crate::context::State;
use crate::convert::{path_converted, transform_converted};
use crate::document::{
    Frame, FrameItem, FrameKind, Geometry, GroupItem, Paint, Shape, TextItem,
};
use crate::emission::{
    emit_background, emit_frame, emit_group, emit_image, emit_item, emit_items, frame_state,
    geometry_segments, group_clip, item_state, shape_ops, shape_rect, sign_ratio, text_ops,
};
use crate::fixed::{lemma_scaled_unit, magnitude, max_of, min_of, scaled};
use crate::geometry::{Point, Size, Transform};
use crate::resources::Resource;

verus! {

/// A run of calls is balanced where it closes all that it opens and never
/// closes what it did not open.
pub open spec fn balanced(ops: Seq<OpView>) -> bool {
    depth_of(ops) == 0 && well_nested(ops)
}

/// Two runs that never close more than they open, the first of which leaves
/// nothing closed that was not open, make such a run together.
pub proof fn lemma_nested_concat(a: Seq<OpView>, b: Seq<OpView>)
    requires
        well_nested(a),
        well_nested(b),
    ensures
        well_nested(a + b),
{
    assert forall|n: int| 0 <= n <= (a + b).len() implies depth_of(#[trigger] (a + b).take(n))
        >= 0 by {
        if n <= a.len() {
            assert((a + b).take(n) =~= a.take(n));
        } else {
            assert((a + b).take(n) =~= a + b.take(n - a.len()));
            lemma_depth_concat(a, b.take(n - a.len()));
            assert(a.take(a.len() as int) =~= a);
        }
    }
}

/// Two balanced runs in a row are balanced.
pub proof fn lemma_balanced_concat(a: Seq<OpView>, b: Seq<OpView>)
    requires
        balanced(a),
        balanced(b),
    ensures
        balanced(a + b),
{
    lemma_nested_concat(a, b);
    lemma_depth_concat(a, b);
}

/// A single call is well nested unless it closes.
pub proof fn lemma_single_nested(op: OpView)
    requires
        op_delta(op) >= 0,
    ensures
        well_nested(seq![op]),
        depth_of(seq![op]) == op_delta(op),
{
    let s = seq![op];
    lemma_depth_push(Seq::<OpView>::empty(), op);
    assert(s =~= Seq::<OpView>::empty().push(op));
    assert forall|n: int| 0 <= n <= s.len() implies depth_of(#[trigger] s.take(n)) >= 0 by {
        if n == 0 {
            assert(s.take(0) =~= Seq::<OpView>::empty());
        } else {
            assert(s.take(1) =~= s);
        }
    }
}

/// A balanced run between a call that opens and the call that closes is
/// balanced.
pub proof fn lemma_balanced_bracket(open: OpView, inner: Seq<OpView>)
    requires
        op_delta(open) == 1,
        balanced(inner),
    ensures
        balanced(seq![open] + inner + seq![OpView::Pop]),
{
    let head = seq![open];
    let tail = seq![OpView::Pop];
    lemma_single_nested(open);
    lemma_nested_concat(head, inner);
    lemma_depth_concat(head, inner);
    let body = head + inner;
    lemma_depth_concat(body, tail);
    lemma_depth_push(Seq::<OpView>::empty(), OpView::Pop);
    assert(tail =~= Seq::<OpView>::empty().push(OpView::Pop));
    assert forall|n: int| 0 <= n <= (body + tail).len() implies depth_of(
        #[trigger] (body + tail).take(n),
    ) >= 0 by {
        if n <= body.len() {
            assert((body + tail).take(n) =~= body.take(n));
        } else {
            assert((body + tail).take(n) =~= body + tail);
        }
    }
}

/// A run of calls that neither open nor close is balanced.
pub proof fn lemma_flat_balanced(ops: Seq<OpView>)
    requires
        forall|i: int| 0 <= i < ops.len() ==> op_delta(#[trigger] ops[i]) == 0,
    ensures
        balanced(ops),
    decreases ops.len(),
{
    if ops.len() > 0 {
        lemma_flat_balanced(ops.drop_last());
        assert forall|n: int| 0 <= n <= ops.len() implies depth_of(#[trigger] ops.take(n))
            >= 0 by {
            if n < ops.len() {
                assert(ops.take(n) =~= ops.drop_last().take(n));
            } else {
                assert(ops.take(n) =~= ops);
            }
        }
    } else {
        assert forall|n: int| 0 <= n <= ops.len() implies depth_of(#[trigger] ops.take(n))
            >= 0 by {
            assert(ops.take(n) =~= ops);
        }
    }
}

/// What a shape draws is balanced.
pub proof fn law_shape_balanced(shape: Shape, st: State)
    ensures
        balanced(shape_ops(shape, st)),
{
    let segments = geometry_segments(shape.geometry);
    if path_is_empty(segments) {
        lemma_flat_balanced(shape_ops(shape, st));
    } else {
        let ops = shape_ops(shape, st);
        let inner = ops.subrange(1, ops.len() - 1);
        lemma_flat_balanced(inner);
        lemma_balanced_bracket(ops[0], inner);
        assert(ops =~= seq![ops[0]] + inner + seq![OpView::Pop]);
    }
}

/// What a run of glyphs draws is balanced.
pub proof fn law_text_balanced(text: TextItem, st: State)
    ensures
        balanced(text_ops(text, st)),
{
    let ops = text_ops(text, st);
    let inner = ops.subrange(1, ops.len() - 1);
    lemma_flat_balanced(inner);
    lemma_balanced_bracket(ops[0], inner);
    assert(ops =~= seq![ops[0]] + inner + seq![OpView::Pop]);
}

/// Whatever the frame, the calls that it gives out close every transform and
/// clip that they open, and close none before it is opened: the surface is
/// left as it was found.
pub proof fn law_frame_balanced(frame: Frame, fill: Option<Paint>, st: State)
    ensures
        balanced(emit_frame(frame, fill, st).ops),
    decreases frame, 0nat,
{
    let st1 = frame_state(frame, st);
    match fill {
        Some(paint) => law_shape_balanced(Geometry::Rect(frame.size).spec_filled(paint), st1),
        None => lemma_flat_balanced(Seq::<OpView>::empty()),
    }
    law_items_balanced(frame.items@, st1);
    lemma_balanced_concat(emit_background(frame, fill, st1).ops, emit_items(frame.items@, st1).ops);
}

/// What a run of items gives out is balanced.
pub proof fn law_items_balanced(items: Seq<(Point, FrameItem)>, st: State)
    ensures
        balanced(emit_items(items, st).ops),
    decreases items, 1nat,
{
    if items.len() == 0 {
        lemma_flat_balanced(Seq::<OpView>::empty());
    } else {
        law_items_balanced(items.drop_last(), st);
        law_item_balanced(items.last().1, item_state(st, items.last().0));
        lemma_balanced_concat(
            emit_items(items.drop_last(), st).ops,
            emit_item(items.last().1, item_state(st, items.last().0)).ops,
        );
    }
}

/// What an item gives out is balanced.
pub proof fn law_item_balanced(item: FrameItem, st: State)
    ensures
        balanced(emit_item(item, st).ops),
    decreases item, 0nat,
{
    match item {
        FrameItem::Group(group) => law_group_balanced(group, st),
        FrameItem::Text(text) => law_text_balanced(text, st),
        FrameItem::Shape(shape) => law_shape_balanced(shape, st),
        FrameItem::Image(image, size) => {
            let ops = emit_image(image, size, st).ops;
            let inner = seq![ops[1]];
            lemma_flat_balanced(inner);
            lemma_balanced_bracket(ops[0], inner);
            assert(ops =~= seq![ops[0]] + inner + seq![OpView::Pop]);
        },
        FrameItem::Link(_, _) => lemma_flat_balanced(Seq::<OpView>::empty()),
        FrameItem::Tag(_) => lemma_flat_balanced(Seq::<OpView>::empty()),
    }
}

/// What a group gives out is balanced.
pub proof fn law_group_balanced(group: GroupItem, st: State)
    ensures
        balanced(emit_group(group, st).ops),
    decreases group, 0nat,
{
    let inner_state = st.spec_transform(group.transform);
    law_frame_balanced(group.frame, None, inner_state);
    match group_clip(group, inner_state) {
        Some(clip) => lemma_balanced_bracket(
            OpView::PushClipPath(clip, backend::FillRule::NonZero),
            emit_frame(group.frame, None, inner_state).ops,
        ),
        None => {},
    }
}

/// The transforms `factors` applied to `start` one after the other, each
/// before what was gathered so far.
pub open spec fn product(start: Transform, factors: Seq<Transform>) -> Transform
    decreases factors.len(),
{
    if factors.len() == 0 {
        start
    } else {
        product(start, factors.drop_last()).spec_pre_concat(factors.last())
    }
}

/// The item that `path` leads to from a frame entered in the state `st`, and
/// the state in which the item is handled. The first index picks an item of
/// the frame; every further index picks an item of the frame of the group
/// that was picked before it.
pub open spec fn locate(frame: Frame, st: State, path: Seq<int>) -> Option<(FrameItem, State)>
    decreases path.len(),
{
    if path.len() == 0 || !(0 <= path[0] < frame.items@.len()) {
        None
    } else {
        let entry = frame.items@[path[0]];
        let here = item_state(frame_state(frame, st), entry.0);
        if path.len() == 1 {
            Some((entry.1, here))
        } else {
            match entry.1 {
                FrameItem::Group(group) => locate(
                    group.frame,
                    here.spec_transform(group.transform),
                    path.drop_first(),
                ),
                _ => None,
            }
        }
    }
}

/// The item that `path` leads to.
pub open spec fn found_item(frame: Frame, st: State, path: Seq<int>) -> FrameItem
    recommends
        locate(frame, st, path) is Some,
{
    locate(frame, st, path).unwrap().0
}

/// The state in which the item that `path` leads to is handled.
pub open spec fn found_state(frame: Frame, st: State, path: Seq<int>) -> State
    recommends
        locate(frame, st, path) is Some,
{
    locate(frame, st, path).unwrap().1
}

/// The transforms that are met on the way along `path`: for every frame the
/// shift to the item that is picked in it and, for a group that is entered,
/// the transform of the group.
pub open spec fn ancestors(frame: Frame, path: Seq<int>) -> Seq<Transform>
    decreases path.len(),
{
    if path.len() == 0 || !(0 <= path[0] < frame.items@.len()) {
        Seq::empty()
    } else {
        let entry = frame.items@[path[0]];
        let here = seq![Transform::spec_translate(entry.0.x, entry.0.y)];
        if path.len() == 1 {
            here
        } else {
            match entry.1 {
                FrameItem::Group(group) => here + seq![group.transform] + ancestors(
                    group.frame,
                    path.drop_first(),
                ),
                _ => here,
            }
        }
    }
}

/// Every frame that is entered on the way along `path`, after the frame at
/// which the way starts, is soft.
pub open spec fn soft_way(frame: Frame, path: Seq<int>) -> bool
    decreases path.len(),
{
    if path.len() <= 1 || !(0 <= path[0] < frame.items@.len()) {
        true
    } else {
        match frame.items@[path[0]].1 {
            FrameItem::Group(group) => group.frame.kind == FrameKind::Soft && soft_way(
                group.frame,
                path.drop_first(),
            ),
            _ => true,
        }
    }
}

/// The product of two runs of transforms in a row is the product of the
/// second, started from the product of the first.
pub proof fn lemma_product_concat(start: Transform, a: Seq<Transform>, b: Seq<Transform>)
    ensures
        product(start, a + b) == product(product(start, a), b),
    decreases b.len(),
{
    if b.len() == 0 {
        assert(a + b =~= a);
    } else {
        lemma_product_concat(start, a, b.drop_last());
        assert((a + b).drop_last() =~= a + b.drop_last());
        assert((a + b).last() == b.last());
    }
}

/// The product of one or two transforms.
pub proof fn lemma_product_short(start: Transform, a: Transform, b: Transform)
    ensures
        product(start, seq![a]) == start.spec_pre_concat(a),
        product(start, seq![a, b]) == start.spec_pre_concat(a).spec_pre_concat(b),
{
    assert(seq![a].drop_last() =~= Seq::<Transform>::empty());
    assert(product(start, seq![a].drop_last()) == start);
    assert(product(start, seq![a]) == start.spec_pre_concat(a));
    assert(seq![a, b].drop_last() =~= seq![a]);
    assert(seq![a, b].last() == b);
}

/// For every item, wherever it lies in the tree of frames, the map to the
/// page in which it is handled is the product of the transforms on the way
/// to it: the shifts to the items and the transforms of the groups, in the
/// order of the way. The same holds of the map of the item.
pub proof fn law_chain_is_product(frame: Frame, st: State, path: Seq<int>)
    requires
        locate(frame, st, path) is Some,
    ensures
        found_state(frame, st, path).transform_chain == product(
            st.transform_chain,
            ancestors(frame, path),
        ),
        found_state(frame, st, path).transform == product(st.transform, ancestors(frame, path)),
    decreases path.len(),
{
    let entry = frame.items@[path[0]];
    let shift = Transform::spec_translate(entry.0.x, entry.0.y);
    let here = item_state(frame_state(frame, st), entry.0);
    if path.len() == 1 {
        lemma_product_short(st.transform_chain, shift, shift);
        lemma_product_short(st.transform, shift, shift);
    } else {
        match entry.1 {
            FrameItem::Group(group) => {
                let inner = here.spec_transform(group.transform);
                let rest = ancestors(group.frame, path.drop_first());
                law_chain_is_product(group.frame, inner, path.drop_first());
                lemma_product_short(st.transform_chain, shift, group.transform);
                lemma_product_short(st.transform, shift, group.transform);
                assert(seq![shift] + seq![group.transform] =~= seq![shift, group.transform]);
                lemma_product_concat(st.transform_chain, seq![shift, group.transform], rest);
                lemma_product_concat(st.transform, seq![shift, group.transform], rest);
            },
            _ => {},
        }
    }
}

/// The container of an item is the nearest hard frame around it. From a
/// hard frame, through soft frames only, an item is handled with the map to
/// the page at that frame as the map of the container and with the size of
/// that frame as the size of the container. From a soft frame, through soft
/// frames only, the container is the one in which the frame was entered.
pub proof fn law_container_is_nearest_hard_frame(frame: Frame, st: State, path: Seq<int>)
    requires
        locate(frame, st, path) is Some,
        soft_way(frame, path),
    ensures
        frame.kind == FrameKind::Hard ==> {
            &&& found_state(frame, st, path).container_transform_chain == st.transform_chain
            &&& found_state(frame, st, path).size == frame.size
        },
        frame.kind == FrameKind::Soft ==> {
            &&& found_state(frame, st, path).container_transform_chain
                == st.container_transform_chain
            &&& found_state(frame, st, path).size == st.size
        },
    decreases path.len(),
{
    let entry = frame.items@[path[0]];
    let here = item_state(frame_state(frame, st), entry.0);
    if path.len() > 1 {
        match entry.1 {
            FrameItem::Group(group) => {
                law_container_is_nearest_hard_frame(
                    group.frame,
                    here.spec_transform(group.transform),
                    path.drop_first(),
                );
            },
            _ => {},
        }
    }
}

/// The calls `part` stand in a row somewhere among the calls `whole`.
pub open spec fn occurs_in(part: Seq<OpView>, whole: Seq<OpView>) -> bool {
    exists|k: int| occurs_at(part, whole, k)
}

/// The calls `part` stand in a row among the calls `whole`, from the place
/// `k` on.
pub open spec fn occurs_at(part: Seq<OpView>, whole: Seq<OpView>, k: int) -> bool {
    0 <= k && k + part.len() <= whole.len() && whole.subrange(k, k + part.len()) == part
}

/// What stands in the middle of three runs stands among them.
pub proof fn lemma_occurs_between(before: Seq<OpView>, part: Seq<OpView>, after: Seq<OpView>)
    ensures
        occurs_in(part, before + part + after),
{
    let whole = before + part + after;
    assert(whole.subrange(before.len() as int, (before.len() + part.len()) as int) =~= part);
    assert(occurs_at(part, whole, before.len() as int));
}

/// What stands among calls that stand among others stands among those.
pub proof fn lemma_occurs_transitive(part: Seq<OpView>, middle: Seq<OpView>, whole: Seq<OpView>)
    requires
        occurs_in(part, middle),
        occurs_in(middle, whole),
    ensures
        occurs_in(part, whole),
{
    let j = choose|j: int| occurs_at(part, middle, j);
    let k = choose|k: int| occurs_at(middle, whole, k);
    assert(whole.subrange(k + j, k + j + part.len()) =~= whole.subrange(
        k,
        k + middle.len(),
    ).subrange(j, j + part.len()));
    assert(occurs_at(part, whole, k + j));
}

/// What an item of a run gives out stands among what the run gives out.
pub proof fn lemma_item_occurs(items: Seq<(Point, FrameItem)>, st: State, j: int)
    requires
        0 <= j < items.len(),
    ensures
        occurs_in(
            emit_item(items[j].1, item_state(st, items[j].0)).ops,
            emit_items(items, st).ops,
        ),
    decreases items.len(),
{
    let before = emit_items(items.drop_last(), st).ops;
    let last = emit_item(items.last().1, item_state(st, items.last().0)).ops;
    let none = Seq::<OpView>::empty();
    if j == items.len() - 1 {
        lemma_occurs_between(before, last, none);
        assert(before + last + none =~= emit_items(items, st).ops);
    } else {
        lemma_item_occurs(items.drop_last(), st, j);
        lemma_occurs_between(none, before, last);
        assert(none + before + last =~= emit_items(items, st).ops);
        lemma_occurs_transitive(
            emit_item(items[j].1, item_state(st, items[j].0)).ops,
            before,
            emit_items(items, st).ops,
        );
    }
}

/// What the item at the end of a way gives out stands in a row among what
/// the frame at its start gives out: nothing of another item comes between
/// its calls.
pub proof fn law_located_item_is_drawn(
    frame: Frame,
    fill: Option<Paint>,
    st: State,
    path: Seq<int>,
)
    requires
        locate(frame, st, path) is Some,
    ensures
        occurs_in(
            emit_item(found_item(frame, st, path), found_state(frame, st, path)).ops,
            emit_frame(frame, fill, st).ops,
        ),
    decreases path.len(),
{
    let st1 = frame_state(frame, st);
    let entry = frame.items@[path[0]];
    let here = item_state(st1, entry.0);
    let first = emit_item(entry.1, here).ops;
    let items = emit_items(frame.items@, st1).ops;
    let whole = emit_frame(frame, fill, st).ops;
    let none = Seq::<OpView>::empty();
    lemma_item_occurs(frame.items@, st1, path[0]);
    lemma_occurs_between(emit_background(frame, fill, st1).ops, items, none);
    assert(emit_background(frame, fill, st1).ops + items + none =~= whole);
    lemma_occurs_transitive(first, items, whole);
    if path.len() > 1 {
        match entry.1 {
            FrameItem::Group(group) => {
                let inner_state = here.spec_transform(group.transform);
                let inner = emit_frame(group.frame, None, inner_state).ops;
                let target = emit_item(
                    found_item(frame, st, path),
                    found_state(frame, st, path),
                ).ops;
                law_located_item_is_drawn(group.frame, None, inner_state, path.drop_first());
                match group_clip(group, inner_state) {
                    Some(clip) => {
                        lemma_occurs_between(
                            seq![OpView::PushClipPath(clip, backend::FillRule::NonZero)],
                            inner,
                            seq![OpView::Pop],
                        );
                    },
                    None => {
                        lemma_occurs_between(none, inner, none);
                        assert(none + inner + none =~= inner);
                    },
                }
                lemma_occurs_transitive(target, inner, first);
                lemma_occurs_transitive(target, first, whole);
            },
            _ => {},
        }
    }
}

/// The items of a frame are handled in their order: what two runs of items
/// in a row give out is what the first gives out, followed by what the
/// second gives out. The same holds of calls, of links and of resources.
pub proof fn law_items_in_order(a: Seq<(Point, FrameItem)>, b: Seq<(Point, FrameItem)>, st: State)
    ensures
        emit_items(a + b, st) == emit_items(a, st).followed_by(emit_items(b, st)),
    decreases b.len(),
{
    let whole = emit_items(a + b, st);
    let split = emit_items(a, st).followed_by(emit_items(b, st));
    if b.len() == 0 {
        assert(a + b =~= a);
    } else {
        law_items_in_order(a, b.drop_last(), st);
        assert((a + b).drop_last() =~= a + b.drop_last());
        assert((a + b).last() == b.last());
    }
    assert(whole.ops =~= split.ops);
    assert(whole.links =~= split.links);
    assert(whole.uses =~= split.uses);
}

/// An item that draws opens the map to the page in which it is handled
/// before anything else, and closes it after everything else: that map is
/// the transform in force for all that the item draws.
pub proof fn law_item_draws_in_its_chain(item: FrameItem, st: State)
    requires
        item is Text || item is Shape || item is Image,
        emit_item(item, st).ops.len() > 0,
    ensures
        emit_item(item, st).ops.first() == OpView::PushTransform(
            transform_converted(st.transform_chain),
        ),
        emit_item(item, st).ops.last() == OpView::Pop,
{
}

/// A frame without items gives out its background and nothing else: no
/// links, no resources, and no call where it has no background.
pub proof fn law_empty_frame(frame: Frame, fill: Option<Paint>, st: State)
    requires
        frame.items@.len() == 0,
    ensures
        emit_frame(frame, fill, st).links == Seq::<AnnotationView>::empty(),
        emit_frame(frame, fill, st).uses == Seq::<Resource>::empty(),
        fill is None ==> emit_frame(frame, fill, st).ops == Seq::<OpView>::empty(),
        fill is Some ==> emit_frame(frame, fill, st).ops == shape_ops(
            Geometry::Rect(frame.size).spec_filled(fill->0),
            frame_state(frame, st),
        ),
        forall|i: int|
            0 <= i < emit_frame(frame, fill, st).ops.len() ==> {
                let op = #[trigger] emit_frame(frame, fill, st).ops[i];
                op is PushTransform || op is FillPath || op is Pop
            },
{
    let e = emit_frame(frame, fill, st);
    assert(e.links =~= Seq::<AnnotationView>::empty());
    assert(e.uses =~= Seq::<Resource>::empty());
    match fill {
        Some(paint) => {
            assert(e.ops =~= shape_ops(
                Geometry::Rect(frame.size).spec_filled(paint),
                frame_state(frame, st),
            ));
        },
        None => {
            assert(e.ops =~= Seq::<OpView>::empty());
        },
    }
}

/// Scaling by the ratio minus one negates.
pub proof fn lemma_scaled_flip(v: int)
    ensures
        scaled(-65536, v) == -v,
{
    assert((-65536 * v) / 65536 == -v) by (nonlinear_arith);
}

/// The size with the magnitudes of the sides of `size`.
pub open spec fn magnitudes(size: Size) -> Size {
    Size { x: magnitude(size.x as int) as i64, y: magnitude(size.y as int) as i64 }
}

/// The rectangle that is drawn for a size with a negative side is the
/// rectangle that is drawn for the magnitudes of the sides, flipped about the
/// axis across each negative side.
pub proof fn law_negative_rect_is_reflected(size: Size)
    requires
        size.x < 0 || size.y < 0,
    ensures
        shape_rect(magnitudes(size)) is Some,
        shape_rect(size) == Some(
            shape_rect(magnitudes(size)).unwrap().spec_transform(
                backend::Transform::spec_from_scale(sign_ratio(size.x), sign_ratio(size.y)),
            ),
        ),
{
}

/// The rectangle that is drawn for a size lies between the origin and the
/// corner at `(size.x, size.y)`, whatever the signs of the sides, as long as
/// the magnitudes of the sides are lengths.
pub proof fn law_rect_spans_origin_and_corner(size: Size)
    requires
        size.x > i64::MIN,
        size.y > i64::MIN,
    ensures
        shape_rect(size) == Some(
            Rect {
                left: min_of(0, size.x as int) as i64,
                top: min_of(0, size.y as int) as i64,
                right: max_of(0, size.x as int) as i64,
                bottom: max_of(0, size.y as int) as i64,
            },
        ),
{
    let w = magnitude(size.x as int);
    let h = magnitude(size.y as int);
    lemma_scaled_flip(0);
    lemma_scaled_flip(w);
    lemma_scaled_flip(h);
    lemma_scaled_unit(0);
    lemma_scaled_unit(w);
    lemma_scaled_unit(h);
}

/// A stroke of a shape whose thickness is not positive is not drawn: no call
/// strokes a path for it.
pub proof fn law_thin_stroke_is_not_drawn(shape: Shape, st: State)
    requires
        shape.stroke is Some ==> shape.stroke->0.thickness <= 0,
    ensures
        forall|i: int|
            0 <= i < shape_ops(shape, st).len() ==> !(#[trigger] shape_ops(shape, st)[i]
                is StrokePath),
{
}

/// A stroke of a run of glyphs whose thickness is not positive is not drawn:
/// no call strokes glyphs for it.
pub proof fn law_thin_glyph_stroke_is_not_drawn(text: TextItem, st: State)
    requires
        text.stroke is Some ==> text.stroke->0.thickness <= 0,
    ensures
        forall|i: int|
            0 <= i < text_ops(text, st).len() ==> !(#[trigger] text_ops(text, st)[i]
                is StrokeGlyphs),
{
}

/// A line that ends where it starts is an empty path: nothing is drawn for
/// it, neither fill nor stroke, and no transform is opened.
pub proof fn law_line_to_origin_draws_nothing(shape: Shape, st: State)
    requires
        shape.geometry == Geometry::Line(Point { x: 0, y: 0 }),
    ensures
        path_is_empty(geometry_segments(shape.geometry)),
        shape_ops(shape, st) == Seq::<OpView>::empty(),
{
    let segments = geometry_segments(shape.geometry);
    assert forall|i: int| 0 <= i < segments.len() implies (#[trigger] segments[i]).spec_stays_at(
        path_start(segments),
    ) by {}
}

/// A group whose clip path is empty is not clipped: it gives out what its
/// frame gives out, without a clip being opened or closed.
pub proof fn law_empty_clip_is_no_clip(group: GroupItem, st: State)
    requires
        group.clip_path is Some,
        path_is_empty(path_converted(group.clip_path->0@)),
    ensures
        group_clip(group, st.spec_transform(group.transform)) is None,
        emit_group(group, st) == emit_frame(group.frame, None, st.spec_transform(group.transform)),
{
}

/// A group that is clipped opens its clip before and closes it after what
/// its frame gives out; one that is not clipped adds nothing to it.
pub proof fn law_clip_brackets_group(group: GroupItem, st: State)
    ensures
        match group_clip(group, st.spec_transform(group.transform)) {
            Some(clip) => emit_group(group, st).ops == seq![
                OpView::PushClipPath(clip, backend::FillRule::NonZero),
            ] + emit_frame(group.frame, None, st.spec_transform(group.transform)).ops + seq![
                OpView::Pop,
            ],
            None => emit_group(group, st).ops == emit_frame(
                group.frame,
                None,
                st.spec_transform(group.transform),
            ).ops,
        },
{
}

} // verus!
