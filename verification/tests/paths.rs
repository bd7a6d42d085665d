use typst_pdf::backend;
use typst_pdf::backend::{segments_are_empty, PathBuilder, Rect, Segment};
use typst_pdf::convert::{
    convert_fill, convert_fill_rule, convert_fixed_stroke, convert_glyph, convert_glyphs,
    convert_line_cap, convert_line_join, convert_paint, convert_path, convert_point,
    convert_size, convert_transform,
};
use typst_pdf::context::{State, Transforms};
use typst_pdf::document::{
    Bounds, Color, FillRule, FixedStroke, Geometry, Glyph, Gradient, LineCap, LineJoin, Paint,
    Path, PathItem, Pattern,
};
use typst_pdf::fixed::ONE;
use typst_pdf::geometry::{Point, Size, Transform};
use typst_pdf::walker::{build_geometry, rect_of, sign_of};

fn at(x: i64, y: i64) -> backend::Point {
    backend::Point { x, y }
}

fn some_transforms() -> Transforms {
    State::new(Size::new(30, 40), Transform::translate(1, 2), Transform::translate(3, 4))
        .transforms(Size::new(5, 6))
}

#[test]
fn builder_without_steps_has_no_path() {
    assert!(PathBuilder::new().finish().is_none());
}

#[test]
fn lone_move_has_no_path() {
    let mut b = PathBuilder::new();
    b.move_to(3, 4);
    assert!(b.finish().is_none());
    let mut b = PathBuilder::new();
    b.move_to(3, 4);
    b.move_to(8, 9);
    assert!(b.finish().is_none());
    let mut b = PathBuilder::new();
    b.close();
    assert!(b.finish().is_none());
}

#[test]
fn line_that_stays_has_no_path() {
    let mut b = PathBuilder::new();
    b.move_to(1, 1);
    b.line_to(1, 1);
    b.close();
    assert!(b.finish().is_none());
    let mut b = PathBuilder::new();
    b.line_to(0, 0);
    assert!(b.finish().is_none());
    let mut b = PathBuilder::new();
    b.move_to(2, 2);
    b.cubic_to(2, 2, 2, 2, 2, 2);
    assert!(b.finish().is_none());
}

#[test]
fn line_that_leaves_is_a_path() {
    let mut b = PathBuilder::new();
    b.move_to(1, 1);
    b.line_to(1, 2);
    let path = b.finish().unwrap();
    assert_eq!(path.segments, vec![Segment::MoveTo(at(1, 1)), Segment::LineTo(at(1, 2))]);
    let mut b = PathBuilder::new();
    b.line_to(5, 5);
    assert_eq!(b.finish().unwrap().segments, vec![Segment::LineTo(at(5, 5))]);
    let mut b = PathBuilder::new();
    b.move_to(2, 2);
    b.cubic_to(2, 2, 2, 3, 2, 2);
    assert!(b.finish().is_some());
}

#[test]
fn emptiness_of_runs_of_steps() {
    assert!(segments_are_empty(&vec![]));
    assert!(segments_are_empty(&vec![Segment::MoveTo(at(1, 1)), Segment::Close]));
    assert!(segments_are_empty(&vec![Segment::MoveTo(at(1, 1)), Segment::MoveTo(at(7, 7))]));
    assert!(!segments_are_empty(&vec![Segment::MoveTo(at(1, 1)), Segment::LineTo(at(7, 7))]));
    assert!(!segments_are_empty(&vec![
        Segment::MoveTo(at(1, 1)),
        Segment::LineTo(at(1, 1)),
        Segment::MoveTo(at(7, 7)),
    ]));
}

#[test]
fn rectangle_outline() {
    let mut b = PathBuilder::new();
    b.move_to(9, 9);
    b.push_rect(Rect { left: 1, top: 2, right: 3, bottom: 4 });
    assert_eq!(
        b.segments,
        vec![
            Segment::MoveTo(at(9, 9)),
            Segment::MoveTo(at(1, 2)),
            Segment::LineTo(at(3, 2)),
            Segment::LineTo(at(3, 4)),
            Segment::LineTo(at(1, 4)),
            Segment::Close,
        ]
    );
}

#[test]
fn rectangles_have_their_edges_in_order() {
    assert_eq!(Rect::from_ltrb(1, 2, 3, 4), Some(Rect { left: 1, top: 2, right: 3, bottom: 4 }));
    assert_eq!(Rect::from_ltrb(1, 2, 1, 2), Some(Rect { left: 1, top: 2, right: 1, bottom: 2 }));
    assert_eq!(Rect::from_ltrb(3, 2, 1, 4), None);
    assert_eq!(Rect::from_ltrb(1, 4, 3, 2), None);
    assert_eq!(
        Rect::from_xywh(5, 6, 10, 20),
        Some(Rect { left: 5, top: 6, right: 15, bottom: 26 })
    );
    assert_eq!(Rect::from_xywh(5, 6, -1, 20), None);
    assert_eq!(Rect::from_xywh(5, 6, 1, -20), None);
    assert_eq!(
        Rect::from_xywh(5, 6, i64::MAX, 0),
        Some(Rect { left: 5, top: 6, right: i64::MAX, bottom: 6 })
    );
}

#[test]
fn rectangle_under_a_quarter_turn() {
    let quarter_turn = backend::Transform::from_row(0, ONE, -ONE, 0, 0, 0);
    let r = Rect::from_xywh(0, 0, 10, 20).unwrap().transform(quarter_turn);
    assert_eq!(r, Rect { left: -20, top: 0, right: 0, bottom: 10 });
    assert_eq!(at(10, 20).transform(quarter_turn), at(-20, 10));
}

#[test]
fn rectangle_for_each_sign_of_the_sides() {
    assert_eq!(rect_of(Size::new(10, 20)), Some(Rect { left: 0, top: 0, right: 10, bottom: 20 }));
    assert_eq!(rect_of(Size::new(-10, 20)), Some(Rect { left: -10, top: 0, right: 0, bottom: 20 }));
    assert_eq!(rect_of(Size::new(10, -20)), Some(Rect { left: 0, top: -20, right: 10, bottom: 0 }));
    assert_eq!(
        rect_of(Size::new(-10, -20)),
        Some(Rect { left: -10, top: -20, right: 0, bottom: 0 })
    );
    assert_eq!(rect_of(Size::new(0, -20)), Some(Rect { left: 0, top: -20, right: 0, bottom: 0 }));
    assert_eq!(rect_of(Size::new(0, 0)), Some(Rect { left: 0, top: 0, right: 0, bottom: 0 }));
    assert_eq!(
        rect_of(Size::new(i64::MIN, 1)),
        Some(Rect { left: -i64::MAX, top: 0, right: 0, bottom: 1 })
    );
    assert_eq!(sign_of(-3), -ONE);
    assert_eq!(sign_of(0), ONE);
    assert_eq!(sign_of(3), ONE);
}

#[test]
fn steps_of_each_geometry() {
    assert_eq!(
        build_geometry(&Geometry::Line(Point::new(4, -5))).segments,
        vec![Segment::MoveTo(at(0, 0)), Segment::LineTo(at(4, -5))]
    );
    assert_eq!(
        build_geometry(&Geometry::Rect(Size::new(-2, 3))).segments,
        vec![
            Segment::MoveTo(at(-2, 0)),
            Segment::LineTo(at(0, 0)),
            Segment::LineTo(at(0, 3)),
            Segment::LineTo(at(-2, 3)),
            Segment::Close,
        ]
    );
    let path = Path(vec![PathItem::MoveTo(Point::new(1, 1)), PathItem::ClosePath]);
    assert_eq!(
        build_geometry(&Geometry::Path(path)).segments,
        vec![Segment::MoveTo(at(1, 1)), Segment::Close]
    );
}

#[test]
fn path_is_replayed_in_order() {
    let path = Path(vec![
        PathItem::MoveTo(Point::new(1, 2)),
        PathItem::LineTo(Point::new(3, 4)),
        PathItem::CubicTo(Point::new(5, 6), Point::new(7, 8), Point::new(9, 10)),
        PathItem::ClosePath,
    ]);
    let mut b = PathBuilder::new();
    b.line_to(-1, -1);
    convert_path(&path, &mut b);
    assert_eq!(
        b.segments,
        vec![
            Segment::LineTo(at(-1, -1)),
            Segment::MoveTo(at(1, 2)),
            Segment::LineTo(at(3, 4)),
            Segment::CubicTo(at(5, 6), at(7, 8), at(9, 10)),
            Segment::Close,
        ]
    );
    let mut b = PathBuilder::new();
    convert_path(&Path(vec![]), &mut b);
    assert!(b.segments.is_empty());
}

#[test]
fn path_is_mapped_point_by_point() {
    let path = backend::Path {
        segments: vec![
            Segment::MoveTo(at(1, 2)),
            Segment::CubicTo(at(3, 4), at(5, 6), at(7, 8)),
            Segment::Close,
        ],
    };
    let copy = path.duplicate();
    assert_eq!(copy, path);
    let shifted = path.transform(backend::Transform::from_row(ONE, 0, 0, ONE, 10, 20)).unwrap();
    assert_eq!(
        shifted.segments,
        vec![
            Segment::MoveTo(at(11, 22)),
            Segment::CubicTo(at(13, 24), at(15, 26), at(17, 28)),
            Segment::Close,
        ]
    );
    assert!(copy.transform(backend::Transform::from_scale(0, 0)).is_none());
    assert_eq!(
        Segment::LineTo(at(2, 3)).transform(backend::Transform::from_scale(2 * ONE, -ONE)),
        Segment::LineTo(at(4, -3))
    );
    assert!(Segment::LineTo(at(2, 3)).draws());
    assert!(!Segment::MoveTo(at(2, 3)).draws());
    assert!(Segment::Close.stays_at(at(1, 1)));
    assert!(!Segment::CubicTo(at(1, 1), at(1, 2), at(1, 1)).stays_at(at(1, 1)));
}

#[test]
fn extent_of_geometries() {
    assert_eq!(Geometry::Line(Point::new(-4, 5)).bbox_size(), Size::new(-4, 5));
    assert_eq!(Geometry::Rect(Size::new(7, -8)).bbox_size(), Size::new(7, -8));
    let path = Path(vec![
        PathItem::MoveTo(Point::new(1, 2)),
        PathItem::CubicTo(Point::new(-3, 10), Point::new(5, 6), Point::new(4, 4)),
        PathItem::ClosePath,
    ]);
    assert_eq!(path.bbox_size(), Size::new(8, 8));
    assert_eq!(Geometry::Path(path).bbox_size(), Size::new(8, 8));
    assert_eq!(Path(vec![]).bbox_size(), Size::new(0, 0));
    assert_eq!(Path(vec![PathItem::ClosePath]).bbox_size(), Size::new(0, 0));
    assert_eq!(
        Path(vec![
            PathItem::MoveTo(Point::new(i64::MIN, 0)),
            PathItem::LineTo(Point::new(i64::MAX, 1)),
        ])
        .bbox_size(),
        Size::new(i64::MAX, 1)
    );
    let b = Bounds::empty()
        .with_point(Point::new(3, 4))
        .with_item(&PathItem::LineTo(Point::new(1, 9)));
    assert_eq!(b, Bounds { min_x: 1, min_y: 4, max_x: 3, max_y: 9 });
    assert_eq!(b.size(), Size::new(2, 5));
    assert_eq!(Bounds::empty().size(), Size::new(0, 0));
}

#[test]
fn primitives_are_converted() {
    assert_eq!(convert_point(Point::new(3, -4)), at(3, -4));
    assert_eq!(convert_size(Size::new(3, -4)), backend::Size { width: 3, height: -4 });
    assert_eq!(
        convert_transform(Transform { sx: 1, ky: 2, kx: 3, sy: 4, tx: 5, ty: 6 }),
        backend::Transform { sx: 1, ky: 2, kx: 3, sy: 4, tx: 5, ty: 6 }
    );
    assert_eq!(convert_fill_rule(FillRule::NonZero), backend::FillRule::NonZero);
    assert_eq!(convert_fill_rule(FillRule::EvenOdd), backend::FillRule::EvenOdd);
    assert_eq!(convert_line_cap(LineCap::Butt), backend::LineCap::Butt);
    assert_eq!(convert_line_cap(LineCap::Round), backend::LineCap::Round);
    assert_eq!(convert_line_cap(LineCap::Square), backend::LineCap::Square);
    assert_eq!(convert_line_join(LineJoin::Miter), backend::LineJoin::Miter);
    assert_eq!(convert_line_join(LineJoin::Round), backend::LineJoin::Round);
    assert_eq!(convert_line_join(LineJoin::Bevel), backend::LineJoin::Bevel);
}

#[test]
fn paints_are_split_into_colour_and_opacity() {
    let t = some_transforms();
    assert_eq!(
        convert_paint(&Paint::Solid(Color { r: 1, g: 2, b: 3, a: 4 }), t),
        (backend::Paint::Rgb(backend::Rgb { r: 1, g: 2, b: 3 }), 4)
    );
    assert_eq!(
        convert_paint(&Paint::Gradient(Gradient { id: 77 }), t),
        (backend::Paint::Gradient(77, t), 255)
    );
    assert_eq!(
        convert_paint(&Paint::Pattern(Pattern { id: 78 }), t),
        (backend::Paint::Pattern(78, t), 255)
    );
    assert_eq!(
        convert_fill(&Paint::Solid(Color { r: 1, g: 2, b: 3, a: 4 }), FillRule::EvenOdd, t),
        backend::Fill {
            paint: backend::Paint::Rgb(backend::Rgb { r: 1, g: 2, b: 3 }),
            rule: backend::FillRule::EvenOdd,
            opacity: 4,
        }
    );
    assert_eq!(t.container_size, Size::new(30, 40));
    assert_eq!(t.size, Size::new(5, 6));
    assert_eq!(t.transform_chain_, Transform::translate(1, 2));
    assert_eq!(t.transform_, Transform::identity());
    assert_eq!(t.container_transform_chain, Transform::translate(3, 4));
}

#[test]
fn strokes_are_converted() {
    let t = some_transforms();
    let stroke = FixedStroke {
        paint: Paint::Solid(Color { r: 9, g: 8, b: 7, a: 6 }),
        thickness: 5,
        cap: LineCap::Square,
        join: LineJoin::Round,
        miter_limit: 4 * ONE,
    };
    assert_eq!(
        convert_fixed_stroke(&stroke, t),
        backend::Stroke {
            paint: backend::Paint::Rgb(backend::Rgb { r: 9, g: 8, b: 7 }),
            width: 5,
            miter_limit: 4 * ONE,
            line_cap: backend::LineCap::Square,
            line_join: backend::LineJoin::Round,
            opacity: 6,
        }
    );
}

#[test]
fn glyphs_are_converted() {
    let g = Glyph { id: 65535, x_advance: 500, x_offset: -20, start: 3, end: 65535 };
    let converted = convert_glyph(&g);
    assert_eq!(converted.glyph_id(), 65535);
    assert_eq!(converted.text_range(), (3, 65535));
    assert_eq!(converted.x_advance(), 500);
    assert_eq!(converted.x_offset(), -20);
    assert_eq!(converted.y_advance(), 0);
    assert_eq!(converted.y_offset(), 0);
    let other = Glyph { id: 1, x_advance: 2, x_offset: 3, start: 4, end: 5 };
    let many = convert_glyphs(&vec![g, other]);
    assert_eq!(many.len(), 2);
    assert_eq!(many[0], converted);
    assert_eq!(many[1].glyph_id, 1);
    assert_eq!(many[1].text_start, 4);
    assert!(convert_glyphs(&vec![]).is_empty());
}
