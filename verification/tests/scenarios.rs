use typst_pdf::backend;
use typst_pdf::backend::{
    Annotation, GlyphUnits, LinkAnnotation, PdfGlyph, Surface, SurfaceOp, Target,
};
use typst_pdf::context::{FrameContext, Transforms};
use typst_pdf::document::{
    Color, Destination, FillRule, FixedStroke, Frame, FrameItem, FrameKind, Geometry, Glyph,
    Gradient, GroupItem, ImageKind, LineCap, LineJoin, Page, PagedDocument, Paint, Picture,
    RasterFormat, RasterImage, Shape, Smart, TextItem, Typeface,
};
use typst_pdf::export::pdf;
use typst_pdf::fixed::ONE;
use typst_pdf::geometry::{Point, Size, Transform};
use typst_pdf::resources::GlobalContext;
use typst_pdf::walker::process_frame;

fn black() -> Paint {
    Paint::Solid(Color { r: 0, g: 0, b: 0, a: 255 })
}

fn red() -> Paint {
    Paint::Solid(Color { r: 255, g: 0, b: 0, a: 255 })
}

fn font_f() -> Typeface {
    Typeface { id: 7, index: 0, data: typst_assets::fonts().next().unwrap().to_vec() }
}

fn png_p() -> RasterImage {
    RasterImage {
        id: 9,
        format: RasterFormat::Png,
        interpolate: true,
        data: vec![
            137, 80, 78, 71, 13, 10, 26, 10, 0, 0, 0, 13, 73, 72, 68, 82, 0, 0, 0, 1, 0, 0, 0, 1,
            8, 6, 0, 0, 0, 31, 21, 196, 137, 0, 0, 0, 13, 73, 68, 65, 84, 120, 218, 99, 248, 207,
            192, 240, 31, 0, 5, 0, 1, 255, 86, 199, 47, 13, 0, 0, 0, 0, 73, 69, 78, 68, 174, 66,
            96, 130,
        ],
    }
}

fn run_a() -> TextItem {
    TextItem {
        font: font_f(),
        size: 12,
        fill: black(),
        stroke: None,
        text: String::from("A"),
        glyphs: vec![Glyph { id: 65, x_advance: 500, x_offset: 0, start: 0, end: 1 }],
    }
}

fn moved(tx: i64, ty: i64) -> backend::Transform {
    backend::Transform { sx: ONE, ky: 0, kx: 0, sy: ONE, tx, ty }
}

fn rect_path(left: i64, top: i64, right: i64, bottom: i64) -> backend::Path {
    backend::Path {
        segments: vec![
            backend::Segment::MoveTo(backend::Point { x: left, y: top }),
            backend::Segment::LineTo(backend::Point { x: right, y: top }),
            backend::Segment::LineTo(backend::Point { x: right, y: bottom }),
            backend::Segment::LineTo(backend::Point { x: left, y: bottom }),
            backend::Segment::Close,
        ],
    }
}

fn walk(frame: &Frame, fill: Option<Paint>) -> (FrameContext, Surface, GlobalContext) {
    let mut fc = FrameContext::new(frame.size());
    let mut surface = Surface::new();
    let mut gc = GlobalContext::new();
    process_frame(&mut fc, frame, fill, &mut surface, &mut gc).unwrap();
    (fc, surface, gc)
}

#[test]
fn single_page_with_one_text_run() {
    let mut frame = Frame::hard(Size::new(100, 20));
    frame.push(Point::new(10, 15), FrameItem::Text(run_a()));
    let (fc, surface, gc) = walk(&frame, None);
    let fill = backend::Fill {
        paint: backend::Paint::Rgb(backend::Rgb { r: 0, g: 0, b: 0 }),
        rule: backend::FillRule::NonZero,
        opacity: 255,
    };
    assert_eq!(
        surface.ops,
        vec![
            SurfaceOp::PushTransform(moved(10, 15)),
            SurfaceOp::FillGlyphs {
                origin: backend::Point { x: 0, y: 0 },
                fill,
                glyphs: vec![PdfGlyph {
                    glyph_id: 65,
                    text_start: 0,
                    text_end: 1,
                    x_advance: 500,
                    x_offset: 0,
                    y_advance: 0,
                    y_offset: 0,
                }],
                font: 7,
                text: String::from("A"),
                size: 12,
                units: GlyphUnits::Normalized,
                ignore_spacing: false,
            },
            SurfaceOp::Pop,
        ]
    );
    assert_eq!(gc.fonts.len(), 1);
    assert!(gc.fonts.contains_key(&7));
    assert_eq!(fc.states.len(), 1);
    assert!(fc.annotations.is_empty());
}

#[test]
fn nested_group_with_rotation() {
    let quarter_turn = Transform { sx: 0, ky: ONE, kx: -ONE, sy: 0, tx: 0, ty: 0 };
    let mut inner = Frame::soft(Size::new(10, 10));
    inner.push(
        Point::new(0, 0),
        FrameItem::Shape(Geometry::Rect(Size::new(10, 10)).filled(red())),
    );
    let mut page = Frame::soft(Size::new(200, 200));
    page.push(
        Point::new(50, 50),
        FrameItem::Group(GroupItem { frame: inner, transform: quarter_turn, clip_path: None }),
    );
    let (fc, surface, _) = walk(&page, None);
    let chain = Transform::translate(50, 50)
        .pre_concat(quarter_turn)
        .pre_concat(Transform::translate(0, 0));
    assert_eq!(chain, Transform { sx: 0, ky: ONE, kx: -ONE, sy: 0, tx: 50, ty: 50 });
    assert_eq!(
        surface.ops,
        vec![
            SurfaceOp::PushTransform(backend::Transform {
                sx: 0,
                ky: ONE,
                kx: -ONE,
                sy: 0,
                tx: 50,
                ty: 50,
            }),
            SurfaceOp::FillPath(
                rect_path(0, 0, 10, 10),
                backend::Fill {
                    paint: backend::Paint::Rgb(backend::Rgb { r: 255, g: 0, b: 0 }),
                    rule: backend::FillRule::NonZero,
                    opacity: 255,
                },
            ),
            SurfaceOp::Pop,
        ]
    );
    assert_eq!(fc.states.len(), 1);
}

#[test]
fn link_within_a_translated_frame() {
    let mut frame = Frame::hard(Size::new(100, 50));
    frame.push(
        Point::new(30, 10),
        FrameItem::Link(Destination::Url(String::from("https://x")), Size::new(40, 20)),
    );
    let (fc, surface, gc) = walk(&frame, None);
    assert!(surface.ops.is_empty());
    assert_eq!(
        fc.annotations,
        vec![Annotation::Link(LinkAnnotation {
            rect: backend::Rect { left: 30, top: 10, right: 70, bottom: 30 },
            target: Target::Link(String::from("https://x")),
        })]
    );
    assert!(gc.fonts.is_empty());
    assert!(gc.images.is_empty());
}

#[test]
fn repeated_font_and_image() {
    let mut pages = Vec::new();
    for _ in 0..2 {
        let mut frame = Frame::hard(Size::new(100, 100));
        for k in 0..3 {
            frame.push(Point::new(0, 10 * k), FrameItem::Text(run_a()));
            frame.push(
                Point::new(50, 10 * k),
                FrameItem::Image(Picture { kind: ImageKind::Raster(png_p()) }, Size::new(8, 8)),
            );
        }
        pages.push(Page { frame, fill: Smart::Auto });
    }
    let export = pdf(&PagedDocument { pages }).unwrap();
    assert_eq!(export.resources.fonts.len(), 1);
    assert_eq!(export.resources.images.len(), 1);
    assert!(export.resources.fonts.contains_key(&7));
    assert!(export.resources.images.contains_key(&9));
    assert_eq!(export.pages.len(), 2);
    for page in &export.pages {
        assert_eq!(page.content.len(), 18);
        let glyph_runs = page
            .content
            .iter()
            .filter(|op| matches!(op, SurfaceOp::FillGlyphs { font: 7, .. }))
            .count();
        let images = page
            .content
            .iter()
            .filter(|op| matches!(op, SurfaceOp::DrawImage(9, _)))
            .count();
        assert_eq!(glyph_runs, 3);
        assert_eq!(images, 3);
    }
}

#[test]
fn negative_rect() {
    let mut frame = Frame::hard(Size::new(100, 100));
    frame.push(
        Point::new(0, 0),
        FrameItem::Shape(Geometry::Rect(Size::new(-10, 20)).filled(black())),
    );
    let (_, surface, _) = walk(&frame, None);
    assert_eq!(
        surface.ops,
        vec![
            SurfaceOp::PushTransform(moved(0, 0)),
            SurfaceOp::FillPath(
                rect_path(-10, 0, 0, 20),
                backend::Fill {
                    paint: backend::Paint::Rgb(backend::Rgb { r: 0, g: 0, b: 0 }),
                    rule: backend::FillRule::NonZero,
                    opacity: 255,
                },
            ),
            SurfaceOp::Pop,
        ]
    );
    let flipped = backend::Rect::from_xywh(0, 0, 10, 20)
        .unwrap()
        .transform(backend::Transform::from_scale(-ONE, ONE));
    assert_eq!(flipped, backend::Rect { left: -10, top: 0, right: 0, bottom: 20 });
    let strokes = surface.ops.iter().filter(|op| matches!(op, SurfaceOp::StrokePath(..))).count();
    assert_eq!(strokes, 0);
}

#[test]
fn hard_frame_container_context_for_a_gradient_filled_shape() {
    let gradient = Paint::Gradient(Gradient { id: 3 });
    let mut inner = Frame::hard(Size::new(40, 40));
    inner.push(
        Point::new(0, 0),
        FrameItem::Shape(Shape {
            geometry: Geometry::Rect(Size::new(40, 40)),
            fill: Some(gradient),
            fill_rule: FillRule::EvenOdd,
            stroke: Some(FixedStroke {
                paint: gradient,
                thickness: 2,
                cap: LineCap::Round,
                join: LineJoin::Bevel,
                miter_limit: 4 * ONE,
            }),
        }),
    );
    let mut page = Frame::new(Size::new(100, 100), FrameKind::Hard);
    page.push(
        Point::new(20, 20),
        FrameItem::Group(GroupItem {
            frame: inner,
            transform: Transform::identity(),
            clip_path: None,
        }),
    );
    let (_, surface, _) = walk(&page, None);
    let transforms = Transforms {
        transform_chain_: Transform::translate(20, 20),
        transform_: Transform::translate(20, 20),
        container_transform_chain: Transform::translate(20, 20),
        container_size: Size::new(40, 40),
        size: Size::new(40, 40),
    };
    assert_eq!(
        surface.ops,
        vec![
            SurfaceOp::PushTransform(moved(20, 20)),
            SurfaceOp::FillPath(
                rect_path(0, 0, 40, 40),
                backend::Fill {
                    paint: backend::Paint::Gradient(3, transforms),
                    rule: backend::FillRule::EvenOdd,
                    opacity: 255,
                },
            ),
            SurfaceOp::StrokePath(
                rect_path(0, 0, 40, 40),
                backend::Stroke {
                    paint: backend::Paint::Gradient(3, transforms),
                    width: 2,
                    miter_limit: 4 * ONE,
                    line_cap: backend::LineCap::Round,
                    line_join: backend::LineJoin::Bevel,
                    opacity: 255,
                },
            ),
            SurfaceOp::Pop,
        ]
    );
}
