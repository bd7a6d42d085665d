use typst_pdf::backend::{Surface, SurfaceOp, SvgSettings};
use typst_pdf::backend;
use typst_pdf::context::FrameContext;
use typst_pdf::document::{ImageKind, Picture, RasterFormat, RasterImage, SvgImage, Typeface};
use typst_pdf::fixed::ONE;
use typst_pdf::geometry::{Size, Transform};
use typst_pdf::resources::{GlobalContext, PdfError};
use typst_pdf::walker::handle_image;

fn font_bytes(n: usize) -> Vec<u8> {
    typst_assets::fonts().nth(n).unwrap().to_vec()
}

fn png_bytes() -> Vec<u8> {
    vec![
        137, 80, 78, 71, 13, 10, 26, 10, 0, 0, 0, 13, 73, 72, 68, 82, 0, 0, 0, 1, 0, 0, 0, 1, 8,
        6, 0, 0, 0, 31, 21, 196, 137, 0, 0, 0, 13, 73, 68, 65, 84, 120, 218, 99, 248, 207, 192,
        240, 31, 0, 5, 0, 1, 255, 86, 199, 47, 13, 0, 0, 0, 0, 73, 69, 78, 68, 174, 66, 96, 130,
    ]
}

fn gif_bytes() -> Vec<u8> {
    vec![
        71, 73, 70, 56, 57, 97, 1, 0, 1, 0, 128, 0, 0, 255, 255, 255, 0, 0, 0, 33, 249, 4, 1, 0,
        0, 0, 0, 44, 0, 0, 0, 0, 1, 0, 1, 0, 0, 2, 2, 68, 1, 0, 59,
    ]
}

fn jpeg_bytes() -> Vec<u8> {
    let mut bytes = vec![255, 216, 255, 219, 0, 67, 0];
    bytes.extend(std::iter::repeat(1u8).take(64));
    bytes.extend([255, 192, 0, 11, 8, 0, 1, 0, 1, 1, 1, 17, 0]);
    bytes.extend([255, 196, 0, 20, 0, 1]);
    bytes.extend(std::iter::repeat(0u8).take(16));
    bytes.extend([255, 196, 0, 20, 16, 1]);
    bytes.extend(std::iter::repeat(0u8).take(16));
    bytes.extend([255, 218, 0, 8, 1, 1, 0, 0, 63, 0, 63, 255, 217]);
    bytes
}

fn raster(id: u64, format: RasterFormat, data: Vec<u8>) -> RasterImage {
    RasterImage { id, format, interpolate: false, data }
}

#[test]
fn readable_font_is_built_and_stored() {
    let mut gc = GlobalContext::new();
    assert!(gc.fonts.is_empty());
    assert!(gc.images.is_empty());
    let font = Typeface { id: 11, index: 0, data: font_bytes(0) };
    assert_eq!(gc.font_or_intern(&font), Ok(11));
    assert_eq!(gc.fonts.len(), 1);
    assert!(gc.fonts.contains_key(&11));
    assert!(gc.images.is_empty());
}

#[test]
fn unreadable_font_is_the_failure() {
    let mut gc = GlobalContext::new();
    let font = Typeface { id: 12, index: 0, data: vec![1, 2, 3, 4, 5, 6, 7, 8] };
    assert_eq!(gc.font_or_intern(&font), Err(PdfError::Font(12)));
    assert!(gc.fonts.is_empty());
    let empty = Typeface { id: 13, index: 0, data: vec![] };
    assert_eq!(gc.font_or_intern(&empty), Err(PdfError::Font(13)));
    let beyond = Typeface { id: 14, index: 99, data: font_bytes(0) };
    assert_eq!(gc.font_or_intern(&beyond), Err(PdfError::Font(14)));
    assert!(gc.fonts.is_empty());
}

#[test]
fn stored_font_is_not_built_again() {
    let mut gc = GlobalContext::new();
    let font = Typeface { id: 11, index: 0, data: font_bytes(0) };
    assert_eq!(gc.font_or_intern(&font), Ok(11));
    let stored = gc.fonts.get(&11).unwrap().clone();
    assert_eq!(gc.font_or_intern(&font), Ok(11));
    let same_identity = Typeface { id: 11, index: 0, data: vec![0, 0, 0] };
    assert_eq!(gc.font_or_intern(&same_identity), Ok(11));
    assert_eq!(gc.fonts.len(), 1);
    assert!(gc.fonts.get(&11).unwrap() == &stored);
}

#[test]
fn fonts_are_kept_by_identity_not_by_content() {
    let mut gc = GlobalContext::new();
    let a = Typeface { id: 1, index: 0, data: font_bytes(0) };
    let b = Typeface { id: 2, index: 0, data: font_bytes(0) };
    let c = Typeface { id: 3, index: 0, data: font_bytes(1) };
    assert_eq!(gc.font_or_intern(&a), Ok(1));
    assert_eq!(gc.font_or_intern(&b), Ok(2));
    assert_eq!(gc.font_or_intern(&c), Ok(3));
    assert_eq!(gc.font_or_intern(&a), Ok(1));
    assert_eq!(gc.fonts.len(), 3);
    assert!(gc.fonts.get(&1).unwrap() != gc.fonts.get(&3).unwrap());
}

#[test]
fn raster_images_are_decoded_by_their_format() {
    let mut gc = GlobalContext::new();
    assert_eq!(gc.raster_or_decode(&raster(1, RasterFormat::Png, png_bytes())), Ok(1));
    assert_eq!(gc.raster_or_decode(&raster(2, RasterFormat::Gif, gif_bytes())), Ok(2));
    assert_eq!(gc.raster_or_decode(&raster(3, RasterFormat::Jpg, jpeg_bytes())), Ok(3));
    assert_eq!(gc.images.len(), 3);
    assert!(gc.fonts.is_empty());
    assert_eq!(gc.images.get(&1).unwrap().size(), (1, 1));
    assert_eq!(gc.images.get(&2).unwrap().size(), (1, 1));
    assert_eq!(gc.images.get(&3).unwrap().size(), (1, 1));
}

#[test]
fn undecodable_raster_image_is_the_failure() {
    let mut gc = GlobalContext::new();
    assert_eq!(
        gc.raster_or_decode(&raster(1, RasterFormat::Png, vec![1, 2, 3])),
        Err(PdfError::Image(1))
    );
    assert_eq!(
        gc.raster_or_decode(&raster(2, RasterFormat::Jpg, vec![1, 2, 3])),
        Err(PdfError::Image(2))
    );
    assert_eq!(
        gc.raster_or_decode(&raster(3, RasterFormat::Gif, vec![1, 2, 3])),
        Err(PdfError::Image(3))
    );
    assert_eq!(
        gc.raster_or_decode(&raster(4, RasterFormat::Jpg, png_bytes())),
        Err(PdfError::Image(4))
    );
    assert_eq!(
        gc.raster_or_decode(&raster(5, RasterFormat::Png, jpeg_bytes())),
        Err(PdfError::Image(5))
    );
    assert!(gc.images.is_empty());
}

#[test]
fn stored_raster_image_is_not_decoded_again() {
    let mut gc = GlobalContext::new();
    assert_eq!(gc.raster_or_decode(&raster(1, RasterFormat::Png, png_bytes())), Ok(1));
    assert_eq!(gc.raster_or_decode(&raster(1, RasterFormat::Png, vec![])), Ok(1));
    assert_eq!(gc.raster_or_decode(&raster(1, RasterFormat::Gif, vec![9])), Ok(1));
    assert_eq!(gc.images.len(), 1);
}

#[test]
fn built_resources_are_stored_and_missing_ones_fail() {
    let mut gc = GlobalContext::new();
    let font = Typeface { id: 5, index: 0, data: vec![] };
    assert_eq!(gc.font_built(&font, None), Err(PdfError::Font(5)));
    assert!(gc.fonts.is_empty());
    let handle = krilla::text::Font::new(krilla::Data::from(font_bytes(0)), 0);
    assert_eq!(gc.font_built(&font, handle), Ok(5));
    assert!(gc.fonts.contains_key(&5));
    let image = raster(6, RasterFormat::Png, vec![]);
    assert_eq!(gc.raster_built(&image, Err(String::from("no"))), Err(PdfError::Image(6)));
    assert!(gc.images.is_empty());
    let handle = krilla::image::Image::from_png(krilla::Data::from(png_bytes()), true);
    assert_eq!(gc.raster_built(&image, handle), Ok(6));
    assert!(gc.images.contains_key(&6));
}

#[test]
fn raster_image_is_drawn_inside_the_map_to_the_page() {
    let mut fc = FrameContext::new(Size::new(100, 100));
    fc.state_mut().transform(Transform::translate(3, 4));
    let mut surface = Surface::new();
    let mut gc = GlobalContext::new();
    let image = Picture { kind: ImageKind::Raster(raster(21, RasterFormat::Png, png_bytes())) };
    assert_eq!(handle_image(&mut fc, &image, Size::new(8, 9), &mut surface, &mut gc), Ok(()));
    assert_eq!(
        surface.ops,
        vec![
            SurfaceOp::PushTransform(backend::Transform {
                sx: ONE,
                ky: 0,
                kx: 0,
                sy: ONE,
                tx: 3,
                ty: 4,
            }),
            SurfaceOp::DrawImage(21, backend::Size { width: 8, height: 9 }),
            SurfaceOp::Pop,
        ]
    );
    assert_eq!(gc.images.len(), 1);
    assert_eq!(fc.states.len(), 1);
}

#[test]
fn undecodable_image_closes_what_it_opened() {
    let mut fc = FrameContext::new(Size::new(100, 100));
    let mut surface = Surface::new();
    let mut gc = GlobalContext::new();
    let image = Picture { kind: ImageKind::Raster(raster(22, RasterFormat::Png, vec![0])) };
    assert_eq!(
        handle_image(&mut fc, &image, Size::new(8, 9), &mut surface, &mut gc),
        Err(PdfError::Image(22))
    );
    let opened = surface.ops.iter().filter(|op| matches!(op, SurfaceOp::PushTransform(_))).count();
    let closed = surface.ops.iter().filter(|op| matches!(op, SurfaceOp::Pop)).count();
    assert_eq!(opened, closed);
    assert!(!surface.ops.iter().any(|op| matches!(op, SurfaceOp::DrawImage(..))));
    assert!(gc.images.is_empty());
}

#[test]
fn vector_image_keeps_its_text_unless_it_is_flattened() {
    let mut fc = FrameContext::new(Size::new(100, 100));
    let mut surface = Surface::new();
    let mut gc = GlobalContext::new();
    let keep = Picture { kind: ImageKind::Svg(SvgImage { tree: 31, flatten_text: false }) };
    let flat = Picture { kind: ImageKind::Svg(SvgImage { tree: 32, flatten_text: true }) };
    assert_eq!(handle_image(&mut fc, &keep, Size::new(8, 9), &mut surface, &mut gc), Ok(()));
    assert_eq!(handle_image(&mut fc, &flat, Size::new(1, 2), &mut surface, &mut gc), Ok(()));
    assert_eq!(surface.ops.len(), 6);
    assert_eq!(
        surface.ops[1],
        SurfaceOp::DrawSvg(
            31,
            backend::Size { width: 8, height: 9 },
            SvgSettings { embed_text: true }
        )
    );
    assert_eq!(
        surface.ops[4],
        SurfaceOp::DrawSvg(
            32,
            backend::Size { width: 1, height: 2 },
            SvgSettings { embed_text: false }
        )
    );
    assert!(gc.images.is_empty());
    assert!(gc.fonts.is_empty());
}
