//! The laid-out document: pages, frames and the items placed in them.

use vstd::prelude::*;
use crate::fixed::{clamp, max_len, max_of, min_len, min_of, saturate};
use crate::geometry::{Point, Size, Transform};

verus! {

/// A colour in sRGB with its opacity.
#[derive(Clone, Copy, PartialEq, Eq, Structural, Debug)]
pub struct Color {
    pub r: u8,
    pub g: u8,
    pub b: u8,
    pub a: u8,
}

/// A gradient, known by its identity.
#[derive(Clone, Copy, PartialEq, Eq, Structural, Debug)]
pub struct Gradient {
    pub id: u64,
}

/// A tiling pattern, known by its identity.
#[derive(Clone, Copy, PartialEq, Eq, Structural, Debug)]
pub struct Pattern {
    pub id: u64,
}

/// How an area or an outline is coloured.
#[derive(Clone, Copy, PartialEq, Eq, Structural, Debug)]
pub enum Paint {
    Solid(Color),
    Gradient(Gradient),
    Pattern(Pattern),
}

/// Which points count as inside a path.
#[derive(Clone, Copy, PartialEq, Eq, Structural, Debug)]
pub enum FillRule {
    NonZero,
    EvenOdd,
}

/// The shape of the ends of a stroked line.
#[derive(Clone, Copy, PartialEq, Eq, Structural, Debug)]
pub enum LineCap {
    Butt,
    Round,
    Square,
}

/// The shape of the corners of a stroked line.
#[derive(Clone, Copy, PartialEq, Eq, Structural, Debug)]
pub enum LineJoin {
    Miter,
    Round,
    Bevel,
}

/// A stroke with every property resolved.
#[derive(Clone, Copy, PartialEq, Eq, Structural, Debug)]
pub struct FixedStroke {
    pub paint: Paint,
    pub thickness: i64,
    pub cap: LineCap,
    pub join: LineJoin,
    /// The miter limit, a fixed-point ratio.
    pub miter_limit: i64,
}

/// One step of a path.
#[derive(Clone, Copy, PartialEq, Eq, Structural, Debug)]
pub enum PathItem {
    MoveTo(Point),
    LineTo(Point),
    CubicTo(Point, Point, Point),
    ClosePath,
}

/// A path: its steps in drawing order.
#[derive(Clone, PartialEq, Eq, Debug)]
pub struct Path(pub Vec<PathItem>);

/// The outline of a shape.
#[derive(Clone, PartialEq, Eq, Debug)]
pub enum Geometry {
    /// A line from the origin to a point.
    Line(Point),
    /// A rectangle with a corner at the origin. A negative side extends to
    /// the left of or above the origin.
    Rect(Size),
    /// A free path.
    Path(Path),
}

/// A geometry with the paints to draw it.
#[derive(Clone, PartialEq, Eq, Debug)]
pub struct Shape {
    pub geometry: Geometry,
    pub fill: Option<Paint>,
    pub fill_rule: FillRule,
    pub stroke: Option<FixedStroke>,
}

/// A font face: its identity, its bytes and the index of the face in them.
/// Two fonts with the same identity are the same font.
#[derive(Clone, PartialEq, Eq, Debug)]
pub struct Typeface {
    pub id: u64,
    pub index: u32,
    pub data: Vec<u8>,
}

/// A shaped glyph. Advance and offset are fixed-point ratios of the font
/// size.
#[derive(Clone, Copy, PartialEq, Eq, Structural, Debug)]
pub struct Glyph {
    pub id: u16,
    pub x_advance: i64,
    pub x_offset: i64,
    /// Where the glyph's source starts in the text of its run.
    pub start: u16,
    /// Where the glyph's source ends in the text of its run.
    pub end: u16,
}

/// A run of glyphs of one font.
#[derive(Clone, PartialEq, Eq, Debug)]
pub struct TextItem {
    pub font: Typeface,
    pub size: i64,
    pub fill: Paint,
    pub stroke: Option<FixedStroke>,
    pub text: String,
    pub glyphs: Vec<Glyph>,
}

/// The encoding of a raster image.
#[derive(Clone, Copy, PartialEq, Eq, Structural, Debug)]
pub enum RasterFormat {
    Png,
    Jpg,
    Gif,
}

/// An encoded raster image with its identity. Two images with the same
/// identity are the same image.
#[derive(Clone, PartialEq, Eq, Debug)]
pub struct RasterImage {
    pub id: u64,
    pub format: RasterFormat,
    /// Whether the image is smoothed when it is scaled.
    pub interpolate: bool,
    pub data: Vec<u8>,
}

/// A parsed vector image, known by the identity of its tree.
#[derive(Clone, Copy, PartialEq, Eq, Structural, Debug)]
pub struct SvgImage {
    pub tree: u64,
    /// Whether text in the image is turned into outlines.
    pub flatten_text: bool,
}

/// What an image holds.
#[derive(Clone, PartialEq, Eq, Debug)]
pub enum ImageKind {
    Raster(RasterImage),
    Svg(SvgImage),
}

/// An image that is placed in a frame.
#[derive(Clone, PartialEq, Eq, Debug)]
pub struct Picture {
    pub kind: ImageKind,
}

/// A place in the document: a page, counted from one, and a point on it.
#[derive(Clone, Copy, PartialEq, Eq, Structural, Debug)]
pub struct Position {
    pub page: usize,
    pub point: Point,
}

/// Where a link leads.
#[derive(Clone, PartialEq, Eq, Debug)]
pub enum Destination {
    Url(String),
    Position(Position),
    /// A location that is not resolved to a position.
    Location(u64),
}

/// A semantic marker.
#[derive(Clone, Copy, PartialEq, Eq, Structural, Debug)]
pub struct Tag {
    pub role: u64,
}

/// Whether a frame is a container of its own.
#[derive(Clone, Copy, PartialEq, Eq, Structural, Debug)]
pub enum FrameKind {
    /// The frame belongs to the container around it.
    Soft,
    /// The frame is the container of what it holds: gradients and patterns
    /// in it are laid out relative to it.
    Hard,
}

/// A region with items at positions relative to its origin.
#[derive(PartialEq, Eq, Debug)]
pub struct Frame {
    pub size: Size,
    pub kind: FrameKind,
    pub items: Vec<(Point, FrameItem)>,
}

/// A frame with a transform and an optional clip.
#[derive(PartialEq, Eq, Debug)]
pub struct GroupItem {
    pub frame: Frame,
    pub transform: Transform,
    pub clip_path: Option<Path>,
}

/// What a frame can hold.
#[derive(PartialEq, Eq, Debug)]
pub enum FrameItem {
    Group(GroupItem),
    Text(TextItem),
    Shape(Shape),
    Image(Picture, Size),
    Link(Destination, Size),
    Tag(Tag),
}

/// A value that is chosen by the document or left to the exporter.
#[derive(Clone, Copy, PartialEq, Eq, Debug)]
pub enum Smart<T> {
    Auto,
    Custom(T),
}

/// A page: its frame and its background.
#[derive(PartialEq, Eq, Debug)]
pub struct Page {
    pub frame: Frame,
    pub fill: Smart<Option<Paint>>,
}

/// A document: its pages in reading order.
#[derive(PartialEq, Eq, Debug)]
pub struct PagedDocument {
    pub pages: Vec<Page>,
}

/// The least and greatest coordinates of a set of points. Without a point
/// the least coordinates are above the greatest.
#[derive(Clone, Copy, PartialEq, Eq, Structural, Debug)]
pub struct Bounds {
    pub min_x: i64,
    pub min_y: i64,
    pub max_x: i64,
    pub max_y: i64,
}

impl Bounds {
    /// The bounds of no point.
    pub open spec fn spec_empty() -> Bounds {
        Bounds { min_x: i64::MAX, min_y: i64::MAX, max_x: i64::MIN, max_y: i64::MIN }
    }

    /// The bounds widened to hold `p`.
    pub open spec fn spec_with_point(self, p: Point) -> Bounds {
        Bounds {
            min_x: min_of(self.min_x as int, p.x as int) as i64,
            min_y: min_of(self.min_y as int, p.y as int) as i64,
            max_x: max_of(self.max_x as int, p.x as int) as i64,
            max_y: max_of(self.max_y as int, p.y as int) as i64,
        }
    }

    /// The bounds widened to hold the points of `item`.
    pub open spec fn spec_with_item(self, item: PathItem) -> Bounds {
        match item {
            PathItem::MoveTo(p) => self.spec_with_point(p),
            PathItem::LineTo(p) => self.spec_with_point(p),
            PathItem::CubicTo(a, b, c) => {
                self.spec_with_point(a).spec_with_point(b).spec_with_point(c)
            },
            PathItem::ClosePath => self,
        }
    }

    /// The extent of the bounds; zero where they hold no point.
    pub open spec fn spec_size(self) -> Size {
        if self.min_x > self.max_x || self.min_y > self.max_y {
            Size { x: 0, y: 0 }
        } else {
            Size {
                x: clamp(self.max_x - self.min_x) as i64,
                y: clamp(self.max_y - self.min_y) as i64,
            }
        }
    }

    /// The bounds of no point.
    pub fn empty() -> (b: Bounds)
        ensures
            b == Bounds::spec_empty(),
    {
        Bounds { min_x: i64::MAX, min_y: i64::MAX, max_x: i64::MIN, max_y: i64::MIN }
    }

    /// Widens the bounds to hold `p`.
    pub fn with_point(self, p: Point) -> (b: Bounds)
        ensures
            b == self.spec_with_point(p),
    {
        Bounds {
            min_x: min_len(self.min_x, p.x),
            min_y: min_len(self.min_y, p.y),
            max_x: max_len(self.max_x, p.x),
            max_y: max_len(self.max_y, p.y),
        }
    }

    /// Widens the bounds to hold the points of `item`.
    pub fn with_item(self, item: &PathItem) -> (b: Bounds)
        ensures
            b == self.spec_with_item(*item),
    {
        match item {
            PathItem::MoveTo(p) => self.with_point(*p),
            PathItem::LineTo(p) => self.with_point(*p),
            PathItem::CubicTo(a, b, c) => self.with_point(*a).with_point(*b).with_point(*c),
            PathItem::ClosePath => self,
        }
    }

    /// The extent of the bounds; zero where they hold no point.
    pub fn size(self) -> (s: Size)
        ensures
            s == self.spec_size(),
    {
        if self.min_x > self.max_x || self.min_y > self.max_y {
            Size { x: 0, y: 0 }
        } else {
            Size {
                x: saturate((self.max_x as i128) - (self.min_x as i128)),
                y: saturate((self.max_y as i128) - (self.min_y as i128)),
            }
        }
    }
}

/// The bounds of the points of a run of path steps.
pub open spec fn path_bounds(items: Seq<PathItem>) -> Bounds
    decreases items.len(),
{
    if items.len() == 0 {
        Bounds::spec_empty()
    } else {
        path_bounds(items.drop_last()).spec_with_item(items.last())
    }
}

impl Path {
    /// The steps of the path.
    pub open spec fn view(&self) -> Seq<PathItem> {
        self.0@
    }

    /// The extent of the box around the points of the path.
    pub open spec fn spec_bbox_size(&self) -> Size {
        path_bounds(self@).spec_size()
    }

    /// The extent of the box around the points of the path, control points
    /// included. A path without points has no extent.
    pub fn bbox_size(&self) -> (s: Size)
        ensures
            s == self.spec_bbox_size(),
    {
        let mut bounds: Bounds = Bounds::empty();
        let mut i: usize = 0;
        while i < self.0.len()
            invariant
                i <= self.0.len(),
                bounds == path_bounds(self@.take(i as int)),
            decreases self.0.len() - i,
        {
            proof {
                let next = self@.take(i + 1);
                assert(next.drop_last() =~= self@.take(i as int));
                assert(next.last() == self@[i as int]);
            }
            bounds = bounds.with_item(&self.0[i]);
            i += 1;
        }
        proof {
            assert(self@.take(i as int) =~= self@);
        }
        bounds.size()
    }
}

impl Geometry {
    /// The shape that fills the geometry with `fill` and has no stroke.
    pub open spec fn spec_filled(self, fill: Paint) -> Shape {
        Shape { geometry: self, fill: Some(fill), fill_rule: FillRule::NonZero, stroke: None }
    }

    /// The extent that paints of the geometry are laid out in.
    pub open spec fn spec_bbox_size(&self) -> Size {
        match self {
            Geometry::Line(l) => Size { x: l.x, y: l.y },
            Geometry::Rect(s) => *s,
            Geometry::Path(p) => p.spec_bbox_size(),
        }
    }

    /// Fills the geometry with `fill`, without a stroke.
    pub fn filled(self, fill: Paint) -> (s: Shape)
        ensures
            s == self.spec_filled(fill),
    {
        Shape { geometry: self, fill: Some(fill), fill_rule: FillRule::NonZero, stroke: None }
    }

    /// The extent that paints of the geometry are laid out in: the end point
    /// of a line, the sides of a rectangle, the box around a path.
    pub fn bbox_size(&self) -> (s: Size)
        ensures
            s == self.spec_bbox_size(),
    {
        match self {
            Geometry::Line(l) => Size { x: l.x, y: l.y },
            Geometry::Rect(s) => *s,
            Geometry::Path(p) => p.bbox_size(),
        }
    }
}

impl FrameKind {
    /// Whether the frame is a container of its own.
    pub open spec fn spec_is_hard(&self) -> bool {
        *self == FrameKind::Hard
    }

    /// Whether the frame is a container of its own.
    pub fn is_hard(&self) -> (b: bool)
        ensures
            b == self.spec_is_hard(),
    {
        match self {
            FrameKind::Hard => true,
            FrameKind::Soft => false,
        }
    }
}

impl Frame {
    /// Creates a frame of the given size and kind without items.
    pub fn new(size: Size, kind: FrameKind) -> (frame: Frame)
        ensures
            frame.size == size,
            frame.kind == kind,
            frame.items@.len() == 0,
    {
        Frame { size, kind, items: Vec::new() }
    }

    /// Creates a soft frame of the given size without items.
    pub fn soft(size: Size) -> (frame: Frame)
        ensures
            frame.size == size,
            frame.kind == FrameKind::Soft,
            frame.items@.len() == 0,
    {
        Frame::new(size, FrameKind::Soft)
    }

    /// Creates a hard frame of the given size without items.
    pub fn hard(size: Size) -> (frame: Frame)
        ensures
            frame.size == size,
            frame.kind == FrameKind::Hard,
            frame.items@.len() == 0,
    {
        Frame::new(size, FrameKind::Hard)
    }

    /// Adds an item at a position, above the items that are there.
    pub fn push(&mut self, pos: Point, item: FrameItem)
        ensures
            final(self).items@ == old(self).items@.push((pos, item)),
            final(self).size == old(self).size,
            final(self).kind == old(self).kind,
    {
        self.items.push((pos, item));
    }

    /// The size of the frame.
    pub fn size(&self) -> (size: Size)
        ensures
            size == self.size,
    {
        self.size
    }

    /// The width of the frame.
    pub fn width(&self) -> (width: i64)
        ensures
            width == self.size.x,
    {
        self.size.x
    }

    /// The height of the frame.
    pub fn height(&self) -> (height: i64)
        ensures
            height == self.size.y,
    {
        self.size.y
    }

    /// The kind of the frame.
    pub fn kind(&self) -> (kind: FrameKind)
        ensures
            kind == self.kind,
    {
        self.kind
    }

    /// Whether the frame holds no item.
    pub fn is_empty(&self) -> (empty: bool)
        ensures
            empty == (self.items@.len() == 0),
    {
        self.items.len() == 0
    }
}

impl Page {
    /// The background to paint: none where the document leaves it open.
    pub open spec fn spec_fill_or_transparent(&self) -> Option<Paint> {
        match self.fill {
            Smart::Auto => None,
            Smart::Custom(fill) => fill,
        }
    }

    /// The background to paint: none where the document leaves it open.
    pub fn fill_or_transparent(&self) -> (fill: Option<Paint>)
        ensures
            fill == self.spec_fill_or_transparent(),
    {
        match self.fill {
            Smart::Auto => None,
            Smart::Custom(fill) => fill,
        }
    }
}

} // verus!
