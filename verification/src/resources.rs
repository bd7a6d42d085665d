//! The fonts and raster images of a document, each built once.

use std::collections::HashMap;
use vstd::prelude::*;
use crate::document::{RasterFormat, RasterImage, Typeface};

verus! {

/// Why a document cannot be exported.
#[derive(Clone, Copy, PartialEq, Eq, Structural, Debug)]
pub enum PdfError {
    /// The bytes of the font with this identity are not a readable font.
    Font(u64),
    /// The bytes of the raster image with this identity cannot be decoded.
    Image(u64),
    /// The document could not be put into bytes.
    Finish,
}

/// A font as the PDF writer holds it.
#[verifier::external_type_specification]
#[verifier::external_body]
pub struct ExBackendFont(krilla::text::Font);

/// A raster image as the PDF writer holds it.
#[verifier::external_type_specification]
#[verifier::external_body]
pub struct ExBackendImage(krilla::image::Image);

/// Whether `krilla::text::Font::new` reads a font at `index` from `data`.
pub uninterp spec fn font_readable(data: Seq<u8>, index: u32) -> bool;

/// Whether `krilla::image::Image::from_png` accepts `data`.
pub uninterp spec fn png_readable(data: Seq<u8>) -> bool;

/// Whether `krilla::image::Image::from_jpeg` accepts `data`.
pub uninterp spec fn jpeg_readable(data: Seq<u8>) -> bool;

/// Whether `krilla::image::Image::from_gif` accepts `data`.
pub uninterp spec fn gif_readable(data: Seq<u8>) -> bool;

/// Calls `krilla::text::Font::new` on a copy of the bytes. Whether a font
/// comes back depends on the bytes and the index alone: there is none where
/// the index is invalid or the font cannot be read.
#[verifier::external_body]
fn build_font(data: &Vec<u8>, index: u32) -> (font: Option<krilla::text::Font>)
    ensures
        font is Some == font_readable(data@, index),
{
    krilla::text::Font::new(krilla::Data::from(data.clone()), index)
}

/// Calls `krilla::image::Image::from_png` on a copy of the bytes. Whether an
/// image comes back depends on the bytes alone: the header is read at once,
/// the pixels later.
#[verifier::external_body]
fn build_png(data: &Vec<u8>, interpolate: bool) -> (image: Result<krilla::image::Image, String>)
    ensures
        image is Ok == png_readable(data@),
{
    krilla::image::Image::from_png(krilla::Data::from(data.clone()), interpolate)
}

/// Calls `krilla::image::Image::from_jpeg` on a copy of the bytes. Whether
/// an image comes back depends on the bytes alone.
#[verifier::external_body]
fn build_jpeg(data: &Vec<u8>, interpolate: bool) -> (image: Result<krilla::image::Image, String>)
    ensures
        image is Ok == jpeg_readable(data@),
{
    krilla::image::Image::from_jpeg(krilla::Data::from(data.clone()), interpolate)
}

/// Calls `krilla::image::Image::from_gif` on a copy of the bytes. Whether an
/// image comes back depends on the bytes alone.
#[verifier::external_body]
fn build_gif(data: &Vec<u8>, interpolate: bool) -> (image: Result<krilla::image::Image, String>)
    ensures
        image is Ok == gif_readable(data@),
{
    krilla::image::Image::from_gif(krilla::Data::from(data.clone()), interpolate)
}

/// A resource that an item of the document uses.
pub enum Resource {
    Font { id: u64, index: u32, data: Seq<u8> },
    Raster { id: u64, format: RasterFormat, data: Seq<u8> },
}

/// The identities of the resources that were built.
pub struct Known {
    pub fonts: Set<u64>,
    pub images: Set<u64>,
}

/// Where the use of a run of resources ends: with the resources that were
/// built and, where one could not be built, with the failure.
pub struct Resolution {
    pub known: Known,
    pub failure: Option<PdfError>,
}

impl Resource {
    /// The resource that stands for a font.
    pub open spec fn of_font(font: Typeface) -> Resource {
        Resource::Font { id: font.id, index: font.index, data: font.data@ }
    }

    /// The resource that stands for a raster image.
    pub open spec fn of_raster(raster: RasterImage) -> Resource {
        Resource::Raster { id: raster.id, format: raster.format, data: raster.data@ }
    }

    /// Whether the resource is among those built.
    pub open spec fn known_in(self, known: Known) -> bool {
        match self {
            Resource::Font { id, .. } => known.fonts.contains(id),
            Resource::Raster { id, .. } => known.images.contains(id),
        }
    }

    /// Whether the PDF writer can build the resource.
    pub open spec fn readable(self) -> bool {
        match self {
            Resource::Font { index, data, .. } => font_readable(data, index),
            Resource::Raster { format, data, .. } => match format {
                RasterFormat::Png => png_readable(data),
                RasterFormat::Jpg => jpeg_readable(data),
                RasterFormat::Gif => gif_readable(data),
            },
        }
    }

    /// The failure to build the resource.
    pub open spec fn failure(self) -> PdfError {
        match self {
            Resource::Font { id, .. } => PdfError::Font(id),
            Resource::Raster { id, .. } => PdfError::Image(id),
        }
    }

    /// The resources built once this one is.
    pub open spec fn added_to(self, known: Known) -> Known {
        match self {
            Resource::Font { id, .. } => Known { fonts: known.fonts.insert(id), ..known },
            Resource::Raster { id, .. } => Known { images: known.images.insert(id), ..known },
        }
    }
}

/// The use of one resource: one that is known is not built again; one that
/// is not known is built, or fails.
pub open spec fn resolve_one(known: Known, resource: Resource) -> Resolution {
    if resource.known_in(known) {
        Resolution { known, failure: None }
    } else if resource.readable() {
        Resolution { known: resource.added_to(known), failure: None }
    } else {
        Resolution { known, failure: Some(resource.failure()) }
    }
}

/// The use of a run of resources in order, up to the first failure.
pub open spec fn resolve(known: Known, uses: Seq<Resource>) -> Resolution
    decreases uses.len(),
{
    if uses.len() == 0 {
        Resolution { known, failure: None }
    } else {
        let before = resolve(known, uses.drop_last());
        if before.failure is Some {
            before
        } else {
            resolve_one(before.known, uses.last())
        }
    }
}

/// Using two runs of resources one after the other is using the first and,
/// unless that fails, the second from where the first ended.
pub proof fn lemma_resolve_concat(known: Known, a: Seq<Resource>, b: Seq<Resource>)
    ensures
        resolve(known, a + b) == if resolve(known, a).failure is Some {
            resolve(known, a)
        } else {
            resolve(resolve(known, a).known, b)
        },
    decreases b.len(),
{
    if b.len() == 0 {
        assert(a + b =~= a);
    } else {
        lemma_resolve_concat(known, a, b.drop_last());
        assert((a + b).drop_last() =~= a + b.drop_last());
        assert((a + b).last() == b.last());
    }
}

/// Using a single resource.
pub proof fn lemma_resolve_single(known: Known, resource: Resource)
    ensures
        resolve(known, seq![resource]) == resolve_one(known, resource),
{
    let single = seq![resource];
    assert(single.drop_last() =~= Seq::<Resource>::empty());
    assert(single.last() == resource);
    assert(resolve(known, single.drop_last()).failure is None);
}

/// The resources that the PDF writer is asked to build when a run of
/// resources is used: those that are not known when their turn comes, up to
/// and with the first that fails.
pub open spec fn attempts(known: Known, uses: Seq<Resource>) -> Seq<Resource>
    decreases uses.len(),
{
    if uses.len() == 0 {
        Seq::empty()
    } else {
        let before = resolve(known, uses.drop_last());
        let earlier = attempts(known, uses.drop_last());
        if before.failure is None && !uses.last().known_in(before.known) {
            earlier.push(uses.last())
        } else {
            earlier
        }
    }
}

/// Two resources are the same where both are fonts or both are raster
/// images, of one identity.
pub open spec fn same_resource(a: Resource, b: Resource) -> bool {
    match (a, b) {
        (Resource::Font { id: x, .. }, Resource::Font { id: y, .. }) => x == y,
        (Resource::Raster { id: x, .. }, Resource::Raster { id: y, .. }) => x == y,
        _ => false,
    }
}

/// While nothing fails, what was known stays known, every resource that was
/// attempted is known, and none that was attempted was known at the start.
pub proof fn lemma_attempts_known(known: Known, uses: Seq<Resource>)
    ensures
        forall|i: int|
            0 <= i < attempts(known, uses).len() ==> !(#[trigger] attempts(known, uses)[i])
                .known_in(known),
        resolve(known, uses).failure is None ==> forall|i: int|
            0 <= i < attempts(known, uses).len() ==> (#[trigger] attempts(
                known,
                uses,
            )[i]).known_in(resolve(known, uses).known),
        forall|r: Resource| r.known_in(known) ==> r.known_in(resolve(known, uses).known),
        resolve(known, uses).failure is None ==> forall|i: int|
            0 <= i < uses.len() ==> (#[trigger] uses[i]).known_in(resolve(known, uses).known),
    decreases uses.len(),
{
    if uses.len() > 0 {
        lemma_attempts_known(known, uses.drop_last());
        let before = resolve(known, uses.drop_last());
        let after = resolve(known, uses);
        let earlier = attempts(known, uses.drop_last());
        let all = attempts(known, uses);
        assert forall|r: Resource| r.known_in(before.known) implies r.known_in(after.known) by {}
        assert forall|i: int| 0 <= i < all.len() implies !(#[trigger] all[i]).known_in(known) by {
            if i < earlier.len() {
                assert(all[i] == earlier[i]);
            } else {
                assert(all[i] == uses.last());
                assert(!uses.last().known_in(before.known));
            }
        }
        if after.failure is None {
            assert forall|i: int| 0 <= i < all.len() implies (#[trigger] all[i]).known_in(
                after.known,
            ) by {
                if i < earlier.len() {
                    assert(all[i] == earlier[i]);
                    assert(earlier[i].known_in(before.known));
                } else {
                    assert(all[i] == uses.last());
                }
            }
            assert forall|i: int| 0 <= i < uses.len() implies (#[trigger] uses[i]).known_in(
                after.known,
            ) by {
                if i < uses.len() - 1 {
                    assert(uses[i] == uses.drop_last()[i]);
                    assert(uses.drop_last()[i].known_in(before.known));
                }
            }
        }
    }
}

/// Every resource is built at most once, however often it is used: no two
/// of the resources that the PDF writer is asked to build are the same, and
/// none of them was known before.
pub proof fn law_built_once(known: Known, uses: Seq<Resource>)
    ensures
        forall|i: int, j: int|
            0 <= i < j < attempts(known, uses).len() ==> !same_resource(
                #[trigger] attempts(known, uses)[i],
                #[trigger] attempts(known, uses)[j],
            ),
        forall|i: int|
            0 <= i < attempts(known, uses).len() ==> !(#[trigger] attempts(known, uses)[i])
                .known_in(known),
    decreases uses.len(),
{
    lemma_attempts_known(known, uses);
    if uses.len() > 0 {
        law_built_once(known, uses.drop_last());
        lemma_attempts_known(known, uses.drop_last());
        let before = resolve(known, uses.drop_last());
        let earlier = attempts(known, uses.drop_last());
        let all = attempts(known, uses);
        assert forall|i: int, j: int| 0 <= i < j < all.len() implies !same_resource(
            #[trigger] all[i],
            #[trigger] all[j],
        ) by {
            if j < earlier.len() {
                assert(all[i] == earlier[i] && all[j] == earlier[j]);
            } else {
                assert(all[i] == earlier[i]);
                assert(earlier[i].known_in(before.known));
                assert(!all[j].known_in(before.known));
            }
        }
    }
}

/// A resource that is known is not built again: using it changes nothing
/// and cannot fail, whatever its bytes.
pub proof fn law_known_is_reused(known: Known, resource: Resource)
    requires
        resource.known_in(known),
    ensures
        resolve_one(known, resource) == (Resolution { known, failure: None }),
        attempts(known, seq![resource]) == Seq::<Resource>::empty(),
{
    assert(seq![resource].drop_last() =~= Seq::<Resource>::empty());
    assert(attempts(known, seq![resource].drop_last()) == Seq::<Resource>::empty());
    assert(resolve(known, seq![resource].drop_last()).known == known);
}

/// The fonts and raster images that were built for the document, by the
/// identity of what they were built from.
pub struct GlobalContext {
    pub fonts: HashMap<u64, krilla::text::Font>,
    pub images: HashMap<u64, krilla::image::Image>,
}

impl View for GlobalContext {
    type V = Known;

    open spec fn view(&self) -> Known {
        Known { fonts: self.fonts@.dom(), images: self.images@.dom() }
    }
}

impl GlobalContext {
    /// Creates a context without resources.
    pub fn new() -> (gc: GlobalContext)
        ensures
            gc@.fonts == Set::<u64>::empty(),
            gc@.images == Set::<u64>::empty(),
    {
        let gc = GlobalContext { fonts: HashMap::new(), images: HashMap::new() };
        proof {
            assert(gc@.fonts =~= Set::<u64>::empty());
            assert(gc@.images =~= Set::<u64>::empty());
        }
        gc
    }

    /// Stores a font that was built, or fails where none was.
    pub fn font_built(&mut self, font: &Typeface, built: Option<krilla::text::Font>) -> (r: Result<
        u64,
        PdfError,
    >)
        ensures
            match built {
                Some(handle) => {
                    &&& r == Ok::<u64, PdfError>(font.id)
                    &&& final(self).fonts@ == old(self).fonts@.insert(font.id, handle)
                },
                None => {
                    &&& r == Err::<u64, PdfError>(PdfError::Font(font.id))
                    &&& final(self).fonts@ == old(self).fonts@
                },
            },
            final(self).images@ == old(self).images@,
    {
        match built {
            Some(handle) => {
                self.fonts.insert(font.id, handle);
                Ok(font.id)
            },
            None => Err(PdfError::Font(font.id)),
        }
    }

    /// Stores a raster image that was built, or fails where none was.
    pub fn raster_built(
        &mut self,
        raster: &RasterImage,
        built: Result<krilla::image::Image, String>,
    ) -> (r: Result<u64, PdfError>)
        ensures
            match built {
                Ok(handle) => {
                    &&& r == Ok::<u64, PdfError>(raster.id)
                    &&& final(self).images@ == old(self).images@.insert(raster.id, handle)
                },
                Err(_) => {
                    &&& r == Err::<u64, PdfError>(PdfError::Image(raster.id))
                    &&& final(self).images@ == old(self).images@
                },
            },
            final(self).fonts@ == old(self).fonts@,
    {
        match built {
            Ok(handle) => {
                self.images.insert(raster.id, handle);
                Ok(raster.id)
            },
            Err(_) => Err(PdfError::Image(raster.id)),
        }
    }

    /// Gives the key of the font as the PDF writer holds it. A font that is
    /// not stored yet is built from its bytes and the index of its face, and
    /// stored; one that is stored is not built again. Fails where the bytes
    /// are not a readable font.
    pub fn font_or_intern(&mut self, font: &Typeface) -> (r: Result<u64, PdfError>)
        ensures
            final(self)@ == resolve_one(old(self)@, Resource::of_font(*font)).known,
            match r {
                Ok(key) => key == font.id && final(self).fonts@.contains_key(key) && resolve_one(
                    old(self)@,
                    Resource::of_font(*font),
                ).failure is None,
                Err(e) => resolve_one(old(self)@, Resource::of_font(*font)).failure == Some(e),
            },
            old(self).fonts@.contains_key(font.id) ==> final(self).fonts@ == old(self).fonts@,
            final(self).fonts@.remove(font.id) == old(self).fonts@.remove(font.id),
            final(self).images@ == old(self).images@,
    {
        if self.fonts.contains_key(&font.id) {
            Ok(font.id)
        } else {
            let built = build_font(&font.data, font.index);
            let r = self.font_built(font, built);
            proof {
                assert(self.fonts@.remove(font.id) =~= old(self).fonts@.remove(font.id));
                if built is Some {
                    assert(self@.fonts =~= old(self)@.fonts.insert(font.id));
                }
            }
            r
        }
    }

    /// Gives the key of the raster image as the PDF writer holds it. An
    /// image that is not stored yet is decoded by its format and stored; one
    /// that is stored is not decoded again. Fails where the bytes cannot be
    /// decoded.
    pub fn raster_or_decode(&mut self, raster: &RasterImage) -> (r: Result<u64, PdfError>)
        ensures
            final(self)@ == resolve_one(old(self)@, Resource::of_raster(*raster)).known,
            match r {
                Ok(key) => key == raster.id && final(self).images@.contains_key(key)
                    && resolve_one(old(self)@, Resource::of_raster(*raster)).failure is None,
                Err(e) => resolve_one(old(self)@, Resource::of_raster(*raster)).failure == Some(e),
            },
            old(self).images@.contains_key(raster.id) ==> final(self).images@ == old(self).images@,
            final(self).images@.submap_of(old(self).images@) || final(self).images@.remove(
                raster.id,
            ) == old(self).images@,
            final(self).fonts@ == old(self).fonts@,
    {
        if self.images.contains_key(&raster.id) {
            Ok(raster.id)
        } else {
            let built = match raster.format {
                RasterFormat::Png => build_png(&raster.data, raster.interpolate),
                RasterFormat::Jpg => build_jpeg(&raster.data, raster.interpolate),
                RasterFormat::Gif => build_gif(&raster.data, raster.interpolate),
            };
            let r = self.raster_built(raster, built);
            proof {
                assert(self.images@.remove(raster.id) =~= old(self).images@.remove(raster.id));
                if built is Ok {
                    assert(self@.images =~= old(self)@.images.insert(raster.id));
                }
            }
            r
        }
    }
}

} // verus!
