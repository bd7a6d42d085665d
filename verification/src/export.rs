//! The export of a whole document: every page is walked on a surface of its
//! own, with the resources shared among the pages.

use vstd::prelude::*;
use crate::backend::{annotations_view, depth_of, ops_view, Annotation, Surface, SurfaceOp};
use crate::context::{FrameContext, State};
use crate::document::{Page, PagedDocument};
use crate::emission::{emit_frame, Emission};
use crate::geometry::Transform;
use crate::resources::{
    lemma_resolve_concat, resolve, GlobalContext, Known, PdfError, Resolution, Resource,
};
use crate::walker::process_frame;

verus! {

/// The standard that a document is held to.
#[derive(Clone, Copy, PartialEq, Eq, Structural, Debug)]
pub enum Validator {
    /// No standard.
    Unchecked,
    PdfA1,
    PdfA2,
    PdfA3,
}

/// The version of PDF that is written.
#[derive(Clone, Copy, PartialEq, Eq, Structural, Debug)]
pub enum PdfVersion {
    Pdf14,
    Pdf15,
    Pdf16,
    Pdf17,
}

/// How a document is put into bytes.
#[derive(Clone, PartialEq, Eq, Debug)]
pub struct SerializeSettings {
    /// Whether the content of pages is compressed.
    pub compress_content_streams: bool,
    /// Whether streams that are not binary keep to seven bits.
    pub ascii_compatible: bool,
    /// Whether a packet of XMP metadata is written.
    pub xmp_metadata: bool,
    /// Whether colours of a device are given a profile.
    pub no_device_cs: bool,
    /// The profile for CMYK colours.
    pub cmyk_profile: Option<Vec<u8>>,
    /// The standard that the document is held to.
    pub validator: Validator,
    /// Whether a tree of tags may be written.
    pub enable_tagging: bool,
    /// The version of PDF that is written.
    pub pdf_version: PdfVersion,
}

/// The size of a page.
#[derive(Clone, Copy, PartialEq, Eq, Structural, Debug)]
pub struct PageSettings {
    pub width: i64,
    pub height: i64,
}

/// A page as it is handed to the PDF writer.
#[derive(Clone, PartialEq, Eq, Debug)]
pub struct PageOutput {
    pub settings: PageSettings,
    /// The calls that draw the page, in order.
    pub content: Vec<SurfaceOp>,
    /// The links of the page, in the order in which they were met.
    pub annotations: Vec<Annotation>,
}

/// A document as it is handed to the PDF writer.
pub struct Export {
    pub settings: SerializeSettings,
    /// The pages, in the order of the document.
    pub pages: Vec<PageOutput>,
    /// The fonts and raster images of the pages, each built once.
    pub resources: GlobalContext,
}

/// Why the PDF writer could not put a document into bytes.
#[verifier::external_type_specification]
#[verifier::external_body]
pub struct ExWriterError(krilla::error::KrillaError);

impl SerializeSettings {
    /// The settings of an export: compressed content, binary streams, XMP
    /// metadata, no colours of a device, no CMYK profile, no standard, no
    /// tags, PDF 1.7.
    pub open spec fn spec_is_standard(&self) -> bool {
        &&& self.compress_content_streams
        &&& !self.ascii_compatible
        &&& self.xmp_metadata
        &&& self.no_device_cs
        &&& self.cmyk_profile is None
        &&& self.validator == Validator::Unchecked
        &&& !self.enable_tagging
        &&& self.pdf_version == PdfVersion::Pdf17
    }

    /// The settings of an export.
    pub fn standard() -> (s: SerializeSettings)
        ensures
            s.spec_is_standard(),
    {
        SerializeSettings {
            compress_content_streams: true,
            no_device_cs: true,
            ascii_compatible: false,
            xmp_metadata: true,
            cmyk_profile: None,
            validator: Validator::Unchecked,
            enable_tagging: false,
            pdf_version: PdfVersion::Pdf17,
        }
    }
}

impl PageSettings {
    /// The settings of a page of the given width and height.
    pub fn new(width: i64, height: i64) -> (s: PageSettings)
        ensures
            s == (PageSettings { width, height }),
    {
        PageSettings { width, height }
    }
}

/// The state in which the frame of a page is entered: identity maps, and the
/// page as the container.
pub open spec fn page_state(page: Page) -> State {
    State::spec_new(page.frame.size, Transform::spec_identity(), Transform::spec_identity())
}

/// What a page gives out.
pub open spec fn emit_page(page: Page) -> Emission {
    emit_frame(page.frame, page.spec_fill_or_transparent(), page_state(page))
}

/// The resources that a run of pages uses, in order.
pub open spec fn document_uses(pages: Seq<Page>) -> Seq<Resource>
    decreases pages.len(),
{
    if pages.len() == 0 {
        Seq::empty()
    } else {
        document_uses(pages.drop_last()) + emit_page(pages.last()).uses
    }
}

/// The resources that are known before a document is exported: none.
pub open spec fn nothing_known() -> Known {
    Known { fonts: Set::empty(), images: Set::empty() }
}

/// `out` is the page `page`: it has the size of the page's frame, the calls
/// and the links that the page gives out, and nothing is left open on it.
pub open spec fn page_written(page: Page, out: PageOutput) -> bool {
    &&& out.settings == (PageSettings { width: page.frame.size.x, height: page.frame.size.y })
    &&& ops_view(out.content@) == emit_page(page).ops
    &&& annotations_view(out.annotations@) == emit_page(page).links
    &&& depth_of(ops_view(out.content@)) == 0
}

/// `export` is the export of `document`: it holds the pages of the document
/// in order, each as it is written, with the standard settings and with the
/// resources that the pages use.
pub open spec fn exported(document: PagedDocument, export: Export) -> bool {
    &&& export.resources@ == resolve(nothing_known(), document_uses(document.pages@)).known
    &&& export.settings.spec_is_standard()
    &&& export.pages@.len() == document.pages@.len()
    &&& forall|i: int|
        0 <= i < document.pages@.len() ==> page_written(
            document.pages@[i],
            #[trigger] export.pages@[i],
        )
}

/// Two exports of one document are the same page by page: the same sizes,
/// the same calls, the same links, and the same resources.
pub proof fn law_export_is_determined(document: PagedDocument, a: Export, b: Export)
    requires
        exported(document, a),
        exported(document, b),
    ensures
        a.pages@.len() == b.pages@.len(),
        a.resources@ == b.resources@,
        forall|i: int|
            0 <= i < a.pages@.len() ==> {
                &&& (#[trigger] a.pages@[i]).settings == b.pages@[i].settings
                &&& ops_view(a.pages@[i].content@) == ops_view(b.pages@[i].content@)
                &&& annotations_view(a.pages@[i].annotations@) == annotations_view(
                    b.pages@[i].annotations@,
                )
            },
{
    assert forall|i: int| 0 <= i < a.pages@.len() implies {
        &&& (#[trigger] a.pages@[i]).settings == b.pages@[i].settings
        &&& ops_view(a.pages@[i].content@) == ops_view(b.pages@[i].content@)
        &&& annotations_view(a.pages@[i].annotations@) == annotations_view(
            b.pages@[i].annotations@,
        )
    } by {
        assert(page_written(document.pages@[i], a.pages@[i]));
        assert(page_written(document.pages@[i], b.pages@[i]));
    }
}

/// A failure among the first `n` pages is the failure of the document.
pub proof fn lemma_document_failure_stays(pages: Seq<Page>, n: int, known: Known)
    requires
        0 <= n <= pages.len(),
        resolve(known, document_uses(pages.take(n))).failure is Some,
    ensures
        resolve(known, document_uses(pages)) == resolve(known, document_uses(pages.take(n))),
    decreases pages.len() - n,
{
    if n == pages.len() {
        assert(pages.take(n) =~= pages);
    } else {
        assert(pages.take(n + 1).drop_last() =~= pages.take(n));
        assert(pages.take(n + 1).last() == pages[n]);
        lemma_resolve_concat(known, document_uses(pages.take(n)), emit_page(pages[n]).uses);
        lemma_document_failure_stays(pages, n + 1, known);
    }
}

/// Exports a document. Every page is walked in order on a fresh surface and
/// from a fresh state, with its background; the resources are shared among
/// the pages, so that each font and each raster image is built once. The
/// export fails with the first resource that cannot be built, and only then.
pub fn pdf(document: &PagedDocument) -> (r: Result<Export, PdfError>)
    ensures
        match r {
            Ok(export) => {
                &&& resolve(nothing_known(), document_uses(document.pages@)).failure is None
                &&& exported(*document, export)
            },
            Err(failure) => resolve(nothing_known(), document_uses(document.pages@)).failure
                == Some(failure),
        },
{
    let settings = SerializeSettings::standard();
    let mut context = GlobalContext::new();
    let mut pages: Vec<PageOutput> = Vec::new();
    let mut i: usize = 0;
    proof {
        assert(context@ == nothing_known());
        assert(document.pages@.take(0) =~= Seq::<Page>::empty());
    }
    while i < document.pages.len()
        invariant
            i <= document.pages.len(),
            pages@.len() == i,
            forall|j: int| 0 <= j < i ==> page_written(document.pages@[j], #[trigger] pages@[j]),
            resolve(nothing_known(), document_uses(document.pages@.take(i as int))) == (Resolution {
                known: context@,
                failure: None,
            }),
        decreases document.pages.len() - i,
    {
        let page = &document.pages[i];
        let page_settings = PageSettings::new(page.frame.width(), page.frame.height());
        let mut surface = Surface::new();
        let mut fc = FrameContext::new(page.frame.size());
        proof {
            let all = document.pages@;
            assert(all.take(i + 1).drop_last() =~= all.take(i as int));
            assert(all.take(i + 1).last() == all[i as int]);
            lemma_resolve_concat(
                nothing_known(),
                document_uses(all.take(i as int)),
                emit_page(all[i as int]).uses,
            );
            assert(fc.top() == page_state(*page));
        }
        let walk = process_frame(
            &mut fc,
            &page.frame,
            page.fill_or_transparent(),
            &mut surface,
            &mut context,
        );
        match walk {
            Err(failure) => {
                proof {
                    lemma_document_failure_stays(document.pages@, i as int + 1, nothing_known());
                }
                return Err(failure);
            },
            Ok(_) => {},
        }
        let ghost drawn = surface@;
        let content = surface.finish();
        let out = PageOutput { settings: page_settings, content, annotations: fc.annotations };
        proof {
            assert(ops_view(out.content@) == drawn);
            assert(drawn =~= emit_page(*page).ops);
            assert(annotations_view(out.annotations@) =~= emit_page(*page).links);
            assert(page_written(*page, out));
        }
        pages.push(out);
        i += 1;
    }
    proof {
        assert(document.pages@.take(i as int) =~= document.pages@);
    }
    Ok(Export { settings, pages, resources: context })
}

/// Ends the export with what the PDF writer made of the document: its bytes,
/// or the failure to finish.
pub fn finish(outcome: Result<Vec<u8>, krilla::error::KrillaError>) -> (r: Result<
    Vec<u8>,
    PdfError,
>)
    ensures
        match outcome {
            Ok(bytes) => r == Ok::<Vec<u8>, PdfError>(bytes),
            Err(_) => r == Err::<Vec<u8>, PdfError>(PdfError::Finish),
        },
{
    match outcome {
        Ok(bytes) => Ok(bytes),
        Err(_) => Err(PdfError::Finish),
    }
}

} // verus!
