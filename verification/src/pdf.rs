use vstd::prelude::*;

use hayro::hayro_syntax::{LoadPdfError, Pdf};

use crate::errors::RenderError;

verus! {

/// hayro's parsed PDF document, carried through opaquely.
#[verifier::external_type_specification]
#[verifier::external_body]
pub struct ExPdf(hayro::hayro_syntax::Pdf);

/// The error hayro gives for a document it cannot read, carried through
/// opaquely.
#[verifier::external_type_specification]
#[verifier::external_body]
pub struct ExLoadPdfError(hayro::hayro_syntax::LoadPdfError);

/// Whether hayro's PDF reader accepts these bytes as a document.
pub uninterp spec fn pdf_loads(bytes: Seq<u8>) -> bool;

/// How many pages hayro's PDF reader finds in the document these bytes hold.
pub uninterp spec fn pdf_page_count(bytes: Seq<u8>) -> nat;

/// Calls `hayro_syntax::Pdf::new` on the bytes (with the empty password) and
/// gives the document with the length of its page list, which the reader
/// builds while reading. The contract names whether reading succeeds
/// `pdf_loads` and the page count `pdf_page_count`, both of the bytes;
/// nothing more is claimed of the parsed document.
#[verifier::external_body]
fn read_pdf(bytes: Vec<u8>) -> (r: Result<(Pdf, usize), LoadPdfError>)
    ensures
        r is Ok == pdf_loads(bytes@),
        r matches Ok((_, pages)) ==> pages == pdf_page_count(bytes@),
{
    match Pdf::new(std::sync::Arc::new(bytes)) {
        Ok(pdf) => {
            let pages = pdf.pages().len();
            Ok((pdf, pages))
        },
        Err(error) => Err(error),
    }
}

/// Formats a `LoadPdfError` with its `Debug` implementation. Nothing is
/// claimed of the text.
#[verifier::external_body]
fn describe_load_error(error: &LoadPdfError) -> String {
    format!("{error:?}")
}

/// A compiled document that the PDF reader accepted, with the bytes it was
/// read from and its page count.
pub struct PdfDocument {
    pdf: Pdf,
    pages: usize,
    source: Ghost<Seq<u8>>,
}

impl PdfDocument {
    #[verifier::type_invariant]
    spec fn counted(self) -> bool {
        self.pages == pdf_page_count(self.source@)
    }

    /// The bytes the document was read from.
    pub closed spec fn source(self) -> Seq<u8> {
        self.source@
    }

    /// The number of pages.
    pub fn page_count(&self) -> (n: usize)
        ensures
            n == pdf_page_count(self.source()),
    {
        proof {
            use_type_invariant(self);
        }
        self.pages
    }

    /// The parsed document, for rasterizing its pages.
    pub fn pdf(&self) -> &Pdf {
        &self.pdf
    }
}

/// Reads a compiled document.
pub fn open_pdf(bytes: Vec<u8>) -> (r: Result<PdfDocument, RenderError>)
    ensures
        r is Ok <==> pdf_loads(bytes@),
        r matches Ok(d) ==> d.source() == bytes@,
        r is Err ==> r->Err_0 is UnreadablePdf,
{
    let ghost source = bytes@;
    match read_pdf(bytes) {
        Ok((pdf, pages)) => Ok(PdfDocument { pdf, pages, source: Ghost(source) }),
        Err(e) => Err(RenderError::UnreadablePdf(describe_load_error(&e))),
    }
}

/// Reads a compiled batch of equations and checks that it has one page per
/// equation.
pub fn open_equation_pdf(bytes: Vec<u8>, equations: usize) -> (r: Result<PdfDocument, RenderError>)
    ensures
        r is Ok <==> pdf_loads(bytes@) && pdf_page_count(bytes@) == equations,
        r matches Ok(d) ==> d.source() == bytes@,
        !pdf_loads(bytes@) ==> r is Err && r->Err_0 is UnreadablePdf,
        pdf_loads(bytes@) && pdf_page_count(bytes@) != equations ==> r == Err::<
            PdfDocument,
            RenderError,
        >(RenderError::PageCountMismatch),
{
    let document = open_pdf(bytes)?;
    if document.page_count() != equations {
        return Err(RenderError::PageCountMismatch);
    }
    Ok(document)
}

/// The page shown for a requested index: the last page when the request is
/// past the end; an error when there are no pages.
pub fn page_index(requested: usize, count: usize) -> (r: Result<usize, RenderError>)
    ensures
        count == 0 ==> r == Err::<usize, RenderError>(RenderError::NoPages),
        count > 0 ==> r == Ok::<usize, RenderError>(
            if requested < count {
                requested
            } else {
                (count - 1) as usize
            },
        ),
{
    if count == 0 {
        return Err(RenderError::NoPages);
    }
    if requested < count {
        Ok(requested)
    } else {
        Ok(count - 1)
    }
}

/// Picks the page of a document to rasterize for a request: the requested
/// page, or the last one when the request is past the end. Gives its index
/// and the document's page count.
pub fn select_page(document: &PdfDocument, requested: usize) -> (r: Result<(usize, usize), RenderError>)
    ensures
        r is Err <==> pdf_page_count(document.source()) == 0,
        r is Err ==> r == Err::<(usize, usize), RenderError>(RenderError::NoPages),
        r matches Ok((index, count)) ==> count == pdf_page_count(document.source()) && index == if requested
            < count {
            requested
        } else {
            (count - 1) as usize
        } && index < count,
{
    let count = document.page_count();
    let index = page_index(requested, count)?;
    Ok((index, count))
}

} // verus!
