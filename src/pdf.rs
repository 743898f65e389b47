use vstd::prelude::*;

use crate::extract::ExtractError;

verus! {

#[verifier::external_type_specification]
#[verifier::external_body]
pub struct ExDocument(lopdf::Document);

#[verifier::external_type_specification]
#[verifier::external_body]
pub struct ExPdfError(lopdf::Error);

/// Whether `bytes` hold a PDF document that lopdf can load.
pub uninterp spec fn pdf_loads(bytes: Seq<u8>) -> bool;

/// Relies on `lopdf::Document::load_mem`: parses a document from memory; whether
/// it succeeds depends on the bytes alone.
#[verifier::external_body]
fn load_pdf(bytes: &[u8]) -> (r: Result<lopdf::Document, lopdf::Error>)
    ensures
        r is Ok <==> pdf_loads(bytes@),
{
    lopdf::Document::load_mem(bytes)
}

/// The text of all pages of the PDF document held in `bytes`, in page order,
/// or `None` when it cannot be loaded or its text cannot be decoded.
pub uninterp spec fn pdf_text(bytes: Seq<u8>) -> Option<Seq<char>>;

/// Relies on `lopdf::Document::load_mem`, `Document::get_pages` (whose keys
/// are the page numbers, ascending) and `Document::extract_text` on all of
/// them: the result depends on the bytes alone, and there is none for bytes
/// that do not load.
#[verifier::external_body]
fn all_pages_text(bytes: &[u8]) -> (r: Option<String>)
    ensures
        r is Some <==> pdf_text(bytes@) is Some,
        r is Some ==> pdf_text(bytes@) == Some(r->0@),
        r is Some ==> pdf_loads(bytes@),
{
    let doc = lopdf::Document::load_mem(bytes).ok()?;
    let pages: Vec<u32> = doc.get_pages().keys().cloned().collect();
    doc.extract_text(&pages).ok()
}

/// The text of every page of the PDF document held in `bytes`. Fails with
/// `MalformedPdf` exactly when the bytes cannot be loaded as a PDF, and with
/// `PdfText` when they load but the pages' text cannot be decoded.
pub fn read_pdf_text(bytes: &[u8]) -> (r: Result<String, ExtractError>)
    ensures
        r is Ok <==> pdf_text(bytes@) is Some,
        r is Ok ==> r->Ok_0@ == pdf_text(bytes@)->0,
        r == Err::<String, ExtractError>(ExtractError::MalformedPdf) <==> !pdf_loads(bytes@),
        r is Err ==> r->Err_0 == ExtractError::MalformedPdf || r->Err_0 == ExtractError::PdfText,
{
    match all_pages_text(bytes) {
        Some(text) => Ok(text),
        None => match load_pdf(bytes) {
            Ok(_) => Err(ExtractError::PdfText),
            Err(_) => Err(ExtractError::MalformedPdf),
        },
    }
}

} // verus!
