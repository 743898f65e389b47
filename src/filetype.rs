use vstd::prelude::*;

use crate::text::same_text;

verus! {

/// The document types the indexer can extract text from.
#[derive(Debug, Clone, Copy, PartialEq, Eq, Structural)]
pub enum SupportedFileType {
    Pdf,
    Docx,
    /// Anything else: unreadable, unrecognised, or a type without an extractor.
    Shouldneverhappen,
}

pub open spec fn docx_mime() -> Seq<char> {
    "application/vnd.openxmlformats-officedocument.wordprocessingml.document"@
}

pub open spec fn pdf_mime() -> Seq<char> {
    "application/pdf"@
}

pub open spec fn zip_mime() -> Seq<char> {
    "application/zip"@
}

/// The MIME type that content detection assigns to the leading bytes `head`,
/// or `None` when no signature is recognised.
pub uninterp spec fn sniffed_mime(head: Seq<u8>) -> Option<Seq<char>>;

/// The extension of the last component of `path`, as `std::path::Path` reads it.
pub uninterp spec fn extension_of(path: Seq<char>) -> Option<Seq<char>>;

/// The lowercase form of `s`, by Unicode's case mapping.
pub uninterp spec fn lower_of(s: Seq<char>) -> Seq<char>;

/// Relies on `infer::get` and `infer::Type::mime_type`: magic-byte detection,
/// a function of the bytes alone.
#[verifier::external_body]
fn sniff_mime(head: &[u8]) -> (r: Option<String>)
    ensures
        r is Some <==> sniffed_mime(head@) is Some,
        r is Some ==> sniffed_mime(head@) == Some(r->0@),
{
    infer::get(head).map(|t| t.mime_type().to_string())
}

/// Relies on std's `Path::extension`: the text after the last `.` of the file
/// name, `None` when there is no such dot or the name starts with its only dot.
#[verifier::external_body]
pub(crate) fn path_extension(path: &str) -> (r: Option<String>)
    ensures
        r is Some <==> extension_of(path@) is Some,
        r is Some ==> extension_of(path@) == Some(r->0@),
{
    std::path::Path::new(path).extension().map(|e| e.to_string_lossy().to_string())
}

/// Relies on std's `str::to_lowercase`, which depends on the characters alone.
#[verifier::external_body]
pub(crate) fn lowercase(s: &str) -> (r: String)
    ensures
        r@ == lower_of(s@),
{
    s.to_lowercase()
}

/// The type given by a detected MIME type and the file's lowercased extension:
/// content decides, and the extension only tells a DOCX from a bare zip archive.
pub open spec fn type_for(mime: Option<Seq<char>>, ext: Option<Seq<char>>) -> SupportedFileType {
    match mime {
        None => SupportedFileType::Shouldneverhappen,
        Some(m) => if m == docx_mime() {
            SupportedFileType::Docx
        } else if m == pdf_mime() {
            SupportedFileType::Pdf
        } else if m == zip_mime() {
            if ext == Some("docx"@) {
                SupportedFileType::Docx
            } else {
                SupportedFileType::Shouldneverhappen
            }
        } else {
            SupportedFileType::Shouldneverhappen
        },
    }
}

pub open spec fn opt_chars(o: Option<&str>) -> Option<Seq<char>> {
    match o {
        Some(s) => Some(s@),
        None => None,
    }
}

/// The lowercased extension of `path`.
pub open spec fn lowered_extension(path: Seq<char>) -> Option<Seq<char>> {
    match extension_of(path) {
        Some(e) => Some(lower_of(e)),
        None => None,
    }
}

/// At most the first 512 bytes of `h`: all that classification looks at.
pub open spec fn first_512(h: Seq<u8>) -> Seq<u8> {
    if h.len() <= 512 {
        h
    } else {
        h.subrange(0, 512)
    }
}

/// The type of the file at `path` whose first bytes are `head`; `None` stands
/// for a file that could not be opened or read. Only the first 512 bytes count.
pub open spec fn classification(path: Seq<char>, head: Option<Seq<u8>>) -> SupportedFileType {
    match head {
        Some(h) => type_for(sniffed_mime(first_512(h)), lowered_extension(path)),
        None => SupportedFileType::Shouldneverhappen,
    }
}

/// Decides the type from a detected MIME type and a lowercased extension.
pub fn file_type_for(mime: Option<&str>, ext: Option<&str>) -> (r: SupportedFileType)
    ensures
        r == type_for(opt_chars(mime), opt_chars(ext)),
{
    proof {
        reveal_strlit("docx");
    }
    match mime {
        None => SupportedFileType::Shouldneverhappen,
        Some(m) => {
            if same_text(m, "application/vnd.openxmlformats-officedocument.wordprocessingml.document") {
                SupportedFileType::Docx
            } else if same_text(m, "application/pdf") {
                SupportedFileType::Pdf
            } else if same_text(m, "application/zip") {
                let is_docx = match ext {
                    Some(e) => same_text(e, "docx"),
                    None => false,
                };
                if is_docx {
                    SupportedFileType::Docx
                } else {
                    SupportedFileType::Shouldneverhappen
                }
            } else {
                SupportedFileType::Shouldneverhappen
            }
        },
    }
}

/// Classifies the file at `path` by the first 512 bytes of `head`, or `None`
/// when the file could not be opened or read.
pub fn get_file_type(path: &str, head: Option<&[u8]>) -> (r: SupportedFileType)
    ensures
        r == classification(path@, (match head {
            Some(h) => Some(h@),
            None => None,
        })),
{
    let h = match head {
        Some(h) => h,
        None => {
            return SupportedFileType::Shouldneverhappen;
        },
    };
    let cut = if h.len() <= 512 {
        h
    } else {
        vstd::slice::slice_subrange(h, 0, 512)
    };
    proof {
        assert(cut@ == first_512(h@));
    }
    let mime = sniff_mime(cut);
    let ext = match path_extension(path) {
        Some(e) => Some(lowercase(e.as_str())),
        None => None,
    };
    let m = match &mime {
        Some(s) => Some(s.as_str()),
        None => None,
    };
    let e = match &ext {
        Some(s) => Some(s.as_str()),
        None => None,
    };
    file_type_for(m, e)
}

/// Content detected as PDF is classified `Pdf`, whatever the file is called.
pub proof fn law_pdf_by_content(path: Seq<char>, other: Seq<char>, head: Seq<u8>)
    requires
        sniffed_mime(first_512(head)) == Some(pdf_mime()),
    ensures
        classification(path, Some(head)) == SupportedFileType::Pdf,
        classification(other, Some(head)) == classification(path, Some(head)),
{
    reveal_strlit("application/pdf");
    reveal_strlit("application/vnd.openxmlformats-officedocument.wordprocessingml.document");
    assert(pdf_mime().len() != docx_mime().len());
}

/// Content detected as a bare zip archive is `Docx` exactly when the
/// extension, lowercased, is `docx`, and unsupported otherwise.
pub proof fn law_zip_by_extension(path: Seq<char>, head: Seq<u8>)
    requires
        sniffed_mime(first_512(head)) == Some(zip_mime()),
    ensures
        classification(path, Some(head)) == SupportedFileType::Docx <==> lowered_extension(path)
            == Some("docx"@),
        classification(path, Some(head)) != SupportedFileType::Pdf,
{
    reveal_strlit("application/zip");
    reveal_strlit("application/pdf");
    reveal_strlit("application/vnd.openxmlformats-officedocument.wordprocessingml.document");
    assert(zip_mime()[12] != pdf_mime()[12]);
    assert(zip_mime().len() != docx_mime().len());
}

/// A file that cannot be read, or whose content is not recognised as PDF,
/// DOCX or zip, is unsupported.
pub proof fn law_unrecognised_unsupported(path: Seq<char>, head: Option<Seq<u8>>)
    requires
        head is Some ==> sniffed_mime(first_512(head->0)) is None || ({
            let m = sniffed_mime(first_512(head->0))->0;
            m != pdf_mime() && m != docx_mime() && m != zip_mime()
        }),
    ensures
        classification(path, head) == SupportedFileType::Shouldneverhappen,
{
}

} // verus!
