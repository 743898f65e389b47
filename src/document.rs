use vstd::prelude::*;

use crate::docx::{archive_member_text, body_part, document_text, read_docx_text};
use crate::extract::ExtractError;
use crate::filetype::{extension_of, lower_of, SupportedFileType};
use crate::pdf::{pdf_loads, pdf_text, read_pdf_text};

verus! {

/// A point in time as seconds and nanoseconds since the Unix epoch.
#[derive(Debug, Clone, Copy, PartialEq, Eq, Structural)]
pub struct Timestamp {
    pub secs: u64,
    pub nanos: u32,
}

/// A file found by the directory walk, with the metadata read at discovery.
#[derive(Debug, Clone)]
pub struct Candidate {
    /// The path as the walk produced it.
    pub path: String,
    pub size: u64,
    pub created: Option<Timestamp>,
    pub modified: Option<Timestamp>,
}

/// The record submitted to the search index for one document.
#[derive(Debug, Clone)]
pub struct SearchDocument {
    /// Lowercase hex MD5 digest of `filename`.
    pub id: String,
    pub filename: String,
    /// `file://` locator of the absolute path, or `file:///unknown`.
    pub url: String,
    pub content: Option<String>,
    pub created: Option<Timestamp>,
    pub modified: Option<Timestamp>,
    pub size: Option<u64>,
    /// Lowercased extension of the file, or `unknown`.
    pub filetype: Option<String>,
}

/// What a `SearchDocument` holds, with its strings as character sequences.
pub ghost struct DocumentModel {
    pub id: Seq<char>,
    pub filename: Seq<char>,
    pub url: Seq<char>,
    pub content: Option<Seq<char>>,
    pub created: Option<Timestamp>,
    pub modified: Option<Timestamp>,
    pub size: Option<u64>,
    pub filetype: Option<Seq<char>>,
}

pub open spec fn opt_string(o: Option<String>) -> Option<Seq<char>> {
    match o {
        Some(s) => Some(s@),
        None => None,
    }
}

impl View for SearchDocument {
    type V = DocumentModel;

    open spec fn view(&self) -> DocumentModel {
        DocumentModel {
            id: self.id@,
            filename: self.filename@,
            url: self.url@,
            content: opt_string(self.content),
            created: self.created,
            modified: self.modified,
            size: self.size,
            filetype: opt_string(self.filetype),
        }
    }
}

/// Lowercase hex rendering of the MD5 digest of the UTF-8 bytes of `s`.
pub uninterp spec fn md5_hex(s: Seq<char>) -> Seq<char>;

/// The `file://` URL of an absolute path, or `None` where there is none.
pub uninterp spec fn file_url(path: Seq<char>) -> Option<Seq<char>>;

pub open spec fn is_lower_hex_digit(c: char) -> bool {
    ('0' <= c <= '9') || ('a' <= c <= 'f')
}

/// Relies on `md5::compute` and the digest's `LowerHex` format, which writes
/// each of the 16 bytes as two lowercase hex digits.
#[verifier::external_body]
fn digest_hex(s: &str) -> (r: String)
    ensures
        r@ == md5_hex(s@),
        r@.len() == 32,
        forall|i: int| 0 <= i < r@.len() ==> is_lower_hex_digit(#[trigger] r@[i]),
{
    format!("{:x}", md5::compute(s))
}

/// Relies on `url::Url::from_file_path`: fails on a path that is not absolute,
/// and otherwise gives a URL whose serialisation starts with `file://`.
#[verifier::external_body]
fn url_from_file_path(path: &str) -> (r: Option<String>)
    ensures
        r is Some <==> file_url(path@) is Some,
        r is Some ==> file_url(path@) == Some(r->0@),
        r is Some ==> r->0@.len() >= 7 && r->0@.subrange(0, 7) == "file://"@,
{
    url::Url::from_file_path(path).ok().map(String::from)
}

/// The identity of the record for a file: a digest of its name alone.
pub open spec fn document_id(filename: Seq<char>) -> Seq<char> {
    md5_hex(filename)
}

pub open spec fn url_for(full_path: Seq<char>) -> Seq<char> {
    match file_url(full_path) {
        Some(u) => u,
        None => "file:///unknown"@,
    }
}

pub open spec fn filetype_for(path: Seq<char>) -> Seq<char> {
    match extension_of(path) {
        Some(e) => lower_of(e),
        None => "unknown"@,
    }
}

/// The record assembled for `c`, found at the absolute path `full_path`, whose
/// extracted text is `text`.
pub open spec fn record_of(c: Candidate, full_path: Seq<char>, text: Seq<char>) -> DocumentModel {
    DocumentModel {
        id: document_id(c.path@),
        filename: c.path@,
        url: url_for(full_path),
        content: Some(text),
        created: c.created,
        modified: c.modified,
        size: Some(c.size),
        filetype: Some(filetype_for(c.path@)),
    }
}

/// The text extracted from the bytes of a file of type `doctype`, or `None`
/// when its extractor fails or the type has none.
pub open spec fn extracted(doctype: SupportedFileType, bytes: Seq<u8>) -> Option<Seq<char>> {
    match doctype {
        SupportedFileType::Docx => match archive_member_text(bytes, body_part()) {
            Some(xml) => Some(document_text(xml)),
            None => None,
        },
        SupportedFileType::Pdf => pdf_text(bytes),
        SupportedFileType::Shouldneverhappen => None,
    }
}

/// Runs the extractor that matches `doctype` on the file's bytes.
pub fn extract_text(doctype: SupportedFileType, bytes: &[u8]) -> (r: Result<String, ExtractError>)
    ensures
        r is Ok <==> extracted(doctype, bytes@) is Some,
        r is Ok ==> r->Ok_0@ == extracted(doctype, bytes@)->0,
        doctype == SupportedFileType::Shouldneverhappen ==> r == Err::<String, ExtractError>(
            ExtractError::Unsupported,
        ),
        doctype == SupportedFileType::Docx && r is Err ==> r->Err_0 == ExtractError::MissingBody,
        doctype == SupportedFileType::Pdf ==> (r == Err::<String, ExtractError>(
            ExtractError::MalformedPdf,
        ) <==> !pdf_loads(bytes@)),
{
    match doctype {
        SupportedFileType::Pdf => read_pdf_text(bytes),
        SupportedFileType::Docx => read_docx_text(bytes),
        SupportedFileType::Shouldneverhappen => Err(ExtractError::Unsupported),
    }
}

/// The lowercased extension of `path`, or `unknown` when it has none.
fn extension_or_unknown(path: &str) -> (r: String)
    ensures
        r@ == filetype_for(path@),
{
    proof {
        reveal_strlit("unknown");
    }
    match crate::filetype::path_extension(path) {
        Some(e) => crate::filetype::lowercase(e.as_str()),
        None => "unknown".to_string(),
    }
}

/// Builds the record for `candidate` from the outcome of its extraction;
/// `None` when extraction failed.
pub fn assemble(candidate: &Candidate, full_path: &str, outcome: Result<String, ExtractError>) -> (r:
    Option<SearchDocument>)
    ensures
        r is Some <==> outcome is Ok,
        r is Some ==> r->0@ == record_of(*candidate, full_path@, outcome->Ok_0@),
        r is Some ==> r->0@.id.len() == 32,
        r is Some ==> forall|i: int| 0 <= i < 32 ==> is_lower_hex_digit(#[trigger] r->0@.id[i]),
{
    proof {
        reveal_strlit("file:///unknown");
    }
    let content = match outcome {
        Ok(t) => t,
        Err(_) => {
            return None;
        },
    };
    let url = match url_from_file_path(full_path) {
        Some(u) => u,
        None => "file:///unknown".to_string(),
    };
    let doc = SearchDocument {
        id: digest_hex(candidate.path.as_str()),
        filename: candidate.path.clone(),
        url,
        content: Some(content),
        created: candidate.created,
        modified: candidate.modified,
        size: Some(candidate.size),
        filetype: Some(extension_or_unknown(candidate.path.as_str())),
    };
    Some(doc)
}

/// Processes one candidate of detected type `doctype`: unsupported files are
/// dropped at once; otherwise the text is extracted from `bytes` (`None` when
/// the file could not be read) and the record assembled.
pub fn process_file(candidate: &Candidate, doctype: SupportedFileType, bytes: Option<&[u8]>, full_path: &str) -> (r:
    Option<SearchDocument>)
    ensures
        r is Some <==> bytes is Some && extracted(doctype, bytes->0@) is Some,
        r is Some ==> r->0@ == record_of(*candidate, full_path@, extracted(doctype, bytes->0@)->0),
        r is Some ==> r->0@.id.len() == 32,
        r is Some ==> forall|i: int| 0 <= i < 32 ==> is_lower_hex_digit(#[trigger] r->0@.id[i]),
        doctype == SupportedFileType::Shouldneverhappen ==> r is None,
{
    if doctype == SupportedFileType::Shouldneverhappen {
        return None;
    }
    let b = match bytes {
        Some(b) => b,
        None => {
            return None;
        },
    };
    let text = extract_text(doctype, b);
    assemble(candidate, full_path, text)
}

/// The identity of a record depends on the file's name alone: two records
/// assembled for files of one name agree on `id`, whatever the text, paths or
/// metadata.
pub proof fn law_identity_by_name(
    c1: Candidate,
    c2: Candidate,
    full1: Seq<char>,
    full2: Seq<char>,
    text1: Seq<char>,
    text2: Seq<char>,
)
    requires
        c1.path@ == c2.path@,
    ensures
        record_of(c1, full1, text1).id == record_of(c2, full2, text2).id,
{
}

} // verus!
