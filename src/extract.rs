use vstd::prelude::*;

verus! {

/// Why no text could be taken from a file.
#[derive(Debug, Clone, Copy, PartialEq, Eq, Structural)]
pub enum ExtractError {
    /// The bytes are no PDF document that could be loaded.
    MalformedPdf,
    /// The PDF document loaded, but the text of its pages could not be read.
    PdfText,
    /// The bytes are no zip archive with a readable `word/document.xml`.
    MissingBody,
    /// The file's detected type has no extractor.
    Unsupported,
}

} // verus!
