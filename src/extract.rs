//! Which text extraction an attachment gets, by its extension.
use vstd::prelude::*;
use crate::text::same_str;

verus! {

/// The document formats that text is extracted from.
#[derive(PartialEq, Eq, Structural)]
pub enum DocFormat {
    /// Plain text or Markdown, read as UTF-8.
    PlainText,
    /// A word-processor XML container, whose text runs are pulled out.
    WordDoc,
    /// A PDF document, run through a text-extraction pass.
    Pdf,
    /// Anything else: no extraction is attempted, and the text is empty.
    Unsupported,
}

/// The format that a lowercased extension names.
pub open spec fn format_for(ext: Seq<char>) -> DocFormat {
    if ext == "txt"@ || ext == "md"@ {
        DocFormat::PlainText
    } else if ext == "docx"@ {
        DocFormat::WordDoc
    } else if ext == "pdf"@ {
        DocFormat::Pdf
    } else {
        DocFormat::Unsupported
    }
}

/// Picks the extraction for an extension.
pub fn format_of(extension: &str) -> (r: DocFormat)
    ensures
        r == format_for(extension@),
{
    if same_str(extension, "txt") || same_str(extension, "md") {
        DocFormat::PlainText
    } else if same_str(extension, "docx") {
        DocFormat::WordDoc
    } else if same_str(extension, "pdf") {
        DocFormat::Pdf
    } else {
        DocFormat::Unsupported
    }
}

} // verus!
