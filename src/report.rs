//! The outcome of one submission: a sanitized report page, or the failure
//! page when the generation endpoint could not be reached.
use vstd::prelude::*;
use crate::response::{extract_output_text, output_text_of, OutputItem, ResponsesResponse};
use crate::sanitize::{allowed_attributes, allowed_tags, ammonia_cleaned, sanitize_ai_html};

verus! {

/// The report shown when the response carries no text.
pub const PLACEHOLDER_REPORT: &'static str = "<p>...</p>";

/// The bilingual message of the failure page.
pub const CONNECTION_ERROR_MESSAGE: &'static str = "Error de conexión / Error de connexió";

/// The generated text of a response, or the placeholder when it has none.
pub open spec fn report_source(items: Seq<OutputItem>) -> Seq<char> {
    match output_text_of(items) {
        Some(t) => t,
        None => PLACEHOLDER_REPORT@,
    }
}

/// The sanitized report for a response.
pub open spec fn report_text(items: Seq<OutputItem>) -> Seq<char> {
    ammonia_cleaned(allowed_tags(), allowed_attributes(), report_source(items))
}

/// What is sent back for one submission.
pub enum Reply {
    /// The rendered report, with the language code for the page's own text.
    Page { report: String, lang: String },
    /// The generation endpoint could not be reached.
    Failure { message: String },
}

impl Reply {
    /// The HTTP status of the reply.
    pub fn status(&self) -> (r: u16)
        ensures
            r == (if self is Page { 200u16 } else { 500u16 }),
    {
        match self {
            Reply::Page { .. } => 200,
            Reply::Failure { .. } => 500,
        }
    }
}

/// The sanitized report for a response: its first output text, or the
/// placeholder when there is none.
pub fn report_html(resp: &ResponsesResponse) -> (r: String)
    ensures
        r@ == report_text(resp.output@),
{
    match extract_output_text(resp) {
        Some(t) => sanitize_ai_html(t.as_str()),
        None => sanitize_ai_html(PLACEHOLDER_REPORT),
    }
}

/// The reply for a submission in language `lang`, given the parsed response
/// of the generation endpoint, or `None` when the call itself failed.
pub fn reply_for(generated: Option<&ResponsesResponse>, lang: &str) -> (r: Reply)
    ensures
        match generated {
            Some(resp) => r matches Reply::Page { report, lang: l } && report@ == report_text(
                resp.output@,
            ) && l@ == lang@,
            None => r matches Reply::Failure { message } && message@ == CONNECTION_ERROR_MESSAGE@,
        },
{
    match generated {
        Some(resp) => Reply::Page { report: report_html(resp), lang: lang.to_owned() },
        None => Reply::Failure { message: CONNECTION_ERROR_MESSAGE.to_owned() },
    }
}

} // verus!
