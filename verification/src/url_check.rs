//! The URL-side check: judging the outcome of a fetch.
//!
//! Fetching itself is I/O and stays with the caller; this module takes
//! the fetch outcome — the complete response body, or nothing — and
//! turns it into the boolean verdict or the distinguished error.

use vstd::prelude::*;

use crate::validity::check_is_valid_pdf;
use crate::validity::has_pdf_header_marker;
use crate::validity::pdf_container_valid;

verus! {

/// The message that an [`InvalidUrl`] error carries for the given URL.
pub open spec fn invalid_url_message(url: Seq<char>) -> Seq<char> {
    "Invalid URL: "@ + url
}

/// The error raised when a URL could not be fetched at all — DNS
/// failure, refused connection, timeout, failed body read — as opposed
/// to content that was fetched and turned out not to be a PDF.
#[derive(Debug)]
pub struct InvalidUrl {
    /// The URL that could not be fetched.
    pub url: String,
}

impl InvalidUrl {
    /// The error message, naming the URL that could not be fetched.
    pub fn message(&self) -> (r: String)
        ensures
            r@ == invalid_url_message(self.url@),
    {
        let mut m = String::from_str("Invalid URL: ");
        m.append(self.url.as_str());
        m
    }
}

/// Judges fetched URL content. `body` is the outcome of fetching `url`:
/// the complete response body, or `None` when the fetch failed.
///
/// A failed fetch becomes an [`InvalidUrl`] error naming the URL; a
/// fetched body is judged exactly as [`check_is_valid_pdf`] judges it,
/// so unreadable content yields `Ok(false)`, never an error.
pub fn check_fetched_is_valid_pdf(url: &str, body: Option<Vec<u8>>) -> (r: Result<
    bool,
    InvalidUrl,
>)
    ensures
        body matches Some(b) ==> (r matches Ok(v) && v == pdf_container_valid(b@)),
        body matches Some(b) && !has_pdf_header_marker(b@) ==> r == Ok::<bool, InvalidUrl>(false),
        body is None ==> (r matches Err(e) && e.url@ == url@),
{
    match body {
        Some(b) => Ok(check_is_valid_pdf(b.as_slice())),
        None => Err(InvalidUrl { url: String::from_str(url) }),
    }
}

} // verus!
