//! Checks whether a byte buffer, or the body fetched from a URL, is a
//! syntactically valid PDF document.
//!
//! The structural open of the PDF container is delegated to the `pdf`
//! crate; this library states exactly how its verdict is handed on:
//! parse failures of any kind collapse to `false`, while a failed fetch
//! is a distinguished [`InvalidUrl`] error, so that a caller can tell
//! "could not even inspect the content" from "inspected, not a PDF".

mod url_check;
mod validity;

pub use url_check::InvalidUrl;
pub use url_check::check_fetched_is_valid_pdf;
pub use url_check::invalid_url_message;
pub use validity::check_is_valid_pdf;
pub use validity::has_pdf_header_marker;
pub use validity::lemma_verdict_depends_on_bytes_alone;
pub use validity::pdf_container_valid;
pub use validity::pdf_magic;
