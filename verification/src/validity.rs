//! The byte validator: does a byte buffer open as a PDF container?

use vstd::prelude::*;

verus! {

/// The marker `%PDF-` that opens the header of every PDF document.
pub open spec fn pdf_magic() -> Seq<u8> {
    seq![0x25u8, 0x50u8, 0x44u8, 0x46u8, 0x2du8]
}

/// Whether the header marker `%PDF-` stands complete somewhere within the
/// first 1024 bytes of `b`. A PDF container can only open when it does.
pub open spec fn has_pdf_header_marker(b: Seq<u8>) -> bool {
    exists|i: int|
        0 <= i && i + 5 <= b.len() && i + 5 <= 1024 && #[trigger] b.subrange(i, i + 5)
            == pdf_magic()
}

/// Whether the byte sequence opens as a PDF container: a recognisable
/// header, a parseable cross-reference structure and a trailer. The
/// verdict depends on the bytes alone; page content streams are not
/// inspected.
pub uninterp spec fn pdf_container_valid(b: Seq<u8>) -> bool;

/// Relies on `pdf::file::FileOptions::load` (through
/// `pdf::file::File::load_data`): opening a PDF container held in memory
/// succeeds or fails depending on the bytes alone, and fails with an
/// error whenever `Backend::locate_start_offset` finds no `%PDF-` marker
/// within the first 1024 bytes.
///
/// Trusted for its return as well: the load resolves chains of `/Parent`
/// references with no depth bound and sums file offsets unchecked, so a
/// crafted input can exhaust the stack — or panic, in builds with
/// overflow checks — inside the call instead of yielding `false`. Those
/// inputs cannot be carved out by a `requires` over the bytes (the
/// overflow case even depends on the build profile), so none is stated:
/// the contract speaks only of the calls that return.
#[verifier::external_body]
fn open_pdf_container(data: &[u8]) -> (r: bool)
    ensures
        r == pdf_container_valid(data@),
        !has_pdf_header_marker(data@) ==> !r,
{
    pdf::file::FileOptions::uncached().load(data).is_ok()
}

/// Checks that a byte buffer is a valid PDF: `true` exactly when the
/// bytes open as a PDF container. Every parse failure the parser
/// reports — malformed or missing header, corrupt cross-reference
/// table, truncated trailer, empty input — comes back as `false`,
/// never as an error. The verdict is owed on every input on which the
/// trusted parser returns at all; `open_pdf_container` names the
/// crafted inputs on which it may not.
pub fn check_is_valid_pdf(data: &[u8]) -> (r: bool)
    ensures
        r == pdf_container_valid(data@),
        !has_pdf_header_marker(data@) ==> !r,
{
    open_pdf_container(data)
}

/// Law: the verdict is a pure function of the byte content. Two byte
/// sequences that are equal always receive the identical verdict, so
/// repeated checks of the same buffer cannot disagree.
pub proof fn lemma_verdict_depends_on_bytes_alone(a: Seq<u8>, b: Seq<u8>)
    requires
        a == b,
    ensures
        pdf_container_valid(a) == pdf_container_valid(b),
{
}

} // verus!
