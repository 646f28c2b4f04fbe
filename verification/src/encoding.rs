//! Base64 text, through the `base64` crate. Nothing in this file is
//! proved: the function states what the library assumes of the call it makes.

use base64::Engine;
use vstd::prelude::*;

verus! {

/// The standard base64 text, with padding, of `bytes`: what the `STANDARD`
/// engine's `encode` returns.
pub uninterp spec fn base64_text(bytes: Seq<u8>) -> Seq<char>;

/// Whether the base64 text of `len` bytes has a length that a string can
/// have.
pub open spec fn base64_fits(len: nat) -> bool {
    len / 3 * 4 + 4 <= isize::MAX
}

/// Calls `Engine::encode` on the `STANDARD` engine. Assumed: the text is a
/// function of the bytes alone. The requirement keeps the length of the
/// text, four characters for every three bytes begun, within what a
/// string can hold.
#[verifier::external_body]
pub(crate) fn base64_encode(bytes: &Vec<u8>) -> (r: String)
    requires
        base64_fits(bytes@.len()),
    ensures
        r@ == base64_text(bytes@),
{
    base64::engine::general_purpose::STANDARD.encode(bytes)
}

} // verus!
