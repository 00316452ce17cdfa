//! The one call into the `base64` crate.
//!
//! The SMS transport authenticates with HTTP basic authentication, whose
//! header value is the base64 rendering of `account:token`. The rendering is
//! performed by the outside crate; its result is named rather than restated,
//! and everything downstream treats it as an opaque credential.

use vstd::prelude::*;

verus! {

/// The standard (padded) base64 rendering of the UTF-8 bytes of a string.
/// Named, not defined: the value comes from the `base64` crate and is a pure
/// function of the characters alone.
pub uninterp spec fn spec_base64_of(s: Seq<char>) -> Seq<char>;

/// Relies on `base64::encode`: the standard-alphabet, padded base64 encoding
/// of the input bytes, a deterministic function of its argument; an empty
/// input encodes to the empty string.
#[verifier::external_body]
pub(crate) fn base64_encode(s: &str) -> (r: String)
    ensures
        r@ == spec_base64_of(s@),
        s@.len() == 0 ==> r@.len() == 0,
{
    base64::encode(s.as_bytes())
}

} // verus!
