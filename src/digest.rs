use vstd::prelude::*;

verus! {

/// The lowercase hexadecimal SHA-256 digest of the UTF-8 encoding of `s`.
pub uninterp spec fn sha256_hex(s: Seq<char>) -> Seq<char>;

/// Relies on `sha256::digest`: the lowercase hex digest of the input's
/// UTF-8 bytes, which depends on those bytes alone: two hex digits for each
/// of the 32 bytes of the digest.
#[verifier::external_body]
pub(crate) fn sha256_digest(s: &str) -> (r: String)
    ensures
        r@ == sha256_hex(s@),
        r@.len() == 64,
{
    sha256::digest(s)
}

} // verus!
