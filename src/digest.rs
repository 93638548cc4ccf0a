//! The SHA-256 digest of a text, rendered as lowercase hexadecimal.

use vstd::prelude::*;
use crate::render::{hex_of, is_lower_hex, lemma_hex_shape, to_hex};

verus! {

/// The SHA-256 digest of the UTF-8 encoding of `s`.
pub uninterp spec fn sha256_of(s: Seq<char>) -> Seq<u8>;

/// Relies on sha2's `Sha256::digest` (the `Digest` trait of the digest crate):
/// the result depends on the input alone, and its output size is 32 bytes.
#[verifier::external_body]
fn sha256(s: &str) -> (r: Vec<u8>)
    ensures
        r@ == sha256_of(s@),
        r@.len() == 32,
{
    <sha2::Sha256 as sha2::Digest>::digest(s.as_bytes()).to_vec()
}

/// The hexadecimal digest of a text.
pub open spec fn digest_text(s: Seq<char>) -> Seq<char> {
    hex_of(sha256_of(s))
}

/// A digest text: 64 lowercase hexadecimal characters.
pub open spec fn is_digest_shaped(h: Seq<char>) -> bool {
    &&& h.len() == 64
    &&& forall|k: int| 0 <= k < h.len() ==> is_lower_hex(#[trigger] h[k])
}

/// Hashes `s` with SHA-256 and renders the digest as lowercase hexadecimal.
pub fn hex_digest(s: &str) -> (r: String)
    ensures
        r@ == digest_text(s@),
        is_digest_shaped(r@),
{
    let bytes = sha256(s);
    proof {
        lemma_hex_shape(bytes@);
    }
    to_hex(&bytes)
}

} // verus!
