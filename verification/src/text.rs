//! Identity text: case folding, trimming and comparison.

use vstd::prelude::*;
use vstd::string::StringSliceAdditionalSpecFns;
use vstd::utf8::encode_utf8_decode_utf8;

verus! {

/// The lowercase form of a text, as `str::to_lowercase` computes it.
pub uninterp spec fn lowercase_of(s: Seq<char>) -> Seq<char>;

/// The text without leading and trailing whitespace, as `str::trim` computes it.
pub uninterp spec fn trimmed_of(s: Seq<char>) -> Seq<char>;

/// An identity as the keystore files it: trimmed, then lowercased.
pub open spec fn normalized_identity(s: Seq<char>) -> Seq<char> {
    lowercase_of(trimmed_of(s))
}

/// Calls `str::to_lowercase`: the result is the lowercase form of the
/// argument, a function of its characters alone.
#[verifier::external_body]
pub(crate) fn to_lowercase(s: &str) -> (r: String)
    ensures
        r@ == lowercase_of(s@),
{
    s.to_lowercase()
}

/// Calls `str::trim`: the result is the argument without leading and
/// trailing whitespace, a function of its characters alone.
#[verifier::external_body]
pub(crate) fn trim(s: &str) -> (r: &str)
    ensures
        r@ == trimmed_of(s@),
{
    s.trim()
}

/// Trims and lowercases an identity.
pub fn normalize_identity(s: &str) -> (r: String)
    ensures
        r@ == normalized_identity(s@),
{
    to_lowercase(trim(s))
}

/// Whether two byte strings are equal.
pub fn bytes_equal(a: &[u8], b: &[u8]) -> (eq: bool)
    ensures
        eq == (a@ == b@),
{
    if a.len() != b.len() {
        return false;
    }
    let mut i: usize = 0;
    while i < a.len()
        invariant
            i <= a.len(),
            a@.len() == b@.len(),
            forall|k: int| 0 <= k < i ==> a@[k] == b@[k],
        decreases a.len() - i,
    {
        if a[i] != b[i] {
            return false;
        }
        i += 1;
    }
    assert(a@ =~= b@);
    true
}

/// Whether two texts are equal, character for character.
pub fn text_eq(a: &str, b: &str) -> (eq: bool)
    ensures
        eq == (a@ == b@),
{
    let eq = bytes_equal(a.as_bytes(), b.as_bytes());
    proof {
        // Texts with the same UTF-8 bytes are the same text.
        encode_utf8_decode_utf8(a@);
        encode_utf8_decode_utf8(b@);
    }
    eq
}

} // verus!
