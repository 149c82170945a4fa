use vstd::prelude::*;

use base64::Engine;

verus! {

/// What the standard no-padding base64 encoding of a string's bytes is: a
/// pure function of the characters of the input.
pub uninterp spec fn base64_of(s: Seq<char>) -> Seq<char>;

/// Relies on base64's `STANDARD_NO_PAD` engine through `Engine::encode`: the
/// encoding depends on the input bytes alone, hence on the characters of
/// `s`.  `encode` panics only when the encoded length overflows `usize`; the
/// length bound keeps the byte length far below that.
#[verifier::external_body]
pub fn string_to_base64(s: &String) -> (r: String)
    requires
        s@.len() <= usize::MAX / 16,
    ensures
        r@ == base64_of(s@),
{
    base64::engine::general_purpose::STANDARD_NO_PAD.encode(s.as_bytes())
}

} // verus!
