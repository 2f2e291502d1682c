//! Unicode normalization of the names shown for audio files.

use unicode_normalization::UnicodeNormalization;
use vstd::prelude::*;

verus! {

/// The canonical composition (Unicode Normalization Form C) of a character
/// sequence, as the `unicode-normalization` crate computes it.
pub uninterp spec fn nfc_of(s: Seq<char>) -> Seq<char>;

/// Normalizes `s` to NFC with `UnicodeNormalization::nfc` of the
/// `unicode-normalization` crate and collects the characters into a
/// `String`. The contract claims only that the result is the crate's NFC of
/// the input's characters, a function of the input alone.
#[verifier::external_body]
pub(crate) fn nfc_string(s: &str) -> (normalized: String)
    ensures
        normalized@ == nfc_of(s@),
{
    s.nfc().collect::<String>()
}

} // verus!
