//! Multi-variant base64 decoding: standard, standard-no-pad, URL-safe and
//! URL-safe-no-pad decoding are attempted in that fixed order and the first
//! success wins.

use crate::error::DecodeError;
use vstd::prelude::*;

verus! {

/// What the standard-alphabet, padded base64 decoder returns for `s`,
/// `None` when it rejects `s`.
pub uninterp spec fn b64_standard(s: Seq<char>) -> Option<Seq<u8>>;

/// What the standard-alphabet, unpadded base64 decoder returns for `s`.
pub uninterp spec fn b64_standard_no_pad(s: Seq<char>) -> Option<Seq<u8>>;

/// What the URL-safe-alphabet, padded base64 decoder returns for `s`.
pub uninterp spec fn b64_url_safe(s: Seq<char>) -> Option<Seq<u8>>;

/// What the URL-safe-alphabet, unpadded base64 decoder returns for `s`.
pub uninterp spec fn b64_url_safe_no_pad(s: Seq<char>) -> Option<Seq<u8>>;

/// Relies on `base64::engine::general_purpose::STANDARD.decode`: a pure
/// function of the input text.
#[verifier::external_body]
fn decode_standard(s: &str) -> (r: Option<Vec<u8>>)
    ensures
        match r {
            Some(v) => b64_standard(s@) == Some(v@),
            None => b64_standard(s@) is None,
        },
{
    base64::Engine::decode(&base64::engine::general_purpose::STANDARD, s).ok()
}

/// Relies on `base64::engine::general_purpose::STANDARD_NO_PAD.decode`: a
/// pure function of the input text.
#[verifier::external_body]
fn decode_standard_no_pad(s: &str) -> (r: Option<Vec<u8>>)
    ensures
        match r {
            Some(v) => b64_standard_no_pad(s@) == Some(v@),
            None => b64_standard_no_pad(s@) is None,
        },
{
    base64::Engine::decode(&base64::engine::general_purpose::STANDARD_NO_PAD, s).ok()
}

/// Relies on `base64::engine::general_purpose::URL_SAFE.decode`: a pure
/// function of the input text.
#[verifier::external_body]
fn decode_url_safe(s: &str) -> (r: Option<Vec<u8>>)
    ensures
        match r {
            Some(v) => b64_url_safe(s@) == Some(v@),
            None => b64_url_safe(s@) is None,
        },
{
    base64::Engine::decode(&base64::engine::general_purpose::URL_SAFE, s).ok()
}

/// Relies on `base64::engine::general_purpose::URL_SAFE_NO_PAD.decode`: a
/// pure function of the input text.
#[verifier::external_body]
fn decode_url_safe_no_pad(s: &str) -> (r: Option<Vec<u8>>)
    ensures
        match r {
            Some(v) => b64_url_safe_no_pad(s@) == Some(v@),
            None => b64_url_safe_no_pad(s@) is None,
        },
{
    base64::Engine::decode(&base64::engine::general_purpose::URL_SAFE_NO_PAD, s).ok()
}

/// The first success among the four variants, tried in their fixed order.
pub open spec fn any_b64(s: Seq<char>) -> Option<Seq<u8>> {
    if b64_standard(s) is Some {
        b64_standard(s)
    } else if b64_standard_no_pad(s) is Some {
        b64_standard_no_pad(s)
    } else if b64_url_safe(s) is Some {
        b64_url_safe(s)
    } else {
        b64_url_safe_no_pad(s)
    }
}

/// Law: text that only the URL-safe-no-pad variant accepts still decodes,
/// to exactly that variant's bytes, the three failed attempts before it
/// notwithstanding.
pub proof fn lemma_last_variant_wins(s: Seq<char>)
    requires
        b64_standard(s) is None,
        b64_standard_no_pad(s) is None,
        b64_url_safe(s) is None,
    ensures
        any_b64(s) == b64_url_safe_no_pad(s),
{
}

/// Decodes `encoded` by the first base64 variant that accepts it, in the
/// order standard, standard-no-pad, URL-safe, URL-safe-no-pad; fails only
/// when all four reject it.
pub fn decode_any_base64(encoded: &str) -> (r: Result<Vec<u8>, DecodeError>)
    ensures
        match r {
            Ok(v) => any_b64(encoded@) == Some(v@),
            Err(e) => any_b64(encoded@) is None && e == DecodeError::NoBase64Variant,
        },
{
    if let Some(v) = decode_standard(encoded) {
        return Ok(v);
    }
    if let Some(v) = decode_standard_no_pad(encoded) {
        return Ok(v);
    }
    if let Some(v) = decode_url_safe(encoded) {
        return Ok(v);
    }
    if let Some(v) = decode_url_safe_no_pad(encoded) {
        return Ok(v);
    }
    Err(DecodeError::NoBase64Variant)
}

} // verus!
