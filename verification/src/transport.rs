//! The transport encoding of the cookie value, behind trusted wrappers:
//! percent-encoding on the outside, standard padded base64 beneath it.
//! Both codecs are deterministic, so their results are named by
//! uninterpreted functions; the wrappers state that decoding reverses
//! encoding, which the contracts of the round-trip law build on.

use vstd::prelude::*;

verus! {

/// What percent-decoding makes of a string: `None` exactly when the
/// decoded bytes are not valid UTF-8 (malformed percent escapes are kept
/// literally by the decoder, so only UTF-8 validation can fail).
pub uninterp spec fn percent_decoded(s: Seq<char>) -> Option<Seq<char>>;

/// The percent-encoding of a string.
pub uninterp spec fn percent_encoded(s: Seq<char>) -> Seq<char>;

/// What base64 decoding (standard alphabet, padded) makes of a string:
/// `None` exactly when the input is not canonical base64.
pub uninterp spec fn base64_decoded(s: Seq<char>) -> Option<Seq<u8>>;

/// The base64 encoding (standard alphabet, padded) of a byte string.
pub uninterp spec fn base64_encoded(bytes: Seq<u8>) -> Seq<char>;

/// Relies on urlencoding::decode: reverses percent-encoding, with a result
/// that depends on the input characters alone.
#[verifier::external_body]
pub(crate) fn percent_decode(s: &str) -> (r: Option<String>)
    ensures
        (match r {
            Option::Some(t) => percent_decoded(s@) == Option::Some(t@),
            Option::None => percent_decoded(s@) is None,
        }),
{
    urlencoding::decode(s).map(|t| t.into_owned()).ok()
}

/// Relies on urlencoding::encode: percent-encodes every byte outside the
/// unreserved set, and urlencoding::decode reverses it exactly.
#[verifier::external_body]
pub(crate) fn percent_encode(s: &str) -> (r: String)
    ensures
        r@ == percent_encoded(s@),
        percent_decoded(r@) == Option::Some(s@),
{
    urlencoding::encode(s).into_owned()
}

/// Relies on base64::engine::general_purpose::STANDARD.decode: decodes
/// standard padded base64, with a result that depends on the input alone.
#[verifier::external_body]
pub(crate) fn base64_decode(s: &str) -> (r: Option<Vec<u8>>)
    ensures
        (match r {
            Option::Some(b) => base64_decoded(s@) == Option::Some(b@),
            Option::None => base64_decoded(s@) is None,
        }),
{
    base64::Engine::decode(&base64::engine::general_purpose::STANDARD, s).ok()
}

/// Relies on base64::engine::general_purpose::STANDARD.encode: produces
/// canonical padded base64, which the same engine's decode reverses.
#[verifier::external_body]
pub(crate) fn base64_encode(bytes: &Vec<u8>) -> (r: String)
    ensures
        r@ == base64_encoded(bytes@),
        base64_decoded(r@) == Option::Some(bytes@),
{
    base64::Engine::encode(&base64::engine::general_purpose::STANDARD, bytes)
}

} // verus!
