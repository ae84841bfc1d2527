//! Consent verdicts from a consent-management cookie.
//!
//! The library locates the configured cookie among raw key/value pairs,
//! reverses its transport encoding (percent-encoding over standard base64
//! over UTF-8 JSON), parses the payload, and applies the decision policy
//! that turns it into one of three consent states: pending, granted or
//! denied. Every failure on the way is mapped to a pending verdict.

pub mod payload;
pub mod decision;
pub mod dict;
pub mod settings;
pub mod transport;
pub mod json;
pub mod encode;
pub mod laws;

pub use decision::ConsentVerdict;
pub use payload::{ConsentPayload, ConsentSection, DecodeError, PayloadModel};
pub use settings::Settings;

use vstd::prelude::*;
use crate::decision::spec_decide;
use crate::payload::spec_decode_cookie;
use crate::settings::spec_cookie_name;

verus! {

/// The verdict for a raw cookie mapping when the consent cookie is looked
/// up under `name`: a decoded payload is judged by the decision policy,
/// and any decode failure counts as no decision yet.
pub open spec fn spec_verdict_for_name(
    cookies: Seq<(String, String)>,
    name: Seq<char>,
) -> ConsentVerdict {
    match spec_decode_cookie(cookies, name) {
        Result::Ok(m) => spec_decide(m),
        Result::Err(_) => ConsentVerdict::Pending,
    }
}

/// The verdict for one invocation: the raw settings resolve the cookie
/// name, and the cookie under that name decides.
pub open spec fn spec_verdict(
    cookies: Seq<(String, String)>,
    settings: Seq<(String, String)>,
) -> ConsentVerdict {
    spec_verdict_for_name(cookies, spec_cookie_name(settings))
}

/// The mapping component the host invokes.
pub struct Component;

impl Component {
    /// Compute the consent verdict for one request. A recoverable
    /// failure on the way — settings refused, cookie absent or
    /// undecodable — is mapped to `Pending`: the user has not decided
    /// yet. The result is optional for the host's sake; this mapping
    /// always returns a verdict.
    pub fn map(cookies: Vec<(String, String)>, settings: Vec<(String, String)>) -> (r: Option<
        ConsentVerdict,
    >)
        ensures
            r == Option::Some(spec_verdict(cookies@, settings@)),
    {
        let resolved = match Settings::try_from_pairs(&settings) {
            Result::Ok(s) => s,
            Result::Err(_) => { return Option::Some(ConsentVerdict::Pending); },
        };
        let payload = match ConsentPayload::from_pairs(&cookies, &resolved.cookie_name) {
            Result::Ok(p) => p,
            Result::Err(_) => { return Option::Some(ConsentVerdict::Pending); },
        };
        Option::Some(payload.decide())
    }
}

} // verus!
