//! Configuration resolution: from raw option pairs to typed settings.

use vstd::prelude::*;
use crate::dict::{lookup_value, spec_lookup};

verus! {

/// The typed configuration, built once per invocation. `cookie_name` is
/// the key under which the consent cookie is looked up; it defaults to
/// `"didomi_token"` when the caller supplies no `cookie_name` option.
/// Unrecognized options are ignored.
pub struct Settings {
    pub cookie_name: String,
}

/// The cookie name that a raw settings mapping resolves to.
pub open spec fn spec_cookie_name(settings: Seq<(String, String)>) -> Seq<char> {
    match spec_lookup(settings, "cookie_name"@) {
        Option::Some(name) => name,
        Option::None => "didomi_token"@,
    }
}

impl Settings {
    /// Resolve the raw settings mapping. Resolution cannot fail today —
    /// every recognized option has a default — but the result stays a
    /// `Result` so that options validated in the future can be refused,
    /// and the pipeline maps such a refusal to a pending verdict.
    pub fn try_from_pairs(settings: &Vec<(String, String)>) -> (r: Result<Settings, String>)
        ensures
            r is Ok,
            (match r {
                Result::Ok(s) => s.cookie_name@ == spec_cookie_name(settings@),
                Result::Err(_) => false,
            }),
    {
        let key = String::from_str("cookie_name");
        let cookie_name = match lookup_value(settings, &key) {
            Option::Some(name) => name.clone(),
            Option::None => String::from_str("didomi_token"),
        };
        Result::Ok(Settings { cookie_name })
    }
}

} // verus!
