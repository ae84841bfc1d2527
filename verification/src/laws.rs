//! The laws the pipeline obeys, each stated over the specification
//! functions that the executable functions' contracts are written in.

use vstd::prelude::*;
use crate::decision::{
    spec_all_absent, spec_decide, spec_disabled_in, spec_disabled_total, ConsentVerdict,
};
use crate::dict::{lemma_lookup_none, spec_lookup};
use crate::payload::{spec_decode_cookie, spec_decode_value, DecodeError, PayloadModel};
use crate::settings::spec_cookie_name;
use crate::{spec_verdict, spec_verdict_for_name};

verus! {

/// Whether the cookie configured by `settings` decodes to exactly this
/// payload model.
pub open spec fn spec_decodes_to(
    cookies: Seq<(String, String)>,
    settings: Seq<(String, String)>,
    m: PayloadModel,
) -> bool {
    spec_decode_cookie(cookies, spec_cookie_name(settings)) == Result::<
        PayloadModel,
        DecodeError,
    >::Ok(m)
}

/// When the raw cookie mapping is missing the target cookie name, the
/// verdict is pending.
pub proof fn lemma_missing_cookie_pending(
    cookies: Seq<(String, String)>,
    settings: Seq<(String, String)>,
)
    requires
        forall|i: int| 0 <= i < cookies.len() ==> cookies[i].0@ != spec_cookie_name(settings),
    ensures
        spec_verdict(cookies, settings) == ConsentVerdict::Pending,
{
    lemma_lookup_none(cookies, spec_cookie_name(settings));
}

/// When the configured cookie decodes to a payload with all four sections
/// absent, the verdict is pending, whatever the settings were.
pub proof fn lemma_all_absent_pending(
    cookies: Seq<(String, String)>,
    settings: Seq<(String, String)>,
    m: PayloadModel,
)
    requires
        spec_decodes_to(cookies, settings, m),
        spec_all_absent(m),
    ensures
        spec_verdict(cookies, settings) == ConsentVerdict::Pending,
{
}

/// When the configured cookie decodes to a payload with at least one
/// present section and every present section's `disabled` list empty,
/// the verdict is granted.
pub proof fn lemma_no_disabled_granted(
    cookies: Seq<(String, String)>,
    settings: Seq<(String, String)>,
    m: PayloadModel,
)
    requires
        spec_decodes_to(cookies, settings, m),
        !spec_all_absent(m),
        spec_disabled_in(m.vendors) == 0,
        spec_disabled_in(m.purposes) == 0,
        spec_disabled_in(m.vendors_li) == 0,
        spec_disabled_in(m.purposes_li) == 0,
    ensures
        spec_verdict(cookies, settings) == ConsentVerdict::Granted,
{
}

/// When the configured cookie decodes to a payload whose present sections
/// carry a non-empty union of `disabled` entries — one non-empty section
/// is enough — the verdict is denied.
pub proof fn lemma_any_disabled_denied(
    cookies: Seq<(String, String)>,
    settings: Seq<(String, String)>,
    m: PayloadModel,
)
    requires
        spec_decodes_to(cookies, settings, m),
        spec_disabled_total(m) > 0,
    ensures
        spec_verdict(cookies, settings) == ConsentVerdict::Denied,
{
}

/// The settings decide which raw-cookie key is consulted: when they carry
/// a `cookie_name` option, the verdict is the one computed for exactly
/// that key.
pub proof fn lemma_cookie_name_consulted(
    cookies: Seq<(String, String)>,
    settings: Seq<(String, String)>,
    name: Seq<char>,
)
    requires
        spec_lookup(settings, "cookie_name"@) == Option::Some(name),
    ensures
        spec_cookie_name(settings) == name,
        spec_verdict(cookies, settings) == spec_verdict_for_name(cookies, name),
{
}

/// A payload stored under a non-default key is ignored when no
/// `cookie_name` option points at it: without the option only the default
/// key is consulted, and when the cookies carry no entry under it the
/// verdict is pending.
pub proof fn lemma_unconfigured_key_ignored(
    cookies: Seq<(String, String)>,
    settings: Seq<(String, String)>,
)
    requires
        spec_lookup(settings, "cookie_name"@) is None,
        forall|i: int| 0 <= i < cookies.len() ==> cookies[i].0@ != "didomi_token"@,
    ensures
        spec_verdict(cookies, settings) == ConsentVerdict::Pending,
{
    lemma_lookup_none(cookies, "didomi_token"@);
}

/// The round-trip law, combined with `ConsentPayload::encode_cookie_value`:
/// a cookie value that decodes to a payload model — every encoded payload
/// does, by the encoder's contract — makes the pipeline's verdict exactly
/// the decision rule applied to that payload, under whatever settings
/// resolve to the key the cookie sits under.
pub proof fn lemma_round_trip_verdict(
    cookies: Seq<(String, String)>,
    settings: Seq<(String, String)>,
    m: PayloadModel,
    raw: Seq<char>,
)
    requires
        spec_decode_value(raw) == Result::<PayloadModel, DecodeError>::Ok(m),
        spec_lookup(cookies, spec_cookie_name(settings)) == Option::Some(raw),
    ensures
        spec_verdict(cookies, settings) == spec_decide(m),
{
}

} // verus!
