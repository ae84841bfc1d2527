//! The decision policy: from a decoded payload to a consent verdict.

use vstd::prelude::*;
use crate::payload::{ConsentPayload, PayloadModel};

verus! {

/// The three-valued outcome of a consent lookup. `Pending` means the user
/// has not made a decision yet (or none could be read), `Granted` that no
/// explicit opt-out was found, `Denied` that at least one vendor or
/// purpose has been explicitly disabled.
#[derive(Clone, Copy, Debug, PartialEq, Eq, Structural)]
pub enum ConsentVerdict {
    Pending,
    Granted,
    Denied,
}

/// How many disabled entries a section contributes: none when absent.
pub open spec fn spec_disabled_in(s: Option<nat>) -> nat {
    match s {
        Option::None => 0,
        Option::Some(n) => n,
    }
}

/// The union of `disabled` entries over all present sections, counted.
pub open spec fn spec_disabled_total(m: PayloadModel) -> nat {
    spec_disabled_in(m.vendors) + spec_disabled_in(m.purposes)
        + spec_disabled_in(m.vendors_li) + spec_disabled_in(m.purposes_li)
}

/// Whether the payload carries no section at all.
pub open spec fn spec_all_absent(m: PayloadModel) -> bool {
    m.vendors is None && m.purposes is None && m.vendors_li is None
        && m.purposes_li is None
}

/// The decision policy, total over every payload shape: no section at all
/// means no actionable signal (`Pending`); any disabled entry in any
/// present section means an explicit opt-out (`Denied`); otherwise the
/// present sections all carry empty `disabled` lists (`Granted`).
pub open spec fn spec_decide(m: PayloadModel) -> ConsentVerdict {
    if spec_all_absent(m) {
        ConsentVerdict::Pending
    } else if spec_disabled_total(m) > 0 {
        ConsentVerdict::Denied
    } else {
        ConsentVerdict::Granted
    }
}

pub open spec fn spec_section_disabled(s: Option<crate::payload::ConsentSection>) -> bool {
    match s {
        Option::None => false,
        Option::Some(c) => c.disabled_count > 0,
    }
}

impl ConsentPayload {
    /// Judge a successfully decoded payload under the decision policy.
    pub fn decide(&self) -> (v: ConsentVerdict)
        ensures
            v == spec_decide(self@),
    {
        if self.vendors.is_none() && self.purposes.is_none() && self.vendors_li.is_none()
            && self.purposes_li.is_none() {
            return ConsentVerdict::Pending;
        }
        let any_disabled = section_has_disabled(&self.vendors)
            || section_has_disabled(&self.purposes)
            || section_has_disabled(&self.vendors_li)
            || section_has_disabled(&self.purposes_li);
        if any_disabled {
            ConsentVerdict::Denied
        } else {
            ConsentVerdict::Granted
        }
    }
}

fn section_has_disabled(s: &Option<crate::payload::ConsentSection>) -> (r: bool)
    ensures
        r == spec_section_disabled(*s),
{
    match s {
        Option::None => false,
        Option::Some(c) => c.disabled_count > 0,
    }
}

} // verus!
