//! Encoding a payload the way the consent platform writes its cookie:
//! UTF-8 JSON under standard padded base64 under percent-encoding. The
//! encoder exists so that the round-trip law can be stated and proved:
//! decoding an encoded payload yields the payload's own model, so the
//! pipeline's verdict on such a cookie is the decision rule applied to
//! the payload directly.

use vstd::prelude::*;
use crate::json::{
    array_items, entries_depth_bound, is_json_null, is_json_object, items_depth_bound,
    json_depth, null_value, object_entries, object_field, object_map_insert, object_map_new,
    value_from_items, value_from_object,
};
use crate::payload::{
    spec_decode_value, spec_document_model, ConsentPayload, DecodeError, PayloadModel,
};
use crate::transport::{base64_encode, percent_encode};

verus! {

/// Whether a JSON value is shaped as one payload section whose `disabled`
/// list has `count` entries.
pub open spec fn spec_models_section(v: serde_json::Value, count: nat) -> bool {
    &&& !is_json_null(v)
    &&& is_json_object(v)
    &&& (match object_field(v, "disabled"@) {
        Option::Some(d) => match array_items(d) {
            Option::Some(items) => items.len() == count,
            Option::None => false,
        },
        Option::None => count == 0,
    })
}

/// Whether a cookie value decodes to exactly this payload.
pub open spec fn spec_encodes(p: ConsentPayload, raw: Seq<char>) -> bool {
    spec_decode_value(raw) == Result::<PayloadModel, DecodeError>::Ok(p@)
}

/// A `disabled` list with `count` entries. The decision policy never
/// looks at an entry, only at how many there are, so the entries are
/// nulls.
fn disabled_items(count: usize) -> (items: Vec<serde_json::Value>)
    ensures
        items@.len() == count,
        items_depth_bound(items@, 1),
{
    let mut items: Vec<serde_json::Value> = Vec::new();
    let mut i: usize = 0;
    while i < count
        invariant
            items@.len() == i,
            i <= count,
            items_depth_bound(items@, 1),
        decreases count - i,
    {
        items.push(null_value());
        i = i + 1;
    }
    items
}

/// One section object, carrying a `disabled` array of `count` entries.
fn section_value(count: usize) -> (v: serde_json::Value)
    ensures
        spec_models_section(v, count as nat),
        json_depth(v) <= 3,
{
    let items = disabled_items(count);
    let arr = value_from_items(items);
    proof {
        assert(json_depth(arr) <= 2);
    }
    let mut m = object_map_new();
    object_map_insert(&mut m, String::from_str("disabled"), arr);
    proof {
        assert(entries_depth_bound(object_entries(m), 2));
    }
    value_from_object(m)
}

impl ConsentPayload {
    /// Build the JSON document for this payload: one field per present
    /// section, absent sections left out.
    fn encode_document(&self) -> (v: serde_json::Value)
        ensures
            spec_document_model(v) == Option::Some(self@),
            json_depth(v) <= 4,
    {
        proof {
            reveal_strlit("vendors");
            reveal_strlit("purposes");
            reveal_strlit("vendors_li");
            reveal_strlit("purposes_li");
            assert("vendors"@.len() == 7);
            assert("purposes"@.len() == 8);
            assert("vendors_li"@.len() == 10);
            assert("purposes_li"@.len() == 11);
        }
        let mut m = object_map_new();
        if let Option::Some(s) = self.vendors {
            let sv = section_value(s.disabled_count);
            object_map_insert(&mut m, String::from_str("vendors"), sv);
        }
        if let Option::Some(s) = self.purposes {
            let sv = section_value(s.disabled_count);
            object_map_insert(&mut m, String::from_str("purposes"), sv);
        }
        if let Option::Some(s) = self.vendors_li {
            let sv = section_value(s.disabled_count);
            object_map_insert(&mut m, String::from_str("vendors_li"), sv);
        }
        if let Option::Some(s) = self.purposes_li {
            let sv = section_value(s.disabled_count);
            object_map_insert(&mut m, String::from_str("purposes_li"), sv);
        }
        proof {
            assert(entries_depth_bound(object_entries(m), 3));
        }
        value_from_object(m)
    }

    /// Encode this payload as a cookie value, exactly as the platform
    /// writes it. The contract is the round-trip law: the produced value
    /// decodes back to this payload's model, for every payload.
    pub fn encode_cookie_value(&self) -> (r: String)
        ensures
            spec_encodes(*self, r@),
    {
        let doc = self.encode_document();
        let bytes = crate::json::document_bytes(&doc);
        let b64 = base64_encode(&bytes);
        percent_encode(b64.as_str())
    }
}

} // verus!
