//! The decoded form of the consent cookie, and how it is decoded.

use vstd::prelude::*;
use crate::dict::{lookup_value, spec_lookup};
use crate::json::{
    array_items, get_field, is_json_null, is_json_object, json_document, object_field,
    parse_document, value_as_array, value_is_null, value_is_object,
};
use crate::transport::{base64_decode, base64_decoded, percent_decode, percent_decoded};

verus! {

/// Why a consent cookie could not be decoded. Every variant is mapped to
/// a pending verdict by the pipeline; the variants exist so that the
/// reason can be logged.
#[derive(Clone, Copy, Debug, PartialEq, Eq, Structural)]
pub enum DecodeError {
    /// The configured cookie name is absent from the cookie mapping.
    CookieNotFound,
    /// The cookie value decodes to bytes that are not valid UTF-8.
    InvalidPercentEncoding,
    /// The percent-decoded value is not canonical standard base64.
    InvalidBase64,
    /// The decoded bytes are not a JSON document of the payload's shape.
    InvalidPayload,
}

/// One section of the consent payload. Only the number of entries in its
/// `disabled` list is ever consulted: the entries themselves are opaque to
/// the decision policy, which asks no more than whether the list is empty.
#[derive(Clone, Copy, Debug, PartialEq, Eq)]
pub struct ConsentSection {
    pub disabled_count: usize,
}

/// The decoded consent payload: four optional sections, one per category
/// of consent. `vendors_li` and `purposes_li` are the legitimate-interest
/// variants of `vendors` and `purposes`. A section absent from the payload
/// is `None`, which is distinct from a present section with an empty
/// `disabled` list.
#[derive(Clone, Copy, Debug, PartialEq, Eq)]
pub struct ConsentPayload {
    pub vendors: Option<ConsentSection>,
    pub purposes: Option<ConsentSection>,
    pub vendors_li: Option<ConsentSection>,
    pub purposes_li: Option<ConsentSection>,
}

/// Mathematical model of a payload: for each section, `None` when the
/// section is absent, otherwise the number of disabled entries it carries.
pub struct PayloadModel {
    pub vendors: Option<nat>,
    pub purposes: Option<nat>,
    pub vendors_li: Option<nat>,
    pub purposes_li: Option<nat>,
}

pub open spec fn section_model(s: Option<ConsentSection>) -> Option<nat> {
    match s {
        Option::None => Option::None,
        Option::Some(c) => Option::Some(c.disabled_count as nat),
    }
}

impl View for ConsentPayload {
    type V = PayloadModel;

    open spec fn view(&self) -> PayloadModel {
        PayloadModel {
            vendors: section_model(self.vendors),
            purposes: section_model(self.purposes),
            vendors_li: section_model(self.vendors_li),
            purposes_li: section_model(self.purposes_li),
        }
    }
}

/// The loggable description of a decode failure.
pub open spec fn spec_message(e: DecodeError) -> Seq<char> {
    match e {
        DecodeError::CookieNotFound => "cookie not found"@,
        DecodeError::InvalidPercentEncoding => "invalid cookie value: bad percent-encoding"@,
        DecodeError::InvalidBase64 => "invalid cookie value: bad base64"@,
        DecodeError::InvalidPayload => "invalid cookie value: bad payload"@,
    }
}

impl DecodeError {
    /// A human-readable cause, for the diagnostic log line the host
    /// emits when a failure is mapped to a pending verdict.
    pub fn message(&self) -> (r: String)
        ensures
            r@ == spec_message(*self),
    {
        match self {
            DecodeError::CookieNotFound => String::from_str("cookie not found"),
            DecodeError::InvalidPercentEncoding => String::from_str(
                "invalid cookie value: bad percent-encoding",
            ),
            DecodeError::InvalidBase64 => String::from_str("invalid cookie value: bad base64"),
            DecodeError::InvalidPayload => String::from_str("invalid cookie value: bad payload"),
        }
    }
}

/// What one section of a parsed document models: `None` when the section
/// does not match the expected shape, otherwise `Some(absent-or-count)`.
/// A key that is missing or null is an absent section; a present section
/// must be an object, whose `disabled` field, when there is one, must be
/// an array, counted here. All other fields are ignored.
pub open spec fn spec_section_model(doc: serde_json::Value, key: Seq<char>) -> Option<
    Option<nat>,
> {
    match object_field(doc, key) {
        Option::None => Option::Some(Option::None),
        Option::Some(s) => if is_json_null(s) {
            Option::Some(Option::None)
        } else if !is_json_object(s) {
            Option::None
        } else {
            match object_field(s, "disabled"@) {
                Option::None => Option::Some(Option::Some(0)),
                Option::Some(d) => match array_items(d) {
                    Option::None => Option::None,
                    Option::Some(items) => Option::Some(Option::Some(items.len())),
                },
            }
        },
    }
}

/// What a parsed document models: `None` when the document is not an
/// object or one of the four sections does not match the expected shape.
/// Unknown fields of the document are ignored.
pub open spec fn spec_document_model(doc: serde_json::Value) -> Option<PayloadModel> {
    if !is_json_object(doc) {
        Option::None
    } else if spec_section_model(doc, "vendors"@) is None || spec_section_model(
        doc,
        "purposes"@,
    ) is None || spec_section_model(doc, "vendors_li"@) is None || spec_section_model(
        doc,
        "purposes_li"@,
    ) is None {
        Option::None
    } else {
        Option::Some(
            PayloadModel {
                vendors: spec_section_model(doc, "vendors"@).unwrap(),
                purposes: spec_section_model(doc, "purposes"@).unwrap(),
                vendors_li: spec_section_model(doc, "vendors_li"@).unwrap(),
                purposes_li: spec_section_model(doc, "purposes_li"@).unwrap(),
            },
        )
    }
}

/// What a byte string models as a consent payload: `None` when it is not
/// a JSON document or the document does not match the expected shape.
pub open spec fn spec_payload_model(bytes: Seq<u8>) -> Option<PayloadModel> {
    match json_document(bytes) {
        Option::None => Option::None,
        Option::Some(doc) => spec_document_model(doc),
    }
}

/// The whole decoding of one cookie value: percent-decoding, base64
/// decoding, then the structural parse.
pub open spec fn spec_decode_value(raw: Seq<char>) -> Result<PayloadModel, DecodeError> {
    match percent_decoded(raw) {
        Option::None => Result::Err(DecodeError::InvalidPercentEncoding),
        Option::Some(s) => match base64_decoded(s) {
            Option::None => Result::Err(DecodeError::InvalidBase64),
            Option::Some(bytes) => match spec_payload_model(bytes) {
                Option::None => Result::Err(DecodeError::InvalidPayload),
                Option::Some(m) => Result::Ok(m),
            },
        },
    }
}

/// Decoding from the raw cookie mapping: the cookie under `name` must
/// exist, and its value must decode.
pub open spec fn spec_decode_cookie(cookies: Seq<(String, String)>, name: Seq<char>) -> Result<
    PayloadModel,
    DecodeError,
> {
    match spec_lookup(cookies, name) {
        Option::None => Result::Err(DecodeError::CookieNotFound),
        Option::Some(raw) => spec_decode_value(raw),
    }
}

/// Whether an executable decoding outcome carries exactly what the
/// specification-level decoding says: the same payload, or the same error.
pub open spec fn decode_agrees(
    r: Result<ConsentPayload, DecodeError>,
    m: Result<PayloadModel, DecodeError>,
) -> bool {
    match r {
        Result::Ok(p) => m == Result::<PayloadModel, DecodeError>::Ok(p@),
        Result::Err(e) => m == Result::<PayloadModel, DecodeError>::Err(e),
    }
}

/// Parse one named section of the payload document.
fn parse_section(doc: &serde_json::Value, key: &str) -> (r: Result<
    Option<ConsentSection>,
    DecodeError,
>)
    ensures
        (match r {
            Result::Ok(s) => spec_section_model(*doc, key@) == Option::Some(section_model(s)),
            Result::Err(e) => spec_section_model(*doc, key@) is None && e
                == DecodeError::InvalidPayload,
        }),
{
    let section = match get_field(doc, key) {
        Option::None => { return Result::Ok(Option::None); },
        Option::Some(s) => s,
    };
    if value_is_null(section) {
        return Result::Ok(Option::None);
    }
    if !value_is_object(section) {
        return Result::Err(DecodeError::InvalidPayload);
    }
    let disabled = match get_field(section, "disabled") {
        Option::None => {
            return Result::Ok(Option::Some(ConsentSection { disabled_count: 0 }));
        },
        Option::Some(d) => d,
    };
    match value_as_array(disabled) {
        Option::None => Result::Err(DecodeError::InvalidPayload),
        Option::Some(items) => Result::Ok(
            Option::Some(ConsentSection { disabled_count: items.len() }),
        ),
    }
}

impl ConsentPayload {
    /// Parse raw bytes as the payload document.
    pub fn parse(bytes: &Vec<u8>) -> (r: Result<ConsentPayload, DecodeError>)
        ensures
            (match r {
                Result::Ok(p) => spec_payload_model(bytes@) == Option::Some(p@),
                Result::Err(e) => spec_payload_model(bytes@) is None && e
                    == DecodeError::InvalidPayload,
            }),
    {
        let doc = match parse_document(bytes) {
            Option::None => { return Result::Err(DecodeError::InvalidPayload); },
            Option::Some(d) => d,
        };
        if !value_is_object(&doc) {
            return Result::Err(DecodeError::InvalidPayload);
        }
        let vendors = match parse_section(&doc, "vendors") {
            Result::Ok(s) => s,
            Result::Err(e) => { return Result::Err(e); },
        };
        let purposes = match parse_section(&doc, "purposes") {
            Result::Ok(s) => s,
            Result::Err(e) => { return Result::Err(e); },
        };
        let vendors_li = match parse_section(&doc, "vendors_li") {
            Result::Ok(s) => s,
            Result::Err(e) => { return Result::Err(e); },
        };
        let purposes_li = match parse_section(&doc, "purposes_li") {
            Result::Ok(s) => s,
            Result::Err(e) => { return Result::Err(e); },
        };
        Result::Ok(ConsentPayload { vendors, purposes, vendors_li, purposes_li })
    }

    /// Decode one cookie value: reverse the percent-encoding, the base64
    /// encoding, and parse the payload document.
    pub fn from_cookie_value(raw: &String) -> (r: Result<ConsentPayload, DecodeError>)
        ensures
            decode_agrees(r, spec_decode_value(raw@)),
    {
        let decoded = match percent_decode(raw.as_str()) {
            Option::None => { return Result::Err(DecodeError::InvalidPercentEncoding); },
            Option::Some(s) => s,
        };
        let bytes = match base64_decode(decoded.as_str()) {
            Option::None => { return Result::Err(DecodeError::InvalidBase64); },
            Option::Some(b) => b,
        };
        Self::parse(&bytes)
    }

    /// Locate the cookie under `cookie_name` in the raw cookie mapping
    /// and decode its value.
    pub fn from_pairs(cookies: &Vec<(String, String)>, cookie_name: &String) -> (r: Result<
        ConsentPayload,
        DecodeError,
    >)
        ensures
            decode_agrees(r, spec_decode_cookie(cookies@, cookie_name@)),
    {
        let raw = match lookup_value(cookies, cookie_name) {
            Option::None => { return Result::Err(DecodeError::CookieNotFound); },
            Option::Some(v) => v,
        };
        Self::from_cookie_value(raw)
    }
}

} // verus!
