//! The pipeline exercised end to end, with cookie values produced by the
//! same outside crates the library decodes with.

use base64::Engine;

use didomi_consent::{Component, ConsentPayload, ConsentSection, ConsentVerdict, DecodeError, Settings};

fn encode_value(value: &serde_json::Value) -> String {
    let bytes = serde_json::to_vec(value).unwrap();
    let b64 = base64::engine::general_purpose::STANDARD.encode(bytes);
    urlencoding::encode(&b64).into_owned()
}

fn section_with(entries: Vec<serde_json::Value>) -> serde_json::Value {
    let mut m = serde_json::Map::new();
    m.insert("disabled".to_string(), serde_json::Value::Array(entries));
    serde_json::Value::Object(m)
}

fn object(fields: Vec<(&str, serde_json::Value)>) -> serde_json::Value {
    let mut m = serde_json::Map::new();
    for (k, v) in fields {
        m.insert(k.to_string(), v);
    }
    serde_json::Value::Object(m)
}

fn dict(pairs: Vec<(&str, String)>) -> Vec<(String, String)> {
    pairs.into_iter().map(|(k, v)| (k.to_string(), v)).collect()
}

#[test]
fn test_consent_pending() {
    let cookies = vec![];

    assert_eq!(
        Component::map(cookies, Vec::new()),
        Some(ConsentVerdict::Pending)
    );
}

#[test]
fn test_consent_granted() {
    let cookies = dict(vec![(
        "didomi_token",
        encode_value(&object(vec![
            ("purposes", section_with(vec![])),
            ("purposes_li", section_with(vec![])),
            ("vendors", section_with(vec![])),
            ("vendors_li", section_with(vec![])),
        ])),
    )]);

    assert_eq!(
        Component::map(cookies, Vec::new()),
        Some(ConsentVerdict::Granted)
    );
}

#[test]
fn test_incomplete_cookie() {
    let cookies = dict(vec![(
        "didomi_token",
        encode_value(&object(vec![("purposes", section_with(vec![]))])),
    )]);

    assert_eq!(
        Component::map(cookies, Vec::new()),
        Some(ConsentVerdict::Granted)
    );
}

#[test]
fn test_consent_denied() {
    let cookies = dict(vec![(
        "didomi_token",
        encode_value(&object(vec![(
            "purposes",
            section_with(vec![serde_json::Value::String("test".to_string())]),
        )])),
    )]);

    assert_eq!(
        Component::map(cookies, Vec::new()),
        Some(ConsentVerdict::Denied)
    );
}

#[test]
fn test_custom_cookie_name() {
    let settings = dict(vec![("cookie_name", "edgee_cookie".to_string())]);
    let cookies = dict(vec![(
        "edgee_cookie",
        encode_value(&object(vec![("purposes", section_with(vec![]))])),
    )]);

    assert_eq!(Component::map(cookies, settings), Some(ConsentVerdict::Granted));
}

#[test]
fn missing_cookie_name_is_pending() {
    let cookies = dict(vec![(
        "other_cookie",
        encode_value(&object(vec![("purposes", section_with(vec![]))])),
    )]);

    assert_eq!(
        Component::map(cookies, Vec::new()),
        Some(ConsentVerdict::Pending)
    );
}

#[test]
fn custom_key_ignored_when_not_configured() {
    let cookies = dict(vec![(
        "edgee_cookie",
        encode_value(&object(vec![(
            "purposes",
            section_with(vec![serde_json::Value::String("x".to_string())]),
        )])),
    )]);

    assert_eq!(
        Component::map(cookies, Vec::new()),
        Some(ConsentVerdict::Pending)
    );
}

#[test]
fn empty_document_is_pending() {
    let cookies = dict(vec![("didomi_token", encode_value(&object(vec![])))]);

    assert_eq!(
        Component::map(cookies, Vec::new()),
        Some(ConsentVerdict::Pending)
    );
}

#[test]
fn null_section_counts_as_absent() {
    let cookies = dict(vec![(
        "didomi_token",
        encode_value(&object(vec![("vendors", serde_json::Value::Null)])),
    )]);

    assert_eq!(
        Component::map(cookies, Vec::new()),
        Some(ConsentVerdict::Pending)
    );
}

#[test]
fn section_without_disabled_list_is_granted() {
    let cookies = dict(vec![(
        "didomi_token",
        encode_value(&object(vec![("purposes", object(vec![]))])),
    )]);

    assert_eq!(
        Component::map(cookies, Vec::new()),
        Some(ConsentVerdict::Granted)
    );
}

#[test]
fn unknown_fields_are_ignored() {
    let mut section = serde_json::Map::new();
    section.insert("disabled".to_string(), serde_json::Value::Array(vec![]));
    section.insert("enabled".to_string(), serde_json::Value::Array(vec![
        serde_json::Value::String("a".to_string()),
    ]));
    let cookies = dict(vec![(
        "didomi_token",
        encode_value(&object(vec![
            ("purposes", serde_json::Value::Object(section)),
            ("extra", serde_json::Value::Bool(true)),
        ])),
    )]);

    assert_eq!(
        Component::map(cookies, Vec::new()),
        Some(ConsentVerdict::Granted)
    );
}

#[test]
fn one_disabled_entry_among_empty_sections_denies() {
    let cookies = dict(vec![(
        "didomi_token",
        encode_value(&object(vec![
            ("purposes", section_with(vec![])),
            ("vendors", section_with(vec![])),
            (
                "vendors_li",
                section_with(vec![serde_json::Value::Number(serde_json::Number::from(7))]),
            ),
        ])),
    )]);

    assert_eq!(
        Component::map(cookies, Vec::new()),
        Some(ConsentVerdict::Denied)
    );
}

#[test]
fn malformed_section_is_pending() {
    let cookies = dict(vec![(
        "didomi_token",
        encode_value(&object(vec![(
            "vendors",
            serde_json::Value::Number(serde_json::Number::from(5)),
        )])),
    )]);

    assert_eq!(
        Component::map(cookies, Vec::new()),
        Some(ConsentVerdict::Pending)
    );
}

#[test]
fn repeated_cookie_key_last_entry_wins() {
    let denied = encode_value(&object(vec![(
        "purposes",
        section_with(vec![serde_json::Value::String("x".to_string())]),
    )]));
    let granted = encode_value(&object(vec![("purposes", section_with(vec![]))]));
    let cookies = dict(vec![
        ("didomi_token", denied),
        ("didomi_token", granted),
    ]);

    assert_eq!(
        Component::map(cookies, Vec::new()),
        Some(ConsentVerdict::Granted)
    );
}

#[test]
fn decode_errors_are_reported_by_variant() {
    let name = "didomi_token".to_string();

    let missing: Vec<(String, String)> = vec![];
    assert_eq!(
        ConsentPayload::from_pairs(&missing, &name),
        Err(DecodeError::CookieNotFound)
    );

    let bad_utf8 = dict(vec![("didomi_token", "%ff%fe".to_string())]);
    assert_eq!(
        ConsentPayload::from_pairs(&bad_utf8, &name),
        Err(DecodeError::InvalidPercentEncoding)
    );

    let bad_base64 = dict(vec![("didomi_token", "!!!".to_string())]);
    assert_eq!(
        ConsentPayload::from_pairs(&bad_base64, &name),
        Err(DecodeError::InvalidBase64)
    );

    let not_json = urlencoding::encode(
        &base64::engine::general_purpose::STANDARD.encode(b"not a document"),
    )
    .into_owned();
    let bad_payload = dict(vec![("didomi_token", not_json)]);
    assert_eq!(
        ConsentPayload::from_pairs(&bad_payload, &name),
        Err(DecodeError::InvalidPayload)
    );
}

#[test]
fn error_messages_name_the_cause() {
    assert_eq!(DecodeError::CookieNotFound.message(), "cookie not found");
    assert_eq!(
        DecodeError::InvalidPercentEncoding.message(),
        "invalid cookie value: bad percent-encoding"
    );
    assert_eq!(
        DecodeError::InvalidBase64.message(),
        "invalid cookie value: bad base64"
    );
    assert_eq!(
        DecodeError::InvalidPayload.message(),
        "invalid cookie value: bad payload"
    );
}

#[test]
fn settings_resolve_with_default_and_override() {
    let default = Settings::try_from_pairs(&Vec::new()).unwrap();
    assert_eq!(default.cookie_name, "didomi_token");

    let configured =
        Settings::try_from_pairs(&dict(vec![("cookie_name", "edgee_cookie".to_string())]))
            .unwrap();
    assert_eq!(configured.cookie_name, "edgee_cookie");

    let repeated = Settings::try_from_pairs(&dict(vec![
        ("cookie_name", "first".to_string()),
        ("cookie_name", "second".to_string()),
    ]))
    .unwrap();
    assert_eq!(repeated.cookie_name, "second");
}

#[test]
fn decide_judges_payload_shapes() {
    let absent = ConsentPayload { vendors: None, purposes: None, vendors_li: None, purposes_li: None };
    assert_eq!(absent.decide(), ConsentVerdict::Pending);

    let granted = ConsentPayload {
        vendors: Some(ConsentSection { disabled_count: 0 }),
        purposes: None,
        vendors_li: None,
        purposes_li: None,
    };
    assert_eq!(granted.decide(), ConsentVerdict::Granted);

    let denied = ConsentPayload {
        vendors: Some(ConsentSection { disabled_count: 0 }),
        purposes: Some(ConsentSection { disabled_count: 2 }),
        vendors_li: None,
        purposes_li: None,
    };
    assert_eq!(denied.decide(), ConsentVerdict::Denied);
}

#[test]
fn encoded_payload_round_trips_to_same_decision() {
    let payloads = vec![
        ConsentPayload { vendors: None, purposes: None, vendors_li: None, purposes_li: None },
        ConsentPayload {
            vendors: Some(ConsentSection { disabled_count: 0 }),
            purposes: Some(ConsentSection { disabled_count: 0 }),
            vendors_li: None,
            purposes_li: None,
        },
        ConsentPayload {
            vendors: None,
            purposes: Some(ConsentSection { disabled_count: 3 }),
            vendors_li: Some(ConsentSection { disabled_count: 0 }),
            purposes_li: None,
        },
    ];
    for payload in payloads {
        let cookies = vec![("didomi_token".to_string(), payload.encode_cookie_value())];
        assert_eq!(
            Component::map(cookies, Vec::new()),
            Some(payload.decide())
        );
    }
}

#[test]
fn encoder_and_decoder_agree_on_sections() {
    let payload = ConsentPayload {
        vendors: Some(ConsentSection { disabled_count: 1 }),
        purposes: None,
        vendors_li: None,
        purposes_li: Some(ConsentSection { disabled_count: 0 }),
    };
    let name = "didomi_token".to_string();
    let cookies = vec![(name.clone(), payload.encode_cookie_value())];
    assert_eq!(ConsentPayload::from_pairs(&cookies, &name), Ok(payload));
}
