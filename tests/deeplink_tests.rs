use base64::engine::general_purpose::URL_SAFE_NO_PAD;
use base64::Engine as _;
use notebooklm_runner::deeplink::{
    clip_from_parts, decode_payload_json, deeplink_from_json, encode_payload_to_deeplink,
    normalize_payload, normalize_prompt, parse_clip_uri, read_clip_uri, start_file_text,
    ClipPayload, ClipUriContent, DeeplinkError, UriParts,
};

#[test]
fn parses_base64_data_uri_payload() {
    let payload = ClipPayload {
        prompt: "Summarize in 5 bullets".to_string(),
        urls: vec![
            "https://example.com/a".to_string(),
            "https://example.com/b".to_string(),
        ],
        source: Some("web-clipper".to_string()),
        title: Some("Deep Link Notebook".to_string()),
    };

    let uri = encode_payload_to_deeplink("snorgnote", &payload).expect("encode deeplink");
    let parsed = parse_clip_uri(&uri).expect("parse deeplink");
    assert_eq!(parsed, payload);
}

#[test]
fn parses_query_fallback_without_data_param() {
    let uri = "snorgnote://clip?prompt=Hello%20World&url=https%3A%2F%2Fexample.com%2Fa&url=https%3A%2F%2Fexample.com%2Fb";
    let parsed = parse_clip_uri(uri).expect("parse query fallback");
    assert_eq!(parsed.prompt, "Hello World");
    assert_eq!(
        parsed.urls,
        vec![
            "https://example.com/a".to_string(),
            "https://example.com/b".to_string()
        ]
    );
    assert_eq!(parsed.source, None);
}

#[test]
fn rejects_wrong_scheme() {
    let err = parse_clip_uri("wrong://clip?prompt=hi&url=https://example.com")
        .expect_err("wrong scheme must fail");
    let msg = err.message();
    assert!(msg.contains("snorgnote"));
}

#[test]
fn rejects_payload_with_empty_urls() {
    let raw_payload = r#"{"prompt":"hello","urls":[]}"#;
    let data = URL_SAFE_NO_PAD.encode(raw_payload.as_bytes());
    let uri = format!("snorgnote://clip?data={data}");
    let err = parse_clip_uri(&uri).expect_err("empty url list must fail");
    let msg = err.message();
    assert!(msg.contains("at least one URL"));
}

#[test]
fn deeplink_encoder_is_url_safe() {
    let payload = ClipPayload {
        prompt: "Привет + symbols / ? &".to_string(),
        urls: vec!["https://example.com/a?x=1&y=2".to_string()],
        source: None,
        title: None,
    };
    let uri = encode_payload_to_deeplink("snorgnote", &payload).expect("encode");
    assert!(uri.starts_with("snorgnote://clip?data="));
    assert!(
        !uri.contains('+'),
        "base64url payload in query should not include plus sign"
    );
}

#[test]
fn deeplink_from_json_encodes_base64url() {
    assert_eq!(deeplink_from_json("x", b"\xfb\xff").unwrap(), "x://clip?data=-_8");
    assert_eq!(deeplink_from_json("  ", b"{}"), Err(DeeplinkError::EmptyScheme));
}

#[test]
fn prompt_whitespace_collapses() {
    assert_eq!(normalize_prompt("  a \t b\n\nc  "), "a b c");
    assert_eq!(normalize_prompt(" \n "), "");
}

#[test]
fn normalize_payload_cleans_fields() {
    let mut p = ClipPayload {
        prompt: " ask   me ".to_string(),
        urls: vec![" https://a.example ".to_string(), "   ".to_string()],
        source: Some("  ".to_string()),
        title: Some(" T ".to_string()),
    };
    normalize_payload(&mut p).unwrap();
    assert_eq!(
        p,
        ClipPayload {
            prompt: "ask me".to_string(),
            urls: vec!["https://a.example".to_string()],
            source: None,
            title: Some("T".to_string()),
        }
    );
}

#[test]
fn normalize_payload_errors() {
    let base = ClipPayload {
        prompt: "p".to_string(),
        urls: vec!["mailto:x@y.z".to_string()],
        source: None,
        title: None,
    };
    let mut p = base.clone();
    assert_eq!(
        normalize_payload(&mut p),
        Err(DeeplinkError::InvalidUrlScheme { value: "mailto:x@y.z".to_string() })
    );
    assert_eq!(p, base);
    let mut q = ClipPayload { urls: vec!["nope".to_string()], ..base.clone() };
    assert_eq!(normalize_payload(&mut q), Err(DeeplinkError::InvalidUrl { value: "nope".to_string() }));
    let mut r = ClipPayload { prompt: "  ".to_string(), ..base.clone() };
    assert_eq!(normalize_payload(&mut r), Err(DeeplinkError::EmptyPrompt));
    let mut s = ClipPayload { urls: vec![], ..base };
    assert_eq!(normalize_payload(&mut s), Err(DeeplinkError::NoUrls));
}

#[test]
fn start_file_text_lists_prompt_and_urls() {
    let p = ClipPayload {
        prompt: "My Prompt".to_string(),
        urls: vec!["https://example.com/a".to_string(), "https://example.com/b".to_string()],
        source: Some("web-clipper".to_string()),
        title: None,
    };
    assert_eq!(
        start_file_text(&p),
        "# source=web-clipper\nPROMPT=My Prompt\nhttps://example.com/a\nhttps://example.com/b\n"
    );
}

#[test]
fn uri_parts_pick_last_values() {
    let parts = UriParts {
        scheme: "snorgnote".to_string(),
        host: None,
        first_segment: Some("CLIP".to_string()),
        query: vec![
            ("prompt".to_string(), "a".to_string()),
            ("url".to_string(), "u1".to_string()),
            ("prompt".to_string(), "b".to_string()),
            ("other".to_string(), "z".to_string()),
            ("url".to_string(), "u2".to_string()),
        ],
    };
    assert_eq!(
        clip_from_parts(&parts),
        Ok(ClipUriContent::Fields(ClipPayload {
            prompt: "b".to_string(),
            urls: vec!["u1".to_string(), "u2".to_string()],
            source: None,
            title: None,
        }))
    );
    let wrong = UriParts { host: Some("note".to_string()), ..parts };
    assert_eq!(
        clip_from_parts(&wrong),
        Err(DeeplinkError::UnsupportedTarget { target: "note".to_string() })
    );
}

#[test]
fn read_clip_uri_decodes_data_and_refuses_bad_input() {
    assert_eq!(
        read_clip_uri("snorgnote://clip?data=aGk"),
        Ok(ClipUriContent::Encoded(b"hi".to_vec()))
    );
    assert_eq!(read_clip_uri("snorgnote://clip?data=%%%"), Err(DeeplinkError::InvalidBase64));
    assert_eq!(
        read_clip_uri("not a uri"),
        Err(DeeplinkError::InvalidUri { uri: "not a uri".to_string() })
    );
    assert!(matches!(decode_payload_json(b"not-json"), Err(DeeplinkError::InvalidJson { .. })));
    assert!(matches!(
        decode_payload_json(br#"{"prompt":"p","urls":[1]}"#),
        Err(DeeplinkError::InvalidJson { .. })
    ));
    assert_eq!(
        decode_payload_json(br#"{"prompt":"p","urls":["u"],"title":null}"#),
        Ok(ClipPayload { prompt: "p".to_string(), urls: vec!["u".to_string()], source: None, title: None })
    );
}

#[test]
fn payload_json_optional_members_must_be_strings() {
    assert!(matches!(
        decode_payload_json(br#"{"prompt":"p","urls":["u"],"source":5}"#),
        Err(DeeplinkError::InvalidJson { .. })
    ));
    assert!(matches!(decode_payload_json(br#"{"urls":["u"]}"#), Err(DeeplinkError::InvalidJson { .. })));
    assert_eq!(
        DeeplinkError::UnsupportedTarget { target: "note".to_string() }.message(),
        "Unsupported deep-link target `note`. Expected `clip`, like snorgnote://clip?data=..."
    );
    let err = parse_clip_uri("snorgnote://note?prompt=x&url=https://a").unwrap_err();
    assert!(err.message().contains("Expected `clip`"));
}
