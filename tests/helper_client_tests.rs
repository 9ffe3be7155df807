use notebooklm_runner::helper_client::{
    clip_url, error_message_from, extract_error_message, health_url, http_status_message,
    sanitize_base_url, ClipType, HelperError,
};

#[test]
fn base_url_is_trimmed_and_checked() {
    assert_eq!(sanitize_base_url(" http://127.0.0.1:8787// "), Ok("http://127.0.0.1:8787".to_string()));
    assert_eq!(sanitize_base_url("   "), Err(HelperError::EmptyBaseUrl));
    assert_eq!(
        sanitize_base_url("ftp://h"),
        Err(HelperError::UnsupportedBaseUrlScheme { url: "ftp://h".to_string() })
    );
    assert_eq!(
        sanitize_base_url("localhost"),
        Err(HelperError::InvalidBaseUrl { url: "localhost".to_string() })
    );
}

#[test]
fn helper_urls() {
    assert_eq!(clip_url("http://h", "abc"), "http://h/clips/abc");
    assert_eq!(health_url("http://h"), "http://h/health");
    assert_eq!(ClipType::FullPage.as_str(), "full_page");
    assert_eq!(ClipType::Selection.as_str(), "selection");
}

#[test]
fn error_messages_prefer_reported_error() {
    assert_eq!(extract_error_message(r#"{"error":"Clip not found or expired."}"#), "Clip not found or expired.");
    assert_eq!(extract_error_message("  plain failure \n"), "plain failure");
    assert_eq!(extract_error_message(" \n"), "empty response body");
    assert_eq!(extract_error_message(r#"{"error":5}"#), r#"{"error":5}"#);
    assert_eq!(error_message_from("x", Some("y".to_string())), "y");
    assert_eq!(
        http_status_message("fetch clip", 404, r#"{"error":"gone"}"#),
        "fetch clip failed with HTTP 404: gone"
    );
}
