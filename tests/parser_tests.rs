use notebooklm_runner::io::start_parser::{parse_start_content, StartParseError};

#[test]
fn parses_prompt_and_urls_ignoring_comments_and_empty_lines() {
    let content = r#"
# comment
PROMPT=Summarize key points

https://example.com/a
https://youtu.be/abc123
"#;

    let parsed = parse_start_content(content).expect("parser should parse valid input");
    assert_eq!(parsed.prompt, "Summarize key points");
    assert_eq!(
        parsed.urls,
        vec![
            "https://example.com/a".to_string(),
            "https://youtu.be/abc123".to_string()
        ]
    );
}

#[test]
fn fails_if_prompt_is_missing() {
    let content = r#"
https://example.com/a
https://example.com/b
"#;

    let err = parse_start_content(content).expect_err("missing prompt must fail");
    let msg = err.message();
    assert!(
        msg.contains("PROMPT="),
        "expected error to mention PROMPT=, got: {msg}"
    );
}

#[test]
fn fails_if_prompt_is_not_the_first_meaningful_line() {
    let content = r#"
https://example.com/a
PROMPT=hello
"#;

    let err = parse_start_content(content).expect_err("prompt must be first meaningful line");
    let msg = err.message();
    assert!(
        msg.contains("first meaningful line"),
        "expected specific ordering error, got: {msg}"
    );
}

#[test]
fn fails_if_no_urls_after_prompt() {
    let content = r#"
PROMPT=Only prompt, no links
"#;

    let err = parse_start_content(content).expect_err("empty url list must fail");
    let msg = err.message();
    assert!(
        msg.contains("at least one URL"),
        "expected URL count message, got: {msg}"
    );
}

#[test]
fn fails_if_url_is_invalid() {
    let content = r#"
PROMPT=Test
notaurl
"#;

    let err = parse_start_content(content).expect_err("invalid URL must fail");
    let msg = err.message();
    assert!(
        msg.contains("Invalid URL"),
        "expected URL validation error, got: {msg}"
    );
}

#[test]
fn parses_when_file_starts_with_utf8_bom() {
    let content = "\u{feff}PROMPT=With BOM\nhttps://example.com/a";
    let parsed = parse_start_content(content).expect("parser should handle UTF-8 BOM");
    assert_eq!(parsed.prompt, "With BOM");
    assert_eq!(parsed.urls, vec!["https://example.com/a"]);
}

#[test]
fn start_errors_carry_line_numbers() {
    assert_eq!(
        parse_start_content("PROMPT=a\n\nhttps://x.example\nPROMPT=b\n"),
        Err(StartParseError::DuplicatePrompt { line: 4 })
    );
    assert_eq!(
        parse_start_content("PROMPT=a\r\nftp://x.example\r\n"),
        Err(StartParseError::InvalidUrlScheme { line: 2, value: "ftp://x.example".to_string() })
    );
    assert_eq!(
        parse_start_content("# c\nPROMPT=a\nnot a url\n"),
        Err(StartParseError::InvalidUrl { line: 3, value: "not a url".to_string() })
    );
    assert_eq!(parse_start_content("PROMPT=   \nhttps://x.example"), Err(StartParseError::EmptyPrompt));
    assert_eq!(parse_start_content(""), Err(StartParseError::MissingPrompt));
    assert_eq!(
        StartParseError::DuplicatePrompt { line: 4 }.message(),
        "PROMPT= can only appear once at line 1, duplicate at line 4"
    );
}

#[test]
fn start_lines_are_trimmed() {
    let parsed = parse_start_content("  PROMPT=  spaced out  \r\n\t https://a.example/x \r\n").unwrap();
    assert_eq!(parsed.prompt, "spaced out");
    assert_eq!(parsed.urls, vec!["https://a.example/x".to_string()]);
    let wide = parse_start_content("PROMPT=\u{3000}x\u{3000}\n\nhttps://a.example\n").unwrap();
    assert_eq!(wide.prompt, "x");
}
