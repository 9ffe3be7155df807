//! The local helper service that holds captured clips: its data shapes, the
//! check of its base URL, the request URLs, and the text of its failures.
//! The HTTP exchange itself is made by the caller.
use vstd::prelude::*;

use crate::json::{json_of_text, member_str, member_str_spec, parse_json_text};
use crate::text::{decimal, push_decimal, trim_spec, trim_str, view_opt};
use crate::weblink::{check_http_url, url_check_spec, UrlCheck};

verus! {

/// The kind of a captured clip.
#[derive(Debug, Clone, Copy, PartialEq, Eq, Structural)]
pub enum ClipType {
    FullPage,
    Selection,
}

pub open spec fn clip_type_text(t: ClipType) -> Seq<char> {
    match t {
        ClipType::FullPage => "full_page"@,
        ClipType::Selection => "selection"@,
    }
}

impl ClipType {
    /// The wire name of the clip type.
    pub fn as_str(&self) -> (r: &'static str)
        ensures
            r@ == clip_type_text(*self),
    {
        match self {
            ClipType::FullPage => "full_page",
            ClipType::Selection => "selection",
        }
    }
}

/// A captured clip as the helper stores it.
#[derive(Debug, Clone, PartialEq, Eq)]
pub struct HelperClipPayload {
    pub clip_type: ClipType,
    pub title: String,
    pub url: String,
    pub content_markdown: String,
    pub created_at: String,
}

/// A clip fetched from the helper, with its id.
#[derive(Debug)]
pub struct HelperClip {
    pub clip_id: uuid::Uuid,
    pub payload: HelperClipPayload,
    pub expires_at: Option<String>,
}

/// The helper's health report.
#[derive(Debug, Clone, PartialEq, Eq)]
pub struct HelperHealth {
    pub ok: bool,
    pub clips_in_memory: Option<usize>,
}

/// Why the helper could not be used.
#[derive(Debug, Clone, PartialEq, Eq)]
pub enum HelperError {
    EmptyBaseUrl,
    InvalidBaseUrl { url: String },
    UnsupportedBaseUrlScheme { url: String },
}

/// The text of a helper error.
pub open spec fn helper_error_text(e: HelperError) -> Seq<char> {
    match e {
        HelperError::EmptyBaseUrl => "helper base URL must not be empty"@,
        HelperError::InvalidBaseUrl { url } => "invalid helper base URL: "@ + url@,
        HelperError::UnsupportedBaseUrlScheme { url } => "helper base URL must be http or https: "@
            + url@,
    }
}

impl HelperError {
    /// A readable description of the problem.
    pub fn message(&self) -> (r: String)
        ensures
            r@ == helper_error_text(*self),
    {
        let mut out = String::new();
        match self {
            HelperError::EmptyBaseUrl => out.append("helper base URL must not be empty"),
            HelperError::InvalidBaseUrl { url } => {
                out.append("invalid helper base URL: ");
                out.append(url.as_str());
            },
            HelperError::UnsupportedBaseUrlScheme { url } => {
                out.append("helper base URL must be http or https: ");
                out.append(url.as_str());
            },
        }
        assert(out@ =~= helper_error_text(*self));
        out
    }
}

pub open spec fn strip_slashes_end(s: Seq<char>) -> Seq<char>
    decreases s.len(),
{
    if s.len() > 0 && s.last() == '/' {
        strip_slashes_end(s.drop_last())
    } else {
        s
    }
}

/// Checks the helper's base URL: trimmed, an http(s) URL, without trailing
/// slashes.
pub fn sanitize_base_url(base_url: &str) -> (r: Result<String, HelperError>)
    ensures
        ({
            let t = trim_spec(base_url@);
            if t.len() == 0 {
                r == Err::<String, HelperError>(HelperError::EmptyBaseUrl)
            } else if url_check_spec(t) == UrlCheck::Unparsable {
                r matches Err(HelperError::InvalidBaseUrl { url }) && url@ == t
            } else if url_check_spec(t) == UrlCheck::OtherScheme {
                r matches Err(HelperError::UnsupportedBaseUrlScheme { url }) && url@ == t
            } else {
                r matches Ok(s) && s@ == strip_slashes_end(t)
            }
        }),
{
    let trimmed = trim_str(base_url);
    if trimmed.unicode_len() == 0 {
        return Err(HelperError::EmptyBaseUrl);
    }
    match check_http_url(trimmed) {
        UrlCheck::Unparsable => {
            return Err(HelperError::InvalidBaseUrl { url: trimmed.to_string() });
        },
        UrlCheck::OtherScheme => {
            return Err(HelperError::UnsupportedBaseUrlScheme { url: trimmed.to_string() });
        },
        UrlCheck::Http => {},
    }
    let ghost t = trimmed@;
    let mut end = trimmed.unicode_len();
    assert(t.subrange(0, end as int) =~= t);
    while end > 0 && trimmed.get_char(end - 1) == '/'
        invariant
            end <= t.len(),
            t == trimmed@,
            strip_slashes_end(t) == strip_slashes_end(t.subrange(0, end as int)),
        decreases end,
    {
        assert(t.subrange(0, end as int).drop_last() =~= t.subrange(0, end - 1));
        end = end - 1;
    }
    Ok(trimmed.substring_char(0, end).to_string())
}

/// The address of one clip: `<base>/clips/<id>`.
pub fn clip_url(base_url: &str, clip_id: &str) -> (r: String)
    ensures
        r@ == base_url@ + "/clips/"@ + clip_id@,
{
    let mut out = String::new();
    out.append(base_url);
    out.append("/clips/");
    out.append(clip_id);
    out
}

/// The address of the health check: `<base>/health`.
pub fn health_url(base_url: &str) -> (r: String)
    ensures
        r@ == base_url@ + "/health"@,
{
    let mut out = String::new();
    out.append(base_url);
    out.append("/health");
    out
}

/// The text of a failed response: "empty response body" for a blank body,
/// else the `error` member the body reported, else the trimmed body.
pub open spec fn error_message_spec(body: Seq<char>, reported: Option<Seq<char>>) -> Seq<char> {
    if trim_spec(body).len() == 0 {
        "empty response body"@
    } else {
        match reported {
            Some(e) => e,
            None => trim_spec(body),
        }
    }
}

/// The failure text for a body and the `error` member found in it, if any.
pub fn error_message_from(body: &str, reported: Option<String>) -> (r: String)
    ensures
        r@ == error_message_spec(body@, view_opt(reported)),
{
    let t = trim_str(body);
    if t.unicode_len() == 0 {
        return "empty response body".to_string();
    }
    match reported {
        Some(e) => e,
        None => t.to_string(),
    }
}

/// The `error` member that a response body reports, if it is JSON with one.
pub open spec fn reported_error(body: Seq<char>) -> Option<Seq<char>> {
    match json_of_text(body) {
        Some(v) => member_str_spec(v, "error"@),
        None => None,
    }
}

/// The failure text of a helper response body.
pub fn extract_error_message(body: &str) -> (r: String)
    ensures
        r@ == error_message_spec(body@, reported_error(body@)),
{
    let reported = match parse_json_text(body) {
        Some(v) => member_str(&v, "error"),
        None => None,
    };
    error_message_from(body, reported)
}

/// The error text of a helper request that got an HTTP error status.
pub fn http_status_message(action: &str, status: u16, body: &str) -> (r: String)
    ensures
        r@ == action@ + " failed with HTTP "@ + decimal(status as nat) + ": "@
            + error_message_spec(body@, reported_error(body@)),
{
    let message = extract_error_message(body);
    let mut out = String::new();
    out.append(action);
    out.append(" failed with HTTP ");
    push_decimal(&mut out, status as u128);
    out.append(": ");
    out.append(message.as_str());
    out
}

} // verus!
