//! Deep links that hand the runner a prompt and URLs: the payload they
//! carry, how it is cleaned and checked, how it is read from a URI, and the
//! start file written from it.
use vstd::prelude::*;

use crate::text::{
    ascii_lower, view_opt, char_is_whitespace, is_white, push_char, str_equals, trim_spec, trim_str,
};
use crate::protocol::to_ascii_lower;
use crate::weblink::url_scheme_of;
use crate::json::{
    json_array, json_as_str, json_bytes, json_null, json_object, json_of_bytes, json_string,
    member_items, member_items_spec, member_present, member_present_spec, member_str,
    member_str_spec, parse_json_bytes, value_str,
};
use crate::weblink::{check_http_url, url_check_spec, UrlCheck};

verus! {

/// What a deep link carries.
#[derive(Debug, Clone, PartialEq, Eq)]
pub struct ClipPayload {
    pub prompt: String,
    pub urls: Vec<String>,
    pub source: Option<String>,
    pub title: Option<String>,
}

/// Why a deep link or its payload was refused.
#[derive(Debug, Clone, PartialEq, Eq)]
pub enum DeeplinkError {
    InvalidUri { uri: String },
    UnsupportedScheme { scheme: String },
    UnsupportedTarget { target: String },
    InvalidBase64,
    InvalidJson { detail: String },
    EmptyScheme,
    EmptyPrompt,
    NoUrls,
    InvalidUrl { value: String },
    InvalidUrlScheme { value: String },
}

/// The text of a deep-link error.
pub open spec fn deeplink_error_text(e: DeeplinkError) -> Seq<char> {
    match e {
        DeeplinkError::InvalidUri { uri } => "Invalid deep-link URI: "@ + uri@,
        DeeplinkError::UnsupportedScheme { scheme } => "Unsupported URI scheme `"@ + scheme@
            + "`. Expected `snorgnote`"@,
        DeeplinkError::UnsupportedTarget { target } => "Unsupported deep-link target `"@ + target@
            + "`. Expected `clip`, like snorgnote://clip?data=..."@,
        DeeplinkError::InvalidBase64 => "Failed to decode data param as base64url"@,
        DeeplinkError::InvalidJson { detail } => "Failed to parse data param JSON payload: "@
            + detail@,
        DeeplinkError::EmptyScheme => "scheme must not be empty"@,
        DeeplinkError::EmptyPrompt => "Payload must include non-empty prompt"@,
        DeeplinkError::NoUrls => "Payload must include at least one URL"@,
        DeeplinkError::InvalidUrl { value } => "Invalid URL in payload: "@ + value@,
        DeeplinkError::InvalidUrlScheme { value } => "Invalid URL scheme in payload: "@ + value@,
    }
}

impl DeeplinkError {
    /// A readable description of the problem.
    pub fn message(&self) -> (r: String)
        ensures
            r@ == deeplink_error_text(*self),
    {
        let mut out = String::new();
        match self {
            DeeplinkError::InvalidUri { uri } => {
                out.append("Invalid deep-link URI: ");
                out.append(uri.as_str());
            },
            DeeplinkError::UnsupportedScheme { scheme } => {
                out.append("Unsupported URI scheme `");
                out.append(scheme.as_str());
                out.append("`. Expected `snorgnote`");
            },
            DeeplinkError::UnsupportedTarget { target } => {
                out.append("Unsupported deep-link target `");
                out.append(target.as_str());
                out.append("`. Expected `clip`, like snorgnote://clip?data=...");
            },
            DeeplinkError::InvalidBase64 => out.append("Failed to decode data param as base64url"),
            DeeplinkError::InvalidJson { detail } => {
                out.append("Failed to parse data param JSON payload: ");
                out.append(detail.as_str());
            },
            DeeplinkError::EmptyScheme => out.append("scheme must not be empty"),
            DeeplinkError::EmptyPrompt => out.append("Payload must include non-empty prompt"),
            DeeplinkError::NoUrls => out.append("Payload must include at least one URL"),
            DeeplinkError::InvalidUrl { value } => {
                out.append("Invalid URL in payload: ");
                out.append(value.as_str());
            },
            DeeplinkError::InvalidUrlScheme { value } => {
                out.append("Invalid URL scheme in payload: ");
                out.append(value.as_str());
            },
        }
        assert(out@ =~= deeplink_error_text(*self));
        out
    }
}

/// The words of `s` joined by single spaces, and whether a space is owed
/// before the next word.
pub open spec fn collapse_raw(s: Seq<char>) -> (Seq<char>, bool)
    decreases s.len(),
{
    if s.len() == 0 {
        (Seq::empty(), false)
    } else {
        let (out, pending) = collapse_raw(s.drop_last());
        let c = s.last();
        if is_white(c) {
            (out, out.len() > 0)
        } else if pending {
            (out.push(' ').push(c), false)
        } else {
            (out.push(c), false)
        }
    }
}

/// A prompt with its whitespace runs collapsed to single spaces and trimmed.
pub open spec fn prompt_spec(s: Seq<char>) -> Seq<char> {
    trim_spec(collapse_raw(s).0)
}

/// Collapses every run of whitespace in a prompt to one space and trims it.
pub fn normalize_prompt(prompt: &str) -> (r: String)
    ensures
        r@ == prompt_spec(prompt@),
{
    let n = prompt.unicode_len();
    let mut out = String::new();
    let mut pending = false;
    let mut i: usize = 0;
    while i < n
        invariant
            n == prompt@.len(),
            i <= n,
            (out@, pending) == collapse_raw(prompt@.subrange(0, i as int)),
        decreases n - i,
    {
        let c = prompt.get_char(i);
        proof {
            let pre = prompt@.subrange(0, i + 1);
            assert(pre.drop_last() =~= prompt@.subrange(0, i as int));
            assert(pre.last() == c);
        }
        if char_is_whitespace(c) {
            pending = out.unicode_len() > 0;
        } else {
            if pending {
                push_char(&mut out, ' ');
            }
            push_char(&mut out, c);
            pending = false;
        }
        i = i + 1;
    }
    assert(prompt@.subrange(0, n as int) =~= prompt@);
    trim_str(out.as_str()).to_string()
}

/// The trimmed, non-empty entries among the first `n` URLs.
pub open spec fn kept_urls(urls: Seq<String>, n: nat) -> Seq<Seq<char>>
    decreases n,
{
    if n == 0 || n > urls.len() {
        Seq::empty()
    } else {
        let before = kept_urls(urls, (n - 1) as nat);
        let t = trim_spec(urls[n - 1]@);
        if t.len() > 0 {
            before.push(t)
        } else {
            before
        }
    }
}

/// The index of the first URL at or after `i` that is not http(s), or the length.
pub open spec fn first_bad_url(urls: Seq<Seq<char>>, i: int) -> int
    decreases urls.len() - i,
{
    if i >= urls.len() {
        urls.len() as int
    } else if url_check_spec(urls[i]) != UrlCheck::Http {
        i
    } else {
        first_bad_url(urls, i + 1)
    }
}

/// An optional text trimmed, and dropped when nothing is left.
pub open spec fn optional_spec(v: Option<String>) -> Option<Seq<char>> {
    match v {
        Some(s) => if trim_spec(s@).len() > 0 {
            Some(trim_spec(s@))
        } else {
            None
        },
        None => None,
    }
}

/// How normalizing a payload ends: the cleaned payload, or the first
/// problem with it.
pub open spec fn normalize_matches(
    before: ClipPayload,
    after: ClipPayload,
    r: Result<(), DeeplinkError>,
) -> bool {
    let prompt = prompt_spec(before.prompt@);
    let urls = kept_urls(before.urls@, before.urls@.len());
    let bad = first_bad_url(urls, 0);
    if prompt.len() == 0 {
        r == Err::<(), DeeplinkError>(DeeplinkError::EmptyPrompt) && after == before
    } else if urls.len() == 0 {
        r == Err::<(), DeeplinkError>(DeeplinkError::NoUrls) && after == before
    } else if bad < urls.len() {
        after == before && match r {
            Err(DeeplinkError::InvalidUrl { value }) => url_check_spec(urls[bad])
                == UrlCheck::Unparsable && value@ == urls[bad],
            Err(DeeplinkError::InvalidUrlScheme { value }) => url_check_spec(urls[bad])
                == UrlCheck::OtherScheme && value@ == urls[bad],
            _ => false,
        }
    } else {
        &&& r is Ok
        &&& after.prompt@ == prompt
        &&& after.urls@.len() == urls.len()
        &&& forall|k: int| 0 <= k < urls.len() ==> #[trigger] after.urls@[k]@ == urls[k]
        &&& view_opt(after.source) == optional_spec(before.source)
        &&& view_opt(after.title) == optional_spec(before.title)
    }
}

fn normalize_optional(v: &Option<String>) -> (r: Option<String>)
    ensures
        view_opt(r) == optional_spec(*v),
{
    match v {
        Some(s) => {
            let t = trim_str(s.as_str());
            if t.unicode_len() > 0 {
                Some(t.to_string())
            } else {
                None
            }
        },
        None => None,
    }
}

/// Cleans a payload in place: the prompt's whitespace collapsed, URLs
/// trimmed with blank ones dropped, optional texts trimmed and dropped when
/// blank. A payload without prompt or URLs, or with a URL that is not
/// http(s), is refused and left as it was.
pub fn normalize_payload(payload: &mut ClipPayload) -> (r: Result<(), DeeplinkError>)
    ensures
        normalize_matches(*old(payload), *final(payload), r),
{
    match normalized_payload(payload) {
        Ok(p) => {
            *payload = p;
            Ok(())
        },
        Err(e) => Err(e),
    }
}

/// The cleaned form of a payload, or the first problem with it.
pub fn normalized_payload(payload: &ClipPayload) -> (r: Result<ClipPayload, DeeplinkError>)
    ensures
        match r {
            Ok(p) => normalize_matches(*payload, p, Ok(())),
            Err(e) => normalize_matches(*payload, *payload, Err(e)),
        },
{
    let prompt = normalize_prompt(payload.prompt.as_str());
    if prompt.unicode_len() == 0 {
        return Err(DeeplinkError::EmptyPrompt);
    }
    let ghost all = payload.urls@;
    let mut urls: Vec<String> = Vec::new();
    let mut i: usize = 0;
    while i < payload.urls.len()
        invariant
            all == payload.urls@,
            i <= all.len(),
            urls@.len() == kept_urls(all, i as nat).len(),
            forall|k: int|
                0 <= k < urls@.len() ==> #[trigger] urls@[k]@ == kept_urls(all, i as nat)[k],
        decreases all.len() - i,
    {
        let t = trim_str(payload.urls[i].as_str());
        if t.unicode_len() > 0 {
            urls.push(t.to_string());
        }
        i = i + 1;
    }
    let ghost kept = kept_urls(all, all.len());
    if urls.len() == 0 {
        return Err(DeeplinkError::NoUrls);
    }
    let mut j: usize = 0;
    assert(first_bad_url(kept, 0) == first_bad_url(kept, j as int));
    while j < urls.len()
        invariant
            urls@.len() == kept.len(),
            forall|k: int| 0 <= k < urls@.len() ==> #[trigger] urls@[k]@ == kept[k],
            j <= urls@.len(),
            all == payload.urls@,
            kept == kept_urls(all, all.len()),
            prompt@ == prompt_spec(payload.prompt@),
            prompt@.len() > 0,
            kept.len() > 0,
            first_bad_url(kept, 0) == first_bad_url(kept, j as int),
        decreases urls@.len() - j,
    {
        proof {
            if url_check_spec(kept[j as int]) != UrlCheck::Http {
                assert(first_bad_url(kept, j as int) == j as int);
            } else {
                assert(first_bad_url(kept, j as int) == first_bad_url(kept, j as int + 1));
            }
        }
        match check_http_url(urls[j].as_str()) {
            UrlCheck::Http => {},
            UrlCheck::Unparsable => {
                return Err(DeeplinkError::InvalidUrl { value: urls[j].clone() });
            },
            UrlCheck::OtherScheme => {
                return Err(DeeplinkError::InvalidUrlScheme { value: urls[j].clone() });
            },
        }
        j = j + 1;
    }
    assert(first_bad_url(kept, j as int) == kept.len());
    let source = normalize_optional(&payload.source);
    let title = normalize_optional(&payload.title);
    Ok(ClipPayload { prompt, urls, source, title })
}

/// The lines of a start file written from a payload.
pub open spec fn start_lines_of(p: ClipPayload) -> Seq<Seq<char>> {
    let head: Seq<Seq<char>> = match p.source {
        Some(s) => seq!["# source="@ + s@],
        None => Seq::empty(),
    };
    head.push("PROMPT="@ + p.prompt@) + p.urls@.map_values(|u: String| u@)
}

/// `lines` each followed by a line feed.
pub open spec fn joined_lines(lines: Seq<Seq<char>>) -> Seq<char>
    decreases lines.len(),
{
    if lines.len() == 0 {
        Seq::empty()
    } else {
        joined_lines(lines.drop_last()) + lines.last() + "\n"@
    }
}

/// The start file text for a payload: an optional `# source=` comment, the
/// `PROMPT=` line, and one URL per line.
pub fn start_file_text(payload: &ClipPayload) -> (r: String)
    ensures
        r@ == joined_lines(start_lines_of(*payload)),
{
    let ghost lines = start_lines_of(*payload);
    let ghost head: Seq<Seq<char>> = match &payload.source {
        Some(s) => seq!["# source="@ + s@],
        None => Seq::empty(),
    };
    let mut out = String::new();
    match &payload.source {
        Some(s) => {
            out.append("# source=");
            out.append(s.as_str());
            out.append("\n");
            assert(head.drop_last() =~= Seq::<Seq<char>>::empty());
            assert(joined_lines(Seq::<Seq<char>>::empty()) == Seq::<char>::empty());
            assert(joined_lines(head) == joined_lines(head.drop_last()) + head.last() + "\n"@);
        },
        None => {},
    }
    assert(out@ =~= joined_lines(head));
    out.append("PROMPT=");
    out.append(payload.prompt.as_str());
    out.append("\n");
    let ghost with_prompt = head.push("PROMPT="@ + payload.prompt@);
    assert(with_prompt.drop_last() =~= head);
    assert(out@ =~= joined_lines(with_prompt));
    let mut i: usize = 0;
    while i < payload.urls.len()
        invariant
            i <= payload.urls@.len(),
            lines == with_prompt + payload.urls@.map_values(|u: String| u@),
            out@ == joined_lines(
                with_prompt + payload.urls@.subrange(0, i as int).map_values(|u: String| u@),
            ),
        decreases payload.urls@.len() - i,
    {
        let ghost next = with_prompt + payload.urls@.subrange(0, i + 1).map_values(|u: String| u@);
        let ghost prev = with_prompt + payload.urls@.subrange(0, i as int).map_values(|u: String| u@);
        assert(next.drop_last() =~= prev);
        assert(next.last() == payload.urls@[i as int]@);
        out.append(payload.urls[i].as_str());
        out.append("\n");
        i = i + 1;
    }
    assert(payload.urls@.subrange(0, i as int) =~= payload.urls@);
    out
}

/// The text that base64's URL-safe alphabet without padding gives for `b`.
pub uninterp spec fn base64url_text(b: Seq<u8>) -> Seq<char>;

/// The bytes that URL-safe base64 without padding decodes `s` to, if any.
pub uninterp spec fn base64url_bytes(s: Seq<char>) -> Option<Seq<u8>>;

/// Relies on base64's URL_SAFE_NO_PAD engine, `encode`.
#[verifier::external_body]
fn encode_base64url(b: &[u8]) -> (r: String)
    ensures
        r@ == base64url_text(b@),
{
    base64::Engine::encode(&base64::engine::general_purpose::URL_SAFE_NO_PAD, b)
}

/// Relies on base64's URL_SAFE_NO_PAD engine, `decode`.
#[verifier::external_body]
fn decode_base64url(s: &str) -> (r: Option<Vec<u8>>)
    ensures
        match r {
            Some(v) => base64url_bytes(s@) == Some(v@),
            None => base64url_bytes(s@) is None,
        },
{
    match base64::Engine::decode(&base64::engine::general_purpose::URL_SAFE_NO_PAD, s) {
        Ok(v) => Some(v),
        Err(_) => None,
    }
}

/// The parts of a parsed URI that a deep link is read from.
#[derive(Debug, Clone, PartialEq, Eq)]
pub struct UriParts {
    pub scheme: String,
    pub host: Option<String>,
    pub first_segment: Option<String>,
    pub query: Vec<(String, String)>,
}

/// Relies on url::Url::parse, and on the parsed URL's scheme, host_str,
/// path_segments and query_pairs (percent-decoded), copied out as they are.
#[verifier::external_body]
pub(crate) fn split_uri(uri: &str) -> (r: Option<UriParts>)
    ensures
        match r {
            Some(p) => {
                &&& url_scheme_of(uri@) == Some(p.scheme@)
                &&& view_opt(p.host) == uri_host_of(uri@)
                &&& view_opt(p.first_segment) == uri_first_segment_of(uri@)
                &&& query_view(p.query@) == uri_query_of(uri@)
            },
            None => url_scheme_of(uri@) is None,
        },
{
    let parsed = match url::Url::parse(uri) {
        Ok(u) => u,
        Err(_) => return None,
    };
    Some(UriParts {
        scheme: parsed.scheme().to_string(),
        host: parsed.host_str().map(|h| h.to_string()),
        first_segment: parsed.path_segments().and_then(|mut s| s.next()).map(|s| s.to_string()),
        query: parsed.query_pairs().map(|(k, v)| (k.into_owned(), v.into_owned())).collect(),
    })
}

/// What a deep link holds: base64url-decoded JSON bytes of a payload, or
/// a payload spelled out in query parameters.
#[derive(Debug, Clone, PartialEq, Eq)]
pub enum ClipUriContent {
    Encoded(Vec<u8>),
    Fields(ClipPayload),
}

/// The host that `url::Url::host_str` finds in `s`, for a URI that parses.
pub uninterp spec fn uri_host_of(s: Seq<char>) -> Option<Seq<char>>;

/// The first path segment that `url::Url::path_segments` yields for `s`.
pub uninterp spec fn uri_first_segment_of(s: Seq<char>) -> Option<Seq<char>>;

/// The percent-decoded query pairs that `url::Url::query_pairs` yields for `s`.
pub uninterp spec fn uri_query_of(s: Seq<char>) -> Seq<(Seq<char>, Seq<char>)>;

/// The text of each query pair.
pub open spec fn query_view(q: Seq<(String, String)>) -> Seq<(Seq<char>, Seq<char>)> {
    q.map_values(|kv: (String, String)| (kv.0@, kv.1@))
}

/// The deep link's target: its host, else its first path segment.
pub open spec fn target_of(host: Option<Seq<char>>, segment: Option<Seq<char>>) -> Seq<char> {
    match host {
        Some(h) => h,
        None => match segment {
            Some(s) => s,
            None => Seq::empty(),
        },
    }
}

/// The value of the last query parameter named `key`.
pub open spec fn last_value(q: Seq<(Seq<char>, Seq<char>)>, key: Seq<char>) -> Option<Seq<char>>
    decreases q.len(),
{
    if q.len() == 0 {
        None
    } else if q.last().0 == key {
        Some(q.last().1)
    } else {
        last_value(q.drop_last(), key)
    }
}

/// The values of every query parameter named `key`, in order.
pub open spec fn all_values(q: Seq<(Seq<char>, Seq<char>)>, key: Seq<char>) -> Seq<Seq<char>>
    decreases q.len(),
{
    if q.len() == 0 {
        Seq::empty()
    } else {
        let before = all_values(q.drop_last(), key);
        if q.last().0 == key {
            before.push(q.last().1)
        } else {
            before
        }
    }
}

/// The payload spelled out in query parameters: the last `prompt` (empty
/// when none), every `url`, the last `source` and `title`.
pub open spec fn query_payload(q: Seq<(Seq<char>, Seq<char>)>, c: ClipPayload) -> bool {
    &&& c.prompt@ == match last_value(q, "prompt"@) {
        Some(v) => v,
        None => Seq::empty(),
    }
    &&& c.urls@.len() == all_values(q, "url"@).len()
    &&& forall|k: int| 0 <= k < c.urls@.len() ==> #[trigger] c.urls@[k]@ == all_values(q, "url"@)[k]
    &&& view_opt(c.source) == last_value(q, "source"@)
    &&& view_opt(c.title) == last_value(q, "title"@)
}

/// What reading a deep link with these parts gives.
pub open spec fn uri_content_matches(
    scheme: Seq<char>,
    host: Option<Seq<char>>,
    segment: Option<Seq<char>>,
    q: Seq<(Seq<char>, Seq<char>)>,
    r: Result<ClipUriContent, DeeplinkError>,
) -> bool {
    if scheme != "snorgnote"@ {
        match r {
            Err(DeeplinkError::UnsupportedScheme { scheme: s }) => s@ == scheme,
            _ => false,
        }
    } else if ascii_lower(target_of(host, segment)) != "clip"@ {
        match r {
            Err(DeeplinkError::UnsupportedTarget { target }) => target@ == target_of(host, segment),
            _ => false,
        }
    } else {
        match last_value(q, "data"@) {
            Some(d) => match base64url_bytes(d) {
                Some(b) => match r {
                    Ok(ClipUriContent::Encoded(v)) => v@ == b,
                    _ => false,
                },
                None => r == Err::<ClipUriContent, DeeplinkError>(DeeplinkError::InvalidBase64),
            },
            None => match r {
                Ok(ClipUriContent::Fields(c)) => query_payload(q, c),
                _ => false,
            },
        }
    }
}

/// What reading the parts of a deep link gives.
pub open spec fn clip_parts_matches(p: UriParts, r: Result<ClipUriContent, DeeplinkError>) -> bool {
    uri_content_matches(
        p.scheme@,
        view_opt(p.host),
        view_opt(p.first_segment),
        query_view(p.query@),
        r,
    )
}

fn clone_opt(v: &Option<String>) -> (r: Option<String>)
    ensures
        view_opt(r) == view_opt(*v),
{
    match v {
        Some(s) => Some(s.clone()),
        None => None,
    }
}

/// Reads a deep link from its URI parts: the scheme must be `snorgnote`,
/// the target `clip` in any case; a `data` parameter is decoded from
/// base64url, else the payload is taken from `prompt`, `url`, `source` and
/// `title` parameters, the last of each winning and every `url` kept.
pub fn clip_from_parts(parts: &UriParts) -> (r: Result<ClipUriContent, DeeplinkError>)
    ensures
        clip_parts_matches(*parts, r),
{
    if !str_equals(parts.scheme.as_str(), "snorgnote") {
        return Err(DeeplinkError::UnsupportedScheme { scheme: parts.scheme.clone() });
    }
    let target = match &parts.host {
        Some(h) => h.clone(),
        None => match &parts.first_segment {
            Some(s) => s.clone(),
            None => String::new(),
        },
    };
    if !str_equals(to_ascii_lower(target.as_str()).as_str(), "clip") {
        return Err(DeeplinkError::UnsupportedTarget { target });
    }
    let ghost q = parts.query@;
    let ghost qv = query_view(q);
    let mut data: Option<String> = None;
    let mut prompt: Option<String> = None;
    let mut source: Option<String> = None;
    let mut title: Option<String> = None;
    let mut urls: Vec<String> = Vec::new();
    let mut i: usize = 0;
    while i < parts.query.len()
        invariant
            q == parts.query@,
            qv == query_view(q),
            i <= q.len(),
            view_opt(data) == last_value(qv.subrange(0, i as int), "data"@),
            view_opt(prompt) == last_value(qv.subrange(0, i as int), "prompt"@),
            view_opt(source) == last_value(qv.subrange(0, i as int), "source"@),
            view_opt(title) == last_value(qv.subrange(0, i as int), "title"@),
            urls@.len() == all_values(qv.subrange(0, i as int), "url"@).len(),
            forall|k: int|
                0 <= k < urls@.len() ==> #[trigger] urls@[k]@ == all_values(
                    qv.subrange(0, i as int),
                    "url"@,
                )[k],
        decreases q.len() - i,
    {
        let key = parts.query[i].0.as_str();
        let value = &parts.query[i].1;
        proof {
            let pre = qv.subrange(0, i + 1);
            assert(pre.drop_last() =~= qv.subrange(0, i as int));
            assert(pre.last() == (q[i as int].0@, q[i as int].1@));
            reveal_strlit("data");
            reveal_strlit("prompt");
            reveal_strlit("url");
            reveal_strlit("source");
            reveal_strlit("title");
            assert("data"@.len() == 4 && "prompt"@.len() == 6 && "url"@.len() == 3);
            assert("source"@.len() == 6 && "title"@.len() == 5);
            assert("source"@[0] != "prompt"@[0]);
            assert("source"@ != "prompt"@);
        }
        if str_equals(key, "data") {
            data = Some(value.clone());
        } else if str_equals(key, "prompt") {
            prompt = Some(value.clone());
        } else if str_equals(key, "url") {
            urls.push(value.clone());
        } else if str_equals(key, "source") {
            source = Some(value.clone());
        } else if str_equals(key, "title") {
            title = Some(value.clone());
        }
        i = i + 1;
    }
    assert(qv.subrange(0, i as int) =~= qv);
    match data {
        Some(encoded) => match decode_base64url(encoded.as_str()) {
            Some(bytes) => Ok(ClipUriContent::Encoded(bytes)),
            None => Err(DeeplinkError::InvalidBase64),
        },
        None => {
            let prompt_text = match prompt {
                Some(p) => p,
                None => String::new(),
            };
            Ok(
                ClipUriContent::Fields(
                    ClipPayload { prompt: prompt_text, urls, source: clone_opt(&source), title: clone_opt(&title) },
                ),
            )
        },
    }
}

/// Reads a deep-link URI; one that does not parse as a URL is refused.
pub fn read_clip_uri(uri: &str) -> (r: Result<ClipUriContent, DeeplinkError>)
    ensures
        match url_scheme_of(uri@) {
            None => (r matches Err(DeeplinkError::InvalidUri { uri: u }) && u@ == uri@),
            Some(sc) => uri_content_matches(
                sc,
                uri_host_of(uri@),
                uri_first_segment_of(uri@),
                uri_query_of(uri@),
                r,
            ),
        },
{
    match split_uri(uri) {
        Some(parts) => clip_from_parts(&parts),
        None => Err(DeeplinkError::InvalidUri { uri: uri.to_string() }),
    }
}

/// The deep link `<scheme>://clip?data=<base64url of json>`; the scheme
/// must not be blank.
pub fn deeplink_from_json(scheme: &str, json: &[u8]) -> (r: Result<String, DeeplinkError>)
    ensures
        trim_spec(scheme@).len() == 0 ==> r == Err::<String, DeeplinkError>(
            DeeplinkError::EmptyScheme,
        ),
        trim_spec(scheme@).len() > 0 ==> (r matches Ok(s) && s@ == scheme@ + "://clip?data="@
            + base64url_text(json@)),
{
    if trim_str(scheme).unicode_len() == 0 {
        return Err(DeeplinkError::EmptyScheme);
    }
    let encoded = encode_base64url(json);
    let mut out = String::new();
    out.append(scheme);
    out.append("://clip?data=");
    out.append(encoded.as_str());
    Ok(out)
}

fn optional_member(v: &serde_json::Value, key: &str) -> (r: Result<Option<String>, DeeplinkError>)
    ensures
        match r {
            Ok(x) => !optional_refused(*v, key@) && view_opt(x) == optional_text(*v, key@),
            Err(_) => optional_refused(*v, key@),
        },
{
    if !member_present(v, key) {
        return Ok(None);
    }
    match member_str(v, key) {
        Some(s) => Ok(Some(s)),
        None => {
            let mut detail = String::new();
            detail.append("invalid type for field `");
            detail.append(key);
            detail.append("`");
            Err(DeeplinkError::InvalidJson { detail })
        },
    }
}

fn missing_field(key: &str) -> (e: DeeplinkError)
    ensures
        e is InvalidJson,
{
    let mut detail = String::new();
    detail.append("missing or invalid field `");
    detail.append(key);
    detail.append("`");
    DeeplinkError::InvalidJson { detail }
}

/// Every element of a JSON array is a string.
pub open spec fn all_strings(items: Seq<serde_json::Value>) -> bool {
    forall|k: int| 0 <= k < items.len() ==> json_as_str(#[trigger] items[k]) is Some
}

/// An optional member that is present (not null) but no string.
pub open spec fn optional_refused(v: serde_json::Value, key: Seq<char>) -> bool {
    member_present_spec(v, key) && member_str_spec(v, key) is None
}

/// An optional text member: absent or null for none.
pub open spec fn optional_text(v: serde_json::Value, key: Seq<char>) -> Option<Seq<char>> {
    if member_present_spec(v, key) {
        member_str_spec(v, key)
    } else {
        None
    }
}

/// JSON bytes that do not hold a payload: not JSON, no string `prompt`,
/// no array of strings `urls`, or a `source` or `title` that is no string.
pub open spec fn payload_json_refused(b: Seq<u8>) -> bool {
    match json_of_bytes(b) {
        None => true,
        Some(v) => match member_str_spec(v, "prompt"@) {
            None => true,
            Some(_) => match member_items_spec(v, "urls"@) {
                None => true,
                Some(items) => !all_strings(items) || optional_refused(v, "source"@)
                    || optional_refused(v, "title"@),
            },
        },
    }
}

/// The payload that JSON bytes hold.
pub open spec fn payload_from_json(b: Seq<u8>, p: ClipPayload) -> bool {
    &&& !payload_json_refused(b)
    &&& {
        let v = json_of_bytes(b)->0;
        let items = member_items_spec(v, "urls"@)->0;
        &&& p.prompt@ == member_str_spec(v, "prompt"@)->0
        &&& p.urls@.len() == items.len()
        &&& forall|k: int|
            0 <= k < items.len() ==> Some(#[trigger] p.urls@[k]@) == json_as_str(items[k])
        &&& view_opt(p.source) == optional_text(v, "source"@)
        &&& view_opt(p.title) == optional_text(v, "title"@)
    }
}

/// How cleaning a payload ends, as `normalized_payload` gives it.
pub open spec fn normalized_result(raw: ClipPayload, r: Result<ClipPayload, DeeplinkError>) -> bool {
    match r {
        Ok(p) => normalize_matches(raw, p, Ok(())),
        Err(e) => normalize_matches(raw, raw, Err(e)),
    }
}

/// What parsing a deep link with these parts gives: the link read, its
/// payload decoded, and the payload cleaned.
pub open spec fn clip_uri_result(
    scheme: Seq<char>,
    host: Option<Seq<char>>,
    segment: Option<Seq<char>>,
    q: Seq<(Seq<char>, Seq<char>)>,
    r: Result<ClipPayload, DeeplinkError>,
) -> bool {
    if scheme != "snorgnote"@ {
        match r {
            Err(DeeplinkError::UnsupportedScheme { scheme: s }) => s@ == scheme,
            _ => false,
        }
    } else if ascii_lower(target_of(host, segment)) != "clip"@ {
        match r {
            Err(DeeplinkError::UnsupportedTarget { target }) => target@ == target_of(host, segment),
            _ => false,
        }
    } else {
        match last_value(q, "data"@) {
            Some(d) => match base64url_bytes(d) {
                None => r == Err::<ClipPayload, DeeplinkError>(DeeplinkError::InvalidBase64),
                Some(b) => if payload_json_refused(b) {
                    r matches Err(DeeplinkError::InvalidJson { .. })
                } else {
                    exists|raw: ClipPayload| payload_from_json(b, raw) && normalized_result(raw, r)
                },
            },
            None => exists|raw: ClipPayload| query_payload(q, raw) && normalized_result(raw, r),
        }
    }
}

/// Reads a payload from JSON bytes: an object with a string `prompt`, an
/// array of strings `urls`, and optional string `source` and `title`
/// (absent or null for none).
pub fn decode_payload_json(bytes: &[u8]) -> (r: Result<ClipPayload, DeeplinkError>)
    ensures
        match r {
            Ok(p) => payload_from_json(bytes@, p),
            Err(e) => payload_json_refused(bytes@) && e is InvalidJson,
        },
{
    let v = match parse_json_bytes(bytes) {
        Some(v) => v,
        None => {
            return Err(DeeplinkError::InvalidJson { detail: "not a JSON document".to_string() });
        },
    };
    let prompt = match member_str(&v, "prompt") {
        Some(p) => p,
        None => return Err(missing_field("prompt")),
    };
    let items = match member_items(&v, "urls") {
        Some(items) => items,
        None => return Err(missing_field("urls")),
    };
    let mut urls: Vec<String> = Vec::new();
    let mut i: usize = 0;
    while i < items.len()
        invariant
            i <= items@.len(),
            urls@.len() == i,
            json_of_bytes(bytes@) == Some(v),
            view_opt(Some(prompt)) == member_str_spec(v, "prompt"@),
            member_items_spec(v, "urls"@) == Some(items@),
            forall|k: int| 0 <= k < i ==> Some(#[trigger] urls@[k]@) == json_as_str(items@[k]),
        decreases items@.len() - i,
    {
        match value_str(&items[i]) {
            Some(u) => urls.push(u),
            None => {
                assert(json_as_str(items@[i as int]) is None);
                assert(!all_strings(items@));
                return Err(missing_field("urls"));
            },
        }
        i = i + 1;
    }
    let source = match optional_member(&v, "source") {
        Ok(x) => x,
        Err(_) => return Err(missing_field("source")),
    };
    let title = match optional_member(&v, "title") {
        Ok(x) => x,
        Err(_) => return Err(missing_field("title")),
    };
    assert forall|k: int| 0 <= k < items@.len() implies json_as_str(#[trigger] items@[k]) is Some by {
        assert(Some(urls@[k]@) == json_as_str(items@[k]));
    }
    assert(all_strings(items@));
    assert forall|k: int| 0 <= k < items@.len() implies json_as_str(#[trigger] items@[k]) is Some by {
        assert(Some(urls@[k]@) == json_as_str(items@[k]));
    }
    assert(all_strings(items@));
    Ok(ClipPayload { prompt, urls, source, title })
}

fn optional_json(v: &Option<String>) -> serde_json::Value {
    match v {
        Some(s) => json_string(s.clone()),
        None => json_null(),
    }
}

/// The JSON bytes of a payload: an object with `prompt`, `urls`, `source`
/// and `title`, a missing optional text written as null.
pub fn payload_json(payload: &ClipPayload) -> Vec<u8> {
    let mut items: Vec<serde_json::Value> = Vec::new();
    let mut i: usize = 0;
    while i < payload.urls.len()
        invariant
            i <= payload.urls@.len(),
        decreases payload.urls@.len() - i,
    {
        items.push(json_string(payload.urls[i].clone()));
        i = i + 1;
    }
    let mut members: Vec<(String, serde_json::Value)> = Vec::new();
    members.push(("prompt".to_string(), json_string(payload.prompt.clone())));
    members.push(("urls".to_string(), json_array(items)));
    members.push(("source".to_string(), optional_json(&payload.source)));
    members.push(("title".to_string(), optional_json(&payload.title)));
    json_bytes(&json_object(members))
}

/// Reads and cleans the payload of a deep-link URI.
pub fn parse_clip_uri(uri: &str) -> (r: Result<ClipPayload, DeeplinkError>)
    ensures
        match url_scheme_of(uri@) {
            None => (r matches Err(DeeplinkError::InvalidUri { uri: u }) && u@ == uri@),
            Some(sc) => clip_uri_result(
                sc,
                uri_host_of(uri@),
                uri_first_segment_of(uri@),
                uri_query_of(uri@),
                r,
            ),
        },
{
    let content = read_clip_uri(uri);
    match content {
        Ok(ClipUriContent::Encoded(bytes)) => match decode_payload_json(bytes.as_slice()) {
            Ok(raw) => {
                let r = normalized_payload(&raw);
                assert(payload_from_json(bytes@, raw) && normalized_result(raw, r));
                r
            },
            Err(e) => Err(e),
        },
        Ok(ClipUriContent::Fields(raw)) => {
            let r = normalized_payload(&raw);
            assert(normalized_result(raw, r));
            r
        },
        Err(e) => Err(e),
    }
}

/// The deep link for a payload: `<scheme>://clip?data=` followed by the
/// base64url of the cleaned payload's JSON.
pub fn encode_payload_to_deeplink(scheme: &str, payload: &ClipPayload) -> (r: Result<
    String,
    DeeplinkError,
>)
    ensures
        trim_spec(scheme@).len() == 0 ==> r == Err::<String, DeeplinkError>(
            DeeplinkError::EmptyScheme,
        ),
        trim_spec(scheme@).len() > 0 ==> match r {
            Ok(s) => exists|json: Seq<u8>| s@ == scheme@ + "://clip?data="@ + base64url_text(json),
            Err(e) => normalize_matches(*payload, *payload, Err(e)),
        },
{
    if trim_str(scheme).unicode_len() == 0 {
        return Err(DeeplinkError::EmptyScheme);
    }
    let clean = match normalized_payload(payload) {
        Ok(p) => p,
        Err(e) => return Err(e),
    };
    let json = payload_json(&clean);
    deeplink_from_json(scheme, json.as_slice())
}

} // verus!
