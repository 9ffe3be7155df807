//! URL checks shared by the input parsers: only absolute http and https
//! URLs are accepted.
use vstd::prelude::*;

use crate::text::str_equals;

verus! {

/// The scheme that `url::Url::parse` finds in `s`, or `None` when `s` does
/// not parse as an absolute URL.
pub uninterp spec fn url_scheme_of(s: Seq<char>) -> Option<Seq<char>>;

/// Relies on url::Url::parse and url::Url::scheme: the scheme of the URL
/// that `s` parses to, or `None` when it does not parse.
#[verifier::external_body]
pub(crate) fn parse_url_scheme(s: &str) -> (r: Option<String>)
    ensures
        match r {
            Some(sc) => url_scheme_of(s@) == Some(sc@),
            None => url_scheme_of(s@) is None,
        },
{
    match url::Url::parse(s) {
        Ok(parsed) => Some(parsed.scheme().to_string()),
        Err(_) => None,
    }
}

pub open spec fn http_word() -> Seq<char> {
    seq!['h', 't', 't', 'p']
}

pub open spec fn https_word() -> Seq<char> {
    seq!['h', 't', 't', 'p', 's']
}

/// A scheme that names plain or secure HTTP.
pub open spec fn is_http_scheme(sc: Seq<char>) -> bool {
    sc == http_word() || sc == https_word()
}

/// `s` parses as a URL whose scheme is http or https.
pub open spec fn is_http_url(s: Seq<char>) -> bool {
    match url_scheme_of(s) {
        Some(sc) => is_http_scheme(sc),
        None => false,
    }
}

/// How a candidate URL fares: accepted, not a URL, or a URL of another scheme.
#[derive(Debug, Clone, Copy, PartialEq, Eq, Structural)]
pub enum UrlCheck {
    Http,
    Unparsable,
    OtherScheme,
}

pub open spec fn url_check_spec(s: Seq<char>) -> UrlCheck {
    match url_scheme_of(s) {
        Some(sc) => if is_http_scheme(sc) {
            UrlCheck::Http
        } else {
            UrlCheck::OtherScheme
        },
        None => UrlCheck::Unparsable,
    }
}

/// Checks that `s` is an http or https URL.
pub fn check_http_url(s: &str) -> (r: UrlCheck)
    ensures
        r == url_check_spec(s@),
{
    proof {
        reveal_strlit("http");
        reveal_strlit("https");
        assert("http"@ =~= http_word());
        assert("https"@ =~= https_word());
    }
    match parse_url_scheme(s) {
        Some(sc) => {
            if str_equals(sc.as_str(), "http") || str_equals(sc.as_str(), "https") {
                UrlCheck::Http
            } else {
                UrlCheck::OtherScheme
            }
        },
        None => UrlCheck::Unparsable,
    }
}

} // verus!
