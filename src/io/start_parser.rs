//! The start file: a `PROMPT=` line followed by one http(s) URL per line;
//! blank lines and `#` comments are ignored.
use vstd::prelude::*;

use crate::text::{
    decimal,
    lines_spec, split_lines, str_starts_with, strip_bom, strip_bom_spec, trim_spec, trim_str,
};
use crate::weblink::{check_http_url, url_check_spec, UrlCheck};

verus! {

/// What the start file asks for: a prompt and the URLs to import.
#[derive(Debug, Clone, PartialEq, Eq)]
pub struct StartInput {
    pub prompt: String,
    pub urls: Vec<String>,
}

/// Why a start file was rejected; line numbers count from 1.
#[derive(Debug, Clone, PartialEq, Eq)]
pub enum StartParseError {
    MissingPrompt,
    PromptNotFirst,
    EmptyPrompt,
    DuplicatePrompt { line: usize },
    InvalidUrl { line: usize, value: String },
    InvalidUrlScheme { line: usize, value: String },
    NoUrls,
}

pub open spec fn prompt_tag() -> Seq<char> {
    seq!['P', 'R', 'O', 'M', 'P', 'T', '=']
}

/// A line after trimming and dropping byte order marks.
pub open spec fn clean_line(line: Seq<char>) -> Seq<char> {
    strip_bom_spec(trim_spec(line))
}

/// A line that is neither blank nor a comment.
pub open spec fn is_meaningful(t: Seq<char>) -> bool {
    t.len() > 0 && t[0] != '#'
}

pub open spec fn has_prompt_tag(t: Seq<char>) -> bool {
    t.len() >= 7 && t.subrange(0, 7) == prompt_tag()
}

/// The meaningful lines among the first `n`, each with its line number.
pub open spec fn meaningful_lines(lines: Seq<Seq<char>>, n: nat) -> Seq<(nat, Seq<char>)>
    decreases n,
{
    if n == 0 || n > lines.len() {
        Seq::empty()
    } else {
        let before = meaningful_lines(lines, (n - 1) as nat);
        let t = clean_line(lines[n - 1]);
        if is_meaningful(t) {
            before.push((n, t))
        } else {
            before
        }
    }
}

/// The meaningful lines of a whole start file.
pub open spec fn start_lines(content: Seq<char>) -> Seq<(nat, Seq<char>)> {
    meaningful_lines(lines_spec(content), lines_spec(content).len())
}

/// A line after the prompt that the parser refuses.
pub open spec fn url_line_rejected(t: Seq<char>) -> bool {
    has_prompt_tag(t) || url_check_spec(t) != UrlCheck::Http
}

/// The index of the first refused line at or after `i`, or the length.
pub open spec fn first_rejected(m: Seq<(nat, Seq<char>)>, i: int) -> int
    decreases m.len() - i,
{
    if i >= m.len() {
        m.len() as int
    } else if url_line_rejected(m[i].1) {
        i
    } else {
        first_rejected(m, i + 1)
    }
}

/// The prompt given on the first meaningful line.
pub open spec fn prompt_of(m: Seq<(nat, Seq<char>)>) -> Seq<char> {
    trim_spec(m[0].1.subrange(7, m[0].1.len() as int))
}

/// The error that a refused line at index `j` gives.
pub open spec fn rejection_matches(m: Seq<(nat, Seq<char>)>, j: int, e: StartParseError) -> bool {
    let (no, t) = m[j];
    if has_prompt_tag(t) {
        e == StartParseError::DuplicatePrompt { line: no as usize }
    } else if url_check_spec(t) == UrlCheck::Unparsable {
        match e {
            StartParseError::InvalidUrl { line, value } => line == no && value@ == t,
            _ => false,
        }
    } else {
        match e {
            StartParseError::InvalidUrlScheme { line, value } => line == no && value@ == t,
            _ => false,
        }
    }
}

/// The start file's meaning: the prompt and URLs it gives, or the first
/// problem found in it.
pub open spec fn parse_matches(content: Seq<char>, r: Result<StartInput, StartParseError>) -> bool {
    let m = start_lines(content);
    if m.len() == 0 {
        r == Err::<StartInput, StartParseError>(StartParseError::MissingPrompt)
    } else if !has_prompt_tag(m[0].1) {
        r == Err::<StartInput, StartParseError>(StartParseError::PromptNotFirst)
    } else if prompt_of(m).len() == 0 {
        r == Err::<StartInput, StartParseError>(StartParseError::EmptyPrompt)
    } else if first_rejected(m, 1) < m.len() {
        match r {
            Err(e) => rejection_matches(m, first_rejected(m, 1), e),
            Ok(_) => false,
        }
    } else if m.len() == 1 {
        r == Err::<StartInput, StartParseError>(StartParseError::NoUrls)
    } else {
        match r {
            Ok(input) => input.prompt@ == prompt_of(m) && input.urls@.len() == m.len() - 1
                && forall|k: int|
                0 <= k < input.urls@.len() ==> #[trigger] input.urls@[k]@ == m[k + 1].1,
            Err(_) => false,
        }
    }
}

/// The text of a start-file error.
pub open spec fn start_error_text(e: StartParseError) -> Seq<char> {
    match e {
        StartParseError::MissingPrompt => "Missing PROMPT= line in start.txt"@,
        StartParseError::PromptNotFirst => "PROMPT= must be the first meaningful line in start.txt"@,
        StartParseError::EmptyPrompt => "PROMPT= value must not be empty"@,
        StartParseError::DuplicatePrompt { line } => "PROMPT= can only appear once at line 1, duplicate at line "@
            + decimal(line as nat),
        StartParseError::InvalidUrl { line, value } => "Invalid URL at line "@ + decimal(line as nat)
            + ": "@ + value@,
        StartParseError::InvalidUrlScheme { line, value } => "Invalid URL scheme at line "@ + decimal(
            line as nat,
        ) + ": "@ + value@,
        StartParseError::NoUrls => "start.txt must contain at least one URL after PROMPT="@,
    }
}

impl StartParseError {
    /// A readable description of the problem.
    pub fn message(&self) -> (r: String)
        ensures
            r@ == start_error_text(*self),
    {
        let mut out = String::new();
        match self {
            StartParseError::MissingPrompt => out.append("Missing PROMPT= line in start.txt"),
            StartParseError::PromptNotFirst => out.append(
                "PROMPT= must be the first meaningful line in start.txt",
            ),
            StartParseError::EmptyPrompt => out.append("PROMPT= value must not be empty"),
            StartParseError::DuplicatePrompt { line } => {
                out.append("PROMPT= can only appear once at line 1, duplicate at line ");
                crate::text::push_decimal(&mut out, *line as u128);
            },
            StartParseError::InvalidUrl { line, value } => {
                out.append("Invalid URL at line ");
                crate::text::push_decimal(&mut out, *line as u128);
                out.append(": ");
                out.append(value.as_str());
            },
            StartParseError::InvalidUrlScheme { line, value } => {
                out.append("Invalid URL scheme at line ");
                crate::text::push_decimal(&mut out, *line as u128);
                out.append(": ");
                out.append(value.as_str());
            },
            StartParseError::NoUrls => out.append(
                "start.txt must contain at least one URL after PROMPT=",
            ),
        }
        assert(out@ =~= start_error_text(*self));
        out
    }
}

/// Collects the meaningful lines of `content` with their line numbers.
fn collect_meaningful(content: &str) -> (v: Vec<(usize, String)>)
    ensures
        v@.len() == start_lines(content@).len(),
        forall|k: int|
            0 <= k < v@.len() ==> (#[trigger] v@[k]).0 as nat == start_lines(content@)[k].0
                && v@[k].1@ == start_lines(content@)[k].1,
{
    let lines = split_lines(content);
    let ghost ls = lines_spec(content@);
    let mut v: Vec<(usize, String)> = Vec::new();
    let mut i: usize = 0;
    while i < lines.len()
        invariant
            lines@.len() == ls.len(),
            forall|j: int| 0 <= j < lines@.len() ==> #[trigger] lines@[j]@ == ls[j],
            i <= lines@.len(),
            v@.len() == meaningful_lines(ls, i as nat).len(),
            forall|k: int|
                0 <= k < v@.len() ==> (#[trigger] v@[k]).0 as nat == meaningful_lines(
                    ls,
                    i as nat,
                )[k].0 && v@[k].1@ == meaningful_lines(ls, i as nat)[k].1,
        decreases lines@.len() - i,
    {
        let t = strip_bom(trim_str(lines[i].as_str()));
        let keep = t.unicode_len() > 0 && t.get_char(0) != '#';
        if keep {
            v.push((i + 1, t.to_string()));
        }
        i = i + 1;
    }
    v
}

/// Parses the text of a start file.
pub fn parse_start_content(content: &str) -> (r: Result<StartInput, StartParseError>)
    ensures
        parse_matches(content@, r),
{
    proof {
        reveal_strlit("PROMPT=");
        assert("PROMPT="@ =~= prompt_tag());
    }
    let m = collect_meaningful(content);
    let ghost ms = start_lines(content@);
    if m.len() == 0 {
        return Err(StartParseError::MissingPrompt);
    }
    let first = m[0].1.as_str();
    if !str_starts_with(first, "PROMPT=") {
        return Err(StartParseError::PromptNotFirst);
    }
    let prompt_text = trim_str(first.substring_char(7, first.unicode_len()));
    if prompt_text.unicode_len() == 0 {
        return Err(StartParseError::EmptyPrompt);
    }
    let prompt = prompt_text.to_string();
    let mut urls: Vec<String> = Vec::new();
    let mut i: usize = 1;
    while i < m.len()
        invariant
            m@.len() == ms.len(),
            forall|k: int|
                0 <= k < m@.len() ==> (#[trigger] m@[k]).0 as nat == ms[k].0 && m@[k].1@
                    == ms[k].1,
            1 <= i <= m@.len(),
            ms == start_lines(content@),
            "PROMPT="@ == prompt_tag(),
            has_prompt_tag(ms[0].1),
            prompt_of(ms).len() > 0,
            prompt@ == prompt_of(ms),
            first_rejected(ms, 1) == first_rejected(ms, i as int),
            urls@.len() == i - 1,
            forall|k: int| 0 <= k < urls@.len() ==> #[trigger] urls@[k]@ == ms[k + 1].1,
        decreases m@.len() - i,
    {
        let (no, line) = (&m[i].0, m[i].1.as_str());
        proof {
            if url_line_rejected(ms[i as int].1) {
                assert(first_rejected(ms, i as int) == i as int);
            } else {
                assert(first_rejected(ms, i as int) == first_rejected(ms, i as int + 1));
            }
        }
        if str_starts_with(line, "PROMPT=") {
            assert(first_rejected(ms, 1) == i as int);
            return Err(StartParseError::DuplicatePrompt { line: *no });
        }
        match check_http_url(line) {
            UrlCheck::Http => {},
            UrlCheck::Unparsable => {
                return Err(StartParseError::InvalidUrl { line: *no, value: line.to_string() });
            },
            UrlCheck::OtherScheme => {
                return Err(
                    StartParseError::InvalidUrlScheme { line: *no, value: line.to_string() },
                );
            },
        }
        urls.push(line.to_string());
        i = i + 1;
    }
    assert(first_rejected(ms, i as int) == ms.len());
    if urls.len() == 0 {
        return Err(StartParseError::NoUrls);
    }
    Ok(StartInput { prompt, urls })
}

} // verus!
