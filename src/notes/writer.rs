//! Markdown notes saved from clips: the file name and the note's text.
use vstd::prelude::*;

use crate::text::{ascii_lower_char, char_is_whitespace, is_white, lower_ascii_char, push_char, trim_spec, trim_str};

verus! {

#[verifier::external_type_specification]
#[verifier::external_body]
pub struct ExUuid(uuid::Uuid);

/// What a note records about one clip.
#[derive(Debug)]
pub struct NoteData {
    pub clip_id: uuid::Uuid,
    pub source: Option<String>,
    pub clip_type: String,
    pub title: String,
    pub url: String,
    pub content_markdown: String,
    pub created_at: String,
}

/// The text that uuid::Uuid's Display writes for an id.
pub uninterp spec fn uuid_text_of(id: uuid::Uuid) -> Seq<char>;

/// Relies on uuid::Uuid's Display: the hyphenated form, 36 characters.
#[verifier::external_body]
pub(crate) fn uuid_text(id: &uuid::Uuid) -> (r: String)
    ensures
        r@ == uuid_text_of(*id),
        r@.len() == 36,
{
    id.to_string()
}

pub open spec fn is_ascii_alnum(c: char) -> bool {
    ('0' <= c && c <= '9') || ('a' <= c && c <= 'z') || ('A' <= c && c <= 'Z')
}

/// A character that separates words of a slug.
pub open spec fn is_separator(c: char) -> bool {
    is_white(c) || c == '-' || c == '_'
}

/// The slug built from the first characters of a title, and whether it
/// ends in a dash that a separator put there.
pub open spec fn slug_raw(s: Seq<char>) -> (Seq<char>, bool)
    decreases s.len(),
{
    if s.len() == 0 {
        (Seq::empty(), false)
    } else {
        let (out, last_dash) = slug_raw(s.drop_last());
        let c = s.last();
        if is_ascii_alnum(c) {
            (out.push(ascii_lower_char(c)), false)
        } else if is_separator(c) && !last_dash && out.len() > 0 {
            (out.push('-'), true)
        } else {
            (out, last_dash)
        }
    }
}

pub open spec fn strip_dashes_end(s: Seq<char>) -> Seq<char>
    decreases s.len(),
{
    if s.len() > 0 && s.last() == '-' {
        strip_dashes_end(s.drop_last())
    } else {
        s
    }
}

pub open spec fn strip_dashes_start(s: Seq<char>) -> Seq<char>
    decreases s.len(),
{
    if s.len() > 0 && s[0] == '-' {
        strip_dashes_start(s.drop_first())
    } else {
        s
    }
}

/// The slug of a title: lower-case ASCII letters and digits, runs of
/// separators as one dash, no dash at either end; "note" when nothing is left.
pub open spec fn slug_spec(title: Seq<char>) -> Seq<char> {
    let t = strip_dashes_start(strip_dashes_end(slug_raw(title).0));
    if t.len() == 0 {
        seq!['n', 'o', 't', 'e']
    } else {
        t
    }
}

fn is_ascii_alnum_char(c: char) -> (r: bool)
    ensures
        r == is_ascii_alnum(c),
{
    ('0' <= c && c <= '9') || ('a' <= c && c <= 'z') || ('A' <= c && c <= 'Z')
}

/// The file-name slug of a note title.
pub fn slugify_title(title: &str) -> (r: String)
    ensures
        r@ == slug_spec(title@),
{
    let n = title.unicode_len();
    let mut out = String::new();
    let mut last_dash = false;
    let mut i: usize = 0;
    while i < n
        invariant
            n == title@.len(),
            i <= n,
            (out@, last_dash) == slug_raw(title@.subrange(0, i as int)),
        decreases n - i,
    {
        let c = title.get_char(i);
        proof {
            let pre = title@.subrange(0, i + 1);
            assert(pre.drop_last() =~= title@.subrange(0, i as int));
            assert(pre.last() == c);
        }
        if is_ascii_alnum_char(c) {
            push_char(&mut out, lower_ascii_char(c));
            last_dash = false;
        } else if (char_is_whitespace(c) || c == '-' || c == '_') && !last_dash && out.unicode_len() > 0 {
            push_char(&mut out, '-');
            last_dash = true;
        }
        i = i + 1;
    }
    assert(title@.subrange(0, n as int) =~= title@);
    let ghost raw = out@;
    let mut end = out.unicode_len();
    assert(raw.subrange(0, end as int) =~= raw);
    while end > 0 && out.get_char(end - 1) == '-'
        invariant
            end <= out@.len(),
            out@ == raw,
            strip_dashes_end(raw) == strip_dashes_end(raw.subrange(0, end as int)),
        decreases end,
    {
        assert(raw.subrange(0, end as int).drop_last() =~= raw.subrange(0, end - 1));
        end = end - 1;
    }
    let mut start: usize = 0;
    let ghost trimmed_end = raw.subrange(0, end as int);
    assert(trimmed_end.subrange(0, end as int) =~= trimmed_end);
    while start < end && out.get_char(start) == '-'
        invariant
            start <= end <= out@.len(),
            out@ == raw,
            trimmed_end == raw.subrange(0, end as int),
            strip_dashes_start(trimmed_end) == strip_dashes_start(raw.subrange(start as int, end as int)),
        decreases end - start,
    {
        assert(raw.subrange(start as int, end as int).drop_first() =~= raw.subrange(start + 1, end as int));
        start = start + 1;
    }
    if start == end {
        proof {
            reveal_strlit("note");
            assert("note"@ =~= seq!['n', 'o', 't', 'e']);
        }
        "note".to_string()
    } else {
        out.as_str().substring_char(start, end).to_string()
    }
}

/// The text of a note.
pub open spec fn note_text(data: NoteData, imported_at: Seq<char>) -> Seq<char> {
    "# "@ + trim_spec(data.title@) + "\n\n"@ + "- Source: "@ + match data.source {
        Some(s) => s@,
        None => "unknown"@,
    } + "\n"@ + "- Type: "@ + trim_spec(data.clip_type@) + "\n"@ + "- URL: "@ + trim_spec(data.url@)
        + "\n"@ + "- CreatedAt: "@ + trim_spec(data.created_at@) + "\n"@ + "- ImportedAt: "@
        + imported_at + "\n\n"@ + trim_spec(data.content_markdown@) + "\n"@
}

/// Renders a note: a heading with the title, the clip's metadata, and its
/// content.
pub fn render_note(data: &NoteData, imported_at: &str) -> (r: String)
    ensures
        r@ == note_text(*data, imported_at@),
{
    let mut body = String::new();
    body.append("# ");
    body.append(trim_str(data.title.as_str()));
    body.append("\n\n");
    body.append("- Source: ");
    match &data.source {
        Some(s) => body.append(s.as_str()),
        None => body.append("unknown"),
    }
    body.append("\n");
    body.append("- Type: ");
    body.append(trim_str(data.clip_type.as_str()));
    body.append("\n");
    body.append("- URL: ");
    body.append(trim_str(data.url.as_str()));
    body.append("\n");
    body.append("- CreatedAt: ");
    body.append(trim_str(data.created_at.as_str()));
    body.append("\n");
    body.append("- ImportedAt: ");
    body.append(imported_at);
    body.append("\n\n");
    body.append(trim_str(data.content_markdown.as_str()));
    body.append("\n");
    assert(body@ =~= note_text(*data, imported_at@));
    body
}

/// The file name of a note: `<timestamp>-<slug>-<first 8 characters of the
/// clip id>.md`.
pub fn note_file_name(timestamp: &str, title: &str, clip_id: &uuid::Uuid) -> (r: String)
    ensures
        r@ == timestamp@ + "-"@ + slug_spec(title@) + "-"@ + uuid_text_of(*clip_id).subrange(0, 8)
            + ".md"@,
{
    let id = uuid_text(clip_id);
    let mut name = String::new();
    name.append(timestamp);
    name.append("-");
    name.append(slugify_title(title).as_str());
    name.append("-");
    name.append(id.as_str().substring_char(0, 8));
    name.append(".md");
    assert(name@ =~= timestamp@ + "-"@ + slug_spec(title@) + "-"@ + id@.subrange(0, 8) + ".md"@);
    name
}

} // verus!
