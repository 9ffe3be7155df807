//! The end report: what a run produced, rendered as plain text sections.
use vstd::prelude::*;

use crate::text::{decimal, push_decimal, trim_spec, trim_str};

verus! {

/// A URL that the sidecar could not import, and why.
#[derive(Debug, Clone, PartialEq, Eq)]
pub struct ImportFailure {
    pub url: String,
    pub reason: String,
}

/// Everything the end report shows.
#[derive(Debug, Clone, PartialEq, Eq)]
pub struct EndReport {
    pub status: String,
    pub notebook_title: Option<String>,
    pub notebook_url: Option<String>,
    pub prompt: String,
    pub answer: Option<String>,
    pub imported: usize,
    pub failed: Vec<ImportFailure>,
    pub errors: Vec<String>,
    pub duration_ms: u128,
}

/// An optional value, or "N/A".
pub open spec fn or_na(v: Option<String>) -> Seq<char> {
    match v {
        Some(s) => s@,
        None => "N/A"@,
    }
}

/// The lines of the first `n` import failures.
pub open spec fn failure_lines(items: Seq<ImportFailure>, n: nat) -> Seq<char>
    decreases n,
{
    if n == 0 || n > items.len() {
        Seq::empty()
    } else {
        failure_lines(items, (n - 1) as nat) + "- "@ + items[n - 1].url@ + " :: "@ + items[n
            - 1].reason@ + "\n"@
    }
}

/// The lines of the first `n` errors.
pub open spec fn error_lines(items: Seq<String>, n: nat) -> Seq<char>
    decreases n,
{
    if n == 0 || n > items.len() {
        Seq::empty()
    } else {
        error_lines(items, (n - 1) as nat) + "- "@ + items[n - 1]@ + "\n"@
    }
}

/// The answer section's body: the trimmed answer, or a note that none came.
pub open spec fn answer_body(answer: Option<String>) -> Seq<char> {
    match answer {
        Some(a) => if trim_spec(a@).len() > 0 {
            trim_spec(a@) + "\n\n"@
        } else {
            "No answer received\n\n"@
        },
        None => "No answer received\n\n"@,
    }
}

/// The errors section's body: one line per error, or "None".
pub open spec fn errors_body(errors: Seq<String>) -> Seq<char> {
    if errors.len() == 0 {
        "None\n\n"@
    } else {
        error_lines(errors, errors.len()) + "\n"@
    }
}

/// The full text of the end report.
pub open spec fn report_text(r: EndReport) -> Seq<char> {
    "Status\n"@ + "------\n"@ + r.status@ + "\n\n"@ + "Notebook\n"@ + "--------\n"@ + "Title: "@
        + or_na(r.notebook_title) + "\n"@ + "URL: "@ + or_na(r.notebook_url) + "\n\n"@
        + "Prompt\n"@ + "------\n"@ + r.prompt@ + "\n\n"@ + "Imported\n"@ + "--------\n"@
        + "Succeeded: "@ + decimal(r.imported as nat) + "\n"@ + "Failed: "@ + decimal(
        r.failed@.len(),
    ) + "\n"@ + failure_lines(r.failed@, r.failed@.len()) + "\n"@ + "Answer\n"@ + "------\n"@
        + answer_body(r.answer) + "Errors\n"@ + "------\n"@ + errors_body(r.errors@)
        + "Timing\n"@ + "------\n"@ + "DurationMs: "@ + decimal(r.duration_ms as nat) + "\n"@
}

fn push_or_na(out: &mut String, v: &Option<String>)
    ensures
        final(out)@ == old(out)@ + or_na(*v),
{
    match v {
        Some(s) => out.append(s.as_str()),
        None => out.append("N/A"),
    }
}

/// Renders the end report as text.
pub fn render_end_report(report: &EndReport) -> (r: String)
    ensures
        r@ == report_text(*report),
{
    let mut out = String::new();
    out.append("Status\n");
    out.append("------\n");
    out.append(report.status.as_str());
    out.append("\n\n");

    out.append("Notebook\n");
    out.append("--------\n");
    out.append("Title: ");
    push_or_na(&mut out, &report.notebook_title);
    out.append("\n");
    out.append("URL: ");
    push_or_na(&mut out, &report.notebook_url);
    out.append("\n\n");

    out.append("Prompt\n");
    out.append("------\n");
    out.append(report.prompt.as_str());
    out.append("\n\n");

    out.append("Imported\n");
    out.append("--------\n");
    out.append("Succeeded: ");
    push_decimal(&mut out, report.imported as u128);
    out.append("\n");
    out.append("Failed: ");
    push_decimal(&mut out, report.failed.len() as u128);
    out.append("\n");
    let ghost head = out@;
    let mut i: usize = 0;
    while i < report.failed.len()
        invariant
            i <= report.failed@.len(),
            out@ == head + failure_lines(report.failed@, i as nat),
        decreases report.failed@.len() - i,
    {
        out.append("- ");
        out.append(report.failed[i].url.as_str());
        out.append(" :: ");
        out.append(report.failed[i].reason.as_str());
        out.append("\n");
        i = i + 1;
    }
    out.append("\n");

    out.append("Answer\n");
    out.append("------\n");
    let ghost before_answer = out@;
    match &report.answer {
        Some(answer) => {
            let t = trim_str(answer.as_str());
            if t.unicode_len() > 0 {
                out.append(t);
                out.append("\n\n");
            } else {
                out.append("No answer received\n\n");
            }
        },
        None => out.append("No answer received\n\n"),
    }
    assert(out@ == before_answer + answer_body(report.answer));

    out.append("Errors\n");
    out.append("------\n");
    let ghost before_errors = out@;
    if report.errors.len() == 0 {
        out.append("None\n\n");
    } else {
        let mut k: usize = 0;
        while k < report.errors.len()
            invariant
                k <= report.errors@.len(),
                out@ == before_errors + error_lines(report.errors@, k as nat),
            decreases report.errors@.len() - k,
        {
            out.append("- ");
            out.append(report.errors[k].as_str());
            out.append("\n");
            k = k + 1;
        }
        out.append("\n");
    }
    assert(out@ == before_errors + errors_body(report.errors@));

    out.append("Timing\n");
    out.append("------\n");
    out.append("DurationMs: ");
    push_decimal(&mut out, report.duration_ms);
    out.append("\n");
    assert(out@ =~= report_text(*report));
    out
}

} // verus!
