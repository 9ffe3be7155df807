//! The run pipeline: the fixed command script sent to the sidecar
//! (connect, create a notebook, import the URLs, ask the prompt) and how each
//! outcome fills the end report. The caller performs the commands and file
//! work and reports each outcome back.
use vstd::prelude::*;

use crate::bridge::process::BridgeProcessConfig;
use crate::io::end_writer::{EndReport, ImportFailure};
use crate::json::{
    empty_object, is_empty_object, json_array, json_as_array, json_as_str, json_get, json_object,
    json_string, member_items, member_items_spec, member_str, member_str_spec, member_u64,
    member_u64_spec,
};
use crate::text::{trim_spec, trim_str, view_opt};

verus! {

/// Where a run reads its input and writes its report, and how it reaches
/// the sidecar.
#[derive(Debug)]
pub struct RunnerConfig {
    pub input: std::path::PathBuf,
    pub output: std::path::PathBuf,
    pub title: String,
    pub sidecar_script: std::path::PathBuf,
    pub node_path: std::path::PathBuf,
    pub profile_dir: Option<std::path::PathBuf>,
    pub browser_path: Option<std::path::PathBuf>,
    pub timeout_sec: u64,
}

/// Relies on std::path::PathBuf's Clone: the copy is the same path.
#[verifier::external_body]
fn clone_path(p: &std::path::PathBuf) -> (r: std::path::PathBuf)
    ensures
        r == *p,
{
    p.clone()
}

fn clone_opt_path(p: &Option<std::path::PathBuf>) -> (r: Option<std::path::PathBuf>)
    ensures
        r == *p,
{
    match p {
        Some(x) => Some(clone_path(x)),
        None => None,
    }
}

impl RunnerConfig {
    /// The sidecar settings of this run.
    pub fn bridge_config(&self) -> (r: BridgeProcessConfig)
        ensures
            r.node_path == self.node_path,
            r.sidecar_script == self.sidecar_script,
            r.profile_dir == self.profile_dir,
            r.browser_path == self.browser_path,
            r.timeout_sec == self.timeout_sec,
    {
        BridgeProcessConfig {
            node_path: clone_path(&self.node_path),
            sidecar_script: clone_path(&self.sidecar_script),
            profile_dir: clone_opt_path(&self.profile_dir),
            browser_path: clone_opt_path(&self.browser_path),
            timeout_sec: self.timeout_sec,
        }
    }

    /// This configuration with the notebook title replaced when one is given.
    pub fn with_title(&self, title: Option<String>) -> (r: RunnerConfig)
        ensures
            r.title@ == match title {
                Some(t) => t@,
                None => self.title@,
            },
            r.input == self.input,
            r.output == self.output,
            r.sidecar_script == self.sidecar_script,
            r.node_path == self.node_path,
            r.profile_dir == self.profile_dir,
            r.browser_path == self.browser_path,
            r.timeout_sec == self.timeout_sec,
    {
        let t = match title {
            Some(t) => t,
            None => self.title.clone(),
        };
        RunnerConfig {
            input: clone_path(&self.input),
            output: clone_path(&self.output),
            title: t,
            sidecar_script: clone_path(&self.sidecar_script),
            node_path: clone_path(&self.node_path),
            profile_dir: clone_opt_path(&self.profile_dir),
            browser_path: clone_opt_path(&self.browser_path),
            timeout_sec: self.timeout_sec,
        }
    }
}

/// The command script of a run, in order.
#[derive(Debug, Clone, Copy, PartialEq, Eq, Structural)]
pub enum RunStage {
    Connect,
    CreateNotebook,
    ImportUrls,
    Ask,
    Done,
}

/// A run in progress: the report so far, the next command, and whether
/// every step so far succeeded.
#[derive(Debug)]
pub struct RunPipeline {
    pub report: EndReport,
    pub stage: RunStage,
    pub pipeline_ok: bool,
    pub default_title: String,
}

pub open spec fn failed_word() -> Seq<char> {
    seq!['f', 'a', 'i', 'l', 'e', 'd']
}

pub open spec fn ok_word() -> Seq<char> {
    seq!['o', 'k']
}

/// The command name sent at each stage.
pub open spec fn stage_command(stage: RunStage) -> Seq<char> {
    match stage {
        RunStage::Connect => "connect"@,
        RunStage::CreateNotebook => "create_notebook"@,
        RunStage::ImportUrls => "import_urls"@,
        RunStage::Ask => "ask"@,
        RunStage::Done => "close"@,
    }
}

/// `new_p`'s errors are `old_p`'s with `line` added at the end.
pub open spec fn added_error(old_p: RunPipeline, new_p: RunPipeline, line: Seq<char>) -> bool {
    &&& new_p.report.errors@.len() == old_p.report.errors@.len() + 1
    &&& forall|k: int|
        0 <= k < old_p.report.errors@.len() ==> #[trigger] new_p.report.errors@[k]
            == old_p.report.errors@[k]
    &&& new_p.report.errors@.last()@ == line
}

/// The report fields other than errors and status are left alone.
pub open spec fn same_findings(a: EndReport, b: EndReport) -> bool {
    &&& a.notebook_title == b.notebook_title
    &&& a.notebook_url == b.notebook_url
    &&& a.prompt == b.prompt
    &&& a.answer == b.answer
    &&& a.imported == b.imported
    &&& a.failed == b.failed
    &&& a.duration_ms == b.duration_ms
}

fn push_error(errors: &mut Vec<String>, prefix: &str, message: &str)
    ensures
        final(errors)@ == old(errors)@.push(final(errors)@.last()),
        final(errors)@.last()@ == prefix@ + message@,
{
    let mut line = String::new();
    line.append(prefix);
    line.append(message);
    errors.push(line);
}

impl RunPipeline {
    /// A run that has done nothing yet: status "failed" until every step
    /// succeeds, the configured title, no errors.
    pub fn new(title: &str) -> (p: RunPipeline)
        ensures
            p.stage == RunStage::Connect,
            p.pipeline_ok,
            p.default_title@ == title@,
            p.report.status@ == failed_word(),
            p.report.notebook_title matches Some(t) && t@ == title@,
            p.report.notebook_url is None,
            p.report.prompt@.len() == 0,
            p.report.answer is None,
            p.report.imported == 0,
            p.report.failed@.len() == 0,
            p.report.errors@.len() == 0,
            p.report.duration_ms == 0,
    {
        proof {
            reveal_strlit("failed");
            assert("failed"@ =~= failed_word());
        }
        RunPipeline {
            report: EndReport {
                status: "failed".to_string(),
                notebook_title: Some(title.to_string()),
                notebook_url: None,
                prompt: String::new(),
                answer: None,
                imported: 0,
                failed: Vec::new(),
                errors: Vec::new(),
                duration_ms: 0,
            },
            stage: RunStage::Connect,
            pipeline_ok: true,
            default_title: title.to_string(),
        }
    }

    /// The start file was read: its prompt goes into the report.
    pub fn input_parsed(&mut self, prompt: &str)
        ensures
            final(self).report.status == old(self).report.status,
            final(self).report.prompt@ == prompt@,
            final(self).stage == old(self).stage,
            final(self).pipeline_ok == old(self).pipeline_ok,
            final(self).report.errors == old(self).report.errors,
    {
        self.report.prompt = prompt.to_string();
    }

    /// The start file could not be read or parsed: the run ends failed.
    pub fn input_failed(&mut self, message: &str)
        ensures
            final(self).report.status == old(self).report.status,
            added_error(*old(self), *final(self), "Failed to parse start.txt: "@ + message@),
            final(self).stage == RunStage::Done,
            !final(self).pipeline_ok,
            same_findings(old(self).report, final(self).report),
    {
        push_error(&mut self.report.errors, "Failed to parse start.txt: ", message);
        self.stage = RunStage::Done;
        self.pipeline_ok = false;
    }

    /// The sidecar could not be started: the run ends failed.
    pub fn spawn_failed(&mut self, message: &str)
        ensures
            final(self).report.status == old(self).report.status,
            added_error(*old(self), *final(self), "failed to start bridge process: "@ + message@),
            final(self).stage == RunStage::Done,
            !final(self).pipeline_ok,
            same_findings(old(self).report, final(self).report),
    {
        push_error(&mut self.report.errors, "failed to start bridge process: ", message);
        self.stage = RunStage::Done;
        self.pipeline_ok = false;
    }

    /// The name of the command due at this stage.
    pub fn command_name(&self) -> (r: &'static str)
        ensures
            r@ == stage_command(self.stage),
    {
        match self.stage {
            RunStage::Connect => "connect",
            RunStage::CreateNotebook => "create_notebook",
            RunStage::ImportUrls => "import_urls",
            RunStage::Ask => "ask",
            RunStage::Done => "close",
        }
    }

    /// The command of the current stage failed: the run stops there.
    pub fn command_failed(&mut self, message: &str)
        ensures
            final(self).report.status == old(self).report.status,
            added_error(
                *old(self),
                *final(self),
                stage_command(old(self).stage) + " failed: "@ + message@,
            ),
            final(self).stage == RunStage::Done,
            !final(self).pipeline_ok,
            same_findings(old(self).report, final(self).report),
    {
        let mut prefix = String::new();
        prefix.append(self.command_name());
        prefix.append(" failed: ");
        push_error(&mut self.report.errors, prefix.as_str(), message);
        self.stage = RunStage::Done;
        self.pipeline_ok = false;
    }

    /// The sidecar connected; the notebook is created next.
    pub fn connected(&mut self)
        requires
            old(self).stage == RunStage::Connect,
        ensures
            final(self).default_title == old(self).default_title,
            final(self).stage == RunStage::CreateNotebook,
            final(self).report == old(self).report,
            final(self).pipeline_ok == old(self).pipeline_ok,
    {
        self.stage = RunStage::CreateNotebook;
    }

    /// The notebook exists: its title (the configured one when the sidecar
    /// gave none) and URL go into the report; the URLs are imported next.
    pub fn notebook_created(&mut self, title: Option<String>, url: Option<String>)
        requires
            old(self).stage == RunStage::CreateNotebook,
        ensures
            final(self).default_title == old(self).default_title,
            final(self).report.status == old(self).report.status,
            final(self).stage == RunStage::ImportUrls,
            final(self).report.notebook_title matches Some(t) && t@ == match title {
                Some(x) => x@,
                None => old(self).default_title@,
            },
            final(self).report.notebook_url == url,
            final(self).report.errors == old(self).report.errors,
            final(self).report.prompt == old(self).report.prompt,
            final(self).pipeline_ok == old(self).pipeline_ok,
    {
        let t = match title {
            Some(x) => x,
            None => self.default_title.clone(),
        };
        self.report.notebook_title = Some(t);
        self.report.notebook_url = url;
        self.stage = RunStage::ImportUrls;
    }

    /// The URLs were imported: the count (0 when absent) and the failures go
    /// into the report; the prompt is asked next.
    pub fn urls_imported(&mut self, imported: Option<u64>, failed: Vec<ImportFailure>)
        requires
            old(self).stage == RunStage::ImportUrls,
        ensures
            final(self).default_title == old(self).default_title,
            final(self).report.status == old(self).report.status,
            final(self).stage == RunStage::Ask,
            final(self).report.imported == match imported {
                Some(n) => n as usize,
                None => 0usize,
            },
            final(self).report.failed@ == failed@,
            final(self).report.errors == old(self).report.errors,
            final(self).report.prompt == old(self).report.prompt,
            final(self).report.notebook_title == old(self).report.notebook_title,
            final(self).pipeline_ok == old(self).pipeline_ok,
    {
        self.report.imported = match imported {
            Some(n) => n as usize,
            None => 0,
        };
        self.report.failed = failed;
        self.stage = RunStage::Ask;
    }

    /// The prompt was answered: the answer goes into the report; an answer
    /// that is missing or blank fails the run.
    pub fn answered(&mut self, answer: Option<String>)
        requires
            old(self).stage == RunStage::Ask,
        ensures
            final(self).default_title == old(self).default_title,
            final(self).report.status == old(self).report.status,
            final(self).stage == RunStage::Done,
            final(self).report.answer == answer,
            ({
                let blank = match answer {
                    Some(a) => trim_spec(a@).len() == 0,
                    None => true,
                };
                if blank {
                    &&& added_error(
                        *old(self),
                        *final(self),
                        "ask succeeded but returned empty answer"@,
                    )
                    &&& !final(self).pipeline_ok
                } else {
                    &&& final(self).report.errors == old(self).report.errors
                    &&& final(self).pipeline_ok == old(self).pipeline_ok
                }
            }),
            final(self).report.prompt == old(self).report.prompt,
            final(self).report.notebook_title == old(self).report.notebook_title,
            final(self).report.imported == old(self).report.imported,
    {
        let blank = match &answer {
            Some(a) => trim_str(a.as_str()).unicode_len() == 0,
            None => true,
        };
        self.report.answer = answer;
        if blank {
            push_error(&mut self.report.errors, "ask succeeded but returned empty answer", "");
            self.pipeline_ok = false;
            proof {
                reveal_strlit("");
                assert(self.report.errors@.last()@ =~= "ask succeeded but returned empty answer"@);
            }
        }
        self.stage = RunStage::Done;
    }

    /// The command of the current stage succeeded with reply data `data`:
    /// the stage's findings are read from it and the run moves on.
    pub fn command_succeeded(&mut self, data: &serde_json::Value)
        requires
            old(self).stage != RunStage::Done,
        ensures
            final(self).stage == match old(self).stage {
                RunStage::Connect => RunStage::CreateNotebook,
                RunStage::CreateNotebook => RunStage::ImportUrls,
                RunStage::ImportUrls => RunStage::Ask,
                _ => RunStage::Done,
            },
            final(self).report.status == old(self).report.status,
            final(self).report.prompt == old(self).report.prompt,
            final(self).default_title == old(self).default_title,
            old(self).stage != RunStage::Ask ==> final(self).report.errors == old(
                self,
            ).report.errors,
            old(self).stage != RunStage::Ask ==> final(self).pipeline_ok == old(self).pipeline_ok,
            old(self).stage == RunStage::Connect ==> final(self).report == old(self).report,
            old(self).stage == RunStage::CreateNotebook ==> {
                &&& final(self).report.notebook_title matches Some(t) && t@ == match member_str_spec(
                    *data,
                    "title"@,
                ) {
                    Some(x) => x,
                    None => old(self).default_title@,
                }
                &&& view_opt(final(self).report.notebook_url) == member_str_spec(*data, "url"@)
            },
            old(self).stage == RunStage::ImportUrls ==> {
                &&& final(self).report.imported == match member_u64_spec(*data, "imported"@) {
                    Some(n) => n as usize,
                    None => 0usize,
                }
                &&& failures_match(*data, final(self).report.failed@)
            },
            old(self).stage == RunStage::Ask ==> {
                &&& view_opt(final(self).report.answer) == member_str_spec(*data, "answer"@)
                &&& if blank_answer(member_str_spec(*data, "answer"@)) {
                    &&& added_error(
                        *old(self),
                        *final(self),
                        "ask succeeded but returned empty answer"@,
                    )
                    &&& !final(self).pipeline_ok
                } else {
                    &&& final(self).report.errors == old(self).report.errors
                    &&& final(self).pipeline_ok == old(self).pipeline_ok
                }
            },
    {
        match self.stage {
            RunStage::Connect => self.connected(),
            RunStage::CreateNotebook => {
                let title = member_str(data, "title");
                let url = member_str(data, "url");
                self.notebook_created(title, url);
            },
            RunStage::ImportUrls => {
                let imported = member_u64(data, "imported");
                let failed = parse_import_failures(data);
                self.urls_imported(imported, failed);
            },
            RunStage::Ask => {
                let answer = member_str(data, "answer");
                self.answered(answer);
            },
            RunStage::Done => {},
        }
    }

    /// The request payload of the current stage: `{}` to connect, the
    /// notebook title, the URLs to import, or the prompt to ask.
    pub fn command_payload(&self, urls: &Vec<String>) -> (r: serde_json::Value)
        ensures
            payload_matches(self.stage, self.default_title@, self.report.prompt@, urls@, r),
    {
        proof {
            reveal_strlit("title");
            reveal_strlit("urls");
            reveal_strlit("prompt");
        }
        match self.stage {
            RunStage::CreateNotebook => {
                let mut members: Vec<(String, serde_json::Value)> = Vec::new();
                members.push(("title".to_string(), json_string(self.default_title.clone())));
                assert(members@[0].0@ == "title"@);
                json_object(members)
            },
            RunStage::ImportUrls => {
                let mut items: Vec<serde_json::Value> = Vec::new();
                let mut i: usize = 0;
                while i < urls.len()
                    invariant
                        i <= urls@.len(),
                        items@.len() == i,
                        forall|k: int|
                            0 <= k < i ==> json_as_str(#[trigger] items@[k]) == Some(urls@[k]@),
                    decreases urls@.len() - i,
                {
                    items.push(json_string(urls[i].clone()));
                    i = i + 1;
                }
                let list = json_array(items);
                let mut members: Vec<(String, serde_json::Value)> = Vec::new();
                members.push(("urls".to_string(), list));
                assert(members@[0].0@ == "urls"@);
                json_object(members)
            },
            RunStage::Ask => {
                let mut members: Vec<(String, serde_json::Value)> = Vec::new();
                members.push(("prompt".to_string(), json_string(self.report.prompt.clone())));
                assert(members@[0].0@ == "prompt"@);
                json_object(members)
            },
            _ => empty_object(),
        }
    }

    /// Closing the sidecar failed: noted among the errors.
    pub fn close_failed(&mut self, message: &str)
        ensures
            final(self).report.status == old(self).report.status,
            added_error(*old(self), *final(self), "bridge close failed: "@ + message@),
            final(self).stage == old(self).stage,
            final(self).pipeline_ok == old(self).pipeline_ok,
            same_findings(old(self).report, final(self).report),
    {
        push_error(&mut self.report.errors, "bridge close failed: ", message);
    }

    /// Settles the status: "ok" when all four commands succeeded and no
    /// error was noted, "failed" otherwise.
    pub fn finish(&mut self, duration_ms: u128)
        ensures
            final(self).report.status@ == if old(self).stage == RunStage::Done
                && old(self).pipeline_ok && old(self).report.errors@.len() == 0 {
                ok_word()
            } else {
                failed_word()
            },
            final(self).report.duration_ms == duration_ms,
            final(self).report.errors == old(self).report.errors,
            same_findings(
                old(self).report,
                EndReport { duration_ms: old(self).report.duration_ms, ..final(self).report },
            ),
    {
        proof {
            reveal_strlit("ok");
            reveal_strlit("failed");
            assert("ok"@ =~= ok_word());
            assert("failed"@ =~= failed_word());
        }
        if self.stage == RunStage::Done && self.pipeline_ok && self.report.errors.len() == 0 {
            self.report.status = "ok".to_string();
        } else {
            self.report.status = "failed".to_string();
        }
        self.report.duration_ms = duration_ms;
    }

    /// Whether the run ended with status "ok".
    pub fn succeeded(&self) -> (r: bool)
        ensures
            r == (self.report.status@ == ok_word()),
    {
        proof {
            reveal_strlit("ok");
            assert("ok"@ =~= ok_word());
        }
        crate::text::str_equals(self.report.status.as_str(), "ok")
    }
}

pub open spec fn or_unknown(v: Option<Seq<char>>) -> Seq<char> {
    match v {
        Some(s) => s,
        None => "unknown"@,
    }
}

/// A blank or missing answer.
pub open spec fn blank_answer(answer: Option<Seq<char>>) -> bool {
    match answer {
        Some(a) => trim_spec(a).len() == 0,
        None => true,
    }
}

/// `failed` lists one failure per element of the reply's `failed` array, in
/// order, each with the element's `url` and `reason` ("unknown" where one is
/// missing); none when the reply has no such array.
pub open spec fn failures_match(data: serde_json::Value, failed: Seq<ImportFailure>) -> bool {
    match member_items_spec(data, "failed"@) {
        None => failed.len() == 0,
        Some(items) => failed.len() == items.len() && forall|k: int|
            0 <= k < failed.len() ==> (#[trigger] failed[k]).url@ == or_unknown(
                member_str_spec(items[k], "url"@),
            ) && failed[k].reason@ == or_unknown(member_str_spec(items[k], "reason"@)),
    }
}

/// The payload each stage sends.
pub open spec fn payload_matches(
    stage: RunStage,
    title: Seq<char>,
    prompt: Seq<char>,
    urls: Seq<String>,
    r: serde_json::Value,
) -> bool {
    match stage {
        RunStage::CreateNotebook => match json_get(r, "title"@) {
            Some(t) => json_as_str(t) == Some(title),
            None => false,
        },
        RunStage::ImportUrls => match json_get(r, "urls"@) {
            Some(a) => match json_as_array(a) {
                Some(items) => items.len() == urls.len() && forall|k: int|
                    0 <= k < items.len() ==> json_as_str(#[trigger] items[k]) == Some(urls[k]@),
                None => false,
            },
            None => false,
        },
        RunStage::Ask => match json_get(r, "prompt"@) {
            Some(t) => json_as_str(t) == Some(prompt),
            None => false,
        },
        _ => is_empty_object(r),
    }
}

/// Import failures from the `url` and `reason` of each reported item,
/// "unknown" where one is missing.
pub fn import_failures_from(items: Vec<(Option<String>, Option<String>)>) -> (r: Vec<ImportFailure>)
    ensures
        r@.len() == items@.len(),
        forall|k: int|
            0 <= k < r@.len() ==> (#[trigger] r@[k]).url@ == or_unknown(view_opt(items@[k].0))
                && r@[k].reason@ == or_unknown(view_opt(items@[k].1)),
{
    let mut out: Vec<ImportFailure> = Vec::new();
    let mut i: usize = 0;
    while i < items.len()
        invariant
            i <= items@.len(),
            out@.len() == i,
            forall|k: int|
                0 <= k < i ==> (#[trigger] out@[k]).url@ == or_unknown(view_opt(items@[k].0))
                    && out@[k].reason@ == or_unknown(view_opt(items@[k].1)),
        decreases items@.len() - i,
    {
        let url = match &items[i].0 {
            Some(u) => u.clone(),
            None => "unknown".to_string(),
        };
        let reason = match &items[i].1 {
            Some(x) => x.clone(),
            None => "unknown".to_string(),
        };
        out.push(ImportFailure { url, reason });
        i = i + 1;
    }
    out
}

/// The failures listed under `failed` in an import reply.
pub fn parse_import_failures(data: &serde_json::Value) -> (r: Vec<ImportFailure>)
    ensures
        failures_match(*data, r@),
{
    let items = match member_items(data, "failed") {
        Some(items) => items,
        None => return Vec::new(),
    };
    let mut pairs: Vec<(Option<String>, Option<String>)> = Vec::new();
    let mut i: usize = 0;
    while i < items.len()
        invariant
            i <= items@.len(),
            pairs@.len() == i,
            forall|k: int|
                0 <= k < i ==> view_opt((#[trigger] pairs@[k]).0) == member_str_spec(
                    items@[k],
                    "url"@,
                ) && view_opt(pairs@[k].1) == member_str_spec(items@[k], "reason"@),
        decreases items@.len() - i,
    {
        pairs.push((member_str(&items[i], "url"), member_str(&items[i], "reason")));
        i = i + 1;
    }
    let r = import_failures_from(pairs);
    assert forall|k: int| 0 <= k < r@.len() implies (#[trigger] r@[k]).url@ == or_unknown(
        member_str_spec(items@[k], "url"@),
    ) && r@[k].reason@ == or_unknown(member_str_spec(items@[k], "reason"@)) by {
        assert(view_opt(pairs@[k].0) == member_str_spec(items@[k], "url"@));
    }
    r
}

} // verus!
