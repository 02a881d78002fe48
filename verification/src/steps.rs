//! Step and job results, the bookkeeping of a job's step loop, and the
//! choice of runner image.
use vstd::prelude::*;
use crate::strmap::StrMap;
use crate::text::{chars_of, has_prefix, owned, push_all, push_str, str_eq, str_starts_with, string_of, slice_range, decimal, decimal_chars, trim, trim_str, ascii_lower_seq, ascii_lower_vec};
use crate::workflow::Job;

verus! {

/// The status of a step.
#[derive(PartialEq, Eq, Structural, Clone, Copy, Debug)]
pub enum StepStatus {
    Success,
    Failure,
    Skipped,
}

/// The status of a job.
#[derive(PartialEq, Eq, Structural, Clone, Copy, Debug)]
pub enum JobStatus {
    Success,
    Failure,
    Skipped,
}

/// The lowercase word for a status (`success`, `failure`, `skipped`).
pub open spec fn status_word(s: StepStatus) -> Seq<char> {
    match s {
        StepStatus::Success => "success"@,
        StepStatus::Failure => "failure"@,
        StepStatus::Skipped => "skipped"@,
    }
}

impl StepStatus {
    /// The status as it is shown and stored (`success`, `failure`, `skipped`).
    pub fn as_str(&self) -> (r: &'static str)
        ensures
            r@ == status_word(*self),
    {
        match self {
            StepStatus::Success => "success",
            StepStatus::Failure => "failure",
            StepStatus::Skipped => "skipped",
        }
    }

    /// The variant's name (`Success`, `Failure`, `Skipped`).
    pub fn variant_name(&self) -> (r: &'static str)
        ensures
            r@ == (match *self {
                StepStatus::Success => "Success"@,
                StepStatus::Failure => "Failure"@,
                StepStatus::Skipped => "Skipped"@,
            }),
    {
        match self {
            StepStatus::Success => "Success",
            StepStatus::Failure => "Failure",
            StepStatus::Skipped => "Skipped",
        }
    }
}

impl JobStatus {
    /// The status as it is shown (`success`, `failure`, `skipped`).
    pub fn as_str(&self) -> (r: &'static str)
        ensures
            r@ == (match *self {
                JobStatus::Success => "success"@,
                JobStatus::Failure => "failure"@,
                JobStatus::Skipped => "skipped"@,
            }),
    {
        match self {
            JobStatus::Success => "success",
            JobStatus::Failure => "failure",
            JobStatus::Skipped => "skipped",
        }
    }
}

/// The result of one step.
pub struct StepResult {
    pub name: String,
    pub status: StepStatus,
    pub output: String,
    /// The raw result, before `continue-on-error`.
    pub outcome: StepStatus,
    /// The effective result, after `continue-on-error`.
    pub conclusion: StepStatus,
}

impl StepResult {
    /// A result whose outcome and conclusion are its status.
    pub fn new(name: String, status: StepStatus, output: String) -> (r: StepResult)
        ensures
            r.name == name,
            r.status == status,
            r.output == output,
            r.outcome == status,
            r.conclusion == status,
    {
        StepResult { name, outcome: status, conclusion: status, status, output }
    }
}

/// How the status table reads after a step's status is recorded: under its
/// id, when it has one, the outcome and conclusion words; nothing else moves.
pub open spec fn status_recorded(before: Map<Seq<char>, (String, String)>, after: Map<Seq<char>, (String, String)>, step_id: Option<&str>, result: StepResult) -> bool {
    match step_id {
        Some(id) => after.dom() == before.dom().insert(id@)
            && after[id@].0@ == status_word(result.outcome)
            && after[id@].1@ == status_word(result.conclusion)
            && (forall|k: Seq<char>| k != id@ && #[trigger] before.contains_key(k) ==> after[k] == before[k]),
        None => after == before,
    }
}

/// Records a step's outcome and conclusion under its id (steps without an
/// id are not recorded), and marks the job failed when the conclusion is a
/// failure.
pub fn record_step_status(
    step_id: Option<&str>,
    result: &StepResult,
    step_status_map: &mut StrMap<(String, String)>,
    job_status_str: &mut String,
)
    ensures
        status_recorded(old(step_status_map)@, final(step_status_map)@, step_id, *result),
        final(job_status_str)@ == (if result.conclusion == StepStatus::Failure { "failure"@ } else { old(job_status_str)@ }),
{
    match step_id {
        Some(id) => {
            let value = (owned(result.outcome.as_str()), owned(result.conclusion.as_str()));
            step_status_map.insert(owned(id), value);
        },
        None => {},
    }
    if result.conclusion == StepStatus::Failure {
        *job_status_str = owned("failure");
    }
}

/// What a job's step loop accumulates.
pub struct StepLoopState {
    pub step_results: Vec<StepResult>,
    pub job_logs: String,
    pub step_outputs_map: StrMap<StrMap<String>>,
    pub step_status_map: StrMap<(String, String)>,
    pub job_status_str: String,
}

impl StepLoopState {
    /// The state before the first step: nothing recorded, status `success`.
    pub fn new() -> (s: StepLoopState)
        ensures
            s.step_results@.len() == 0,
            s.job_logs@ == Seq::<char>::empty(),
            s.step_outputs_map@ == Map::<Seq<char>, StrMap<String>>::empty(),
            s.step_status_map@ == Map::<Seq<char>, (String, String)>::empty(),
            s.job_status_str@ == "success"@,
    {
        StepLoopState {
            step_results: Vec::new(),
            job_logs: String::new(),
            step_outputs_map: StrMap::new(),
            step_status_map: StrMap::new(),
            job_status_str: owned("success"),
        }
    }
}

/// The log lines written for a completed step: its full output when
/// verbose or failed, otherwise one status line.
pub open spec fn step_log_entry(name: Seq<char>, output: Seq<char>, status: StepStatus, verbose: bool) -> Seq<char> {
    if verbose || status == StepStatus::Failure {
        "\n=== Output from step '"@ + name + "' ===\n"@ + output + "\n=== End output ===\n\n"@
    } else {
        "Step '"@ + name + "' completed with status: "@ + (match status {
            StepStatus::Success => "Success"@,
            StepStatus::Failure => "Failure"@,
            StepStatus::Skipped => "Skipped"@,
        }) + "\n"@
    }
}

impl StepLoopState {
    /// Records a step that was skipped by its condition: its status is
    /// recorded and its result kept, without a log entry.
    pub fn record_skipped(&mut self, step_id: Option<&str>, result: StepResult)
        ensures
            final(self).step_results@ == old(self).step_results@.push(result),
            final(self).job_logs == old(self).job_logs,
            final(self).step_outputs_map@ == old(self).step_outputs_map@,
            status_recorded(old(self).step_status_map@, final(self).step_status_map@, step_id, result),
            final(self).job_status_str@ == (if result.conclusion == StepStatus::Failure { "failure"@ } else { old(self).job_status_str@ }),
    {
        record_step_status(step_id, &result, &mut self.step_status_map, &mut self.job_status_str);
        self.step_results.push(result);
    }

    /// Records a step that ran: its status, a log entry, and its result.
    pub fn record_completed(&mut self, step_id: Option<&str>, result: StepResult, verbose: bool)
        ensures
            final(self).step_results@ == old(self).step_results@.push(result),
            final(self).job_logs@ == old(self).job_logs@ + step_log_entry(result.name@, result.output@, result.status, verbose),
            final(self).step_outputs_map@ == old(self).step_outputs_map@,
            status_recorded(old(self).step_status_map@, final(self).step_status_map@, step_id, result),
            final(self).job_status_str@ == (if result.conclusion == StepStatus::Failure { "failure"@ } else { old(self).job_status_str@ }),
    {
        record_step_status(step_id, &result, &mut self.step_status_map, &mut self.job_status_str);
        if verbose || result.status == StepStatus::Failure {
            push_str(&mut self.job_logs, "\n=== Output from step '");
            push_str(&mut self.job_logs, result.name.as_str());
            push_str(&mut self.job_logs, "' ===\n");
            push_str(&mut self.job_logs, result.output.as_str());
            push_str(&mut self.job_logs, "\n=== End output ===\n\n");
        } else {
            push_str(&mut self.job_logs, "Step '");
            push_str(&mut self.job_logs, result.name.as_str());
            push_str(&mut self.job_logs, "' completed with status: ");
            push_str(&mut self.job_logs, result.status.variant_name());
            push_str(&mut self.job_logs, "\n");
        }
        self.step_results.push(result);
    }
}

/// The location prefix of an annotation: `file:line:col: `, `file:line: `
/// or `file: `, and nothing when the file is unknown or only a column is.
pub open spec fn annotation_location(file: Option<Seq<char>>, line: Option<u32>, col: Option<u32>) -> Seq<char> {
    match (file, line, col) {
        (Some(f), Some(l), Some(c)) => f + ":"@ + decimal(l as nat) + ":"@ + decimal(c as nat) + ": "@,
        (Some(f), Some(l), None) => f + ":"@ + decimal(l as nat) + ": "@,
        (Some(f), None, None) => f + ": "@,
        _ => Seq::empty(),
    }
}

/// Formats the location prefix of a workflow-command annotation.
pub fn format_annotation_location(file: Option<&str>, line: Option<u32>, col: Option<u32>) -> (r: String)
    ensures
        r@ == annotation_location(match file { Some(f) => Some(f@), None => None }, line, col),
{
    match (file, line, col) {
        (Some(f), Some(l), Some(c)) => {
            let mut r = owned(f);
            push_str(&mut r, ":");
            push_all(&mut r, &decimal_chars(l as u64));
            push_str(&mut r, ":");
            push_all(&mut r, &decimal_chars(c as u64));
            push_str(&mut r, ": ");
            r
        },
        (Some(f), Some(l), None) => {
            let mut r = owned(f);
            push_str(&mut r, ":");
            push_all(&mut r, &decimal_chars(l as u64));
            push_str(&mut r, ": ");
            r
        },
        (Some(f), None, None) => {
            let mut r = owned(f);
            push_str(&mut r, ": ");
            r
        },
        _ => String::new(),
    }
}

/// The image of a runner label that the table names exactly.
pub open spec fn runner_table(t: Seq<char>) -> Option<Seq<char>> {
    if t == "ubuntu-latest"@ {
        Some("ubuntu:latest"@)
    } else if t == "ubuntu-22.04"@ {
        Some("ubuntu:22.04"@)
    } else if t == "ubuntu-20.04"@ {
        Some("ubuntu:20.04"@)
    } else if t == "ubuntu-18.04"@ {
        Some("ubuntu:18.04"@)
    } else if t == "ubuntu-latest-medium"@ {
        Some("catthehacker/ubuntu:act-latest"@)
    } else if t == "ubuntu-22.04-medium"@ {
        Some("catthehacker/ubuntu:act-22.04"@)
    } else if t == "ubuntu-20.04-medium"@ {
        Some("catthehacker/ubuntu:act-20.04"@)
    } else if t == "ubuntu-18.04-medium"@ {
        Some("catthehacker/ubuntu:act-18.04"@)
    } else if t == "ubuntu-latest-large"@ {
        Some("catthehacker/ubuntu:full-latest"@)
    } else if t == "ubuntu-22.04-large"@ {
        Some("catthehacker/ubuntu:full-22.04"@)
    } else if t == "ubuntu-20.04-large"@ {
        Some("catthehacker/ubuntu:full-20.04"@)
    } else if t == "ubuntu-18.04-large"@ {
        Some("catthehacker/ubuntu:full-18.04"@)
    } else if t == "macos-latest"@ {
        Some("rust:latest"@)
    } else if t == "macos-12"@ {
        Some("rust:latest"@)
    } else if t == "macos-11"@ {
        Some("rust:latest"@)
    } else if t == "macos-10.15"@ {
        Some("rust:latest"@)
    } else if t == "windows-latest"@ {
        Some("mcr.microsoft.com/windows/servercore:ltsc2022"@)
    } else if t == "windows-2022"@ {
        Some("mcr.microsoft.com/windows/servercore:ltsc2022"@)
    } else if t == "windows-2019"@ {
        Some("mcr.microsoft.com/windows/servercore:ltsc2019"@)
    } else if t == "python-latest"@ {
        Some("python:3.11-slim"@)
    } else if t == "python-3.11"@ {
        Some("python:3.11-slim"@)
    } else if t == "python-3.10"@ {
        Some("python:3.10-slim"@)
    } else if t == "python-3.9"@ {
        Some("python:3.9-slim"@)
    } else if t == "python-3.8"@ {
        Some("python:3.8-slim"@)
    } else if t == "node-latest"@ {
        Some("node:20-slim"@)
    } else if t == "node-20"@ {
        Some("node:20-slim"@)
    } else if t == "node-18"@ {
        Some("node:18-slim"@)
    } else if t == "node-16"@ {
        Some("node:16-slim"@)
    } else if t == "java-latest"@ {
        Some("eclipse-temurin:17-jdk"@)
    } else if t == "java-17"@ {
        Some("eclipse-temurin:17-jdk"@)
    } else if t == "java-11"@ {
        Some("eclipse-temurin:11-jdk"@)
    } else if t == "java-8"@ {
        Some("eclipse-temurin:8-jdk"@)
    } else if t == "go-latest"@ {
        Some("golang:1.21-slim"@)
    } else if t == "go-1.21"@ {
        Some("golang:1.21-slim"@)
    } else if t == "go-1.20"@ {
        Some("golang:1.20-slim"@)
    } else if t == "go-1.19"@ {
        Some("golang:1.19-slim"@)
    } else if t == "dotnet-latest"@ {
        Some("mcr.microsoft.com/dotnet/sdk:7.0"@)
    } else if t == "dotnet-7.0"@ {
        Some("mcr.microsoft.com/dotnet/sdk:7.0"@)
    } else if t == "dotnet-6.0"@ {
        Some("mcr.microsoft.com/dotnet/sdk:6.0"@)
    } else if t == "dotnet-5.0"@ {
        Some("mcr.microsoft.com/dotnet/sdk:5.0"@)
    } else {
        None
    }
}

fn runner_table_exec(t: &str) -> (r: Option<&'static str>)
    ensures
        match r {
            Some(x) => runner_table(t@) == Some(x@),
            None => runner_table(t@) is None,
        },
{
    if str_eq(t, "ubuntu-latest") {
        Some("ubuntu:latest")
    } else if str_eq(t, "ubuntu-22.04") {
        Some("ubuntu:22.04")
    } else if str_eq(t, "ubuntu-20.04") {
        Some("ubuntu:20.04")
    } else if str_eq(t, "ubuntu-18.04") {
        Some("ubuntu:18.04")
    } else if str_eq(t, "ubuntu-latest-medium") {
        Some("catthehacker/ubuntu:act-latest")
    } else if str_eq(t, "ubuntu-22.04-medium") {
        Some("catthehacker/ubuntu:act-22.04")
    } else if str_eq(t, "ubuntu-20.04-medium") {
        Some("catthehacker/ubuntu:act-20.04")
    } else if str_eq(t, "ubuntu-18.04-medium") {
        Some("catthehacker/ubuntu:act-18.04")
    } else if str_eq(t, "ubuntu-latest-large") {
        Some("catthehacker/ubuntu:full-latest")
    } else if str_eq(t, "ubuntu-22.04-large") {
        Some("catthehacker/ubuntu:full-22.04")
    } else if str_eq(t, "ubuntu-20.04-large") {
        Some("catthehacker/ubuntu:full-20.04")
    } else if str_eq(t, "ubuntu-18.04-large") {
        Some("catthehacker/ubuntu:full-18.04")
    } else if str_eq(t, "macos-latest") {
        Some("rust:latest")
    } else if str_eq(t, "macos-12") {
        Some("rust:latest")
    } else if str_eq(t, "macos-11") {
        Some("rust:latest")
    } else if str_eq(t, "macos-10.15") {
        Some("rust:latest")
    } else if str_eq(t, "windows-latest") {
        Some("mcr.microsoft.com/windows/servercore:ltsc2022")
    } else if str_eq(t, "windows-2022") {
        Some("mcr.microsoft.com/windows/servercore:ltsc2022")
    } else if str_eq(t, "windows-2019") {
        Some("mcr.microsoft.com/windows/servercore:ltsc2019")
    } else if str_eq(t, "python-latest") {
        Some("python:3.11-slim")
    } else if str_eq(t, "python-3.11") {
        Some("python:3.11-slim")
    } else if str_eq(t, "python-3.10") {
        Some("python:3.10-slim")
    } else if str_eq(t, "python-3.9") {
        Some("python:3.9-slim")
    } else if str_eq(t, "python-3.8") {
        Some("python:3.8-slim")
    } else if str_eq(t, "node-latest") {
        Some("node:20-slim")
    } else if str_eq(t, "node-20") {
        Some("node:20-slim")
    } else if str_eq(t, "node-18") {
        Some("node:18-slim")
    } else if str_eq(t, "node-16") {
        Some("node:16-slim")
    } else if str_eq(t, "java-latest") {
        Some("eclipse-temurin:17-jdk")
    } else if str_eq(t, "java-17") {
        Some("eclipse-temurin:17-jdk")
    } else if str_eq(t, "java-11") {
        Some("eclipse-temurin:11-jdk")
    } else if str_eq(t, "java-8") {
        Some("eclipse-temurin:8-jdk")
    } else if str_eq(t, "go-latest") {
        Some("golang:1.21-slim")
    } else if str_eq(t, "go-1.21") {
        Some("golang:1.21-slim")
    } else if str_eq(t, "go-1.20") {
        Some("golang:1.20-slim")
    } else if str_eq(t, "go-1.19") {
        Some("golang:1.19-slim")
    } else if str_eq(t, "dotnet-latest") {
        Some("mcr.microsoft.com/dotnet/sdk:7.0")
    } else if str_eq(t, "dotnet-7.0") {
        Some("mcr.microsoft.com/dotnet/sdk:7.0")
    } else if str_eq(t, "dotnet-6.0") {
        Some("mcr.microsoft.com/dotnet/sdk:6.0")
    } else if str_eq(t, "dotnet-5.0") {
        Some("mcr.microsoft.com/dotnet/sdk:5.0")
    } else {
        None
    }
}

/// The image for a `runs-on` label: the table entry of the trimmed label,
/// else by the prefix of its lowercase form, else `ubuntu:latest`.
pub open spec fn runner_image(runs_on: Seq<char>) -> Seq<char> {
    let t = trim(runs_on);
    match runner_table(t) {
        Some(x) => x,
        None => {
            let l = crate::expression::lower_of(t);
            if has_prefix(l, "macos"@) {
                "rust:latest"@
            } else if has_prefix(l, "windows"@) {
                "mcr.microsoft.com/windows/servercore:ltsc2022"@
            } else if has_prefix(l, "python"@) {
                "python:3.11-slim"@
            } else if has_prefix(l, "node"@) {
                "node:20-slim"@
            } else if has_prefix(l, "java"@) {
                "eclipse-temurin:17-jdk"@
            } else if has_prefix(l, "go"@) {
                "golang:1.21-slim"@
            } else if has_prefix(l, "dotnet"@) {
                "mcr.microsoft.com/dotnet/sdk:7.0"@
            } else {
                "ubuntu:latest"@
            }
        },
    }
}

/// The Docker image that stands in for a GitHub runner label.
pub fn get_runner_image(runs_on: &str) -> (r: String)
    ensures
        r@ == runner_image(runs_on@),
{
    let tv = trim_str(runs_on);
    let t = string_of(&tv);
    match runner_table_exec(t.as_str()) {
        Some(x) => owned(x),
        None => {
            let l = crate::expression::to_lower(t.as_str());
            let ls = l.as_str();
            if str_starts_with(ls, "macos") {
                owned("rust:latest")
            } else if str_starts_with(ls, "windows") {
                owned("mcr.microsoft.com/windows/servercore:ltsc2022")
            } else if str_starts_with(ls, "python") {
                owned("python:3.11-slim")
            } else if str_starts_with(ls, "node") {
                owned("node:20-slim")
            } else if str_starts_with(ls, "java") {
                owned("eclipse-temurin:17-jdk")
            } else if str_starts_with(ls, "go") {
                owned("golang:1.21-slim")
            } else if str_starts_with(ls, "dotnet") {
                owned("mcr.microsoft.com/dotnet/sdk:7.0")
            } else {
                owned("ubuntu:latest")
            }
        },
    }
}

/// The first `runs-on` label, `ubuntu-latest` when there is none.
pub open spec fn first_label(runs_on: Option<Vec<String>>) -> Seq<char> {
    match runs_on {
        Some(v) => if v@.len() > 0 { v@[0]@ } else { "ubuntu-latest"@ },
        None => "ubuntu-latest"@,
    }
}

/// The runner image for a job's `runs-on` list (its first label).
pub fn get_runner_image_from_opt(runs_on: &Option<Vec<String>>) -> (r: String)
    ensures
        r@ == runner_image(first_label(*runs_on)),
{
    match runs_on {
        Some(v) => {
            if v.len() > 0 {
                get_runner_image(v[0].as_str())
            } else {
                get_runner_image("ubuntu-latest")
            }
        },
        None => get_runner_image("ubuntu-latest"),
    }
}

/// The image a job runs in: its container's image when that is set and not
/// empty, otherwise the image for its runner label.
pub fn get_effective_runner_image(job: &Job) -> (r: String)
    ensures
        r@ == (match job.container {
            Some(c) => if c.image@.len() > 0 { c.image@ } else { runner_image(first_label(job.runs_on)) },
            None => runner_image(first_label(job.runs_on)),
        }),
{
    proof { reveal_strlit(""); }
    match &job.container {
        Some(c) => {
            proof {
                if c.image@.len() == 0 {
                    assert(c.image@ =~= ""@);
                }
            }
            if str_eq(c.image.as_str(), "") {
                get_runner_image_from_opt(&job.runs_on)
            } else {
                c.image.clone()
            }
        },
        None => get_runner_image_from_opt(&job.runs_on),
    }
}

/// The language (and version tag) of a language-specific image, judged by
/// its ASCII-lowercase name prefix.
pub open spec fn language_of_image(image: Seq<char>) -> Option<(Seq<char>, Seq<char>)> {
    let l = ascii_lower_seq(image);
    if has_prefix(l, "python:"@) {
        Some(("python"@, image.skip(7)))
    } else if has_prefix(l, "node:"@) {
        Some(("node"@, image.skip(5)))
    } else if has_prefix(l, "eclipse-temurin:"@) {
        Some(("java"@, image.skip(15)))
    } else if has_prefix(l, "golang:"@) {
        Some(("go"@, image.skip(6)))
    } else if has_prefix(l, "mcr.microsoft.com/dotnet/sdk:"@) {
        Some(("dotnet"@, image.skip(29)))
    } else if has_prefix(l, "rust:"@) {
        Some(("rust"@, image.skip(5)))
    } else {
        None
    }
}

/// The language runtime an image provides, with the rest of its name.
pub fn extract_language_info(image: &str) -> (r: Option<(&'static str, String)>)
    ensures
        match r {
            Some((lang, rest)) => language_of_image(image@) == Some((lang@, rest@)),
            None => language_of_image(image@) is None,
        },
{
    let v = chars_of(image);
    let lv = ascii_lower_vec(&v);
    let l = string_of(&lv);
    let ls = l.as_str();
    proof {
        reveal_strlit("python:");
        reveal_strlit("node:");
        reveal_strlit("eclipse-temurin:");
        reveal_strlit("golang:");
        reveal_strlit("mcr.microsoft.com/dotnet/sdk:");
        reveal_strlit("rust:");
    }
    if str_starts_with(ls, "python:") {
        Some(("python", string_of(&slice_range(&v, 7, v.len()))))
    } else if str_starts_with(ls, "node:") {
        Some(("node", string_of(&slice_range(&v, 5, v.len()))))
    } else if str_starts_with(ls, "eclipse-temurin:") {
        Some(("java", string_of(&slice_range(&v, 15, v.len()))))
    } else if str_starts_with(ls, "golang:") {
        Some(("go", string_of(&slice_range(&v, 6, v.len()))))
    } else if str_starts_with(ls, "mcr.microsoft.com/dotnet/sdk:") {
        Some(("dotnet", string_of(&slice_range(&v, 29, v.len()))))
    } else if str_starts_with(ls, "rust:") {
        Some(("rust", string_of(&slice_range(&v, 5, v.len()))))
    } else {
        None
    }
}

} // verus!

verus! {

/// Ubuntu labels name the Ubuntu release they stand for: `ubuntu-V` runs on
/// `ubuntu:V`, `ubuntu-V-medium` on `catthehacker/ubuntu:act-V` and
/// `ubuntu-V-large` on `catthehacker/ubuntu:full-V`, for each release V of
/// the table (`latest`, `22.04`, `20.04`, `18.04`), whatever blanks
/// surround the label.
pub proof fn lemma_ubuntu_runner_labels(label: Seq<char>, v: Seq<char>)
    requires
        v == "latest"@ || v == "22.04"@ || v == "20.04"@ || v == "18.04"@,
    ensures
        trim(label) == "ubuntu-"@ + v ==> runner_image(label) == "ubuntu:"@ + v,
        trim(label) == "ubuntu-"@ + v + "-medium"@ ==> runner_image(label) == "catthehacker/ubuntu:act-"@ + v,
        trim(label) == "ubuntu-"@ + v + "-large"@ ==> runner_image(label) == "catthehacker/ubuntu:full-"@ + v,
{
    if v == "latest"@ {
        assert("ubuntu-"@ + "latest"@ =~= "ubuntu-latest"@) by { reveal_strlit("ubuntu-latest"); reveal_strlit("ubuntu-"); reveal_strlit("latest"); }
        assert("ubuntu:"@ + "latest"@ =~= "ubuntu:latest"@) by { reveal_strlit("ubuntu:latest"); reveal_strlit("ubuntu:"); reveal_strlit("latest"); }
        assert(runner_table("ubuntu-latest"@) == Some("ubuntu:latest"@)) by { reveal_strlit("ubuntu-latest");  }
        assert("ubuntu-"@ + "latest"@ + "-medium"@ =~= "ubuntu-latest-medium"@) by { reveal_strlit("ubuntu-latest-medium"); reveal_strlit("ubuntu-"); reveal_strlit("-medium"); reveal_strlit("latest"); }
        assert("catthehacker/ubuntu:act-"@ + "latest"@ =~= "catthehacker/ubuntu:act-latest"@) by { reveal_strlit("catthehacker/ubuntu:act-latest"); reveal_strlit("catthehacker/ubuntu:act-"); reveal_strlit("latest"); }
        assert(runner_table("ubuntu-latest-medium"@) == Some("catthehacker/ubuntu:act-latest"@)) by { reveal_strlit("ubuntu-latest-medium"); reveal_strlit("ubuntu-latest"); assert("ubuntu-latest-medium"@.len() != "ubuntu-latest"@.len()); reveal_strlit("ubuntu-22.04"); assert("ubuntu-latest-medium"@.len() != "ubuntu-22.04"@.len()); reveal_strlit("ubuntu-20.04"); assert("ubuntu-latest-medium"@.len() != "ubuntu-20.04"@.len()); reveal_strlit("ubuntu-18.04"); assert("ubuntu-latest-medium"@.len() != "ubuntu-18.04"@.len()); }
        assert("ubuntu-"@ + "latest"@ + "-large"@ =~= "ubuntu-latest-large"@) by { reveal_strlit("ubuntu-latest-large"); reveal_strlit("ubuntu-"); reveal_strlit("-large"); reveal_strlit("latest"); }
        assert("catthehacker/ubuntu:full-"@ + "latest"@ =~= "catthehacker/ubuntu:full-latest"@) by { reveal_strlit("catthehacker/ubuntu:full-latest"); reveal_strlit("catthehacker/ubuntu:full-"); reveal_strlit("latest"); }
        assert(runner_table("ubuntu-latest-large"@) == Some("catthehacker/ubuntu:full-latest"@)) by { reveal_strlit("ubuntu-latest-large"); reveal_strlit("ubuntu-latest"); assert("ubuntu-latest-large"@.len() != "ubuntu-latest"@.len()); reveal_strlit("ubuntu-22.04"); assert("ubuntu-latest-large"@.len() != "ubuntu-22.04"@.len()); reveal_strlit("ubuntu-20.04"); assert("ubuntu-latest-large"@.len() != "ubuntu-20.04"@.len()); reveal_strlit("ubuntu-18.04"); assert("ubuntu-latest-large"@.len() != "ubuntu-18.04"@.len()); reveal_strlit("ubuntu-latest-medium"); assert("ubuntu-latest-large"@.len() != "ubuntu-latest-medium"@.len()); reveal_strlit("ubuntu-22.04-medium"); assert("ubuntu-latest-large"@[7] != "ubuntu-22.04-medium"@[7]); reveal_strlit("ubuntu-20.04-medium"); assert("ubuntu-latest-large"@[7] != "ubuntu-20.04-medium"@[7]); reveal_strlit("ubuntu-18.04-medium"); assert("ubuntu-latest-large"@[7] != "ubuntu-18.04-medium"@[7]); }
    }
    if v == "22.04"@ {
        assert("ubuntu-"@ + "22.04"@ =~= "ubuntu-22.04"@) by { reveal_strlit("ubuntu-22.04"); reveal_strlit("ubuntu-"); reveal_strlit("22.04"); }
        assert("ubuntu:"@ + "22.04"@ =~= "ubuntu:22.04"@) by { reveal_strlit("ubuntu:22.04"); reveal_strlit("ubuntu:"); reveal_strlit("22.04"); }
        assert(runner_table("ubuntu-22.04"@) == Some("ubuntu:22.04"@)) by { reveal_strlit("ubuntu-22.04"); reveal_strlit("ubuntu-latest"); assert("ubuntu-22.04"@.len() != "ubuntu-latest"@.len()); }
        assert("ubuntu-"@ + "22.04"@ + "-medium"@ =~= "ubuntu-22.04-medium"@) by { reveal_strlit("ubuntu-22.04-medium"); reveal_strlit("ubuntu-"); reveal_strlit("-medium"); reveal_strlit("22.04"); }
        assert("catthehacker/ubuntu:act-"@ + "22.04"@ =~= "catthehacker/ubuntu:act-22.04"@) by { reveal_strlit("catthehacker/ubuntu:act-22.04"); reveal_strlit("catthehacker/ubuntu:act-"); reveal_strlit("22.04"); }
        assert(runner_table("ubuntu-22.04-medium"@) == Some("catthehacker/ubuntu:act-22.04"@)) by { reveal_strlit("ubuntu-22.04-medium"); reveal_strlit("ubuntu-latest"); assert("ubuntu-22.04-medium"@.len() != "ubuntu-latest"@.len()); reveal_strlit("ubuntu-22.04"); assert("ubuntu-22.04-medium"@.len() != "ubuntu-22.04"@.len()); reveal_strlit("ubuntu-20.04"); assert("ubuntu-22.04-medium"@.len() != "ubuntu-20.04"@.len()); reveal_strlit("ubuntu-18.04"); assert("ubuntu-22.04-medium"@.len() != "ubuntu-18.04"@.len()); reveal_strlit("ubuntu-latest-medium"); assert("ubuntu-22.04-medium"@.len() != "ubuntu-latest-medium"@.len()); }
        assert("ubuntu-"@ + "22.04"@ + "-large"@ =~= "ubuntu-22.04-large"@) by { reveal_strlit("ubuntu-22.04-large"); reveal_strlit("ubuntu-"); reveal_strlit("-large"); reveal_strlit("22.04"); }
        assert("catthehacker/ubuntu:full-"@ + "22.04"@ =~= "catthehacker/ubuntu:full-22.04"@) by { reveal_strlit("catthehacker/ubuntu:full-22.04"); reveal_strlit("catthehacker/ubuntu:full-"); reveal_strlit("22.04"); }
        assert(runner_table("ubuntu-22.04-large"@) == Some("catthehacker/ubuntu:full-22.04"@)) by { reveal_strlit("ubuntu-22.04-large"); reveal_strlit("ubuntu-latest"); assert("ubuntu-22.04-large"@.len() != "ubuntu-latest"@.len()); reveal_strlit("ubuntu-22.04"); assert("ubuntu-22.04-large"@.len() != "ubuntu-22.04"@.len()); reveal_strlit("ubuntu-20.04"); assert("ubuntu-22.04-large"@.len() != "ubuntu-20.04"@.len()); reveal_strlit("ubuntu-18.04"); assert("ubuntu-22.04-large"@.len() != "ubuntu-18.04"@.len()); reveal_strlit("ubuntu-latest-medium"); assert("ubuntu-22.04-large"@.len() != "ubuntu-latest-medium"@.len()); reveal_strlit("ubuntu-22.04-medium"); assert("ubuntu-22.04-large"@.len() != "ubuntu-22.04-medium"@.len()); reveal_strlit("ubuntu-20.04-medium"); assert("ubuntu-22.04-large"@.len() != "ubuntu-20.04-medium"@.len()); reveal_strlit("ubuntu-18.04-medium"); assert("ubuntu-22.04-large"@.len() != "ubuntu-18.04-medium"@.len()); reveal_strlit("ubuntu-latest-large"); assert("ubuntu-22.04-large"@.len() != "ubuntu-latest-large"@.len()); }
    }
    if v == "20.04"@ {
        assert("ubuntu-"@ + "20.04"@ =~= "ubuntu-20.04"@) by { reveal_strlit("ubuntu-20.04"); reveal_strlit("ubuntu-"); reveal_strlit("20.04"); }
        assert("ubuntu:"@ + "20.04"@ =~= "ubuntu:20.04"@) by { reveal_strlit("ubuntu:20.04"); reveal_strlit("ubuntu:"); reveal_strlit("20.04"); }
        assert(runner_table("ubuntu-20.04"@) == Some("ubuntu:20.04"@)) by { reveal_strlit("ubuntu-20.04"); reveal_strlit("ubuntu-latest"); assert("ubuntu-20.04"@.len() != "ubuntu-latest"@.len()); reveal_strlit("ubuntu-22.04"); assert("ubuntu-20.04"@[8] != "ubuntu-22.04"@[8]); }
        assert("ubuntu-"@ + "20.04"@ + "-medium"@ =~= "ubuntu-20.04-medium"@) by { reveal_strlit("ubuntu-20.04-medium"); reveal_strlit("ubuntu-"); reveal_strlit("-medium"); reveal_strlit("20.04"); }
        assert("catthehacker/ubuntu:act-"@ + "20.04"@ =~= "catthehacker/ubuntu:act-20.04"@) by { reveal_strlit("catthehacker/ubuntu:act-20.04"); reveal_strlit("catthehacker/ubuntu:act-"); reveal_strlit("20.04"); }
        assert(runner_table("ubuntu-20.04-medium"@) == Some("catthehacker/ubuntu:act-20.04"@)) by { reveal_strlit("ubuntu-20.04-medium"); reveal_strlit("ubuntu-latest"); assert("ubuntu-20.04-medium"@.len() != "ubuntu-latest"@.len()); reveal_strlit("ubuntu-22.04"); assert("ubuntu-20.04-medium"@.len() != "ubuntu-22.04"@.len()); reveal_strlit("ubuntu-20.04"); assert("ubuntu-20.04-medium"@.len() != "ubuntu-20.04"@.len()); reveal_strlit("ubuntu-18.04"); assert("ubuntu-20.04-medium"@.len() != "ubuntu-18.04"@.len()); reveal_strlit("ubuntu-latest-medium"); assert("ubuntu-20.04-medium"@.len() != "ubuntu-latest-medium"@.len()); reveal_strlit("ubuntu-22.04-medium"); assert("ubuntu-20.04-medium"@[8] != "ubuntu-22.04-medium"@[8]); }
        assert("ubuntu-"@ + "20.04"@ + "-large"@ =~= "ubuntu-20.04-large"@) by { reveal_strlit("ubuntu-20.04-large"); reveal_strlit("ubuntu-"); reveal_strlit("-large"); reveal_strlit("20.04"); }
        assert("catthehacker/ubuntu:full-"@ + "20.04"@ =~= "catthehacker/ubuntu:full-20.04"@) by { reveal_strlit("catthehacker/ubuntu:full-20.04"); reveal_strlit("catthehacker/ubuntu:full-"); reveal_strlit("20.04"); }
        assert(runner_table("ubuntu-20.04-large"@) == Some("catthehacker/ubuntu:full-20.04"@)) by { reveal_strlit("ubuntu-20.04-large"); reveal_strlit("ubuntu-latest"); assert("ubuntu-20.04-large"@.len() != "ubuntu-latest"@.len()); reveal_strlit("ubuntu-22.04"); assert("ubuntu-20.04-large"@.len() != "ubuntu-22.04"@.len()); reveal_strlit("ubuntu-20.04"); assert("ubuntu-20.04-large"@.len() != "ubuntu-20.04"@.len()); reveal_strlit("ubuntu-18.04"); assert("ubuntu-20.04-large"@.len() != "ubuntu-18.04"@.len()); reveal_strlit("ubuntu-latest-medium"); assert("ubuntu-20.04-large"@.len() != "ubuntu-latest-medium"@.len()); reveal_strlit("ubuntu-22.04-medium"); assert("ubuntu-20.04-large"@.len() != "ubuntu-22.04-medium"@.len()); reveal_strlit("ubuntu-20.04-medium"); assert("ubuntu-20.04-large"@.len() != "ubuntu-20.04-medium"@.len()); reveal_strlit("ubuntu-18.04-medium"); assert("ubuntu-20.04-large"@.len() != "ubuntu-18.04-medium"@.len()); reveal_strlit("ubuntu-latest-large"); assert("ubuntu-20.04-large"@.len() != "ubuntu-latest-large"@.len()); reveal_strlit("ubuntu-22.04-large"); assert("ubuntu-20.04-large"@[8] != "ubuntu-22.04-large"@[8]); }
    }
    if v == "18.04"@ {
        assert("ubuntu-"@ + "18.04"@ =~= "ubuntu-18.04"@) by { reveal_strlit("ubuntu-18.04"); reveal_strlit("ubuntu-"); reveal_strlit("18.04"); }
        assert("ubuntu:"@ + "18.04"@ =~= "ubuntu:18.04"@) by { reveal_strlit("ubuntu:18.04"); reveal_strlit("ubuntu:"); reveal_strlit("18.04"); }
        assert(runner_table("ubuntu-18.04"@) == Some("ubuntu:18.04"@)) by { reveal_strlit("ubuntu-18.04"); reveal_strlit("ubuntu-latest"); assert("ubuntu-18.04"@.len() != "ubuntu-latest"@.len()); reveal_strlit("ubuntu-22.04"); assert("ubuntu-18.04"@[7] != "ubuntu-22.04"@[7]); reveal_strlit("ubuntu-20.04"); assert("ubuntu-18.04"@[7] != "ubuntu-20.04"@[7]); }
        assert("ubuntu-"@ + "18.04"@ + "-medium"@ =~= "ubuntu-18.04-medium"@) by { reveal_strlit("ubuntu-18.04-medium"); reveal_strlit("ubuntu-"); reveal_strlit("-medium"); reveal_strlit("18.04"); }
        assert("catthehacker/ubuntu:act-"@ + "18.04"@ =~= "catthehacker/ubuntu:act-18.04"@) by { reveal_strlit("catthehacker/ubuntu:act-18.04"); reveal_strlit("catthehacker/ubuntu:act-"); reveal_strlit("18.04"); }
        assert(runner_table("ubuntu-18.04-medium"@) == Some("catthehacker/ubuntu:act-18.04"@)) by { reveal_strlit("ubuntu-18.04-medium"); reveal_strlit("ubuntu-latest"); assert("ubuntu-18.04-medium"@.len() != "ubuntu-latest"@.len()); reveal_strlit("ubuntu-22.04"); assert("ubuntu-18.04-medium"@.len() != "ubuntu-22.04"@.len()); reveal_strlit("ubuntu-20.04"); assert("ubuntu-18.04-medium"@.len() != "ubuntu-20.04"@.len()); reveal_strlit("ubuntu-18.04"); assert("ubuntu-18.04-medium"@.len() != "ubuntu-18.04"@.len()); reveal_strlit("ubuntu-latest-medium"); assert("ubuntu-18.04-medium"@.len() != "ubuntu-latest-medium"@.len()); reveal_strlit("ubuntu-22.04-medium"); assert("ubuntu-18.04-medium"@[7] != "ubuntu-22.04-medium"@[7]); reveal_strlit("ubuntu-20.04-medium"); assert("ubuntu-18.04-medium"@[7] != "ubuntu-20.04-medium"@[7]); }
        assert("ubuntu-"@ + "18.04"@ + "-large"@ =~= "ubuntu-18.04-large"@) by { reveal_strlit("ubuntu-18.04-large"); reveal_strlit("ubuntu-"); reveal_strlit("-large"); reveal_strlit("18.04"); }
        assert("catthehacker/ubuntu:full-"@ + "18.04"@ =~= "catthehacker/ubuntu:full-18.04"@) by { reveal_strlit("catthehacker/ubuntu:full-18.04"); reveal_strlit("catthehacker/ubuntu:full-"); reveal_strlit("18.04"); }
        assert(runner_table("ubuntu-18.04-large"@) == Some("catthehacker/ubuntu:full-18.04"@)) by { reveal_strlit("ubuntu-18.04-large"); reveal_strlit("ubuntu-latest"); assert("ubuntu-18.04-large"@.len() != "ubuntu-latest"@.len()); reveal_strlit("ubuntu-22.04"); assert("ubuntu-18.04-large"@.len() != "ubuntu-22.04"@.len()); reveal_strlit("ubuntu-20.04"); assert("ubuntu-18.04-large"@.len() != "ubuntu-20.04"@.len()); reveal_strlit("ubuntu-18.04"); assert("ubuntu-18.04-large"@.len() != "ubuntu-18.04"@.len()); reveal_strlit("ubuntu-latest-medium"); assert("ubuntu-18.04-large"@.len() != "ubuntu-latest-medium"@.len()); reveal_strlit("ubuntu-22.04-medium"); assert("ubuntu-18.04-large"@.len() != "ubuntu-22.04-medium"@.len()); reveal_strlit("ubuntu-20.04-medium"); assert("ubuntu-18.04-large"@.len() != "ubuntu-20.04-medium"@.len()); reveal_strlit("ubuntu-18.04-medium"); assert("ubuntu-18.04-large"@.len() != "ubuntu-18.04-medium"@.len()); reveal_strlit("ubuntu-latest-large"); assert("ubuntu-18.04-large"@.len() != "ubuntu-latest-large"@.len()); reveal_strlit("ubuntu-22.04-large"); assert("ubuntu-18.04-large"@[7] != "ubuntu-22.04-large"@[7]); reveal_strlit("ubuntu-20.04-large"); assert("ubuntu-18.04-large"@[7] != "ubuntu-20.04-large"@[7]); }
    }
}

/// `python-V` runs on `python:V-slim` for each Python version V of the table,
/// whatever blanks surround the label.
pub proof fn lemma_python_runner_labels(label: Seq<char>, v: Seq<char>)
    requires
        v == "3.11"@ || v == "3.10"@ || v == "3.9"@ || v == "3.8"@,
    ensures
        trim(label) == "python-"@ + v ==> runner_image(label) == "python:"@ + v + "-slim"@,
{
    if v == "3.11"@ {
        assert("python-"@ + "3.11"@ =~= "python-3.11"@) by { reveal_strlit("python-3.11"); reveal_strlit("python-"); reveal_strlit("3.11"); }
        assert("python:"@ + "3.11"@ + "-slim"@ =~= "python:3.11-slim"@) by { reveal_strlit("python:3.11-slim"); reveal_strlit("-slim"); reveal_strlit("python:"); reveal_strlit("3.11"); }
        assert(runner_table("python-3.11"@) == Some("python:3.11-slim"@)) by { reveal_strlit("python-3.11"); reveal_strlit("ubuntu-latest"); assert("python-3.11"@.len() != "ubuntu-latest"@.len()); reveal_strlit("ubuntu-22.04"); assert("python-3.11"@.len() != "ubuntu-22.04"@.len()); reveal_strlit("ubuntu-20.04"); assert("python-3.11"@.len() != "ubuntu-20.04"@.len()); reveal_strlit("ubuntu-18.04"); assert("python-3.11"@.len() != "ubuntu-18.04"@.len()); reveal_strlit("ubuntu-latest-medium"); assert("python-3.11"@.len() != "ubuntu-latest-medium"@.len()); reveal_strlit("ubuntu-22.04-medium"); assert("python-3.11"@.len() != "ubuntu-22.04-medium"@.len()); reveal_strlit("ubuntu-20.04-medium"); assert("python-3.11"@.len() != "ubuntu-20.04-medium"@.len()); reveal_strlit("ubuntu-18.04-medium"); assert("python-3.11"@.len() != "ubuntu-18.04-medium"@.len()); reveal_strlit("ubuntu-latest-large"); assert("python-3.11"@.len() != "ubuntu-latest-large"@.len()); reveal_strlit("ubuntu-22.04-large"); assert("python-3.11"@.len() != "ubuntu-22.04-large"@.len()); reveal_strlit("ubuntu-20.04-large"); assert("python-3.11"@.len() != "ubuntu-20.04-large"@.len()); reveal_strlit("ubuntu-18.04-large"); assert("python-3.11"@.len() != "ubuntu-18.04-large"@.len()); reveal_strlit("macos-latest"); assert("python-3.11"@.len() != "macos-latest"@.len()); reveal_strlit("macos-12"); assert("python-3.11"@.len() != "macos-12"@.len()); reveal_strlit("macos-11"); assert("python-3.11"@.len() != "macos-11"@.len()); reveal_strlit("macos-10.15"); assert("python-3.11"@[0] != "macos-10.15"@[0]); reveal_strlit("windows-latest"); assert("python-3.11"@.len() != "windows-latest"@.len()); reveal_strlit("windows-2022"); assert("python-3.11"@.len() != "windows-2022"@.len()); reveal_strlit("windows-2019"); assert("python-3.11"@.len() != "windows-2019"@.len()); reveal_strlit("python-latest"); assert("python-3.11"@.len() != "python-latest"@.len()); }
    }
    if v == "3.10"@ {
        assert("python-"@ + "3.10"@ =~= "python-3.10"@) by { reveal_strlit("python-3.10"); reveal_strlit("python-"); reveal_strlit("3.10"); }
        assert("python:"@ + "3.10"@ + "-slim"@ =~= "python:3.10-slim"@) by { reveal_strlit("python:3.10-slim"); reveal_strlit("-slim"); reveal_strlit("python:"); reveal_strlit("3.10"); }
        assert(runner_table("python-3.10"@) == Some("python:3.10-slim"@)) by { reveal_strlit("python-3.10"); reveal_strlit("ubuntu-latest"); assert("python-3.10"@.len() != "ubuntu-latest"@.len()); reveal_strlit("ubuntu-22.04"); assert("python-3.10"@.len() != "ubuntu-22.04"@.len()); reveal_strlit("ubuntu-20.04"); assert("python-3.10"@.len() != "ubuntu-20.04"@.len()); reveal_strlit("ubuntu-18.04"); assert("python-3.10"@.len() != "ubuntu-18.04"@.len()); reveal_strlit("ubuntu-latest-medium"); assert("python-3.10"@.len() != "ubuntu-latest-medium"@.len()); reveal_strlit("ubuntu-22.04-medium"); assert("python-3.10"@.len() != "ubuntu-22.04-medium"@.len()); reveal_strlit("ubuntu-20.04-medium"); assert("python-3.10"@.len() != "ubuntu-20.04-medium"@.len()); reveal_strlit("ubuntu-18.04-medium"); assert("python-3.10"@.len() != "ubuntu-18.04-medium"@.len()); reveal_strlit("ubuntu-latest-large"); assert("python-3.10"@.len() != "ubuntu-latest-large"@.len()); reveal_strlit("ubuntu-22.04-large"); assert("python-3.10"@.len() != "ubuntu-22.04-large"@.len()); reveal_strlit("ubuntu-20.04-large"); assert("python-3.10"@.len() != "ubuntu-20.04-large"@.len()); reveal_strlit("ubuntu-18.04-large"); assert("python-3.10"@.len() != "ubuntu-18.04-large"@.len()); reveal_strlit("macos-latest"); assert("python-3.10"@.len() != "macos-latest"@.len()); reveal_strlit("macos-12"); assert("python-3.10"@.len() != "macos-12"@.len()); reveal_strlit("macos-11"); assert("python-3.10"@.len() != "macos-11"@.len()); reveal_strlit("macos-10.15"); assert("python-3.10"@[0] != "macos-10.15"@[0]); reveal_strlit("windows-latest"); assert("python-3.10"@.len() != "windows-latest"@.len()); reveal_strlit("windows-2022"); assert("python-3.10"@.len() != "windows-2022"@.len()); reveal_strlit("windows-2019"); assert("python-3.10"@.len() != "windows-2019"@.len()); reveal_strlit("python-latest"); assert("python-3.10"@.len() != "python-latest"@.len()); reveal_strlit("python-3.11"); assert("python-3.10"@[10] != "python-3.11"@[10]); }
    }
    if v == "3.9"@ {
        assert("python-"@ + "3.9"@ =~= "python-3.9"@) by { reveal_strlit("python-3.9"); reveal_strlit("python-"); reveal_strlit("3.9"); }
        assert("python:"@ + "3.9"@ + "-slim"@ =~= "python:3.9-slim"@) by { reveal_strlit("python:3.9-slim"); reveal_strlit("-slim"); reveal_strlit("python:"); reveal_strlit("3.9"); }
        assert(runner_table("python-3.9"@) == Some("python:3.9-slim"@)) by { reveal_strlit("python-3.9"); reveal_strlit("ubuntu-latest"); assert("python-3.9"@.len() != "ubuntu-latest"@.len()); reveal_strlit("ubuntu-22.04"); assert("python-3.9"@.len() != "ubuntu-22.04"@.len()); reveal_strlit("ubuntu-20.04"); assert("python-3.9"@.len() != "ubuntu-20.04"@.len()); reveal_strlit("ubuntu-18.04"); assert("python-3.9"@.len() != "ubuntu-18.04"@.len()); reveal_strlit("ubuntu-latest-medium"); assert("python-3.9"@.len() != "ubuntu-latest-medium"@.len()); reveal_strlit("ubuntu-22.04-medium"); assert("python-3.9"@.len() != "ubuntu-22.04-medium"@.len()); reveal_strlit("ubuntu-20.04-medium"); assert("python-3.9"@.len() != "ubuntu-20.04-medium"@.len()); reveal_strlit("ubuntu-18.04-medium"); assert("python-3.9"@.len() != "ubuntu-18.04-medium"@.len()); reveal_strlit("ubuntu-latest-large"); assert("python-3.9"@.len() != "ubuntu-latest-large"@.len()); reveal_strlit("ubuntu-22.04-large"); assert("python-3.9"@.len() != "ubuntu-22.04-large"@.len()); reveal_strlit("ubuntu-20.04-large"); assert("python-3.9"@.len() != "ubuntu-20.04-large"@.len()); reveal_strlit("ubuntu-18.04-large"); assert("python-3.9"@.len() != "ubuntu-18.04-large"@.len()); reveal_strlit("macos-latest"); assert("python-3.9"@.len() != "macos-latest"@.len()); reveal_strlit("macos-12"); assert("python-3.9"@.len() != "macos-12"@.len()); reveal_strlit("macos-11"); assert("python-3.9"@.len() != "macos-11"@.len()); reveal_strlit("macos-10.15"); assert("python-3.9"@.len() != "macos-10.15"@.len()); reveal_strlit("windows-latest"); assert("python-3.9"@.len() != "windows-latest"@.len()); reveal_strlit("windows-2022"); assert("python-3.9"@.len() != "windows-2022"@.len()); reveal_strlit("windows-2019"); assert("python-3.9"@.len() != "windows-2019"@.len()); reveal_strlit("python-latest"); assert("python-3.9"@.len() != "python-latest"@.len()); reveal_strlit("python-3.11"); assert("python-3.9"@.len() != "python-3.11"@.len()); reveal_strlit("python-3.10"); assert("python-3.9"@.len() != "python-3.10"@.len()); }
    }
    if v == "3.8"@ {
        assert("python-"@ + "3.8"@ =~= "python-3.8"@) by { reveal_strlit("python-3.8"); reveal_strlit("python-"); reveal_strlit("3.8"); }
        assert("python:"@ + "3.8"@ + "-slim"@ =~= "python:3.8-slim"@) by { reveal_strlit("python:3.8-slim"); reveal_strlit("-slim"); reveal_strlit("python:"); reveal_strlit("3.8"); }
        assert(runner_table("python-3.8"@) == Some("python:3.8-slim"@)) by { reveal_strlit("python-3.8"); reveal_strlit("ubuntu-latest"); assert("python-3.8"@.len() != "ubuntu-latest"@.len()); reveal_strlit("ubuntu-22.04"); assert("python-3.8"@.len() != "ubuntu-22.04"@.len()); reveal_strlit("ubuntu-20.04"); assert("python-3.8"@.len() != "ubuntu-20.04"@.len()); reveal_strlit("ubuntu-18.04"); assert("python-3.8"@.len() != "ubuntu-18.04"@.len()); reveal_strlit("ubuntu-latest-medium"); assert("python-3.8"@.len() != "ubuntu-latest-medium"@.len()); reveal_strlit("ubuntu-22.04-medium"); assert("python-3.8"@.len() != "ubuntu-22.04-medium"@.len()); reveal_strlit("ubuntu-20.04-medium"); assert("python-3.8"@.len() != "ubuntu-20.04-medium"@.len()); reveal_strlit("ubuntu-18.04-medium"); assert("python-3.8"@.len() != "ubuntu-18.04-medium"@.len()); reveal_strlit("ubuntu-latest-large"); assert("python-3.8"@.len() != "ubuntu-latest-large"@.len()); reveal_strlit("ubuntu-22.04-large"); assert("python-3.8"@.len() != "ubuntu-22.04-large"@.len()); reveal_strlit("ubuntu-20.04-large"); assert("python-3.8"@.len() != "ubuntu-20.04-large"@.len()); reveal_strlit("ubuntu-18.04-large"); assert("python-3.8"@.len() != "ubuntu-18.04-large"@.len()); reveal_strlit("macos-latest"); assert("python-3.8"@.len() != "macos-latest"@.len()); reveal_strlit("macos-12"); assert("python-3.8"@.len() != "macos-12"@.len()); reveal_strlit("macos-11"); assert("python-3.8"@.len() != "macos-11"@.len()); reveal_strlit("macos-10.15"); assert("python-3.8"@.len() != "macos-10.15"@.len()); reveal_strlit("windows-latest"); assert("python-3.8"@.len() != "windows-latest"@.len()); reveal_strlit("windows-2022"); assert("python-3.8"@.len() != "windows-2022"@.len()); reveal_strlit("windows-2019"); assert("python-3.8"@.len() != "windows-2019"@.len()); reveal_strlit("python-latest"); assert("python-3.8"@.len() != "python-latest"@.len()); reveal_strlit("python-3.11"); assert("python-3.8"@.len() != "python-3.11"@.len()); reveal_strlit("python-3.10"); assert("python-3.8"@.len() != "python-3.10"@.len()); reveal_strlit("python-3.9"); assert("python-3.8"@[9] != "python-3.9"@[9]); }
    }
}

/// `node-V` runs on `node:V-slim` for each Node.js version V of the table,
/// whatever blanks surround the label.
pub proof fn lemma_node_runner_labels(label: Seq<char>, v: Seq<char>)
    requires
        v == "20"@ || v == "18"@ || v == "16"@,
    ensures
        trim(label) == "node-"@ + v ==> runner_image(label) == "node:"@ + v + "-slim"@,
{
    if v == "20"@ {
        assert("node-"@ + "20"@ =~= "node-20"@) by { reveal_strlit("node-20"); reveal_strlit("node-"); reveal_strlit("20"); }
        assert("node:"@ + "20"@ + "-slim"@ =~= "node:20-slim"@) by { reveal_strlit("node:20-slim"); reveal_strlit("-slim"); reveal_strlit("node:"); reveal_strlit("20"); }
        assert(runner_table("node-20"@) == Some("node:20-slim"@)) by { reveal_strlit("node-20"); reveal_strlit("ubuntu-latest"); assert("node-20"@.len() != "ubuntu-latest"@.len()); reveal_strlit("ubuntu-22.04"); assert("node-20"@.len() != "ubuntu-22.04"@.len()); reveal_strlit("ubuntu-20.04"); assert("node-20"@.len() != "ubuntu-20.04"@.len()); reveal_strlit("ubuntu-18.04"); assert("node-20"@.len() != "ubuntu-18.04"@.len()); reveal_strlit("ubuntu-latest-medium"); assert("node-20"@.len() != "ubuntu-latest-medium"@.len()); reveal_strlit("ubuntu-22.04-medium"); assert("node-20"@.len() != "ubuntu-22.04-medium"@.len()); reveal_strlit("ubuntu-20.04-medium"); assert("node-20"@.len() != "ubuntu-20.04-medium"@.len()); reveal_strlit("ubuntu-18.04-medium"); assert("node-20"@.len() != "ubuntu-18.04-medium"@.len()); reveal_strlit("ubuntu-latest-large"); assert("node-20"@.len() != "ubuntu-latest-large"@.len()); reveal_strlit("ubuntu-22.04-large"); assert("node-20"@.len() != "ubuntu-22.04-large"@.len()); reveal_strlit("ubuntu-20.04-large"); assert("node-20"@.len() != "ubuntu-20.04-large"@.len()); reveal_strlit("ubuntu-18.04-large"); assert("node-20"@.len() != "ubuntu-18.04-large"@.len()); reveal_strlit("macos-latest"); assert("node-20"@.len() != "macos-latest"@.len()); reveal_strlit("macos-12"); assert("node-20"@.len() != "macos-12"@.len()); reveal_strlit("macos-11"); assert("node-20"@.len() != "macos-11"@.len()); reveal_strlit("macos-10.15"); assert("node-20"@.len() != "macos-10.15"@.len()); reveal_strlit("windows-latest"); assert("node-20"@.len() != "windows-latest"@.len()); reveal_strlit("windows-2022"); assert("node-20"@.len() != "windows-2022"@.len()); reveal_strlit("windows-2019"); assert("node-20"@.len() != "windows-2019"@.len()); reveal_strlit("python-latest"); assert("node-20"@.len() != "python-latest"@.len()); reveal_strlit("python-3.11"); assert("node-20"@.len() != "python-3.11"@.len()); reveal_strlit("python-3.10"); assert("node-20"@.len() != "python-3.10"@.len()); reveal_strlit("python-3.9"); assert("node-20"@.len() != "python-3.9"@.len()); reveal_strlit("python-3.8"); assert("node-20"@.len() != "python-3.8"@.len()); reveal_strlit("node-latest"); assert("node-20"@.len() != "node-latest"@.len()); }
    }
    if v == "18"@ {
        assert("node-"@ + "18"@ =~= "node-18"@) by { reveal_strlit("node-18"); reveal_strlit("node-"); reveal_strlit("18"); }
        assert("node:"@ + "18"@ + "-slim"@ =~= "node:18-slim"@) by { reveal_strlit("node:18-slim"); reveal_strlit("-slim"); reveal_strlit("node:"); reveal_strlit("18"); }
        assert(runner_table("node-18"@) == Some("node:18-slim"@)) by { reveal_strlit("node-18"); reveal_strlit("ubuntu-latest"); assert("node-18"@.len() != "ubuntu-latest"@.len()); reveal_strlit("ubuntu-22.04"); assert("node-18"@.len() != "ubuntu-22.04"@.len()); reveal_strlit("ubuntu-20.04"); assert("node-18"@.len() != "ubuntu-20.04"@.len()); reveal_strlit("ubuntu-18.04"); assert("node-18"@.len() != "ubuntu-18.04"@.len()); reveal_strlit("ubuntu-latest-medium"); assert("node-18"@.len() != "ubuntu-latest-medium"@.len()); reveal_strlit("ubuntu-22.04-medium"); assert("node-18"@.len() != "ubuntu-22.04-medium"@.len()); reveal_strlit("ubuntu-20.04-medium"); assert("node-18"@.len() != "ubuntu-20.04-medium"@.len()); reveal_strlit("ubuntu-18.04-medium"); assert("node-18"@.len() != "ubuntu-18.04-medium"@.len()); reveal_strlit("ubuntu-latest-large"); assert("node-18"@.len() != "ubuntu-latest-large"@.len()); reveal_strlit("ubuntu-22.04-large"); assert("node-18"@.len() != "ubuntu-22.04-large"@.len()); reveal_strlit("ubuntu-20.04-large"); assert("node-18"@.len() != "ubuntu-20.04-large"@.len()); reveal_strlit("ubuntu-18.04-large"); assert("node-18"@.len() != "ubuntu-18.04-large"@.len()); reveal_strlit("macos-latest"); assert("node-18"@.len() != "macos-latest"@.len()); reveal_strlit("macos-12"); assert("node-18"@.len() != "macos-12"@.len()); reveal_strlit("macos-11"); assert("node-18"@.len() != "macos-11"@.len()); reveal_strlit("macos-10.15"); assert("node-18"@.len() != "macos-10.15"@.len()); reveal_strlit("windows-latest"); assert("node-18"@.len() != "windows-latest"@.len()); reveal_strlit("windows-2022"); assert("node-18"@.len() != "windows-2022"@.len()); reveal_strlit("windows-2019"); assert("node-18"@.len() != "windows-2019"@.len()); reveal_strlit("python-latest"); assert("node-18"@.len() != "python-latest"@.len()); reveal_strlit("python-3.11"); assert("node-18"@.len() != "python-3.11"@.len()); reveal_strlit("python-3.10"); assert("node-18"@.len() != "python-3.10"@.len()); reveal_strlit("python-3.9"); assert("node-18"@.len() != "python-3.9"@.len()); reveal_strlit("python-3.8"); assert("node-18"@.len() != "python-3.8"@.len()); reveal_strlit("node-latest"); assert("node-18"@.len() != "node-latest"@.len()); reveal_strlit("node-20"); assert("node-18"@[5] != "node-20"@[5]); }
    }
    if v == "16"@ {
        assert("node-"@ + "16"@ =~= "node-16"@) by { reveal_strlit("node-16"); reveal_strlit("node-"); reveal_strlit("16"); }
        assert("node:"@ + "16"@ + "-slim"@ =~= "node:16-slim"@) by { reveal_strlit("node:16-slim"); reveal_strlit("-slim"); reveal_strlit("node:"); reveal_strlit("16"); }
        assert(runner_table("node-16"@) == Some("node:16-slim"@)) by { reveal_strlit("node-16"); reveal_strlit("ubuntu-latest"); assert("node-16"@.len() != "ubuntu-latest"@.len()); reveal_strlit("ubuntu-22.04"); assert("node-16"@.len() != "ubuntu-22.04"@.len()); reveal_strlit("ubuntu-20.04"); assert("node-16"@.len() != "ubuntu-20.04"@.len()); reveal_strlit("ubuntu-18.04"); assert("node-16"@.len() != "ubuntu-18.04"@.len()); reveal_strlit("ubuntu-latest-medium"); assert("node-16"@.len() != "ubuntu-latest-medium"@.len()); reveal_strlit("ubuntu-22.04-medium"); assert("node-16"@.len() != "ubuntu-22.04-medium"@.len()); reveal_strlit("ubuntu-20.04-medium"); assert("node-16"@.len() != "ubuntu-20.04-medium"@.len()); reveal_strlit("ubuntu-18.04-medium"); assert("node-16"@.len() != "ubuntu-18.04-medium"@.len()); reveal_strlit("ubuntu-latest-large"); assert("node-16"@.len() != "ubuntu-latest-large"@.len()); reveal_strlit("ubuntu-22.04-large"); assert("node-16"@.len() != "ubuntu-22.04-large"@.len()); reveal_strlit("ubuntu-20.04-large"); assert("node-16"@.len() != "ubuntu-20.04-large"@.len()); reveal_strlit("ubuntu-18.04-large"); assert("node-16"@.len() != "ubuntu-18.04-large"@.len()); reveal_strlit("macos-latest"); assert("node-16"@.len() != "macos-latest"@.len()); reveal_strlit("macos-12"); assert("node-16"@.len() != "macos-12"@.len()); reveal_strlit("macos-11"); assert("node-16"@.len() != "macos-11"@.len()); reveal_strlit("macos-10.15"); assert("node-16"@.len() != "macos-10.15"@.len()); reveal_strlit("windows-latest"); assert("node-16"@.len() != "windows-latest"@.len()); reveal_strlit("windows-2022"); assert("node-16"@.len() != "windows-2022"@.len()); reveal_strlit("windows-2019"); assert("node-16"@.len() != "windows-2019"@.len()); reveal_strlit("python-latest"); assert("node-16"@.len() != "python-latest"@.len()); reveal_strlit("python-3.11"); assert("node-16"@.len() != "python-3.11"@.len()); reveal_strlit("python-3.10"); assert("node-16"@.len() != "python-3.10"@.len()); reveal_strlit("python-3.9"); assert("node-16"@.len() != "python-3.9"@.len()); reveal_strlit("python-3.8"); assert("node-16"@.len() != "python-3.8"@.len()); reveal_strlit("node-latest"); assert("node-16"@.len() != "node-latest"@.len()); reveal_strlit("node-20"); assert("node-16"@[5] != "node-20"@[5]); reveal_strlit("node-18"); assert("node-16"@[6] != "node-18"@[6]); }
    }
}

/// `java-V` runs on `eclipse-temurin:V-jdk` for each Java version V of the
/// table, whatever blanks surround the label.
pub proof fn lemma_java_runner_labels(label: Seq<char>, v: Seq<char>)
    requires
        v == "17"@ || v == "11"@ || v == "8"@,
    ensures
        trim(label) == "java-"@ + v ==> runner_image(label) == "eclipse-temurin:"@ + v + "-jdk"@,
{
    if v == "17"@ {
        assert("java-"@ + "17"@ =~= "java-17"@) by { reveal_strlit("java-17"); reveal_strlit("java-"); reveal_strlit("17"); }
        assert("eclipse-temurin:"@ + "17"@ + "-jdk"@ =~= "eclipse-temurin:17-jdk"@) by { reveal_strlit("eclipse-temurin:17-jdk"); reveal_strlit("eclipse-temurin:"); reveal_strlit("-jdk"); reveal_strlit("17"); }
        assert(runner_table("java-17"@) == Some("eclipse-temurin:17-jdk"@)) by { reveal_strlit("java-17"); reveal_strlit("ubuntu-latest"); assert("java-17"@.len() != "ubuntu-latest"@.len()); reveal_strlit("ubuntu-22.04"); assert("java-17"@.len() != "ubuntu-22.04"@.len()); reveal_strlit("ubuntu-20.04"); assert("java-17"@.len() != "ubuntu-20.04"@.len()); reveal_strlit("ubuntu-18.04"); assert("java-17"@.len() != "ubuntu-18.04"@.len()); reveal_strlit("ubuntu-latest-medium"); assert("java-17"@.len() != "ubuntu-latest-medium"@.len()); reveal_strlit("ubuntu-22.04-medium"); assert("java-17"@.len() != "ubuntu-22.04-medium"@.len()); reveal_strlit("ubuntu-20.04-medium"); assert("java-17"@.len() != "ubuntu-20.04-medium"@.len()); reveal_strlit("ubuntu-18.04-medium"); assert("java-17"@.len() != "ubuntu-18.04-medium"@.len()); reveal_strlit("ubuntu-latest-large"); assert("java-17"@.len() != "ubuntu-latest-large"@.len()); reveal_strlit("ubuntu-22.04-large"); assert("java-17"@.len() != "ubuntu-22.04-large"@.len()); reveal_strlit("ubuntu-20.04-large"); assert("java-17"@.len() != "ubuntu-20.04-large"@.len()); reveal_strlit("ubuntu-18.04-large"); assert("java-17"@.len() != "ubuntu-18.04-large"@.len()); reveal_strlit("macos-latest"); assert("java-17"@.len() != "macos-latest"@.len()); reveal_strlit("macos-12"); assert("java-17"@.len() != "macos-12"@.len()); reveal_strlit("macos-11"); assert("java-17"@.len() != "macos-11"@.len()); reveal_strlit("macos-10.15"); assert("java-17"@.len() != "macos-10.15"@.len()); reveal_strlit("windows-latest"); assert("java-17"@.len() != "windows-latest"@.len()); reveal_strlit("windows-2022"); assert("java-17"@.len() != "windows-2022"@.len()); reveal_strlit("windows-2019"); assert("java-17"@.len() != "windows-2019"@.len()); reveal_strlit("python-latest"); assert("java-17"@.len() != "python-latest"@.len()); reveal_strlit("python-3.11"); assert("java-17"@.len() != "python-3.11"@.len()); reveal_strlit("python-3.10"); assert("java-17"@.len() != "python-3.10"@.len()); reveal_strlit("python-3.9"); assert("java-17"@.len() != "python-3.9"@.len()); reveal_strlit("python-3.8"); assert("java-17"@.len() != "python-3.8"@.len()); reveal_strlit("node-latest"); assert("java-17"@.len() != "node-latest"@.len()); reveal_strlit("node-20"); assert("java-17"@[0] != "node-20"@[0]); reveal_strlit("node-18"); assert("java-17"@[0] != "node-18"@[0]); reveal_strlit("node-16"); assert("java-17"@[0] != "node-16"@[0]); reveal_strlit("java-latest"); assert("java-17"@.len() != "java-latest"@.len()); }
    }
    if v == "11"@ {
        assert("java-"@ + "11"@ =~= "java-11"@) by { reveal_strlit("java-11"); reveal_strlit("java-"); reveal_strlit("11"); }
        assert("eclipse-temurin:"@ + "11"@ + "-jdk"@ =~= "eclipse-temurin:11-jdk"@) by { reveal_strlit("eclipse-temurin:11-jdk"); reveal_strlit("eclipse-temurin:"); reveal_strlit("-jdk"); reveal_strlit("11"); }
        assert(runner_table("java-11"@) == Some("eclipse-temurin:11-jdk"@)) by { reveal_strlit("java-11"); reveal_strlit("ubuntu-latest"); assert("java-11"@.len() != "ubuntu-latest"@.len()); reveal_strlit("ubuntu-22.04"); assert("java-11"@.len() != "ubuntu-22.04"@.len()); reveal_strlit("ubuntu-20.04"); assert("java-11"@.len() != "ubuntu-20.04"@.len()); reveal_strlit("ubuntu-18.04"); assert("java-11"@.len() != "ubuntu-18.04"@.len()); reveal_strlit("ubuntu-latest-medium"); assert("java-11"@.len() != "ubuntu-latest-medium"@.len()); reveal_strlit("ubuntu-22.04-medium"); assert("java-11"@.len() != "ubuntu-22.04-medium"@.len()); reveal_strlit("ubuntu-20.04-medium"); assert("java-11"@.len() != "ubuntu-20.04-medium"@.len()); reveal_strlit("ubuntu-18.04-medium"); assert("java-11"@.len() != "ubuntu-18.04-medium"@.len()); reveal_strlit("ubuntu-latest-large"); assert("java-11"@.len() != "ubuntu-latest-large"@.len()); reveal_strlit("ubuntu-22.04-large"); assert("java-11"@.len() != "ubuntu-22.04-large"@.len()); reveal_strlit("ubuntu-20.04-large"); assert("java-11"@.len() != "ubuntu-20.04-large"@.len()); reveal_strlit("ubuntu-18.04-large"); assert("java-11"@.len() != "ubuntu-18.04-large"@.len()); reveal_strlit("macos-latest"); assert("java-11"@.len() != "macos-latest"@.len()); reveal_strlit("macos-12"); assert("java-11"@.len() != "macos-12"@.len()); reveal_strlit("macos-11"); assert("java-11"@.len() != "macos-11"@.len()); reveal_strlit("macos-10.15"); assert("java-11"@.len() != "macos-10.15"@.len()); reveal_strlit("windows-latest"); assert("java-11"@.len() != "windows-latest"@.len()); reveal_strlit("windows-2022"); assert("java-11"@.len() != "windows-2022"@.len()); reveal_strlit("windows-2019"); assert("java-11"@.len() != "windows-2019"@.len()); reveal_strlit("python-latest"); assert("java-11"@.len() != "python-latest"@.len()); reveal_strlit("python-3.11"); assert("java-11"@.len() != "python-3.11"@.len()); reveal_strlit("python-3.10"); assert("java-11"@.len() != "python-3.10"@.len()); reveal_strlit("python-3.9"); assert("java-11"@.len() != "python-3.9"@.len()); reveal_strlit("python-3.8"); assert("java-11"@.len() != "python-3.8"@.len()); reveal_strlit("node-latest"); assert("java-11"@.len() != "node-latest"@.len()); reveal_strlit("node-20"); assert("java-11"@[0] != "node-20"@[0]); reveal_strlit("node-18"); assert("java-11"@[0] != "node-18"@[0]); reveal_strlit("node-16"); assert("java-11"@[0] != "node-16"@[0]); reveal_strlit("java-latest"); assert("java-11"@.len() != "java-latest"@.len()); reveal_strlit("java-17"); assert("java-11"@[6] != "java-17"@[6]); }
    }
    if v == "8"@ {
        assert("java-"@ + "8"@ =~= "java-8"@) by { reveal_strlit("java-8"); reveal_strlit("java-"); reveal_strlit("8"); }
        assert("eclipse-temurin:"@ + "8"@ + "-jdk"@ =~= "eclipse-temurin:8-jdk"@) by { reveal_strlit("eclipse-temurin:8-jdk"); reveal_strlit("eclipse-temurin:"); reveal_strlit("-jdk"); reveal_strlit("8"); }
        assert(runner_table("java-8"@) == Some("eclipse-temurin:8-jdk"@)) by { reveal_strlit("java-8"); reveal_strlit("ubuntu-latest"); assert("java-8"@.len() != "ubuntu-latest"@.len()); reveal_strlit("ubuntu-22.04"); assert("java-8"@.len() != "ubuntu-22.04"@.len()); reveal_strlit("ubuntu-20.04"); assert("java-8"@.len() != "ubuntu-20.04"@.len()); reveal_strlit("ubuntu-18.04"); assert("java-8"@.len() != "ubuntu-18.04"@.len()); reveal_strlit("ubuntu-latest-medium"); assert("java-8"@.len() != "ubuntu-latest-medium"@.len()); reveal_strlit("ubuntu-22.04-medium"); assert("java-8"@.len() != "ubuntu-22.04-medium"@.len()); reveal_strlit("ubuntu-20.04-medium"); assert("java-8"@.len() != "ubuntu-20.04-medium"@.len()); reveal_strlit("ubuntu-18.04-medium"); assert("java-8"@.len() != "ubuntu-18.04-medium"@.len()); reveal_strlit("ubuntu-latest-large"); assert("java-8"@.len() != "ubuntu-latest-large"@.len()); reveal_strlit("ubuntu-22.04-large"); assert("java-8"@.len() != "ubuntu-22.04-large"@.len()); reveal_strlit("ubuntu-20.04-large"); assert("java-8"@.len() != "ubuntu-20.04-large"@.len()); reveal_strlit("ubuntu-18.04-large"); assert("java-8"@.len() != "ubuntu-18.04-large"@.len()); reveal_strlit("macos-latest"); assert("java-8"@.len() != "macos-latest"@.len()); reveal_strlit("macos-12"); assert("java-8"@.len() != "macos-12"@.len()); reveal_strlit("macos-11"); assert("java-8"@.len() != "macos-11"@.len()); reveal_strlit("macos-10.15"); assert("java-8"@.len() != "macos-10.15"@.len()); reveal_strlit("windows-latest"); assert("java-8"@.len() != "windows-latest"@.len()); reveal_strlit("windows-2022"); assert("java-8"@.len() != "windows-2022"@.len()); reveal_strlit("windows-2019"); assert("java-8"@.len() != "windows-2019"@.len()); reveal_strlit("python-latest"); assert("java-8"@.len() != "python-latest"@.len()); reveal_strlit("python-3.11"); assert("java-8"@.len() != "python-3.11"@.len()); reveal_strlit("python-3.10"); assert("java-8"@.len() != "python-3.10"@.len()); reveal_strlit("python-3.9"); assert("java-8"@.len() != "python-3.9"@.len()); reveal_strlit("python-3.8"); assert("java-8"@.len() != "python-3.8"@.len()); reveal_strlit("node-latest"); assert("java-8"@.len() != "node-latest"@.len()); reveal_strlit("node-20"); assert("java-8"@.len() != "node-20"@.len()); reveal_strlit("node-18"); assert("java-8"@.len() != "node-18"@.len()); reveal_strlit("node-16"); assert("java-8"@.len() != "node-16"@.len()); reveal_strlit("java-latest"); assert("java-8"@.len() != "java-latest"@.len()); reveal_strlit("java-17"); assert("java-8"@.len() != "java-17"@.len()); reveal_strlit("java-11"); assert("java-8"@.len() != "java-11"@.len()); }
    }
}

/// `go-V` runs on `golang:V-slim` for each Go version V of the table,
/// whatever blanks surround the label.
pub proof fn lemma_go_runner_labels(label: Seq<char>, v: Seq<char>)
    requires
        v == "1.21"@ || v == "1.20"@ || v == "1.19"@,
    ensures
        trim(label) == "go-"@ + v ==> runner_image(label) == "golang:"@ + v + "-slim"@,
{
    if v == "1.21"@ {
        assert("go-"@ + "1.21"@ =~= "go-1.21"@) by { reveal_strlit("go-1.21"); reveal_strlit("go-"); reveal_strlit("1.21"); }
        assert("golang:"@ + "1.21"@ + "-slim"@ =~= "golang:1.21-slim"@) by { reveal_strlit("golang:1.21-slim"); reveal_strlit("-slim"); reveal_strlit("golang:"); reveal_strlit("1.21"); }
        assert(runner_table("go-1.21"@) == Some("golang:1.21-slim"@)) by { reveal_strlit("go-1.21"); reveal_strlit("ubuntu-latest"); assert("go-1.21"@.len() != "ubuntu-latest"@.len()); reveal_strlit("ubuntu-22.04"); assert("go-1.21"@.len() != "ubuntu-22.04"@.len()); reveal_strlit("ubuntu-20.04"); assert("go-1.21"@.len() != "ubuntu-20.04"@.len()); reveal_strlit("ubuntu-18.04"); assert("go-1.21"@.len() != "ubuntu-18.04"@.len()); reveal_strlit("ubuntu-latest-medium"); assert("go-1.21"@.len() != "ubuntu-latest-medium"@.len()); reveal_strlit("ubuntu-22.04-medium"); assert("go-1.21"@.len() != "ubuntu-22.04-medium"@.len()); reveal_strlit("ubuntu-20.04-medium"); assert("go-1.21"@.len() != "ubuntu-20.04-medium"@.len()); reveal_strlit("ubuntu-18.04-medium"); assert("go-1.21"@.len() != "ubuntu-18.04-medium"@.len()); reveal_strlit("ubuntu-latest-large"); assert("go-1.21"@.len() != "ubuntu-latest-large"@.len()); reveal_strlit("ubuntu-22.04-large"); assert("go-1.21"@.len() != "ubuntu-22.04-large"@.len()); reveal_strlit("ubuntu-20.04-large"); assert("go-1.21"@.len() != "ubuntu-20.04-large"@.len()); reveal_strlit("ubuntu-18.04-large"); assert("go-1.21"@.len() != "ubuntu-18.04-large"@.len()); reveal_strlit("macos-latest"); assert("go-1.21"@.len() != "macos-latest"@.len()); reveal_strlit("macos-12"); assert("go-1.21"@.len() != "macos-12"@.len()); reveal_strlit("macos-11"); assert("go-1.21"@.len() != "macos-11"@.len()); reveal_strlit("macos-10.15"); assert("go-1.21"@.len() != "macos-10.15"@.len()); reveal_strlit("windows-latest"); assert("go-1.21"@.len() != "windows-latest"@.len()); reveal_strlit("windows-2022"); assert("go-1.21"@.len() != "windows-2022"@.len()); reveal_strlit("windows-2019"); assert("go-1.21"@.len() != "windows-2019"@.len()); reveal_strlit("python-latest"); assert("go-1.21"@.len() != "python-latest"@.len()); reveal_strlit("python-3.11"); assert("go-1.21"@.len() != "python-3.11"@.len()); reveal_strlit("python-3.10"); assert("go-1.21"@.len() != "python-3.10"@.len()); reveal_strlit("python-3.9"); assert("go-1.21"@.len() != "python-3.9"@.len()); reveal_strlit("python-3.8"); assert("go-1.21"@.len() != "python-3.8"@.len()); reveal_strlit("node-latest"); assert("go-1.21"@.len() != "node-latest"@.len()); reveal_strlit("node-20"); assert("go-1.21"@[0] != "node-20"@[0]); reveal_strlit("node-18"); assert("go-1.21"@[0] != "node-18"@[0]); reveal_strlit("node-16"); assert("go-1.21"@[0] != "node-16"@[0]); reveal_strlit("java-latest"); assert("go-1.21"@.len() != "java-latest"@.len()); reveal_strlit("java-17"); assert("go-1.21"@[0] != "java-17"@[0]); reveal_strlit("java-11"); assert("go-1.21"@[0] != "java-11"@[0]); reveal_strlit("java-8"); assert("go-1.21"@.len() != "java-8"@.len()); reveal_strlit("go-latest"); assert("go-1.21"@.len() != "go-latest"@.len()); }
    }
    if v == "1.20"@ {
        assert("go-"@ + "1.20"@ =~= "go-1.20"@) by { reveal_strlit("go-1.20"); reveal_strlit("go-"); reveal_strlit("1.20"); }
        assert("golang:"@ + "1.20"@ + "-slim"@ =~= "golang:1.20-slim"@) by { reveal_strlit("golang:1.20-slim"); reveal_strlit("-slim"); reveal_strlit("golang:"); reveal_strlit("1.20"); }
        assert(runner_table("go-1.20"@) == Some("golang:1.20-slim"@)) by { reveal_strlit("go-1.20"); reveal_strlit("ubuntu-latest"); assert("go-1.20"@.len() != "ubuntu-latest"@.len()); reveal_strlit("ubuntu-22.04"); assert("go-1.20"@.len() != "ubuntu-22.04"@.len()); reveal_strlit("ubuntu-20.04"); assert("go-1.20"@.len() != "ubuntu-20.04"@.len()); reveal_strlit("ubuntu-18.04"); assert("go-1.20"@.len() != "ubuntu-18.04"@.len()); reveal_strlit("ubuntu-latest-medium"); assert("go-1.20"@.len() != "ubuntu-latest-medium"@.len()); reveal_strlit("ubuntu-22.04-medium"); assert("go-1.20"@.len() != "ubuntu-22.04-medium"@.len()); reveal_strlit("ubuntu-20.04-medium"); assert("go-1.20"@.len() != "ubuntu-20.04-medium"@.len()); reveal_strlit("ubuntu-18.04-medium"); assert("go-1.20"@.len() != "ubuntu-18.04-medium"@.len()); reveal_strlit("ubuntu-latest-large"); assert("go-1.20"@.len() != "ubuntu-latest-large"@.len()); reveal_strlit("ubuntu-22.04-large"); assert("go-1.20"@.len() != "ubuntu-22.04-large"@.len()); reveal_strlit("ubuntu-20.04-large"); assert("go-1.20"@.len() != "ubuntu-20.04-large"@.len()); reveal_strlit("ubuntu-18.04-large"); assert("go-1.20"@.len() != "ubuntu-18.04-large"@.len()); reveal_strlit("macos-latest"); assert("go-1.20"@.len() != "macos-latest"@.len()); reveal_strlit("macos-12"); assert("go-1.20"@.len() != "macos-12"@.len()); reveal_strlit("macos-11"); assert("go-1.20"@.len() != "macos-11"@.len()); reveal_strlit("macos-10.15"); assert("go-1.20"@.len() != "macos-10.15"@.len()); reveal_strlit("windows-latest"); assert("go-1.20"@.len() != "windows-latest"@.len()); reveal_strlit("windows-2022"); assert("go-1.20"@.len() != "windows-2022"@.len()); reveal_strlit("windows-2019"); assert("go-1.20"@.len() != "windows-2019"@.len()); reveal_strlit("python-latest"); assert("go-1.20"@.len() != "python-latest"@.len()); reveal_strlit("python-3.11"); assert("go-1.20"@.len() != "python-3.11"@.len()); reveal_strlit("python-3.10"); assert("go-1.20"@.len() != "python-3.10"@.len()); reveal_strlit("python-3.9"); assert("go-1.20"@.len() != "python-3.9"@.len()); reveal_strlit("python-3.8"); assert("go-1.20"@.len() != "python-3.8"@.len()); reveal_strlit("node-latest"); assert("go-1.20"@.len() != "node-latest"@.len()); reveal_strlit("node-20"); assert("go-1.20"@[0] != "node-20"@[0]); reveal_strlit("node-18"); assert("go-1.20"@[0] != "node-18"@[0]); reveal_strlit("node-16"); assert("go-1.20"@[0] != "node-16"@[0]); reveal_strlit("java-latest"); assert("go-1.20"@.len() != "java-latest"@.len()); reveal_strlit("java-17"); assert("go-1.20"@[0] != "java-17"@[0]); reveal_strlit("java-11"); assert("go-1.20"@[0] != "java-11"@[0]); reveal_strlit("java-8"); assert("go-1.20"@.len() != "java-8"@.len()); reveal_strlit("go-latest"); assert("go-1.20"@.len() != "go-latest"@.len()); reveal_strlit("go-1.21"); assert("go-1.20"@[6] != "go-1.21"@[6]); }
    }
    if v == "1.19"@ {
        assert("go-"@ + "1.19"@ =~= "go-1.19"@) by { reveal_strlit("go-1.19"); reveal_strlit("go-"); reveal_strlit("1.19"); }
        assert("golang:"@ + "1.19"@ + "-slim"@ =~= "golang:1.19-slim"@) by { reveal_strlit("golang:1.19-slim"); reveal_strlit("-slim"); reveal_strlit("golang:"); reveal_strlit("1.19"); }
        assert(runner_table("go-1.19"@) == Some("golang:1.19-slim"@)) by { reveal_strlit("go-1.19"); reveal_strlit("ubuntu-latest"); assert("go-1.19"@.len() != "ubuntu-latest"@.len()); reveal_strlit("ubuntu-22.04"); assert("go-1.19"@.len() != "ubuntu-22.04"@.len()); reveal_strlit("ubuntu-20.04"); assert("go-1.19"@.len() != "ubuntu-20.04"@.len()); reveal_strlit("ubuntu-18.04"); assert("go-1.19"@.len() != "ubuntu-18.04"@.len()); reveal_strlit("ubuntu-latest-medium"); assert("go-1.19"@.len() != "ubuntu-latest-medium"@.len()); reveal_strlit("ubuntu-22.04-medium"); assert("go-1.19"@.len() != "ubuntu-22.04-medium"@.len()); reveal_strlit("ubuntu-20.04-medium"); assert("go-1.19"@.len() != "ubuntu-20.04-medium"@.len()); reveal_strlit("ubuntu-18.04-medium"); assert("go-1.19"@.len() != "ubuntu-18.04-medium"@.len()); reveal_strlit("ubuntu-latest-large"); assert("go-1.19"@.len() != "ubuntu-latest-large"@.len()); reveal_strlit("ubuntu-22.04-large"); assert("go-1.19"@.len() != "ubuntu-22.04-large"@.len()); reveal_strlit("ubuntu-20.04-large"); assert("go-1.19"@.len() != "ubuntu-20.04-large"@.len()); reveal_strlit("ubuntu-18.04-large"); assert("go-1.19"@.len() != "ubuntu-18.04-large"@.len()); reveal_strlit("macos-latest"); assert("go-1.19"@.len() != "macos-latest"@.len()); reveal_strlit("macos-12"); assert("go-1.19"@.len() != "macos-12"@.len()); reveal_strlit("macos-11"); assert("go-1.19"@.len() != "macos-11"@.len()); reveal_strlit("macos-10.15"); assert("go-1.19"@.len() != "macos-10.15"@.len()); reveal_strlit("windows-latest"); assert("go-1.19"@.len() != "windows-latest"@.len()); reveal_strlit("windows-2022"); assert("go-1.19"@.len() != "windows-2022"@.len()); reveal_strlit("windows-2019"); assert("go-1.19"@.len() != "windows-2019"@.len()); reveal_strlit("python-latest"); assert("go-1.19"@.len() != "python-latest"@.len()); reveal_strlit("python-3.11"); assert("go-1.19"@.len() != "python-3.11"@.len()); reveal_strlit("python-3.10"); assert("go-1.19"@.len() != "python-3.10"@.len()); reveal_strlit("python-3.9"); assert("go-1.19"@.len() != "python-3.9"@.len()); reveal_strlit("python-3.8"); assert("go-1.19"@.len() != "python-3.8"@.len()); reveal_strlit("node-latest"); assert("go-1.19"@.len() != "node-latest"@.len()); reveal_strlit("node-20"); assert("go-1.19"@[0] != "node-20"@[0]); reveal_strlit("node-18"); assert("go-1.19"@[0] != "node-18"@[0]); reveal_strlit("node-16"); assert("go-1.19"@[0] != "node-16"@[0]); reveal_strlit("java-latest"); assert("go-1.19"@.len() != "java-latest"@.len()); reveal_strlit("java-17"); assert("go-1.19"@[0] != "java-17"@[0]); reveal_strlit("java-11"); assert("go-1.19"@[0] != "java-11"@[0]); reveal_strlit("java-8"); assert("go-1.19"@.len() != "java-8"@.len()); reveal_strlit("go-latest"); assert("go-1.19"@.len() != "go-latest"@.len()); reveal_strlit("go-1.21"); assert("go-1.19"@[5] != "go-1.21"@[5]); reveal_strlit("go-1.20"); assert("go-1.19"@[5] != "go-1.20"@[5]); }
    }
}

/// `dotnet-V` runs on `mcr.microsoft.com/dotnet/sdk:V` for each .NET
/// version V of the table, whatever blanks surround the label.
pub proof fn lemma_dotnet_runner_labels(label: Seq<char>, v: Seq<char>)
    requires
        v == "7.0"@ || v == "6.0"@ || v == "5.0"@,
    ensures
        trim(label) == "dotnet-"@ + v ==> runner_image(label) == "mcr.microsoft.com/dotnet/sdk:"@ + v,
{
    if v == "7.0"@ {
        assert("dotnet-"@ + "7.0"@ =~= "dotnet-7.0"@) by { reveal_strlit("dotnet-7.0"); reveal_strlit("dotnet-"); reveal_strlit("7.0"); }
        assert("mcr.microsoft.com/dotnet/sdk:"@ + "7.0"@ =~= "mcr.microsoft.com/dotnet/sdk:7.0"@) by { reveal_strlit("mcr.microsoft.com/dotnet/sdk:7.0"); reveal_strlit("mcr.microsoft.com/dotnet/sdk:"); reveal_strlit("7.0"); }
        assert(runner_table("dotnet-7.0"@) == Some("mcr.microsoft.com/dotnet/sdk:7.0"@)) by { reveal_strlit("dotnet-7.0"); reveal_strlit("ubuntu-latest"); assert("dotnet-7.0"@.len() != "ubuntu-latest"@.len()); reveal_strlit("ubuntu-22.04"); assert("dotnet-7.0"@.len() != "ubuntu-22.04"@.len()); reveal_strlit("ubuntu-20.04"); assert("dotnet-7.0"@.len() != "ubuntu-20.04"@.len()); reveal_strlit("ubuntu-18.04"); assert("dotnet-7.0"@.len() != "ubuntu-18.04"@.len()); reveal_strlit("ubuntu-latest-medium"); assert("dotnet-7.0"@.len() != "ubuntu-latest-medium"@.len()); reveal_strlit("ubuntu-22.04-medium"); assert("dotnet-7.0"@.len() != "ubuntu-22.04-medium"@.len()); reveal_strlit("ubuntu-20.04-medium"); assert("dotnet-7.0"@.len() != "ubuntu-20.04-medium"@.len()); reveal_strlit("ubuntu-18.04-medium"); assert("dotnet-7.0"@.len() != "ubuntu-18.04-medium"@.len()); reveal_strlit("ubuntu-latest-large"); assert("dotnet-7.0"@.len() != "ubuntu-latest-large"@.len()); reveal_strlit("ubuntu-22.04-large"); assert("dotnet-7.0"@.len() != "ubuntu-22.04-large"@.len()); reveal_strlit("ubuntu-20.04-large"); assert("dotnet-7.0"@.len() != "ubuntu-20.04-large"@.len()); reveal_strlit("ubuntu-18.04-large"); assert("dotnet-7.0"@.len() != "ubuntu-18.04-large"@.len()); reveal_strlit("macos-latest"); assert("dotnet-7.0"@.len() != "macos-latest"@.len()); reveal_strlit("macos-12"); assert("dotnet-7.0"@.len() != "macos-12"@.len()); reveal_strlit("macos-11"); assert("dotnet-7.0"@.len() != "macos-11"@.len()); reveal_strlit("macos-10.15"); assert("dotnet-7.0"@.len() != "macos-10.15"@.len()); reveal_strlit("windows-latest"); assert("dotnet-7.0"@.len() != "windows-latest"@.len()); reveal_strlit("windows-2022"); assert("dotnet-7.0"@.len() != "windows-2022"@.len()); reveal_strlit("windows-2019"); assert("dotnet-7.0"@.len() != "windows-2019"@.len()); reveal_strlit("python-latest"); assert("dotnet-7.0"@.len() != "python-latest"@.len()); reveal_strlit("python-3.11"); assert("dotnet-7.0"@.len() != "python-3.11"@.len()); reveal_strlit("python-3.10"); assert("dotnet-7.0"@.len() != "python-3.10"@.len()); reveal_strlit("python-3.9"); assert("dotnet-7.0"@[0] != "python-3.9"@[0]); reveal_strlit("python-3.8"); assert("dotnet-7.0"@[0] != "python-3.8"@[0]); reveal_strlit("node-latest"); assert("dotnet-7.0"@.len() != "node-latest"@.len()); reveal_strlit("node-20"); assert("dotnet-7.0"@.len() != "node-20"@.len()); reveal_strlit("node-18"); assert("dotnet-7.0"@.len() != "node-18"@.len()); reveal_strlit("node-16"); assert("dotnet-7.0"@.len() != "node-16"@.len()); reveal_strlit("java-latest"); assert("dotnet-7.0"@.len() != "java-latest"@.len()); reveal_strlit("java-17"); assert("dotnet-7.0"@.len() != "java-17"@.len()); reveal_strlit("java-11"); assert("dotnet-7.0"@.len() != "java-11"@.len()); reveal_strlit("java-8"); assert("dotnet-7.0"@.len() != "java-8"@.len()); reveal_strlit("go-latest"); assert("dotnet-7.0"@.len() != "go-latest"@.len()); reveal_strlit("go-1.21"); assert("dotnet-7.0"@.len() != "go-1.21"@.len()); reveal_strlit("go-1.20"); assert("dotnet-7.0"@.len() != "go-1.20"@.len()); reveal_strlit("go-1.19"); assert("dotnet-7.0"@.len() != "go-1.19"@.len()); reveal_strlit("dotnet-latest"); assert("dotnet-7.0"@.len() != "dotnet-latest"@.len()); }
    }
    if v == "6.0"@ {
        assert("dotnet-"@ + "6.0"@ =~= "dotnet-6.0"@) by { reveal_strlit("dotnet-6.0"); reveal_strlit("dotnet-"); reveal_strlit("6.0"); }
        assert("mcr.microsoft.com/dotnet/sdk:"@ + "6.0"@ =~= "mcr.microsoft.com/dotnet/sdk:6.0"@) by { reveal_strlit("mcr.microsoft.com/dotnet/sdk:6.0"); reveal_strlit("mcr.microsoft.com/dotnet/sdk:"); reveal_strlit("6.0"); }
        assert(runner_table("dotnet-6.0"@) == Some("mcr.microsoft.com/dotnet/sdk:6.0"@)) by { reveal_strlit("dotnet-6.0"); reveal_strlit("ubuntu-latest"); assert("dotnet-6.0"@.len() != "ubuntu-latest"@.len()); reveal_strlit("ubuntu-22.04"); assert("dotnet-6.0"@.len() != "ubuntu-22.04"@.len()); reveal_strlit("ubuntu-20.04"); assert("dotnet-6.0"@.len() != "ubuntu-20.04"@.len()); reveal_strlit("ubuntu-18.04"); assert("dotnet-6.0"@.len() != "ubuntu-18.04"@.len()); reveal_strlit("ubuntu-latest-medium"); assert("dotnet-6.0"@.len() != "ubuntu-latest-medium"@.len()); reveal_strlit("ubuntu-22.04-medium"); assert("dotnet-6.0"@.len() != "ubuntu-22.04-medium"@.len()); reveal_strlit("ubuntu-20.04-medium"); assert("dotnet-6.0"@.len() != "ubuntu-20.04-medium"@.len()); reveal_strlit("ubuntu-18.04-medium"); assert("dotnet-6.0"@.len() != "ubuntu-18.04-medium"@.len()); reveal_strlit("ubuntu-latest-large"); assert("dotnet-6.0"@.len() != "ubuntu-latest-large"@.len()); reveal_strlit("ubuntu-22.04-large"); assert("dotnet-6.0"@.len() != "ubuntu-22.04-large"@.len()); reveal_strlit("ubuntu-20.04-large"); assert("dotnet-6.0"@.len() != "ubuntu-20.04-large"@.len()); reveal_strlit("ubuntu-18.04-large"); assert("dotnet-6.0"@.len() != "ubuntu-18.04-large"@.len()); reveal_strlit("macos-latest"); assert("dotnet-6.0"@.len() != "macos-latest"@.len()); reveal_strlit("macos-12"); assert("dotnet-6.0"@.len() != "macos-12"@.len()); reveal_strlit("macos-11"); assert("dotnet-6.0"@.len() != "macos-11"@.len()); reveal_strlit("macos-10.15"); assert("dotnet-6.0"@.len() != "macos-10.15"@.len()); reveal_strlit("windows-latest"); assert("dotnet-6.0"@.len() != "windows-latest"@.len()); reveal_strlit("windows-2022"); assert("dotnet-6.0"@.len() != "windows-2022"@.len()); reveal_strlit("windows-2019"); assert("dotnet-6.0"@.len() != "windows-2019"@.len()); reveal_strlit("python-latest"); assert("dotnet-6.0"@.len() != "python-latest"@.len()); reveal_strlit("python-3.11"); assert("dotnet-6.0"@.len() != "python-3.11"@.len()); reveal_strlit("python-3.10"); assert("dotnet-6.0"@.len() != "python-3.10"@.len()); reveal_strlit("python-3.9"); assert("dotnet-6.0"@[0] != "python-3.9"@[0]); reveal_strlit("python-3.8"); assert("dotnet-6.0"@[0] != "python-3.8"@[0]); reveal_strlit("node-latest"); assert("dotnet-6.0"@.len() != "node-latest"@.len()); reveal_strlit("node-20"); assert("dotnet-6.0"@.len() != "node-20"@.len()); reveal_strlit("node-18"); assert("dotnet-6.0"@.len() != "node-18"@.len()); reveal_strlit("node-16"); assert("dotnet-6.0"@.len() != "node-16"@.len()); reveal_strlit("java-latest"); assert("dotnet-6.0"@.len() != "java-latest"@.len()); reveal_strlit("java-17"); assert("dotnet-6.0"@.len() != "java-17"@.len()); reveal_strlit("java-11"); assert("dotnet-6.0"@.len() != "java-11"@.len()); reveal_strlit("java-8"); assert("dotnet-6.0"@.len() != "java-8"@.len()); reveal_strlit("go-latest"); assert("dotnet-6.0"@.len() != "go-latest"@.len()); reveal_strlit("go-1.21"); assert("dotnet-6.0"@.len() != "go-1.21"@.len()); reveal_strlit("go-1.20"); assert("dotnet-6.0"@.len() != "go-1.20"@.len()); reveal_strlit("go-1.19"); assert("dotnet-6.0"@.len() != "go-1.19"@.len()); reveal_strlit("dotnet-latest"); assert("dotnet-6.0"@.len() != "dotnet-latest"@.len()); reveal_strlit("dotnet-7.0"); assert("dotnet-6.0"@[7] != "dotnet-7.0"@[7]); }
    }
    if v == "5.0"@ {
        assert("dotnet-"@ + "5.0"@ =~= "dotnet-5.0"@) by { reveal_strlit("dotnet-5.0"); reveal_strlit("dotnet-"); reveal_strlit("5.0"); }
        assert("mcr.microsoft.com/dotnet/sdk:"@ + "5.0"@ =~= "mcr.microsoft.com/dotnet/sdk:5.0"@) by { reveal_strlit("mcr.microsoft.com/dotnet/sdk:5.0"); reveal_strlit("mcr.microsoft.com/dotnet/sdk:"); reveal_strlit("5.0"); }
        assert(runner_table("dotnet-5.0"@) == Some("mcr.microsoft.com/dotnet/sdk:5.0"@)) by { reveal_strlit("dotnet-5.0"); reveal_strlit("ubuntu-latest"); assert("dotnet-5.0"@.len() != "ubuntu-latest"@.len()); reveal_strlit("ubuntu-22.04"); assert("dotnet-5.0"@.len() != "ubuntu-22.04"@.len()); reveal_strlit("ubuntu-20.04"); assert("dotnet-5.0"@.len() != "ubuntu-20.04"@.len()); reveal_strlit("ubuntu-18.04"); assert("dotnet-5.0"@.len() != "ubuntu-18.04"@.len()); reveal_strlit("ubuntu-latest-medium"); assert("dotnet-5.0"@.len() != "ubuntu-latest-medium"@.len()); reveal_strlit("ubuntu-22.04-medium"); assert("dotnet-5.0"@.len() != "ubuntu-22.04-medium"@.len()); reveal_strlit("ubuntu-20.04-medium"); assert("dotnet-5.0"@.len() != "ubuntu-20.04-medium"@.len()); reveal_strlit("ubuntu-18.04-medium"); assert("dotnet-5.0"@.len() != "ubuntu-18.04-medium"@.len()); reveal_strlit("ubuntu-latest-large"); assert("dotnet-5.0"@.len() != "ubuntu-latest-large"@.len()); reveal_strlit("ubuntu-22.04-large"); assert("dotnet-5.0"@.len() != "ubuntu-22.04-large"@.len()); reveal_strlit("ubuntu-20.04-large"); assert("dotnet-5.0"@.len() != "ubuntu-20.04-large"@.len()); reveal_strlit("ubuntu-18.04-large"); assert("dotnet-5.0"@.len() != "ubuntu-18.04-large"@.len()); reveal_strlit("macos-latest"); assert("dotnet-5.0"@.len() != "macos-latest"@.len()); reveal_strlit("macos-12"); assert("dotnet-5.0"@.len() != "macos-12"@.len()); reveal_strlit("macos-11"); assert("dotnet-5.0"@.len() != "macos-11"@.len()); reveal_strlit("macos-10.15"); assert("dotnet-5.0"@.len() != "macos-10.15"@.len()); reveal_strlit("windows-latest"); assert("dotnet-5.0"@.len() != "windows-latest"@.len()); reveal_strlit("windows-2022"); assert("dotnet-5.0"@.len() != "windows-2022"@.len()); reveal_strlit("windows-2019"); assert("dotnet-5.0"@.len() != "windows-2019"@.len()); reveal_strlit("python-latest"); assert("dotnet-5.0"@.len() != "python-latest"@.len()); reveal_strlit("python-3.11"); assert("dotnet-5.0"@.len() != "python-3.11"@.len()); reveal_strlit("python-3.10"); assert("dotnet-5.0"@.len() != "python-3.10"@.len()); reveal_strlit("python-3.9"); assert("dotnet-5.0"@[0] != "python-3.9"@[0]); reveal_strlit("python-3.8"); assert("dotnet-5.0"@[0] != "python-3.8"@[0]); reveal_strlit("node-latest"); assert("dotnet-5.0"@.len() != "node-latest"@.len()); reveal_strlit("node-20"); assert("dotnet-5.0"@.len() != "node-20"@.len()); reveal_strlit("node-18"); assert("dotnet-5.0"@.len() != "node-18"@.len()); reveal_strlit("node-16"); assert("dotnet-5.0"@.len() != "node-16"@.len()); reveal_strlit("java-latest"); assert("dotnet-5.0"@.len() != "java-latest"@.len()); reveal_strlit("java-17"); assert("dotnet-5.0"@.len() != "java-17"@.len()); reveal_strlit("java-11"); assert("dotnet-5.0"@.len() != "java-11"@.len()); reveal_strlit("java-8"); assert("dotnet-5.0"@.len() != "java-8"@.len()); reveal_strlit("go-latest"); assert("dotnet-5.0"@.len() != "go-latest"@.len()); reveal_strlit("go-1.21"); assert("dotnet-5.0"@.len() != "go-1.21"@.len()); reveal_strlit("go-1.20"); assert("dotnet-5.0"@.len() != "go-1.20"@.len()); reveal_strlit("go-1.19"); assert("dotnet-5.0"@.len() != "go-1.19"@.len()); reveal_strlit("dotnet-latest"); assert("dotnet-5.0"@.len() != "dotnet-latest"@.len()); reveal_strlit("dotnet-7.0"); assert("dotnet-5.0"@[7] != "dotnet-7.0"@[7]); reveal_strlit("dotnet-6.0"); assert("dotnet-5.0"@[7] != "dotnet-6.0"@[7]); }
    }
}

/// `windows-V` runs on the Windows Server Core image `ltscV` for each
/// Windows version V of the table, whatever blanks surround the label.
pub proof fn lemma_windows_runner_labels(label: Seq<char>, v: Seq<char>)
    requires
        v == "2022"@ || v == "2019"@,
    ensures
        trim(label) == "windows-"@ + v ==> runner_image(label) == "mcr.microsoft.com/windows/servercore:ltsc"@ + v,
{
    if v == "2022"@ {
        assert("windows-"@ + "2022"@ =~= "windows-2022"@) by { reveal_strlit("windows-2022"); reveal_strlit("windows-"); reveal_strlit("2022"); }
        assert("mcr.microsoft.com/windows/servercore:ltsc"@ + "2022"@ =~= "mcr.microsoft.com/windows/servercore:ltsc2022"@) by { reveal_strlit("mcr.microsoft.com/windows/servercore:ltsc2022"); reveal_strlit("mcr.microsoft.com/windows/servercore:ltsc"); reveal_strlit("2022"); }
        assert(runner_table("windows-2022"@) == Some("mcr.microsoft.com/windows/servercore:ltsc2022"@)) by { reveal_strlit("windows-2022"); reveal_strlit("ubuntu-latest"); assert("windows-2022"@.len() != "ubuntu-latest"@.len()); reveal_strlit("ubuntu-22.04"); assert("windows-2022"@[0] != "ubuntu-22.04"@[0]); reveal_strlit("ubuntu-20.04"); assert("windows-2022"@[0] != "ubuntu-20.04"@[0]); reveal_strlit("ubuntu-18.04"); assert("windows-2022"@[0] != "ubuntu-18.04"@[0]); reveal_strlit("ubuntu-latest-medium"); assert("windows-2022"@.len() != "ubuntu-latest-medium"@.len()); reveal_strlit("ubuntu-22.04-medium"); assert("windows-2022"@.len() != "ubuntu-22.04-medium"@.len()); reveal_strlit("ubuntu-20.04-medium"); assert("windows-2022"@.len() != "ubuntu-20.04-medium"@.len()); reveal_strlit("ubuntu-18.04-medium"); assert("windows-2022"@.len() != "ubuntu-18.04-medium"@.len()); reveal_strlit("ubuntu-latest-large"); assert("windows-2022"@.len() != "ubuntu-latest-large"@.len()); reveal_strlit("ubuntu-22.04-large"); assert("windows-2022"@.len() != "ubuntu-22.04-large"@.len()); reveal_strlit("ubuntu-20.04-large"); assert("windows-2022"@.len() != "ubuntu-20.04-large"@.len()); reveal_strlit("ubuntu-18.04-large"); assert("windows-2022"@.len() != "ubuntu-18.04-large"@.len()); reveal_strlit("macos-latest"); assert("windows-2022"@[0] != "macos-latest"@[0]); reveal_strlit("macos-12"); assert("windows-2022"@.len() != "macos-12"@.len()); reveal_strlit("macos-11"); assert("windows-2022"@.len() != "macos-11"@.len()); reveal_strlit("macos-10.15"); assert("windows-2022"@.len() != "macos-10.15"@.len()); reveal_strlit("windows-latest"); assert("windows-2022"@.len() != "windows-latest"@.len()); }
    }
    if v == "2019"@ {
        assert("windows-"@ + "2019"@ =~= "windows-2019"@) by { reveal_strlit("windows-2019"); reveal_strlit("windows-"); reveal_strlit("2019"); }
        assert("mcr.microsoft.com/windows/servercore:ltsc"@ + "2019"@ =~= "mcr.microsoft.com/windows/servercore:ltsc2019"@) by { reveal_strlit("mcr.microsoft.com/windows/servercore:ltsc2019"); reveal_strlit("mcr.microsoft.com/windows/servercore:ltsc"); reveal_strlit("2019"); }
        assert(runner_table("windows-2019"@) == Some("mcr.microsoft.com/windows/servercore:ltsc2019"@)) by { reveal_strlit("windows-2019"); reveal_strlit("ubuntu-latest"); assert("windows-2019"@.len() != "ubuntu-latest"@.len()); reveal_strlit("ubuntu-22.04"); assert("windows-2019"@[0] != "ubuntu-22.04"@[0]); reveal_strlit("ubuntu-20.04"); assert("windows-2019"@[0] != "ubuntu-20.04"@[0]); reveal_strlit("ubuntu-18.04"); assert("windows-2019"@[0] != "ubuntu-18.04"@[0]); reveal_strlit("ubuntu-latest-medium"); assert("windows-2019"@.len() != "ubuntu-latest-medium"@.len()); reveal_strlit("ubuntu-22.04-medium"); assert("windows-2019"@.len() != "ubuntu-22.04-medium"@.len()); reveal_strlit("ubuntu-20.04-medium"); assert("windows-2019"@.len() != "ubuntu-20.04-medium"@.len()); reveal_strlit("ubuntu-18.04-medium"); assert("windows-2019"@.len() != "ubuntu-18.04-medium"@.len()); reveal_strlit("ubuntu-latest-large"); assert("windows-2019"@.len() != "ubuntu-latest-large"@.len()); reveal_strlit("ubuntu-22.04-large"); assert("windows-2019"@.len() != "ubuntu-22.04-large"@.len()); reveal_strlit("ubuntu-20.04-large"); assert("windows-2019"@.len() != "ubuntu-20.04-large"@.len()); reveal_strlit("ubuntu-18.04-large"); assert("windows-2019"@.len() != "ubuntu-18.04-large"@.len()); reveal_strlit("macos-latest"); assert("windows-2019"@[0] != "macos-latest"@[0]); reveal_strlit("macos-12"); assert("windows-2019"@.len() != "macos-12"@.len()); reveal_strlit("macos-11"); assert("windows-2019"@.len() != "macos-11"@.len()); reveal_strlit("macos-10.15"); assert("windows-2019"@.len() != "macos-10.15"@.len()); reveal_strlit("windows-latest"); assert("windows-2019"@.len() != "windows-latest"@.len()); reveal_strlit("windows-2022"); assert("windows-2019"@[10] != "windows-2022"@[10]); }
    }
}

} // verus!
