//! The decisions a step makes around running its command: its name, what
//! kind of `uses:` it is, the shell and directory of a `run:` step, the
//! command an emulated action runs, and the result it reports.
use vstd::prelude::*;
use crate::steps::{StepResult, StepStatus};
use crate::text::{chars_of, has_prefix, contains_seq, owned, push_all, push_str, str_eq, str_starts_with, string_of, slice_range, decimal, decimal_chars, trim, trim_str, views, join, join_strings, find_char, find_char_exec, lemma_find_char, contains};
use crate::workflow::Defaults;
use crate::environment::signed_decimal;

verus! {

/// The name a step is shown under: its `name:`, else `Step N` (from 1).
pub open spec fn step_display_name(name: Option<Seq<char>>, idx: nat) -> Seq<char> {
    match name {
        Some(n) => n,
        None => "Step "@ + decimal(idx + 1),
    }
}

/// The name a step is shown under.
pub fn step_name(name: &Option<String>, idx: usize) -> (r: String)
    requires
        idx < usize::MAX,
    ensures
        r@ == step_display_name(match name { Some(n) => Some(n@), None => None }, idx as nat),
{
    match name {
        Some(n) => n.clone(),
        None => {
            let mut r = owned("Step ");
            push_all(&mut r, &decimal_chars((idx + 1) as u64));
            r
        },
    }
}

/// Built-in handling for a `uses:` step.
#[derive(PartialEq, Eq, Structural, Clone, Copy)]
pub enum UsesKind {
    Checkout,
    UploadArtifact,
    DownloadArtifact,
    Cache,
    Action,
}

/// Which built-in handles a `uses:` value, by its prefix.
pub open spec fn uses_kind(uses: Seq<char>) -> UsesKind {
    if has_prefix(uses, "actions/checkout"@) {
        UsesKind::Checkout
    } else if has_prefix(uses, "actions/upload-artifact"@) {
        UsesKind::UploadArtifact
    } else if has_prefix(uses, "actions/download-artifact"@) {
        UsesKind::DownloadArtifact
    } else if has_prefix(uses, "actions/cache"@) {
        UsesKind::Cache
    } else {
        UsesKind::Action
    }
}

/// Classifies a `uses:` value (see [`uses_kind`]).
pub fn classify_uses(uses: &str) -> (r: UsesKind)
    ensures
        r == uses_kind(uses@),
{
    if str_starts_with(uses, "actions/checkout") {
        UsesKind::Checkout
    } else if str_starts_with(uses, "actions/upload-artifact") {
        UsesKind::UploadArtifact
    } else if str_starts_with(uses, "actions/download-artifact") {
        UsesKind::DownloadArtifact
    } else if str_starts_with(uses, "actions/cache") {
        UsesKind::Cache
    } else {
        UsesKind::Action
    }
}

/// The `defaults.run.shell` of a defaults block.
pub open spec fn default_shell(d: Option<Defaults>) -> Option<Seq<char>> {
    match d {
        Some(d) => match d.run {
            Some(r) => match r.shell { Some(s) => Some(s@), None => None },
            None => None,
        },
        None => None,
    }
}

/// The `defaults.run.working-directory` of a defaults block.
pub open spec fn default_working_directory(d: Option<Defaults>) -> Option<Seq<char>> {
    match d {
        Some(d) => match d.run {
            Some(r) => match r.working_directory { Some(s) => Some(s@), None => None },
            None => None,
        },
        None => None,
    }
}

fn defaults_shell(d: Option<&Defaults>) -> (r: Option<String>)
    ensures
        match r { Some(s) => default_shell(match d { Some(x) => Some(*x), None => None }) == Some(s@), None => default_shell(match d { Some(x) => Some(*x), None => None }) is None },
{
    match d {
        Some(d) => match &d.run {
            Some(r) => match &r.shell { Some(s) => Some(s.clone()), None => None },
            None => None,
        },
        None => None,
    }
}

fn defaults_working_directory(d: Option<&Defaults>) -> (r: Option<String>)
    ensures
        match r { Some(s) => default_working_directory(match d { Some(x) => Some(*x), None => None }) == Some(s@), None => default_working_directory(match d { Some(x) => Some(*x), None => None }) is None },
{
    match d {
        Some(d) => match &d.run {
            Some(r) => match &r.working_directory { Some(s) => Some(s.clone()), None => None },
            None => None,
        },
        None => None,
    }
}

/// The shell of a `run:` step: the step's, else the job's default, else the
/// workflow's default, else `bash`.
pub fn effective_shell(step_shell: &Option<String>, job_defaults: Option<&Defaults>, workflow_defaults: Option<&Defaults>) -> (r: String)
    ensures
        r@ == (match step_shell {
            Some(s) => s@,
            None => match default_shell(match job_defaults { Some(x) => Some(*x), None => None }) {
                Some(s) => s,
                None => match default_shell(match workflow_defaults { Some(x) => Some(*x), None => None }) {
                    Some(s) => s,
                    None => "bash"@,
                },
            },
        }),
{
    match step_shell {
        Some(s) => s.clone(),
        None => match defaults_shell(job_defaults) {
            Some(s) => s,
            None => match defaults_shell(workflow_defaults) {
                Some(s) => s,
                None => owned("bash"),
            },
        },
    }
}

/// The working directory of a `run:` step: the step's, else the job's
/// default, else the workflow's default.
pub fn effective_working_directory(step_wd: &Option<String>, job_defaults: Option<&Defaults>, workflow_defaults: Option<&Defaults>) -> (r: Option<String>)
    ensures
        match r {
            Some(s) => (match step_wd {
                Some(w) => Some(w@),
                None => match default_working_directory(match job_defaults { Some(x) => Some(*x), None => None }) {
                    Some(w) => Some(w),
                    None => default_working_directory(match workflow_defaults { Some(x) => Some(*x), None => None }),
                },
            }) == Some(s@),
            None => step_wd is None
                && default_working_directory(match job_defaults { Some(x) => Some(*x), None => None }) is None
                && default_working_directory(match workflow_defaults { Some(x) => Some(*x), None => None }) is None,
        },
{
    match step_wd {
        Some(w) => Some(w.clone()),
        None => match defaults_working_directory(job_defaults) {
            Some(w) => Some(w),
            None => defaults_working_directory(workflow_defaults),
        },
    }
}

/// The command line that runs `script` in `shell`.
pub open spec fn shell_command(shell: Seq<char>, script: Seq<char>) -> Seq<Seq<char>> {
    if shell == "bash"@ {
        seq!["bash"@, "--noprofile"@, "--norc"@, "-e"@, "-o"@, "pipefail"@, "-c"@, script]
    } else if shell == "sh"@ {
        seq!["sh"@, "-e"@, "-c"@, script]
    } else if shell == "python"@ {
        seq!["python"@, "-c"@, script]
    } else if shell == "pwsh"@ || shell == "powershell"@ {
        seq!["pwsh"@, "-command"@, script]
    } else {
        seq![shell, "-c"@, script]
    }
}

fn push_word(v: &mut Vec<String>, w: &str)
    ensures
        views(final(v)@) == views(old(v)@).push(w@),
{
    let ghost before = v@;
    v.push(owned(w));
    assert(views(v@) =~= views(before).push(w@));
}

/// Builds the command line for a `run:` script (see [`shell_command`]).
pub fn shell_command_exec(shell: &str, script: &str) -> (r: Vec<String>)
    ensures
        views(r@) == shell_command(shell@, script@),
{
    let mut v: Vec<String> = Vec::new();
    assert(views(v@) =~= Seq::<Seq<char>>::empty());
    if str_eq(shell, "bash") {
        push_word(&mut v, "bash");
        push_word(&mut v, "--noprofile");
        push_word(&mut v, "--norc");
        push_word(&mut v, "-e");
        push_word(&mut v, "-o");
        push_word(&mut v, "pipefail");
        push_word(&mut v, "-c");
        push_word(&mut v, script);
    } else if str_eq(shell, "sh") {
        push_word(&mut v, "sh");
        push_word(&mut v, "-e");
        push_word(&mut v, "-c");
        push_word(&mut v, script);
    } else if str_eq(shell, "python") {
        push_word(&mut v, "python");
        push_word(&mut v, "-c");
        push_word(&mut v, script);
    } else if str_eq(shell, "pwsh") || str_eq(shell, "powershell") {
        push_word(&mut v, "pwsh");
        push_word(&mut v, "-command");
        push_word(&mut v, script);
    } else {
        push_word(&mut v, shell);
        push_word(&mut v, "-c");
        push_word(&mut v, script);
    }
    assert(views(v@) =~= shell_command(shell@, script@));
    v
}

/// The `/`-separated parts of `s`, empty parts included.
pub open spec fn split_slash(s: Seq<char>) -> Seq<Seq<char>>
    decreases s.len(),
{
    match find_char(s, '/', 0) {
        Some(k) => if 0 <= k < s.len() { seq![s.take(k)] + split_slash(s.skip(k + 1)) } else { seq![s] },
        None => seq![s],
    }
}

/// Applies path parts to a stack of directory names: empty parts and `.`
/// change nothing, `..` leaves the current directory (never above the
/// root), any other part enters it.
pub open spec fn normalize(stack: Seq<Seq<char>>, parts: Seq<Seq<char>>) -> Seq<Seq<char>>
    decreases parts.len(),
{
    if parts.len() == 0 {
        stack
    } else {
        let p = parts[0];
        let next = if p == ""@ || p == "."@ {
            stack
        } else if p == ".."@ {
            if stack.len() > 0 { stack.drop_last() } else { stack }
        } else {
            stack.push(p)
        };
        normalize(next, parts.drop_first())
    }
}

/// The directory names of the container path for a working directory: an
/// absolute one as given, a relative one under `/github/workspace`.
pub open spec fn working_dir_names(wd: Seq<char>) -> Seq<Seq<char>> {
    let joined = if has_prefix(wd, "/"@) { wd } else { "/github/workspace/"@ + wd };
    normalize(Seq::empty(), split_slash(joined))
}

/// The container directory a `run:` step works in, or the reason it is
/// refused: it must lie within `/github/workspace` once `..` is applied.
pub open spec fn container_working_dir(wd: Seq<char>) -> Result<Seq<char>, Seq<char>> {
    let names = working_dir_names(wd);
    if names.len() >= 2 && names[0] == "github"@ && names[1] == "workspace"@ {
        Ok("/"@ + join(names, "/"@))
    } else {
        Err("Invalid working-directory '"@ + wd + "': must be within workspace"@)
    }
}

fn split_slash_exec(s: &Vec<char>) -> (r: Vec<String>)
    ensures
        views(r@) == split_slash(s@),
    decreases s@.len(),
{
    let n = s.len();
    match find_char_exec(s, '/') {
        Some(k) => {
            proof { lemma_find_char(s@, '/', 0); }
            let head = string_of(&slice_range(s, 0, k));
            let rest = slice_range(s, k + 1, n);
            assert(rest@ =~= s@.skip(k + 1));
            let mut tail = split_slash_exec(&rest);
            let ghost t = views(tail@);
            tail.insert(0, head);
            assert(views(tail@) =~= seq![s@.take(k as int)] + t);
            tail
        },
        None => {
            let mut v: Vec<String> = Vec::new();
            v.push(string_of(s));
            assert(views(v@) =~= seq![s@]);
            v
        },
    }
}

/// Resolves the working directory of a `run:` step inside the container
/// (see [`container_working_dir`]).
pub fn resolve_working_directory(wd: &str) -> (r: Result<String, String>)
    ensures
        match r {
            Ok(p) => container_working_dir(wd@) == Ok::<Seq<char>, Seq<char>>(p@),
            Err(m) => container_working_dir(wd@) == Err::<Seq<char>, Seq<char>>(m@),
        },
{
    let joined = if str_starts_with(wd, "/") {
        owned(wd)
    } else {
        let mut j = owned("/github/workspace/");
        push_str(&mut j, wd);
        j
    };
    let jv = chars_of(joined.as_str());
    let parts = split_slash_exec(&jv);
    let ghost ps = views(parts@);
    let mut stack: Vec<String> = Vec::new();
    let mut i: usize = 0;
    assert(ps.skip(0) =~= ps);
    assert(views(stack@) =~= Seq::<Seq<char>>::empty());
    proof { reveal_strlit(""); reveal_strlit("."); reveal_strlit(".."); }
    while i < parts.len()
        invariant
            i <= parts@.len(),
            ps == views(parts@),
            normalize(Seq::empty(), ps) == normalize(views(stack@), ps.skip(i as int)),
        decreases parts.len() - i,
    {
        let ghost st = views(stack@);
        let p = parts[i].as_str();
        assert(ps.skip(i as int)[0] == p@);
        assert(ps.skip(i as int).drop_first() =~= ps.skip(i + 1));
        if str_eq(p, "") || str_eq(p, ".") {
        } else if str_eq(p, "..") {
            if stack.len() > 0 {
                stack.pop();
                assert(views(stack@) =~= st.drop_last());
            }
        } else {
            stack.push(owned(p));
            assert(views(stack@) =~= st.push(p@));
        }
        i = i + 1;
    }
    assert(ps.skip(parts@.len() as int) =~= Seq::<Seq<char>>::empty());
    let ghost names = views(stack@);
    if stack.len() >= 2 && str_eq(stack[0].as_str(), "github") && str_eq(stack[1].as_str(), "workspace") {
        let mut r = owned("/");
        let j = join_strings(&stack, "/");
        push_str(&mut r, j.as_str());
        Ok(r)
    } else {
        let mut m = owned("Invalid working-directory '");
        push_str(&mut m, wd);
        push_str(&mut m, "': must be within workspace");
        Err(m)
    }
}

/// What a container run reported.
pub struct ContainerOutput {
    pub stdout: String,
    pub stderr: String,
    pub exit_code: i32,
}

/// The hint added when a `cargo` command fails, chosen by the words of the
/// script that was run.
pub open spec fn cargo_failure_hint(run: Seq<char>, code: int) -> Seq<char> {
    "\nCargo command failed with exit code "@ + signed_decimal(code) + "\n"@
        + "Common causes for cargo command failures:\n"@
        + (if contains_seq(run, "fmt"@) {
            "- Code formatting issues. Run 'cargo fmt' locally to fix.\n"@
        } else if contains_seq(run, "clippy"@) {
            "- Linter warnings treated as errors. Run 'cargo clippy' locally to see details.\n"@
        } else if contains_seq(run, "test"@) {
            "- Test failures. Run 'cargo test' locally to see which tests failed.\n"@
        } else if contains_seq(run, "build"@) {
            "- Compilation errors. Check the error messages above.\n"@
        } else {
            Seq::empty()
        })
}

/// The status and output of a `run:` step: the command, its non-empty
/// streams, and for a failed `cargo` command a hint; a run that could not
/// start fails with its error.
pub open spec fn run_result(resolved: Seq<char>, run: Seq<char>, outcome: Result<(Seq<char>, Seq<char>, int), Seq<char>>) -> (StepStatus, Seq<char>) {
    match outcome {
        Ok((out, err, code)) => {
            let text = "Command: "@ + resolved + "\n\n"@
                + (if out.len() > 0 { "Standard Output:\n"@ + out + "\n"@ } else { Seq::empty() })
                + (if err.len() > 0 { "Standard Error:\n"@ + err + "\n"@ } else { Seq::empty() });
            if code != 0 {
                (StepStatus::Failure, text + (if has_prefix(trim(resolved), "cargo"@) { cargo_failure_hint(run, code) } else { Seq::empty() }))
            } else {
                (StepStatus::Success, text)
            }
        },
        Err(e) => (StepStatus::Failure, "Error executing command: "@ + e + "\n"@),
    }
}

/// The abstract form of a container outcome.
pub open spec fn outcome_view(o: Result<ContainerOutput, String>) -> Result<(Seq<char>, Seq<char>, int), Seq<char>> {
    match o {
        Ok(c) => Ok((c.stdout@, c.stderr@, c.exit_code as int)),
        Err(e) => Err(e@),
    }
}

/// Writes a signed 32-bit number in decimal.
fn i32_decimal(n: i32) -> (r: String)
    ensures
        r@ == signed_decimal(n as int),
{
    crate::environment::signed_decimal_string(n as i64)
}

fn cargo_hint_exec(run: &str, code: i32) -> (r: String)
    ensures
        r@ == cargo_failure_hint(run@, code as int),
{
    let rv = chars_of(run);
    let mut m = owned("\nCargo command failed with exit code ");
    push_str(&mut m, i32_decimal(code).as_str());
    push_str(&mut m, "\n");
    push_str(&mut m, "Common causes for cargo command failures:\n");
    if contains(&rv, &chars_of("fmt")) {
        push_str(&mut m, "- Code formatting issues. Run 'cargo fmt' locally to fix.\n");
    } else if contains(&rv, &chars_of("clippy")) {
        push_str(&mut m, "- Linter warnings treated as errors. Run 'cargo clippy' locally to see details.\n");
    } else if contains(&rv, &chars_of("test")) {
        push_str(&mut m, "- Test failures. Run 'cargo test' locally to see which tests failed.\n");
    } else if contains(&rv, &chars_of("build")) {
        push_str(&mut m, "- Compilation errors. Check the error messages above.\n");
    } else {
        assert(m@ =~= m@ + Seq::<char>::empty());
    }
    m
}

/// The result of a `run:` step from what its container reported.
pub fn run_step_result(step_name: String, resolved_run: &str, run: &str, outcome: Result<ContainerOutput, String>) -> (r: StepResult)
    ensures
        r.name == step_name,
        r.outcome == r.status,
        r.conclusion == r.status,
        (r.status, r.output@) == run_result(resolved_run@, run@, outcome_view(outcome)),
{
    proof { reveal_strlit(""); }
    match outcome {
        Ok(c) => {
            let mut out = owned("Command: ");
            push_str(&mut out, resolved_run);
            push_str(&mut out, "\n\n");
            let ghost head = out@;
            if !str_eq(c.stdout.as_str(), "") {
                assert(c.stdout@.len() > 0) by { if c.stdout@.len() == 0 { assert(c.stdout@ =~= ""@); } }
                push_str(&mut out, "Standard Output:\n");
                push_str(&mut out, c.stdout.as_str());
                push_str(&mut out, "\n");
            } else {
                assert(c.stdout@ =~= Seq::<char>::empty());
            }
            let ghost mid = out@;
            if !str_eq(c.stderr.as_str(), "") {
                assert(c.stderr@.len() > 0) by { if c.stderr@.len() == 0 { assert(c.stderr@ =~= ""@); } }
                push_str(&mut out, "Standard Error:\n");
                push_str(&mut out, c.stderr.as_str());
                push_str(&mut out, "\n");
            } else {
                assert(c.stderr@ =~= Seq::<char>::empty());
            }
            proof {
                let text = "Command: "@ + resolved_run@ + "\n\n"@
                    + (if c.stdout@.len() > 0 { "Standard Output:\n"@ + c.stdout@ + "\n"@ } else { Seq::empty() })
                    + (if c.stderr@.len() > 0 { "Standard Error:\n"@ + c.stderr@ + "\n"@ } else { Seq::empty() });
                assert(head == "Command: "@ + resolved_run@ + "\n\n"@);
                assert(mid =~= head + (if c.stdout@.len() > 0 { "Standard Output:\n"@ + c.stdout@ + "\n"@ } else { Seq::empty() }));
                assert(out@ =~= text);
            }
            if c.exit_code != 0 {
                let t = trim_str(resolved_run);
                let cargo = chars_of("cargo");
                if crate::text::starts_with(&t, &cargo) {
                    let hint = cargo_hint_exec(run, c.exit_code);
                    push_str(&mut out, hint.as_str());
                } else {
                    assert(out@ =~= out@ + Seq::<char>::empty());
                }
                StepResult::new(step_name, StepStatus::Failure, out)
            } else {
                StepResult::new(step_name, StepStatus::Success, out)
            }
        },
        Err(e) => {
            let mut out = owned("Error executing command: ");
            push_str(&mut out, e.as_str());
            push_str(&mut out, "\n");
            StepResult::new(step_name, StepStatus::Failure, out)
        },
    }
}

/// The command words for an action's `command` input, by the action's kind.
pub open spec fn action_base(uses: Seq<char>, cmd: Seq<char>) -> Seq<Seq<char>> {
    if contains_seq(uses, "cargo"@) || contains_seq(uses, "rust"@) {
        seq!["cargo"@, cmd]
    } else if contains_seq(uses, "node"@) || contains_seq(uses, "npm"@) {
        if cmd == "npm"@ || cmd == "yarn"@ || cmd == "pnpm"@ { seq![cmd] } else { seq!["npm"@, "run"@, cmd] }
    } else if contains_seq(uses, "python"@) || contains_seq(uses, "pip"@) {
        if cmd == "pip"@ { seq!["pip"@] } else { seq!["python"@, "-m"@, cmd] }
    } else {
        seq![cmd]
    }
}

fn action_base_exec(uses: &str, cmd: &str) -> (r: Vec<String>)
    ensures
        views(r@) == action_base(uses@, cmd@),
{
    let uv = chars_of(uses);
    let mut parts: Vec<String> = Vec::new();
    assert(views(parts@) =~= Seq::<Seq<char>>::empty());
    if contains(&uv, &chars_of("cargo")) || contains(&uv, &chars_of("rust")) {
        push_word(&mut parts, "cargo");
        push_word(&mut parts, cmd);
        assert(views(parts@) =~= seq!["cargo"@, cmd@]);
    } else if contains(&uv, &chars_of("node")) || contains(&uv, &chars_of("npm")) {
        if str_eq(cmd, "npm") || str_eq(cmd, "yarn") || str_eq(cmd, "pnpm") {
            push_word(&mut parts, cmd);
            assert(views(parts@) =~= seq![cmd@]);
        } else {
            push_word(&mut parts, "npm");
            push_word(&mut parts, "run");
            push_word(&mut parts, cmd);
            assert(views(parts@) =~= seq!["npm"@, "run"@, cmd@]);
        }
    } else if contains(&uv, &chars_of("python")) || contains(&uv, &chars_of("pip")) {
        if str_eq(cmd, "pip") {
            push_word(&mut parts, "pip");
            assert(views(parts@) =~= seq!["pip"@]);
        } else {
            push_word(&mut parts, "python");
            push_word(&mut parts, "-m");
            push_word(&mut parts, cmd);
            assert(views(parts@) =~= seq!["python"@, "-m"@, cmd@]);
        }
    } else {
        push_word(&mut parts, cmd);
        assert(views(parts@) =~= seq![cmd@]);
    }
    parts
}

/// The command an emulated GitHub action runs: Docker and local actions a
/// placeholder, an action with a `command` input that command (shaped by
/// the action's kind, with its resolved arguments), any other an echo.
pub open spec fn action_command(uses: Seq<char>, is_docker: bool, is_local: bool, command: Option<Seq<char>>, args: Option<Seq<char>>) -> Seq<Seq<char>> {
    if is_docker {
        seq!["sh"@, "-c"@, "echo 'Executing Docker action'"@]
    } else if is_local {
        seq!["sh"@, "-c"@, "echo 'Local action executed'"@]
    } else {
        match command {
            Some(cmd) => {
                let base = action_base(uses, cmd);
                let parts = match args {
                    Some(a) => if a.len() > 0 { base.push(a) } else { base },
                    None => base,
                };
                seq!["sh"@, "-c"@, join(parts, " "@)]
            },
            None => seq!["sh"@, "-c"@, "echo 'Would execute GitHub action: "@ + crate::expression::replace_char(uses, '\'', "'\\''"@) + "'"@],
        }
    }
}

/// Builds the command of an emulated action (see [`action_command`]);
/// `args` is the `args` input after matrix substitution and trimming.
pub fn build_action_command(uses: &str, is_docker: bool, is_local: bool, command: Option<&str>, args: Option<&str>) -> (r: Vec<String>)
    ensures
        views(r@) == action_command(uses@, is_docker, is_local,
            match command { Some(c) => Some(c@), None => None },
            match args { Some(a) => Some(a@), None => None }),
{
    let mut v: Vec<String> = Vec::new();
    assert(views(v@) =~= Seq::<Seq<char>>::empty());
    if is_docker {
        push_word(&mut v, "sh");
        push_word(&mut v, "-c");
        push_word(&mut v, "echo 'Executing Docker action'");
        assert(views(v@) =~= seq!["sh"@, "-c"@, "echo 'Executing Docker action'"@]);
        return v;
    }
    if is_local {
        push_word(&mut v, "sh");
        push_word(&mut v, "-c");
        push_word(&mut v, "echo 'Local action executed'");
        assert(views(v@) =~= seq!["sh"@, "-c"@, "echo 'Local action executed'"@]);
        return v;
    }
    let uv = chars_of(uses);
    match command {
        Some(cmd) => {
            let mut parts = action_base_exec(uses, cmd);
            let ghost base = views(parts@);
            proof { reveal_strlit(""); }
            match args {
                Some(a) => {
                    proof { if a@.len() == 0 { assert(a@ =~= ""@); } }
                    if !str_eq(a, "") {
                        push_word(&mut parts, a);
                    }
                    assert(views(parts@) == (if a@.len() > 0 { base.push(a@) } else { base }));
                },
                None => {},
            }
            let line = join_strings(&parts, " ");
            push_word(&mut v, "sh");
            push_word(&mut v, "-c");
            push_word(&mut v, line.as_str());
            assert(views(v@) =~= seq!["sh"@, "-c"@, line@]);
            v
        },
        None => {
            let escaped = crate::expression::replace_char_exec(uses, '\'', "'\\''");
            let mut echo = owned("echo 'Would execute GitHub action: ");
            push_str(&mut echo, escaped.as_str());
            push_str(&mut echo, "'");
            push_word(&mut v, "sh");
            push_word(&mut v, "-c");
            push_word(&mut v, echo.as_str());
            assert(views(v@) =~= seq!["sh"@, "-c"@, echo@]);
            v
        },
    }
}

/// The `cargo` command that `actions-rs/cargo` runs: `cargo` and the
/// `command` input, then the resolved arguments unless they are empty or
/// only `--target`.
pub fn cargo_action_command(command: &str, args: Option<&str>) -> (r: String)
    ensures
        r@ == "cargo "@ + command@ + (match args {
            Some(a) => if a@.len() > 0 && a@ != "--target"@ { " "@ + a@ } else { Seq::empty() },
            None => Seq::empty(),
        }),
{
    proof { reveal_strlit(""); }
    let mut r = owned("cargo ");
    push_str(&mut r, command);
    match args {
        Some(a) => {
            proof { if a@.len() == 0 { assert(a@ =~= ""@); } }
            if !str_eq(a, "") && !str_eq(a, "--target") {
                push_str(&mut r, " ");
                push_str(&mut r, a);
            } else {
                assert(r@ =~= r@ + Seq::<char>::empty());
            }
        },
        None => {
            assert(r@ =~= r@ + Seq::<char>::empty());
        },
    }
    r
}

/// The variable an action input is passed in: `INPUT_` and the input's
/// name in uppercase.
pub fn input_env_key(key: &str) -> (r: String)
    ensures
        r@ == "INPUT_"@ + crate::expression::upper_of(key@),
{
    let mut r = owned("INPUT_");
    let up = crate::expression::to_upper(key);
    push_str(&mut r, up.as_str());
    r
}

/// How a step ended, after its guards.
pub enum StepOutcome {
    /// The step ran (or failed to run); `abort_job` stops the job.
    Completed { result: StepResult, abort_job: bool },
    /// The step's condition was false.
    Skipped(StepResult),
}

/// The outcome of a step whose condition was false.
pub fn skipped_outcome(step_name: String, condition: &str) -> (r: StepOutcome)
    ensures
        r matches StepOutcome::Skipped(res) && res.name == step_name && res.status == StepStatus::Skipped
            && res.outcome == StepStatus::Skipped && res.conclusion == StepStatus::Skipped
            && res.output@ == "Skipped due to condition: "@ + condition@,
{
    let mut m = owned("Skipped due to condition: ");
    push_str(&mut m, condition);
    StepOutcome::Skipped(StepResult::new(step_name, StepStatus::Skipped, m))
}

/// Applies `continue-on-error` to what a step returned: the outcome keeps
/// the raw status, the conclusion is a success when a failure is allowed to
/// continue, and the job stops only on a failure that is not; a step that
/// could not run is a failure with the error as its output.
pub fn guarded_outcome(run: Result<StepResult, crate::engine::ExecutionError>, step_name: String, continue_on_error: Option<bool>) -> (r: StepOutcome)
    ensures
        match r {
            StepOutcome::Completed { result, abort_job } => {
                let keep_going = continue_on_error == Some(true);
                match run {
                    Ok(res) => {
                        &&& result.name == res.name && result.status == res.status && result.output == res.output
                        &&& result.outcome == res.status
                        &&& result.conclusion == (if res.status == StepStatus::Failure && keep_going { StepStatus::Success } else { res.status })
                        &&& abort_job == (res.status == StepStatus::Failure && !keep_going)
                    },
                    Err(e) => {
                        &&& result.name == step_name && result.status == StepStatus::Failure
                        &&& result.output@ == "Error: "@ + crate::engine::error_text(e)
                        &&& result.outcome == StepStatus::Failure
                        &&& result.conclusion == (if keep_going { StepStatus::Success } else { StepStatus::Failure })
                        &&& abort_job == !keep_going
                    },
                }
            },
            StepOutcome::Skipped(_) => false,
        },
{
    let keep_going = match continue_on_error { Some(b) => b, None => false };
    match run {
        Ok(mut result) => {
            let (abort_job, conclusion) = if result.status == StepStatus::Failure {
                if keep_going { (false, StepStatus::Success) } else { (true, StepStatus::Failure) }
            } else {
                (false, result.status)
            };
            result.outcome = result.status;
            result.conclusion = conclusion;
            StepOutcome::Completed { result, abort_job }
        },
        Err(e) => {
            let (abort_job, conclusion) = if keep_going { (false, StepStatus::Success) } else { (true, StepStatus::Failure) };
            let mut output = owned("Error: ");
            push_str(&mut output, e.message().as_str());
            StepOutcome::Completed {
                result: StepResult { name: step_name, status: StepStatus::Failure, output, outcome: StepStatus::Failure, conclusion },
                abort_job,
            }
        },
    }
}

impl crate::steps::StepLoopState {
    /// Takes in one step outcome: a skipped step is recorded without a log
    /// entry, a completed one with its log entry and the outputs that its
    /// `::set-output` commands set. The result says whether the job stops
    /// here. The environment files a step wrote are read by the caller,
    /// which hands their texts to
    /// [`crate::workflow_commands::apply_step_environment_updates`].
    pub fn process_outcome(&mut self, outcome: StepOutcome, step_id: Option<&str>, verbose: bool) -> (abort: bool)
        ensures
            match outcome {
                StepOutcome::Skipped(result) => {
                    &&& !abort
                    &&& final(self).step_results@ == old(self).step_results@.push(result)
                    &&& final(self).job_logs == old(self).job_logs
                    &&& final(self).job_status_str@ == (if result.conclusion == StepStatus::Failure { "failure"@ } else { old(self).job_status_str@ })
                    &&& crate::steps::status_recorded(old(self).step_status_map@, final(self).step_status_map@, step_id, result)
                    &&& final(self).step_outputs_map@ == old(self).step_outputs_map@
                },
                StepOutcome::Completed { result, abort_job } => {
                    &&& abort == abort_job
                    &&& final(self).step_results@ == old(self).step_results@.push(result)
                    &&& final(self).job_logs@ == old(self).job_logs@ + crate::steps::step_log_entry(result.name@, result.output@, result.status, verbose)
                    &&& final(self).job_status_str@ == (if result.conclusion == StepStatus::Failure { "failure"@ } else { old(self).job_status_str@ })
                    &&& crate::steps::status_recorded(old(self).step_status_map@, final(self).step_status_map@, step_id, result)
                    &&& crate::engine::nested_view(final(self).step_outputs_map@) == (match step_id {
                        Some(id) => crate::workflow_commands::outputs_with(crate::engine::nested_view(old(self).step_outputs_map@), id@,
                            crate::workflow_commands::set_outputs(crate::workflow_commands::text_lines(result.output@))),
                        None => crate::engine::nested_view(old(self).step_outputs_map@),
                    })
                },
            },
    {
        match outcome {
            StepOutcome::Skipped(result) => {
                self.record_skipped(step_id, result);
                false
            },
            StepOutcome::Completed { result, abort_job } => {
                crate::workflow_commands::process_workflow_commands(result.output.as_str(), step_id, &mut self.step_outputs_map);
                self.record_completed(step_id, result, verbose);
                abort_job
            },
        }
    }
}

} // verus!
