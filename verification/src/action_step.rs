//! What the steps that use an action report: the emulated checkout, the
//! Docker actions, the actions run from a generic image, and the Rust
//! actions that run on the host.
use vstd::prelude::*;
use crate::engine::{debug_quoted, debug_text, shell_words, shlex_split};
use crate::environment::{signed_decimal, signed_decimal_string};
use crate::reusable::{add_prefixed, entry_pairs, prefixed, str_pairs};
use crate::step_exec::ContainerOutput;
use crate::steps::{StepResult, StepStatus};
use crate::strmap::{StrMap, str_view};
use crate::text::{chars_of, contains, contains_seq, decimal, decimal_chars, has_prefix, join, join_strings, owned, push_all, push_str, str_eq, str_starts_with, trim, trim_str, views};

verus! {

/// The report of the emulated `actions/checkout`; in verbose mode it names
/// the destination and, when the source could be listed, how many
/// top-level items it held.
pub open spec fn checkout_text(verbose: bool, destination: Seq<char>, items: Option<nat>) -> Seq<char> {
    if verbose {
        "Emulated checkout: Copied current directory to workspace\n\n"@ + "Checkout Details:\n"@
            + "  - Source: Local directory\n"@ + "  - Destination: "@ + destination + "\n"@
            + (match items { Some(n) => "\nCopied "@ + decimal(n) + " top-level items to workspace\n"@, None => Seq::empty() })
    } else {
        "Emulated checkout: Copied current directory to workspace"@
    }
}

/// The result of the emulated checkout (see [`checkout_text`]).
pub fn checkout_result(step_name: String, verbose: bool, destination: &str, top_level_items: Option<u64>) -> (r: StepResult)
    ensures
        r.name == step_name,
        r.status == StepStatus::Success,
        r.outcome == r.status && r.conclusion == r.status,
        r.output@ == checkout_text(verbose, destination@, match top_level_items { Some(n) => Some(n as nat), None => None }),
{
    let mut out = owned("Emulated checkout: Copied current directory to workspace");
    if verbose {
        push_str(&mut out, "\n\n");
        push_str(&mut out, "Checkout Details:\n");
        push_str(&mut out, "  - Source: Local directory\n");
        push_str(&mut out, "  - Destination: ");
        push_str(&mut out, destination);
        push_str(&mut out, "\n");
        match top_level_items {
            Some(n) => {
                push_str(&mut out, "\nCopied ");
                push_all(&mut out, &decimal_chars(n));
                push_str(&mut out, " top-level items to workspace\n");
            },
            None => {},
        }
        proof {
            reveal_strlit("Emulated checkout: Copied current directory to workspace");
            reveal_strlit("Emulated checkout: Copied current directory to workspace\n\n");
            reveal_strlit("\n\n");
        }
        let ghost items: Option<nat> = match top_level_items { Some(n) => Some(n as nat), None => None };
        assert(out@ =~= checkout_text(verbose, destination@, items));
    }
    StepResult::new(step_name, StepStatus::Success, out)
}

/// Sets `INPUT_<NAME>` for each of the step's `with:` entries, in order.
pub fn add_step_inputs(step_env: &mut StrMap<String>, with: Option<&StrMap<String>>)
    ensures
        str_view(final(step_env)@) == prefixed(str_view(old(step_env)@), "INPUT_"@, match with { Some(w) => entry_pairs(*w), None => Seq::empty() }),
{
    match with {
        Some(w) => {
            let p = str_pairs(w);
            add_prefixed(step_env, "INPUT_", &p);
        },
        None => {},
    }
}

/// How a Docker action's container is started for a step.
pub struct DockerStepCall {
    pub entrypoint: Option<String>,
    pub args: Vec<String>,
}

/// The value of `key` in an optional string map.
pub open spec fn with_value(with: Option<Map<Seq<char>, String>>, key: Seq<char>) -> Option<Seq<char>> {
    match with {
        Some(w) => if w.dom().contains(key) { Some(w[key]@) } else { None },
        None => None,
    }
}

fn lookup(with: Option<&StrMap<String>>, key: &str) -> (r: Option<String>)
    ensures
        match r { Some(v) => with_value(match with { Some(w) => Some(w@), None => None }, key@) == Some(v@), None => with_value(match with { Some(w) => Some(w@), None => None }, key@) is None },
{
    match with {
        Some(w) => match w.get(key) {
            Some(v) => Some(owned(v.as_str())),
            None => None,
        },
        None => None,
    }
}

/// The arguments that a step's `with.args` gives a Docker action, from how
/// the text split into shell words; `quoted` is the text as `{:?}` writes
/// it, which the error for unbalanced quoting shows.
pub fn with_args_words(uses: &str, split: Option<Vec<String>>, quoted: &str) -> (r: Result<Vec<String>, String>)
    ensures
        match split {
            Some(w) => r matches Ok(a) && a == w,
            None => r matches Err(m)
                && m@ == "Failed to parse 'with.args' for action '"@ + uses@ + "': unmatched quote in "@ + quoted@,
        },
{
    match split {
        Some(w) => Ok(w),
        None => {
            let mut m = owned("Failed to parse 'with.args' for action '");
            push_str(&mut m, uses);
            push_str(&mut m, "': unmatched quote in ");
            push_str(&mut m, quoted);
            Err(m)
        },
    }
}

/// Applies a step's `with:` to a Docker action: every entry becomes an
/// `INPUT_` variable; `with.entrypoint` replaces the action's entrypoint;
/// `with.args`, when present (even empty), is split as shell words and
/// replaces the action's arguments, and unbalanced quoting there is an error.
pub fn docker_step_call(step_env: &mut StrMap<String>, with: Option<&StrMap<String>>, uses: &str, entrypoint: Option<String>, args: Vec<String>) -> (r: Result<DockerStepCall, String>)
    ensures
        str_view(final(step_env)@) == prefixed(str_view(old(step_env)@), "INPUT_"@, match with { Some(w) => entry_pairs(*w), None => Seq::empty() }),
        ({
            let wv = match with { Some(w) => Some(w@), None => None };
            let ep = match with_value(wv, "entrypoint"@) {
                Some(e) => Some(e),
                None => match entrypoint { Some(e) => Some(e@), None => None },
            };
            match with_value(wv, "args"@) {
                None => r matches Ok(c) && views(c.args@) == views(args@)
                    && (match c.entrypoint { Some(e) => Some(e@), None => None }) == ep,
                Some(a) => match shell_words(a) {
                    Some(words) => r matches Ok(c) && views(c.args@) == words
                        && (match c.entrypoint { Some(e) => Some(e@), None => None }) == ep,
                    None => r matches Err(m)
                        && m@ == "Failed to parse 'with.args' for action '"@ + uses@ + "': unmatched quote in "@ + debug_text(a),
                },
            }
        }),
{
    add_step_inputs(step_env, with);
    let ep = match lookup(with, "entrypoint") {
        Some(e) => Some(e),
        None => entrypoint,
    };
    match lookup(with, "args") {
        None => Ok(DockerStepCall { entrypoint: ep, args }),
        Some(a) => {
            let split = shlex_split(a.as_str());
            let quoted = debug_quoted(a.as_str());
            match with_args_words(uses, split, quoted.as_str()) {
                Ok(words) => Ok(DockerStepCall { entrypoint: ep, args: words }),
                Err(m) => Err(m),
            }
        },
    }
}

/// `Exit code: <code>`, then the standard output and error, each on its
/// own line.
pub open spec fn exit_code_text(code: int, stdout: Seq<char>, stderr: Seq<char>) -> Seq<char> {
    "Exit code: "@ + signed_decimal(code) + "\n"@ + stdout + "\n"@ + stderr
}

fn push_exit_code_text(out: &mut String, output: &ContainerOutput)
    ensures
        final(out)@ == old(out)@ + exit_code_text(output.exit_code as int, output.stdout@, output.stderr@),
{
    push_str(out, "Exit code: ");
    let code = signed_decimal_string(output.exit_code as i64);
    push_str(out, code.as_str());
    push_str(out, "\n");
    push_str(out, output.stdout.as_str());
    push_str(out, "\n");
    push_str(out, output.stderr.as_str());
}

/// The result of a container run: success exactly when it exited with 0,
/// reported by [`exit_code_text`].
pub fn container_step_result(step_name: String, output: &ContainerOutput) -> (r: StepResult)
    ensures
        r.name == step_name,
        r.status == (if output.exit_code == 0 { StepStatus::Success } else { StepStatus::Failure }),
        r.outcome == r.status && r.conclusion == r.status,
        r.output@ == exit_code_text(output.exit_code as int, output.stdout@, output.stderr@),
{
    let mut out = String::new();
    push_exit_code_text(&mut out, output);
    let status = if output.exit_code == 0 { StepStatus::Success } else { StepStatus::Failure };
    StepResult::new(step_name, status, out)
}

/// The variables listed when a Rust action fails: `GITHUB_*` and `RUST*`
/// with their values, `INPUT_*` with the value hidden.
pub open spec fn env_listing(pairs: Seq<(Seq<char>, Seq<char>)>) -> Seq<char>
    decreases pairs.len(),
{
    if pairs.len() == 0 {
        Seq::empty()
    } else {
        let (k, v) = pairs.last();
        env_listing(pairs.drop_last()) + (if has_prefix(k, "GITHUB_"@) || has_prefix(k, "RUST"@) {
            "  "@ + k + ": "@ + v + "\n"@
        } else if has_prefix(k, "INPUT_"@) {
            "  "@ + k + ": ***\n"@
        } else {
            Seq::empty()
        })
    }
}

/// The details added when a Rust action's container fails.
pub open spec fn rust_failure_details(cmd: Seq<Seq<char>>, env: Seq<(Seq<char>, Seq<char>)>, code: int, stdout: Seq<char>, stderr: Seq<char>) -> Seq<char> {
    "\n\n"@ + seq!['\u{2716}'] + " Command failed with exit code: "@ + signed_decimal(code) + "\n"@
        + "Command: "@ + join(cmd, " "@) + "\n"@
        + "\nEnvironment:\n"@ + env_listing(env)
        + "\nDetailed output:\n"@ + stdout + stderr
}

/// What an action run from a generic image reports: a failed Rust or
/// cargo action gets its output followed by [`rust_failure_details`];
/// anything else is reported by [`exit_code_text`].
pub open spec fn image_action_report(uses: Seq<char>, cmd: Seq<Seq<char>>, env: Seq<(Seq<char>, Seq<char>)>, code: int, stdout: Seq<char>, stderr: Seq<char>) -> (StepStatus, Seq<char>) {
    if code != 0 && (contains_seq(uses, "cargo"@) || contains_seq(uses, "rust"@)) {
        (StepStatus::Failure, stdout + "\n"@ + stderr + "\n"@ + rust_failure_details(cmd, env, code, stdout, stderr))
    } else {
        (if code == 0 { StepStatus::Success } else { StepStatus::Failure }, exit_code_text(code, stdout, stderr))
    }
}

fn push_env_listing(out: &mut String, env: &StrMap<String>)
    ensures
        final(out)@ == old(out)@ + env_listing(entry_pairs(*env)),
{
    let pairs = str_pairs(env);
    let ghost ps = entry_pairs(*env);
    let ghost start = out@;
    let mut i: usize = 0;
    while i < pairs.len()
        invariant
            i <= pairs@.len(),
            crate::paths::pair_views(pairs@) == ps,
            out@ == start + env_listing(ps.take(i as int)),
        decreases pairs.len() - i,
    {
        let (k, v) = &pairs[i];
        assert(ps.take(i + 1).drop_last() =~= ps.take(i as int));
        assert(ps.take(i + 1).last() == (k@, v@));
        let ghost before = out@;
        if str_starts_with(k.as_str(), "GITHUB_") || str_starts_with(k.as_str(), "RUST") {
            push_str(out, "  ");
            push_str(out, k.as_str());
            push_str(out, ": ");
            push_str(out, v.as_str());
            push_str(out, "\n");
            assert(out@ =~= before + ("  "@ + k@ + ": "@ + v@ + "\n"@));
        } else if str_starts_with(k.as_str(), "INPUT_") {
            push_str(out, "  ");
            push_str(out, k.as_str());
            push_str(out, ": ***\n");
            assert(out@ =~= before + ("  "@ + k@ + ": ***\n"@));
        } else {
            assert(out@ =~= before + Seq::<char>::empty());
        }
        i = i + 1;
    }
    assert(ps.take(ps.len() as int) =~= ps);
}

/// The result of an action run from a generic image (see
/// [`image_action_report`]).
pub fn image_action_result(step_name: String, uses: &str, cmd: &Vec<String>, step_env: &StrMap<String>, output: &ContainerOutput) -> (r: StepResult)
    ensures
        r.name == step_name,
        r.outcome == r.status && r.conclusion == r.status,
        (r.status, r.output@) == image_action_report(uses@, views(cmd@), entry_pairs(*step_env),
            output.exit_code as int, output.stdout@, output.stderr@),
{
    let u = chars_of(uses);
    let rusty = contains(&u, &chars_of("cargo")) || contains(&u, &chars_of("rust"));
    if output.exit_code != 0 && rusty {
        let mut out = owned(output.stdout.as_str());
        push_str(&mut out, "\n");
        push_str(&mut out, output.stderr.as_str());
        push_str(&mut out, "\n");
        let ghost head = out@;
        push_str(&mut out, "\n\n");
        push_str(&mut out, "\u{2716}");
        push_str(&mut out, " Command failed with exit code: ");
        let code = signed_decimal_string(output.exit_code as i64);
        push_str(&mut out, code.as_str());
        push_str(&mut out, "\n");
        push_str(&mut out, "Command: ");
        let joined = join_strings(cmd, " ");
        push_str(&mut out, joined.as_str());
        push_str(&mut out, "\n");
        push_str(&mut out, "\nEnvironment:\n");
        let ghost before_env = out@;
        push_env_listing(&mut out, step_env);
        push_str(&mut out, "\nDetailed output:\n");
        push_str(&mut out, output.stdout.as_str());
        push_str(&mut out, output.stderr.as_str());
        proof { reveal_strlit("\u{2716}"); }
        assert(out@ =~= head + rust_failure_details(views(cmd@), entry_pairs(*step_env), output.exit_code as int, output.stdout@, output.stderr@));
        StepResult::new(step_name, StepStatus::Failure, out)
    } else {
        container_step_result(step_name, output)
    }
}

/// The result of a command run on the host: its output and error on two
/// lines, success exactly when it exited with 0; a command that could not
/// be started fails with the reason.
pub fn host_command_result(step_name: String, outcome: Result<ContainerOutput, String>) -> (r: StepResult)
    ensures
        r.name == step_name,
        r.outcome == r.status && r.conclusion == r.status,
        match outcome {
            Ok(o) => r.status == (if o.exit_code == 0 { StepStatus::Success } else { StepStatus::Failure })
                && r.output@ == o.stdout@ + "\n"@ + o.stderr@,
            Err(e) => r.status == StepStatus::Failure && r.output@ == "Failed to execute command: "@ + e@,
        },
{
    match outcome {
        Ok(o) => {
            let mut out = owned(o.stdout.as_str());
            push_str(&mut out, "\n");
            push_str(&mut out, o.stderr.as_str());
            let status = if o.exit_code == 0 { StepStatus::Success } else { StepStatus::Failure };
            StepResult::new(step_name, status, out)
        },
        Err(e) => {
            let mut out = owned("Failed to execute command: ");
            push_str(&mut out, e.as_str());
            StepResult::new(step_name, StepStatus::Failure, out)
        },
    }
}

/// The result of a Rust toolchain action, which uses the Rust installed
/// on the host: `rustc --version`, trimmed.
pub fn system_rust_result(step_name: String, version_output: &str) -> (r: StepResult)
    ensures
        r.name == step_name,
        r.status == StepStatus::Success,
        r.outcome == r.status && r.conclusion == r.status,
        r.output@ == "Using system Rust: "@ + trim(version_output@),
{
    let mut out = owned("Using system Rust: ");
    let t = trim_str(version_output);
    push_all(&mut out, &t);
    StepResult::new(step_name, StepStatus::Success, out)
}

/// Whether the job asks for GitHub action messages to be hidden
/// (`WRKFLW_HIDE_ACTION_MESSAGES` is `true`).
pub fn hides_action_messages(job_env: &StrMap<String>) -> (r: bool)
    ensures
        r == (job_env@.dom().contains("WRKFLW_HIDE_ACTION_MESSAGES"@) && job_env@["WRKFLW_HIDE_ACTION_MESSAGES"@]@ == "true"@),
{
    match job_env.get("WRKFLW_HIDE_ACTION_MESSAGES") {
        Some(v) => str_eq(v.as_str(), "true"),
        None => false,
    }
}

} // verus!
