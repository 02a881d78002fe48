//! The `GITHUB_*` and `RUNNER_*` variables of a run, computed from values
//! that the caller reads from git, the clock and the process environment.
use vstd::prelude::*;
use crate::strmap::{StrMap, str_view, insert_str};
use crate::text::{chars_of, has_prefix, owned, push_all, push_str, str_eq, str_starts_with, string_of, strip_prefix, trim, trim_str, field, field_exec, field_seq, field_seq_exec, count_char, count_char_exec, strip_all_suffix, strip_all_suffix_exec, decimal};
use crate::workflow::WorkflowDefinition;

verus! {

/// The short name of a ref: without `refs/heads/`, `refs/tags/` or
/// `refs/pull/`, whichever it starts with first in that order.
pub open spec fn ref_name(r: Seq<char>) -> Seq<char> {
    if has_prefix(r, "refs/heads/"@) {
        r.skip(11)
    } else if has_prefix(r, "refs/tags/"@) {
        r.skip(10)
    } else if has_prefix(r, "refs/pull/"@) {
        r.skip(10)
    } else {
        r
    }
}

/// `GITHUB_REF_NAME` for a full ref.
pub fn get_ref_name(full_ref: &str) -> (r: String)
    ensures
        r@ == ref_name(full_ref@),
{
    let v = chars_of(full_ref);
    let heads = chars_of("refs/heads/");
    let tags = chars_of("refs/tags/");
    let pull = chars_of("refs/pull/");
    proof {
        reveal_strlit("refs/heads/");
        reveal_strlit("refs/tags/");
        reveal_strlit("refs/pull/");
    }
    if let Some(name) = strip_prefix(&v, &heads) {
        string_of(&name)
    } else if let Some(name) = strip_prefix(&v, &tags) {
        string_of(&name)
    } else if let Some(name) = strip_prefix(&v, &pull) {
        string_of(&name)
    } else {
        owned(full_ref)
    }
}

/// `GITHUB_REF_TYPE` for a full ref: `tag` for `refs/tags/...`, else `branch`.
pub fn get_ref_type(full_ref: &str) -> (r: String)
    ensures
        r@ == (if has_prefix(full_ref@, "refs/tags/"@) { "tag"@ } else { "branch"@ }),
{
    if str_starts_with(full_ref, "refs/tags/") {
        owned("tag")
    } else {
        owned("branch")
    }
}

/// The owner part of `owner/repo`: everything before the first `/`.
pub fn get_repository_owner(repo: &str) -> (r: String)
    ensures
        Some(r@) == field(repo@, '/', 0),
{
    let v = chars_of(repo);
    match field_exec(&v, '/', 0) {
        Some(f) => string_of(&f),
        None => {
            proof {
                match crate::text::find_char(v@, '/', 0) {
                    Some(k) => {},
                    None => {},
                }
            }
            String::new()
        },
    }
}

/// `owner/repo` from a git remote URL: the part after the only `:` of a
/// `git@` URL, or the second and third `/`-fields after `://` of an `http`
/// URL, in both cases without trailing `.git`.
pub open spec fn repo_from_url(url: Seq<char>) -> Option<Seq<char>> {
    let u = trim(url);
    if has_prefix(u, "git@"@) && count_char(u, ':') == 1 {
        match field(u, ':', 1) {
            Some(rest) => Some(strip_all_suffix(rest, ".git"@)),
            None => None,
        }
    } else if has_prefix(u, "http"@) {
        match field_seq(u, "://"@, 1) {
            None => None,
            Some(w) => match (field(w, '/', 1), field(w, '/', 2)) {
                (Some(owner), Some(repo)) => Some(owner + "/"@ + strip_all_suffix(repo, ".git"@)),
                _ => None,
            },
        }
    } else {
        None
    }
}

/// Reads `owner/repo` from a git remote URL (see [`repo_from_url`]).
pub fn extract_repo_from_url(url: &str) -> (r: Option<String>)
    ensures
        match r {
            Some(v) => repo_from_url(url@) == Some(v@),
            None => repo_from_url(url@) is None,
        },
{
    let u = trim_str(url);
    let dot_git = chars_of(".git");
    proof {
        reveal_strlit(".git");
    }
    let us = string_of(&u);
    if str_starts_with(us.as_str(), "git@") && count_char_exec(&u, ':') == 1 {
        match field_exec(&u, ':', 1) {
            Some(rest) => {
                let repo = strip_all_suffix_exec(&rest, &dot_git);
                return Some(string_of(&repo));
            },
            None => return None,
        }
    }
    if str_starts_with(us.as_str(), "http") {
        let sep = chars_of("://");
        match field_seq_exec(&u, &sep, 1) {
            None => None,
            Some(w) => match (field_exec(&w, '/', 1), field_exec(&w, '/', 2)) {
                (Some(owner), Some(repo)) => {
                    let mut r = string_of(&owner);
                    push_str(&mut r, "/");
                    let trimmed = strip_all_suffix_exec(&repo, &dot_git);
                    push_all(&mut r, &trimmed);
                    Some(r)
                },
                _ => None,
            },
        }
    } else {
        None
    }
}

/// Sets `GITHUB_JOB` to the job's name.
pub fn add_job_context(env: &mut StrMap<String>, job_name: &str)
    ensures
        final(env)@ == old(env)@.insert("GITHUB_JOB"@, final(env)@["GITHUB_JOB"@]),
        final(env)@["GITHUB_JOB"@]@ == job_name@,
{
    let v = owned(job_name);
    let ghost vv = v;
    env.insert(owned("GITHUB_JOB"), v);
    assert(env@["GITHUB_JOB"@] == vv);
}

/// The variables of a matrix combination: `MATRIX_<KEY>` for each value,
/// in order.
pub open spec fn matrix_env(env: Map<Seq<char>, Seq<char>>, values: Seq<(String, String)>) -> Map<Seq<char>, Seq<char>>
    decreases values.len(),
{
    if values.len() == 0 {
        env
    } else {
        let (k, v) = values.last();
        matrix_env(env, values.drop_last()).insert("MATRIX_"@ + crate::expression::upper_of(k@), v@)
    }
}

/// Adds a matrix combination to an environment: `MATRIX_<KEY>` for each
/// value (given as text), and `MATRIX_CONTEXT` holding the combination as
/// JSON when it could be written.
pub fn add_matrix_context(env: &mut StrMap<String>, values: &Vec<(String, String)>, context_json: Option<&str>)
    ensures
        str_view(final(env)@) == (match context_json {
            Some(j) => matrix_env(str_view(old(env)@), values@).insert("MATRIX_CONTEXT"@, j@),
            None => matrix_env(str_view(old(env)@), values@),
        }),
{
    let ghost e0 = str_view(env@);
    let mut i: usize = 0;
    while i < values.len()
        invariant
            i <= values@.len(),
            str_view(env@) == matrix_env(e0, values@.take(i as int)),
        decreases values.len() - i,
    {
        let (k, v) = &values[i];
        assert(values@.take(i + 1).drop_last() =~= values@.take(i as int));
        assert(values@.take(i + 1).last() == values@[i as int]);
        let mut key = owned("MATRIX_");
        let up = crate::expression::to_upper(k.as_str());
        push_str(&mut key, up.as_str());
        insert_str(env, key.as_str(), owned(v.as_str()));
        i = i + 1;
    }
    assert(values@.take(values@.len() as int) =~= values@);
    match context_json {
        Some(j) => insert_str(env, "MATRIX_CONTEXT", owned(j)),
        None => {},
    }
}

/// `GITHUB_EVENT_NAME`: the first trigger, else `workflow_dispatch`.
pub fn get_event_name(workflow: &WorkflowDefinition) -> (r: String)
    ensures
        r@ == (if workflow.on@.len() > 0 { workflow.on@[0]@ } else { "workflow_dispatch"@ }),
{
    if workflow.on.len() > 0 {
        workflow.on[0].clone()
    } else {
        owned("workflow_dispatch")
    }
}

/// `GITHUB_REPOSITORY`: read from the origin URL when git gave one and it
/// parses, else `wrkflw/` and the working directory's name.
pub fn repo_name_from(origin_url: Option<&str>, dir_name: &str) -> (r: String)
    ensures
        r@ == (match origin_url {
            Some(u) => match repo_from_url(u@) {
                Some(rp) => rp,
                None => "wrkflw/"@ + dir_name@,
            },
            None => "wrkflw/"@ + dir_name@,
        }),
{
    if let Some(u) = origin_url {
        if let Some(repo) = extract_repo_from_url(u) {
            return repo;
        }
    }
    let mut r = owned("wrkflw/");
    push_str(&mut r, dir_name);
    r
}

/// `GITHUB_SHA`: git's trimmed answer, else forty zeros.
pub fn sha_from(git_output: Option<&str>) -> (r: String)
    ensures
        r@ == (match git_output {
            Some(o) => trim(o@),
            None => "0000000000000000000000000000000000000000"@,
        }),
{
    match git_output {
        Some(o) => string_of(&trim_str(o)),
        None => owned("0000000000000000000000000000000000000000"),
    }
}

/// `GITHUB_REF`: `refs/heads/` and git's trimmed branch name, else
/// `refs/heads/main`.
pub fn ref_from(git_branch: Option<&str>) -> (r: String)
    ensures
        r@ == (match git_branch {
            Some(b) => "refs/heads/"@ + trim(b@),
            None => "refs/heads/main"@,
        }),
{
    match git_branch {
        Some(b) => {
            let mut r = owned("refs/heads/");
            push_all(&mut r, &trim_str(b));
            r
        },
        None => owned("refs/heads/main"),
    }
}

/// `RUNNER_OS` for the operating system's name.
pub fn runner_os_from(os: &str) -> (r: String)
    ensures
        r@ == (if os@ == "macos"@ { "macOS"@ } else if os@ == "linux"@ { "Linux"@ } else if os@ == "windows"@ { "Windows"@ } else { os@ }),
{
    if str_eq(os, "macos") {
        owned("macOS")
    } else if str_eq(os, "linux") {
        owned("Linux")
    } else if str_eq(os, "windows") {
        owned("Windows")
    } else {
        owned(os)
    }
}

/// `RUNNER_ARCH` for the architecture's name.
pub fn runner_arch_from(arch: &str) -> (r: String)
    ensures
        r@ == (if arch@ == "x86_64"@ || arch@ == "x86"@ { "X64"@ } else if arch@ == "aarch64"@ { "ARM64"@ } else { arch@ }),
{
    if str_eq(arch, "x86_64") || str_eq(arch, "x86") {
        owned("X64")
    } else if str_eq(arch, "aarch64") {
        owned("ARM64")
    } else {
        owned(arch)
    }
}

/// `GITHUB_ACTOR`: git's trimmed user name when not empty, else `$USER`,
/// else `$USERNAME` (each when set and not empty), else `wrkflw`.
pub fn actor_from(git_user_name: Option<&str>, user: Option<&str>, username: Option<&str>) -> (r: String)
    ensures
        r@ == (if git_user_name is Some && trim(git_user_name->0@).len() > 0 {
            trim(git_user_name->0@)
        } else if user is Some && user->0@.len() > 0 {
            user->0@
        } else if username is Some && username->0@.len() > 0 {
            username->0@
        } else {
            "wrkflw"@
        }),
{
    proof { reveal_strlit(""); }
    if let Some(g) = git_user_name {
        let t = trim_str(g);
        if t.len() > 0 {
            return string_of(&t);
        }
    }
    if let Some(u) = user {
        proof { if u@.len() == 0 { assert(u@ =~= ""@); } }
        if !str_eq(u, "") {
            return owned(u);
        }
    }
    if let Some(u) = username {
        proof { if u@.len() == 0 { assert(u@ =~= ""@); } }
        if !str_eq(u, "") {
            return owned(u);
        }
    }
    owned("wrkflw")
}

/// What the runner learned about this run from git, the clock and the
/// process environment, already reduced to the values it reports.
pub struct RunFacts {
    pub workflow_name: String,
    pub repository: String,
    pub event_name: String,
    pub workspace: String,
    pub sha: String,
    pub git_ref: String,
    pub output_path: String,
    pub env_path: String,
    pub path_path: String,
    pub step_summary_path: String,
    /// Seconds since the epoch when the run started.
    pub run_id: i64,
    pub actor: String,
    pub runner_os: String,
    pub runner_arch: String,
    pub temp_dir: String,
    pub tool_cache_dir: String,
}

/// Decimal text of a signed number, as `{}` writes it.
pub open spec fn signed_decimal(n: int) -> Seq<char> {
    if n < 0 { "-"@ + decimal((-n) as nat) } else { decimal(n as nat) }
}

/// Writes a signed number in decimal.
pub fn signed_decimal_string(n: i64) -> (r: String)
    ensures
        r@ == signed_decimal(n as int),
{
    if n < 0 {
        let m: u64 = if n == i64::MIN { 9223372036854775808u64 } else { (-n) as u64 };
        let mut r = owned("-");
        push_all(&mut r, &crate::text::decimal_chars(m));
        r
    } else {
        string_of(&crate::text::decimal_chars(n as u64))
    }
}

/// The variables a run starts with, in the order they are set.
pub open spec fn github_env(f: RunFacts) -> Map<Seq<char>, Seq<char>> {
    Map::<Seq<char>, Seq<char>>::empty()
        .insert("GITHUB_WORKFLOW"@, f.workflow_name@)
        .insert("GITHUB_ACTION"@, "run"@)
        .insert("GITHUB_REPOSITORY"@, f.repository@)
        .insert("GITHUB_EVENT_NAME"@, f.event_name@)
        .insert("GITHUB_WORKSPACE"@, f.workspace@)
        .insert("GITHUB_SHA"@, f.sha@)
        .insert("GITHUB_REF"@, f.git_ref@)
        .insert("GITHUB_OUTPUT"@, f.output_path@)
        .insert("GITHUB_ENV"@, f.env_path@)
        .insert("GITHUB_PATH"@, f.path_path@)
        .insert("GITHUB_STEP_SUMMARY"@, f.step_summary_path@)
        .insert("GITHUB_RUN_ID"@, signed_decimal(f.run_id as int))
        .insert("GITHUB_RUN_NUMBER"@, "1"@)
        .insert("GITHUB_RUN_ATTEMPT"@, "1"@)
        .insert("GITHUB_ACTIONS"@, "true"@)
        .insert("CI"@, "true"@)
        .insert("GITHUB_SERVER_URL"@, "https://github.com"@)
        .insert("GITHUB_API_URL"@, "https://api.github.com"@)
        .insert("GITHUB_GRAPHQL_URL"@, "https://api.github.com/graphql"@)
        .insert("GITHUB_REF_NAME"@, ref_name(f.git_ref@))
        .insert("GITHUB_REF_TYPE"@, (if has_prefix(f.git_ref@, "refs/tags/"@) { "tag"@ } else { "branch"@ }))
        .insert("GITHUB_HEAD_REF"@, Seq::<char>::empty())
        .insert("GITHUB_BASE_REF"@, Seq::<char>::empty())
        .insert("GITHUB_ACTOR"@, f.actor@)
        .insert("GITHUB_TRIGGERING_ACTOR"@, f.actor@)
        .insert("GITHUB_REPOSITORY_OWNER"@, field(f.repository@, '/', 0)->0)
        .insert("GITHUB_RETENTION_DAYS"@, "90"@)
        .insert("RUNNER_OS"@, f.runner_os@)
        .insert("RUNNER_ARCH"@, f.runner_arch@)
        .insert("RUNNER_NAME"@, "wrkflw-local"@)
        .insert("RUNNER_ENVIRONMENT"@, "local"@)
        .insert("RUNNER_TEMP"@, f.temp_dir@)
        .insert("RUNNER_TOOL_CACHE"@, f.tool_cache_dir@)
}

/// The run's `GITHUB_*` and `RUNNER_*` variables (see [`github_env`]).
pub fn create_github_context(facts: &RunFacts) -> (r: StrMap<String>)
    ensures
        str_view(r@) == github_env(*facts),
{
    let mut env: StrMap<String> = StrMap::new();
    assert(str_view(env@) =~= Map::<Seq<char>, Seq<char>>::empty());
    proof { reveal_strlit(""); }
    insert_str(&mut env, "GITHUB_WORKFLOW", facts.workflow_name.clone());
    insert_str(&mut env, "GITHUB_ACTION", owned("run"));
    insert_str(&mut env, "GITHUB_REPOSITORY", facts.repository.clone());
    insert_str(&mut env, "GITHUB_EVENT_NAME", facts.event_name.clone());
    insert_str(&mut env, "GITHUB_WORKSPACE", facts.workspace.clone());
    insert_str(&mut env, "GITHUB_SHA", facts.sha.clone());
    insert_str(&mut env, "GITHUB_REF", facts.git_ref.clone());
    insert_str(&mut env, "GITHUB_OUTPUT", facts.output_path.clone());
    insert_str(&mut env, "GITHUB_ENV", facts.env_path.clone());
    insert_str(&mut env, "GITHUB_PATH", facts.path_path.clone());
    insert_str(&mut env, "GITHUB_STEP_SUMMARY", facts.step_summary_path.clone());
    insert_str(&mut env, "GITHUB_RUN_ID", signed_decimal_string(facts.run_id));
    insert_str(&mut env, "GITHUB_RUN_NUMBER", owned("1"));
    insert_str(&mut env, "GITHUB_RUN_ATTEMPT", owned("1"));
    insert_str(&mut env, "GITHUB_ACTIONS", owned("true"));
    insert_str(&mut env, "CI", owned("true"));
    insert_str(&mut env, "GITHUB_SERVER_URL", owned("https://github.com"));
    insert_str(&mut env, "GITHUB_API_URL", owned("https://api.github.com"));
    insert_str(&mut env, "GITHUB_GRAPHQL_URL", owned("https://api.github.com/graphql"));
    insert_str(&mut env, "GITHUB_REF_NAME", get_ref_name(facts.git_ref.as_str()));
    insert_str(&mut env, "GITHUB_REF_TYPE", get_ref_type(facts.git_ref.as_str()));
    insert_str(&mut env, "GITHUB_HEAD_REF", String::new());
    insert_str(&mut env, "GITHUB_BASE_REF", String::new());
    insert_str(&mut env, "GITHUB_ACTOR", facts.actor.clone());
    insert_str(&mut env, "GITHUB_TRIGGERING_ACTOR", facts.actor.clone());
    insert_str(&mut env, "GITHUB_REPOSITORY_OWNER", get_repository_owner(facts.repository.as_str()));
    insert_str(&mut env, "GITHUB_RETENTION_DAYS", owned("90"));
    insert_str(&mut env, "RUNNER_OS", facts.runner_os.clone());
    insert_str(&mut env, "RUNNER_ARCH", facts.runner_arch.clone());
    insert_str(&mut env, "RUNNER_NAME", owned("wrkflw-local"));
    insert_str(&mut env, "RUNNER_ENVIRONMENT", owned("local"));
    insert_str(&mut env, "RUNNER_TEMP", facts.temp_dir.clone());
    insert_str(&mut env, "RUNNER_TOOL_CACHE", facts.tool_cache_dir.clone());
    env
}

} // verus!

verus! {

/// `GITHUB_REF_NAME` is `GITHUB_REF` without its `refs/heads/`,
/// `refs/tags/` or `refs/pull/` prefix (the branch, tag or pull request it
/// names), and the whole ref when it has none of them: for `refs/heads/main`
/// it is `main`.
pub proof fn lemma_ref_name_strips_ref_prefix(f: RunFacts, b: Seq<char>)
    ensures
        github_env(f)["GITHUB_REF"@] == f.git_ref@,
        f.git_ref@ == "refs/heads/"@ + b ==> github_env(f)["GITHUB_REF_NAME"@] == b,
        f.git_ref@ == "refs/tags/"@ + b ==> github_env(f)["GITHUB_REF_NAME"@] == b,
        f.git_ref@ == "refs/pull/"@ + b ==> github_env(f)["GITHUB_REF_NAME"@] == b,
        (!has_prefix(f.git_ref@, "refs/heads/"@) && !has_prefix(f.git_ref@, "refs/tags/"@)
            && !has_prefix(f.git_ref@, "refs/pull/"@)) ==> github_env(f)["GITHUB_REF_NAME"@] == f.git_ref@,
{
    reveal_strlit("GITHUB_REF_NAME");
    reveal_strlit("GITHUB_REF");
    reveal_strlit("GITHUB_REF_TYPE"); assert("GITHUB_REF_NAME"@[11] != "GITHUB_REF_TYPE"@[11]); reveal_strlit("GITHUB_HEAD_REF"); assert("GITHUB_REF_NAME"@[7] != "GITHUB_HEAD_REF"@[7]); reveal_strlit("GITHUB_BASE_REF"); assert("GITHUB_REF_NAME"@[7] != "GITHUB_BASE_REF"@[7]); reveal_strlit("GITHUB_ACTOR"); assert("GITHUB_REF_NAME"@.len() != "GITHUB_ACTOR"@.len()); reveal_strlit("GITHUB_TRIGGERING_ACTOR"); assert("GITHUB_REF_NAME"@.len() != "GITHUB_TRIGGERING_ACTOR"@.len()); reveal_strlit("GITHUB_REPOSITORY_OWNER"); assert("GITHUB_REF_NAME"@.len() != "GITHUB_REPOSITORY_OWNER"@.len()); reveal_strlit("GITHUB_RETENTION_DAYS"); assert("GITHUB_REF_NAME"@.len() != "GITHUB_RETENTION_DAYS"@.len()); reveal_strlit("RUNNER_OS"); assert("GITHUB_REF_NAME"@.len() != "RUNNER_OS"@.len()); reveal_strlit("RUNNER_ARCH"); assert("GITHUB_REF_NAME"@.len() != "RUNNER_ARCH"@.len()); reveal_strlit("RUNNER_NAME"); assert("GITHUB_REF_NAME"@.len() != "RUNNER_NAME"@.len()); reveal_strlit("RUNNER_ENVIRONMENT"); assert("GITHUB_REF_NAME"@.len() != "RUNNER_ENVIRONMENT"@.len()); reveal_strlit("RUNNER_TEMP"); assert("GITHUB_REF_NAME"@.len() != "RUNNER_TEMP"@.len()); reveal_strlit("RUNNER_TOOL_CACHE"); assert("GITHUB_REF_NAME"@.len() != "RUNNER_TOOL_CACHE"@.len());
    reveal_strlit("GITHUB_OUTPUT"); assert("GITHUB_REF"@.len() != "GITHUB_OUTPUT"@.len()); reveal_strlit("GITHUB_ENV"); assert("GITHUB_REF"@[7] != "GITHUB_ENV"@[7]); reveal_strlit("GITHUB_PATH"); assert("GITHUB_REF"@.len() != "GITHUB_PATH"@.len()); reveal_strlit("GITHUB_STEP_SUMMARY"); assert("GITHUB_REF"@.len() != "GITHUB_STEP_SUMMARY"@.len()); reveal_strlit("GITHUB_RUN_ID"); assert("GITHUB_REF"@.len() != "GITHUB_RUN_ID"@.len()); reveal_strlit("GITHUB_RUN_NUMBER"); assert("GITHUB_REF"@.len() != "GITHUB_RUN_NUMBER"@.len()); reveal_strlit("GITHUB_RUN_ATTEMPT"); assert("GITHUB_REF"@.len() != "GITHUB_RUN_ATTEMPT"@.len()); reveal_strlit("GITHUB_ACTIONS"); assert("GITHUB_REF"@.len() != "GITHUB_ACTIONS"@.len()); reveal_strlit("CI"); assert("GITHUB_REF"@.len() != "CI"@.len()); reveal_strlit("GITHUB_SERVER_URL"); assert("GITHUB_REF"@.len() != "GITHUB_SERVER_URL"@.len()); reveal_strlit("GITHUB_API_URL"); assert("GITHUB_REF"@.len() != "GITHUB_API_URL"@.len()); reveal_strlit("GITHUB_GRAPHQL_URL"); assert("GITHUB_REF"@.len() != "GITHUB_GRAPHQL_URL"@.len()); reveal_strlit("GITHUB_REF_NAME"); assert("GITHUB_REF"@.len() != "GITHUB_REF_NAME"@.len()); reveal_strlit("GITHUB_REF_TYPE"); assert("GITHUB_REF"@.len() != "GITHUB_REF_TYPE"@.len()); reveal_strlit("GITHUB_HEAD_REF"); assert("GITHUB_REF"@.len() != "GITHUB_HEAD_REF"@.len()); reveal_strlit("GITHUB_BASE_REF"); assert("GITHUB_REF"@.len() != "GITHUB_BASE_REF"@.len()); reveal_strlit("GITHUB_ACTOR"); assert("GITHUB_REF"@.len() != "GITHUB_ACTOR"@.len()); reveal_strlit("GITHUB_TRIGGERING_ACTOR"); assert("GITHUB_REF"@.len() != "GITHUB_TRIGGERING_ACTOR"@.len()); reveal_strlit("GITHUB_REPOSITORY_OWNER"); assert("GITHUB_REF"@.len() != "GITHUB_REPOSITORY_OWNER"@.len()); reveal_strlit("GITHUB_RETENTION_DAYS"); assert("GITHUB_REF"@.len() != "GITHUB_RETENTION_DAYS"@.len()); reveal_strlit("RUNNER_OS"); assert("GITHUB_REF"@.len() != "RUNNER_OS"@.len()); reveal_strlit("RUNNER_ARCH"); assert("GITHUB_REF"@.len() != "RUNNER_ARCH"@.len()); reveal_strlit("RUNNER_NAME"); assert("GITHUB_REF"@.len() != "RUNNER_NAME"@.len()); reveal_strlit("RUNNER_ENVIRONMENT"); assert("GITHUB_REF"@.len() != "RUNNER_ENVIRONMENT"@.len()); reveal_strlit("RUNNER_TEMP"); assert("GITHUB_REF"@.len() != "RUNNER_TEMP"@.len()); reveal_strlit("RUNNER_TOOL_CACHE"); assert("GITHUB_REF"@.len() != "RUNNER_TOOL_CACHE"@.len());
    assert(github_env(f)["GITHUB_REF_NAME"@] == ref_name(f.git_ref@));
    reveal_strlit("refs/heads/");
    reveal_strlit("refs/tags/");
    reveal_strlit("refs/pull/");
    let r = f.git_ref@;
    if r == "refs/heads/"@ + b {
        assert(r.subrange(0, 11) =~= "refs/heads/"@);
        assert(r.skip(11) =~= b);
    }
    if r == "refs/tags/"@ + b {
        assert(r[5] == 't');
        assert(!has_prefix(r, "refs/heads/"@)) by {
            if has_prefix(r, "refs/heads/"@) { assert(r.subrange(0, 11)[5] == r[5]); }
        }
        assert(r.subrange(0, 10) =~= "refs/tags/"@);
        assert(r.skip(10) =~= b);
    }
    if r == "refs/pull/"@ + b {
        assert(r[5] == 'p');
        assert(!has_prefix(r, "refs/heads/"@)) by {
            if has_prefix(r, "refs/heads/"@) { assert(r.subrange(0, 11)[5] == r[5]); }
        }
        assert(!has_prefix(r, "refs/tags/"@)) by {
            if has_prefix(r, "refs/tags/"@) { assert(r.subrange(0, 10)[5] == r[5]); }
        }
        assert(r.subrange(0, 10) =~= "refs/pull/"@);
        assert(r.skip(10) =~= b);
    }
}

} // verus!
