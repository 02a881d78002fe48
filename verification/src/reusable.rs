//! Jobs that call a reusable workflow: where the called workflow is found,
//! the environment its jobs see, and the single result that stands for the
//! whole call.
use vstd::prelude::*;
use crate::engine::{aggregate_reusable_workflow_outputs, aggregates, nested_view, JobResult, WorkflowRun};
use crate::expression::{to_upper, upper_of};
use crate::paths::pair_views;
use crate::steps::{JobStatus, StepResult, StepStatus};
use crate::strmap::{StrMap, str_view, insert_str, copy_str_map};
use crate::text::{chars_of, count_char, count_char_exec, find_char, has_prefix, owned, push_str, slice_range, str_starts_with, string_of};

verus! {

/// Where a job's `uses:` points.
pub enum UsesRef {
    /// A workflow file of this repository (`./…` or `/…`).
    LocalPath(String),
    /// `owner/repo/path@ref` on GitHub.
    Remote { owner: String, repo: String, path: String, git_ref: String },
}

/// A `uses:` that names a file of this repository.
pub open spec fn is_local_uses(u: Seq<char>) -> bool {
    has_prefix(u, "./"@) || has_prefix(u, "/"@)
}

/// The owner, repository, path and ref of `owner/repo/path@ref`: exactly
/// one `@`; before it, the text up to the first `/`, the text up to the
/// next `/`, and the rest, none of them empty. The ref may be empty.
pub open spec fn remote_parts(u: Seq<char>) -> Option<(Seq<char>, Seq<char>, Seq<char>, Seq<char>)> {
    if count_char(u, '@') != 1 {
        None
    } else {
        match find_char(u, '@', 0) {
            None => None,
            Some(a) => {
                let left = u.take(a);
                match find_char(left, '/', 0) {
                    None => None,
                    Some(i1) => match find_char(left, '/', i1 + 1) {
                        None => None,
                        Some(i2) => {
                            let owner = left.take(i1);
                            let repo = left.subrange(i1 + 1, i2);
                            let path = left.skip(i2 + 1);
                            if owner.len() == 0 || repo.len() == 0 || path.len() == 0 {
                                None
                            } else {
                                Some((owner, repo, path, u.skip(a + 1)))
                            }
                        },
                    },
                }
            },
        }
    }
}

/// Position of the first `c` in `s` at or after `from`.
fn find_char_from(s: &Vec<char>, c: char, from: usize) -> (r: Option<usize>)
    ensures
        match r {
            Some(k) => find_char(s@, c, from as int) == Some(k as int),
            None => find_char(s@, c, from as int) is None,
        },
{
    let mut j = from;
    while j < s.len()
        invariant
            from <= j,
            find_char(s@, c, from as int) == find_char(s@, c, j as int),
        decreases s.len() - j,
    {
        if s[j] == c {
            return Some(j);
        }
        j = j + 1;
    }
    None
}

fn invalid_uses(uses: &str) -> (m: String)
    ensures
        m@ == "Invalid reusable workflow reference: "@ + uses@,
{
    let mut m = owned("Invalid reusable workflow reference: ");
    push_str(&mut m, uses);
    m
}

/// Reads a job's `uses:` (see [`is_local_uses`] and [`remote_parts`]).
pub fn parse_uses_ref(uses: &str) -> (r: Result<UsesRef, String>)
    ensures
        is_local_uses(uses@) ==> (r matches Ok(UsesRef::LocalPath(p)) && p@ == uses@),
        !is_local_uses(uses@) ==> match remote_parts(uses@) {
            Some((o, rp, p, g)) => r matches Ok(UsesRef::Remote { owner, repo, path, git_ref })
                && owner@ == o && repo@ == rp && path@ == p && git_ref@ == g,
            None => r matches Err(m) && m@ == "Invalid reusable workflow reference: "@ + uses@,
        },
{
    if str_starts_with(uses, "./") || str_starts_with(uses, "/") {
        return Ok(UsesRef::LocalPath(owned(uses)));
    }
    let u = chars_of(uses);
    if count_char_exec(&u, '@') != 1 {
        return Err(invalid_uses(uses));
    }
    let a = match find_char_from(&u, '@', 0) {
        Some(a) => a,
        None => { return Err(invalid_uses(uses)); },
    };
    proof { crate::text::lemma_find_char(u@, '@', 0); }
    let left = slice_range(&u, 0, a);
    assert(left@ =~= u@.take(a as int));
    let i1 = match find_char_from(&left, '/', 0) {
        Some(i) => i,
        None => { return Err(invalid_uses(uses)); },
    };
    proof { crate::text::lemma_find_char(left@, '/', 0); }
    let i2 = match find_char_from(&left, '/', i1 + 1) {
        Some(i) => i,
        None => { return Err(invalid_uses(uses)); },
    };
    proof { crate::text::lemma_find_char(left@, '/', i1 + 1); }
    let owner = slice_range(&left, 0, i1);
    let repo = slice_range(&left, i1 + 1, i2);
    let path = slice_range(&left, i2 + 1, left.len());
    assert(owner@ =~= left@.take(i1 as int));
    assert(path@ =~= left@.skip(i2 + 1));
    if owner.len() == 0 || repo.len() == 0 || path.len() == 0 {
        return Err(invalid_uses(uses));
    }
    let git_ref = slice_range(&u, a + 1, u.len());
    assert(git_ref@ =~= u@.skip(a + 1));
    Ok(UsesRef::Remote { owner: string_of(&owner), repo: string_of(&repo), path: string_of(&path), git_ref: string_of(&git_ref) })
}

/// The address a called workflow's repository is cloned from.
pub fn remote_repo_url(owner: &str, repo: &str) -> (r: String)
    ensures
        r@ == "https://github.com/"@ + owner@ + "/"@ + repo@ + ".git"@,
{
    let mut r = owned("https://github.com/");
    push_str(&mut r, owner);
    push_str(&mut r, "/");
    push_str(&mut r, repo);
    push_str(&mut r, ".git");
    r
}

/// How a calling job hands secrets to the called workflow.
pub enum SecretsPassing {
    /// `secrets: inherit`: every secret of the caller.
    Inherit,
    /// `secrets:` as a map of names to values, in the order written.
    Explicit(Vec<(String, String)>),
}

/// The entries of a string map, in entry order.
pub open spec fn entry_pairs(m: StrMap<String>) -> Seq<(Seq<char>, Seq<char>)> {
    Seq::new(m.key_seq().len(), |i: int| (m.key_seq()[i], m.val_seq()[i]@))
}

/// The secrets that reach the called workflow.
pub open spec fn passed_secrets(s: Option<SecretsPassing>, parent: Seq<(Seq<char>, Seq<char>)>) -> Seq<(Seq<char>, Seq<char>)> {
    match s {
        Some(SecretsPassing::Inherit) => parent,
        Some(SecretsPassing::Explicit(v)) => pair_views(v@),
        None => Seq::empty(),
    }
}

/// `env` with `<prefix><NAME>` set for each pair in order, `NAME` being the
/// pair's name in upper case.
pub open spec fn prefixed(env: Map<Seq<char>, Seq<char>>, prefix: Seq<char>, pairs: Seq<(Seq<char>, Seq<char>)>) -> Map<Seq<char>, Seq<char>>
    decreases pairs.len(),
{
    if pairs.len() == 0 {
        env
    } else {
        prefixed(env, prefix, pairs.drop_last()).insert(prefix + upper_of(pairs.last().0), pairs.last().1)
    }
}

/// The environment of a called workflow: the caller's, with `INPUT_<NAME>`
/// for each `with:` entry and then `SECRET_<NAME>` for each passed secret.
pub open spec fn called_env(env: Map<Seq<char>, Seq<char>>, with: Seq<(Seq<char>, Seq<char>)>, secrets: Seq<(Seq<char>, Seq<char>)>) -> Map<Seq<char>, Seq<char>> {
    prefixed(prefixed(env, "INPUT_"@, with), "SECRET_"@, secrets)
}

pub(crate) fn str_pairs(m: &StrMap<String>) -> (r: Vec<(String, String)>)
    ensures
        pair_views(r@) == entry_pairs(*m),
{
    proof { use_type_invariant(m); m.lemma_wf(); }
    let n = m.len();
    let mut r: Vec<(String, String)> = Vec::new();
    let mut i: usize = 0;
    while i < n
        invariant
            i <= n,
            n == m.key_seq().len(),
            m.key_seq().len() == m.val_seq().len(),
            pair_views(r@) == entry_pairs(*m).take(i as int),
        decreases n - i,
    {
        let (k, v) = m.entry(i);
        let ghost before = r@;
        r.push((k.clone(), v.clone()));
        assert(pair_views(r@) =~= pair_views(before).push((k@, v@)));
        assert(entry_pairs(*m).take(i + 1) =~= entry_pairs(*m).take(i as int).push((k@, v@)));
        i = i + 1;
    }
    assert(entry_pairs(*m).take(n as int) =~= entry_pairs(*m));
    r
}

pub(crate) fn add_prefixed(env: &mut StrMap<String>, prefix: &str, pairs: &Vec<(String, String)>)
    ensures
        str_view(final(env)@) == prefixed(str_view(old(env)@), prefix@, pair_views(pairs@)),
{
    let ghost e0 = str_view(env@);
    let mut i: usize = 0;
    while i < pairs.len()
        invariant
            i <= pairs@.len(),
            str_view(env@) == prefixed(e0, prefix@, pair_views(pairs@).take(i as int)),
        decreases pairs.len() - i,
    {
        let (k, v) = &pairs[i];
        assert(pair_views(pairs@).take(i + 1).drop_last() =~= pair_views(pairs@).take(i as int));
        assert(pair_views(pairs@).take(i + 1).last() == (k@, v@));
        let mut key = owned(prefix);
        let up = to_upper(k.as_str());
        push_str(&mut key, up.as_str());
        insert_str(env, key.as_str(), v.clone());
        i = i + 1;
    }
    assert(pair_views(pairs@).take(pairs@.len() as int) =~= pair_views(pairs@));
}

/// Builds the environment of a called workflow (see [`called_env`]).
pub fn called_workflow_env(env: &StrMap<String>, with: Option<&StrMap<String>>, secrets: Option<&SecretsPassing>, parent_secrets: &StrMap<String>) -> (r: StrMap<String>)
    ensures
        str_view(r@) == called_env(
            str_view(env@),
            match with { Some(w) => entry_pairs(*w), None => Seq::empty() },
            passed_secrets(match secrets { Some(s) => Some(*s), None => None }, entry_pairs(*parent_secrets)),
        ),
{
    let mut child = copy_str_map(env);
    let with_pairs = match with {
        Some(w) => str_pairs(w),
        None => {
            let e: Vec<(String, String)> = Vec::new();
            assert(pair_views(e@) =~= Seq::<(Seq<char>, Seq<char>)>::empty());
            e
        },
    };
    add_prefixed(&mut child, "INPUT_", &with_pairs);
    match secrets {
        Some(SecretsPassing::Inherit) => {
            let p = str_pairs(parent_secrets);
            add_prefixed(&mut child, "SECRET_", &p);
        },
        Some(SecretsPassing::Explicit(v)) => {
            add_prefixed(&mut child, "SECRET_", v);
        },
        None => {
            let e: Vec<(String, String)> = Vec::new();
            assert(pair_views(e@) =~= Seq::<(Seq<char>, Seq<char>)>::empty());
            add_prefixed(&mut child, "SECRET_", &e);
        },
    }
    child
}

/// A job status as it is printed in a called workflow's summary.
pub open spec fn status_debug(s: JobStatus) -> Seq<char> {
    match s {
        JobStatus::Success => "Success"@,
        JobStatus::Failure => "Failure"@,
        JobStatus::Skipped => "Skipped"@,
    }
}

/// One `- <name>: <status>` line per job of the called workflow.
pub open spec fn called_lines(jobs: Seq<JobResult>) -> Seq<char>
    decreases jobs.len(),
{
    if jobs.len() == 0 {
        Seq::empty()
    } else {
        called_lines(jobs.drop_last()) + "- "@ + jobs.last().name@ + ": "@ + status_debug(jobs.last().status) + "\n"@
    }
}

/// The summary of a called workflow's run.
pub open spec fn called_summary(workflow_path: Seq<char>, jobs: Seq<JobResult>) -> Seq<char> {
    "Called workflow: "@ + workflow_path + "\n"@ + called_lines(jobs)
}

/// The result of a job that called a workflow: failed when a job of the
/// called workflow failed; one summary step; the called jobs' outputs
/// merged (see [`aggregates`]).
pub fn called_workflow_result(job_name: &str, uses: &str, workflow_path: &str, run: &WorkflowRun) -> (r: JobResult)
    ensures
        r.name@ == job_name@,
        r.canonical_name@ == job_name@,
        r.status == (if run.has_failures { JobStatus::Failure } else { JobStatus::Success }),
        r.logs@ == called_summary(workflow_path@, run.results@),
        r.steps@.len() == 1,
        r.steps@[0].name@ == "Run reusable workflow: "@ + uses@,
        r.steps@[0].status == (if run.has_failures { StepStatus::Failure } else { StepStatus::Success }),
        r.steps@[0].outcome == r.steps@[0].status,
        r.steps@[0].conclusion == r.steps@[0].status,
        r.steps@[0].output@ == r.logs@,
        aggregates(nested_view(run.job_outputs@), r.outputs@),
{
    let mut logs = owned("Called workflow: ");
    push_str(&mut logs, workflow_path);
    push_str(&mut logs, "\n");
    let ghost head = logs@;
    let mut i: usize = 0;
    while i < run.results.len()
        invariant
            i <= run.results@.len(),
            logs@ == head + called_lines(run.results@.take(i as int)),
        decreases run.results.len() - i,
    {
        let jr = &run.results[i];
        assert(run.results@.take(i + 1).drop_last() =~= run.results@.take(i as int));
        assert(run.results@.take(i + 1).last() == *jr);
        push_str(&mut logs, "- ");
        push_str(&mut logs, jr.name.as_str());
        push_str(&mut logs, ": ");
        let word = match jr.status {
            JobStatus::Success => "Success",
            JobStatus::Failure => "Failure",
            JobStatus::Skipped => "Skipped",
        };
        push_str(&mut logs, word);
        push_str(&mut logs, "\n");
        i = i + 1;
    }
    assert(run.results@.take(run.results@.len() as int) =~= run.results@);
    let status = if run.has_failures { StepStatus::Failure } else { StepStatus::Success };
    let mut title = owned("Run reusable workflow: ");
    push_str(&mut title, uses);
    let step = StepResult::new(title, status, owned(logs.as_str()));
    let mut steps: Vec<StepResult> = Vec::new();
    steps.push(step);
    JobResult {
        name: owned(job_name),
        canonical_name: owned(job_name),
        status: if run.has_failures { JobStatus::Failure } else { JobStatus::Success },
        steps,
        logs,
        outputs: aggregate_reusable_workflow_outputs(&run.job_outputs),
    }
}

} // verus!
