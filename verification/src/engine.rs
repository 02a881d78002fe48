//! The executor's results and errors, and the decisions of action
//! preparation: where an action comes from, what a resolved action runs,
//! and the entrypoint and arguments of a Docker action.
use vstd::prelude::*;
use crate::action_resolver::{ActionType, ActionTypeS};
use crate::actions::{action_image, determine_action_image};
use crate::paths::strip_all;
use crate::steps::{JobStatus, StepResult};
use crate::strmap::{StrMap, str_view, insert_str, copy_str_map};
use crate::order::{str_lt, strictly_sorted, sort_distinct, lemma_str_lt_irreflexive, lemma_str_lt_asymmetric};
use crate::workflow::Job;
use crate::text::{chars_of, owned, push_str, push_all, str_eq, string_of, views, decimal, decimal_chars};
use crate::workflow::ActionInfo;

verus! {

/// Which container runtime runs the steps.
#[derive(PartialEq, Eq, Structural, Clone, Copy, Debug)]
pub enum RuntimeType {
    Docker,
    Podman,
    Emulation,
    SecureEmulation,
}

/// The result of one job.
pub struct JobResult {
    pub name: String,
    /// The job's key in the workflow (for matrix jobs `name` is the display name).
    pub canonical_name: String,
    pub status: JobStatus,
    pub steps: Vec<StepResult>,
    pub logs: String,
    /// The job's resolved `outputs:`.
    pub outputs: StrMap<String>,
}

/// The result of a whole run.
pub struct ExecutionResult {
    pub jobs: Vec<JobResult>,
    pub failure_details: Option<String>,
}

/// Why a run failed.
pub enum ExecutionError {
    Parse(String),
    Runtime(String),
    Execution(String),
    /// An I/O failure, with its message.
    Io(String),
}

/// How an error is shown.
pub open spec fn error_text(e: ExecutionError) -> Seq<char> {
    match e {
        ExecutionError::Parse(m) => "Parse error: "@ + m@,
        ExecutionError::Runtime(m) => "Runtime error: "@ + m@,
        ExecutionError::Execution(m) => "Execution error: "@ + m@,
        ExecutionError::Io(m) => "IO error: "@ + m@,
    }
}

impl ExecutionError {
    /// The error as it is shown.
    pub fn message(&self) -> (r: String)
        ensures
            r@ == error_text(*self),
    {
        let (prefix, m) = match self {
            ExecutionError::Parse(m) => ("Parse error: ", m),
            ExecutionError::Runtime(m) => ("Runtime error: ", m),
            ExecutionError::Execution(m) => ("Execution error: ", m),
            ExecutionError::Io(m) => ("IO error: ", m),
        };
        let mut r = owned(prefix);
        push_str(&mut r, m.as_str());
        r
    }
}

impl From<String> for ExecutionError {
    fn from(err: String) -> (r: Self) {
        ExecutionError::Parse(err)
    }
}

impl vstd::std_specs::convert::FromSpecImpl<String> for ExecutionError {
    open spec fn obeys_from_spec() -> bool {
        true
    }

    open spec fn from_spec(v: String) -> Self {
        ExecutionError::Parse(v)
    }
}

/// What a prepared action runs.
pub enum PreparedAction {
    /// A Docker image run with its own entrypoint (or the given override)
    /// and arguments.
    NativeDocker { image: String, entrypoint: Option<String>, args: Vec<String> },
    /// An image that runs a shell command.
    Image(String),
    /// A composite action.
    Composite,
}

/// Where an action comes from.
pub enum ActionSource {
    /// A `docker://` image to pull.
    PullImage(String),
    /// A local directory.
    Local(String),
    /// A GitHub repository whose `action.yml` is to be fetched.
    Remote,
    /// Nothing to fetch: the built-in image for the repository name.
    Builtin(String),
}

/// Decides where an action comes from.
pub fn action_source(action: &ActionInfo) -> (r: ActionSource)
    ensures
        match r {
            ActionSource::PullImage(i) => action.is_docker && i@ == strip_all(action.repository@, "docker://"@),
            ActionSource::Local(d) => !action.is_docker && action.is_local && d@ == action.repository@,
            ActionSource::Remote => !action.is_docker && !action.is_local && action.repository@.len() > 0 && action.version@.len() > 0,
            ActionSource::Builtin(i) => !action.is_docker && !action.is_local
                && (action.repository@.len() == 0 || action.version@.len() == 0)
                && i@ == action_image(action.repository@),
        },
{
    proof { reveal_strlit(""); }
    if action.is_docker {
        let rv = chars_of(action.repository.as_str());
        let p = chars_of("docker://");
        proof { reveal_strlit("docker://"); }
        return ActionSource::PullImage(string_of(&crate::paths::strip_all_exec(&rv, &p)));
    }
    if action.is_local {
        return ActionSource::Local(action.repository.clone());
    }
    proof {
        if action.repository@.len() == 0 { assert(action.repository@ =~= ""@); }
        if action.version@.len() == 0 { assert(action.version@ =~= ""@); }
    }
    if !str_eq(action.repository.as_str(), "") && !str_eq(action.version.as_str(), "") {
        ActionSource::Remote
    } else {
        ActionSource::Builtin(determine_action_image(action.repository.as_str()))
    }
}

/// What to do with a resolved remote action.
pub enum RemotePlan {
    /// Run this prepared action.
    Ready(PreparedAction),
    /// Run this registry image natively (with the action's runs config).
    DockerImage(String),
    /// Clone this repository URL and build its Dockerfile.
    BuildFromRepository(String),
}

/// The plan for a remote action of a given type: Node actions run on the
/// matching `node:N-slim` image, registry images run natively, composite
/// actions run as composite, and Dockerfile actions are cloned from GitHub
/// and built.
pub fn remote_plan(action: &ActionInfo, action_type: &ActionType) -> (r: RemotePlan)
    ensures
        match action_type@ {
            ActionTypeS::Node(v) => r matches RemotePlan::Ready(PreparedAction::Image(i)) && i@ == "node:"@ + decimal(v as nat) + "-slim"@,
            ActionTypeS::Docker(image) => r matches RemotePlan::DockerImage(i) && i@ == image,
            ActionTypeS::Composite => r matches RemotePlan::Ready(PreparedAction::Composite),
            ActionTypeS::DockerBuild => r matches RemotePlan::BuildFromRepository(u) && u@ == "https://github.com/"@ + action.repository@ + ".git"@,
        },
{
    match action_type {
        ActionType::Node { version } => {
            let mut i = owned("node:");
            push_all(&mut i, &decimal_chars(*version as u64));
            push_str(&mut i, "-slim");
            RemotePlan::Ready(PreparedAction::Image(i))
        },
        ActionType::Docker { image } => RemotePlan::DockerImage(image.clone()),
        ActionType::Composite => RemotePlan::Ready(PreparedAction::Composite),
        ActionType::DockerBuild => {
            let mut u = owned("https://github.com/");
            push_str(&mut u, action.repository.as_str());
            push_str(&mut u, ".git");
            RemotePlan::BuildFromRepository(u)
        },
    }
}

/// What a local action directory holds.
#[derive(PartialEq, Eq, Structural, Clone, Copy)]
pub enum LocalActionKind {
    /// A Dockerfile to build.
    Dockerfile,
    /// A composite action.
    Composite,
    /// Anything else runs on the Node.js image.
    Node,
}

/// The kind of a local action: a Dockerfile wins, then `runs.using: composite`.
pub fn local_action_kind(has_dockerfile: bool, using: Option<&str>) -> (r: LocalActionKind)
    ensures
        r == (if has_dockerfile {
            LocalActionKind::Dockerfile
        } else if (match using { Some(u) => u@ == "composite"@, None => false }) {
            LocalActionKind::Composite
        } else {
            LocalActionKind::Node
        }),
{
    if has_dockerfile {
        LocalActionKind::Dockerfile
    } else {
        match using {
            Some(u) => if str_eq(u, "composite") { LocalActionKind::Composite } else { LocalActionKind::Node },
            None => LocalActionKind::Node,
        }
    }
}

/// The `runs.args` field of a Docker action.
pub enum RunsArgs {
    /// No `args`.
    Absent,
    /// A list, each item as text.
    List(Vec<String>),
    /// One string, to be split like a shell does.
    Text(String),
    /// Any other value.
    Other,
}

/// The fields of a Docker action's `runs` section that override the image.
pub struct DockerRunsFields {
    /// `runs.entrypoint`, when it is a string.
    pub entrypoint: Option<String>,
    pub args: RunsArgs,
}

/// The words of a string split as a POSIX shell would (`shlex::split`),
/// `None` when a quote is not closed or the text ends in a lone backslash.
pub uninterp spec fn shell_words(s: Seq<char>) -> Option<Seq<Seq<char>>>;

/// Calls `shlex::split`; its result is named by [`shell_words`].
#[verifier::external_body]
pub(crate) fn shlex_split(s: &str) -> (r: Option<Vec<String>>)
    ensures
        match r {
            Some(v) => shell_words(s@) == Some(views(v@)),
            None => shell_words(s@) is None,
        },
{
    shlex::split(s)
}

/// The `Debug` rendering of a string: quoted, with escapes.
pub uninterp spec fn debug_text(s: Seq<char>) -> Seq<char>;

/// Renders a string with `{:?}`; its result is named by [`debug_text`].
#[verifier::external_body]
pub(crate) fn debug_quoted(s: &str) -> (r: String)
    ensures
        r@ == debug_text(s@),
{
    format!("{:?}", s)
}

fn copy_strings(v: &Vec<String>) -> (r: Vec<String>)
    ensures
        views(r@) == views(v@),
{
    let mut r: Vec<String> = Vec::new();
    let mut i: usize = 0;
    while i < v.len()
        invariant
            i <= v@.len(),
            views(r@) == views(v@).take(i as int),
        decreases v.len() - i,
    {
        let ghost before = r@;
        r.push(v[i].clone());
        assert(views(r@) =~= views(before).push(v@[i as int]@));
        assert(views(v@).take(i + 1) =~= views(v@).take(i as int).push(v@[i as int]@));
        i = i + 1;
    }
    assert(views(v@).take(v@.len() as int) =~= views(v@));
    r
}

/// The arguments of a Docker action from how its `runs.args` text split
/// into shell words; `quoted` is the text as `{:?}` writes it, which the
/// error for unbalanced quoting shows.
pub fn runs_args_words(split: Option<Vec<String>>, quoted: &str) -> (r: Result<Vec<String>, String>)
    ensures
        match split {
            Some(w) => r matches Ok(a) && a == w,
            None => r matches Err(m) && m@ == "unmatched quote in runs.args: "@ + quoted@,
        },
{
    match split {
        Some(w) => Ok(w),
        None => {
            let mut m = owned("unmatched quote in runs.args: ");
            push_str(&mut m, quoted);
            Err(m)
        },
    }
}

/// The entrypoint override and arguments of a Docker action: an empty
/// entrypoint counts as none; a list of arguments is taken as it is, a
/// string is split like a shell does, anything else gives none.
pub fn extract_docker_runs_config(runs: Option<&DockerRunsFields>) -> (r: Result<(Option<String>, Vec<String>), String>)
    ensures
        match runs {
            None => r matches Ok((e, a)) && e is None && a@.len() == 0,
            Some(f) => {
                let ep = match f.entrypoint { Some(e) => if e@.len() > 0 { Some(e@) } else { None }, None => None };
                match f.args {
                    RunsArgs::Text(s) => match shell_words(s@) {
                        Some(w) => r matches Ok((e, a)) && (match e { Some(x) => Some(x@), None => None }) == ep && views(a@) == w,
                        None => r matches Err(m) && m@ == "unmatched quote in runs.args: "@ + debug_text(s@),
                    },
                    RunsArgs::List(v) => r matches Ok((e, a)) && (match e { Some(x) => Some(x@), None => None }) == ep && views(a@) == views(v@),
                    _ => r matches Ok((e, a)) && (match e { Some(x) => Some(x@), None => None }) == ep && a@.len() == 0,
                }
            },
        },
{
    match runs {
        None => Ok((None, Vec::new())),
        Some(f) => {
            proof { reveal_strlit(""); }
            let entrypoint: Option<String> = match &f.entrypoint {
                Some(e) => {
                    proof { if e@.len() == 0 { assert(e@ =~= ""@); } }
                    if str_eq(e.as_str(), "") { None } else { Some(e.clone()) }
                },
                None => None,
            };
            match &f.args {
                RunsArgs::Absent => Ok((entrypoint, Vec::new())),
                RunsArgs::Other => Ok((entrypoint, Vec::new())),
                RunsArgs::List(v) => Ok((entrypoint, copy_strings(v))),
                RunsArgs::Text(s) => {
                    let split = shlex_split(s.as_str());
                    let quoted = debug_quoted(s.as_str());
                    match runs_args_words(split, quoted.as_str()) {
                        Ok(words) => Ok((entrypoint, words)),
                        Err(m) => Err(m),
                    }
                },
            }
        },
    }
}

/// The text view of a map of string maps.
pub open spec fn nested_view(m: Map<Seq<char>, StrMap<String>>) -> Map<Seq<char>, Map<Seq<char>, Seq<char>>> {
    m.map_values(|v: StrMap<String>| str_view(v@))
}

/// The outputs and results of the jobs that `job` needs (those that have
/// any), for its `needs` context.
pub fn build_needs_context(job: &Job, all_outputs: &StrMap<StrMap<String>>, all_results: &StrMap<String>) -> (r: (StrMap<StrMap<String>>, StrMap<String>))
    ensures
        nested_view(r.0@) == nested_view(all_outputs@).restrict(job.needs_view().to_set()),
        str_view(r.1@) == str_view(all_results@).restrict(job.needs_view().to_set()),
{
    let mut outs: StrMap<StrMap<String>> = StrMap::new();
    let mut results: StrMap<String> = StrMap::new();
    let empty: Vec<String> = Vec::new();
    let needs: &Vec<String> = match &job.needs { Some(n) => n, None => &empty };
    let ghost ns = crate::text::views(needs@);
    assert(ns == job.needs_view());
    let mut i: usize = 0;
    while i < needs.len()
        invariant
            i <= needs@.len(),
            ns == crate::text::views(needs@),
            nested_view(outs@) == nested_view(all_outputs@).restrict(ns.take(i as int).to_set()),
            str_view(results@) == str_view(all_results@).restrict(ns.take(i as int).to_set()),
        decreases needs.len() - i,
    {
        let name = needs[i].as_str();
        let ghost s0 = ns.take(i as int).to_set();
        let ghost s1 = ns.take(i + 1).to_set();
        proof {
            let t0 = ns.take(i as int);
            let t1 = ns.take(i + 1);
            assert(ns[i as int] == name@);
            assert(t1 =~= t0.push(name@));
            assert forall|y: Seq<char>| t1.contains(y) <==> (t0.contains(y) || y == name@) by {
                if t1.contains(y) {
                    let j = choose|j: int| 0 <= j < t1.len() && t1[j] == y;
                    if j < i { assert(t0[j] == y); }
                }
                if t0.contains(y) {
                    let j = choose|j: int| 0 <= j < t0.len() && t0[j] == y;
                    assert(t1[j] == y);
                }
                if y == name@ { assert(t1[i as int] == y); }
            }
            assert(s1 =~= s0.insert(name@));
        }
        let ghost before_outs = nested_view(outs@);
        match all_outputs.get(name) {
            Some(o) => {
                let c = copy_str_map(o);
                let ghost cv = str_view(c@);
                outs.insert(owned(name), c);
                assert(nested_view(outs@) =~= before_outs.insert(name@, cv));
            },
            None => {},
        }
        assert(nested_view(outs@) =~= nested_view(all_outputs@).restrict(s1));
        let ghost before_res = str_view(results@);
        match all_results.get(name) {
            Some(v) => insert_str(&mut results, name, v.clone()),
            None => {},
        }
        assert(str_view(results@) =~= str_view(all_results@).restrict(s1));
        i = i + 1;
    }
    assert(ns.take(needs@.len() as int) =~= ns);
    (outs, results)
}

/// Job `j` has a non-empty output `k`.
pub open spec fn has_output(outs: Map<Seq<char>, Map<Seq<char>, Seq<char>>>, j: Seq<char>, k: Seq<char>) -> bool {
    outs.dom().contains(j) && outs[j].dom().contains(k) && outs[j][k].len() > 0
}

/// `merged` holds every non-empty job output of `outs`, taken from the job
/// whose name sorts last among those that set it.
pub open spec fn aggregates(outs: Map<Seq<char>, Map<Seq<char>, Seq<char>>>, merged: Map<Seq<char>, String>) -> bool {
    &&& forall|k: Seq<char>| #[trigger] merged.dom().contains(k) <==> exists|j: Seq<char>| has_output(outs, j, k)
    &&& forall|k: Seq<char>| #[trigger] merged.dom().contains(k) ==> exists|j: Seq<char>| {
        &&& has_output(outs, j, k)
        &&& merged[k]@ == outs[j][k]
        &&& forall|j2: Seq<char>| has_output(outs, j2, k) ==> !str_lt(j, j2)
    }
}

/// The outputs of a called workflow (see [`aggregates`]).
pub fn aggregate_reusable_workflow_outputs(job_outputs: &StrMap<StrMap<String>>) -> (r: StrMap<String>)
    ensures
        aggregates(nested_view(job_outputs@), r@),
{
    let ghost outs = nested_view(job_outputs@);
    let keys = job_outputs.keys();
    proof {
        use_type_invariant(job_outputs);
        job_outputs.lemma_wf();
    }
    let names = sort_distinct(&keys);
    let ghost ns = crate::text::views(names@);
    assert(ns.to_set() == job_outputs@.dom());
    let mut merged: StrMap<String> = StrMap::new();
    let mut t: usize = 0;
    while t < names.len()
        invariant
            t <= names@.len(),
            ns == crate::text::views(names@),
            ns.to_set() == job_outputs@.dom(),
            strictly_sorted(ns),
            outs == nested_view(job_outputs@),
            forall|k: Seq<char>| #[trigger] merged@.dom().contains(k) <==> exists|a: int| 0 <= a < t && has_output(outs, #[trigger] ns[a], k),
            forall|k: Seq<char>| #[trigger] merged@.dom().contains(k) ==> exists|a: int| {
                &&& 0 <= a < t
                &&& has_output(outs, #[trigger] ns[a], k)
                &&& merged@[k]@ == outs[ns[a]][k]
                &&& forall|b: int| a < b < t ==> !has_output(outs, #[trigger] ns[b], k)
            },
        decreases names.len() - t,
    {
        let jname = names[t].as_str();
        assert(ns[t as int] == jname@);
        assert(ns.to_set().contains(jname@)) by { assert(ns.contains(jname@)); }
        let jo = match job_outputs.get(jname) {
            Some(o) => o,
            None => { assert(false); return StrMap::new(); },
        };
        assert(outs[jname@] == str_view(jo@));
        let ghost m0 = merged@;
        let n = jo.len();
        let mut e: usize = 0;
        proof { use_type_invariant(jo); jo.lemma_wf(); }
        while e < n
            invariant
                e <= n,
                n == jo.key_seq().len(),
                forall|q: int| 0 <= q < jo.key_seq().len() ==> #[trigger] jo@[jo.key_seq()[q]] == jo.val_seq()[q],
                jo.key_seq().to_set() == jo@.dom(),
                forall|k: Seq<char>| #[trigger] merged@.dom().contains(k) <==> (m0.dom().contains(k)
                    || (jo.key_seq().take(e as int).contains(k) && jo@[k]@.len() > 0)),
                forall|k: Seq<char>| #[trigger] merged@.dom().contains(k) ==> merged@[k]@ == (
                    if jo.key_seq().take(e as int).contains(k) && jo@[k]@.len() > 0 { jo@[k]@ } else { m0[k]@ }),
            decreases n - e,
        {
            let (k, v) = jo.entry(e);
            let ghost t0 = jo.key_seq().take(e as int);
            let ghost t1 = jo.key_seq().take(e + 1);
            proof {
                assert(t1 =~= t0.push(k@));
                assert forall|y: Seq<char>| t1.contains(y) <==> (t0.contains(y) || y == k@) by {
                    if t1.contains(y) {
                        let q = choose|q: int| 0 <= q < t1.len() && t1[q] == y;
                        if q < e { assert(t0[q] == y); }
                    }
                    if t0.contains(y) {
                        let q = choose|q: int| 0 <= q < t0.len() && t0[q] == y;
                        assert(t1[q] == y);
                    }
                    if y == k@ { assert(t1[e as int] == y); }
                }
            }
            proof { reveal_strlit(""); if v@.len() == 0 { assert(v@ =~= ""@); } }
            if !str_eq(v.as_str(), "") {
                merged.insert(k.clone(), v.clone());
            }
            e = e + 1;
        }
        proof {
            assert(jo.key_seq().take(n as int) =~= jo.key_seq());
            assert forall|k: Seq<char>| jo.key_seq().contains(k) <==> jo@.dom().contains(k) by {
                assert(jo.key_seq().to_set().contains(k) == jo.key_seq().contains(k));
            }
            assert forall|k: Seq<char>| #[trigger] merged@.dom().contains(k) <==> exists|a: int| 0 <= a < t + 1 && has_output(outs, #[trigger] ns[a], k) by {
                if merged@.dom().contains(k) && !m0.dom().contains(k) {
                    assert(has_output(outs, ns[t as int], k));
                }
                if exists|a: int| 0 <= a < t + 1 && has_output(outs, #[trigger] ns[a], k) {
                    let a = choose|a: int| 0 <= a < t + 1 && has_output(outs, #[trigger] ns[a], k);
                    if a < t {
                        assert(m0.dom().contains(k));
                    } else {
                        assert(jo@.dom().contains(k));
                    }
                }
            }
            assert forall|k: Seq<char>| #[trigger] merged@.dom().contains(k) implies exists|a: int| {
                &&& 0 <= a < t + 1
                &&& has_output(outs, #[trigger] ns[a], k)
                &&& merged@[k]@ == outs[ns[a]][k]
                &&& forall|b: int| a < b < t + 1 ==> !has_output(outs, #[trigger] ns[b], k)
            } by {
                if jo@.dom().contains(k) && jo@[k]@.len() > 0 {
                    let a = t as int;
                    assert(has_output(outs, ns[a], k));
                    assert(merged@[k]@ == outs[ns[a]][k]);
                } else {
                    let a = choose|a: int| {
                        &&& 0 <= a < t
                        &&& has_output(outs, #[trigger] ns[a], k)
                        &&& m0[k]@ == outs[ns[a]][k]
                        &&& forall|b: int| a < b < t ==> !has_output(outs, #[trigger] ns[b], k)
                    };
                    assert forall|b: int| a < b < t + 1 implies !has_output(outs, #[trigger] ns[b], k) by {
                        if b == t {
                            assert(!has_output(outs, ns[t as int], k));
                        }
                    }
                }
            }
        }
        t = t + 1;
    }
    proof {
        assert forall|k: Seq<char>| #[trigger] merged@.dom().contains(k) <==> exists|j: Seq<char>| has_output(outs, j, k) by {
            if exists|j: Seq<char>| has_output(outs, j, k) {
                let j = choose|j: Seq<char>| has_output(outs, j, k);
                assert(ns.to_set().contains(j));
                let a = choose|a: int| 0 <= a < ns.len() && ns[a] == j;
                assert(has_output(outs, ns[a], k));
            }
            if merged@.dom().contains(k) {
                let a = choose|a: int| 0 <= a < t && has_output(outs, #[trigger] ns[a], k);
                assert(has_output(outs, ns[a], k));
            }
        }
        assert forall|k: Seq<char>| #[trigger] merged@.dom().contains(k) implies exists|j: Seq<char>| {
            &&& has_output(outs, j, k)
            &&& merged@[k]@ == outs[j][k]
            &&& forall|j2: Seq<char>| has_output(outs, j2, k) ==> !str_lt(j, j2)
        } by {
            let a = choose|a: int| {
                &&& 0 <= a < t
                &&& has_output(outs, #[trigger] ns[a], k)
                &&& merged@[k]@ == outs[ns[a]][k]
                &&& forall|b: int| a < b < t ==> !has_output(outs, #[trigger] ns[b], k)
            };
            let j = ns[a];
            assert forall|j2: Seq<char>| has_output(outs, j2, k) implies !str_lt(j, j2) by {
                assert(ns.to_set().contains(j2));
                let b = choose|b: int| 0 <= b < ns.len() && ns[b] == j2;
                if b > a {
                    assert(!has_output(outs, ns[b], k));
                } else if b == a {
                    lemma_str_lt_irreflexive(j);
                } else {
                    assert(str_lt(ns[b], ns[a]));
                    lemma_str_lt_asymmetric(j2, j);
                }
            }
        }
    }
    merged
}

/// The value of `WRKFLW_RUNTIME_MODE` for a runtime.
pub fn runtime_mode_name(rt: RuntimeType) -> (r: &'static str)
    ensures
        r@ == (match rt {
            RuntimeType::Emulation => "emulation"@,
            RuntimeType::SecureEmulation => "secure_emulation"@,
            RuntimeType::Docker => "docker"@,
            RuntimeType::Podman => "podman"@,
        }),
{
    match rt {
        RuntimeType::Emulation => "emulation",
        RuntimeType::SecureEmulation => "secure_emulation",
        RuntimeType::Docker => "docker",
        RuntimeType::Podman => "podman",
    }
}

/// Adds the runner's own settings to the run environment: the runtime mode
/// and whether action messages are hidden.
pub fn add_runner_settings(env: &mut StrMap<String>, rt: RuntimeType, show_action_messages: bool)
    ensures
        str_view(final(env)@) == str_view(old(env)@)
            .insert("WRKFLW_RUNTIME_MODE"@, runtime_mode_name_spec(rt))
            .insert("WRKFLW_HIDE_ACTION_MESSAGES"@, if show_action_messages { "false"@ } else { "true"@ }),
{
    insert_str(env, "WRKFLW_RUNTIME_MODE", owned(runtime_mode_name(rt)));
    insert_str(env, "WRKFLW_HIDE_ACTION_MESSAGES", owned(if show_action_messages { "false" } else { "true" }));
}

/// The value of `WRKFLW_RUNTIME_MODE` for a runtime.
pub open spec fn runtime_mode_name_spec(rt: RuntimeType) -> Seq<char> {
    match rt {
        RuntimeType::Emulation => "emulation"@,
        RuntimeType::SecureEmulation => "secure_emulation"@,
        RuntimeType::Docker => "docker"@,
        RuntimeType::Podman => "podman"@,
    }
}

/// The word for a job status.
pub open spec fn job_status_word(s: JobStatus) -> Seq<char> {
    match s {
        JobStatus::Success => "success"@,
        JobStatus::Failure => "failure"@,
        JobStatus::Skipped => "skipped"@,
    }
}

/// The failure lines of the failed steps of a job.
pub open spec fn failed_steps_text(steps: Seq<StepResult>) -> Seq<char>
    decreases steps.len(),
{
    if steps.len() == 0 {
        Seq::empty()
    } else {
        let s = steps.last();
        failed_steps_text(steps.drop_last()) + (if s.status == crate::steps::StepStatus::Failure {
            "  "@ + seq!['\u{2716}'] + " "@ + s.name@ + ": "@ + s.output@ + "\n"@
        } else {
            Seq::empty()
        })
    }
}

/// The failure report of a batch of jobs: for each failed job a line and
/// the lines of its failed steps.
pub open spec fn failure_text(jobs: Seq<JobResult>) -> Seq<char>
    decreases jobs.len(),
{
    if jobs.len() == 0 {
        Seq::empty()
    } else {
        let j = jobs.last();
        failure_text(jobs.drop_last()) + (if j.status == JobStatus::Failure {
            "\n"@ + seq!['\u{2716}'] + " Job failed: "@ + j.name@ + "\n"@ + failed_steps_text(j.steps@)
        } else {
            Seq::empty()
        })
    }
}

/// Some job of the batch failed.
pub open spec fn any_failed(jobs: Seq<JobResult>) -> bool {
    exists|i: int| 0 <= i < jobs.len() && #[trigger] jobs[i].status == JobStatus::Failure
}

/// A run's failure flag stays exact as batches are recorded: when it says
/// whether a recorded job failed, it still does after the next batch (a
/// run starts with no jobs and the flag clear).
pub proof fn lemma_failure_flag_exact(results: Seq<JobResult>, has_failures: bool, batch: Seq<JobResult>)
    requires
        has_failures == any_failed(results),
    ensures
        (has_failures || any_failed(batch)) == any_failed(results + batch),
{
    let all = results + batch;
    if any_failed(results) {
        let i = choose|i: int| 0 <= i < results.len() && #[trigger] results[i].status == JobStatus::Failure;
        assert(all[i] == results[i]);
    }
    if any_failed(batch) {
        let i = choose|i: int| 0 <= i < batch.len() && #[trigger] batch[i].status == JobStatus::Failure;
        assert(all[results.len() + i] == batch[i]);
    }
    if any_failed(all) {
        let i = choose|i: int| 0 <= i < all.len() && #[trigger] all[i].status == JobStatus::Failure;
        if i < results.len() {
            assert(results[i] == all[i]);
        } else {
            assert(batch[i - results.len()] == all[i]);
        }
    }
}

/// The `needs` results after a batch: each job's status word under its
/// canonical name, later jobs of the batch winning.
pub open spec fn results_after(m: Map<Seq<char>, Seq<char>>, jobs: Seq<JobResult>) -> Map<Seq<char>, Seq<char>>
    decreases jobs.len(),
{
    if jobs.len() == 0 {
        m
    } else {
        results_after(m, jobs.drop_last()).insert(jobs.last().canonical_name@, job_status_word(jobs.last().status))
    }
}

/// The `needs` outputs after a batch: each job's outputs under its
/// canonical name, later jobs of the batch winning.
pub open spec fn outputs_after(m: Map<Seq<char>, Map<Seq<char>, Seq<char>>>, jobs: Seq<JobResult>) -> Map<Seq<char>, Map<Seq<char>, Seq<char>>>
    decreases jobs.len(),
{
    if jobs.len() == 0 {
        m
    } else {
        outputs_after(m, jobs.drop_last()).insert(jobs.last().canonical_name@, str_view(jobs.last().outputs@))
    }
}

/// What a run has gathered so far: the job results in order, the failure
/// report, and the outputs and results that later jobs' `needs` read.
pub struct WorkflowRun {
    pub results: Vec<JobResult>,
    pub has_failures: bool,
    pub failure_details: String,
    pub job_outputs: StrMap<StrMap<String>>,
    pub job_results: StrMap<String>,
}

fn failed_steps_exec(steps: &Vec<StepResult>, out: &mut String)
    ensures
        final(out)@ == old(out)@ + failed_steps_text(steps@),
{
    let mut i: usize = 0;
    let ghost start = out@;
    while i < steps.len()
        invariant
            i <= steps@.len(),
            out@ == start + failed_steps_text(steps@.take(i as int)),
        decreases steps.len() - i,
    {
        assert(steps@.take(i + 1).drop_last() =~= steps@.take(i as int));
        let ghost before = out@;
        if steps[i].status == crate::steps::StepStatus::Failure {
            push_str(out, "  ");
            push_str(out, "\u{2716}");
            push_str(out, " ");
            push_str(out, steps[i].name.as_str());
            push_str(out, ": ");
            push_str(out, steps[i].output.as_str());
            push_str(out, "\n");
            proof { reveal_strlit("\u{2716}"); }
            assert(out@ =~= before + ("  "@ + seq!['\u{2716}'] + " "@ + steps@[i as int].name@ + ": "@ + steps@[i as int].output@ + "\n"@));
        } else {
            assert(out@ =~= before + Seq::<char>::empty());
        }
        i = i + 1;
    }
    assert(steps@.take(steps@.len() as int) =~= steps@);
}

impl WorkflowRun {
    /// A run before its first batch.
    pub fn new() -> (r: WorkflowRun)
        ensures
            r.results@.len() == 0,
            !r.has_failures,
            r.failure_details@ == Seq::<char>::empty(),
            nested_view(r.job_outputs@) == Map::<Seq<char>, Map<Seq<char>, Seq<char>>>::empty(),
            str_view(r.job_results@) == Map::<Seq<char>, Seq<char>>::empty(),
    {
        let r = WorkflowRun {
            results: Vec::new(),
            has_failures: false,
            failure_details: String::new(),
            job_outputs: StrMap::new(),
            job_results: StrMap::new(),
        };
        assert(nested_view(r.job_outputs@) =~= Map::<Seq<char>, Map<Seq<char>, Seq<char>>>::empty());
        assert(str_view(r.job_results@) =~= Map::<Seq<char>, Seq<char>>::empty());
        r
    }

    /// Takes in the results of a batch of jobs.
    pub fn record_batch(&mut self, batch: Vec<JobResult>)
        ensures
            final(self).results@ == old(self).results@ + batch@,
            final(self).has_failures == (old(self).has_failures || any_failed(batch@)),
            final(self).failure_details@ == old(self).failure_details@ + failure_text(batch@),
            nested_view(final(self).job_outputs@) == outputs_after(nested_view(old(self).job_outputs@), batch@),
            str_view(final(self).job_results@) == results_after(str_view(old(self).job_results@), batch@),
    {
        let ghost o0 = nested_view(self.job_outputs@);
        let ghost r0 = str_view(self.job_results@);
        let ghost f0 = self.failure_details@;
        let ghost h0 = self.has_failures;
        let ghost res0 = self.results@;
        let mut i: usize = 0;
        while i < batch.len()
            invariant
                i <= batch@.len(),
                nested_view(self.job_outputs@) == outputs_after(o0, batch@.take(i as int)),
                str_view(self.job_results@) == results_after(r0, batch@.take(i as int)),
                self.failure_details@ == f0 + failure_text(batch@.take(i as int)),
                self.has_failures == (h0 || any_failed(batch@.take(i as int))),
                self.results@ == res0,
            decreases batch.len() - i,
        {
            let jr = &batch[i];
            proof {
                assert(batch@.take(i + 1).drop_last() =~= batch@.take(i as int));
                assert(batch@.take(i + 1).last() == batch@[i as int]);
            }
            let word = match jr.status {
                JobStatus::Success => "success",
                JobStatus::Failure => "failure",
                JobStatus::Skipped => "skipped",
            };
            insert_str(&mut self.job_results, jr.canonical_name.as_str(), owned(word));
            let copy = copy_str_map(&jr.outputs);
            let ghost cv = str_view(copy@);
            let ghost before_o = nested_view(self.job_outputs@);
            self.job_outputs.insert(jr.canonical_name.clone(), copy);
            assert(nested_view(self.job_outputs@) =~= before_o.insert(jr.canonical_name@, cv));
            let ghost before_f = self.failure_details@;
            if jr.status == JobStatus::Failure {
                self.has_failures = true;
                push_str(&mut self.failure_details, "\n");
                push_str(&mut self.failure_details, "\u{2716}");
                push_str(&mut self.failure_details, " Job failed: ");
                push_str(&mut self.failure_details, jr.name.as_str());
                push_str(&mut self.failure_details, "\n");
                proof { reveal_strlit("\u{2716}"); }
                let ghost mid = self.failure_details@;
                failed_steps_exec(&jr.steps, &mut self.failure_details);
                assert(self.failure_details@ =~= before_f + ("\n"@ + seq!['\u{2716}'] + " Job failed: "@ + jr.name@ + "\n"@ + failed_steps_text(jr.steps@)));
                assert(any_failed(batch@.take(i + 1))) by {
                    assert(batch@.take(i + 1)[i as int].status == JobStatus::Failure);
                }
            } else {
                assert(self.failure_details@ =~= before_f + Seq::<char>::empty());
                assert(any_failed(batch@.take(i + 1)) == any_failed(batch@.take(i as int))) by {
                    if any_failed(batch@.take(i + 1)) {
                        let q = choose|q: int| 0 <= q < i + 1 && #[trigger] batch@.take(i + 1)[q].status == JobStatus::Failure;
                        assert(q < i);
                        assert(batch@.take(i as int)[q] == batch@.take(i + 1)[q]);
                    }
                    if any_failed(batch@.take(i as int)) {
                        let q = choose|q: int| 0 <= q < i && #[trigger] batch@.take(i as int)[q].status == JobStatus::Failure;
                        assert(batch@.take(i as int)[q] == batch@.take(i + 1)[q]);
                    }
                }
            }
            i = i + 1;
        }
        assert(batch@.take(batch@.len() as int) =~= batch@);
        let mut b = batch;
        self.results.append(&mut b);
    }

    /// The result of the run: the failure report only when a job failed.
    pub fn finish(self) -> (r: ExecutionResult)
        ensures
            r.jobs@ == self.results@,
            match r.failure_details {
                Some(d) => self.has_failures && d@ == self.failure_details@,
                None => !self.has_failures,
            },
    {
        let details = if self.has_failures { Some(self.failure_details) } else { None };
        ExecutionResult { jobs: self.results, failure_details: details }
    }
}

/// How a job's image is obtained: used as it is, or built from the base
/// image with the runtimes that the job's setup actions ask for.
pub enum RunnerImagePlan {
    Ready(String),
    Combined { base: String, runtimes: Vec<crate::actions::SetupRuntime> },
}

/// Decides how a job's image is obtained: a job with a `container:` runs in
/// its image; otherwise the runner image is extended with the detected
/// setup runtimes, when there are any.
pub fn runner_image_plan(job: &Job) -> (r: RunnerImagePlan)
    ensures
        ({
            let base = match job.container {
                Some(c) => if c.image@.len() > 0 { c.image@ } else { crate::steps::runner_image(crate::steps::first_label(job.runs_on)) },
                None => crate::steps::runner_image(crate::steps::first_label(job.runs_on)),
            };
            let rts = crate::actions::detected_runtimes(job.steps@);
            match r {
                RunnerImagePlan::Ready(img) => img@ == base && (job.container is Some || rts.len() == 0),
                RunnerImagePlan::Combined { base: b, runtimes } => b@ == base && job.container is None
                    && rts.len() > 0 && crate::actions::runtime_pairs(runtimes@) == rts,
            }
        }),
{
    let base = crate::steps::get_effective_runner_image(job);
    if job.container.is_some() {
        return RunnerImagePlan::Ready(base);
    }
    let runtimes = crate::actions::detect_setup_runtimes(&job.steps);
    if runtimes.len() == 0 {
        RunnerImagePlan::Ready(base)
    } else {
        RunnerImagePlan::Combined { base, runtimes }
    }
}

/// The combinations of a matrix job run in consecutive chunks of at most
/// `max_parallel`: chunk `i` holds the combinations from `i * max_parallel`
/// up to the next chunk's start or the end.
pub fn matrix_chunks(count: usize, max_parallel: usize) -> (r: Vec<(usize, usize)>)
    requires
        max_parallel > 0,
    ensures
        r@.len() * max_parallel >= count,
        r@.len() == 0 || (r@.len() - 1) * max_parallel < count,
        forall|i: int| 0 <= i < r@.len() ==> (#[trigger] r@[i]).0 == i * max_parallel
            && r@[i].1 == (if (i + 1) * max_parallel < count { (i + 1) * max_parallel } else { count as int }),
{
    let mut r: Vec<(usize, usize)> = Vec::new();
    let mut start: usize = 0;
    while start < count
        invariant
            max_parallel > 0,
            start <= count,
            start < count ==> start == r@.len() * max_parallel,
            start == count ==> r@.len() * max_parallel >= count,
            r@.len() == 0 || (r@.len() - 1) * max_parallel < count,
            r@.len() == 0 ==> start == 0,
            forall|i: int| 0 <= i < r@.len() ==> (#[trigger] r@[i]).0 == i * max_parallel
                && r@[i].1 == (if (i + 1) * max_parallel < count { (i + 1) * max_parallel } else { count as int }),
        decreases count - start,
    {
        let ghost n = r@.len();
        let end = if count - start > max_parallel { start + max_parallel } else { count };
        assert((n + 1) * max_parallel == n * max_parallel + max_parallel) by (nonlinear_arith);
        r.push((start, end));
        start = end;
    }
    r
}

/// Where a matrix job's combinations stand: the results so far, whether
/// one failed, and whether a failure skips the rest.
pub struct MatrixRun {
    pub results: Vec<JobResult>,
    pub any_failed: bool,
    pub fail_fast: bool,
}

impl MatrixRun {
    /// A run before its first chunk.
    pub fn new(fail_fast: bool) -> (r: MatrixRun)
        ensures
            r.results@.len() == 0,
            !r.any_failed,
            r.fail_fast == fail_fast,
    {
        MatrixRun { results: Vec::new(), any_failed: false, fail_fast }
    }

    /// Whether the next chunk is skipped: after a failure under fail-fast.
    pub fn skips_next_chunk(&self) -> (r: bool)
        ensures
            r == (self.fail_fast && self.any_failed),
    {
        self.fail_fast && self.any_failed
    }

    /// Records a combination that is skipped, under its display name.
    pub fn skip(&mut self, name: String, job_name: &str)
        ensures
            final(self).results@.len() == old(self).results@.len() + 1,
            final(self).results@.take(old(self).results@.len() as int) == old(self).results@,
            ({
                let j = final(self).results@.last();
                &&& j.name == name && j.canonical_name@ == job_name@ && j.status == JobStatus::Skipped
                &&& j.steps@.len() == 0 && j.logs@ == "Job skipped due to previous matrix job failure"@
                &&& j.outputs@ == Map::<Seq<char>, String>::empty()
            }),
            final(self).any_failed == old(self).any_failed,
            final(self).fail_fast == old(self).fail_fast,
    {
        let ghost before = self.results@;
        self.results.push(JobResult {
            name,
            canonical_name: owned(job_name),
            status: JobStatus::Skipped,
            steps: Vec::new(),
            logs: owned("Job skipped due to previous matrix job failure"),
            outputs: StrMap::new(),
        });
        assert(self.results@.take(before.len() as int) =~= before);
    }

    /// Takes in what running one combination gave. A result is kept and
    /// marks the run failed when the job failed; an error marks it failed
    /// and, under fail-fast, is handed back to end the matrix job.
    pub fn record(&mut self, outcome: Result<JobResult, ExecutionError>) -> (stop: Option<ExecutionError>)
        ensures
            final(self).fail_fast == old(self).fail_fast,
            match outcome {
                Ok(j) => {
                    &&& stop is None
                    &&& final(self).results@ == old(self).results@.push(j)
                    &&& final(self).any_failed == (old(self).any_failed || j.status == JobStatus::Failure)
                },
                Err(e) => {
                    &&& final(self).results@ == old(self).results@
                    &&& final(self).any_failed
                    &&& stop == (if old(self).fail_fast { Some(e) } else { None })
                },
            },
    {
        match outcome {
            Ok(j) => {
                if j.status == JobStatus::Failure {
                    self.any_failed = true;
                }
                self.results.push(j);
                None
            },
            Err(e) => {
                self.any_failed = true;
                if self.fail_fast { Some(e) } else { None }
            },
        }
    }
}

/// The runtime that a run uses: Docker and Podman only when available and
/// started, otherwise emulation; the emulation runtimes as asked.
pub fn effective_runtime(requested: RuntimeType, available: bool, started: bool) -> (r: RuntimeType)
    ensures
        r == (match requested {
            RuntimeType::Docker | RuntimeType::Podman => if available && started { requested } else { RuntimeType::Emulation },
            _ => requested,
        }),
{
    match requested {
        RuntimeType::Docker | RuntimeType::Podman => if available && started { requested } else { RuntimeType::Emulation },
        _ => requested,
    }
}

/// The `git` argument lists that fetch an action repository at a ref,
/// with hooks disabled: a commit SHA is fetched into a new repository and
/// checked out, a branch or tag is cloned shallowly.
pub open spec fn clone_plan_spec(repo_url: Seq<char>, git_ref: Seq<char>, target: Seq<char>) -> Seq<Seq<Seq<char>>> {
    let no_hooks = seq!["-c"@, "core.hooksPath=/dev/null"@];
    if crate::actions::git_sha(git_ref) {
        seq![
            no_hooks + seq!["init"@, target],
            no_hooks + seq!["-C"@, target, "fetch"@, "--depth"@, "1"@, "--"@, repo_url, git_ref],
            no_hooks + seq!["-C"@, target, "checkout"@, "FETCH_HEAD"@],
        ]
    } else {
        seq![no_hooks + seq!["clone"@, "--depth"@, "1"@, "--single-branch"@, "--branch"@, git_ref, "--"@, repo_url, target]]
    }
}

fn strings_of(parts: &[&str]) -> (r: Vec<String>)
    ensures
        views(r@) == parts@.map_values(|p: &str| p@),
{
    let mut r: Vec<String> = Vec::new();
    let mut i: usize = 0;
    while i < parts.len()
        invariant
            i <= parts@.len(),
            views(r@) == parts@.take(i as int).map_values(|p: &str| p@),
        decreases parts.len() - i,
    {
        let ghost before = r@;
        r.push(owned(parts[i]));
        assert(views(r@) =~= views(before).push(parts@[i as int]@));
        assert(parts@.take(i + 1).map_values(|p: &str| p@) =~= parts@.take(i as int).map_values(|p: &str| p@).push(parts@[i as int]@));
        i = i + 1;
    }
    assert(parts@.take(parts@.len() as int) =~= parts@);
    r
}

/// The `git` commands that fetch an action repository (see
/// [`clone_plan_spec`]).
pub fn clone_plan(repo_url: &str, git_ref: &str, target_dir: &str) -> (r: Vec<Vec<String>>)
    ensures
        r@.len() == clone_plan_spec(repo_url@, git_ref@, target_dir@).len(),
        forall|i: int| 0 <= i < r@.len() ==> views(#[trigger] r@[i]@) == clone_plan_spec(repo_url@, git_ref@, target_dir@)[i],
{
    let mut r: Vec<Vec<String>> = Vec::new();
    if crate::actions::is_git_sha(git_ref) {
        let a = strings_of(&["-c", "core.hooksPath=/dev/null", "init", target_dir]);
        let b = strings_of(&["-c", "core.hooksPath=/dev/null", "-C", target_dir, "fetch", "--depth", "1", "--", repo_url, git_ref]);
        let c = strings_of(&["-c", "core.hooksPath=/dev/null", "-C", target_dir, "checkout", "FETCH_HEAD"]);
        assert(views(a@) =~= seq!["-c"@, "core.hooksPath=/dev/null"@] + seq!["init"@, target_dir@]);
        assert(views(b@) =~= seq!["-c"@, "core.hooksPath=/dev/null"@] + seq!["-C"@, target_dir@, "fetch"@, "--depth"@, "1"@, "--"@, repo_url@, git_ref@]);
        assert(views(c@) =~= seq!["-c"@, "core.hooksPath=/dev/null"@] + seq!["-C"@, target_dir@, "checkout"@, "FETCH_HEAD"@]);
        r.push(a);
        r.push(b);
        r.push(c);
    } else {
        let a = strings_of(&["-c", "core.hooksPath=/dev/null", "clone", "--depth", "1", "--single-branch", "--branch", git_ref, "--", repo_url, target_dir]);
        assert(views(a@) =~= seq!["-c"@, "core.hooksPath=/dev/null"@] + seq!["clone"@, "--depth"@, "1"@, "--single-branch"@, "--branch"@, git_ref@, "--"@, repo_url@, target_dir@]);
        r.push(a);
    }
    r
}

} // verus!
