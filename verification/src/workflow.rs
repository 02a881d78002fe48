//! The workflow model: the parts of a parsed workflow file that the runner's
//! logic reads, held as plain values.
use vstd::prelude::*;
use crate::strmap::StrMap;
use crate::text::{chars_of, string_of, slice_range, has_prefix, find_char, owned, push_str, str_starts_with};

verus! {

/// Registry credentials of a job container.
pub struct ContainerCredentials {
    pub username: Option<String>,
    pub password: Option<String>,
}

/// The `Debug` rendering of an optional string.
pub open spec fn option_debug(o: Option<String>) -> Seq<char> {
    match o {
        Some(s) => "Some("@ + crate::engine::debug_text(s@) + ")"@,
        None => "None"@,
    }
}

impl ContainerCredentials {
    /// The credentials as they are written out: the username as it is, the
    /// password, when there is one, replaced by `[REDACTED]`.
    pub fn redacted(&self) -> (r: ContainerCredentials)
        ensures
            match (r.username, self.username) {
                (Some(a), Some(b)) => a@ == b@,
                (None, None) => true,
                _ => false,
            },
            match self.password {
                Some(_) => r.password matches Some(p) && p@ == "[REDACTED]"@,
                None => r.password is None,
            },
    {
        let username = match &self.username {
            Some(u) => Some(owned(u.as_str())),
            None => None,
        };
        let password = match &self.password {
            Some(_) => Some(owned("[REDACTED]")),
            None => None,
        };
        ContainerCredentials { username, password }
    }

    /// The `Debug` rendering, which never shows the password.
    pub fn debug_string(&self) -> (r: String)
        ensures
            r@ == "ContainerCredentials { username: "@ + option_debug(self.username) + ", password: \"[REDACTED]\" }"@,
    {
        let mut r = owned("ContainerCredentials { username: ");
        match &self.username {
            Some(u) => {
                push_str(&mut r, "Some(");
                push_str(&mut r, crate::engine::debug_quoted(u.as_str()).as_str());
                push_str(&mut r, ")");
            },
            None => push_str(&mut r, "None"),
        }
        push_str(&mut r, ", password: \"[REDACTED]\" }");
        r
    }
}

/// The container a job runs in.
pub struct JobContainer {
    pub image: String,
    pub credentials: Option<ContainerCredentials>,
    pub env: StrMap<String>,
    pub ports: Option<Vec<String>>,
    pub volumes: Option<Vec<String>>,
    pub options: Option<String>,
}

/// The warnings for the container fields that are read but not acted on,
/// in the order `options`, `credentials`, `ports`.
pub open spec fn unsupported_container_fields(c: JobContainer) -> Seq<Seq<char>> {
    (if c.options is Some { seq!["container 'options' field is not yet supported and will be ignored"@] } else { Seq::empty() })
    + (if c.credentials is Some { seq!["container 'credentials' field is not yet supported and will be ignored"@] } else { Seq::empty() })
    + (if c.ports is Some { seq!["container 'ports' field is not yet supported (service containers are not implemented)"@] } else { Seq::empty() })
}

/// The warnings to show for a job's container (see [`unsupported_container_fields`]).
pub fn warn_unsupported_container_fields(container: &JobContainer) -> (r: Vec<String>)
    ensures
        r@.map_values(|s: String| s@) == unsupported_container_fields(*container),
{
    let mut r: Vec<String> = Vec::new();
    let ghost a: Seq<Seq<char>> = if container.options is Some { seq!["container 'options' field is not yet supported and will be ignored"@] } else { Seq::empty() };
    let ghost b: Seq<Seq<char>> = if container.credentials is Some { seq!["container 'credentials' field is not yet supported and will be ignored"@] } else { Seq::empty() };
    let ghost c: Seq<Seq<char>> = if container.ports is Some { seq!["container 'ports' field is not yet supported (service containers are not implemented)"@] } else { Seq::empty() };
    if container.options.is_some() {
        r.push(owned("container 'options' field is not yet supported and will be ignored"));
    }
    assert(r@.map_values(|s: String| s@) =~= a);
    if container.credentials.is_some() {
        r.push(owned("container 'credentials' field is not yet supported and will be ignored"));
    }
    assert(r@.map_values(|s: String| s@) =~= a + b);
    if container.ports.is_some() {
        r.push(owned("container 'ports' field is not yet supported (service containers are not implemented)"));
    }
    assert(r@.map_values(|s: String| s@) =~= a + b + c);
    r
}

/// `defaults.run` settings.
pub struct DefaultsRun {
    pub shell: Option<String>,
    pub working_directory: Option<String>,
}

/// `defaults` settings of a workflow or job.
pub struct Defaults {
    pub run: Option<DefaultsRun>,
}

/// The settings of a `strategy.matrix` block that scheduling reads.
pub struct MatrixSettings {
    pub fail_fast: Option<bool>,
    pub max_parallel: Option<usize>,
}

/// A job's `strategy` block.
pub struct Strategy {
    pub matrix: Option<MatrixSettings>,
    pub fail_fast: Option<bool>,
    pub max_parallel: Option<usize>,
}

/// A service container declared by a job.
pub struct Service {
    pub image: String,
    pub ports: Option<Vec<String>>,
    pub env: StrMap<String>,
    pub volumes: Option<Vec<String>>,
    pub options: Option<String>,
}

/// One step of a job.
pub struct Step {
    pub name: Option<String>,
    pub uses: Option<String>,
    pub run: Option<String>,
    pub with: Option<StrMap<String>>,
    pub env: StrMap<String>,
    pub continue_on_error: Option<bool>,
    pub if_condition: Option<String>,
    pub id: Option<String>,
    pub working_directory: Option<String>,
    pub shell: Option<String>,
}

/// One job of a workflow.
pub struct Job {
    pub runs_on: Option<Vec<String>>,
    pub needs: Option<Vec<String>>,
    pub container: Option<JobContainer>,
    pub steps: Vec<Step>,
    pub env: StrMap<String>,
    pub strategy: Option<Strategy>,
    pub services: StrMap<Service>,
    pub if_condition: Option<String>,
    pub outputs: Option<StrMap<String>>,
    pub permissions: Option<StrMap<String>>,
    pub uses: Option<String>,
    pub with: Option<StrMap<String>>,
    pub defaults: Option<Defaults>,
}

/// A parsed workflow.
pub struct WorkflowDefinition {
    pub name: String,
    pub on: Vec<String>,
    pub jobs: StrMap<Job>,
    pub defaults: Option<Defaults>,
    pub env: StrMap<String>,
}

/// The names in a list of strings.
pub open spec fn str_seq(v: Seq<String>) -> Seq<Seq<char>> {
    v.map_values(|s: String| s@)
}

/// An optional list of names, read as a (possibly empty) list.
pub open spec fn opt_str_seq(v: Option<Vec<String>>) -> Seq<Seq<char>> {
    match v {
        Some(v) => str_seq(v@),
        None => Seq::empty(),
    }
}

impl Job {
    /// The jobs named in `needs`, in order.
    pub open spec fn needs_view(&self) -> Seq<Seq<char>> {
        opt_str_seq(self.needs)
    }

    /// The `strategy.matrix` block, if any.
    pub fn matrix_config(&self) -> (r: Option<&MatrixSettings>)
        ensures
            r == (match self.strategy {
                Some(s) => match s.matrix {
                    Some(m) => Some(&m),
                    None => None::<&MatrixSettings>,
                },
                None => None,
            }),
    {
        match &self.strategy {
            Some(s) => match &s.matrix {
                Some(m) => Some(m),
                None => None,
            },
            None => None,
        }
    }

    /// `fail-fast`: the strategy's own setting wins, then the matrix's, else `true`.
    pub fn fail_fast(&self) -> (r: bool)
        ensures
            r == (match self.strategy {
                Some(s) => match s.fail_fast {
                    Some(b) => b,
                    None => match s.matrix {
                        Some(m) => match m.fail_fast {
                            Some(b) => b,
                            None => true,
                        },
                        None => true,
                    },
                },
                None => true,
            }),
    {
        match &self.strategy {
            Some(s) => match s.fail_fast {
                Some(b) => b,
                None => match &s.matrix {
                    Some(m) => match m.fail_fast {
                        Some(b) => b,
                        None => true,
                    },
                    None => true,
                },
            },
            None => true,
        }
    }

    /// `max-parallel`: the strategy's own setting wins, then the matrix's.
    pub fn max_parallel(&self) -> (r: Option<usize>)
        ensures
            r == (match self.strategy {
                Some(s) => match s.max_parallel {
                    Some(n) => Some(n),
                    None => match s.matrix {
                        Some(m) => m.max_parallel,
                        None => None,
                    },
                },
                None => None,
            }),
    {
        match &self.strategy {
            Some(s) => match s.max_parallel {
                Some(n) => Some(n),
                None => match &s.matrix {
                    Some(m) => m.max_parallel,
                    None => None,
                },
            },
            None => None,
        }
    }
}

impl Step {
    /// A step that runs a shell command, every optional field unset.
    pub fn with_run(name: String, run: String) -> (s: Step)
        ensures
            s.name == Some(name),
            s.run == Some(run),
            s.uses is None,
            s.with is None,
            s.env@ == Map::<Seq<char>, String>::empty(),
            s.continue_on_error is None,
            s.if_condition is None,
            s.id is None,
            s.working_directory is None,
            s.shell is None,
    {
        Step {
            name: Some(name),
            uses: None,
            run: Some(run),
            with: None,
            env: StrMap::new(),
            continue_on_error: None,
            if_condition: None,
            id: None,
            working_directory: None,
            shell: None,
        }
    }
}

/// A parsed `uses:` reference.
pub struct ActionInfo {
    /// `owner/repo`, the Docker image reference, or the local path.
    pub repository: String,
    /// The git ref; empty for Docker and local actions, `main` when omitted.
    pub version: String,
    /// The path inside the repository, for `owner/repo/path@ref`.
    pub sub_path: Option<String>,
    pub is_docker: bool,
    pub is_local: bool,
}

/// How a `uses:` reference reads: (repository, version, sub-path, docker, local).
pub open spec fn action_ref_parts(r: Seq<char>) -> (Seq<char>, Seq<char>, Option<Seq<char>>, bool, bool) {
    if has_prefix(r, "docker://"@) {
        (r, Seq::empty(), None, true, false)
    } else if has_prefix(r, "./"@) {
        (r, Seq::empty(), None, false, true)
    } else {
        let (full, version) = match find_char(r, '@', 0) {
            Some(k) => (r.take(k), r.skip(k + 1)),
            None => (r, "main"@),
        };
        match find_char(full, '/', 0) {
            Some(k1) => match find_char(full, '/', k1 + 1) {
                Some(k2) => (full.take(k2), version, Some(full.skip(k2 + 1)), false, false),
                None => (full, version, None, false, false),
            },
            None => (full, version, None, false, false),
        }
    }
}

/// Position of the first `c` in `s` at or after `from`.
fn find_char_from(s: &Vec<char>, c: char, from: usize) -> (r: Option<usize>)
    ensures
        match r {
            Some(k) => find_char(s@, c, from as int) == Some(k as int) && from <= k < s@.len(),
            None => find_char(s@, c, from as int) is None,
        },
{
    let mut j = from;
    while j < s.len()
        invariant
            from <= j,
            find_char(s@, c, from as int) == find_char(s@, c, j as int),
        decreases s.len() - j,
    {
        if s[j] == c {
            return Some(j);
        }
        j = j + 1;
    }
    None
}

impl WorkflowDefinition {
    /// Splits a `uses:` reference into repository, version and sub-path
    /// (see [`action_ref_parts`]); Docker and local references stay whole.
    pub fn resolve_action(&self, action_ref: &str) -> (a: ActionInfo)
        ensures
            ({
                let (repo, version, sub, docker, local) = action_ref_parts(action_ref@);
                &&& a.repository@ == repo
                &&& a.version@ == version
                &&& match a.sub_path { Some(p) => sub == Some(p@), None => sub is None }
                &&& a.is_docker == docker
                &&& a.is_local == local
            }),
    {
        if str_starts_with(action_ref, "docker://") {
            return ActionInfo { repository: owned(action_ref), version: String::new(), sub_path: None, is_docker: true, is_local: false };
        }
        if str_starts_with(action_ref, "./") {
            return ActionInfo { repository: owned(action_ref), version: String::new(), sub_path: None, is_docker: false, is_local: true };
        }
        let r = chars_of(action_ref);
        let n = r.len();
        let (full, version): (Vec<char>, String) = match find_char_from(&r, '@', 0) {
            Some(k) => (slice_range(&r, 0, k), string_of(&slice_range(&r, k + 1, n))),
            None => (slice_range(&r, 0, n), owned("main")),
        };
        assert(r@.subrange(0, n as int) =~= r@);
        let m = full.len();
        match find_char_from(&full, '/', 0) {
            Some(k1) => match find_char_from(&full, '/', k1 + 1) {
                Some(k2) => ActionInfo {
                    repository: string_of(&slice_range(&full, 0, k2)),
                    version,
                    sub_path: Some(string_of(&slice_range(&full, k2 + 1, m))),
                    is_docker: false,
                    is_local: false,
                },
                None => ActionInfo { repository: string_of(&full), version, sub_path: None, is_docker: false, is_local: false },
            },
            None => ActionInfo { repository: string_of(&full), version, sub_path: None, is_docker: false, is_local: false },
        }
    }
}

/// The shape of a workflow's `on:` value.
pub enum Triggers {
    /// `on: push`.
    Single(String),
    /// `on: [push, pull_request]`; entries that are not strings are `None`.
    List(Vec<Option<String>>),
    /// `on: {push: ...}`; keys that are not strings are `None`.
    Mapping(Vec<Option<String>>),
    /// Anything else.
    Invalid,
}

/// The string entries of a list, in order.
pub open spec fn string_entries(v: Seq<Option<String>>) -> Seq<Seq<char>>
    decreases v.len(),
{
    if v.len() == 0 {
        Seq::empty()
    } else {
        let r = string_entries(v.drop_last());
        match v.last() {
            Some(s) => r.push(s@),
            None => r,
        }
    }
}

fn string_entries_exec(v: &Vec<Option<String>>) -> (r: Vec<String>)
    ensures
        str_seq(r@) == string_entries(v@),
{
    let mut r: Vec<String> = Vec::new();
    let mut i: usize = 0;
    while i < v.len()
        invariant
            i <= v@.len(),
            str_seq(r@) == string_entries(v@.take(i as int)),
        decreases v.len() - i,
    {
        assert(v@.take(i + 1).drop_last() =~= v@.take(i as int));
        match &v[i] {
            Some(s) => {
                let ghost before = r@;
                r.push(s.clone());
                assert(str_seq(r@) =~= str_seq(before).push(s@));
            },
            None => {},
        }
        i = i + 1;
    }
    assert(v@.take(v@.len() as int) =~= v@);
    r
}

/// The event names a workflow triggers on.
pub fn normalize_triggers(on: &Triggers) -> (r: Result<Vec<String>, String>)
    ensures
        match on {
            Triggers::Single(e) => r matches Ok(v) && str_seq(v@) == seq![e@],
            Triggers::List(v) => r matches Ok(t) && str_seq(t@) == string_entries(v@),
            Triggers::Mapping(v) => r matches Ok(t) && str_seq(t@) == string_entries(v@),
            Triggers::Invalid => r matches Err(m) && m@ == "'on' section has invalid format"@,
        },
{
    match on {
        Triggers::Single(e) => {
            let mut v: Vec<String> = Vec::new();
            v.push(e.clone());
            assert(str_seq(v@) =~= seq![e@]);
            Ok(v)
        },
        Triggers::List(v) => Ok(string_entries_exec(v)),
        Triggers::Mapping(v) => Ok(string_entries_exec(v)),
        Triggers::Invalid => Err(owned("'on' section has invalid format")),
    }
}

} // verus!
