//! Path checks for action references, Dockerfile locations and volume
//! mounts: no component may lead out of its directory.
use vstd::prelude::*;
use crate::text::{chars_of, has_prefix, owned, push_all, push_str, string_of, slice_range, str_eq, field, field_exec, count_char, count_char_exec, views};
use crate::strmap::{StrMap, str_view, insert_str};

verus! {

/// A path separator; the backslash counts only when `back` is set.
pub open spec fn is_sep(c: char, back: bool) -> bool {
    c == '/' || (back && c == '\\')
}

/// The component starting at `i` is exactly `..`.
pub open spec fn dotdot_at(s: Seq<char>, i: int, back: bool) -> bool {
    &&& 0 <= i && i + 2 <= s.len()
    &&& s[i] == '.' && s[i + 1] == '.'
    &&& (i == 0 || is_sep(s[i - 1], back))
    &&& (i + 2 == s.len() || is_sep(s[i + 2], back))
}

/// Some component of `s` is exactly `..`.
pub open spec fn has_dotdot(s: Seq<char>, back: bool) -> bool {
    exists|i: int| dotdot_at(s, i, back)
}

/// `s` holds the NUL character.
pub open spec fn has_nul(s: Seq<char>) -> bool {
    exists|i: int| 0 <= i < s.len() && s[i] == '\0'
}

fn is_sep_exec(c: char, back: bool) -> (r: bool)
    ensures
        r == is_sep(c, back),
{
    c == '/' || (back && c == '\\')
}

/// Whether some component of `s` is exactly `..`.
pub fn has_dotdot_exec(s: &Vec<char>, back: bool) -> (r: bool)
    ensures
        r == has_dotdot(s@, back),
{
    let n = s.len();
    let mut i: usize = 0;
    while n >= 2 && i <= n - 2
        invariant
            n == s@.len(),
            forall|j: int| 0 <= j < i ==> !dotdot_at(s@, j, back),
        decreases n - i,
    {
        if s[i] == '.' && s[i + 1] == '.' && (i == 0 || is_sep_exec(s[i - 1], back))
            && (i + 2 == n || is_sep_exec(s[i + 2], back)) {
            assert(dotdot_at(s@, i as int, back));
            return true;
        }
        i = i + 1;
    }
    assert forall|j: int| !dotdot_at(s@, j, back) by {
        if j >= i {
            assert(n < 2 || i > n - 2);
        }
    }
    false
}

fn has_nul_exec(s: &Vec<char>) -> (r: bool)
    ensures
        r == has_nul(s@),
{
    let mut i: usize = 0;
    while i < s.len()
        invariant
            i <= s@.len(),
            forall|j: int| 0 <= j < i ==> s@[j] != '\0',
        decreases s.len() - i,
    {
        if s[i] == '\0' {
            return true;
        }
        i = i + 1;
    }
    false
}

/// Whether a host path leads out of its directory: one of its `/`-separated
/// components is `..`.
pub fn has_path_traversal(host_path: &str) -> (r: bool)
    ensures
        r == has_dotdot(host_path@, false),
{
    let v = chars_of(host_path);
    has_dotdot_exec(&v, false)
}

/// Checks the sub-path of an action reference: no NUL and no `..`
/// component, with `/` and `\` both taken as separators.
pub fn sanitize_sub_path(raw: &str) -> (r: Result<(), String>)
    ensures
        match r {
            Ok(()) => !has_nul(raw@) && !has_dotdot(raw@, true),
            Err(m) => if has_nul(raw@) {
                m@ == "null byte not allowed in sub_path"@
            } else {
                has_dotdot(raw@, true) && m@ == "path traversal not allowed in sub_path: "@ + raw@
            },
        },
{
    let v = chars_of(raw);
    if has_nul_exec(&v) {
        return Err(owned("null byte not allowed in sub_path"));
    }
    if has_dotdot_exec(&v, true) {
        let mut m = owned("path traversal not allowed in sub_path: ");
        push_str(&mut m, raw);
        return Err(m);
    }
    Ok(())
}

/// `s` with every leading repetition of `p` removed (`trim_start_matches`).
pub open spec fn strip_all(s: Seq<char>, p: Seq<char>) -> Seq<char>
    decreases s.len(),
{
    if p.len() > 0 && has_prefix(s, p) {
        strip_all(s.subrange(p.len() as int, s.len() as int), p)
    } else {
        s
    }
}

/// Removes every leading repetition of a non-empty `p`.
pub fn strip_all_exec(s: &Vec<char>, p: &Vec<char>) -> (r: Vec<char>)
    requires
        p@.len() > 0,
    ensures
        r@ == strip_all(s@, p@),
{
    let mut i: usize = 0;
    let ghost g = s@;
    assert(g.subrange(0, g.len() as int) =~= g);
    while p.len() <= s.len() - i && crate::text::occurs_at_exec(s, p, i)
        invariant
            i <= s@.len(),
            p@.len() > 0,
            strip_all(g, p@) == strip_all(g.subrange(i as int, g.len() as int), p@),
            g == s@,
        decreases s.len() - i,
    {
        proof {
            let t = g.subrange(i as int, g.len() as int);
            assert(t.subrange(0, p@.len() as int) =~= g.subrange(i as int, i + p@.len()));
            assert(has_prefix(t, p@));
            assert(t.subrange(p@.len() as int, t.len() as int) =~= g.subrange(i + p@.len(), g.len() as int));
        }
        i = i + p.len();
    }
    proof {
        let t = g.subrange(i as int, g.len() as int);
        if has_prefix(t, p@) {
            assert(t.subrange(0, p@.len() as int) =~= g.subrange(i as int, i + p@.len()));
        }
    }
    slice_range(s, i, s.len())
}

/// The relative Dockerfile path of `runs.image`: `docker://`, `/` and `./`
/// prefixes removed in that order.
pub open spec fn dockerfile_rel(raw: Seq<char>) -> Seq<char> {
    strip_all(strip_all(strip_all(raw, "docker://"@), "/"@), "./"@)
}

/// Checks and normalises the Dockerfile path of a Docker action.
pub fn sanitize_dockerfile_rel(raw: &str) -> (r: Result<String, String>)
    ensures
        match r {
            Ok(p) => !has_nul(raw@) && dockerfile_rel(raw@).len() > 0 && !has_dotdot(dockerfile_rel(raw@), true)
                && p@ == dockerfile_rel(raw@),
            Err(m) => if has_nul(raw@) {
                m@ == "null byte not allowed in Dockerfile path"@
            } else if dockerfile_rel(raw@).len() == 0 {
                m@ == "empty Dockerfile path"@
            } else {
                has_dotdot(dockerfile_rel(raw@), true) && m@ == "path traversal not allowed: "@ + dockerfile_rel(raw@)
            },
        },
{
    let v = chars_of(raw);
    if has_nul_exec(&v) {
        return Err(owned("null byte not allowed in Dockerfile path"));
    }
    let docker = chars_of("docker://");
    let slash = chars_of("/");
    let dot_slash = chars_of("./");
    proof {
        reveal_strlit("docker://");
        reveal_strlit("/");
        reveal_strlit("./");
    }
    let a = strip_all_exec(&v, &docker);
    let b = strip_all_exec(&a, &slash);
    let t = strip_all_exec(&b, &dot_slash);
    if t.len() == 0 {
        return Err(owned("empty Dockerfile path"));
    }
    if has_dotdot_exec(&t, true) {
        let mut m = owned("path traversal not allowed: ");
        push_all(&mut m, &t);
        return Err(m);
    }
    Ok(string_of(&t))
}

/// Where a volume spec mounts: `host:container[:options]`, or one path
/// mounted at the same place; `None` when it is skipped (empty, a host path
/// with a `..` component, or an empty host or container part).
pub open spec fn volume_mount(spec: Seq<char>) -> Option<(Seq<char>, Seq<char>)> {
    let host = field(spec, ':', 0)->0;
    if spec.len() == 0 || has_dotdot(host, false) {
        None
    } else if count_char(spec, ':') == 0 {
        Some((spec, spec))
    } else {
        let container = field(spec, ':', 1)->0;
        if host.len() == 0 || container.len() == 0 { None } else { Some((host, container)) }
    }
}

proof fn lemma_field_zero(s: Seq<char>, c: char)
    ensures
        field(s, c, 0) is Some,
{
}

proof fn lemma_field_one(s: Seq<char>, c: char)
    ensures
        count_char(s, c) > 0 ==> field(s, c, 1) is Some,
{
    crate::text::lemma_find_char(s, c, 0);
    if count_char(s, c) > 0 {
        lemma_count_find(s, c);
        let k = crate::text::find_char(s, c, 0)->0;
        lemma_field_zero(s.skip(k + 1), c);
    }
}

proof fn lemma_count_find(s: Seq<char>, c: char)
    requires
        count_char(s, c) > 0,
    ensures
        crate::text::find_char(s, c, 0) is Some,
{
    if crate::text::find_char(s, c, 0) is None {
        lemma_no_find_no_count(s, c);
    }
}

proof fn lemma_no_find_no_count(s: Seq<char>, c: char)
    requires
        crate::text::find_char(s, c, 0) is None,
    ensures
        count_char(s, c) == 0,
{
    lemma_find_none_all(s, c, 0);
    lemma_count_zero(s, c);
}

proof fn lemma_find_none_all(s: Seq<char>, c: char, i: int)
    requires
        0 <= i,
        crate::text::find_char(s, c, i) is None,
    ensures
        forall|j: int| i <= j < s.len() ==> s[j] != c,
    decreases s.len() - i,
{
    if i < s.len() {
        lemma_find_none_all(s, c, i + 1);
    }
}

proof fn lemma_count_zero(s: Seq<char>, c: char)
    requires
        forall|j: int| 0 <= j < s.len() ==> s[j] != c,
    ensures
        count_char(s, c) == 0,
    decreases s.len(),
{
    if s.len() > 0 {
        let p = s.drop_last();
        assert forall|j: int| 0 <= j < p.len() implies p[j] != c by {
            assert(p[j] == s[j]);
        }
        lemma_count_zero(p, c);
    }
}

/// Reads a volume spec (see [`volume_mount`]).
pub fn parse_volume_spec(spec: &str) -> (r: Option<(String, String)>)
    ensures
        match r {
            Some((h, c)) => volume_mount(spec@) == Some((h@, c@)),
            None => volume_mount(spec@) is None,
        },
{
    let v = chars_of(spec);
    if v.len() == 0 {
        return None;
    }
    proof {
        lemma_field_zero(v@, ':');
        lemma_field_one(v@, ':');
    }
    let host_v = match field_exec(&v, ':', 0) {
        Some(h) => h,
        None => return None,
    };
    if has_dotdot_exec(&host_v, false) {
        return None;
    }
    if count_char_exec(&v, ':') == 0 {
        let s = owned(spec);
        return Some((owned(spec), s));
    }
    let cont_v = match field_exec(&v, ':', 1) {
        Some(c) => c,
        None => return None,
    };
    if host_v.len() == 0 || cont_v.len() == 0 {
        return None;
    }
    Some((string_of(&host_v), string_of(&cont_v)))
}

/// The host and container paths of the volumes a container declares, in
/// order, skipping the specs that [`volume_mount`] refuses.
pub open spec fn volume_mounts(specs: Seq<Seq<char>>) -> Seq<(Seq<char>, Seq<char>)>
    decreases specs.len(),
{
    if specs.len() == 0 {
        Seq::empty()
    } else {
        let prev = volume_mounts(specs.drop_last());
        match volume_mount(specs.last()) {
            Some(m) => prev.push(m),
            None => prev,
        }
    }
}

/// The views of a list of path pairs.
pub open spec fn pair_views(v: Seq<(String, String)>) -> Seq<(Seq<char>, Seq<char>)> {
    v.map_values(|p: (String, String)| (p.0@, p.1@))
}

/// Collects the mounts of a container's volume specs (see [`volume_mounts`]).
pub fn collect_volume_mounts(specs: &Vec<String>) -> (r: Vec<(String, String)>)
    ensures
        pair_views(r@) == volume_mounts(views(specs@)),
{
    let mut r: Vec<(String, String)> = Vec::new();
    let mut i: usize = 0;
    while i < specs.len()
        invariant
            i <= specs@.len(),
            pair_views(r@) == volume_mounts(views(specs@).take(i as int)),
        decreases specs.len() - i,
    {
        assert(views(specs@).take(i + 1).drop_last() =~= views(specs@).take(i as int));
        assert(views(specs@).take(i + 1).last() == specs@[i as int]@);
        match parse_volume_spec(specs[i].as_str()) {
            Some(m) => {
                let ghost before = r@;
                let ghost mv = (m.0@, m.1@);
                r.push(m);
                assert(pair_views(r@) =~= pair_views(before).push(mv));
            },
            None => {},
        }
        i = i + 1;
    }
    assert(views(specs@).take(specs@.len() as int) =~= views(specs@));
    r
}

/// The parent of a path, as `Path::parent` gives it.
pub uninterp spec fn path_parent(p: Seq<char>) -> Option<Seq<char>>;

/// The last component of a path, as `Path::file_name` gives it.
pub uninterp spec fn path_file_name(p: Seq<char>) -> Option<Seq<char>>;

/// Calls `Path::parent`; its result is named by [`path_parent`].
#[verifier::external_body]
fn parent_of(p: &str) -> (r: Option<String>)
    ensures
        match r {
            Some(q) => path_parent(p@) == Some(q@),
            None => path_parent(p@) is None,
        },
{
    std::path::Path::new(p).parent().map(|q| q.to_string_lossy().into_owned())
}

/// Calls `Path::file_name`; its result is named by [`path_file_name`].
#[verifier::external_body]
fn file_name_of(p: &str) -> (r: Option<String>)
    ensures
        match r {
            Some(q) => path_file_name(p@) == Some(q@),
            None => path_file_name(p@) is None,
        },
{
    std::path::Path::new(p).file_name().map(|q| q.to_string_lossy().into_owned())
}

/// The environment files whose paths are remapped into the container.
pub open spec fn github_file_keys() -> Seq<Seq<char>> {
    seq!["GITHUB_ENV"@, "GITHUB_OUTPUT"@, "GITHUB_PATH"@, "GITHUB_STEP_SUMMARY"@]
}

/// The step environment after remapping the environment files under
/// `/github/workflow` (keys present in the job environment and with a file
/// name only).
pub open spec fn remap_env_files(env: Map<Seq<char>, Seq<char>>, job_env: Map<Seq<char>, Seq<char>>, keys: Seq<Seq<char>>) -> Map<Seq<char>, Seq<char>>
    decreases keys.len(),
{
    if keys.len() == 0 {
        env
    } else {
        let prev = remap_env_files(env, job_env, keys.drop_last());
        let k = keys.last();
        if job_env.dom().contains(k) {
            match path_file_name(job_env[k]) {
                Some(f) => prev.insert(k, "/github/workflow/"@ + f),
                None => prev,
            }
        } else {
            prev
        }
    }
}

/// The mount for the environment files' directory and, under a container
/// runtime, the remapped step environment.
pub open spec fn github_mount(step_env: Map<Seq<char>, Seq<char>>, job_env: Map<Seq<char>, Seq<char>>) -> (Map<Seq<char>, Seq<char>>, Option<(Seq<char>, Seq<char>)>) {
    let in_container = step_env.dom().contains("WRKFLW_RUNTIME_MODE"@)
        && (step_env["WRKFLW_RUNTIME_MODE"@] == "docker"@ || step_env["WRKFLW_RUNTIME_MODE"@] == "podman"@);
    if job_env.dom().contains("GITHUB_ENV"@) {
        match path_parent(job_env["GITHUB_ENV"@]) {
            Some(dir) => if in_container {
                (remap_env_files(step_env, job_env, github_file_keys()), Some((dir, "/github/workflow"@)))
            } else {
                (step_env, match path_parent(dir) { Some(p) => Some((p, p)), None => None })
            },
            None => (step_env, None),
        }
    } else {
        (step_env, None)
    }
}

/// Prepares the mounts of a step's container: the environment files'
/// directory (see [`github_mount`], which also remaps the step environment)
/// and the container's declared volumes (see [`volume_mounts`]).
pub fn prepare_container_mounts(step_env: &mut StrMap<String>, job_env: &StrMap<String>, container_config: Option<&crate::workflow::JobContainer>) -> (r: (Vec<(String, String)>, Option<(String, String)>))
    ensures
        ({
            let (env, mount) = github_mount(str_view(old(step_env)@), str_view(job_env@));
            &&& str_view(final(step_env)@) == env
            &&& match r.1 { Some((h, c)) => mount == Some((h@, c@)), None => mount is None }
            &&& pair_views(r.0@) == declared_mounts(container_config)
        }),
{
    let volumes = match container_config {
        Some(c) => match &c.volumes { Some(v) => Some(v), None => None },
        None => None,
    };
    mounts_for(step_env, job_env, volumes)
}

/// The mounts of a container's declared volumes; none without a container.
pub open spec fn declared_mounts(container_config: Option<&crate::workflow::JobContainer>) -> Seq<(Seq<char>, Seq<char>)> {
    match container_config {
        Some(c) => match c.volumes { Some(v) => volume_mounts(views(v@)), None => Seq::empty() },
        None => Seq::empty(),
    }
}

fn mounts_for(step_env: &mut StrMap<String>, job_env: &StrMap<String>, volumes: Option<&Vec<String>>) -> (r: (Vec<(String, String)>, Option<(String, String)>))
    ensures
        ({
            let (env, mount) = github_mount(str_view(old(step_env)@), str_view(job_env@));
            &&& str_view(final(step_env)@) == env
            &&& match r.1 { Some((h, c)) => mount == Some((h@, c@)), None => mount is None }
            &&& pair_views(r.0@) == match volumes { Some(v) => volume_mounts(views(v@)), None => Seq::empty() }
        }),
{
    let ghost env0 = str_view(step_env@);
    let ghost je = str_view(job_env@);
    let in_container = match step_env.get("WRKFLW_RUNTIME_MODE") {
        Some(m) => str_eq(m.as_str(), "docker") || str_eq(m.as_str(), "podman"),
        None => false,
    };
    let mount: Option<(String, String)> = match job_env.get("GITHUB_ENV") {
        Some(env_path) => match parent_of(env_path.as_str()) {
            Some(dir) => {
                if in_container {
                    let mut i: usize = 0;
                    let keys: [&str; 4] = ["GITHUB_ENV", "GITHUB_OUTPUT", "GITHUB_PATH", "GITHUB_STEP_SUMMARY"];
                    let ghost ks = github_file_keys();
                    assert(keys@.map_values(|k: &str| k@) =~= ks);
                    while i < 4
                        invariant
                            i <= 4,
                            ks == github_file_keys(),
                            keys@.map_values(|k: &str| k@) == ks,
                            keys@.len() == 4,
                            je == str_view(job_env@),
                            str_view(step_env@) == remap_env_files(env0, je, ks.take(i as int)),
                        decreases 4 - i,
                    {
                        let k = keys[i];
                        assert(ks[i as int] == k@);
                        assert(ks.take(i + 1).drop_last() =~= ks.take(i as int));
                        assert(ks.take(i + 1).last() == k@);
                        match job_env.get(k) {
                            Some(host) => match file_name_of(host.as_str()) {
                                Some(f) => {
                                    let mut v = owned("/github/workflow/");
                                    push_str(&mut v, f.as_str());
                                    insert_str(step_env, k, v);
                                },
                                None => {},
                            },
                            None => {},
                        }
                        i = i + 1;
                    }
                    assert(ks.take(4) =~= ks);
                    Some((dir, owned("/github/workflow")))
                } else {
                    match parent_of(dir.as_str()) {
                        Some(p) => {
                            let q = p.clone();
                            Some((p, q))
                        },
                        None => None,
                    }
                }
            },
            None => None,
        },
        None => None,
    };
    let mounts = match volumes {
        Some(v) => collect_volume_mounts(v),
        None => {
            let e: Vec<(String, String)> = Vec::new();
            assert(pair_views(e@) =~= Seq::<(Seq<char>, Seq<char>)>::empty());
            e
        },
    };
    (mounts, mount)
}

/// The mounts of a step's container, owned until the run is set up.
pub struct StepContainerContext {
    pub owned_volume_paths: Vec<(String, String)>,
    pub github_mount: Option<(String, String)>,
}

/// Sets up a step's container mounts (see [`prepare_container_mounts`]).
pub fn prepare_step_container_context(step_env: &mut StrMap<String>, job_env: &StrMap<String>, container: Option<&crate::workflow::JobContainer>) -> (r: StepContainerContext)
    ensures
        ({
            let (env, mount) = github_mount(str_view(old(step_env)@), str_view(job_env@));
            &&& str_view(final(step_env)@) == env
            &&& match r.github_mount { Some((h, c)) => mount == Some((h@, c@)), None => mount is None }
            &&& pair_views(r.owned_volume_paths@) == declared_mounts(container)
        }),
{
    let (owned_volume_paths, github_mount) = prepare_container_mounts(step_env, job_env, container);
    StepContainerContext { owned_volume_paths, github_mount }
}

impl StepContainerContext {
    /// The volumes of the run: the workspace first, then the environment
    /// files' directory when there is one, then the declared volumes.
    pub fn build_volumes(&self, working_dir: &str, container_workspace: &str) -> (r: Vec<(String, String)>)
        ensures
            pair_views(r@) == seq![(working_dir@, container_workspace@)]
                + (match self.github_mount { Some((h, c)) => seq![(h@, c@)], None => Seq::empty() })
                + pair_views(self.owned_volume_paths@),
    {
        let mut r: Vec<(String, String)> = Vec::new();
        r.push((owned(working_dir), owned(container_workspace)));
        match &self.github_mount {
            Some((h, c)) => r.push((owned(h.as_str()), owned(c.as_str()))),
            None => {},
        }
        let ghost head = pair_views(r@);
        let mut i: usize = 0;
        while i < self.owned_volume_paths.len()
            invariant
                i <= self.owned_volume_paths@.len(),
                pair_views(r@) == head + pair_views(self.owned_volume_paths@.take(i as int)),
            decreases self.owned_volume_paths.len() - i,
        {
            let (h, c) = &self.owned_volume_paths[i];
            let ghost before = r@;
            r.push((owned(h.as_str()), owned(c.as_str())));
            assert(pair_views(r@) =~= pair_views(before).push((h@, c@)));
            assert(pair_views(self.owned_volume_paths@.take(i + 1)) =~= pair_views(self.owned_volume_paths@.take(i as int)).push((h@, c@)));
            assert(pair_views(r@) =~= head + pair_views(self.owned_volume_paths@.take(i + 1)));
            i = i + 1;
        }
        assert(self.owned_volume_paths@.take(self.owned_volume_paths@.len() as int) =~= self.owned_volume_paths@);
        assert(pair_views(r@) =~= seq![(working_dir@, container_workspace@)]
                + (match self.github_mount { Some((h, c)) => seq![(h@, c@)], None => Seq::<(Seq<char>, Seq<char>)>::empty() })
                + pair_views(self.owned_volume_paths@));
        r
    }
}

/// Whether checkout copies an entry of the project directory by its name:
/// hidden entries are left out, except `.gitignore`, `.github` and the
/// `.env*` files.
pub fn is_copied_name(file_name: &str) -> (r: bool)
    ensures
        r == (!has_prefix(file_name@, "."@) || file_name@ == ".gitignore"@ || file_name@ == ".github"@ || has_prefix(file_name@, ".env"@)),
{
    !crate::text::str_starts_with(file_name, ".") || str_eq(file_name, ".gitignore") || str_eq(file_name, ".github")
        || crate::text::str_starts_with(file_name, ".env")
}

} // verus!
