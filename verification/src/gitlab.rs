//! GitLab CI pipelines: structural checks, the stage-by-stage execution
//! plan, the run environment, and conversion into the workflow model.
use vstd::prelude::*;
use crate::strmap::{StrMap, str_view, insert_str};
use crate::text::{chars_of, contains_seq, contains, decimal, decimal_chars, has_suffix, owned, push_all, push_str, str_eq, str_ends_with, views, vec_contains};
use crate::workflow::{Job, Service, Step, WorkflowDefinition, str_seq};

verus! {

/// A job of a GitLab pipeline, as far as the runner reads it.
pub struct GitlabJob {
    pub stage: Option<String>,
    pub script: Option<Vec<String>>,
    pub before_script: Option<Vec<String>>,
    pub after_script: Option<Vec<String>>,
    pub extends: Option<Vec<String>>,
    pub dependencies: Option<Vec<String>>,
    pub variables: Option<StrMap<String>>,
    /// The image names of the job's services.
    pub services: Option<Vec<String>>,
    pub template: Option<bool>,
}

/// A GitLab pipeline, as far as the runner reads it.
pub struct Pipeline {
    pub stages: Option<Vec<String>>,
    pub variables: Option<StrMap<String>>,
    pub jobs: StrMap<GitlabJob>,
}

/// The outcome of a structural check.
pub struct ValidationResult {
    pub is_valid: bool,
    pub issues: Vec<String>,
}

impl ValidationResult {
    /// No issues.
    pub fn new() -> (r: ValidationResult)
        ensures
            r.is_valid,
            r.issues@.len() == 0,
    {
        ValidationResult { is_valid: true, issues: Vec::new() }
    }

    /// Records an issue; the result is then not valid.
    pub fn add_issue(&mut self, issue: String)
        ensures
            !final(self).is_valid,
            final(self).issues@ == old(self).issues@.push(issue),
    {
        self.is_valid = false;
        self.issues.push(issue);
    }
}

/// A template job (a hidden job that others extend).
pub open spec fn is_template(j: GitlabJob) -> bool {
    j.template == Some(true)
}

/// The names of an optional list (empty when absent).
pub open spec fn opt_names(v: Option<Vec<String>>) -> Seq<Seq<char>> {
    match v {
        Some(v) => views(v@),
        None => Seq::empty(),
    }
}

/// One issue per name of `refs` that is not a job: `Job 'name' <verb> undefined job 'ref'`.
pub open spec fn undefined_refs(name: Seq<char>, verb: Seq<char>, refs: Seq<Seq<char>>, jobs: Set<Seq<char>>) -> Seq<Seq<char>>
    decreases refs.len(),
{
    if refs.len() == 0 {
        Seq::empty()
    } else {
        let prev = undefined_refs(name, verb, refs.drop_last(), jobs);
        if jobs.contains(refs.last()) {
            prev
        } else {
            prev.push("Job '"@ + name + "' "@ + verb + " undefined job '"@ + refs.last() + "'"@)
        }
    }
}

/// The issues of the first `n` jobs, rule `rule` (1: script, 2: stage,
/// 3: dependencies, 4: extends).
pub open spec fn rule_issues(p: Pipeline, rule: nat, n: nat) -> Seq<Seq<char>>
    decreases n,
{
    if n == 0 {
        Seq::empty()
    } else {
        let prev = rule_issues(p, rule, (n - 1) as nat);
        let name = p.jobs.key_seq()[n - 1];
        let j = p.jobs.val_seq()[n - 1];
        let more = if rule == 1 {
            if !is_template(j) && j.script is None && j.extends is None {
                seq!["Job '"@ + name + "' must have a script section or extend another job"@]
            } else {
                Seq::empty()
            }
        } else if rule == 2 {
            match (p.stages, j.stage) {
                (Some(stages), Some(stage)) => if views(stages@).contains(stage@) {
                    Seq::empty()
                } else {
                    seq!["Job '"@ + name + "' references undefined stage '"@ + stage@ + "'"@]
                },
                _ => Seq::empty(),
            }
        } else if rule == 3 {
            undefined_refs(name, "depends on"@, opt_names(j.dependencies), p.jobs@.dom())
        } else {
            undefined_refs(name, "extends"@, opt_names(j.extends), p.jobs@.dom())
        };
        prev + more
    }
}

/// All issues of a pipeline, rule by rule, each in job order.
pub open spec fn pipeline_issues(p: Pipeline) -> Seq<Seq<char>> {
    let n = p.jobs.key_seq().len();
    (if n == 0 { seq!["Pipeline must contain at least one job"@] } else { Seq::empty() })
        + rule_issues(p, 1, n) + rule_issues(p, 2, n) + rule_issues(p, 3, n) + rule_issues(p, 4, n)
}

fn add_undefined_refs(result: &mut ValidationResult, name: &String, verb: &str, refs: &Vec<String>, jobs: &StrMap<GitlabJob>)
    ensures
        views(final(result).issues@) == views(old(result).issues@) + undefined_refs(name@, verb@, views(refs@), jobs@.dom()),
        final(result).is_valid == (old(result).is_valid && undefined_refs(name@, verb@, views(refs@), jobs@.dom()).len() == 0),
{
    let ghost start = views(result.issues@);
    let ghost v0 = result.is_valid;
    let mut i: usize = 0;
    while i < refs.len()
        invariant
            i <= refs@.len(),
            views(result.issues@) == start + undefined_refs(name@, verb@, views(refs@).take(i as int), jobs@.dom()),
            result.is_valid == (v0 && undefined_refs(name@, verb@, views(refs@).take(i as int), jobs@.dom()).len() == 0),
        decreases refs.len() - i,
    {
        let ghost rs = views(refs@).take(i + 1);
        assert(rs.drop_last() =~= views(refs@).take(i as int));
        assert(rs.last() == refs@[i as int]@);
        if !jobs.contains_key(refs[i].as_str()) {
            let mut m = owned("Job '");
            push_str(&mut m, name.as_str());
            push_str(&mut m, "' ");
            push_str(&mut m, verb);
            push_str(&mut m, " undefined job '");
            push_str(&mut m, refs[i].as_str());
            push_str(&mut m, "'");
            let ghost before = result.issues@;
            let ghost mv = m@;
            result.add_issue(m);
            assert(views(result.issues@) =~= views(before).push(mv));
        }
        i = i + 1;
    }
    assert(views(refs@).take(refs@.len() as int) =~= views(refs@));
}

/// Checks the structure of a pipeline: it has a job; every job that is not
/// a template has a script or extends another job; every stage, dependency
/// and extended job that a job names exists.
pub fn validate_pipeline_structure(pipeline: &Pipeline) -> (r: ValidationResult)
    ensures
        views(r.issues@) == pipeline_issues(*pipeline),
        r.is_valid == (pipeline_issues(*pipeline).len() == 0),
{
    let mut result = ValidationResult::new();
    let n = pipeline.jobs.len();
    if n == 0 {
        result.add_issue(owned("Pipeline must contain at least one job"));
    }
    let ghost head = views(result.issues@);
    assert(head =~= (if n == 0 { seq!["Pipeline must contain at least one job"@] } else { Seq::<Seq<char>>::empty() }));
    let mut rule: usize = 1;
    while rule <= 4
        invariant
            1 <= rule <= 5,
            n == pipeline.jobs.key_seq().len(),
            views(result.issues@) == head
                + (if rule > 1 { rule_issues(*pipeline, 1, n as nat) } else { Seq::empty() })
                + (if rule > 2 { rule_issues(*pipeline, 2, n as nat) } else { Seq::empty() })
                + (if rule > 3 { rule_issues(*pipeline, 3, n as nat) } else { Seq::empty() })
                + (if rule > 4 { rule_issues(*pipeline, 4, n as nat) } else { Seq::empty() }),
            result.is_valid == (views(result.issues@).len() == 0),
        decreases 5 - rule,
    {
        let ghost before_rule = views(result.issues@);
        let mut i: usize = 0;
        while i < n
            invariant
                i <= n,
                1 <= rule <= 4,
                n == pipeline.jobs.key_seq().len(),
                views(result.issues@) == before_rule + rule_issues(*pipeline, rule as nat, i as nat),
                result.is_valid == (views(result.issues@).len() == 0),
            decreases n - i,
        {
            let (name, job) = pipeline.jobs.entry(i);
            let ghost prev = views(result.issues@);
            if rule == 1 {
                let tmpl = match job.template { Some(t) => t, None => false };
                if !tmpl && job.script.is_none() && job.extends.is_none() {
                    let mut m = owned("Job '");
                    push_str(&mut m, name.as_str());
                    push_str(&mut m, "' must have a script section or extend another job");
                    let ghost mv = m@;
                    let ghost b = result.issues@;
                    result.add_issue(m);
                    assert(views(result.issues@) =~= views(b).push(mv));
                    assert(views(result.issues@) =~= prev + seq![mv]);
                } else {
                    assert(views(result.issues@) =~= prev + Seq::<Seq<char>>::empty());
                }
            } else if rule == 2 {
                match (&pipeline.stages, &job.stage) {
                    (Some(stages), Some(stage)) => {
                        if !vec_contains(stages, stage.as_str()) {
                            let mut m = owned("Job '");
                            push_str(&mut m, name.as_str());
                            push_str(&mut m, "' references undefined stage '");
                            push_str(&mut m, stage.as_str());
                            push_str(&mut m, "'");
                            let ghost mv = m@;
                            let ghost b = result.issues@;
                            result.add_issue(m);
                            assert(views(result.issues@) =~= views(b).push(mv));
                            assert(views(result.issues@) =~= prev + seq![mv]);
                        } else {
                            assert(views(result.issues@) =~= prev + Seq::<Seq<char>>::empty());
                        }
                    },
                    _ => {
                        assert(views(result.issues@) =~= prev + Seq::<Seq<char>>::empty());
                    },
                }
            } else if rule == 3 {
                match &job.dependencies {
                    Some(deps) => add_undefined_refs(&mut result, name, "depends on", deps, &pipeline.jobs),
                    None => {
                        assert(undefined_refs(name@, "depends on"@, Seq::<Seq<char>>::empty(), pipeline.jobs@.dom()) =~= Seq::<Seq<char>>::empty());
                        assert(views(result.issues@) =~= prev + Seq::<Seq<char>>::empty());
                    },
                }
            } else {
                match &job.extends {
                    Some(ext) => add_undefined_refs(&mut result, name, "extends", ext, &pipeline.jobs),
                    None => {
                        assert(undefined_refs(name@, "extends"@, Seq::<Seq<char>>::empty(), pipeline.jobs@.dom()) =~= Seq::<Seq<char>>::empty());
                        assert(views(result.issues@) =~= prev + Seq::<Seq<char>>::empty());
                    },
                }
            }
            assert(views(result.issues@) =~= before_rule + rule_issues(*pipeline, rule as nat, (i + 1) as nat));
            i = i + 1;
        }
        rule = rule + 1;
    }
    result
}

/// The stage a job runs in (`test` when it names none).
pub open spec fn job_stage(j: GitlabJob) -> Seq<char> {
    match j.stage {
        Some(s) => s@,
        None => "test"@,
    }
}

/// The first `n` jobs, in order, that are not templates and whose stage is `stage`.
pub open spec fn stage_batch(p: Pipeline, stage: Seq<char>, n: nat) -> Seq<Seq<char>>
    decreases n,
{
    if n == 0 {
        Seq::empty()
    } else {
        let prev = stage_batch(p, stage, (n - 1) as nat);
        let j = p.jobs.val_seq()[n - 1];
        if !is_template(j) && job_stage(j) == stage { prev.push(p.jobs.key_seq()[n - 1]) } else { prev }
    }
}

/// The first `n` jobs, in order, that are not templates and name no stage.
pub open spec fn stageless_batch(p: Pipeline, n: nat) -> Seq<Seq<char>>
    decreases n,
{
    if n == 0 {
        Seq::empty()
    } else {
        let prev = stageless_batch(p, (n - 1) as nat);
        let j = p.jobs.val_seq()[n - 1];
        if !is_template(j) && j.stage is None { prev.push(p.jobs.key_seq()[n - 1]) } else { prev }
    }
}

/// The stages of a pipeline (`build`, `test`, `deploy` when it declares none).
pub open spec fn pipeline_stages(p: Pipeline) -> Seq<Seq<char>> {
    match p.stages {
        Some(s) => views(s@),
        None => seq!["build"@, "test"@, "deploy"@],
    }
}

/// The batches of the first `k` stages that have jobs.
pub open spec fn stage_batches(p: Pipeline, stages: Seq<Seq<char>>, k: nat) -> Seq<Seq<Seq<char>>>
    decreases k,
{
    if k == 0 {
        Seq::empty()
    } else {
        let prev = stage_batches(p, stages, (k - 1) as nat);
        let b = stage_batch(p, stages[k - 1], p.jobs.key_seq().len());
        if b.len() > 0 { prev.push(b) } else { prev }
    }
}

/// The execution plan of a pipeline: one batch per stage that has jobs, in
/// stage order, then the jobs that name no stage (these also run with
/// `test`, their default stage).
pub open spec fn gitlab_plan(p: Pipeline) -> Seq<Seq<Seq<char>>> {
    let stages = pipeline_stages(p);
    let batches = stage_batches(p, stages, stages.len());
    let rest = stageless_batch(p, p.jobs.key_seq().len());
    if rest.len() > 0 { batches.push(rest) } else { batches }
}

/// The views of a plan.
pub open spec fn plan_views(v: Seq<Vec<String>>) -> Seq<Seq<Seq<char>>> {
    v.map_values(|b: Vec<String>| views(b@))
}

fn stage_batch_exec(p: &Pipeline, stage: &str) -> (r: Vec<String>)
    ensures
        views(r@) == stage_batch(*p, stage@, p.jobs.key_seq().len()),
{
    let n = p.jobs.len();
    let mut r: Vec<String> = Vec::new();
    let mut i: usize = 0;
    while i < n
        invariant
            i <= n,
            n == p.jobs.key_seq().len(),
            views(r@) == stage_batch(*p, stage@, i as nat),
        decreases n - i,
    {
        let (name, job) = p.jobs.entry(i);
        let tmpl = match job.template { Some(t) => t, None => false };
        let in_stage = match &job.stage {
            Some(s) => str_eq(s.as_str(), stage),
            None => str_eq("test", stage),
        };
        if !tmpl && in_stage {
            let ghost before = r@;
            r.push(name.clone());
            assert(views(r@) =~= views(before).push(name@));
        }
        i = i + 1;
    }
    r
}

fn stageless_batch_exec(p: &Pipeline) -> (r: Vec<String>)
    ensures
        views(r@) == stageless_batch(*p, p.jobs.key_seq().len()),
{
    let n = p.jobs.len();
    let mut r: Vec<String> = Vec::new();
    let mut i: usize = 0;
    while i < n
        invariant
            i <= n,
            n == p.jobs.key_seq().len(),
            views(r@) == stageless_batch(*p, i as nat),
        decreases n - i,
    {
        let (name, job) = p.jobs.entry(i);
        let tmpl = match job.template { Some(t) => t, None => false };
        if !tmpl && job.stage.is_none() {
            let ghost before = r@;
            r.push(name.clone());
            assert(views(r@) =~= views(before).push(name@));
        }
        i = i + 1;
    }
    r
}

/// The batches in which a pipeline's jobs run (see [`gitlab_plan`]).
pub fn resolve_gitlab_dependencies(pipeline: &Pipeline) -> (r: Vec<Vec<String>>)
    ensures
        plan_views(r@) == gitlab_plan(*pipeline),
{
    let stages: Vec<String> = match &pipeline.stages {
        Some(s) => crate::tracking::copy_names(s),
        None => {
            let mut d: Vec<String> = Vec::new();
            d.push(owned("build"));
            d.push(owned("test"));
            d.push(owned("deploy"));
            assert(views(d@) =~= seq!["build"@, "test"@, "deploy"@]);
            d
        },
    };
    let ghost st = pipeline_stages(*pipeline);
    assert(views(stages@) == st);
    let mut plan: Vec<Vec<String>> = Vec::new();
    let mut k: usize = 0;
    while k < stages.len()
        invariant
            k <= stages@.len(),
            views(stages@) == st,
            plan_views(plan@) == stage_batches(*pipeline, st, k as nat),
        decreases stages.len() - k,
    {
        assert(views(stages@)[k as int] == stages@[k as int]@);
        let b = stage_batch_exec(pipeline, stages[k].as_str());
        if b.len() > 0 {
            let ghost before = plan@;
            let ghost bv = views(b@);
            plan.push(b);
            assert(plan_views(plan@) =~= plan_views(before).push(bv));
        }
        k = k + 1;
    }
    let rest = stageless_batch_exec(pipeline);
    if rest.len() > 0 {
        let ghost before = plan@;
        let ghost rv = views(rest@);
        plan.push(rest);
        assert(plan_views(plan@) =~= plan_views(before).push(rv));
    }
    plan
}

/// The variables a GitLab run starts with, then the pipeline's variables.
pub open spec fn gitlab_env(p: Pipeline, workspace: Seq<char>) -> Map<Seq<char>, Seq<char>> {
    let base = Map::<Seq<char>, Seq<char>>::empty()
        .insert("CI"@, "true"@)
        .insert("GITLAB_CI"@, "true"@)
        .insert("WRKFLW_CI"@, "true"@)
        .insert("CI_PROJECT_DIR"@, workspace)
        .insert("GITHUB_WORKSPACE"@, workspace);
    match p.variables {
        Some(v) => base.union_prefer_right(str_view(v@)),
        None => base,
    }
}

/// The environment of a GitLab run (see [`gitlab_env`]).
pub fn create_gitlab_context(pipeline: &Pipeline, workspace_dir: &str) -> (r: StrMap<String>)
    ensures
        str_view(r@) == gitlab_env(*pipeline, workspace_dir@),
{
    let mut env: StrMap<String> = StrMap::new();
    assert(str_view(env@) =~= Map::<Seq<char>, Seq<char>>::empty());
    insert_str(&mut env, "CI", owned("true"));
    insert_str(&mut env, "GITLAB_CI", owned("true"));
    insert_str(&mut env, "WRKFLW_CI", owned("true"));
    insert_str(&mut env, "CI_PROJECT_DIR", owned(workspace_dir));
    insert_str(&mut env, "GITHUB_WORKSPACE", owned(workspace_dir));
    let ghost base = str_view(env@);
    match &pipeline.variables {
        Some(vars) => {
            let n = vars.len();
            let mut i: usize = 0;
            proof { use_type_invariant(vars); vars.lemma_wf(); }
            while i < n
                invariant
                    i <= n,
                    n == vars.key_seq().len(),
                    vars.key_seq().no_duplicates(),
                    forall|t: int| 0 <= t < vars.key_seq().len() ==> #[trigger] vars@[vars.key_seq()[t]] == vars.val_seq()[t],
                    vars.key_seq().to_set() == vars@.dom(),
                    str_view(env@) == base.union_prefer_right(str_view(vars@).restrict(vars.key_seq().take(i as int).to_set())),
                decreases n - i,
            {
                let (k, v) = vars.entry(i);
                let ghost before = str_view(env@);
                insert_str(&mut env, k.as_str(), v.clone());
                proof {
                    let s0 = vars.key_seq().take(i as int).to_set();
                    let s1 = vars.key_seq().take(i + 1).to_set();
                    let t0 = vars.key_seq().take(i as int);
                    let t1 = vars.key_seq().take(i + 1);
                    assert(t1 =~= t0.push(k@));
                    assert forall|x: Seq<char>| s1.contains(x) <==> s0.insert(k@).contains(x) by {
                        if t1.contains(x) {
                            let j = choose|j: int| 0 <= j < t1.len() && t1[j] == x;
                            if j < i {
                                assert(t0[j] == x);
                            }
                        }
                        if t0.contains(x) {
                            let j = choose|j: int| 0 <= j < t0.len() && t0[j] == x;
                            assert(t1[j] == x);
                        }
                        if x == k@ {
                            assert(t1[i as int] == x);
                        }
                    }
                    assert(s1 =~= s0.insert(k@));
                    assert(str_view(env@) =~= base.union_prefer_right(str_view(vars@).restrict(s1)));
                }
                i = i + 1;
            }
            assert(vars.key_seq().take(n as int) =~= vars.key_seq());
            assert(str_view(vars@).restrict(vars.key_seq().to_set()) =~= str_view(vars@));
        },
        None => {},
    }
    env
}

/// Whether a pipeline file is a GitLab one: by its file name when it has
/// one (`.gitlab-ci.yml` or ending in `gitlab-ci.yml`), otherwise by its
/// content (GitLab keys and no GitHub Actions keys).
pub open spec fn gitlab_file(file_name: Option<Seq<char>>, content: Option<Seq<char>>) -> bool {
    match file_name {
        Some(n) => n == ".gitlab-ci.yml"@ || has_suffix(n, "gitlab-ci.yml"@),
        None => match content {
            Some(c) => (contains_seq(c, "stages:"@) || contains_seq(c, "before_script:"@) || contains_seq(c, "after_script:"@))
                && !contains_seq(c, "on:"@) && !contains_seq(c, "runs-on:"@) && !contains_seq(c, "uses:"@),
            None => false,
        },
    }
}

/// Decides whether a pipeline file is a GitLab one (see [`gitlab_file`]);
/// the content is consulted only for a path without a file name.
pub fn is_gitlab_pipeline(file_name: Option<&str>, content: Option<&str>) -> (r: bool)
    ensures
        r == gitlab_file(match file_name { Some(n) => Some(n@), None => None }, match content { Some(c) => Some(c@), None => None }),
{
    match file_name {
        Some(n) => str_eq(n, ".gitlab-ci.yml") || str_ends_with(n, "gitlab-ci.yml"),
        None => match content {
            Some(c) => {
                let cv = chars_of(c);
                (contains(&cv, &chars_of("stages:")) || contains(&cv, &chars_of("before_script:")) || contains(&cv, &chars_of("after_script:")))
                    && !contains(&cv, &chars_of("on:")) && !contains(&cv, &chars_of("runs-on:")) && !contains(&cv, &chars_of("uses:"))
            },
            None => false,
        },
    }
}

/// The name of a converted job's `i`-th service.
pub open spec fn service_key(i: nat) -> Seq<char> {
    "service-"@ + decimal(i)
}

/// Numbered steps: `label N` (from 1) running each command.
pub open spec fn numbered(label: Seq<char>, cmds: Seq<Seq<char>>, keep_going: bool) -> Seq<(Seq<char>, Seq<char>, bool)> {
    Seq::new(cmds.len(), |i: int| (label + decimal((i + 1) as nat), cmds[i], keep_going))
}

/// The steps of a converted job: before-script lines, script lines, then
/// after-script lines (which continue on error).
pub open spec fn converted_steps(g: GitlabJob) -> Seq<(Seq<char>, Seq<char>, bool)> {
    numbered("Before script "@, opt_names(g.before_script), false)
        + numbered("Run script line "@, opt_names(g.script), false)
        + numbered("After script "@, opt_names(g.after_script), true)
}

/// A plain `run:` step: name, command and `continue-on-error: true` when
/// `keep_going`; every other field unset.
pub open spec fn run_step_is(s: Step, shape: (Seq<char>, Seq<char>, bool)) -> bool {
    &&& s.name matches Some(n) && n@ == shape.0
    &&& s.run matches Some(r) && r@ == shape.1
    &&& s.continue_on_error == (if shape.2 { Some(true) } else { None::<bool> })
    &&& s.uses is None && s.with is None && s.if_condition is None && s.id is None
    &&& s.working_directory is None && s.shell is None
    &&& s.env@.dom().len() == 0
}

/// The environment of a converted job: the pipeline's variables, overridden
/// by the job's.
pub open spec fn converted_env(g: GitlabJob, globals: Option<StrMap<String>>) -> Map<Seq<char>, Seq<char>> {
    let gv = match globals { Some(v) => str_view(v@), None => Map::empty() };
    let jv = match g.variables { Some(v) => str_view(v@), None => Map::empty() };
    gv.union_prefer_right(jv)
}

/// A converted job: it runs on `ubuntu-latest` with the steps, environment
/// and services of the GitLab job and nothing else set.
pub open spec fn converted_job(j: Job, g: GitlabJob, globals: Option<StrMap<String>>) -> bool {
    let steps = converted_steps(g);
    let services = opt_names(g.services);
    &&& j.runs_on matches Some(r) && views(r@) == seq!["ubuntu-latest"@]
    &&& j.needs is None && j.container is None && j.strategy is None && j.if_condition is None
    &&& j.outputs is None && j.permissions is None && j.uses is None && j.with is None && j.defaults is None
    &&& str_view(j.env@) == converted_env(g, globals)
    &&& j.steps@.len() == steps.len()
    &&& forall|i: int| 0 <= i < steps.len() ==> run_step_is(#[trigger] j.steps@[i], steps[i])
    &&& j.services@.dom() == Set::new(|k: Seq<char>| exists|i: int| 0 <= i < services.len() && k == #[trigger] service_key(i as nat))
    &&& forall|i: int| 0 <= i < services.len() ==> #[trigger] j.services@[service_key(i as nat)].image@ == services[i]
}

fn push_numbered(steps: &mut Vec<Step>, label: &str, cmds: &Vec<String>, keep_going: bool)
    ensures
        final(steps)@.len() == old(steps)@.len() + cmds@.len(),
        forall|i: int| 0 <= i < old(steps)@.len() ==> final(steps)@[i] == old(steps)@[i],
        forall|i: int| 0 <= i < cmds@.len() ==> run_step_is(#[trigger] final(steps)@[old(steps)@.len() + i], numbered(label@, views(cmds@), keep_going)[i]),
{
    let ghost start = steps@;
    let mut i: usize = 0;
    while i < cmds.len()
        invariant
            i <= cmds@.len(),
            steps@.len() == start.len() + i,
            forall|t: int| 0 <= t < start.len() ==> steps@[t] == start[t],
            forall|t: int| 0 <= t < i ==> run_step_is(#[trigger] steps@[start.len() + t], numbered(label@, views(cmds@), keep_going)[t]),
        decreases cmds.len() - i,
    {
        let mut name = owned(label);
        push_all(&mut name, &decimal_chars((i + 1) as u64));
        let mut step = Step::with_run(name, cmds[i].clone());
        if keep_going {
            step.continue_on_error = Some(true);
        }
        proof {
            assert(step.env@.dom() =~= Set::<Seq<char>>::empty());
        }
        steps.push(step);
        i = i + 1;
    }
}

fn services_map(names: &Vec<String>) -> (r: StrMap<Service>)
    ensures
        r@.dom() == Set::new(|k: Seq<char>| exists|i: int| 0 <= i < names@.len() && k == #[trigger] service_key(i as nat)),
        forall|i: int| 0 <= i < names@.len() ==> #[trigger] r@[service_key(i as nat)].image@ == names@[i]@,
{
    let mut m: StrMap<Service> = StrMap::new();
    let mut i: usize = 0;
    proof { reveal_strlit("service-"); }
    while i < names.len()
        invariant
            i <= names@.len(),
            m@.dom() == Set::new(|k: Seq<char>| exists|t: int| 0 <= t < i && k == #[trigger] service_key(t as nat)),
            forall|t: int| 0 <= t < i ==> #[trigger] m@[service_key(t as nat)].image@ == names@[t]@,
        decreases names.len() - i,
    {
        let mut key = owned("service-");
        push_all(&mut key, &decimal_chars(i as u64));
        let ghost kv = key@;
        let svc = Service { image: names[i].clone(), ports: None, env: StrMap::new(), volumes: None, options: None };
        let ghost old_dom = m@.dom();
        m.insert(key, svc);
        assert(m@.dom() =~= old_dom.insert(kv));
        proof {
            reveal_strlit("service-");
            assert forall|t: int| 0 <= t < i + 1 implies #[trigger] m@[service_key(t as nat)].image@ == names@[t]@ by {
                if t < i {
                    if service_key(t as nat) == kv {
                        assert(service_key(t as nat).skip(8) =~= decimal(t as nat));
                        assert(kv.skip(8) =~= decimal(i as nat));
                        crate::heredoc::lemma_decimal_injective(t as nat, i as nat);
                    }
                }
            }
            assert(kv == service_key(i as nat));
            assert forall|k: Seq<char>| m@.dom().contains(k) <==> (exists|t: int| 0 <= t < i + 1 && k == #[trigger] service_key(t as nat)) by {
                if k == kv {
                    let ti: int = i as int;
                    assert(0 <= ti < i + 1 && k == service_key(ti as nat));
                }
                if old_dom.contains(k) {
                    let t = choose|t: int| 0 <= t < i && k == #[trigger] service_key(t as nat);
                    assert(0 <= t < i + 1 && k == service_key(t as nat));
                }
                if exists|t: int| 0 <= t < i + 1 && k == #[trigger] service_key(t as nat) {
                    let t = choose|t: int| 0 <= t < i + 1 && k == #[trigger] service_key(t as nat);
                    if t < i {
                        assert(exists|t2: int| 0 <= t2 < i && k == #[trigger] service_key(t2 as nat));
                    }
                }
            }
            assert(m@.dom() =~= Set::new(|k: Seq<char>| exists|t: int| 0 <= t < i + 1 && k == #[trigger] service_key(t as nat)));
        }
        i = i + 1;
    }
    m
}

/// Converts one GitLab job (see [`converted_job`]).
fn convert_job(g: &GitlabJob, globals: &Option<StrMap<String>>) -> (j: Job)
    ensures
        converted_job(j, *g, *globals),
{
    let mut env: StrMap<String> = match &g.variables {
        Some(v) => crate::strmap::copy_str_map(v),
        None => {
            let m: StrMap<String> = StrMap::new();
            assert(str_view(m@) =~= Map::<Seq<char>, Seq<char>>::empty());
            m
        },
    };
    match globals {
        Some(gv) => crate::strmap::add_missing(&mut env, gv),
        None => {
            assert(str_view(env@) =~= Map::<Seq<char>, Seq<char>>::empty().union_prefer_right(str_view(env@)));
        },
    }
    let mut steps: Vec<Step> = Vec::new();
    let empty: Vec<String> = Vec::new();
    let before = match &g.before_script { Some(v) => v, None => &empty };
    let script = match &g.script { Some(v) => v, None => &empty };
    let after = match &g.after_script { Some(v) => v, None => &empty };
    assert(views(empty@) =~= Seq::<Seq<char>>::empty());
    push_numbered(&mut steps, "Before script ", before, false);
    let ghost s1 = steps@;
    push_numbered(&mut steps, "Run script line ", script, false);
    let ghost s2 = steps@;
    push_numbered(&mut steps, "After script ", after, true);
    proof {
        let want = converted_steps(*g);
        let a = numbered("Before script "@, opt_names(g.before_script), false);
        let b = numbered("Run script line "@, opt_names(g.script), false);
        let c = numbered("After script "@, opt_names(g.after_script), true);
        assert(views(before@) == opt_names(g.before_script));
        assert(views(script@) == opt_names(g.script));
        assert(views(after@) == opt_names(g.after_script));
        assert forall|i: int| 0 <= i < want.len() implies run_step_is(#[trigger] steps@[i], want[i]) by {
            assert(s1.len() == a.len());
            assert(s2.len() == a.len() + b.len());
            if i < a.len() {
                assert(want[i] == a[i]);
                assert(steps@[i] == s2[i]);
                assert(s2[i] == s1[i]);
                assert(run_step_is(s1[0 + i], numbered("Before script "@, views(before@), false)[i]));
            } else if i < a.len() + b.len() {
                let t = i - a.len();
                assert(want[i] == b[t]);
                assert(steps@[i] == s2[i]);
                assert(run_step_is(s2[s1.len() + t], numbered("Run script line "@, views(script@), false)[t]));
            } else {
                let t = i - a.len() - b.len();
                assert(want[i] == c[t]);
                assert(run_step_is(steps@[s2.len() + t], numbered("After script "@, views(after@), true)[t]));
            }
        }
    }
    let services = match &g.services {
        Some(names) => services_map(names),
        None => {
            let m: StrMap<Service> = StrMap::new();
            assert(m@.dom() =~= Set::new(|k: Seq<char>| exists|i: int| 0 <= i < 0 && k == #[trigger] service_key(i as nat)));
            m
        },
    };
    let mut runs_on: Vec<String> = Vec::new();
    runs_on.push(owned("ubuntu-latest"));
    assert(views(runs_on@) =~= seq!["ubuntu-latest"@]);
    Job {
        runs_on: Some(runs_on),
        needs: None,
        container: None,
        steps,
        env,
        strategy: None,
        services,
        if_condition: None,
        outputs: None,
        permissions: None,
        uses: None,
        with: None,
        defaults: None,
    }
}

/// The jobs of a pipeline that are not templates.
pub open spec fn runnable_jobs(p: Pipeline) -> Set<Seq<char>> {
    Set::new(|k: Seq<char>| p.jobs@.dom().contains(k) && !is_template(p.jobs@[k]))
}

/// Converts a pipeline into the workflow model: one job per job that is not
/// a template (see [`converted_job`]), triggered on `push`.
pub fn convert_to_workflow_format(pipeline: &Pipeline) -> (w: WorkflowDefinition)
    ensures
        w.name@ == "Converted GitLab CI Pipeline"@,
        str_seq(w.on@) == seq!["push"@],
        w.defaults is None,
        w.env@.dom().len() == 0,
        w.jobs@.dom() == runnable_jobs(*pipeline),
        forall|k: Seq<char>| #[trigger] w.jobs@.dom().contains(k) ==> converted_job(w.jobs@[k], pipeline.jobs@[k], pipeline.variables),
{
    let mut jobs: StrMap<Job> = StrMap::new();
    let n = pipeline.jobs.len();
    let mut i: usize = 0;
    proof { use_type_invariant(&pipeline.jobs); pipeline.jobs.lemma_wf(); }
    while i < n
        invariant
            i <= n,
            n == pipeline.jobs.key_seq().len(),
            pipeline.jobs.key_seq().no_duplicates(),
            forall|t: int| 0 <= t < pipeline.jobs.key_seq().len() ==> #[trigger] pipeline.jobs@[pipeline.jobs.key_seq()[t]] == pipeline.jobs.val_seq()[t],
            pipeline.jobs.key_seq().to_set() == pipeline.jobs@.dom(),
            jobs@.dom() == Set::new(|k: Seq<char>| pipeline.jobs.key_seq().take(i as int).contains(k) && !is_template(pipeline.jobs@[k])),
            forall|k: Seq<char>| #[trigger] jobs@.dom().contains(k) ==> converted_job(jobs@[k], pipeline.jobs@[k], pipeline.variables),
        decreases n - i,
    {
        let (name, g) = pipeline.jobs.entry(i);
        let tmpl = match g.template { Some(t) => t, None => false };
        let ghost t0 = pipeline.jobs.key_seq().take(i as int);
        let ghost t1 = pipeline.jobs.key_seq().take(i + 1);
        proof {
            assert(t1 =~= t0.push(name@));
            assert forall|y: Seq<char>| t1.contains(y) <==> (t0.contains(y) || y == name@) by {
                if t1.contains(y) {
                    let j = choose|j: int| 0 <= j < t1.len() && t1[j] == y;
                    if j < i { assert(t0[j] == y); }
                }
                if t0.contains(y) {
                    let j = choose|j: int| 0 <= j < t0.len() && t0[j] == y;
                    assert(t1[j] == y);
                }
                if y == name@ { assert(t1[i as int] == y); }
            }
        }
        if !tmpl {
            let job = convert_job(g, &pipeline.variables);
            jobs.insert(name.clone(), job);
        }
        proof {
            assert(jobs@.dom() =~= Set::new(|k: Seq<char>| t1.contains(k) && !is_template(pipeline.jobs@[k])));
        }
        i = i + 1;
    }
    proof {
        assert(pipeline.jobs.key_seq().take(n as int) =~= pipeline.jobs.key_seq());
        assert forall|k: Seq<char>| pipeline.jobs.key_seq().contains(k) <==> pipeline.jobs@.dom().contains(k) by {
            assert(pipeline.jobs.key_seq().to_set().contains(k) == pipeline.jobs.key_seq().contains(k));
        }
        assert(jobs@.dom() =~= runnable_jobs(*pipeline));
    }
    let mut on: Vec<String> = Vec::new();
    on.push(owned("push"));
    assert(str_seq(on@) =~= seq!["push"@]);
    let env: StrMap<String> = StrMap::new();
    WorkflowDefinition { name: owned("Converted GitLab CI Pipeline"), on, jobs, defaults: None, env }
}

} // verus!

verus! {

proof fn lemma_stage_batch_members(p: Pipeline, stage: Seq<char>, m: nat, x: Seq<char>)
    requires
        m <= p.jobs.key_seq().len(),
        p.jobs.key_seq().len() == p.jobs.val_seq().len(),
    ensures
        stage_batch(p, stage, m).contains(x) <==> exists|k: int| 0 <= k < m && p.jobs.key_seq()[k] == x
            && !is_template(p.jobs.val_seq()[k]) && job_stage(#[trigger] p.jobs.val_seq()[k]) == stage,
    decreases m,
{
    if m > 0 {
        lemma_stage_batch_members(p, stage, (m - 1) as nat, x);
        let prev = stage_batch(p, stage, (m - 1) as nat);
        let cur = stage_batch(p, stage, m);
        if cur.contains(x) {
            let i = choose|i: int| 0 <= i < cur.len() && cur[i] == x;
            if i < prev.len() {
                assert(prev[i] == x);
            } else {
                assert(p.jobs.key_seq()[m - 1] == x);
            }
        }
        if exists|k: int| 0 <= k < m && p.jobs.key_seq()[k] == x
            && !is_template(p.jobs.val_seq()[k]) && job_stage(#[trigger] p.jobs.val_seq()[k]) == stage {
            let k = choose|k: int| 0 <= k < m && p.jobs.key_seq()[k] == x
                && !is_template(p.jobs.val_seq()[k]) && job_stage(#[trigger] p.jobs.val_seq()[k]) == stage;
            if k < m - 1 {
                let i = choose|i: int| 0 <= i < prev.len() && prev[i] == x;
                assert(cur[i] == x);
            } else {
                assert(cur[cur.len() - 1] == x);
            }
        }
    }
}

proof fn lemma_stageless_members(p: Pipeline, m: nat, x: Seq<char>)
    requires
        m <= p.jobs.key_seq().len(),
        p.jobs.key_seq().len() == p.jobs.val_seq().len(),
    ensures
        stageless_batch(p, m).contains(x) ==> exists|k: int| 0 <= k < m && p.jobs.key_seq()[k] == x
            && (#[trigger] p.jobs.val_seq()[k]).stage is None,
    decreases m,
{
    if m > 0 {
        lemma_stageless_members(p, (m - 1) as nat, x);
        let prev = stageless_batch(p, (m - 1) as nat);
        let cur = stageless_batch(p, m);
        if cur.contains(x) {
            let i = choose|i: int| 0 <= i < cur.len() && cur[i] == x;
            if i < prev.len() {
                assert(prev[i] == x);
            } else {
                assert(p.jobs.key_seq()[m - 1] == x);
                assert(p.jobs.val_seq()[m - 1].stage is None);
            }
        }
    }
}

proof fn lemma_stage_batches_shape(p: Pipeline, st: Seq<Seq<char>>, k: nat)
    requires
        k <= st.len(),
    ensures
        forall|t: nat| t <= k ==> (#[trigger] stage_batches(p, st, t)).len() <= stage_batches(p, st, k).len(),
        forall|t: nat, i: int| t <= k && 0 <= i < stage_batches(p, st, t).len()
            ==> #[trigger] stage_batches(p, st, k)[i] == #[trigger] stage_batches(p, st, t)[i],
        forall|i: int| 0 <= i < stage_batches(p, st, k).len() ==> exists|t: nat| t < k
            && #[trigger] stage_batches(p, st, k)[i] == stage_batch(p, st[t as int], p.jobs.key_seq().len())
            && i == stage_batches(p, st, t).len(),
    decreases k,
{
    if k > 0 {
        lemma_stage_batches_shape(p, st, (k - 1) as nat);
        let prev = stage_batches(p, st, (k - 1) as nat);
        let cur = stage_batches(p, st, k);
        assert forall|i: int| 0 <= i < cur.len() implies exists|t: nat| t < k
            && #[trigger] cur[i] == stage_batch(p, st[t as int], p.jobs.key_seq().len())
            && i == stage_batches(p, st, t).len() by {
            if i < prev.len() {
                assert(cur[i] == prev[i]);
                let t = choose|t: nat| t < k - 1
                    && #[trigger] prev[i] == stage_batch(p, st[t as int], p.jobs.key_seq().len())
                    && i == stage_batches(p, st, t).len();
                assert(t < k);
            } else {
                let t = (k - 1) as nat;
                assert(stage_batches(p, st, t) == prev);
            }
        }
    }
}

/// Without `stages:`, GitLab's default order decides: the batch of a job
/// of stage `build` comes before the batch of a job of stage `test` or
/// `deploy`, and the batch of a `test` job before that of a `deploy` job.
/// Each of the two jobs (named with its stage, not a template) sits in one
/// batch, so every batch holding the first comes before every batch
/// holding the second.
pub proof fn lemma_default_stage_order(p: Pipeline, a: int, b: int)
    requires
        p.jobs.keys_unique(),
        p.stages is None,
        0 <= a < p.jobs.key_seq().len(),
        0 <= b < p.jobs.key_seq().len(),
        !is_template(p.jobs.val_seq()[a]),
        !is_template(p.jobs.val_seq()[b]),
        p.jobs.val_seq()[a].stage is Some,
        p.jobs.val_seq()[b].stage is Some,
        ({
            let sa = job_stage(p.jobs.val_seq()[a]);
            let sb = job_stage(p.jobs.val_seq()[b]);
            (sa == "build"@ && (sb == "test"@ || sb == "deploy"@)) || (sa == "test"@ && sb == "deploy"@)
        }),
    ensures
        ({
            let plan = gitlab_plan(p);
            let ka = p.jobs.key_seq()[a];
            let kb = p.jobs.key_seq()[b];
            &&& exists|i: int, j: int| 0 <= i < j < plan.len() && plan[i].contains(ka) && plan[j].contains(kb)
            &&& forall|i: int, j: int| 0 <= i < plan.len() && 0 <= j < plan.len() && plan[i].contains(ka) && plan[j].contains(kb) ==> i < j
        }),
{
    p.jobs.lemma_wf();
    reveal_strlit("build");
    reveal_strlit("test");
    reveal_strlit("deploy");
    let n = p.jobs.key_seq().len();
    let keys = p.jobs.key_seq();
    let vals = p.jobs.val_seq();
    let st = pipeline_stages(p);
    assert(st == seq!["build"@, "test"@, "deploy"@]);
    let ka = keys[a];
    let kb = keys[b];
    let sa = job_stage(vals[a]);
    let sb = job_stage(vals[b]);
    let ta: nat = if sa == "build"@ { 0 } else { 1 };
    let tb: nat = if sb == "test"@ { 1 } else { 2 };
    assert(st[ta as int] == sa);
    assert(st[tb as int] == sb);
    assert(ta < tb);
    lemma_stage_batches_shape(p, st, 3);
    let sbs = stage_batches(p, st, 3);
    let rest = stageless_batch(p, n);
    let plan = gitlab_plan(p);
    assert(plan == (if rest.len() > 0 { sbs.push(rest) } else { sbs }));
    // a job sits in the batch of a stage exactly when it has that stage
    assert forall|s: Seq<char>| #[trigger] stage_batch(p, s, n).contains(ka) <==> s == sa by {
        lemma_stage_batch_members(p, s, n, ka);
        if stage_batch(p, s, n).contains(ka) {
            let k = choose|k: int| 0 <= k < n && keys[k] == ka && !is_template(vals[k]) && job_stage(#[trigger] vals[k]) == s;
            assert(k == a);
        } else {
            assert(!(0 <= a < n && keys[a] == ka && !is_template(vals[a]) && job_stage(vals[a]) == s));
        }
    }
    assert forall|s: Seq<char>| #[trigger] stage_batch(p, s, n).contains(kb) <==> s == sb by {
        lemma_stage_batch_members(p, s, n, kb);
        if stage_batch(p, s, n).contains(kb) {
            let k = choose|k: int| 0 <= k < n && keys[k] == kb && !is_template(vals[k]) && job_stage(#[trigger] vals[k]) == s;
            assert(k == b);
        } else {
            assert(!(0 <= b < n && keys[b] == kb && !is_template(vals[b]) && job_stage(vals[b]) == s));
        }
    }
    lemma_stageless_members(p, n, ka);
    lemma_stageless_members(p, n, kb);
    assert(!rest.contains(ka)) by {
        if rest.contains(ka) {
            let k = choose|k: int| 0 <= k < n && keys[k] == ka && (#[trigger] vals[k]).stage is None;
            assert(k == a);
        }
    }
    assert(!rest.contains(kb)) by {
        if rest.contains(kb) {
            let k = choose|k: int| 0 <= k < n && keys[k] == kb && (#[trigger] vals[k]).stage is None;
            assert(k == b);
        }
    }
    let ba = stage_batch(p, sa, n);
    let bb = stage_batch(p, sb, n);
    assert(ba.contains(ka));
    assert(bb.contains(kb));
    // where the two batches stand
    let ia = stage_batches(p, st, ta).len() as int;
    let ib = stage_batches(p, st, tb).len() as int;
    assert(stage_batches(p, st, ta + 1) == stage_batches(p, st, ta).push(ba));
    assert(stage_batches(p, st, tb + 1) == stage_batches(p, st, tb).push(bb));
    assert(stage_batches(p, st, ta + 1).len() <= ib);
    assert(sbs[ia] == stage_batches(p, st, ta + 1)[ia]);
    assert(sbs[ib] == stage_batches(p, st, tb + 1)[ib]);
    assert(stage_batches(p, st, tb + 1).len() <= sbs.len());
    assert(plan[ia] == ba);
    assert(plan[ib] == bb);
    assert(ia < ib);
    assert forall|i: int, j: int| 0 <= i < plan.len() && 0 <= j < plan.len() && plan[i].contains(ka) && plan[j].contains(kb) implies i < j by {
        assert(i < sbs.len());
        assert(j < sbs.len());
        let t1 = choose|t: nat| t < 3 && #[trigger] sbs[i] == stage_batch(p, st[t as int], n) && i == stage_batches(p, st, t).len();
        let t2 = choose|t: nat| t < 3 && #[trigger] sbs[j] == stage_batch(p, st[t as int], n) && j == stage_batches(p, st, t).len();
        assert(st[t1 as int] == sa);
        assert(st[t2 as int] == sb);
        assert(t1 == ta);
        assert(t2 == tb);
    }
    assert(plan[ia].contains(ka) && plan[ib].contains(kb));
}

} // verus!
