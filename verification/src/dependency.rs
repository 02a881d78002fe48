//! Job scheduling: ordering a workflow's jobs into batches by their `needs`,
//! and narrowing an execution plan to one target job.
use vstd::prelude::*;
use crate::strmap::StrMap;
use crate::text::{join, join_strings, push_str, views, owned, vec_contains};
use crate::workflow::{Job, WorkflowDefinition};
use crate::order::{sort_distinct, strictly_sorted};

verus! {

/// Every job that `name` needs is in `done`.
pub open spec fn needs_met(jobs: Map<Seq<char>, Job>, done: Set<Seq<char>>, name: Seq<char>) -> bool {
    forall|t: int|
        0 <= t < jobs[name].needs_view().len() ==> done.contains(#[trigger] jobs[name].needs_view()[t])
}

/// The jobs not yet in `done` whose needs are all in `done`.
pub open spec fn ready(jobs: Map<Seq<char>, Job>, done: Set<Seq<char>>) -> Set<Seq<char>> {
    Set::new(|n: Seq<char>| jobs.dom().contains(n) && !done.contains(n) && needs_met(jobs, done, n))
}

/// The jobs scheduled in the first `k` batches.
pub open spec fn done_after(jobs: Map<Seq<char>, Job>, k: nat) -> Set<Seq<char>>
    decreases k,
{
    if k == 0 {
        Set::empty()
    } else {
        done_after(jobs, (k - 1) as nat).union(ready(jobs, done_after(jobs, (k - 1) as nat)))
    }
}

/// The jobs of batch `k`: those whose needs are all met by the earlier batches.
pub open spec fn level(jobs: Map<Seq<char>, Job>, k: nat) -> Set<Seq<char>> {
    ready(jobs, done_after(jobs, k))
}

/// Some job needs a job that the workflow does not define.
pub open spec fn has_missing_need(jobs: Map<Seq<char>, Job>) -> bool {
    exists|n: Seq<char>, t: int|
        jobs.dom().contains(n) && 0 <= t < jobs[n].needs_view().len() && !jobs.dom().contains(
            #[trigger] jobs[n].needs_view()[t],
        )
}

/// The names in a plan, batch by batch.
pub open spec fn plan_view(plan: Seq<Vec<String>>) -> Seq<Seq<Seq<char>>> {
    plan.map_values(|b: Vec<String>| views(b@))
}

/// `plan` lists, batch by batch, exactly the levels of the job graph, up to the
/// first empty level.
pub open spec fn is_level_plan(jobs: Map<Seq<char>, Job>, plan: Seq<Seq<Seq<char>>>) -> bool {
    &&& forall|k: int|
        #![trigger plan[k]]
        0 <= k < plan.len() ==> {
            &&& plan[k].no_duplicates()
            &&& plan[k].to_set() == level(jobs, k as nat)
            &&& plan[k].len() > 0
        }
    &&& level(jobs, plan.len()) == Set::<Seq<char>>::empty()
}

/// The error for a job that needs an undefined job.
pub open spec fn missing_need_message(job: Seq<char>, need: Seq<char>) -> Seq<char> {
    "Job '"@ + job + "' depends on non-existent job '"@ + need + "'"@
}

/// The error for jobs that can never become ready.
pub open spec fn cycle_message(stuck: Seq<Seq<char>>) -> Seq<char> {
    "Circular dependency detected in workflow jobs: "@ + join(stuck, ", "@)
}

/// The names of `keys` that are not in `done`, in order.
pub open spec fn not_done(keys: Seq<Seq<char>>, done: Set<Seq<char>>) -> Seq<Seq<char>>
    decreases keys.len(),
{
    if keys.len() == 0 {
        Seq::empty()
    } else if done.contains(keys.last()) {
        not_done(keys.drop_last(), done)
    } else {
        not_done(keys.drop_last(), done).push(keys.last())
    }
}

/// Number of `true` entries.
pub open spec fn count_true(s: Seq<bool>) -> nat
    decreases s.len(),
{
    if s.len() == 0 {
        0
    } else {
        count_true(s.drop_last()) + if s.last() { 1nat } else { 0nat }
    }
}

proof fn lemma_count_true_bound(s: Seq<bool>)
    ensures
        count_true(s) <= s.len(),
    decreases s.len(),
{
    if s.len() > 0 {
        lemma_count_true_bound(s.drop_last());
    }
}

proof fn lemma_count_true_set(s: Seq<bool>, i: int)
    requires
        0 <= i < s.len(),
        !s[i],
    ensures
        count_true(s.update(i, true)) == count_true(s) + 1,
    decreases s.len(),
{
    let u = s.update(i, true);
    if i == s.len() - 1 {
        assert(u.drop_last() =~= s.drop_last());
    } else {
        assert(u.drop_last() =~= s.drop_last().update(i, true));
        lemma_count_true_set(s.drop_last(), i);
    }
}

proof fn lemma_count_true_none(s: Seq<bool>)
    requires
        forall|i: int| 0 <= i < s.len() ==> !s[i],
    ensures
        count_true(s) == 0,
    decreases s.len(),
{
    if s.len() > 0 {
        lemma_count_true_none(s.drop_last());
    }
}

proof fn lemma_count_true_all(s: Seq<bool>)
    requires
        count_true(s) == s.len(),
    ensures
        forall|i: int| 0 <= i < s.len() ==> s[i],
    decreases s.len(),
{
    if s.len() > 0 {
        lemma_count_true_bound(s.drop_last());
        lemma_count_true_all(s.drop_last());
        assert forall|i: int| 0 <= i < s.len() implies s[i] by {
            if i < s.len() - 1 {
                assert(s[i] == s.drop_last()[i]);
            }
        }
    }
}

/// The done sets only contain defined jobs.
proof fn lemma_done_in_dom(jobs: Map<Seq<char>, Job>, k: nat)
    ensures
        done_after(jobs, k).subset_of(jobs.dom()),
    decreases k,
{
    if k > 0 {
        lemma_done_in_dom(jobs, (k - 1) as nat);
    }
}

/// Once a level is empty, no later job becomes done.
proof fn lemma_stable(jobs: Map<Seq<char>, Job>, k: nat, m: nat)
    requires
        level(jobs, k) == Set::<Seq<char>>::empty(),
        k <= m,
    ensures
        done_after(jobs, m) == done_after(jobs, k),
        level(jobs, m) == Set::<Seq<char>>::empty(),
    decreases m - k,
{
    if k < m {
        lemma_stable(jobs, k, (m - 1) as nat);
        assert(done_after(jobs, m) =~= done_after(jobs, (m - 1) as nat));
    }
}

/// The done sets grow with `k`.
proof fn lemma_done_monotone(jobs: Map<Seq<char>, Job>, a: nat, b: nat)
    requires
        a <= b,
    ensures
        done_after(jobs, a).subset_of(done_after(jobs, b)),
    decreases b - a,
{
    if a < b {
        lemma_done_monotone(jobs, a, (b - 1) as nat);
    }
}

/// A job done after `k` batches lies in one of the first `k` levels.
proof fn lemma_done_has_level(jobs: Map<Seq<char>, Job>, k: nat, n: Seq<char>)
    requires
        done_after(jobs, k).contains(n),
    ensures
        exists|j: nat| j < k && #[trigger] level(jobs, j).contains(n),
    decreases k,
{
    if k > 0 {
        let p = done_after(jobs, (k - 1) as nat);
        if p.contains(n) {
            lemma_done_has_level(jobs, (k - 1) as nat, n);
            let j = choose|j: nat| j < (k - 1) as nat && #[trigger] level(jobs, j).contains(n);
            assert(level(jobs, j).contains(n));
        } else {
            assert(level(jobs, (k - 1) as nat).contains(n));
        }
    }
}

/// A job of level `k` is not done after `k` batches but is done after `k + 1`.
proof fn lemma_level_fresh(jobs: Map<Seq<char>, Job>, k: nat, n: Seq<char>)
    requires
        level(jobs, k).contains(n),
    ensures
        !done_after(jobs, k).contains(n),
        done_after(jobs, k + 1).contains(n),
{
}

/// Orders a workflow's jobs into batches: batch `k` holds the jobs whose needs
/// all lie in batches before `k`. Jobs of one batch may run in parallel.
///
/// Fails when a job needs a job that does not exist, or when some jobs can
/// never become ready (a dependency cycle).
pub fn resolve_dependencies(workflow: &WorkflowDefinition) -> (r: Result<Vec<Vec<String>>, String>)
    ensures
        has_missing_need(workflow.jobs@) ==> (r is Err && exists|j: Seq<char>, t: int|
            workflow.jobs@.dom().contains(j) && 0 <= t < workflow.jobs@[j].needs_view().len()
                && !workflow.jobs@.dom().contains(workflow.jobs@[j].needs_view()[t])
                && r->Err_0@ == missing_need_message(j, #[trigger] workflow.jobs@[j].needs_view()[t])),
        !has_missing_need(workflow.jobs@) ==> match r {
            Ok(plan) => is_level_plan(workflow.jobs@, plan_view(plan@))
                && done_after(workflow.jobs@, plan@.len()) == workflow.jobs@.dom(),
            Err(msg) => exists|k: nat|
                level(workflow.jobs@, k) == Set::<Seq<char>>::empty()
                && done_after(workflow.jobs@, k) != workflow.jobs@.dom()
                && msg@ == cycle_message(not_done(workflow.jobs.key_seq(), done_after(workflow.jobs@, k))),
        },
{
    let jobs = &workflow.jobs;
    proof {
        use_type_invariant(jobs);
        jobs.lemma_wf();
    }
    let ghost g = jobs@;
    let ghost keys = jobs.key_seq();
    let ghost vals = jobs.val_seq();
    let n = jobs.len();

    // Every needed job must exist.
    let mut i: usize = 0;
    while i < n
        invariant
            i <= n,
            n == keys.len(),
            keys == jobs.key_seq(),
            vals == jobs.val_seq(),
            g == jobs@,
            g == workflow.jobs@,
            keys == workflow.jobs.key_seq(),
            keys.len() == vals.len(),
            keys.to_set() == g.dom(),
            forall|a: int| 0 <= a < keys.len() ==> #[trigger] g[keys[a]] == vals[a],
            forall|a: int, t: int|
                0 <= a < i && 0 <= t < vals[a].needs_view().len() ==> g.dom().contains(
                    #[trigger] vals[a].needs_view()[t],
                ),
        decreases n - i,
    {
        let (name, job) = jobs.entry(i);
        match &job.needs {
            Some(needs) => {
                let mut t: usize = 0;
                while t < needs.len()
                    invariant
                        t <= needs.len(),
                        job.needs == Some(*needs),
                        *job == vals[i as int],
                        name@ == keys[i as int],
                        i < n,
                        n == keys.len(),
                        g == jobs@,
            g == workflow.jobs@,
            keys == workflow.jobs.key_seq(),
                        keys.len() == vals.len(),
                        keys.to_set() == g.dom(),
                        forall|a: int| 0 <= a < keys.len() ==> #[trigger] g[keys[a]] == vals[a],
                        forall|u: int| 0 <= u < t ==> g.dom().contains(#[trigger] job.needs_view()[u]),
                    decreases needs.len() - t,
                {
                    if !jobs.contains_key(needs[t].as_str()) {
                        let mut msg = owned("Job '");
                        push_str(&mut msg, name.as_str());
                        push_str(&mut msg, "' depends on non-existent job '");
                        push_str(&mut msg, needs[t].as_str());
                        push_str(&mut msg, "'");
                        proof {
                            assert(keys.contains(name@));
                            assert(g[name@] == vals[i as int]);
                            assert(job.needs_view()[t as int] == needs@[t as int]@);
                            assert(msg@ =~= missing_need_message(name@, g[name@].needs_view()[t as int]));
                            assert(keys.to_set().contains(name@));
                            assert(g.dom().contains(name@));
                            assert(!g.dom().contains(g[name@].needs_view()[t as int]));
                            assert(has_missing_need(g));
                            let tt = t as int;
                            assert(g.dom().contains(name@) && 0 <= tt < g[name@].needs_view().len()
                                && !g.dom().contains(g[name@].needs_view()[tt])
                                && msg@ == missing_need_message(name@, g[name@].needs_view()[tt]));
                        }
                        return Err(msg);
                    }
                    t = t + 1;
                }
            },
            None => {},
        }
        i = i + 1;
    }
    assert(!has_missing_need(g)) by {
        assert forall|nm: Seq<char>, t: int|
            g.dom().contains(nm) && 0 <= t < g[nm].needs_view().len() implies g.dom().contains(
            #[trigger] g[nm].needs_view()[t]) by {
            assert(keys.contains(nm));
            let a = choose|a: int| 0 <= a < keys.len() && keys[a] == nm;
            assert(g[keys[a]] == vals[a]);
        }
    }

    // Positions of each job's needs.
    let mut dep_idx: Vec<Vec<usize>> = Vec::new();
    let mut i: usize = 0;
    while i < n
        invariant
            i <= n,
            n == keys.len(),
            keys == jobs.key_seq(),
            vals == jobs.val_seq(),
            g == jobs@,
            g == workflow.jobs@,
            keys == workflow.jobs.key_seq(),
            keys.len() == vals.len(),
            keys.to_set() == g.dom(),
            !has_missing_need(g),
            forall|a: int| 0 <= a < keys.len() ==> #[trigger] g[keys[a]] == vals[a],
            dep_idx@.len() == i,
            forall|a: int|
                #![trigger dep_idx@[a]]
                0 <= a < i ==> dep_idx@[a]@.len() == vals[a].needs_view().len() && forall|t: int|
                    0 <= t < dep_idx@[a]@.len() ==> (#[trigger] dep_idx@[a]@[t]) < n && keys[dep_idx@[a]@[t] as int]
                        == vals[a].needs_view()[t],
        decreases n - i,
    {
        let (name, job) = jobs.entry(i);
        let mut row: Vec<usize> = Vec::new();
        match &job.needs {
            Some(needs) => {
                let mut t: usize = 0;
                while t < needs.len()
                    invariant
                        t <= needs.len(),
                        job.needs == Some(*needs),
                        *job == vals[i as int],
                        name@ == keys[i as int],
                        i < n,
                        n == keys.len(),
                        keys == jobs.key_seq(),
                        keys.to_set() == g.dom(),
                        g == jobs@,
            g == workflow.jobs@,
            keys == workflow.jobs.key_seq(),
                        !has_missing_need(g),
                        forall|a: int| 0 <= a < keys.len() ==> #[trigger] g[keys[a]] == vals[a],
                        row@.len() == t,
                        forall|u: int|
                            0 <= u < t ==> (#[trigger] row@[u]) < n && keys[row@[u] as int]
                                == job.needs_view()[u],
                    decreases needs.len() - t,
                {
                    proof {
                        assert(keys.contains(name@));
                        assert(g[name@] == vals[i as int]);
                        assert(job.needs_view()[t as int] == needs@[t as int]@);
                        assert(g.dom().contains(g[name@].needs_view()[t as int]));
                    }
                    let p = match jobs.position(needs[t].as_str()) {
                        Some(p) => p,
                        None => {
                            proof { assert(false); }
                            0
                        },
                    };
                    row.push(p);
                    t = t + 1;
                }
            },
            None => {},
        }
        dep_idx.push(row);
        i = i + 1;
    }

    // Batch by batch, schedule every job whose needs are already scheduled.
    let mut processed: Vec<bool> = Vec::new();
    let mut i: usize = 0;
    while i < n
        invariant
            i <= n,
            processed@.len() == i,
            forall|a: int| 0 <= a < i ==> !processed@[a],
        decreases n - i,
    {
        processed.push(false);
        i = i + 1;
    }
    proof {
        lemma_count_true_none(processed@);
    }
    let mut done: usize = 0;
    let mut plan: Vec<Vec<String>> = Vec::new();
    let ghost mut k: nat = 0;
    loop
        invariant
            n == keys.len(),
            keys == jobs.key_seq(),
            vals == jobs.val_seq(),
            g == jobs@,
            g == workflow.jobs@,
            keys == workflow.jobs.key_seq(),
            keys.len() == vals.len(),
            keys.to_set() == g.dom(),
            keys.no_duplicates(),
            forall|a: int| 0 <= a < keys.len() ==> #[trigger] g[keys[a]] == vals[a],
            dep_idx@.len() == n,
            forall|a: int|
                #![trigger dep_idx@[a]]
                0 <= a < n ==> dep_idx@[a]@.len() == vals[a].needs_view().len() && forall|t: int|
                    0 <= t < dep_idx@[a]@.len() ==> (#[trigger] dep_idx@[a]@[t]) < n && keys[dep_idx@[a]@[t] as int]
                        == vals[a].needs_view()[t],
            processed@.len() == n,
            forall|a: int| 0 <= a < n ==> (#[trigger] processed@[a] <==> done_after(g, k).contains(keys[a])),
            done == count_true(processed@),
            plan@.len() == k,
            forall|j: int|
                #![trigger plan@[j]]
                0 <= j < k ==> {
                    &&& views(plan@[j]@).no_duplicates()
                    &&& views(plan@[j]@).to_set() == level(g, j as nat)
                    &&& plan@[j]@.len() > 0
                },
        ensures
            level(g, k) == Set::<Seq<char>>::empty(),
        decreases n - done,
    {
        proof {
            lemma_count_true_bound(processed@);
            lemma_done_in_dom(g, k);
        }
        let ghost p = done_after(g, k);
        // Indices of the jobs that are ready now.
        let mut batch: Vec<usize> = Vec::new();
        let mut a: usize = 0;
        while a < n
            invariant
                a <= n,
                n == keys.len(),
                keys.len() == vals.len(),
                processed@.len() == n,
                dep_idx@.len() == n,
                forall|b: int| 0 <= b < n ==> (#[trigger] processed@[b] <==> p.contains(keys[b])),
                forall|b: int|
                    #![trigger dep_idx@[b]]
                    0 <= b < n ==> dep_idx@[b]@.len() == vals[b].needs_view().len() && forall|t: int|
                        0 <= t < dep_idx@[b]@.len() ==> (#[trigger] dep_idx@[b]@[t]) < n && keys[dep_idx@[b]@[t] as int]
                            == vals[b].needs_view()[t],
                forall|b: int| 0 <= b < keys.len() ==> #[trigger] g[keys[b]] == vals[b],
                keys.to_set() == g.dom(),
                forall|m: int| 0 <= m < batch@.len() ==> (#[trigger] batch@[m]) < a,
                forall|m1: int, m2: int| 0 <= m1 < m2 < batch@.len() ==> batch@[m1] < batch@[m2],
                forall|b: int|
                    0 <= b < a ==> (batch@.contains(b as usize) <==> #[trigger] ready(g, p).contains(keys[b])),
                forall|m: int| 0 <= m < batch@.len() ==> ready(g, p).contains(keys[#[trigger] batch@[m] as int]),
            decreases n - a,
        {
            let mut ok = !processed[a];
            let row = &dep_idx[a];
            let mut t: usize = 0;
            while ok && t < row.len()
                invariant
                    t <= row.len(),
                    a < n,
                    *row == dep_idx@[a as int],
                    processed@.len() == n,
                    forall|b: int| 0 <= b < n ==> (#[trigger] processed@[b] <==> p.contains(keys[b])),
                    row@.len() == vals[a as int].needs_view().len(),
                    forall|u: int|
                        0 <= u < row@.len() ==> (#[trigger] row@[u]) < n && keys[row@[u] as int]
                            == vals[a as int].needs_view()[u],
                    ok ==> !processed@[a as int],
                    ok ==> forall|u: int| 0 <= u < t ==> p.contains(#[trigger] vals[a as int].needs_view()[u]),
                    !ok ==> (processed@[a as int] || exists|u: int| 0 <= u < row@.len() && !p.contains(
                        #[trigger] vals[a as int].needs_view()[u])),
                decreases row.len() - t,
            {
                if !processed[row[t]] {
                    ok = false;
                    assert(!p.contains(vals[a as int].needs_view()[t as int]));
                }
                t = t + 1;
            }
            proof {
                assert(g[keys[a as int]] == vals[a as int]);
                if ok {
                    assert(needs_met(g, p, keys[a as int]));
                    assert(keys.contains(keys[a as int]));
                    assert(ready(g, p).contains(keys[a as int]));
                } else {
                    assert(!ready(g, p).contains(keys[a as int]));
                }
            }
            let ghost old_batch = batch@;
            if ok {
                batch.push(a);
            }
            proof {
                assert forall|b: int|
                    0 <= b < a + 1 implies (batch@.contains(b as usize) <==> #[trigger] ready(g, p).contains(keys[b])) by {
                    if b < a {
                        if batch@.contains(b as usize) {
                            let m = choose|m: int| 0 <= m < batch@.len() && batch@[m] == b as usize;
                            if m < old_batch.len() {
                                assert(old_batch[m] == b as usize);
                                assert(old_batch.contains(b as usize));
                            }
                        }
                        if old_batch.contains(b as usize) {
                            let m = choose|m: int| 0 <= m < old_batch.len() && old_batch[m] == b as usize;
                            assert(batch@[m] == b as usize);
                        }
                    } else {
                        if batch@.contains(b as usize) {
                            let m = choose|m: int| 0 <= m < batch@.len() && batch@[m] == b as usize;
                            if m < old_batch.len() {
                                assert(old_batch[m] < a);
                            }
                        }
                        if ok {
                            assert(batch@[batch@.len() - 1] == a);
                        }
                    }
                }
            }
            a = a + 1;
        }
        proof {
            assert forall|nm: Seq<char>| #[trigger] ready(g, p).contains(nm) implies exists|m: int|
                0 <= m < batch@.len() && keys[batch@[m] as int] == nm by {
                assert(g.dom().contains(nm));
                assert(keys.contains(nm));
                let b = choose|b: int| 0 <= b < keys.len() && keys[b] == nm;
                assert(batch@.contains(b as usize));
                let m = choose|m: int| 0 <= m < batch@.len() && batch@[m] == b as usize;
            }
        }
        if batch.len() == 0 {
            proof {
                assert(ready(g, p) =~= Set::<Seq<char>>::empty()) by {
                    assert forall|nm: Seq<char>| !ready(g, p).contains(nm) by {
                        if ready(g, p).contains(nm) {
                            let m = choose|m: int| 0 <= m < batch@.len() && keys[batch@[m] as int] == nm;
                        }
                    }
                }
            }
            break;
        }
        // Names of the batch.
        let mut names: Vec<String> = Vec::new();
        let mut m: usize = 0;
        while m < batch.len()
            invariant
                m <= batch.len(),
                n == keys.len(),
                keys == jobs.key_seq(),
                forall|q: int| 0 <= q < batch@.len() ==> (#[trigger] batch@[q]) < n,
                names@.len() == m,
                forall|q: int| 0 <= q < m ==> (#[trigger] names@[q])@ == keys[batch@[q] as int],
            decreases batch.len() - m,
        {
            let (nm, _) = jobs.entry(batch[m]);
            names.push(nm.clone());
            m = m + 1;
        }
        // Mark the batch as scheduled.
        let ghost before = processed@;
        let mut m: usize = 0;
        while m < batch.len()
            invariant
                m <= batch.len(),
                processed@.len() == n,
                forall|q: int| 0 <= q < batch@.len() ==> (#[trigger] batch@[q]) < n,
                forall|q1: int, q2: int| 0 <= q1 < q2 < batch@.len() ==> batch@[q1] < batch@[q2],
                forall|q: int| 0 <= q < batch@.len() ==> !before[#[trigger] batch@[q] as int],
                forall|b: int| 0 <= b < n ==> (#[trigger] processed@[b] <==> (before[b] || exists|q: int|
                    0 <= q < m && batch@[q] == b)),
                done == count_true(processed@),
                done <= m + count_true(before),
                count_true(before) + m == count_true(processed@),
            decreases batch.len() - m,
        {
            proof {
                let b = batch@[m as int] as int;
                if processed@[b] {
                    let q = choose|q: int| 0 <= q < m && batch@[q] == b;
                }
                lemma_count_true_set(processed@, b);
                lemma_count_true_bound(processed@.update(b, true));
            }
            processed.set(batch[m], true);
            done = done + 1;
            proof {
                assert forall|b: int| 0 <= b < n implies (#[trigger] processed@[b] <==> (before[b] || exists|q: int|
                    0 <= q < m + 1 && batch@[q] == b)) by {
                    if b == batch@[m as int] {
                        assert(batch@[m as int] == b);
                    }
                    if exists|q: int| 0 <= q < m + 1 && batch@[q] == b {
                        let q = choose|q: int| 0 <= q < m + 1 && batch@[q] == b;
                        if q < m {
                        }
                    }
                }
            }
            m = m + 1;
        }
        proof {
            lemma_count_true_bound(processed@);
            let p2 = done_after(g, k + 1);
            assert(p2 == p.union(ready(g, p)));
            assert forall|b: int| 0 <= b < n implies (#[trigger] processed@[b] <==> p2.contains(keys[b])) by {
                if exists|q: int| 0 <= q < batch@.len() && batch@[q] == b {
                    let q = choose|q: int| 0 <= q < batch@.len() && batch@[q] == b;
                    assert(ready(g, p).contains(keys[batch@[q] as int]));
                }
                if ready(g, p).contains(keys[b]) {
                    assert(batch@.contains(b as usize));
                    let q = choose|q: int| 0 <= q < batch@.len() && batch@[q] == b as usize;
                }
            }
            // the batch lists exactly the ready jobs, each once
            assert(views(names@).no_duplicates()) by {
                assert forall|q1: int, q2: int| 0 <= q1 < views(names@).len() && 0 <= q2 < views(names@).len() && q1 != q2
                    implies views(names@)[q1] != views(names@)[q2] by {
                    assert(views(names@)[q1] == keys[batch@[q1] as int]);
                    assert(views(names@)[q2] == keys[batch@[q2] as int]);
                    if q1 < q2 {
                        assert(batch@[q1] < batch@[q2]);
                    } else {
                        assert(batch@[q2] < batch@[q1]);
                    }
                }
            }
            assert(views(names@).to_set() =~= level(g, k)) by {
                assert forall|nm: Seq<char>| #[trigger] views(names@).to_set().contains(nm) <==> level(g, k).contains(nm) by {
                    if views(names@).contains(nm) {
                        let q = choose|q: int| 0 <= q < views(names@).len() && views(names@)[q] == nm;
                        assert(views(names@)[q] == names@[q]@);
                        assert(ready(g, p).contains(keys[batch@[q] as int]));
                    }
                    if level(g, k).contains(nm) {
                        let q = choose|q: int| 0 <= q < batch@.len() && keys[batch@[q] as int] == nm;
                        assert(views(names@)[q] == nm);
                    }
                }
            }
        }
        plan.push(names);
        proof {
            k = k + 1;
            assert forall|j: int|
                #![trigger plan@[j]]
                0 <= j < k implies {
                    &&& views(plan@[j]@).no_duplicates()
                    &&& views(plan@[j]@).to_set() == level(g, j as nat)
                    &&& plan@[j]@.len() > 0
                } by {
            }
        }
    }
    proof {
        assert(plan_view(plan@).len() == plan@.len());
        assert forall|j: int| #![trigger plan_view(plan@)[j]] 0 <= j < plan_view(plan@).len() implies plan_view(plan@)[j] == views(plan@[j]@) by {}
        assert(is_level_plan(g, plan_view(plan@))) by {
            assert forall|j: int| #![trigger plan_view(plan@)[j]] 0 <= j < plan_view(plan@).len() implies {
                &&& plan_view(plan@)[j].no_duplicates()
                &&& plan_view(plan@)[j].to_set() == level(g, j as nat)
                &&& plan_view(plan@)[j].len() > 0
            } by {
                assert(plan_view(plan@)[j] == views(plan@[j]@));
                assert(plan@[j]@.len() > 0);
            }
        }
    }

    // Jobs that were never scheduled form a cycle.
    let mut stuck: Vec<String> = Vec::new();
    let mut a: usize = 0;
    while a < n
        invariant
            a <= n,
            n == keys.len(),
            keys == jobs.key_seq(),
            processed@.len() == n,
            forall|b: int| 0 <= b < n ==> (#[trigger] processed@[b] <==> done_after(g, k).contains(keys[b])),
            views(stuck@) == not_done(keys.take(a as int), done_after(g, k)),
            stuck@.len() == 0 ==> forall|b: int| 0 <= b < a ==> #[trigger] processed@[b],
        decreases n - a,
    {
        let ghost before = views(stuck@);
        let (nm, _) = jobs.entry(a);
        if !processed[a] {
            stuck.push(nm.clone());
        }
        proof {
            let ks = keys.take(a + 1);
            assert(ks.drop_last() =~= keys.take(a as int));
            assert(ks.last() == keys[a as int]);
            if !processed@[a as int] {
                assert(views(stuck@) =~= before.push(nm@));
            } else {
                assert(views(stuck@) =~= before);
            }
        }
        a = a + 1;
    }
    assert(keys.take(n as int) =~= keys);
    if stuck.len() == 0 {
        proof {
            assert forall|nm: Seq<char>| g.dom().contains(nm) implies #[trigger] done_after(g, k).contains(nm) by {
                assert(keys.contains(nm));
                let b = choose|b: int| 0 <= b < keys.len() && keys[b] == nm;
                assert(processed@[b]);
            }
            lemma_done_in_dom(g, k);
            assert(done_after(g, k) =~= g.dom());
        }
        Ok(plan)
    } else {
        let mut msg = owned("Circular dependency detected in workflow jobs: ");
        let list = join_strings(&stuck, ", ");
        push_str(&mut msg, list.as_str());
        proof {
            let ghost any = views(stuck@)[0];
            assert(not_done(keys, done_after(g, k)).len() > 0);
            assert(done_after(g, k) != g.dom()) by {
                lemma_not_done_members(keys, done_after(g, k));
                let nm = not_done(keys, done_after(g, k))[0];
                assert(keys.contains(nm));
            }
        }
        Err(msg)
    }
}

/// Members of `not_done` are keys outside `done`.
proof fn lemma_not_done_members(keys: Seq<Seq<char>>, done: Set<Seq<char>>)
    ensures
        forall|i: int|
            0 <= i < not_done(keys, done).len() ==> keys.contains(#[trigger] not_done(keys, done)[i])
                && !done.contains(not_done(keys, done)[i]),
    decreases keys.len(),
{
    if keys.len() > 0 {
        lemma_not_done_members(keys.drop_last(), done);
        assert forall|i: int| 0 <= i < not_done(keys, done).len() implies keys.contains(#[trigger] not_done(keys, done)[i])
            && !done.contains(not_done(keys, done)[i]) by {
            let r = not_done(keys.drop_last(), done);
            if i < r.len() {
                assert(not_done(keys, done)[i] == r[i]);
                let j = choose|j: int| 0 <= j < keys.drop_last().len() && keys.drop_last()[j] == r[i];
                assert(keys[j] == r[i]);
            } else {
                assert(keys[keys.len() - 1] == keys.last());
            }
        }
    }
}

} // verus!

verus! {

/// A nonempty set of defined jobs in which every job needs another member of the set.
pub open spec fn self_blocking(jobs: Map<Seq<char>, Job>, s: Set<Seq<char>>) -> bool {
    &&& s.subset_of(jobs.dom())
    &&& exists|m: Seq<char>| s.contains(m)
    &&& forall|m: Seq<char>|
        #![trigger s.contains(m)]
        s.contains(m) ==> exists|t: int|
            0 <= t < jobs[m].needs_view().len() && s.contains(#[trigger] jobs[m].needs_view()[t])
}

/// `d` appears in one of the batches before batch `k`.
pub open spec fn in_earlier_batch(plan: Seq<Seq<Seq<char>>>, k: int, d: Seq<char>) -> bool {
    exists|j: int| 0 <= j < k && #[trigger] plan[j].contains(d)
}

/// A plan accepted by `resolve_dependencies` is a topological layering: each
/// job appears in exactly one batch, and everything a job needs appears in an
/// earlier batch.
pub proof fn lemma_plan_is_topological(jobs: Map<Seq<char>, Job>, plan: Seq<Seq<Seq<char>>>)
    requires
        is_level_plan(jobs, plan),
        done_after(jobs, plan.len()) == jobs.dom(),
    ensures
        forall|n: Seq<char>|
            jobs.dom().contains(n) ==> exists|k: int| 0 <= k < plan.len() && #[trigger] plan[k].contains(n),
        forall|k1: int, k2: int, n: Seq<char>|
            0 <= k1 < plan.len() && 0 <= k2 < plan.len() && #[trigger] plan[k1].contains(n)
                && #[trigger] plan[k2].contains(n) ==> k1 == k2,
        forall|k: int, i: int, t: int|
            0 <= k < plan.len() && 0 <= i < plan[k].len() && 0 <= t < jobs[plan[k][i]].needs_view().len()
                ==> #[trigger] in_earlier_batch(plan, k, jobs[plan[k][i]].needs_view()[t]),
{
    assert forall|n: Seq<char>| jobs.dom().contains(n) implies exists|k: int|
        0 <= k < plan.len() && #[trigger] plan[k].contains(n) by {
        lemma_done_has_level(jobs, plan.len(), n);
        let j = choose|j: nat| j < plan.len() && #[trigger] level(jobs, j).contains(n);
        assert(plan[j as int].to_set() == level(jobs, j));
        assert(plan[j as int].to_set().contains(n));
    }
    assert forall|k1: int, k2: int, n: Seq<char>|
        0 <= k1 < plan.len() && 0 <= k2 < plan.len() && #[trigger] plan[k1].contains(n)
            && #[trigger] plan[k2].contains(n) implies k1 == k2 by {
        assert(plan[k1].to_set().contains(n));
        assert(plan[k2].to_set().contains(n));
        assert(level(jobs, k1 as nat).contains(n));
        assert(level(jobs, k2 as nat).contains(n));
        if k1 < k2 {
            lemma_level_fresh(jobs, k1 as nat, n);
            lemma_done_monotone(jobs, (k1 + 1) as nat, k2 as nat);
        } else if k2 < k1 {
            lemma_level_fresh(jobs, k2 as nat, n);
            lemma_done_monotone(jobs, (k2 + 1) as nat, k1 as nat);
        }
    }
    assert forall|k: int, i: int, t: int|
        0 <= k < plan.len() && 0 <= i < plan[k].len() && 0 <= t < jobs[plan[k][i]].needs_view().len()
            implies #[trigger] in_earlier_batch(plan, k, jobs[plan[k][i]].needs_view()[t]) by {
        let n = plan[k][i];
        assert(plan[k].to_set().contains(n));
        assert(level(jobs, k as nat).contains(n));
        let d = jobs[n].needs_view()[t];
        assert(done_after(jobs, k as nat).contains(d));
        lemma_done_has_level(jobs, k as nat, d);
        let j = choose|j: nat| j < k as nat && #[trigger] level(jobs, j).contains(d);
        assert(plan[j as int].to_set() == level(jobs, j));
        assert(plan[j as int].to_set().contains(d));
        assert(plan[j as int].contains(d));
    }
}

/// No job of a self-blocking set is ever scheduled.
proof fn lemma_blocked_never_done(jobs: Map<Seq<char>, Job>, s: Set<Seq<char>>, k: nat)
    requires
        self_blocking(jobs, s),
    ensures
        forall|m: Seq<char>| s.contains(m) ==> !#[trigger] done_after(jobs, k).contains(m),
    decreases k,
{
    if k > 0 {
        let p = done_after(jobs, (k - 1) as nat);
        lemma_blocked_never_done(jobs, s, (k - 1) as nat);
        assert forall|m: Seq<char>| s.contains(m) implies !#[trigger] done_after(jobs, k).contains(m) by {
            let t = choose|t: int| 0 <= t < jobs[m].needs_view().len() && s.contains(#[trigger] jobs[m].needs_view()[t]);
            assert(!p.contains(jobs[m].needs_view()[t]));
            assert(!ready(jobs, p).contains(m));
        }
    }
}

/// When every needed job is defined, scheduling stops short of some job exactly
/// when the jobs contain a self-blocking set (a dependency cycle).
pub proof fn lemma_stuck_iff_cycle(jobs: Map<Seq<char>, Job>, k: nat)
    requires
        !has_missing_need(jobs),
        level(jobs, k) == Set::<Seq<char>>::empty(),
    ensures
        done_after(jobs, k) != jobs.dom() <==> exists|s: Set<Seq<char>>| self_blocking(jobs, s),
{
    lemma_done_in_dom(jobs, k);
    let done = done_after(jobs, k);
    if done != jobs.dom() {
        lemma_rest_blocks(jobs, k);
    }
    if exists|s: Set<Seq<char>>| self_blocking(jobs, s) {
        let s = choose|s: Set<Seq<char>>| self_blocking(jobs, s);
        lemma_blocked_never_done(jobs, s, k);
        let m = choose|m: Seq<char>| s.contains(m);
        assert(jobs.dom().contains(m));
        assert(!done.contains(m));
    }
}

/// The unscheduled jobs, once scheduling is stuck, form a self-blocking set.
proof fn lemma_rest_blocks(jobs: Map<Seq<char>, Job>, k: nat)
    requires
        !has_missing_need(jobs),
        level(jobs, k) == Set::<Seq<char>>::empty(),
        done_after(jobs, k) != jobs.dom(),
    ensures
        self_blocking(jobs, jobs.dom().difference(done_after(jobs, k))),
{
    lemma_done_in_dom(jobs, k);
    let done = done_after(jobs, k);
    let s = jobs.dom().difference(done);
    assert(exists|m: Seq<char>| s.contains(m)) by {
        if forall|m: Seq<char>| !s.contains(m) {
            assert forall|m: Seq<char>| jobs.dom().contains(m) implies done.contains(m) by {
                assert(!s.contains(m));
            }
            assert(done =~= jobs.dom());
        }
    }
    assert forall|m: Seq<char>| #![trigger s.contains(m)] s.contains(m) implies exists|t: int|
        0 <= t < jobs[m].needs_view().len() && s.contains(#[trigger] jobs[m].needs_view()[t]) by {
        assert(!ready(jobs, done).contains(m));
        assert(!needs_met(jobs, done, m));
        let t = choose|t: int| 0 <= t < jobs[m].needs_view().len() && !done.contains(#[trigger] jobs[m].needs_view()[t]);
        assert(jobs.dom().contains(jobs[m].needs_view()[t]));
        assert(s.contains(jobs[m].needs_view()[t]));
    }
}

} // verus!

verus! {

/// The jobs that `n` needs (none when `n` is not a job of the workflow).
pub open spec fn needs_of_name(jobs: Map<Seq<char>, Job>, n: Seq<char>) -> Seq<Seq<char>> {
    if jobs.dom().contains(n) {
        jobs[n].needs_view()
    } else {
        Seq::empty()
    }
}

/// Each name in `path` is needed by the one before it.
pub open spec fn is_needs_path(jobs: Map<Seq<char>, Job>, path: Seq<Seq<char>>) -> bool {
    &&& path.len() > 0
    &&& forall|i: int| 0 <= i < path.len() - 1 ==> #[trigger] needs_of_name(jobs, path[i]).contains(path[i + 1])
}

/// `to` is `from` or one of its transitive `needs`.
pub open spec fn reaches(jobs: Map<Seq<char>, Job>, from: Seq<char>, to: Seq<char>) -> bool {
    exists|path: Seq<Seq<char>>| #[trigger] is_needs_path(jobs, path) && path[0] == from && path.last() == to
}

/// Every name needed by any of the jobs, in order.
pub open spec fn all_needs(vals: Seq<Job>) -> Seq<Seq<char>>
    decreases vals.len(),
{
    if vals.len() == 0 {
        Seq::empty()
    } else {
        all_needs(vals.drop_last()) + vals.last().needs_view()
    }
}

proof fn lemma_all_needs_contains(vals: Seq<Job>, i: int, t: int)
    requires
        0 <= i < vals.len(),
        0 <= t < vals[i].needs_view().len(),
    ensures
        all_needs(vals).contains(vals[i].needs_view()[t]),
    decreases vals.len(),
{
    let pre = all_needs(vals.drop_last());
    let last = vals.last().needs_view();
    if i == vals.len() - 1 {
        assert((pre + last)[pre.len() + t] == last[t]);
    } else {
        lemma_all_needs_contains(vals.drop_last(), i, t);
        let j = choose|j: int| 0 <= j < pre.len() && pre[j] == vals[i].needs_view()[t];
        assert((pre + last)[j] == pre[j]);
    }
}

/// A job and all the jobs it transitively needs; `target_job` comes first and
/// no name is repeated.
pub fn collect_transitive_deps(target_job: &str, jobs: &StrMap<Job>) -> (r: Vec<String>)
    ensures
        views(r@).no_duplicates(),
        r@.len() > 0 && r@[0]@ == target_job@,
        forall|n: Seq<char>| views(r@).contains(n) <==> reaches(jobs@, target_job@, n),
{
    proof {
        use_type_invariant(jobs);
        jobs.lemma_wf();
    }
    let ghost g = jobs@;
    let ghost keys = jobs.key_seq();
    let ghost vals = jobs.val_seq();
    let ghost univ = seq![target_job@] + all_needs(vals);
    let mut deps: Vec<String> = Vec::new();
    deps.push(owned(target_job));
    let ghost mut paths: Seq<Seq<Seq<char>>> = seq![seq![target_job@]];
    proof {
        assert(univ[0] == target_job@);
        assert(univ.contains(target_job@));
        assert(is_needs_path(g, paths[0]));
    }
    let mut head: usize = 0;
    while head < deps.len()
        invariant
            g == jobs@,
            keys == jobs.key_seq(),
            vals == jobs.val_seq(),
            keys.len() == vals.len(),
            keys.to_set() == g.dom(),
            forall|a: int| 0 <= a < keys.len() ==> #[trigger] g[keys[a]] == vals[a],
            univ == seq![target_job@] + all_needs(vals),
            head <= deps@.len(),
            deps@.len() > 0,
            deps@[0]@ == target_job@,
            views(deps@).no_duplicates(),
            forall|i: int| 0 <= i < deps@.len() ==> univ.contains(#[trigger] views(deps@)[i]),
            paths.len() == deps@.len(),
            forall|i: int|
                0 <= i < deps@.len() ==> is_needs_path(g, #[trigger] paths[i]) && paths[i][0] == target_job@
                    && paths[i].last() == views(deps@)[i],
            forall|i: int, t: int|
                0 <= i < head && 0 <= t < needs_of_name(g, views(deps@)[i]).len() ==> views(deps@).contains(
                    #[trigger] needs_of_name(g, views(deps@)[i])[t],
                ),
        decreases univ.to_set().len() - head,
    {
        proof {
            univ.lemma_cardinality_of_set();
            views(deps@).unique_seq_to_set();
            assert(views(deps@).to_set().subset_of(univ.to_set()));
            vstd::set_lib::lemma_len_subset(views(deps@).to_set(), univ.to_set());
        }
        let cur = deps[head].clone();
        let ghost cur_v = cur@;
        let ghost cur_path = paths[head as int];
        assert(cur_v == views(deps@)[head as int]);
        match jobs.get(cur.as_str()) {
            Some(job) => {
                match &job.needs {
                    Some(needs) => {
                        let mut t: usize = 0;
                        while t < needs.len()
                            invariant
                                t <= needs.len(),
                                g == jobs@,
                                g.dom().contains(cur_v),
                                *job == g[cur_v],
                                job.needs == Some(*needs),
                                keys.to_set() == g.dom(),
                                keys.len() == vals.len(),
                                forall|a: int| 0 <= a < keys.len() ==> #[trigger] g[keys[a]] == vals[a],
                                univ == seq![target_job@] + all_needs(vals),
                                head < deps@.len(),
                                deps@.len() > 0,
                                deps@[0]@ == target_job@,
                                views(deps@)[head as int] == cur_v,
                                views(deps@).no_duplicates(),
                                forall|i: int| 0 <= i < deps@.len() ==> univ.contains(#[trigger] views(deps@)[i]),
                                paths.len() == deps@.len(),
                                is_needs_path(g, cur_path) && cur_path[0] == target_job@ && cur_path.last() == cur_v,
                                forall|i: int|
                                    0 <= i < deps@.len() ==> is_needs_path(g, #[trigger] paths[i]) && paths[i][0]
                                        == target_job@ && paths[i].last() == views(deps@)[i],
                                forall|i: int, u: int|
                                    0 <= i < head && 0 <= u < needs_of_name(g, views(deps@)[i]).len()
                                        ==> views(deps@).contains(#[trigger] needs_of_name(g, views(deps@)[i])[u]),
                                forall|u: int| 0 <= u < t ==> views(deps@).contains(#[trigger] job.needs_view()[u]),
                            decreases needs.len() - t,
                        {
                            let ghost nv = needs@[t as int]@;
                            assert(job.needs_view()[t as int] == nv);
                            if !vec_contains(&deps, needs[t].as_str()) {
                                let ghost before = deps@;
                                deps.push(needs[t].clone());
                                proof {
                                    assert(views(deps@) =~= views(before).push(nv));
                                    let np = cur_path.push(nv);
                                    assert(needs_of_name(g, cur_v) == job.needs_view());
                                    assert(needs_of_name(g, cur_v).contains(nv));
                                    assert(is_needs_path(g, np)) by {
                                        assert forall|i: int| 0 <= i < np.len() - 1 implies #[trigger] needs_of_name(g, np[i]).contains(np[i + 1]) by {
                                            if i < cur_path.len() - 1 {
                                                assert(np[i] == cur_path[i]);
                                                assert(np[i + 1] == cur_path[i + 1]);
                                            } else {
                                                assert(np[i] == cur_v);
                                            }
                                        }
                                    }
                                    paths = paths.push(np);
                                    // the new name is one of the jobs' needs
                                    assert(keys.contains(cur_v));
                                    let a = choose|a: int| 0 <= a < keys.len() && keys[a] == cur_v;
                                    lemma_all_needs_contains(vals, a, t as int);
                                    let w = choose|w: int| 0 <= w < all_needs(vals).len() && all_needs(vals)[w] == nv;
                                    assert(univ[w + 1] == nv);
                                    assert forall|i: int, u: int|
                                        0 <= i < head && 0 <= u < needs_of_name(g, views(deps@)[i]).len()
                                            implies views(deps@).contains(#[trigger] needs_of_name(g, views(deps@)[i])[u]) by {
                                        assert(views(deps@)[i] == views(before)[i]);
                                        let q = choose|q: int| 0 <= q < views(before).len() && views(before)[q] == needs_of_name(g, views(before)[i])[u];
                                        assert(views(deps@)[q] == views(before)[q]);
                                    }
                                    assert forall|u: int| 0 <= u < t + 1 implies views(deps@).contains(#[trigger] job.needs_view()[u]) by {
                                        if u < t {
                                            let q = choose|q: int| 0 <= q < views(before).len() && views(before)[q] == job.needs_view()[u];
                                            assert(views(deps@)[q] == views(before)[q]);
                                        } else {
                                            assert(views(deps@)[before.len() as int] == nv);
                                        }
                                    }
                                }
                            }
                            t = t + 1;
                        }
                        proof {
                            assert forall|i: int, u: int|
                                0 <= i < head + 1 && 0 <= u < needs_of_name(g, views(deps@)[i]).len()
                                    implies views(deps@).contains(#[trigger] needs_of_name(g, views(deps@)[i])[u]) by {
                                if i == head {
                                    assert(needs_of_name(g, cur_v) == job.needs_view());
                                }
                            }
                        }
                    },
                    None => {
                        proof {
                            assert(needs_of_name(g, cur_v).len() == 0);
                        }
                    },
                }
            },
            None => {
                proof {
                    assert(needs_of_name(g, cur_v).len() == 0);
                }
            },
        }
        head = head + 1;
    }
    proof {
        assert forall|n: Seq<char>| views(deps@).contains(n) implies reaches(g, target_job@, n) by {
            let i = choose|i: int| 0 <= i < views(deps@).len() && views(deps@)[i] == n;
            assert(is_needs_path(g, paths[i]));
        }
        assert forall|n: Seq<char>| reaches(g, target_job@, n) implies views(deps@).contains(n) by {
            let path = choose|path: Seq<Seq<char>>| #[trigger] is_needs_path(g, path) && path[0] == target_job@ && path.last() == n;
            assert(views(deps@)[0] == target_job@);
            assert(views(deps@).contains(path[0]));
            lemma_closed_contains_path(g, views(deps@), path);
            assert(path[path.len() - 1] == n);
        }
    }
    deps
}

/// A set closed under `needs` that holds the start of a path holds all of it.
proof fn lemma_closed_contains_path(jobs: Map<Seq<char>, Job>, s: Seq<Seq<char>>, path: Seq<Seq<char>>)
    requires
        is_needs_path(jobs, path),
        s.contains(path[0]),
        forall|i: int, t: int|
            0 <= i < s.len() && 0 <= t < needs_of_name(jobs, s[i]).len() ==> s.contains(
                #[trigger] needs_of_name(jobs, s[i])[t],
            ),
    ensures
        forall|i: int| 0 <= i < path.len() ==> s.contains(#[trigger] path[i]),
{
    assert forall|i: int| 0 <= i < path.len() implies s.contains(#[trigger] path[i]) by {
        lemma_closed_contains_path_prefix(jobs, s, path, i);
    }
}

proof fn lemma_closed_contains_path_prefix(jobs: Map<Seq<char>, Job>, s: Seq<Seq<char>>, path: Seq<Seq<char>>, i: int)
    requires
        is_needs_path(jobs, path),
        s.contains(path[0]),
        0 <= i < path.len(),
        forall|i: int, t: int|
            0 <= i < s.len() && 0 <= t < needs_of_name(jobs, s[i]).len() ==> s.contains(
                #[trigger] needs_of_name(jobs, s[i])[t],
            ),
    ensures
        s.contains(path[i]),
    decreases i,
{
    if i > 0 {
        lemma_closed_contains_path_prefix(jobs, s, path, i - 1);
        let q = choose|q: int| 0 <= q < s.len() && s[q] == path[i - 1];
        let j = i - 1;
        assert(0 <= j < path.len() - 1);
        assert(needs_of_name(jobs, path[j]).contains(path[j + 1]));
        let ns = needs_of_name(jobs, path[i - 1]);
        let t = choose|t: int| 0 <= t < ns.len() && ns[t] == path[i];
        assert(s.contains(needs_of_name(jobs, s[q])[t]));
    }
}

/// Any set that holds `from` and is closed under `needs` holds everything
/// `from` reaches: the transitive dependencies are the least such set.
pub proof fn lemma_reaches_least(jobs: Map<Seq<char>, Job>, s: Set<Seq<char>>, from: Seq<char>, to: Seq<char>)
    requires
        s.contains(from),
        forall|n: Seq<char>, t: int|
            s.contains(n) && 0 <= t < needs_of_name(jobs, n).len() ==> s.contains(#[trigger] needs_of_name(jobs, n)[t]),
        reaches(jobs, from, to),
    ensures
        s.contains(to),
{
    let path = choose|path: Seq<Seq<char>>| #[trigger] is_needs_path(jobs, path) && path[0] == from && path.last() == to;
    lemma_set_contains_path(jobs, s, path, path.len() - 1);
}

proof fn lemma_set_contains_path(jobs: Map<Seq<char>, Job>, s: Set<Seq<char>>, path: Seq<Seq<char>>, i: int)
    requires
        is_needs_path(jobs, path),
        s.contains(path[0]),
        0 <= i < path.len(),
        forall|n: Seq<char>, t: int|
            s.contains(n) && 0 <= t < needs_of_name(jobs, n).len() ==> s.contains(#[trigger] needs_of_name(jobs, n)[t]),
    ensures
        s.contains(path[i]),
    decreases i,
{
    if i > 0 {
        lemma_set_contains_path(jobs, s, path, i - 1);
        let j = i - 1;
        assert(0 <= j < path.len() - 1);
        assert(needs_of_name(jobs, path[j]).contains(path[j + 1]));
        let ns = needs_of_name(jobs, path[i - 1]);
        let t = choose|t: int| 0 <= t < ns.len() && ns[t] == path[i];
    }
}

} // verus!

verus! {

/// The error for a target job that the workflow does not define.
pub open spec fn job_not_found_message(target: Seq<char>, kind: Seq<char>, available: Seq<Seq<char>>) -> Seq<char> {
    "Job '"@ + target + "' not found in "@ + kind + ". Available jobs: "@ + join(available, ", "@)
}

/// Names the missing job and lists the defined jobs in sorted order.
pub fn job_not_found_error(target_job: &str, jobs: &StrMap<Job>, kind: &str) -> (r: String)
    ensures
        exists|available: Seq<Seq<char>>|
            #![trigger job_not_found_message(target_job@, kind@, available)]
            strictly_sorted(available) && available.no_duplicates() && available.to_set() == jobs@.dom()
                && r@ == job_not_found_message(target_job@, kind@, available),
{
    proof {
        use_type_invariant(jobs);
        jobs.lemma_wf();
    }
    let keys = jobs.keys();
    let sorted = sort_distinct(&keys);
    let mut msg = owned("Job '");
    push_str(&mut msg, target_job);
    push_str(&mut msg, "' not found in ");
    push_str(&mut msg, kind);
    push_str(&mut msg, ". Available jobs: ");
    let list = join_strings(&sorted, ", ");
    push_str(&mut msg, list.as_str());
    assert(msg@ =~= job_not_found_message(target_job@, kind@, views(sorted@)));
    msg
}

/// The names of `batch` that lie in `keep`, in order.
pub open spec fn keep_in(batch: Seq<Seq<char>>, keep: Set<Seq<char>>) -> Seq<Seq<char>>
    decreases batch.len(),
{
    if batch.len() == 0 {
        Seq::empty()
    } else if keep.contains(batch.last()) {
        keep_in(batch.drop_last(), keep).push(batch.last())
    } else {
        keep_in(batch.drop_last(), keep)
    }
}

/// Each batch narrowed to the names in `keep`; batches left empty are dropped.
pub open spec fn prune_plan(plan: Seq<Seq<Seq<char>>>, keep: Set<Seq<char>>) -> Seq<Seq<Seq<char>>>
    decreases plan.len(),
{
    if plan.len() == 0 {
        Seq::empty()
    } else if keep_in(plan.last(), keep).len() > 0 {
        prune_plan(plan.drop_last(), keep).push(keep_in(plan.last(), keep))
    } else {
        prune_plan(plan.drop_last(), keep)
    }
}

/// The names `target` reaches through `needs`.
pub open spec fn reach_set(jobs: Map<Seq<char>, Job>, target: Seq<char>) -> Set<Seq<char>> {
    Set::new(|n: Seq<char>| reaches(jobs, target, n))
}

/// Narrows an execution plan to `target_job` and the jobs it transitively needs.
pub fn filter_plan_to_job(plan: Vec<Vec<String>>, target_job: &str, jobs: &StrMap<Job>, kind: &str) -> (r: Result<Vec<Vec<String>>, String>)
    ensures
        !jobs@.dom().contains(target_job@) ==> (r is Err && exists|available: Seq<Seq<char>>|
            #![trigger job_not_found_message(target_job@, kind@, available)]
            strictly_sorted(available) && available.no_duplicates() && available.to_set() == jobs@.dom()
                && r->Err_0@ == job_not_found_message(target_job@, kind@, available)),
        jobs@.dom().contains(target_job@) ==> (r is Ok && plan_view(r->Ok_0@) == prune_plan(
            plan_view(plan@),
            reach_set(jobs@, target_job@),
        )),
{
    if !jobs.contains_key(target_job) {
        return Err(job_not_found_error(target_job, jobs, kind));
    }
    let needed = collect_transitive_deps(target_job, jobs);
    let ghost keep = reach_set(jobs@, target_job@);
    let mut out: Vec<Vec<String>> = Vec::new();
    let mut k: usize = 0;
    while k < plan.len()
        invariant
            k <= plan@.len(),
            forall|n: Seq<char>| views(needed@).contains(n) <==> keep.contains(n),
            plan_view(out@) == prune_plan(plan_view(plan@).take(k as int), keep),
        decreases plan.len() - k,
    {
        let batch = &plan[k];
        let mut kept: Vec<String> = Vec::new();
        let mut i: usize = 0;
        while i < batch.len()
            invariant
                i <= batch@.len(),
                forall|n: Seq<char>| views(needed@).contains(n) <==> keep.contains(n),
                views(kept@) == keep_in(views(batch@).take(i as int), keep),
            decreases batch.len() - i,
        {
            proof {
                assert(views(batch@).take(i + 1).drop_last() =~= views(batch@).take(i as int));
                assert(views(batch@).take(i + 1).last() == batch@[i as int]@);
            }
            if vec_contains(&needed, batch[i].as_str()) {
                kept.push(batch[i].clone());
                assert(views(kept@) =~= keep_in(views(batch@).take(i as int), keep).push(batch@[i as int]@));
            }
            i = i + 1;
        }
        proof {
            assert(views(batch@).take(batch@.len() as int) =~= views(batch@));
            let pv = plan_view(plan@).take(k + 1);
            assert(pv.drop_last() =~= plan_view(plan@).take(k as int));
            assert(pv.last() == views(batch@));
        }
        let ghost before = out@;
        if kept.len() > 0 {
            out.push(kept);
            assert(plan_view(out@) =~= plan_view(before).push(views(kept@)));
        }
        k = k + 1;
    }
    assert(plan_view(plan@).take(plan@.len() as int) =~= plan_view(plan@));
    Ok(out)
}

/// The batches before the one holding `target`, then `target` alone; all
/// batches when none holds it.
pub open spec fn stage_prefix(plan: Seq<Seq<Seq<char>>>, target: Seq<char>) -> Seq<Seq<Seq<char>>>
    decreases plan.len(),
{
    if plan.len() == 0 {
        Seq::empty()
    } else if plan[0].contains(target) {
        seq![seq![target]]
    } else {
        seq![plan[0]] + stage_prefix(plan.drop_first(), target)
    }
}

/// Narrows a stage-ordered plan to `target_job`: every earlier stage is kept
/// whole, the target's stage is reduced to the target, later stages are dropped.
pub fn filter_plan_to_job_by_stage(plan: Vec<Vec<String>>, target_job: &str, jobs: &StrMap<Job>, kind: &str) -> (r: Result<Vec<Vec<String>>, String>)
    ensures
        !jobs@.dom().contains(target_job@) ==> (r is Err && exists|available: Seq<Seq<char>>|
            #![trigger job_not_found_message(target_job@, kind@, available)]
            strictly_sorted(available) && available.no_duplicates() && available.to_set() == jobs@.dom()
                && r->Err_0@ == job_not_found_message(target_job@, kind@, available)),
        jobs@.dom().contains(target_job@) ==> (r is Ok && plan_view(r->Ok_0@) == stage_prefix(
            plan_view(plan@),
            target_job@,
        )),
{
    if !jobs.contains_key(target_job) {
        return Err(job_not_found_error(target_job, jobs, kind));
    }
    let ghost pv = plan_view(plan@);
    let mut out: Vec<Vec<String>> = Vec::new();
    let mut k: usize = 0;
    assert(pv.skip(0) =~= pv);
    assert(plan_view(out@) + stage_prefix(pv, target_job@) =~= stage_prefix(pv, target_job@));
    while k < plan.len()
        invariant
            k <= plan@.len(),
            jobs@.dom().contains(target_job@),
            pv == plan_view(plan@),
            stage_prefix(pv, target_job@) == plan_view(out@) + stage_prefix(pv.skip(k as int), target_job@),
        decreases plan.len() - k,
    {
        proof {
            assert(pv.skip(k as int)[0] == pv[k as int]);
            assert(pv.skip(k as int).drop_first() =~= pv.skip(k + 1));
            assert(pv[k as int] == views(plan@[k as int]@));
        }
        if vec_contains(&plan[k], target_job) {
            let mut only: Vec<String> = Vec::new();
            only.push(owned(target_job));
            let ghost before = out@;
            out.push(only);
            proof {
                assert(views(only@) =~= seq![target_job@]);
                assert(plan_view(out@) =~= plan_view(before).push(seq![target_job@]));
                assert(plan_view(out@) =~= plan_view(before) + seq![seq![target_job@]]);
            }
            return Ok(out);
        }
        let ghost before = out@;
        out.push(plan[k].clone());
        proof {
            assert(plan_view(out@) =~= plan_view(before) + seq![pv[k as int]]);
            assert(seq![pv[k as int]] + stage_prefix(pv.skip(k + 1), target_job@) == stage_prefix(pv.skip(k as int), target_job@));
            assert(plan_view(out@) + stage_prefix(pv.skip(k + 1), target_job@) =~= plan_view(before) + (seq![pv[k as int]] + stage_prefix(pv.skip(k + 1), target_job@)));
        }
        k = k + 1;
    }
    proof {
        assert(pv.skip(plan@.len() as int).len() == 0);
        assert(plan_view(out@) + Seq::<Seq<Seq<char>>>::empty() =~= plan_view(out@));
    }
    Ok(out)
}

} // verus!
