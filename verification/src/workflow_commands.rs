//! What a step hands back to the job besides its status: `::set-output`
//! commands in its output, and the `GITHUB_OUTPUT` and `GITHUB_ENV` files
//! it wrote (`NAME=value` lines and `NAME<<DELIMITER` blocks).
use vstd::prelude::*;
use crate::action_inputs::{line_split, split_lines};
use crate::paths::pair_views;
use crate::strmap::{StrMap, str_view, insert_str};
use crate::engine::nested_view;
use crate::text::{views, join_strings, owned,
    chars_of, find_char, find_char_exec, find_seq, find_seq_exec, has_prefix, join, lemma_find_char, lemma_find_seq, slice_range, starts_with, string_of};

verus! {

/// A line without the `\r` of a `\r\n` line break.
pub open spec fn strip_cr(l: Seq<char>) -> Seq<char> {
    if l.len() > 0 && l.last() == '\r' { l.drop_last() } else { l }
}

/// The lines of a text, split at every `\n`, each without a final `\r`.
pub open spec fn text_lines(s: Seq<char>) -> Seq<Seq<char>> {
    split_lines(s).map_values(|l: Seq<char>| strip_cr(l))
}

fn strip_cr_exec(l: Vec<char>) -> (r: Vec<char>)
    ensures
        r@ == strip_cr(l@),
{
    let n = l.len();
    if n > 0 && l[n - 1] == '\r' {
        let r = slice_range(&l, 0, n - 1);
        assert(r@ =~= l@.drop_last());
        r
    } else {
        l
    }
}

/// Splits a text into its lines (see [`text_lines`]).
pub fn text_lines_exec(s: &str) -> (r: Vec<Vec<char>>)
    ensures
        r@.map_values(|v: Vec<char>| v@) == text_lines(s@),
{
    let v = chars_of(s);
    let mut out: Vec<Vec<char>> = Vec::new();
    let mut cur: Vec<char> = Vec::new();
    let ghost mut done: Seq<Seq<char>> = Seq::empty();
    let mut i: usize = 0;
    while i < v.len()
        invariant
            i <= v@.len(),
            v@ == s@,
            line_split(v@.take(i as int)) == (done, cur@),
            out@.map_values(|w: Vec<char>| w@) == done.map_values(|l: Seq<char>| strip_cr(l)),
        decreases v.len() - i,
    {
        assert(v@.take(i + 1).drop_last() =~= v@.take(i as int));
        assert(v@.take(i + 1).last() == v@[i as int]);
        if v[i] == '\n' {
            let ghost c = cur@;
            let ghost before = out@;
            let line = strip_cr_exec(cur);
            out.push(line);
            proof {
                assert(out@.map_values(|w: Vec<char>| w@) =~= before.map_values(|w: Vec<char>| w@).push(strip_cr(c)));
                assert(done.push(c).map_values(|l: Seq<char>| strip_cr(l)) =~= done.map_values(|l: Seq<char>| strip_cr(l)).push(strip_cr(c)));
                done = done.push(c);
            }
            cur = Vec::new();
        } else {
            cur.push(v[i]);
        }
        i = i + 1;
    }
    assert(v@.take(v@.len() as int) =~= v@);
    let ghost c = cur@;
    let ghost before = out@;
    let line = strip_cr_exec(cur);
    out.push(line);
    assert(out@.map_values(|w: Vec<char>| w@) =~= before.map_values(|w: Vec<char>| w@).push(strip_cr(c)));
    assert(done.push(c).map_values(|l: Seq<char>| strip_cr(l)) =~= done.map_values(|l: Seq<char>| strip_cr(l)).push(strip_cr(c)));
    out
}

/// The name and value of a `::set-output name=NAME::VALUE` line: the name
/// runs to the first `::` after `name=`, the value is the rest of the line.
pub open spec fn set_output_of(l: Seq<char>) -> Option<(Seq<char>, Seq<char>)> {
    if has_prefix(l, "::set-output name="@) {
        let rest = l.skip(18);
        match find_seq(rest, "::"@, 0) {
            Some(i) => Some((rest.take(i), rest.skip(i + 2))),
            None => None,
        }
    } else {
        None
    }
}

/// The `::set-output` commands of a list of lines, in order.
pub open spec fn set_outputs(lines: Seq<Seq<char>>) -> Seq<(Seq<char>, Seq<char>)>
    decreases lines.len(),
{
    if lines.len() == 0 {
        Seq::empty()
    } else {
        let prev = set_outputs(lines.drop_last());
        match set_output_of(lines.last()) {
            Some(p) => prev.push(p),
            None => prev,
        }
    }
}

fn set_output_exec(l: &Vec<char>) -> (r: Option<(String, String)>)
    ensures
        match r {
            Some((n, v)) => set_output_of(l@) == Some((n@, v@)),
            None => set_output_of(l@) is None,
        },
{
    let prefix = chars_of("::set-output name=");
    let sep = chars_of("::");
    proof {
        reveal_strlit("::set-output name=");
        reveal_strlit("::");
    }
    assert(prefix@ =~= "::set-output name="@);
    assert(sep@ =~= "::"@);
    if !starts_with(l, &prefix) {
        return None;
    }
    let n = l.len();
    let rest = slice_range(l, 18, n);
    assert(rest@ =~= l@.skip(18));
    match find_seq_exec(&rest, &sep) {
        Some(i) => {
            proof { lemma_find_seq(rest@, "::"@, 0); }
            let m = rest.len();
            let name = slice_range(&rest, 0, i);
            let value = slice_range(&rest, i + 2, m);
            assert(name@ =~= rest@.take(i as int));
            assert(value@ =~= rest@.skip(i + 2));
            Some((string_of(&name), string_of(&value)))
        },
        None => None,
    }
}

/// The `::set-output` commands in a step's output (see [`set_outputs`]).
pub fn set_output_commands(output: &str) -> (r: Vec<(String, String)>)
    ensures
        pair_views(r@) == set_outputs(text_lines(output@)),
{
    let lines = text_lines_exec(output);
    let ghost ls = lines@.map_values(|v: Vec<char>| v@);
    let mut r: Vec<(String, String)> = Vec::new();
    let mut i: usize = 0;
    while i < lines.len()
        invariant
            i <= lines@.len(),
            ls == lines@.map_values(|v: Vec<char>| v@),
            pair_views(r@) == set_outputs(ls.take(i as int)),
        decreases lines.len() - i,
    {
        assert(ls.take(i + 1).drop_last() =~= ls.take(i as int));
        assert(ls.take(i + 1).last() == lines@[i as int]@);
        let ghost before = r@;
        match set_output_exec(&lines[i]) {
            Some(p) => {
                r.push(p);
                assert(pair_views(r@) =~= pair_views(before).push((p.0@, p.1@)));
            },
            None => {},
        }
        i = i + 1;
    }
    assert(ls.take(lines@.len() as int) =~= ls);
    r
}

/// The outputs table after the outputs `pairs` of step `id` are recorded
/// in order, a later value of a name replacing an earlier one.
pub open spec fn outputs_with(m: Map<Seq<char>, Map<Seq<char>, Seq<char>>>, id: Seq<char>, pairs: Seq<(Seq<char>, Seq<char>)>) -> Map<Seq<char>, Map<Seq<char>, Seq<char>>>
    decreases pairs.len(),
{
    if pairs.len() == 0 {
        m
    } else {
        let prev = outputs_with(m, id, pairs.drop_last());
        let inner = if prev.dom().contains(id) { prev[id] } else { Map::empty() };
        prev.insert(id, inner.insert(pairs.last().0, pairs.last().1))
    }
}

/// Records outputs of a step: under its id when it has one; a step without
/// an id has nowhere to keep them.
pub fn record_step_outputs(outputs: &mut StrMap<StrMap<String>>, step_id: Option<&str>, pairs: &Vec<(String, String)>)
    ensures
        nested_view(final(outputs)@) == (match step_id {
            Some(id) => outputs_with(nested_view(old(outputs)@), id@, pair_views(pairs@)),
            None => nested_view(old(outputs)@),
        }),
{
    let id = match step_id {
        Some(id) => id,
        None => { return; },
    };
    let ghost m0 = nested_view(outputs@);
    let mut i: usize = 0;
    while i < pairs.len()
        invariant
            i <= pairs@.len(),
            nested_view(outputs@) == outputs_with(m0, id@, pair_views(pairs@).take(i as int)),
        decreases pairs.len() - i,
    {
        let (k, v) = &pairs[i];
        assert(pair_views(pairs@).take(i + 1).drop_last() =~= pair_views(pairs@).take(i as int));
        assert(pair_views(pairs@).take(i + 1).last() == (k@, v@));
        let ghost prev = nested_view(outputs@);
        let mut inner: StrMap<String> = match outputs.get(id) {
            Some(existing) => crate::strmap::copy_str_map(existing),
            None => StrMap::new(),
        };
        let ghost iv = str_view(inner@);
        assert(iv == (if prev.dom().contains(id@) { prev[id@] } else { Map::<Seq<char>, Seq<char>>::empty() })) by {
            if !prev.dom().contains(id@) {
                assert(iv =~= Map::<Seq<char>, Seq<char>>::empty());
            }
        }
        insert_str(&mut inner, k.as_str(), v.clone());
        let ghost nv = str_view(inner@);
        outputs.insert(crate::text::owned(id), inner);
        assert(nested_view(outputs@) =~= prev.insert(id@, nv));
        i = i + 1;
    }
    assert(pair_views(pairs@).take(pairs@.len() as int) =~= pair_views(pairs@));
}

/// Takes in the workflow commands of a step's output: each
/// `::set-output` sets an output of the step (see [`set_outputs`] and
/// [`record_step_outputs`]).
pub fn process_workflow_commands(output: &str, step_id: Option<&str>, step_outputs_map: &mut StrMap<StrMap<String>>)
    ensures
        nested_view(final(step_outputs_map)@) == (match step_id {
            Some(id) => outputs_with(nested_view(old(step_outputs_map)@), id@, set_outputs(text_lines(output@))),
            None => nested_view(old(step_outputs_map)@),
        }),
{
    let pairs = set_output_commands(output);
    record_step_outputs(step_outputs_map, step_id, &pairs);
}

/// How a line of an environment file reads: `Some((false, name, value))`
/// for `NAME=value`, `Some((true, name, delimiter))` for `NAME<<DELIMITER`
/// (whichever of `=` and `<<` comes first decides), `None` otherwise.
pub open spec fn env_line(l: Seq<char>) -> Option<(bool, Seq<char>, Seq<char>)> {
    match (find_char(l, '=', 0), find_seq(l, "<<"@, 0)) {
        (Some(e), None) => Some((false, l.take(e), l.skip(e + 1))),
        (Some(e), Some(h)) => if e < h { Some((false, l.take(e), l.skip(e + 1))) } else { Some((true, l.take(h), l.skip(h + 2))) },
        (None, Some(h)) => Some((true, l.take(h), l.skip(h + 2))),
        (None, None) => None,
    }
}

/// An entry, kept only when its name is not empty.
pub open spec fn named_entry(name: Seq<char>, value: Seq<char>) -> Seq<(Seq<char>, Seq<char>)> {
    if name.len() > 0 { seq![(name, value)] } else { Seq::empty() }
}

/// Reads the lines of an environment file in order: the entries found so
/// far, and the block being read, if any (its name, delimiter and lines).
/// A block's value is its lines joined by `\n`; a block that its
/// delimiter never closes gives nothing.
pub open spec fn env_scan(lines: Seq<Seq<char>>) -> (Seq<(Seq<char>, Seq<char>)>, Option<(Seq<char>, Seq<char>, Seq<Seq<char>>)>)
    decreases lines.len(),
{
    if lines.len() == 0 {
        (Seq::empty(), None)
    } else {
        let (es, pending) = env_scan(lines.drop_last());
        let l = lines.last();
        match pending {
            Some((name, delim, acc)) => if l == delim {
                (es + named_entry(name, join(acc, "\n"@)), None)
            } else {
                (es, Some((name, delim, acc.push(l))))
            },
            None => match env_line(l) {
                Some((heredoc, name, x)) => if heredoc {
                    (es, Some((name, x, Seq::empty())))
                } else {
                    (es + named_entry(name, x), None)
                },
                None => (es, None),
            },
        }
    }
}

/// The entries of an environment file's text, in order.
pub open spec fn env_file_entries_spec(content: Seq<char>) -> Seq<(Seq<char>, Seq<char>)> {
    env_scan(text_lines(content)).0
}

fn env_line_exec(l: &Vec<char>) -> (r: Option<(bool, Vec<char>, Vec<char>)>)
    ensures
        match r {
            Some((h, n, x)) => env_line(l@) == Some((h, n@, x@)),
            None => env_line(l@) is None,
        },
{
    let dl = chars_of("<<");
    proof { reveal_strlit("<<"); }
    assert(dl@ =~= "<<"@);
    let n = l.len();
    let eq = find_char_exec(l, '=');
    let hd = find_seq_exec(l, &dl);
    proof {
        lemma_find_char(l@, '=', 0);
        lemma_find_seq(l@, "<<"@, 0);
    }
    match (eq, hd) {
        (Some(e), None) => {
            let a = slice_range(l, 0, e);
            let b = slice_range(l, e + 1, n);
            assert(a@ =~= l@.take(e as int));
            assert(b@ =~= l@.skip(e + 1));
            Some((false, a, b))
        },
        (Some(e), Some(h)) => {
            if e < h {
                let a = slice_range(l, 0, e);
                let b = slice_range(l, e + 1, n);
                assert(a@ =~= l@.take(e as int));
                assert(b@ =~= l@.skip(e + 1));
                Some((false, a, b))
            } else {
                let a = slice_range(l, 0, h);
                let b = slice_range(l, h + 2, n);
                assert(a@ =~= l@.take(h as int));
                assert(b@ =~= l@.skip(h + 2));
                Some((true, a, b))
            }
        },
        (None, Some(h)) => {
            let a = slice_range(l, 0, h);
            let b = slice_range(l, h + 2, n);
            assert(a@ =~= l@.take(h as int));
            assert(b@ =~= l@.skip(h + 2));
            Some((true, a, b))
        },
        (None, None) => None,
    }
}

fn chars_eq(a: &Vec<char>, b: &Vec<char>) -> (r: bool)
    ensures
        r == (a@ == b@),
{
    if a.len() != b.len() {
        return false;
    }
    let mut i: usize = 0;
    while i < a.len()
        invariant
            i <= a@.len(),
            a@.len() == b@.len(),
            forall|j: int| 0 <= j < i ==> a@[j] == b@[j],
        decreases a.len() - i,
    {
        if a[i] != b[i] {
            return false;
        }
        i = i + 1;
    }
    assert(a@ =~= b@);
    true
}

/// The view of the block being read.
pub open spec fn pending_view(p: Option<(Vec<char>, Vec<char>, Vec<String>)>) -> Option<(Seq<char>, Seq<char>, Seq<Seq<char>>)> {
    match p {
        Some((n, d, acc)) => Some((n@, d@, views(acc@))),
        None => None,
    }
}

fn push_named(r: &mut Vec<(String, String)>, name: &Vec<char>, value: String)
    ensures
        pair_views(final(r)@) == pair_views(old(r)@) + named_entry(name@, value@),
{
    let ghost before = r@;
    if name.len() > 0 {
        r.push((string_of(name), value));
        assert(pair_views(r@) =~= pair_views(before) + named_entry(name@, value@));
    } else {
        assert(pair_views(r@) =~= pair_views(before) + named_entry(name@, value@));
    }
}

/// The entries of an environment file's text (see [`env_scan`]).
pub fn env_file_entries(content: &str) -> (r: Vec<(String, String)>)
    ensures
        pair_views(r@) == env_file_entries_spec(content@),
{
    let lines = text_lines_exec(content);
    let ghost ls = lines@.map_values(|v: Vec<char>| v@);
    let mut r: Vec<(String, String)> = Vec::new();
    let mut pending: Option<(Vec<char>, Vec<char>, Vec<String>)> = None;
    let mut i: usize = 0;
    while i < lines.len()
        invariant
            i <= lines@.len(),
            ls == lines@.map_values(|v: Vec<char>| v@),
            env_scan(ls.take(i as int)) == (pair_views(r@), pending_view(pending)),
        decreases lines.len() - i,
    {
        assert(ls.take(i + 1).drop_last() =~= ls.take(i as int));
        assert(ls.take(i + 1).last() == lines@[i as int]@);
        let line = &lines[i];
        let p = pending;
        pending = None;
        match p {
            Some((name, delim, mut acc)) => {
                if chars_eq(line, &delim) {
                    let value = join_strings(&acc, "\n");
                    push_named(&mut r, &name, value);
                } else {
                    let ghost before = views(acc@);
                    acc.push(string_of(line));
                    assert(views(acc@) =~= before.push(line@));
                    pending = Some((name, delim, acc));
                }
            },
            None => {
                match env_line_exec(line) {
                    Some((heredoc, name, x)) => {
                        if heredoc {
                            let acc: Vec<String> = Vec::new();
                            assert(views(acc@) =~= Seq::<Seq<char>>::empty());
                            pending = Some((name, x, acc));
                        } else {
                            push_named(&mut r, &name, string_of(&x));
                        }
                    },
                    None => {},
                }
            },
        }
        i = i + 1;
    }
    assert(ls.take(lines@.len() as int) =~= ls);
    r
}

/// `env` with each entry set in order.
pub open spec fn env_with(env: Map<Seq<char>, Seq<char>>, pairs: Seq<(Seq<char>, Seq<char>)>) -> Map<Seq<char>, Seq<char>>
    decreases pairs.len(),
{
    if pairs.len() == 0 {
        env
    } else {
        env_with(env, pairs.drop_last()).insert(pairs.last().0, pairs.last().1)
    }
}

fn set_all(env: &mut StrMap<String>, pairs: &Vec<(String, String)>)
    ensures
        str_view(final(env)@) == env_with(str_view(old(env)@), pair_views(pairs@)),
{
    let ghost e0 = str_view(env@);
    let mut i: usize = 0;
    while i < pairs.len()
        invariant
            i <= pairs@.len(),
            str_view(env@) == env_with(e0, pair_views(pairs@).take(i as int)),
        decreases pairs.len() - i,
    {
        let (k, v) = &pairs[i];
        assert(pair_views(pairs@).take(i + 1).drop_last() =~= pair_views(pairs@).take(i as int));
        assert(pair_views(pairs@).take(i + 1).last() == (k@, v@));
        insert_str(env, k.as_str(), v.clone());
        i = i + 1;
    }
    assert(pair_views(pairs@).take(pairs@.len() as int) =~= pair_views(pairs@));
}

/// Applies what a step wrote to its environment files, given their
/// texts: the `GITHUB_ENV` entries are set in the job's environment for
/// the steps that follow, and the `GITHUB_OUTPUT` entries become outputs
/// of the step (when it has an id).
pub fn apply_step_environment_updates(job_env: &mut StrMap<String>, step_outputs_map: &mut StrMap<StrMap<String>>, step_id: Option<&str>, output_file: &str, env_file: &str)
    ensures
        str_view(final(job_env)@) == env_with(str_view(old(job_env)@), env_file_entries_spec(env_file@)),
        nested_view(final(step_outputs_map)@) == (match step_id {
            Some(id) => outputs_with(nested_view(old(step_outputs_map)@), id@, env_file_entries_spec(output_file@)),
            None => nested_view(old(step_outputs_map)@),
        }),
{
    let env_entries = env_file_entries(env_file);
    set_all(job_env, &env_entries);
    let out_entries = env_file_entries(output_file);
    record_step_outputs(step_outputs_map, step_id, &out_entries);
}

} // verus!
