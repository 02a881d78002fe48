//! Composite actions: how their inputs reach their steps, how a run of
//! their steps is recorded and reported, and how their outputs are written
//! for the calling step.
use vstd::prelude::*;
use crate::expression::upper_of;
use crate::heredoc::{candidate, chosen_delimiter, generate_heredoc_delimiter};
use crate::steps::{record_step_status, status_recorded, StepResult, StepStatus};
use crate::strmap::{StrMap, str_view, insert_str, copy_str_map};
use crate::text::{find_char, find_char_exec, lemma_find_char, chars_of, decimal, decimal_chars, has_suffix, join, join_strings, owned, push_all, push_str, str_ends_with, views};

verus! {

/// An input that a composite action declares: its name and its default
/// (empty when it has none).
pub struct CompositeInput {
    pub name: String,
    pub default: String,
}

/// The environment of a composite action's steps: the caller's job
/// environment and, for each declared input in order, `INPUT_<NAME>` set to
/// the caller's `with:` value or else the input's default.
pub open spec fn input_env(env: Map<Seq<char>, Seq<char>>, inputs: Seq<CompositeInput>, with: Option<Map<Seq<char>, Seq<char>>>) -> Map<Seq<char>, Seq<char>>
    decreases inputs.len(),
{
    if inputs.len() == 0 {
        env
    } else {
        let i = inputs.last();
        let v = match with {
            Some(w) => if w.contains_key(i.name@) { w[i.name@] } else { i.default@ },
            None => i.default@,
        };
        input_env(env, inputs.drop_last(), with).insert("INPUT_"@ + upper_of(i.name@), v)
    }
}

/// Builds the environment of a composite action's steps (see [`input_env`]).
pub fn composite_input_env(job_env: &StrMap<String>, inputs: &Vec<CompositeInput>, with: Option<&StrMap<String>>) -> (r: StrMap<String>)
    ensures
        str_view(r@) == input_env(str_view(job_env@), inputs@, match with { Some(w) => Some(str_view(w@)), None => None }),
{
    let ghost w = match with { Some(w) => Some(str_view(w@)), None => None };
    let mut env = copy_str_map(job_env);
    let mut i: usize = 0;
    while i < inputs.len()
        invariant
            i <= inputs@.len(),
            w == match with { Some(m) => Some(str_view(m@)), None => None::<Map<Seq<char>, Seq<char>>> },
            str_view(env@) == input_env(str_view(job_env@), inputs@.take(i as int), w),
        decreases inputs.len() - i,
    {
        let input = &inputs[i];
        assert(inputs@.take(i + 1).drop_last() =~= inputs@.take(i as int));
        assert(inputs@.take(i + 1).last() == inputs@[i as int]);
        let value = match with {
            Some(m) => match m.get(input.name.as_str()) {
                Some(v) => owned(v.as_str()),
                None => owned(input.default.as_str()),
            },
            None => owned(input.default.as_str()),
        };
        let mut key = owned("INPUT_");
        let up = crate::expression::to_upper(input.name.as_str());
        push_str(&mut key, up.as_str());
        insert_str(&mut env, key.as_str(), value);
        i = i + 1;
    }
    assert(inputs@.take(inputs@.len() as int) =~= inputs@);
    env
}

/// The line a composite step's output is reported under: `Step <n>: <output>`
/// with `n` counted from one.
pub open spec fn step_line(idx: nat, output: Seq<char>) -> Seq<char> {
    "Step "@ + decimal(idx + 1) + ": "@ + output
}

/// What a run of a composite action's steps gathers.
pub struct CompositeRun {
    /// One line per step that ran (see [`step_line`]).
    pub lines: Vec<String>,
    pub step_statuses: StrMap<(String, String)>,
    pub job_status: String,
}

impl CompositeRun {
    /// A run before its first step: status `success`.
    pub fn new() -> (r: CompositeRun)
        ensures
            r.lines@.len() == 0,
            r.step_statuses@ == Map::<Seq<char>, (String, String)>::empty(),
            r.job_status@ == "success"@,
    {
        CompositeRun { lines: Vec::new(), step_statuses: StrMap::new(), job_status: owned("success") }
    }

    /// Records the result of step `idx`; the result says whether the run
    /// stops here, which it does after a failed step.
    pub fn record(&mut self, idx: usize, step_id: Option<&str>, result: &StepResult) -> (stop: bool)
        requires
            idx < usize::MAX,
        ensures
            stop == (result.status == StepStatus::Failure),
            views(final(self).lines@) == views(old(self).lines@).push(step_line(idx as nat, result.output@)),
            status_recorded(old(self).step_statuses@, final(self).step_statuses@, step_id, *result),
            final(self).job_status@ == (if result.conclusion == StepStatus::Failure { "failure"@ } else { old(self).job_status@ }),
    {
        record_step_status(step_id, result, &mut self.step_statuses, &mut self.job_status);
        let mut line = owned("Step ");
        push_all(&mut line, &decimal_chars((idx + 1) as u64));
        push_str(&mut line, ": ");
        push_str(&mut line, result.output.as_str());
        let ghost before = self.lines@;
        self.lines.push(line);
        assert(views(self.lines@) =~= views(before).push(step_line(idx as nat, result.output@)));
        result.status == StepStatus::Failure
    }

    /// The result of a run that stopped at a failed step: the step lines
    /// joined by line breaks.
    pub fn failed(&self, step_name: Option<String>) -> (r: StepResult)
        ensures
            r.name@ == (match step_name { Some(n) => n@, None => "Composite Action"@ }),
            r.status == StepStatus::Failure,
            r.output@ == join(views(self.lines@), "\n"@),
    {
        let name = match step_name { Some(n) => n, None => owned("Composite Action") };
        StepResult::new(name, StepStatus::Failure, join_strings(&self.lines, "\n"))
    }

    /// The result of a run whose steps all succeeded (see [`success_text`]).
    pub fn succeeded(&self, step_name: Option<String>, verbose: bool, action_path: &str, action_name: Option<&str>, description: Option<&str>) -> (r: StepResult)
        ensures
            r.name@ == (match step_name { Some(n) => n@, None => "Composite Action"@ }),
            r.status == StepStatus::Success,
            r.output@ == success_text(verbose, action_path@, match action_name { Some(n) => Some(n@), None => None },
                match description { Some(d) => Some(d@), None => None }, views(self.lines@)),
    {
        let name = match step_name { Some(n) => n, None => owned("Composite Action") };
        let mut out = String::new();
        if verbose {
            push_str(&mut out, "Executed composite action from: ");
            push_str(&mut out, action_path);
            push_str(&mut out, "\n\n");
            match action_name {
                Some(n) => {
                    push_str(&mut out, "Action name: ");
                    push_str(&mut out, n);
                    push_str(&mut out, "\n");
                },
                None => {},
            }
            match description {
                Some(d) => {
                    push_str(&mut out, "Description: ");
                    push_str(&mut out, d);
                    push_str(&mut out, "\n");
                },
                None => {},
            }
            push_str(&mut out, "\n");
            push_str(&mut out, "Step outputs:\n");
            let ghost head = out@;
            let mut i: usize = 0;
            while i < self.lines.len()
                invariant
                    i <= self.lines@.len(),
                    out@ == head + lines_text(views(self.lines@).take(i as int)),
                decreases self.lines.len() - i,
            {
                assert(views(self.lines@).take(i + 1).drop_last() =~= views(self.lines@).take(i as int));
                push_str(&mut out, self.lines[i].as_str());
                push_str(&mut out, "\n");
                i = i + 1;
            }
            assert(views(self.lines@).take(self.lines@.len() as int) =~= views(self.lines@));
        } else {
            push_str(&mut out, "Executed composite action with ");
            push_all(&mut out, &decimal_chars(self.lines.len() as u64));
            push_str(&mut out, " steps");
        }
        StepResult::new(name, StepStatus::Success, out)
    }
}

/// Each line followed by a line break.
pub open spec fn lines_text(lines: Seq<Seq<char>>) -> Seq<char>
    decreases lines.len(),
{
    if lines.len() == 0 {
        Seq::empty()
    } else {
        lines_text(lines.drop_last()) + lines.last() + "\n"@
    }
}

/// The report of a composite action whose steps all succeeded: in verbose
/// mode where it came from, its name and description when it has them, and
/// every step line; otherwise the number of steps.
pub open spec fn success_text(verbose: bool, path: Seq<char>, name: Option<Seq<char>>, description: Option<Seq<char>>, lines: Seq<Seq<char>>) -> Seq<char> {
    if verbose {
        "Executed composite action from: "@ + path + "\n\n"@
            + (match name { Some(n) => "Action name: "@ + n + "\n"@, None => Seq::empty() })
            + (match description { Some(d) => "Description: "@ + d + "\n"@, None => Seq::empty() })
            + "\n"@ + "Step outputs:\n"@ + lines_text(lines)
    } else {
        "Executed composite action with "@ + decimal(lines.len()) + " steps"@
    }
}

/// How an output whose value has a line break is written to a
/// `GITHUB_OUTPUT` file: a heredoc under `delimiter`, the value ending with
/// a line break.
pub open spec fn heredoc_entry(key: Seq<char>, value: Seq<char>, delimiter: Seq<char>) -> Seq<char> {
    key + "<<"@ + delimiter + "\n"@ + value + (if has_suffix(value, "\n"@) { Seq::empty() } else { "\n"@ })
        + delimiter + "\n"@
}

/// Writes one output for a `GITHUB_OUTPUT` file: `key=value` on one line,
/// or, for a value with a line break, a heredoc under the delimiter that
/// [`generate_heredoc_delimiter`] picks, which is not a line of the value.
pub fn github_output_entry(key: &str, value: &str) -> (r: String)
    ensures
        !value@.contains('\n') ==> r@ == key@ + "="@ + value@ + "\n"@,
        value@.contains('\n') ==> exists|k: nat| chosen_delimiter(value@, k) && r@ == heredoc_entry(key@, value@, candidate(k)),
{
    let v = chars_of(value);
    let multiline = find_char_exec(&v, '\n').is_some();
    proof {
        lemma_find_char(v@, '\n', 0);
        if multiline {
            let k = find_char(v@, '\n', 0)->0;
            assert(v@[k] == '\n');
        }
    }
    assert(multiline == value@.contains('\n'));
    let mut r = owned(key);
    if multiline {
        let delim = generate_heredoc_delimiter(value);
        push_str(&mut r, "<<");
        push_str(&mut r, delim.as_str());
        push_str(&mut r, "\n");
        push_str(&mut r, value);
        if !str_ends_with(value, "\n") {
            push_str(&mut r, "\n");
        }
        push_str(&mut r, delim.as_str());
        push_str(&mut r, "\n");
        r
    } else {
        push_str(&mut r, "=");
        push_str(&mut r, value);
        push_str(&mut r, "\n");
        r
    }
}

} // verus!
