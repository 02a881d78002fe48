//! Front end of expression evaluation: from the text of an expression (with
//! or without its `${{ }}` delimiters) to a syntax tree, and the context
//! helpers that decide which variables a reference reads.
use vstd::prelude::*;
use vstd::utf8::*;
use crate::expr_lexer::{tokenize, tokenize_spec, lemma_encode_concat};
use crate::expr_parser::{Expr, ExprS, PErr, ParseError, parse, parse_spec};
use crate::text::{trim, trim_vec, chars_of, has_prefix, has_suffix, starts_with, ends_with, slice_range, str_starts_with, str_ends_with, str_eq, string_of, strip_prefix, ascii_lower_seq, ascii_lower_vec, owned, push_str, push_char, views, join, join_strings, contains_seq, contains, unsigned_text, parse_usize};

verus! {

/// Why an expression could not be read.
pub enum ExprError {
    /// The tokenizer's message.
    Lex(String),
    /// The parser's error.
    Parse(ParseError),
}

/// Abstract form of [`ExprError`].
pub enum ExprErr {
    Lex(Seq<char>),
    Parse(PErr),
}

impl View for ExprError {
    type V = ExprErr;

    open spec fn view(&self) -> ExprErr {
        match self {
            ExprError::Lex(m) => ExprErr::Lex(m@),
            ExprError::Parse(e) => ExprErr::Parse(e@),
        }
    }
}

/// What reading the characters `s` gives: `None` for a blank expression
/// (which evaluates to null), the tree, or the first error.
pub open spec fn read_spec(s: Seq<char>) -> Result<Option<ExprS>, ExprErr> {
    let t = trim(s);
    if t.len() == 0 {
        Ok(None)
    } else {
        match tokenize_spec(t) {
            Err(m) => Err(ExprErr::Lex(m)),
            Ok(ts) => match parse_spec(ts) {
                Ok(e) => Ok(Some(e)),
                Err(e) => Err(ExprErr::Parse(e)),
            },
        }
    }
}

/// The encoding of a part of `s` is no longer than that of `s`.
proof fn lemma_encode_subrange(s: Seq<char>, a: int, b: int)
    requires
        0 <= a <= b <= s.len(),
    ensures
        encode_utf8(s.subrange(a, b)).len() <= encode_utf8(s).len(),
{
    let x = s.subrange(0, a);
    let y = s.subrange(a, b);
    let z = s.subrange(b, s.len() as int);
    assert(s =~= x + y + z);
    lemma_encode_concat(x + y, z);
    lemma_encode_concat(x, y);
}

/// Number of bytes of a string slice.
fn byte_len(s: &str) -> (n: usize)
    ensures
        n == encode_utf8(s@).len(),
{
    s.as_bytes().len()
}

/// Reads characters into a syntax tree.
fn read_chars(s: Vec<char>) -> (r: Result<Option<Expr>, ExprError>)
    requires
        encode_utf8(s@).len() <= usize::MAX,
    ensures
        match r {
            Ok(Some(e)) => read_spec(s@) == Ok::<Option<ExprS>, ExprErr>(Some(e.view())),
            Ok(None) => read_spec(s@) == Ok::<Option<ExprS>, ExprErr>(None),
            Err(e) => read_spec(s@) == Err::<Option<ExprS>, ExprErr>(e@),
        },
{
    let t = trim_vec(&s);
    proof {
        let a = crate::text::trim_start_index(s@);
        let b = crate::text::trim_end_index(s@);
        crate::text::lemma_trim_bounds(s@);
        if a < b {
            lemma_encode_subrange(s@, a, b);
        } else {
            assert(t@ =~= Seq::<char>::empty());
            assert(encode_utf8(t@) =~= Seq::<u8>::empty());
        }
    }
    if t.len() == 0 {
        return Ok(None);
    }
    match tokenize(t) {
        Err(m) => Err(ExprError::Lex(m)),
        Ok(ts) => match parse(&ts) {
            Ok(e) => Ok(Some(e)),
            Err(e) => Err(ExprError::Parse(e)),
        },
    }
}

/// Reads an expression (the text inside `${{ }}`): `Ok(None)` when it is
/// blank, otherwise its syntax tree or the first error.
pub fn parse_expression(expr: &str) -> (r: Result<Option<Expr>, ExprError>)
    ensures
        match r {
            Ok(Some(e)) => read_spec(expr@) == Ok::<Option<ExprS>, ExprErr>(Some(e.view())),
            Ok(None) => read_spec(expr@) == Ok::<Option<ExprS>, ExprErr>(None),
            Err(e) => read_spec(expr@) == Err::<Option<ExprS>, ExprErr>(e@),
        },
{
    let n = byte_len(expr);
    let s = chars_of(expr);
    read_chars(s)
}

/// The expression of an `if:` condition: the trimmed text, without its
/// `${{` and `}}` when it has both.
pub open spec fn condition_body(s: Seq<char>) -> Seq<char> {
    let t = trim(s);
    if has_prefix(t, "${{"@) && has_suffix(t, "}}"@) {
        t.subrange(3, t.len() - 2)
    } else {
        t
    }
}

/// The characters of a condition without its delimiters.
pub fn condition_body_exec(expr: &str) -> (r: Vec<char>)
    ensures
        r@ == condition_body(expr@),
{
    let v = chars_of(expr);
    let t = trim_vec(&v);
    let open: Vec<char> = chars_of("${{");
    let close: Vec<char> = chars_of("}}");
    proof {
        reveal_strlit("${{");
        reveal_strlit("}}");
    }
    if starts_with(&t, &open) && ends_with(&t, &close) {
        proof {
            let pre = t@.subrange(0, 3);
            let suf = t@.subrange(t@.len() - 2, t@.len() as int);
            assert(pre == "${{"@);
            assert(suf == "}}"@);
            if t@.len() == 3 {
                assert(pre[1] == t@[1] && suf[0] == t@[1]);
                assert(false);
            } else if t@.len() == 4 {
                assert(pre[2] == t@[2] && suf[0] == t@[2]);
                assert(false);
            }
        }
        slice_range(&t, 3, t.len() - 2)
    } else {
        t
    }
}

/// Reads the expression of an `if:` condition (delimiters optional).
pub fn parse_condition(expr: &str) -> (r: Result<Option<Expr>, ExprError>)
    ensures
        match r {
            Ok(Some(e)) => read_spec(condition_body(expr@)) == Ok::<Option<ExprS>, ExprErr>(Some(e.view())),
            Ok(None) => read_spec(condition_body(expr@)) == Ok::<Option<ExprS>, ExprErr>(None),
            Err(e) => read_spec(condition_body(expr@)) == Err::<Option<ExprS>, ExprErr>(e@),
        },
{
    let n = byte_len(expr);
    let body = condition_body_exec(expr);
    proof {
        let t = trim(expr@);
        crate::text::lemma_trim_bounds(expr@);
        let a = crate::text::trim_start_index(expr@);
        let b = crate::text::trim_end_index(expr@);
        if a < b {
            assert(t =~= expr@.subrange(a, b));
            if has_prefix(t, "${{"@) && has_suffix(t, "}}"@) {
                assert(3 <= t.len() - 2) by {
                    reveal_strlit("${{");
                    reveal_strlit("}}");
                    let pre = t.subrange(0, 3);
                    let suf = t.subrange(t.len() - 2, t.len() as int);
                    if t.len() == 3 {
                        assert(pre[1] == t[1] && suf[0] == t[1]);
                    } else if t.len() == 4 {
                        assert(pre[2] == t[2] && suf[0] == t[2]);
                    }
                }
                assert(body@ =~= expr@.subrange(a + 3, b - 2));
                lemma_encode_subrange(expr@, a + 3, b - 2);
            } else {
                lemma_encode_subrange(expr@, a, b);
            }
        } else {
            assert(t =~= Seq::<char>::empty());
            assert(body@ =~= Seq::<char>::empty()) by {
                reveal_strlit("${{");
            }
            assert(encode_utf8(body@) =~= Seq::<u8>::empty());
        }
    }
    read_chars(body)
}


/// Whether an environment key belongs to the user's `env` context rather
/// than to the variables the runner injects.
pub open spec fn user_env_key(k: Seq<char>) -> bool {
    &&& !has_prefix(k, "GITHUB_"@)
    &&& !has_prefix(k, "RUNNER_"@)
    &&& !has_prefix(k, "INPUT_"@)
    &&& !has_prefix(k, "WRKFLW_"@)
    &&& k != "CI"@
    &&& k != "MATRIX_CONTEXT"@
}

/// `true` if `key` is a user-defined `env:` variable (see [`user_env_key`]).
pub fn is_user_env_var(key: &str) -> (r: bool)
    ensures
        r == user_env_key(key@),
{
    !str_starts_with(key, "GITHUB_") && !str_starts_with(key, "RUNNER_") && !str_starts_with(key, "INPUT_")
        && !str_starts_with(key, "WRKFLW_") && !str_eq(key, "CI") && !str_eq(key, "MATRIX_CONTEXT")
}

/// The key under which a `GITHUB_*` variable appears on the `github`
/// context: the rest of the name in ASCII lowercase, unless it is empty or
/// one of the runner-internal names.
pub open spec fn github_suffix(k: Seq<char>) -> Option<Seq<char>> {
    if has_prefix(k, "GITHUB_"@) {
        let rest = k.subrange(7, k.len() as int);
        let suffix = ascii_lower_seq(rest);
        if rest.len() == 0 || suffix == "output"@ || suffix == "env"@ || suffix == "path"@
            || suffix == "step_summary"@ || suffix == "actions"@ {
            None
        } else {
            Some(suffix)
        }
    } else {
        None
    }
}

/// The `github` context key of an environment variable, if it has one.
pub fn github_context_suffix(key: &str) -> (r: Option<String>)
    ensures
        match r {
            Some(v) => github_suffix(key@) == Some(v@),
            None => github_suffix(key@) is None,
        },
{
    let k = chars_of(key);
    let pre = chars_of("GITHUB_");
    proof {
        reveal_strlit("GITHUB_");
    }
    match strip_prefix(&k, &pre) {
        None => None,
        Some(rest) => {
            if rest.len() == 0 {
                return None;
            }
            let lower = ascii_lower_vec(&rest);
            let suffix = string_of(&lower);
            if str_eq(suffix.as_str(), "output") || str_eq(suffix.as_str(), "env") || str_eq(suffix.as_str(), "path")
                || str_eq(suffix.as_str(), "step_summary") || str_eq(suffix.as_str(), "actions") {
                None
            } else {
                Some(suffix)
            }
        },
    }
}

/// The Unicode uppercase form of a string (`str::to_uppercase`).
pub uninterp spec fn upper_of(s: Seq<char>) -> Seq<char>;

/// The Unicode lowercase form of a string (`str::to_lowercase`).
pub uninterp spec fn lower_of(s: Seq<char>) -> Seq<char>;

/// Calls `str::to_uppercase`; its result is named by [`upper_of`].
#[verifier::external_body]
pub(crate) fn to_upper(s: &str) -> (r: String)
    ensures
        r@ == upper_of(s@),
{
    s.to_uppercase()
}

/// Calls `str::to_lowercase`; its result is named by [`lower_of`].
#[verifier::external_body]
pub(crate) fn to_lower(s: &str) -> (r: String)
    ensures
        r@ == lower_of(s@),
{
    s.to_lowercase()
}

/// Every `from` in `s` replaced by `to`.
pub open spec fn replace_char(s: Seq<char>, from: char, to: Seq<char>) -> Seq<char>
    decreases s.len(),
{
    if s.len() == 0 {
        Seq::empty()
    } else {
        replace_char(s.drop_last(), from, to) + (if s.last() == from { to } else { seq![s.last()] })
    }
}

/// `s` with every `from` replaced by `to` (`str::replace` with a `char` pattern).
pub fn replace_char_exec(s: &str, from: char, to: &str) -> (r: String)
    ensures
        r@ == replace_char(s@, from, to@),
{
    let v = chars_of(s);
    let mut r = String::new();
    let mut i: usize = 0;
    while i < v.len()
        invariant
            i <= v@.len(),
            v@ == s@,
            r@ == replace_char(v@.take(i as int), from, to@),
        decreases v.len() - i,
    {
        assert(v@.take(i + 1).drop_last() =~= v@.take(i as int));
        if v[i] == from {
            push_str(&mut r, to);
        } else {
            push_char(&mut r, v[i]);
            assert(r@ =~= replace_char(v@.take(i as int), from, to@) + seq![v@[i as int]]);
        }
        i = i + 1;
    }
    assert(v@.take(v@.len() as int) =~= v@);
    r
}

/// The `join(value, sep)` built-in on a value's text: every `,` replaced by
/// the separator (`,` when none is given).
pub fn join_value(value: &str, sep: Option<&str>) -> (r: String)
    ensures
        r@ == replace_char(value@, ',', match sep { Some(t) => t@, None => ","@ }),
{
    match sep {
        Some(t) => replace_char_exec(value, ',', t),
        None => replace_char_exec(value, ',', ","),
    }
}

/// Which variable a context reference reads.
pub enum ContextRef {
    /// A key of the environment (`inputs.*`, `env.*`, `github.*`, `runner.*`).
    Env(String),
    /// A key of the matrix combination.
    Matrix(String),
    /// `steps.<id>.outputs.<name>`.
    StepOutput(String, String),
    /// `needs.<job>.outputs.<name>` or `jobs.<job>.outputs.<name>`.
    JobOutput(String, String),
    /// `needs.<job>.result`.
    JobResult(String),
    /// `secrets.<name>`.
    Secret(String),
    /// `steps.<id>.outcome`.
    StepOutcome(String),
    /// `steps.<id>.conclusion`.
    StepConclusion(String),
    /// The whole `steps` context.
    AllSteps,
    /// The whole `env` context.
    AllEnv,
    /// The whole `github` context.
    AllGithub,
    /// The whole `needs` context.
    AllNeeds,
    /// The whole `secrets` context.
    AllSecrets,
    /// Nothing: the reference evaluates to null.
    Unknown,
}

/// Abstract form of [`ContextRef`].
pub enum RefS {
    Env(Seq<char>),
    Matrix(Seq<char>),
    StepOutput(Seq<char>, Seq<char>),
    JobOutput(Seq<char>, Seq<char>),
    JobResult(Seq<char>),
    Secret(Seq<char>),
    StepOutcome(Seq<char>),
    StepConclusion(Seq<char>),
    AllSteps,
    AllEnv,
    AllGithub,
    AllNeeds,
    AllSecrets,
    Unknown,
}

impl View for ContextRef {
    type V = RefS;

    open spec fn view(&self) -> RefS {
        match self {
            ContextRef::Env(k) => RefS::Env(k@),
            ContextRef::Matrix(k) => RefS::Matrix(k@),
            ContextRef::StepOutput(a, b) => RefS::StepOutput(a@, b@),
            ContextRef::JobOutput(a, b) => RefS::JobOutput(a@, b@),
            ContextRef::JobResult(a) => RefS::JobResult(a@),
            ContextRef::Secret(a) => RefS::Secret(a@),
            ContextRef::StepOutcome(a) => RefS::StepOutcome(a@),
            ContextRef::StepConclusion(a) => RefS::StepConclusion(a@),
            ContextRef::AllSteps => RefS::AllSteps,
            ContextRef::AllEnv => RefS::AllEnv,
            ContextRef::AllGithub => RefS::AllGithub,
            ContextRef::AllNeeds => RefS::AllNeeds,
            ContextRef::AllSecrets => RefS::AllSecrets,
            ContextRef::Unknown => RefS::Unknown,
        }
    }
}

/// What a dotted reference reads, rule by rule in order.
pub open spec fn classify(parts: Seq<Seq<char>>) -> RefS {
    let n = parts.len();
    if n == 0 {
        RefS::Unknown
    } else {
        let root = parts[0];
        if root == "inputs"@ && n == 2 {
            RefS::Env("INPUT_"@ + replace_char(upper_of(parts[1]), '-', "_"@))
        } else if root == "env"@ && n == 2 {
            RefS::Env(parts[1])
        } else if root == "github"@ && n >= 2 {
            RefS::Env("GITHUB_"@ + upper_of(join(parts.drop_first(), "_"@)))
        } else if root == "runner"@ && n == 2 {
            RefS::Env("RUNNER_"@ + upper_of(parts[1]))
        } else if root == "matrix"@ && n == 2 {
            RefS::Matrix(parts[1])
        } else if root == "steps"@ && n == 4 && parts[2] == "outputs"@ {
            RefS::StepOutput(parts[1], parts[3])
        } else if root == "needs"@ && n == 4 && parts[2] == "outputs"@ {
            RefS::JobOutput(parts[1], parts[3])
        } else if root == "needs"@ && n == 3 && parts[2] == "result"@ {
            RefS::JobResult(parts[1])
        } else if root == "jobs"@ && n == 4 && parts[2] == "outputs"@ {
            RefS::JobOutput(parts[1], parts[3])
        } else if root == "secrets"@ && n == 2 {
            RefS::Secret(parts[1])
        } else if root == "steps"@ && n == 3 && parts[2] == "outcome"@ {
            RefS::StepOutcome(parts[1])
        } else if root == "steps"@ && n == 3 && parts[2] == "conclusion"@ {
            RefS::StepConclusion(parts[1])
        } else if n == 1 && root == "steps"@ {
            RefS::AllSteps
        } else if n == 1 && root == "env"@ {
            RefS::AllEnv
        } else if n == 1 && root == "github"@ {
            RefS::AllGithub
        } else if n == 1 && root == "needs"@ {
            RefS::AllNeeds
        } else if n == 1 && root == "secrets"@ {
            RefS::AllSecrets
        } else {
            RefS::Unknown
        }
    }
}

/// Decides what the dotted reference `parts` reads.
pub fn classify_reference(parts: &Vec<String>) -> (r: ContextRef)
    ensures
        r@ == classify(views(parts@)),
{
    let ghost ps = views(parts@);
    let n = parts.len();
    if n == 0 {
        return ContextRef::Unknown;
    }
    assert(ps[0] == parts@[0]@);
    let root = parts[0].as_str();
    if n >= 2 {
        assert(ps[1] == parts@[1]@);
    }
    if n >= 3 {
        assert(ps[2] == parts@[2]@);
    }
    if n >= 4 {
        assert(ps[3] == parts@[3]@);
    }
    if str_eq(root, "inputs") && n == 2 {
        let up = to_upper(parts[1].as_str());
        let mut key = owned("INPUT_");
        let fixed = replace_char_exec(up.as_str(), '-', "_");
        push_str(&mut key, fixed.as_str());
        ContextRef::Env(key)
    } else if str_eq(root, "env") && n == 2 {
        ContextRef::Env(parts[1].clone())
    } else if str_eq(root, "github") && n >= 2 {
        let mut rest: Vec<String> = Vec::new();
        let mut i: usize = 1;
        while i < n
            invariant
                1 <= i <= n,
                n == parts@.len(),
                views(rest@) == ps.subrange(1, i as int),
                ps == views(parts@),
            decreases n - i,
        {
            let ghost before = rest@;
            let c = parts[i].clone();
            rest.push(c);
            assert(ps[i as int] == parts@[i as int]@);
            assert(views(rest@) =~= views(before).push(ps[i as int]));
            assert(views(rest@) =~= ps.subrange(1, i + 1));
            i = i + 1;
        }
        assert(ps.subrange(1, n as int) =~= ps.drop_first());
        let joined = join_strings(&rest, "_");
        let up = to_upper(joined.as_str());
        let mut key = owned("GITHUB_");
        push_str(&mut key, up.as_str());
        ContextRef::Env(key)
    } else if str_eq(root, "runner") && n == 2 {
        let up = to_upper(parts[1].as_str());
        let mut key = owned("RUNNER_");
        push_str(&mut key, up.as_str());
        ContextRef::Env(key)
    } else if str_eq(root, "matrix") && n == 2 {
        ContextRef::Matrix(parts[1].clone())
    } else if str_eq(root, "steps") && n == 4 && str_eq(parts[2].as_str(), "outputs") {
        ContextRef::StepOutput(parts[1].clone(), parts[3].clone())
    } else if str_eq(root, "needs") && n == 4 && str_eq(parts[2].as_str(), "outputs") {
        ContextRef::JobOutput(parts[1].clone(), parts[3].clone())
    } else if str_eq(root, "needs") && n == 3 && str_eq(parts[2].as_str(), "result") {
        ContextRef::JobResult(parts[1].clone())
    } else if str_eq(root, "jobs") && n == 4 && str_eq(parts[2].as_str(), "outputs") {
        ContextRef::JobOutput(parts[1].clone(), parts[3].clone())
    } else if str_eq(root, "secrets") && n == 2 {
        ContextRef::Secret(parts[1].clone())
    } else if str_eq(root, "steps") && n == 3 && str_eq(parts[2].as_str(), "outcome") {
        ContextRef::StepOutcome(parts[1].clone())
    } else if str_eq(root, "steps") && n == 3 && str_eq(parts[2].as_str(), "conclusion") {
        ContextRef::StepConclusion(parts[1].clone())
    } else if n == 1 && str_eq(root, "steps") {
        ContextRef::AllSteps
    } else if n == 1 && str_eq(root, "env") {
        ContextRef::AllEnv
    } else if n == 1 && str_eq(root, "github") {
        ContextRef::AllGithub
    } else if n == 1 && str_eq(root, "needs") {
        ContextRef::AllNeeds
    } else if n == 1 && str_eq(root, "secrets") {
        ContextRef::AllSecrets
    } else {
        ContextRef::Unknown
    }
}

/// `contains(haystack, needle)`: case-insensitive substring test.
pub fn contains_ignore_case(haystack: &str, needle: &str) -> (r: bool)
    ensures
        r == contains_seq(lower_of(haystack@), lower_of(needle@)),
{
    let h = to_lower(haystack);
    let n = to_lower(needle);
    let hv = chars_of(h.as_str());
    let nv = chars_of(n.as_str());
    contains(&hv, &nv)
}

/// `startsWith(s, prefix)`: case-insensitive prefix test.
pub fn starts_with_ignore_case(s: &str, prefix: &str) -> (r: bool)
    ensures
        r == has_prefix(lower_of(s@), lower_of(prefix@)),
{
    let a = to_lower(s);
    let b = to_lower(prefix);
    str_starts_with(a.as_str(), b.as_str())
}

/// `endsWith(s, suffix)`: case-insensitive suffix test.
pub fn ends_with_ignore_case(s: &str, suffix: &str) -> (r: bool)
    ensures
        r == has_suffix(lower_of(s@), lower_of(suffix@)),
{
    let a = to_lower(s);
    let b = to_lower(suffix);
    str_ends_with(a.as_str(), b.as_str())
}

/// ASCII-case-insensitive equality (`str::eq_ignore_ascii_case`).
pub fn eq_ignore_ascii_case(a: &str, b: &str) -> (r: bool)
    ensures
        r == (ascii_lower_seq(a@) == ascii_lower_seq(b@)),
{
    let av = chars_of(a);
    let bv = chars_of(b);
    let la = ascii_lower_vec(&av);
    let lb = ascii_lower_vec(&bv);
    let sa = string_of(&la);
    let sb = string_of(&lb);
    str_eq(sa.as_str(), sb.as_str())
}

/// Position of the first `}` at or after `i`.
pub open spec fn next_close(f: Seq<char>, i: int) -> Option<int>
    decreases f.len() - i,
{
    if i < 0 || i >= f.len() {
        None
    } else if f[i] == '}' {
        Some(i)
    } else {
        next_close(f, i + 1)
    }
}

/// The index a placeholder's inner text names, as `usize::from_str` reads it.
pub open spec fn placeholder_index(t: Seq<char>) -> Option<nat> {
    unsigned_text(t, usize::MAX as nat)
}

/// `format(fmt, args...)` from position `i`: each `{N}` naming one of the
/// arguments is replaced by it, in one pass (inserted text is not read
/// again); everything else is copied.
pub open spec fn format_from(f: Seq<char>, args: Seq<Seq<char>>, i: int) -> Seq<char>
    decreases f.len() - i,
{
    if i < 0 || i >= f.len() {
        Seq::empty()
    } else {
        let lit = seq![f[i]] + format_from(f, args, i + 1);
        if f[i] == '{' {
            match next_close(f, i + 1) {
                Some(c) => if i < c < f.len() {
                    match placeholder_index(f.subrange(i + 1, c)) {
                        Some(k) => if k < args.len() { args[k as int] + format_from(f, args, c + 1) } else { lit },
                        None => lit,
                    }
                } else {
                    lit
                },
                None => lit,
            }
        } else {
            lit
        }
    }
}

proof fn lemma_next_close(f: Seq<char>, i: int)
    requires
        0 <= i,
    ensures
        next_close(f, i) matches Some(c) ==> i <= c < f.len() && f[c] == '}',
        next_close(f, i) is None ==> forall|j: int| i <= j < f.len() ==> f[j] != '}',
    decreases f.len() - i,
{
    if i < f.len() && f[i] != '}' {
        lemma_next_close(f, i + 1);
    }
}

fn next_close_exec(f: &Vec<char>, i: usize) -> (r: Option<usize>)
    ensures
        match r {
            Some(c) => next_close(f@, i as int) == Some(c as int),
            None => next_close(f@, i as int) is None,
        },
{
    let mut j = i;
    while j < f.len()
        invariant
            i <= j,
            next_close(f@, i as int) == next_close(f@, j as int),
        decreases f.len() - j,
    {
        if f[j] == '}' {
            return Some(j);
        }
        j = j + 1;
    }
    None
}

/// The `format()` built-in: `fmt` with `{N}` replaced by `args[N]` in one pass.
pub fn format_placeholders(fmt: &str, args: &Vec<String>) -> (r: String)
    ensures
        r@ == format_from(fmt@, views(args@), 0),
{
    let f = chars_of(fmt);
    let ghost a = views(args@);
    let mut out = String::new();
    let mut i: usize = 0;
    while i < f.len()
        invariant
            i <= f@.len(),
            f@ == fmt@,
            a == views(args@),
            format_from(f@, a, 0) == out@ + format_from(f@, a, i as int),
        decreases f.len() - i,
    {
        let ghost lit = seq![f@[i as int]] + format_from(f@, a, i + 1);
        if f[i] == '{' {
            proof {
                lemma_next_close(f@, i + 1);
            }
            match next_close_exec(&f, i + 1) {
                Some(c) => {
                    let inner = slice_range(&f, i + 1, c);
                    match parse_usize(&inner) {
                        Some(k) => {
                            if k < args.len() {
                                let ghost before = out@;
                                push_str(&mut out, args[k].as_str());
                                assert(a[k as int] == args@[k as int]@);
                                assert(format_from(f@, a, i as int) == a[k as int] + format_from(f@, a, c + 1));
                                assert(before + (a[k as int] + format_from(f@, a, c + 1)) =~= out@ + format_from(f@, a, c + 1));
                                i = c + 1;
                                continue;
                            }
                        },
                        None => {},
                    }
                },
                None => {},
            }
        }
        let ghost before = out@;
        push_char(&mut out, f[i]);
        assert(format_from(f@, a, i as int) == lit);
        assert(before + lit =~= out@ + format_from(f@, a, i + 1));
        i = i + 1;
    }
    assert(out@ + Seq::<char>::empty() =~= out@);
    out
}

/// The `${{ }}` delimiters of a condition are optional: a wrapped
/// expression reads as the expression itself.
pub proof fn lemma_delimiters_optional(x: Seq<char>)
    ensures
        condition_body("${{"@ + x + "}}"@) == x,
        read_spec(condition_body("${{"@ + x + "}}"@)) == read_spec(x),
{
    reveal_strlit("${{");
    reveal_strlit("}}");
    let s = "${{"@ + x + "}}"@;
    assert(s[0] == '$');
    assert(s[s.len() - 1] == '}');
    assert(crate::text::trim_start_index(s) == 0);
    assert(crate::text::trim_end_index(s) == s.len());
    assert(s.subrange(0, s.len() as int) =~= s);
    assert(trim(s) == s);
    assert(s.subrange(0, 3) =~= "${{"@);
    assert(s.subrange(s.len() - 2, s.len() as int) =~= "}}"@);
    assert(s.subrange(3, s.len() - 2) =~= x);
}

/// A variable that appears on the `github` context is never one of the
/// user's `env` variables.
pub proof fn lemma_github_keys_not_user(k: Seq<char>)
    ensures
        github_suffix(k) is Some ==> !user_env_key(k),
{
}

} // verus!
