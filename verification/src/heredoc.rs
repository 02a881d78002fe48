//! Delimiters for writing a multi-line value as a heredoc into the
//! workflow command files: the first candidate that is not itself a line
//! of the value.
use vstd::prelude::*;
use vstd::set_lib::*;
use crate::text::{chars_of, decimal, decimal_chars, digit_char, occurs_at, occurs_at_exec, owned, push_all};

verus! {

/// The candidate delimiter number `c`: `ghadelimiter`, then
/// `ghadelimiter_1`, `ghadelimiter_2`, ...
pub open spec fn candidate(c: nat) -> Seq<char> {
    if c == 0 { "ghadelimiter"@ } else { "ghadelimiter_"@ + decimal(c) }
}

/// `x` is the line of `v` that starts at `i`, as `str::lines` splits lines
/// (at `\n`, with one `\r` before it removed).
pub open spec fn line_at(v: Seq<char>, x: Seq<char>, i: int) -> bool {
    let e = i + x.len();
    &&& occurs_at(v, x, i)
    &&& (i == 0 || v[i - 1] == '\n')
    &&& (e == v.len() || v[e] == '\n' || (v[e] == '\r' && e + 1 < v.len() && v[e + 1] == '\n'))
}

/// `x` is one of the lines of `v`.
pub open spec fn is_line(v: Seq<char>, x: Seq<char>) -> bool {
    exists|i: int| line_at(v, x, i)
}

/// The delimiter chosen for `v` is `candidate(k)`: it is not a line of `v`
/// and every earlier candidate is.
pub open spec fn chosen_delimiter(v: Seq<char>, k: nat) -> bool {
    &&& !is_line(v, candidate(k))
    &&& forall|j: nat| j < k ==> is_line(v, #[trigger] candidate(j))
}

/// No line breaks in `x`.
pub open spec fn single_line(x: Seq<char>) -> bool {
    forall|j: int| 0 <= j < x.len() ==> x[j] != '\n' && x[j] != '\r'
}

proof fn lemma_decimal_digits(n: nat)
    ensures
        decimal(n).len() >= 1,
        n >= 10 ==> decimal(n).len() >= 2,
        forall|j: int| 0 <= j < decimal(n).len() ==> '0' <= #[trigger] decimal(n)[j] <= '9',
    decreases n,
{
    if n >= 10 {
        lemma_decimal_digits(n / 10);
        let p = decimal(n / 10);
        assert forall|j: int| 0 <= j < decimal(n).len() implies '0' <= #[trigger] decimal(n)[j] <= '9' by {
            if j < p.len() {
                assert(decimal(n)[j] == p[j]);
            }
        }
    }
}

/// Different numbers have different decimal texts.
pub proof fn lemma_decimal_injective(a: nat, b: nat)
    requires
        decimal(a) == decimal(b),
    ensures
        a == b,
    decreases a,
{
    lemma_decimal_digits(a);
    lemma_decimal_digits(b);
    if a < 10 && b < 10 {
        assert(decimal(a)[0] == digit_char(a));
        assert(decimal(b)[0] == digit_char(b));
    } else if a >= 10 && b >= 10 {
        let da = decimal(a);
        let db = decimal(b);
        assert(da.last() == digit_char(a % 10));
        assert(db.last() == digit_char(b % 10));
        assert(da.drop_last() =~= decimal(a / 10));
        assert(db.drop_last() =~= decimal(b / 10));
        lemma_decimal_injective(a / 10, b / 10);
        assert(a % 10 == b % 10);
    }
}

proof fn lemma_candidate(c: nat)
    ensures
        candidate(c).len() >= 12,
        single_line(candidate(c)),
{
    reveal_strlit("ghadelimiter");
    reveal_strlit("ghadelimiter_");
    if c > 0 {
        lemma_decimal_digits(c);
        let x = candidate(c);
        assert forall|j: int| 0 <= j < x.len() implies x[j] != '\n' && x[j] != '\r' by {
            if j >= 13 {
                assert(x[j] == decimal(c)[j - 13]);
            }
        }
    }
}

proof fn lemma_candidate_injective(a: nat, b: nat)
    requires
        candidate(a) == candidate(b),
    ensures
        a == b,
{
    reveal_strlit("ghadelimiter");
    reveal_strlit("ghadelimiter_");
    let p = "ghadelimiter_"@;
    assert(p.len() == 13);
    assert("ghadelimiter"@.len() == 12);
    if a > 0 && b > 0 {
        assert(candidate(a) == p + decimal(a));
        assert((p + decimal(a)).skip(13) =~= decimal(a));
        assert((p + decimal(b)).skip(13) =~= decimal(b));
        lemma_decimal_injective(a, b);
    } else if a > 0 {
        lemma_decimal_digits(a);
        assert(candidate(a).len() != candidate(b).len());
    } else if b > 0 {
        lemma_decimal_digits(b);
        assert(candidate(a).len() != candidate(b).len());
    }
}

/// At most one single-line text is the line starting at a given position.
proof fn lemma_line_unique(v: Seq<char>, x: Seq<char>, y: Seq<char>, i: int)
    requires
        line_at(v, x, i),
        line_at(v, y, i),
        single_line(x),
        single_line(y),
    ensures
        x == y,
{
    if x.len() < y.len() {
        let e = i + x.len();
        assert(v.subrange(i, i + y.len())[x.len() as int] == y[x.len() as int]);
        assert(v[e] == y[x.len() as int]);
    } else if y.len() < x.len() {
        let e = i + y.len();
        assert(v.subrange(i, i + x.len())[y.len() as int] == x[y.len() as int]);
        assert(v[e] == x[y.len() as int]);
    } else {
        assert(x =~= v.subrange(i, i + x.len()));
        assert(y =~= v.subrange(i, i + y.len()));
    }
}

/// The positions where some candidate from number `c` on is a line.
pub open spec fn line_starts(v: Seq<char>, c: nat) -> Set<int> {
    Set::new(|i: int| 0 <= i && i + 12 <= v.len() && exists|c2: nat| c2 >= c && line_at(v, #[trigger] candidate(c2), i))
}

proof fn lemma_line_starts_bounded(v: Seq<char>, c: nat)
    ensures
        line_starts(v, c).finite(),
        line_starts(v, c).len() <= v.len(),
        v.len() >= 12 ==> line_starts(v, c).len() <= v.len() - 11,
{
    let hi = if v.len() >= 12 { v.len() - 11 } else { 0 };
    lemma_int_range(0, hi as int);
    assert(line_starts(v, c).subset_of(set_int_range(0, hi as int)));
    lemma_len_subset(line_starts(v, c), set_int_range(0, hi as int));
}

proof fn lemma_line_starts_shrink(v: Seq<char>, c: nat, i0: int)
    requires
        line_at(v, candidate(c), i0),
    ensures
        line_starts(v, c).contains(i0),
        line_starts(v, c + 1).subset_of(line_starts(v, c).remove(i0)),
        line_starts(v, c + 1).len() < line_starts(v, c).len(),
{
    lemma_candidate(c);
    assert(line_starts(v, c).contains(i0));
    assert forall|i: int| line_starts(v, c + 1).contains(i) implies line_starts(v, c).remove(i0).contains(i) by {
        let c2 = choose|c2: nat| c2 >= c + 1 && line_at(v, #[trigger] candidate(c2), i);
        assert(line_starts(v, c).contains(i));
        if i == i0 {
            lemma_candidate(c2);
            lemma_line_unique(v, candidate(c), candidate(c2), i0);
            lemma_candidate_injective(c, c2);
        }
    }
    lemma_line_starts_bounded(v, c);
    lemma_line_starts_bounded(v, c + 1);
    vstd::set::axiom_set_remove_len(line_starts(v, c), i0);
    lemma_len_subset(line_starts(v, c + 1), line_starts(v, c).remove(i0));
}

/// Finds where `x` is a line of `v`.
fn find_line(v: &Vec<char>, x: &Vec<char>) -> (r: Option<usize>)
    ensures
        match r {
            Some(i) => line_at(v@, x@, i as int),
            None => !is_line(v@, x@),
        },
{
    let n = v.len();
    let m = x.len();
    let mut i: usize = 0;
    while i <= n
        invariant
            n == v@.len(),
            m == x@.len(),
            forall|j: int| 0 <= j < i ==> !line_at(v@, x@, j),
        ensures
            forall|j: int| 0 <= j <= n ==> !line_at(v@, x@, j),
        decreases n + 1 - i,
    {
        if occurs_at_exec(v, x, i) {
            let e = i + m;
            let starts = i == 0 || v[i - 1] == '\n';
            let ends = e == n || v[e] == '\n' || (v[e] == '\r' && e + 1 < n && v[e + 1] == '\n');
            if starts && ends {
                return Some(i);
            }
        }
        if i == n {
            break;
        }
        i = i + 1;
    }
    assert forall|j: int| !line_at(v@, x@, j) by {
        if j > n {
            assert(!occurs_at(v@, x@, j));
        }
    }
    None
}

/// A delimiter that is not a line of `value`: the first of `ghadelimiter`,
/// `ghadelimiter_1`, `ghadelimiter_2`, ... that is not.
pub fn generate_heredoc_delimiter(value: &str) -> (r: String)
    ensures
        exists|k: nat| chosen_delimiter(value@, k) && r@ == candidate(k),
{
    let v = chars_of(value);
    let n = v.len();
    let mut counter: u64 = 0;
    let mut cand = owned("ghadelimiter");
    proof {
        lemma_line_starts_bounded(v@, 0);
    }
    loop
        invariant
            n == v@.len(),
            v@ == value@,
            cand@ == candidate(counter as nat),
            forall|j: nat| j < counter ==> is_line(value@, #[trigger] candidate(j)),
            counter + line_starts(v@, counter as nat).len() <= line_starts(v@, 0).len(),
            line_starts(v@, 0).len() <= n,
            n >= 12 ==> line_starts(v@, 0).len() <= n - 11,
        decreases line_starts(v@, counter as nat).len(),
    {
        let cv = chars_of(cand.as_str());
        match find_line(&v, &cv) {
            None => {
                assert(!is_line(value@, candidate(counter as nat)));
                assert(forall|j: nat| j < (counter as nat) ==> is_line(value@, #[trigger] candidate(j)));
                assert(chosen_delimiter(value@, counter as nat));
                return cand;
            },
            Some(i0) => {
                proof {
                    lemma_line_starts_shrink(v@, counter as nat, i0 as int);
                    lemma_line_starts_bounded(v@, counter as nat);
                    lemma_candidate(counter as nat);
                    assert(line_starts(v@, counter as nat).len() >= 1) by {
                        assert(line_starts(v@, counter as nat).contains(i0 as int));
                    }
                    assert forall|j: nat| j < counter + 1 implies is_line(value@, #[trigger] candidate(j)) by {
                        if j == counter {
                            assert(line_at(value@, candidate(j), i0 as int));
                        }
                    }
                }
                counter = counter + 1;
                let mut next = owned("ghadelimiter_");
                push_all(&mut next, &decimal_chars(counter));
                cand = next;
            },
        }
    }
}

} // verus!
