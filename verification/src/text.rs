//! Character-sequence helpers shared by the rest of the library.
//!
//! Strings are reasoned about through their `Seq<char>` view; the helpers here
//! convert between `&str`, `String` and `Vec<char>`, and give executable
//! counterparts of a few prefix/suffix/search predicates.
use vstd::prelude::*;

verus! {

/// Appends one character to a `String` (`String::push`).
#[verifier::external_body]
pub(crate) fn push_char(s: &mut String, c: char)
    ensures
        final(s)@ == old(s)@.push(c),
{
    s.push(c)
}

/// Compares two string slices for equality.
pub(crate) fn str_eq(a: &str, b: &str) -> (r: bool)
    ensures
        r == (a@ == b@),
{
    a.to_owned() == b.to_owned()
}

/// The characters of a string slice, in order.
pub fn chars_of(s: &str) -> (v: Vec<char>)
    ensures
        v@ == s@,
{
    let mut v: Vec<char> = Vec::new();
    for c in it: s.chars()
        invariant
            v@ == it.seq().take(it.index() as int),
    {
        v.push(c);
    }
    v
}

/// A `String` holding exactly the given characters.
pub fn string_of(v: &[char]) -> (s: String)
    ensures
        s@ == v@,
{
    let mut s = String::new();
    let mut i: usize = 0;
    while i < v.len()
        invariant
            i <= v.len(),
            s@ == v@.take(i as int),
        decreases v.len() - i,
    {
        push_char(&mut s, v[i]);
        assert(v@.take(i + 1) == v@.take(i as int).push(v@[i as int]));
        i = i + 1;
    }
    assert(v@.take(v.len() as int) == v@);
    s
}

/// A `String` copy of a string slice.
pub fn owned(s: &str) -> (r: String)
    ensures
        r@ == s@,
{
    let v = chars_of(s);
    string_of(&v)
}

/// Appends the characters of `t` to `s`.
pub fn push_all(s: &mut String, t: &[char])
    ensures
        final(s)@ == old(s)@ + t@,
{
    let mut i: usize = 0;
    while i < t.len()
        invariant
            i <= t.len(),
            s@ == old(s)@ + t@.take(i as int),
        decreases t.len() - i,
    {
        push_char(s, t[i]);
        assert(t@.take(i + 1) == t@.take(i as int).push(t@[i as int]));
        i = i + 1;
    }
    assert(t@.take(t.len() as int) == t@);
}

/// Appends a string slice to `s`.
pub fn push_str(s: &mut String, t: &str)
    ensures
        final(s)@ == old(s)@ + t@,
{
    let v = chars_of(t);
    push_all(s, &v);
}


/// `p` is a prefix of `s`.
pub open spec fn has_prefix(s: Seq<char>, p: Seq<char>) -> bool {
    p.len() <= s.len() && s.subrange(0, p.len() as int) == p
}

/// `p` is a suffix of `s`.
pub open spec fn has_suffix(s: Seq<char>, p: Seq<char>) -> bool {
    p.len() <= s.len() && s.subrange(s.len() - p.len(), s.len() as int) == p
}

/// `p` occurs in `s` at position `i`.
pub open spec fn occurs_at(s: Seq<char>, p: Seq<char>, i: int) -> bool {
    0 <= i && i + p.len() <= s.len() && s.subrange(i, i + p.len()) == p
}

/// `p` occurs somewhere in `s`.
pub open spec fn contains_seq(s: Seq<char>, p: Seq<char>) -> bool {
    exists|i: int| occurs_at(s, p, i)
}

/// Executable check that `p` occurs in `s` at position `i`.
pub fn occurs_at_exec(s: &[char], p: &[char], i: usize) -> (r: bool)
    ensures
        r == occurs_at(s@, p@, i as int),
{
    if i > s.len() || p.len() > s.len() - i {
        return false;
    }
    let mut k: usize = 0;
    while k < p.len()
        invariant
            k <= p.len(),
            i + p.len() <= s.len(),
            forall|t: int| 0 <= t < k ==> s@[i + t] == p@[t],
        decreases p.len() - k,
    {
        if s[i + k] != p[k] {
            assert(s@.subrange(i as int, i + p.len())[k as int] != p@[k as int]);
            return false;
        }
        k = k + 1;
    }
    assert(s@.subrange(i as int, i + p.len()) =~= p@);
    true
}

/// Executable prefix test on character slices.
pub fn starts_with(s: &[char], p: &[char]) -> (r: bool)
    ensures
        r == has_prefix(s@, p@),
{
    occurs_at_exec(s, p, 0)
}

/// Executable suffix test on character slices.
pub fn ends_with(s: &[char], p: &[char]) -> (r: bool)
    ensures
        r == has_suffix(s@, p@),
{
    if p.len() > s.len() {
        false
    } else {
        occurs_at_exec(s, p, s.len() - p.len())
    }
}

/// Executable prefix test on string slices.
pub fn str_starts_with(s: &str, p: &str) -> (r: bool)
    ensures
        r == has_prefix(s@, p@),
{
    let sv = chars_of(s);
    let pv = chars_of(p);
    starts_with(&sv, &pv)
}

/// Executable suffix test on string slices.
pub fn str_ends_with(s: &str, p: &str) -> (r: bool)
    ensures
        r == has_suffix(s@, p@),
{
    let sv = chars_of(s);
    let pv = chars_of(p);
    ends_with(&sv, &pv)
}

/// Index of the first occurrence of `p` in `s` at or after `from`.
pub open spec fn first_occurrence_from(s: Seq<char>, p: Seq<char>, from: int, i: int) -> bool {
    from <= i && occurs_at(s, p, i) && forall|j: int| from <= j < i ==> !occurs_at(s, p, j)
}

/// Finds the first position at or after `from` where `p` occurs in `s`.
pub fn find_from(s: &[char], p: &[char], from: usize) -> (r: Option<usize>)
    ensures
        match r {
            Some(i) => first_occurrence_from(s@, p@, from as int, i as int),
            None => forall|j: int| from <= j ==> !occurs_at(s@, p@, j),
        },
{
    if from > s.len() {
        return None;
    }
    let mut i = from;
    loop
        invariant
            from <= i <= s.len(),
            forall|j: int| from <= j < i ==> !occurs_at(s@, p@, j),
        decreases s.len() - i,
    {
        if occurs_at_exec(s, p, i) {
            return Some(i);
        }
        if i == s.len() {
            return None;
        }
        i = i + 1;
    }
}

/// Executable substring test on character slices.
pub fn contains(s: &[char], p: &[char]) -> (r: bool)
    ensures
        r == contains_seq(s@, p@),
{
    match find_from(s, p, 0) {
        Some(i) => true,
        None => false,
    }
}

/// `s` with the prefix `p` removed, when `s` starts with `p`.
pub fn strip_prefix(s: &[char], p: &[char]) -> (r: Option<Vec<char>>)
    ensures
        match r {
            Some(v) => has_prefix(s@, p@) && v@ == s@.subrange(p@.len() as int, s@.len() as int),
            None => !has_prefix(s@, p@),
        },
{
    if starts_with(s, p) {
        Some(slice_range(s, p.len(), s.len()))
    } else {
        None
    }
}

/// A copy of `s[from..to]`.
pub fn slice_range(s: &[char], from: usize, to: usize) -> (r: Vec<char>)
    requires
        from <= to <= s.len(),
    ensures
        r@ == s@.subrange(from as int, to as int),
{
    let mut r: Vec<char> = Vec::new();
    let mut i = from;
    while i < to
        invariant
            from <= i <= to <= s.len(),
            r@ == s@.subrange(from as int, i as int),
        decreases to - i,
    {
        r.push(s[i]);
        assert(s@.subrange(from as int, i + 1) == s@.subrange(from as int, i as int).push(
            s@[i as int],
        ));
        i = i + 1;
    }
    r
}

/// The decimal digits of a natural number (no sign, no leading zeros; `0` is `"0"`).
pub open spec fn decimal(n: nat) -> Seq<char>
    decreases n,
{
    if n < 10 {
        seq![digit_char(n)]
    } else {
        decimal(n / 10).push(digit_char(n % 10))
    }
}

/// The ASCII digit for `d < 10`.
pub open spec fn digit_char(d: nat) -> char {
    if d == 0 { '0' }
    else if d == 1 { '1' }
    else if d == 2 { '2' }
    else if d == 3 { '3' }
    else if d == 4 { '4' }
    else if d == 5 { '5' }
    else if d == 6 { '6' }
    else if d == 7 { '7' }
    else if d == 8 { '8' }
    else { '9' }
}

fn digit_char_exec(d: u64) -> (c: char)
    requires
        d < 10,
    ensures
        c == digit_char(d as nat),
{
    if d == 0 { '0' }
    else if d == 1 { '1' }
    else if d == 2 { '2' }
    else if d == 3 { '3' }
    else if d == 4 { '4' }
    else if d == 5 { '5' }
    else if d == 6 { '6' }
    else if d == 7 { '7' }
    else if d == 8 { '8' }
    else { '9' }
}

/// Decimal rendering of an unsigned integer, as `format!("{}", n)` writes it.
pub fn decimal_chars(n: u64) -> (r: Vec<char>)
    ensures
        r@ == decimal(n as nat),
    decreases n,
{
    if n < 10 {
        let mut r = Vec::new();
        r.push(digit_char_exec(n));
        assert(r@ =~= seq![digit_char(n as nat)]);
        r
    } else {
        let mut r = decimal_chars(n / 10);
        r.push(digit_char_exec(n % 10));
        r
    }
}

/// ASCII lowercase of one character (non-letters unchanged).
pub open spec fn ascii_lower(c: char) -> char {
    if 'A' <= c && c <= 'Z' {
        ((c as u32) + 32) as char
    } else {
        c
    }
}

/// ASCII lowercase of every character.
pub open spec fn ascii_lower_seq(s: Seq<char>) -> Seq<char> {
    s.map_values(|c: char| ascii_lower(c))
}

pub fn ascii_lower_exec(c: char) -> (r: char)
    ensures
        r == ascii_lower(c),
{
    if 'A' <= c && c <= 'Z' {
        let u = (c as u32) + 32;
        // the result is a lowercase ASCII letter
        assert(0x61 <= u <= 0x7a);
        char_from_ascii(u)
    } else {
        c
    }
}

/// The character with an ASCII code point.
fn char_from_ascii(u: u32) -> (c: char)
    requires
        u < 128,
    ensures
        c == u as char,
        c as u32 == u,
{
    (u as u8) as char
}

/// ASCII lowercase of a character slice.
pub fn ascii_lower_vec(s: &[char]) -> (r: Vec<char>)
    ensures
        r@ == ascii_lower_seq(s@),
{
    let mut r: Vec<char> = Vec::new();
    let mut i: usize = 0;
    while i < s.len()
        invariant
            i <= s.len(),
            r@ == ascii_lower_seq(s@.take(i as int)),
        decreases s.len() - i,
    {
        r.push(ascii_lower_exec(s[i]));
        assert(ascii_lower_seq(s@.take(i + 1)) =~= ascii_lower_seq(s@.take(i as int)).push(
            ascii_lower(s@[i as int]),
        ));
        i = i + 1;
    }
    assert(s@.take(s.len() as int) == s@);
    r
}

/// Unicode `White_Space`, as `char::is_whitespace` defines it.
pub open spec fn is_unicode_whitespace(c: char) -> bool {
    ||| ('\t' <= c && c <= '\r')
    ||| c == ' '
    ||| c == '\u{85}'
    ||| c == '\u{a0}'
    ||| c == '\u{1680}'
    ||| ('\u{2000}' <= c && c <= '\u{200a}')
    ||| c == '\u{2028}'
    ||| c == '\u{2029}'
    ||| c == '\u{202f}'
    ||| c == '\u{205f}'
    ||| c == '\u{3000}'
}

pub fn is_unicode_whitespace_exec(c: char) -> (r: bool)
    ensures
        r == is_unicode_whitespace(c),
{
    ('\t' <= c && c <= '\r') || c == ' ' || c == '\u{85}' || c == '\u{a0}' || c == '\u{1680}'
        || ('\u{2000}' <= c && c <= '\u{200a}') || c == '\u{2028}' || c == '\u{2029}'
        || c == '\u{202f}' || c == '\u{205f}' || c == '\u{3000}'
}

/// Position of the first non-whitespace character (or the length).
pub open spec fn trim_start_index(s: Seq<char>) -> int
    decreases s.len(),
{
    if s.len() == 0 {
        0
    } else if is_unicode_whitespace(s[0]) {
        1 + trim_start_index(s.drop_first())
    } else {
        0
    }
}

/// One past the last non-whitespace character (or 0).
pub open spec fn trim_end_index(s: Seq<char>) -> int
    decreases s.len(),
{
    if s.len() == 0 {
        0
    } else if is_unicode_whitespace(s.last()) {
        trim_end_index(s.drop_last())
    } else {
        s.len() as int
    }
}

/// `s` without leading and trailing whitespace (`str::trim`).
pub open spec fn trim(s: Seq<char>) -> Seq<char> {
    let a = trim_start_index(s);
    let b = trim_end_index(s);
    if a < b {
        s.subrange(a, b)
    } else {
        Seq::empty()
    }
}

proof fn lemma_trim_start_index(s: Seq<char>)
    ensures
        0 <= trim_start_index(s) <= s.len(),
        forall|j: int| 0 <= j < trim_start_index(s) ==> is_unicode_whitespace(s[j]),
        trim_start_index(s) < s.len() ==> !is_unicode_whitespace(s[trim_start_index(s)]),
    decreases s.len(),
{
    if s.len() > 0 && is_unicode_whitespace(s[0]) {
        lemma_trim_start_index(s.drop_first());
        assert forall|j: int| 0 <= j < trim_start_index(s) implies is_unicode_whitespace(s[j]) by {
            if j > 0 {
                assert(s[j] == s.drop_first()[j - 1]);
            }
        }
    }
}

proof fn lemma_trim_end_index(s: Seq<char>)
    ensures
        0 <= trim_end_index(s) <= s.len(),
        forall|j: int| trim_end_index(s) <= j < s.len() ==> is_unicode_whitespace(s[j]),
        trim_end_index(s) > 0 ==> !is_unicode_whitespace(s[trim_end_index(s) - 1]),
    decreases s.len(),
{
    if s.len() > 0 && is_unicode_whitespace(s.last()) {
        lemma_trim_end_index(s.drop_last());
        assert forall|j: int| trim_end_index(s) <= j < s.len() implies is_unicode_whitespace(s[j]) by {
            if j < s.len() - 1 {
                assert(s[j] == s.drop_last()[j]);
            }
        }
    }
}

/// Where the trimmed part lies.
pub proof fn lemma_trim_bounds(s: Seq<char>)
    ensures
        0 <= trim_start_index(s) <= s.len(),
        0 <= trim_end_index(s) <= s.len(),
{
    lemma_trim_start_index(s);
    lemma_trim_end_index(s);
}

/// Characters of `s` without leading and trailing Unicode whitespace.
pub fn trim_vec(s: &[char]) -> (r: Vec<char>)
    ensures
        r@ == trim(s@),
{
    proof {
        lemma_trim_start_index(s@);
        lemma_trim_end_index(s@);
    }
    let mut a: usize = 0;
    while a < s.len() && is_unicode_whitespace_exec(s[a])
        invariant
            a <= s.len(),
            a <= trim_start_index(s@),
            0 <= trim_start_index(s@) <= s.len(),
            forall|j: int| 0 <= j < trim_start_index(s@) ==> is_unicode_whitespace(s@[j]),
            trim_start_index(s@) < s.len() ==> !is_unicode_whitespace(s@[trim_start_index(s@)]),
        decreases s.len() - a,
    {
        a = a + 1;
    }
    let mut b: usize = s.len();
    while b > 0 && is_unicode_whitespace_exec(s[b - 1])
        invariant
            b <= s.len(),
            trim_end_index(s@) <= b,
            0 <= trim_end_index(s@) <= s.len(),
            forall|j: int| trim_end_index(s@) <= j < s.len() ==> is_unicode_whitespace(s@[j]),
            trim_end_index(s@) > 0 ==> !is_unicode_whitespace(s@[trim_end_index(s@) - 1]),
        decreases b,
    {
        b = b - 1;
    }
    assert(a == trim_start_index(s@));
    assert(b == trim_end_index(s@));
    if a < b {
        slice_range(s, a, b)
    } else {
        Vec::new()
    }
}

/// A string slice without leading and trailing whitespace.
pub fn trim_str(s: &str) -> (r: Vec<char>)
    ensures
        r@ == trim(s@),
{
    let v = chars_of(s);
    trim_vec(&v)
}

} // verus!

verus! {

/// The parts joined with `sep` between consecutive parts (`[..].join(sep)`).
pub open spec fn join(parts: Seq<Seq<char>>, sep: Seq<char>) -> Seq<char>
    decreases parts.len(),
{
    if parts.len() == 0 {
        Seq::empty()
    } else if parts.len() == 1 {
        parts[0]
    } else {
        join(parts.drop_last(), sep) + sep + parts.last()
    }
}

/// The views of a list of strings.
pub open spec fn views(v: Seq<String>) -> Seq<Seq<char>> {
    v.map_values(|s: String| s@)
}

/// Joins strings with a separator.
pub fn join_strings(parts: &Vec<String>, sep: &str) -> (r: String)
    ensures
        r@ == join(views(parts@), sep@),
{
    let mut r = String::new();
    let mut i: usize = 0;
    while i < parts.len()
        invariant
            i <= parts.len(),
            r@ == join(views(parts@).take(i as int), sep@),
        decreases parts.len() - i,
    {
        let ghost before = views(parts@).take(i as int);
        if i > 0 {
            push_str(&mut r, sep);
        }
        push_str(&mut r, parts[i].as_str());
        proof {
            let now = views(parts@).take(i + 1);
            assert(now.drop_last() =~= before);
            assert(now.last() == parts@[i as int]@);
            if i == 0 {
                assert(now.len() == 1);
                assert(r@ =~= now[0]);
            }
        }
        i = i + 1;
    }
    assert(views(parts@).take(parts.len() as int) =~= views(parts@));
    r
}

} // verus!

verus! {

/// `s` is one of the strings of `v`.
pub fn vec_contains(v: &Vec<String>, s: &str) -> (r: bool)
    ensures
        r == views(v@).contains(s@),
{
    let mut i: usize = 0;
    while i < v.len()
        invariant
            i <= v.len(),
            forall|j: int| 0 <= j < i ==> views(v@)[j] != s@,
        decreases v.len() - i,
    {
        if str_eq(v[i].as_str(), s) {
            assert(views(v@)[i as int] == s@);
            return true;
        }
        i = i + 1;
    }
    false
}

/// Position of the first `c` in `s` at or after `i`.
pub open spec fn find_char(s: Seq<char>, c: char, i: int) -> Option<int>
    decreases s.len() - i,
{
    if i < 0 || i >= s.len() {
        None
    } else if s[i] == c {
        Some(i)
    } else {
        find_char(s, c, i + 1)
    }
}

pub proof fn lemma_find_char(s: Seq<char>, c: char, i: int)
    requires
        0 <= i,
    ensures
        find_char(s, c, i) matches Some(k) ==> i <= k < s.len() && s[k] == c,
        find_char(s, c, i) is None ==> forall|k: int| i <= k < s.len() ==> s[k] != c,
    decreases s.len() - i,
{
    if i < s.len() && s[i] != c {
        lemma_find_char(s, c, i + 1);
    }
}

pub fn find_char_exec(s: &Vec<char>, c: char) -> (r: Option<usize>)
    ensures
        match r {
            Some(k) => find_char(s@, c, 0) == Some(k as int),
            None => find_char(s@, c, 0) is None,
        },
{
    let mut j: usize = 0;
    while j < s.len()
        invariant
            find_char(s@, c, 0) == find_char(s@, c, j as int),
        decreases s.len() - j,
    {
        if s[j] == c {
            return Some(j);
        }
        j = j + 1;
    }
    None
}


/// Field `n` (from 0) of `s` split at every `c`.
pub open spec fn field(s: Seq<char>, c: char, n: nat) -> Option<Seq<char>>
    decreases n,
{
    match find_char(s, c, 0) {
        None => if n == 0 { Some(s) } else { None },
        Some(k) => if n == 0 {
            Some(s.take(k))
        } else if 0 <= k < s.len() {
            field(s.skip(k + 1), c, (n - 1) as nat)
        } else {
            None
        },
    }
}

/// Field `n` of `s` split at `c`, computed.
pub fn field_exec(s: &Vec<char>, c: char, n: usize) -> (r: Option<Vec<char>>)
    ensures
        match r {
            Some(v) => field(s@, c, n as nat) == Some(v@),
            None => field(s@, c, n as nat) is None,
        },
    decreases n,
{
    let len = s.len();
    match find_char_exec(s, c) {
        None => if n == 0 { Some(slice_range(s, 0, len)) } else { None },
        Some(k) => {
            proof { lemma_find_char(s@, c, 0); }
            if n == 0 {
                Some(slice_range(s, 0, k))
            } else {
                let rest = slice_range(s, k + 1, len);
                assert(rest@ =~= s@.skip(k + 1));
                field_exec(&rest, c, n - 1)
            }
        },
    }
}

/// Number of `c` in `s`.
pub open spec fn count_char(s: Seq<char>, c: char) -> nat
    decreases s.len(),
{
    if s.len() == 0 {
        0
    } else {
        count_char(s.drop_last(), c) + if s.last() == c { 1nat } else { 0nat }
    }
}

/// Counts the `c` in `s`.
pub fn count_char_exec(s: &Vec<char>, c: char) -> (n: usize)
    ensures
        n == count_char(s@, c),
{
    let mut n: usize = 0;
    let mut i: usize = 0;
    while i < s.len()
        invariant
            i <= s@.len(),
            n == count_char(s@.take(i as int), c),
            n <= i,
        decreases s.len() - i,
    {
        assert(s@.take(i + 1).drop_last() =~= s@.take(i as int));
        if s[i] == c {
            n = n + 1;
        }
        i = i + 1;
    }
    assert(s@.take(s@.len() as int) =~= s@);
    n
}

/// `s` with every trailing repetition of `p` removed (`trim_end_matches`).
pub open spec fn strip_all_suffix(s: Seq<char>, p: Seq<char>) -> Seq<char>
    decreases s.len(),
{
    if p.len() > 0 && has_suffix(s, p) {
        strip_all_suffix(s.subrange(0, s.len() - p.len()), p)
    } else {
        s
    }
}

/// Removes every trailing repetition of `p`.
pub fn strip_all_suffix_exec(s: &Vec<char>, p: &Vec<char>) -> (r: Vec<char>)
    requires
        p@.len() > 0,
    ensures
        r@ == strip_all_suffix(s@, p@),
{
    let mut e: usize = s.len();
    let ghost g = s@;
    assert(g.subrange(0, g.len() as int) =~= g);
    loop
        invariant
            e <= g.len(),
            g == s@,
            p@.len() > 0,
            strip_all_suffix(g, p@) == strip_all_suffix(g.subrange(0, e as int), p@),
        ensures
            e <= g.len(),
            g == s@,
            strip_all_suffix(g, p@) == g.subrange(0, e as int),
        decreases e,
    {
        if p.len() > e || !occurs_at_exec(s, p, e - p.len()) {
            proof {
                let t = g.subrange(0, e as int);
                if has_suffix(t, p@) {
                    assert(t.subrange(t.len() - p@.len(), t.len() as int) =~= g.subrange(e - p@.len(), e as int));
                }
                assert(!has_suffix(t, p@));
            }
            break;
        }
        proof {
            let t = g.subrange(0, e as int);
            assert(t.subrange(t.len() - p@.len(), t.len() as int) =~= g.subrange(e - p@.len(), e as int));
            assert(t.subrange(0, t.len() - p@.len()) =~= g.subrange(0, e - p@.len()));
        }
        e = e - p.len();
    }
    slice_range(s, 0, e)
}

/// First position at or after `i` where `p` occurs.
pub open spec fn find_seq(s: Seq<char>, p: Seq<char>, i: int) -> Option<int>
    decreases s.len() - i,
{
    if i < 0 || i + p.len() > s.len() {
        None
    } else if occurs_at(s, p, i) {
        Some(i)
    } else if i < s.len() {
        find_seq(s, p, i + 1)
    } else {
        None
    }
}

/// What [`find_seq`] finds: an occurrence at or after `i`, and no earlier one.
pub proof fn lemma_find_seq(s: Seq<char>, p: Seq<char>, i: int)
    requires
        0 <= i,
    ensures
        find_seq(s, p, i) matches Some(k) ==> i <= k && occurs_at(s, p, k),
        find_seq(s, p, i) is None ==> forall|j: int| i <= j ==> !occurs_at(s, p, j),
    decreases s.len() - i,
{
    if i + p.len() <= s.len() && !occurs_at(s, p, i) && i < s.len() {
        lemma_find_seq(s, p, i + 1);
    }
}

/// The first position where `p` occurs in `s` (see [`find_seq`]).
pub fn find_seq_exec(s: &[char], p: &[char]) -> (r: Option<usize>)
    ensures
        match r {
            Some(i) => find_seq(s@, p@, 0) == Some(i as int),
            None => find_seq(s@, p@, 0) is None,
        },
{
    match find_from(s, p, 0) {
        Some(i) => {
            proof { lemma_find_seq_first(s@, p@, 0, i as int); }
            Some(i)
        },
        None => {
            proof { lemma_find_seq_none(s@, p@, 0); }
            None
        },
    }
}

/// Field `n` (from 0) of `s` split at every occurrence of the non-empty `p`.
pub open spec fn field_seq(s: Seq<char>, p: Seq<char>, n: nat) -> Option<Seq<char>>
    decreases n,
{
    match find_seq(s, p, 0) {
        None => if n == 0 { Some(s) } else { None },
        Some(k) => if n == 0 {
            Some(s.take(k))
        } else if 0 <= k && k + p.len() <= s.len() {
            field_seq(s.skip(k + p.len()), p, (n - 1) as nat)
        } else {
            None
        },
    }
}

/// Field `n` of `s` split at `p`, computed.
pub fn field_seq_exec(s: &Vec<char>, p: &Vec<char>, n: usize) -> (r: Option<Vec<char>>)
    ensures
        match r {
            Some(v) => field_seq(s@, p@, n as nat) == Some(v@),
            None => field_seq(s@, p@, n as nat) is None,
        },
    decreases n,
{
    proof { lemma_find_seq(s@, p@, 0); }
    let found = find_from(s, p, 0);
    let k: Option<usize> = match found {
        Some(i) => {
            proof {
                assert(find_seq(s@, p@, 0) == Some(i as int)) by {
                    lemma_find_seq_first(s@, p@, 0, i as int);
                }
            }
            Some(i)
        },
        None => {
            proof {
                lemma_find_seq_none(s@, p@, 0);
            }
            None
        },
    };
    let len = s.len();
    match k {
        None => if n == 0 { Some(slice_range(s, 0, len)) } else { None },
        Some(k) => {
            if n == 0 {
                Some(slice_range(s, 0, k))
            } else {
                assert(k + p@.len() <= s@.len());
                let rest = slice_range(s, k + p.len(), len);
                assert(rest@ =~= s@.skip(k + p@.len()));
                field_seq_exec(&rest, p, n - 1)
            }
        },
    }
}

proof fn lemma_find_seq_first(s: Seq<char>, p: Seq<char>, i: int, k: int)
    requires
        0 <= i <= k,
        occurs_at(s, p, k),
        forall|j: int| i <= j < k ==> !occurs_at(s, p, j),
    ensures
        find_seq(s, p, i) == Some(k),
    decreases k - i,
{
    if i < k {
        lemma_find_seq_first(s, p, i + 1, k);
    }
}

proof fn lemma_find_seq_none(s: Seq<char>, p: Seq<char>, i: int)
    requires
        0 <= i,
        forall|j: int| i <= j ==> !occurs_at(s, p, j),
    ensures
        find_seq(s, p, i) is None,
    decreases s.len() - i,
{
    if i + p.len() <= s.len() && i < s.len() {
        lemma_find_seq_none(s, p, i + 1);
    }
}

/// Value of a run of ASCII digits.
pub open spec fn digits_value(d: Seq<char>) -> nat
    decreases d.len(),
{
    if d.len() == 0 {
        0
    } else {
        digits_value(d.drop_last()) * 10 + (d.last() as nat - '0' as nat) as nat
    }
}

pub open spec fn all_digits(d: Seq<char>) -> bool {
    forall|j: int| 0 <= j < d.len() ==> '0' <= #[trigger] d[j] && d[j] <= '9'
}

/// A decimal number as `from_str` of an unsigned type reads it: an
/// optional `+`, then at least one ASCII digit, the value at most `max`.
pub open spec fn unsigned_text(t: Seq<char>, max: nat) -> Option<nat> {
    let d = if t.len() > 0 && t[0] == '+' { t.drop_first() } else { t };
    if d.len() > 0 && all_digits(d) && digits_value(d) <= max {
        Some(digits_value(d))
    } else {
        None
    }
}

pub proof fn lemma_digits_value_mono(d: Seq<char>, j: int)
    requires
        0 <= j <= d.len(),
        all_digits(d),
    ensures
        digits_value(d.take(j)) <= digits_value(d),
    decreases d.len() - j,
{
    if j < d.len() {
        lemma_digits_value_mono(d, j + 1);
        assert(d.take(j + 1).drop_last() =~= d.take(j));
        assert(d.take(j + 1).last() == d[j]);
        assert('0' <= d[j]);
    } else {
        assert(d.take(j) =~= d);
    }
}

/// Reads an unsigned decimal number (an optional `+`, then digits) that
/// fits in `max`.
pub fn parse_unsigned(t: &Vec<char>, max: usize) -> (r: Option<usize>)
    ensures
        match r {
            Some(k) => unsigned_text(t@, max as nat) == Some(k as nat),
            None => unsigned_text(t@, max as nat) is None,
        },
{
    let start: usize = if t.len() > 0 && t[0] == '+' { 1 } else { 0 };
    let ghost d = if t@.len() > 0 && t@[0] == '+' { t@.drop_first() } else { t@ };
    assert(d =~= t@.subrange(start as int, t@.len() as int));
    if start >= t.len() {
        return None;
    }
    let mut v: usize = 0;
    let mut j: usize = start;
    while j < t.len()
        invariant
            start <= j <= t@.len(),
            start < t@.len(),
            d == t@.subrange(start as int, t@.len() as int),
            d == (if t@.len() > 0 && t@[0] == '+' { t@.drop_first() } else { t@ }),
            all_digits(d.take(j - start)),
            v == digits_value(d.take(j - start)),
            v <= max,
        decreases t.len() - j,
    {
        let c = t[j];
        assert(d.take(j - start + 1).drop_last() =~= d.take(j - start));
        assert(d.take(j - start + 1).last() == c);
        if c < '0' || c > '9' {
            assert(!all_digits(d)) by {
                assert(d[j - start] == c);
            }
            return None;
        }
        let digit = (c as u32 - '0' as u32) as usize;
        if digit > max || v > (max - digit) / 10 {
            proof {
                assert(all_digits(d.take(j - start + 1)));
                assert(digits_value(d.take(j - start + 1)) == v * 10 + digit);
                assert(v * 10 + digit > max) by (nonlinear_arith)
                    requires digit > max || v > (max - digit) / 10, digit <= 9, v >= 0;
                if all_digits(d) {
                    lemma_digits_value_mono(d, j - start + 1);
                }
            }
            return None;
        }
        assert(v * 10 + digit <= max) by (nonlinear_arith)
            requires v <= (max - digit) / 10, digit <= 9;
        v = v * 10 + digit;
        proof {
            assert forall|k: int| 0 <= k < d.take(j - start + 1).len() implies '0' <= #[trigger] d.take(j - start + 1)[k] && d.take(j - start + 1)[k] <= '9' by {
                if k < j - start {
                    assert(d.take(j - start + 1)[k] == d.take(j - start)[k]);
                }
            }
        }
        j = j + 1;
    }
    assert(d.take(d.len() as int) =~= d);
    Some(v)
}

/// Reads a `usize` the way `usize::from_str` does.
pub fn parse_usize(t: &Vec<char>) -> (r: Option<usize>)
    ensures
        match r {
            Some(k) => unsigned_text(t@, usize::MAX as nat) == Some(k as nat),
            None => unsigned_text(t@, usize::MAX as nat) is None,
        },
{
    parse_unsigned(t, usize::MAX)
}

} // verus!
