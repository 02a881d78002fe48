//! Tokenizer for the expression language used inside `${{ }}` blocks.
//!
//! Positions in error messages are byte offsets into the input, as the
//! input's UTF-8 encoding counts them.
use vstd::prelude::*;
use vstd::utf8::*;
use vstd::string::StringSliceAdditionalSpecFns;
use crate::text::{string_of, slice_range, decimal, decimal_chars, push_all, push_str, push_char, owned};

verus! {

/// A token of the expression language. Number literals keep their text.
pub enum Token {
    Ident(String),
    StringLit(String),
    NumberLit(String),
    True,
    False,
    Null,
    Dot,
    LParen,
    RParen,
    Comma,
    Eq,
    Ne,
    Lt,
    Le,
    Gt,
    Ge,
    And,
    Or,
    Not,
    Eof,
}

/// The abstract form of a token.
pub enum Tok {
    Ident(Seq<char>),
    Str(Seq<char>),
    Num(Seq<char>),
    True,
    False,
    Null,
    Dot,
    LParen,
    RParen,
    Comma,
    Eq,
    Ne,
    Lt,
    Le,
    Gt,
    Ge,
    And,
    Or,
    Not,
    Eof,
}

impl View for Token {
    type V = Tok;

    open spec fn view(&self) -> Tok {
        match self {
            Token::Ident(s) => Tok::Ident(s@),
            Token::StringLit(s) => Tok::Str(s@),
            Token::NumberLit(s) => Tok::Num(s@),
            Token::True => Tok::True,
            Token::False => Tok::False,
            Token::Null => Tok::Null,
            Token::Dot => Tok::Dot,
            Token::LParen => Tok::LParen,
            Token::RParen => Tok::RParen,
            Token::Comma => Tok::Comma,
            Token::Eq => Tok::Eq,
            Token::Ne => Tok::Ne,
            Token::Lt => Tok::Lt,
            Token::Le => Tok::Le,
            Token::Gt => Tok::Gt,
            Token::Ge => Tok::Ge,
            Token::And => Tok::And,
            Token::Or => Tok::Or,
            Token::Not => Tok::Not,
            Token::Eof => Tok::Eof,
        }
    }
}

/// The views of a token list.
pub open spec fn toks(v: Seq<Token>) -> Seq<Tok> {
    v.map_values(|t: Token| t@)
}

impl Token {
    /// A copy of the token.
    pub fn copy(&self) -> (r: Token)
        ensures
            r@ == self@,
    {
        match self {
            Token::Ident(s) => Token::Ident(s.clone()),
            Token::StringLit(s) => Token::StringLit(s.clone()),
            Token::NumberLit(s) => Token::NumberLit(s.clone()),
            Token::True => Token::True,
            Token::False => Token::False,
            Token::Null => Token::Null,
            Token::Dot => Token::Dot,
            Token::LParen => Token::LParen,
            Token::RParen => Token::RParen,
            Token::Comma => Token::Comma,
            Token::Eq => Token::Eq,
            Token::Ne => Token::Ne,
            Token::Lt => Token::Lt,
            Token::Le => Token::Le,
            Token::Gt => Token::Gt,
            Token::Ge => Token::Ge,
            Token::And => Token::And,
            Token::Or => Token::Or,
            Token::Not => Token::Not,
            Token::Eof => Token::Eof,
        }
    }

    /// Whether two tokens are the same (kind and payload).
    pub fn same(&self, other: &Token) -> (r: bool)
        ensures
            r == (self@ == other@),
    {
        match (self, other) {
            (Token::Ident(a), Token::Ident(b)) => crate::text::str_eq(a.as_str(), b.as_str()),
            (Token::StringLit(a), Token::StringLit(b)) => crate::text::str_eq(a.as_str(), b.as_str()),
            (Token::NumberLit(a), Token::NumberLit(b)) => crate::text::str_eq(a.as_str(), b.as_str()),
            (Token::True, Token::True) => true,
            (Token::False, Token::False) => true,
            (Token::Null, Token::Null) => true,
            (Token::Dot, Token::Dot) => true,
            (Token::LParen, Token::LParen) => true,
            (Token::RParen, Token::RParen) => true,
            (Token::Comma, Token::Comma) => true,
            (Token::Eq, Token::Eq) => true,
            (Token::Ne, Token::Ne) => true,
            (Token::Lt, Token::Lt) => true,
            (Token::Le, Token::Le) => true,
            (Token::Gt, Token::Gt) => true,
            (Token::Ge, Token::Ge) => true,
            (Token::And, Token::And) => true,
            (Token::Or, Token::Or) => true,
            (Token::Not, Token::Not) => true,
            (Token::Eof, Token::Eof) => true,
            _ => false,
        }
    }
}

/// ASCII whitespace as `u8::is_ascii_whitespace` defines it.
pub open spec fn is_ascii_ws(c: char) -> bool {
    c == ' ' || c == '\t' || c == '\n' || c == '\x0C' || c == '\r'
}

pub open spec fn is_digit(c: char) -> bool {
    '0' <= c && c <= '9'
}

pub open spec fn is_alpha(c: char) -> bool {
    ('a' <= c && c <= 'z') || ('A' <= c && c <= 'Z')
}

/// Characters allowed after the first character of an identifier.
pub open spec fn is_ident_char(c: char) -> bool {
    is_digit(c) || is_alpha(c) || c == '_' || c == '-'
}

/// End of the whitespace run starting at `i`.
pub open spec fn ws_end(s: Seq<char>, i: int) -> int
    decreases s.len() - i,
{
    if 0 <= i < s.len() && is_ascii_ws(s[i]) {
        ws_end(s, i + 1)
    } else {
        i
    }
}

/// End of the identifier characters starting at `i`.
pub open spec fn ident_end(s: Seq<char>, i: int) -> int
    decreases s.len() - i,
{
    if 0 <= i < s.len() && is_ident_char(s[i]) {
        ident_end(s, i + 1)
    } else {
        i
    }
}

/// End of the digits and dots starting at `i`.
pub open spec fn number_end(s: Seq<char>, i: int) -> int
    decreases s.len() - i,
{
    if 0 <= i < s.len() && (is_digit(s[i]) || s[i] == '.') {
        number_end(s, i + 1)
    } else {
        i
    }
}

/// Number of `.` characters.
pub open spec fn count_dots(t: Seq<char>) -> nat
    decreases t.len(),
{
    if t.len() == 0 {
        0
    } else {
        count_dots(t.drop_last()) + if t.last() == '.' { 1nat } else { 0nat }
    }
}

/// The body of a quoted string starting at `i` (just after the opening quote):
/// its characters (with `''` read as `'`) and the position after the closing
/// quote; `None` when the quote is never closed.
pub open spec fn string_body(s: Seq<char>, i: int) -> Option<(Seq<char>, int)>
    decreases s.len() - i,
{
    if i < 0 || i >= s.len() {
        None
    } else if s[i] == '\'' {
        if i + 1 < s.len() && s[i + 1] == '\'' {
            match string_body(s, i + 2) {
                Some((b, e)) => Some((seq!['\''] + b, e)),
                None => None,
            }
        } else {
            Some((Seq::empty(), i + 1))
        }
    } else {
        match string_body(s, i + 1) {
            Some((b, e)) => Some((seq![s[i]] + b, e)),
            None => None,
        }
    }
}

/// The byte offset of character position `i`.
pub open spec fn byte_offset(s: Seq<char>, i: int) -> nat {
    encode_utf8(s.take(i)).len()
}

/// The token for a word: a keyword or an identifier.
pub open spec fn word_token(w: Seq<char>) -> Tok {
    if w == "true"@ {
        Tok::True
    } else if w == "false"@ {
        Tok::False
    } else if w == "null"@ {
        Tok::Null
    } else {
        Tok::Ident(w)
    }
}

pub open spec fn err_at(what: Seq<char>, pos: nat) -> Seq<char> {
    "unexpected "@ + what + " at position "@ + decimal(pos)
}

/// `t` followed by the tokens of `r` (errors pass through).
pub open spec fn prepend(t: Tok, r: Result<Seq<Tok>, Seq<char>>) -> Result<Seq<Tok>, Seq<char>> {
    match r {
        Ok(ts) => Ok(seq![t] + ts),
        Err(e) => Err(e),
    }
}

pub proof fn lemma_ends(s: Seq<char>, i: int)
    requires
        0 <= i <= s.len(),
    ensures
        i <= ws_end(s, i) <= s.len(),
        forall|j: int| i <= j < ws_end(s, i) ==> is_ascii_ws(#[trigger] s[j]),
        ws_end(s, i) < s.len() ==> !is_ascii_ws(s[ws_end(s, i)]),
        i <= ident_end(s, i) <= s.len(),
        forall|j: int| i <= j < ident_end(s, i) ==> is_ident_char(#[trigger] s[j]),
        ident_end(s, i) < s.len() ==> !is_ident_char(s[ident_end(s, i)]),
        i <= number_end(s, i) <= s.len(),
        forall|j: int| i <= j < number_end(s, i) ==> (is_digit(#[trigger] s[j]) || s[j] == '.'),
        number_end(s, i) < s.len() ==> !(is_digit(s[number_end(s, i)]) || s[number_end(s, i)] == '.'),
    decreases s.len() - i,
{
    if i < s.len() {
        lemma_ends(s, i + 1);
    }
}

pub proof fn lemma_string_body(s: Seq<char>, i: int)
    requires
        0 <= i,
    ensures
        string_body(s, i) matches Some((b, e)) ==> i < e <= s.len(),
    decreases s.len() - i,
{
    if 0 <= i < s.len() {
        if s[i] == '\'' {
            if i + 1 < s.len() && s[i + 1] == '\'' {
                lemma_string_body(s, i + 2);
            }
        } else {
            lemma_string_body(s, i + 1);
        }
    }
}

/// The tokens of `s` from position `i` on, ending with `Eof`, or the error
/// message for the first bad token.
pub open spec fn lex(s: Seq<char>, i: int) -> Result<Seq<Tok>, Seq<char>>
    decreases s.len() - i, 1int,
{
    if i < 0 || i > s.len() {
        Err(Seq::empty())
    } else {
        proof {
            lemma_ends(s, i);
        }
        lex_at(s, ws_end(s, i))
    }
}

/// The tokens of `s` from the non-blank position `j` on.
pub open spec fn lex_at(s: Seq<char>, j: int) -> Result<Seq<Tok>, Seq<char>>
    decreases s.len() - j, 0int,
{
    if j < 0 || j >= s.len() {
        Ok(seq![Tok::Eof])
    } else {
        let c = s[j];
        let two = j + 1 < s.len() && s[j + 1] == '=';
        if c == '.' {
            prepend(Tok::Dot, lex(s, j + 1))
        } else if c == '(' {
            prepend(Tok::LParen, lex(s, j + 1))
        } else if c == ')' {
            prepend(Tok::RParen, lex(s, j + 1))
        } else if c == ',' {
            prepend(Tok::Comma, lex(s, j + 1))
        } else if c == '=' {
            if two {
                prepend(Tok::Eq, lex(s, j + 2))
            } else {
                Err(err_at("'='"@, byte_offset(s, j)))
            }
        } else if c == '!' {
            if two {
                prepend(Tok::Ne, lex(s, j + 2))
            } else {
                prepend(Tok::Not, lex(s, j + 1))
            }
        } else if c == '<' {
            if two {
                prepend(Tok::Le, lex(s, j + 2))
            } else {
                prepend(Tok::Lt, lex(s, j + 1))
            }
        } else if c == '>' {
            if two {
                prepend(Tok::Ge, lex(s, j + 2))
            } else {
                prepend(Tok::Gt, lex(s, j + 1))
            }
        } else if c == '&' {
            if j + 1 < s.len() && s[j + 1] == '&' {
                prepend(Tok::And, lex(s, j + 2))
            } else {
                Err(err_at("'&'"@, byte_offset(s, j)))
            }
        } else if c == '|' {
            if j + 1 < s.len() && s[j + 1] == '|' {
                prepend(Tok::Or, lex(s, j + 2))
            } else {
                Err(err_at("'|'"@, byte_offset(s, j)))
            }
        } else if c == '\'' {
            match string_body(s, j + 1) {
                Some((b, e)) => if j + 1 < e && e <= s.len() { prepend(Tok::Str(b), lex(s, e)) } else { Err(Seq::empty()) },
                None => Err("unterminated string literal"@),
            }
        } else if is_digit(c) {
            let e = number_end(s, j);
            let t = s.subrange(j, e);
            if j < e && e <= s.len() && count_dots(t) <= 1 {
                prepend(Tok::Num(t), lex(s, e))
            } else {
                Err("invalid number '"@ + t + "': invalid float literal"@)
            }
        } else if is_alpha(c) || c == '_' {
            let e = ident_end(s, j);
            if j < e && e <= s.len() {
                prepend(word_token(s.subrange(j, e)), lex(s, e))
            } else {
                Err(Seq::empty())
            }
        } else {
            Err(err_at("character '"@ + seq![c] + "'"@, byte_offset(s, j)))
        }
    }
}

/// The tokens of a whole expression.
pub open spec fn tokenize_spec(s: Seq<char>) -> Result<Seq<Tok>, Seq<char>> {
    lex(s, 0)
}

/// `acc` followed by the result `r`.
pub open spec fn after(acc: Seq<Tok>, r: Result<Seq<Tok>, Seq<char>>) -> Result<Seq<Tok>, Seq<char>> {
    match r {
        Ok(ts) => Ok(acc + ts),
        Err(e) => Err(e),
    }
}

proof fn lemma_after_prepend(acc: Seq<Tok>, t: Tok, r: Result<Seq<Tok>, Seq<char>>)
    ensures
        after(acc, prepend(t, r)) == after(acc.push(t), r),
{
    match r {
        Ok(ts) => {
            assert(acc + (seq![t] + ts) =~= acc.push(t) + ts);
        },
        Err(e) => {},
    }
}

pub proof fn lemma_encode_concat(a: Seq<char>, b: Seq<char>)
    ensures
        encode_utf8(a + b) == encode_utf8(a) + encode_utf8(b),
    decreases a.len(),
{
    if a.len() == 0 {
        assert(a + b =~= b);
        assert(encode_utf8(a) + encode_utf8(b) =~= encode_utf8(b));
    } else {
        assert((a + b).drop_first() =~= a.drop_first() + b);
        lemma_encode_concat(a.drop_first(), b);
        assert(encode_utf8(a + b) =~= encode_scalar(a[0] as u32) + (encode_utf8(a.drop_first()) + encode_utf8(b)));
    }
}

/// Number of bytes in the UTF-8 encoding of `c`.
pub fn utf8_width(c: char) -> (w: usize)
    ensures
        w == encode_scalar(c as u32).len(),
        1 <= w <= 4,
{
    proof {
        char_is_scalar(c);
    }
    let u = c as u32;
    if u < 0x80 {
        1
    } else if u < 0x800 {
        2
    } else if u < 0x10000 {
        3
    } else {
        4
    }
}

proof fn lemma_byte_offset_step(s: Seq<char>, i: int)
    requires
        0 <= i < s.len(),
    ensures
        byte_offset(s, i + 1) == byte_offset(s, i) + encode_scalar(s[i] as u32).len(),
{
    assert(s.take(i + 1) =~= s.take(i) + seq![s[i]]);
    lemma_encode_concat(s.take(i), seq![s[i]]);
    assert(seq![s[i]].drop_first() =~= Seq::<char>::empty());
    assert(encode_utf8(Seq::<char>::empty()) =~= Seq::<u8>::empty());
    assert(encode_utf8(seq![s[i]]) =~= encode_scalar(s[i] as u32));
}

proof fn lemma_byte_offset_mono(s: Seq<char>, i: int, j: int)
    requires
        0 <= i <= j <= s.len(),
    ensures
        byte_offset(s, i) <= byte_offset(s, j),
    decreases j - i,
{
    if i < j {
        lemma_byte_offset_mono(s, i, j - 1);
        lemma_byte_offset_step(s, j - 1);
    }
}

/// Tokenizer state: the input's characters, the current character position
/// and the matching byte offset.
pub struct Tokenizer {
    pub input: Vec<char>,
    pub pos: usize,
    pub byte_pos: usize,
}

impl Tokenizer {
    /// The state invariant: the byte position matches the character position.
    pub open spec fn wf(&self) -> bool {
        &&& self.pos <= self.input@.len()
        &&& self.byte_pos == byte_offset(self.input@, self.pos as int)
        &&& byte_offset(self.input@, self.input@.len() as int) <= usize::MAX
    }

    /// A tokenizer at the start of the characters `input`.
    pub fn new(input: Vec<char>) -> (t: Tokenizer)
        requires
            encode_utf8(input@).len() <= usize::MAX,
        ensures
            t.wf(),
            t.input@ == input@,
            t.pos == 0,
    {
        proof {
            assert(input@.take(0) =~= Seq::<char>::empty());
            assert(input@.take(input@.len() as int) =~= input@);
            assert(encode_utf8(Seq::<char>::empty()) =~= Seq::<u8>::empty());
        }
        Tokenizer { input, pos: 0, byte_pos: 0 }
    }

    /// Moves past one character.
    fn step(&mut self)
        requires
            old(self).wf(),
            old(self).pos < old(self).input@.len(),
        ensures
            final(self).wf(),
            final(self).input == old(self).input,
            final(self).pos == old(self).pos + 1,
    {
        proof {
            lemma_byte_offset_step(self.input@, self.pos as int);
            lemma_byte_offset_mono(self.input@, self.pos + 1, self.input@.len() as int);
        }
        let n = self.input.len();
        let p = self.pos;
        assert(p < n);
        let w = utf8_width(self.input[p]);
        self.byte_pos = self.byte_pos + w;
        self.pos = p + 1;
    }

    /// Skips ASCII whitespace.
    pub fn skip_whitespace(&mut self)
        requires
            old(self).wf(),
        ensures
            final(self).wf(),
            final(self).input == old(self).input,
            final(self).pos == ws_end(old(self).input@, old(self).pos as int),
    {
        let ghost start = self.pos as int;
        proof {
            lemma_ends(self.input@, start);
        }
        while self.pos < self.input.len() && is_ascii_ws_exec(self.input[self.pos])
            invariant
                self.wf(),
                self.input == old(self).input,
                start <= self.pos <= ws_end(self.input@, start),
                ws_end(self.input@, self.pos as int) == ws_end(self.input@, start),
            decreases self.input@.len() - self.pos,
        {
            proof {
                lemma_ends(self.input@, self.pos + 1);
            }
            self.step();
        }
    }

    /// The character after the current one, if any.
    pub fn peek_next_byte(&self) -> (r: Option<char>)
        requires
            self.wf(),
        ensures
            r == (if self.pos + 1 < self.input@.len() { Some(self.input@[self.pos + 1]) } else { None::<char> }),
    {
        if self.pos < self.input.len() && self.pos + 1 < self.input.len() {
            Some(self.input[self.pos + 1])
        } else {
            None
        }
    }

    /// Reads an identifier (ASCII letters, digits, `_` and `-`).
    pub fn read_ident(&mut self) -> (r: Vec<char>)
        requires
            old(self).wf(),
        ensures
            final(self).wf(),
            final(self).input == old(self).input,
            final(self).pos == ident_end(old(self).input@, old(self).pos as int),
            r@ == old(self).input@.subrange(old(self).pos as int, final(self).pos as int),
    {
        let start = self.pos;
        proof {
            lemma_ends(self.input@, start as int);
        }
        while self.pos < self.input.len() && is_ident_char_exec(self.input[self.pos])
            invariant
                self.wf(),
                self.input == old(self).input,
                start <= self.pos <= ident_end(self.input@, start as int),
                ident_end(self.input@, self.pos as int) == ident_end(self.input@, start as int),
            decreases self.input@.len() - self.pos,
        {
            proof {
                lemma_ends(self.input@, self.pos + 1);
            }
            self.step();
        }
        slice_range(&self.input, start, self.pos)
    }

    /// Reads digits and dots.
    fn read_number_text(&mut self) -> (r: Vec<char>)
        requires
            old(self).wf(),
        ensures
            final(self).wf(),
            final(self).input == old(self).input,
            final(self).pos == number_end(old(self).input@, old(self).pos as int),
            r@ == old(self).input@.subrange(old(self).pos as int, final(self).pos as int),
    {
        let start = self.pos;
        proof {
            lemma_ends(self.input@, start as int);
        }
        while self.pos < self.input.len() && (is_digit_exec(self.input[self.pos]) || self.input[self.pos] == '.')
            invariant
                self.wf(),
                self.input == old(self).input,
                start <= self.pos <= number_end(self.input@, start as int),
                number_end(self.input@, self.pos as int) == number_end(self.input@, start as int),
            decreases self.input@.len() - self.pos,
        {
            proof {
                lemma_ends(self.input@, self.pos + 1);
            }
            self.step();
        }
        slice_range(&self.input, start, self.pos)
    }

    /// Reads the body of a quoted string; the current position is just after
    /// the opening quote.
    fn read_string_body(&mut self) -> (r: Option<Vec<char>>)
        requires
            old(self).wf(),
        ensures
            final(self).wf(),
            final(self).input == old(self).input,
            match string_body(old(self).input@, old(self).pos as int) {
                Some((b, e)) => r matches Some(v) && v@ == b && final(self).pos == e,
                None => r is None,
            },
    {
        let ghost s = self.input@;
        let ghost start = self.pos as int;
        let mut body: Vec<char> = Vec::new();
        while self.pos < self.input.len()
            invariant
                self.wf(),
                self.input == old(self).input,
                s == self.input@,
                s == old(self).input@,
                start == old(self).pos as int,
                start <= self.pos,
                string_body(s, start) == (match string_body(s, self.pos as int) {
                    Some((b, e)) => Some((body@ + b, e)),
                    None => None::<(Seq<char>, int)>,
                }),
            decreases self.input@.len() - self.pos,
        {
            let c = self.input[self.pos];
            if c == '\'' {
                if self.pos + 1 < self.input.len() && self.input[self.pos + 1] == '\'' {
                    proof {
                        match string_body(s, self.pos + 2) {
                            Some((b, e)) => {
                                assert(body@ + (seq!['\''] + b) =~= body@.push('\'') + b);
                            },
                            None => {},
                        }
                    }
                    body.push('\'');
                    self.step();
                    self.step();
                } else {
                    proof {
                        assert(string_body(s, self.pos as int) == Some((Seq::<char>::empty(), self.pos + 1)));
                        assert(body@ + Seq::<char>::empty() =~= body@);
                    }
                    let ghost p0 = self.pos as int;
                    self.step();
                    proof {
                        assert(string_body(s, p0) == Some((Seq::<char>::empty(), p0 + 1)));
                        assert(string_body(s, start) == Some((body@ + Seq::<char>::empty(), p0 + 1)));
                        assert(string_body(s, start) == Some((body@, self.pos as int)));
                    }
                    return Some(body);
                }
            } else {
                proof {
                    match string_body(s, self.pos + 1) {
                        Some((b, e)) => {
                            assert(body@ + (seq![c] + b) =~= body@.push(c) + b);
                        },
                        None => {},
                    }
                }
                body.push(c);
                self.step();
            }
        }
        None
    }
}

pub fn is_ascii_ws_exec(c: char) -> (r: bool)
    ensures
        r == is_ascii_ws(c),
{
    c == ' ' || c == '\t' || c == '\n' || c == '\x0C' || c == '\r'
}

pub fn is_digit_exec(c: char) -> (r: bool)
    ensures
        r == is_digit(c),
{
    '0' <= c && c <= '9'
}

pub fn is_alpha_exec(c: char) -> (r: bool)
    ensures
        r == is_alpha(c),
{
    ('a' <= c && c <= 'z') || ('A' <= c && c <= 'Z')
}

pub fn is_ident_char_exec(c: char) -> (r: bool)
    ensures
        r == is_ident_char(c),
{
    is_digit_exec(c) || is_alpha_exec(c) || c == '_' || c == '-'
}

fn count_dots_exec(t: &Vec<char>) -> (n: usize)
    ensures
        n == count_dots(t@),
{
    let mut n: usize = 0;
    let mut i: usize = 0;
    while i < t.len()
        invariant
            i <= t@.len(),
            n == count_dots(t@.take(i as int)),
            n <= i,
        decreases t.len() - i,
    {
        assert(t@.take(i + 1).drop_last() =~= t@.take(i as int));
        if t[i] == '.' {
            n = n + 1;
        }
        i = i + 1;
    }
    assert(t@.take(t@.len() as int) =~= t@);
    n
}

fn error_at(what: &str, pos: usize) -> (r: String)
    ensures
        r@ == err_at(what@, pos as nat),
{
    let mut r = owned("unexpected ");
    push_str(&mut r, what);
    push_str(&mut r, " at position ");
    let d = decimal_chars(pos as u64);
    push_all(&mut r, &d);
    r
}

fn word_token_exec(w: Vec<char>) -> (t: Token)
    ensures
        t@ == word_token(w@),
{
    let s = string_of(&w);
    if crate::text::str_eq(s.as_str(), "true") {
        Token::True
    } else if crate::text::str_eq(s.as_str(), "false") {
        Token::False
    } else if crate::text::str_eq(s.as_str(), "null") {
        Token::Null
    } else {
        Token::Ident(s)
    }
}

/// Splits an expression into tokens, ending with `Eof`.
pub fn tokenize(input: Vec<char>) -> (r: Result<Vec<Token>, String>)
    requires
        encode_utf8(input@).len() <= usize::MAX,
    ensures
        match r {
            Ok(ts) => tokenize_spec(input@) == Ok::<Seq<Tok>, Seq<char>>(toks(ts@)),
            Err(e) => tokenize_spec(input@) == Err::<Seq<Tok>, Seq<char>>(e@),
        },
{
    let ghost input_v = input@;
    let mut tk = Tokenizer::new(input);
    let ghost s = tk.input@;
    let mut tokens: Vec<Token> = Vec::new();
    loop
        invariant
            tk.wf(),
            tk.input@ == s,
            s == input_v,
            input_v == input@,
            lex(s, 0) == after(toks(tokens@), lex(s, tk.pos as int)),
        decreases s.len() - tk.pos,
    {
        let ghost i = tk.pos as int;
        tk.skip_whitespace();
        let ghost j = tk.pos as int;
        proof {
            lemma_ends(s, i);
            assert(lex(s, i) == lex_at(s, j));
        }
        if tk.pos >= tk.input.len() {
            let ghost before = toks(tokens@);
            tokens.push(Token::Eof);
            proof {
                assert(toks(tokens@) =~= before + seq![Tok::Eof]);
            }
            return Ok(tokens);
        }
        let c = tk.input[tk.pos];
        let next = tk.peek_next_byte();
        let ghost before = toks(tokens@);
        if c == '.' || c == '(' || c == ')' || c == ',' {
            let t = if c == '.' { Token::Dot } else if c == '(' { Token::LParen } else if c == ')' { Token::RParen } else { Token::Comma };
            proof { lemma_after_prepend(before, t@, lex(s, j + 1)); }
            tokens.push(t);
            tk.step();
            assert(toks(tokens@) =~= before.push(t@));
        } else if c == '=' || c == '&' || c == '|' {
            let want = if c == '=' { '=' } else { c };
            if next == Some(want) {
                let t = if c == '=' { Token::Eq } else if c == '&' { Token::And } else { Token::Or };
                proof { lemma_after_prepend(before, t@, lex(s, j + 2)); }
                tokens.push(t);
                tk.step();
                tk.step();
                assert(toks(tokens@) =~= before.push(t@));
            } else {
                let what = if c == '=' { "'='" } else if c == '&' { "'&'" } else { "'|'" };
                return Err(error_at(what, tk.byte_pos));
            }
        } else if c == '!' || c == '<' || c == '>' {
            if next == Some('=') {
                let t = if c == '!' { Token::Ne } else if c == '<' { Token::Le } else { Token::Ge };
                proof { lemma_after_prepend(before, t@, lex(s, j + 2)); }
                tokens.push(t);
                tk.step();
                tk.step();
                assert(toks(tokens@) =~= before.push(t@));
            } else {
                let t = if c == '!' { Token::Not } else if c == '<' { Token::Lt } else { Token::Gt };
                proof { lemma_after_prepend(before, t@, lex(s, j + 1)); }
                tokens.push(t);
                tk.step();
                assert(toks(tokens@) =~= before.push(t@));
            }
        } else if c == '\'' {
            tk.step();
            proof { lemma_string_body(s, j + 1); }
            match tk.read_string_body() {
                Some(body) => {
                    let t = Token::StringLit(string_of(&body));
                    proof { lemma_after_prepend(before, t@, lex(s, tk.pos as int)); }
                    tokens.push(t);
                    assert(toks(tokens@) =~= before.push(t@));
                },
                None => {
                    return Err(owned("unterminated string literal"));
                },
            }
        } else if is_digit_exec(c) {
            proof { lemma_ends(s, j); }
            let text = tk.read_number_text();
            if count_dots_exec(&text) <= 1 {
                let t = Token::NumberLit(string_of(&text));
                proof { lemma_after_prepend(before, t@, lex(s, tk.pos as int)); }
                tokens.push(t);
                assert(toks(tokens@) =~= before.push(t@));
            } else {
                let mut m = owned("invalid number '");
                push_all(&mut m, &text);
                push_str(&mut m, "': invalid float literal");
                return Err(m);
            }
        } else if is_alpha_exec(c) || c == '_' {
            proof { lemma_ends(s, j); }
            let w = tk.read_ident();
            let t = word_token_exec(w);
            proof { lemma_after_prepend(before, t@, lex(s, tk.pos as int)); }
            tokens.push(t);
            assert(toks(tokens@) =~= before.push(t@));
        } else {
            let mut what = owned("character '");
            push_char(&mut what, c);
            push_str(&mut what, "'");
            assert(what@ =~= "character '"@ + seq![c] + "'"@);
            return Err(error_at(what.as_str(), tk.byte_pos));
        }
    }
}

} // verus!
