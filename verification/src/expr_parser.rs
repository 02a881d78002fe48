//! Parser for the expression language: tokens to a syntax tree.
//!
//! Grammar (lowest precedence first):
//!   expr       = or
//!   or         = and ( '||' and )*
//!   and        = comparison ( '&&' comparison )*
//!   comparison = unary ( ('==' | '!=' | '<' | '<=' | '>' | '>=') unary )?
//!   unary      = '!' unary | primary
//!   primary    = literal | '(' expr ')' | ident '(' args ')' | ident ('.' ident)*
//! Built-in functions are checked for their number of arguments as soon as
//! their argument list closes.
use vstd::prelude::*;
use crate::expr_lexer::{Token, Tok, toks};
use crate::text::{owned, str_eq};

verus! {

/// Comparison operators.
#[derive(PartialEq, Eq, Structural, Clone, Copy)]
pub enum CompareOp {
    Eq,
    Ne,
    Lt,
    Le,
    Gt,
    Ge,
}

/// A syntax tree of the expression language.
pub enum Expr {
    /// A string literal.
    Str(String),
    /// A number literal, as written.
    Num(String),
    Bool(bool),
    Null,
    /// A context reference such as `steps.build.outputs.version`.
    Ref(Vec<String>),
    /// A function call with its arguments.
    Call(String, Box<ExprArgs>),
    Not(Box<Expr>),
    Compare(CompareOp, Box<Expr>, Box<Expr>),
    And(Box<Expr>, Box<Expr>),
    Or(Box<Expr>, Box<Expr>),
}

/// The argument list of a call.
pub enum ExprArgs {
    Nil,
    Cons(Box<Expr>, Box<ExprArgs>),
}

/// Abstract syntax tree.
pub enum ExprS {
    Str(Seq<char>),
    Num(Seq<char>),
    Bool(bool),
    Null,
    Ref(Seq<Seq<char>>),
    Call(Seq<char>, Box<ArgsS>),
    Not(Box<ExprS>),
    Compare(CompareOp, Box<ExprS>, Box<ExprS>),
    And(Box<ExprS>, Box<ExprS>),
    Or(Box<ExprS>, Box<ExprS>),
}

/// Abstract argument list.
pub enum ArgsS {
    Nil,
    Cons(Box<ExprS>, Box<ArgsS>),
}

impl ArgsS {
    pub open spec fn len(self) -> nat
        decreases self,
    {
        match self {
            ArgsS::Nil => 0,
            ArgsS::Cons(_, rest) => 1 + rest.len(),
        }
    }

    /// The list with `e` added at the end.
    pub open spec fn snoc(self, e: ExprS) -> ArgsS
        decreases self,
    {
        match self {
            ArgsS::Nil => ArgsS::Cons(Box::new(e), Box::new(ArgsS::Nil)),
            ArgsS::Cons(h, rest) => ArgsS::Cons(h, Box::new(rest.snoc(e))),
        }
    }
}

pub proof fn lemma_snoc_len(a: ArgsS, e: ExprS)
    ensures
        a.snoc(e).len() == a.len() + 1,
    decreases a,
{
    match a {
        ArgsS::Nil => {},
        ArgsS::Cons(h, rest) => lemma_snoc_len(*rest, e),
    }
}

impl Expr {
    pub open spec fn view(&self) -> ExprS
        decreases self,
    {
        match self {
            Expr::Str(s) => ExprS::Str(s@),
            Expr::Num(s) => ExprS::Num(s@),
            Expr::Bool(b) => ExprS::Bool(*b),
            Expr::Null => ExprS::Null,
            Expr::Ref(parts) => ExprS::Ref(crate::text::views(parts@)),
            Expr::Call(n, args) => ExprS::Call(n@, Box::new(args.view())),
            Expr::Not(e) => ExprS::Not(Box::new(e.view())),
            Expr::Compare(op, l, r) => ExprS::Compare(*op, Box::new(l.view()), Box::new(r.view())),
            Expr::And(l, r) => ExprS::And(Box::new(l.view()), Box::new(r.view())),
            Expr::Or(l, r) => ExprS::Or(Box::new(l.view()), Box::new(r.view())),
        }
    }
}

impl ExprArgs {
    pub open spec fn view(&self) -> ArgsS
        decreases self,
    {
        match self {
            ExprArgs::Nil => ArgsS::Nil,
            ExprArgs::Cons(h, rest) => ArgsS::Cons(Box::new(h.view()), Box::new(rest.view())),
        }
    }

    /// The list with `e` added at the end.
    pub fn push_back(self, e: Expr) -> (r: ExprArgs)
        ensures
            r.view() == self.view().snoc(e.view()),
        decreases self,
    {
        match self {
            ExprArgs::Nil => ExprArgs::Cons(Box::new(e), Box::new(ExprArgs::Nil)),
            ExprArgs::Cons(h, rest) => ExprArgs::Cons(h, Box::new((*rest).push_back(e))),
        }
    }
}

/// Why a token sequence does not parse.
pub enum ParseError {
    /// A token that cannot start an operand.
    UnexpectedToken(Token),
    /// A `(` without its `)`; holds the token found instead.
    ExpectedRParen(Token),
    /// A `.` not followed by an identifier; holds the token found instead.
    ExpectedIdentAfterDot(Token),
    /// A complete expression followed by more tokens.
    TrailingToken(Token),
    /// A built-in function called with the wrong number of arguments.
    Arity(String),
}

/// Abstract parse error.
pub enum PErr {
    Unexpected(Tok),
    ExpectedRParen(Tok),
    ExpectedIdentAfterDot(Tok),
    Trailing(Tok),
    Arity(Seq<char>),
    Internal,
}

impl View for ParseError {
    type V = PErr;

    open spec fn view(&self) -> PErr {
        match self {
            ParseError::UnexpectedToken(t) => PErr::Unexpected(t@),
            ParseError::ExpectedRParen(t) => PErr::ExpectedRParen(t@),
            ParseError::ExpectedIdentAfterDot(t) => PErr::ExpectedIdentAfterDot(t@),
            ParseError::TrailingToken(t) => PErr::Trailing(t@),
            ParseError::Arity(s) => PErr::Arity(s@),
        }
    }
}

/// The token at `p`, or `Eof` past the end.
pub open spec fn tok_at(ts: Seq<Tok>, p: int) -> Tok {
    if 0 <= p < ts.len() {
        ts[p]
    } else {
        Tok::Eof
    }
}

/// The arity error of calling built-in `name` with `n` arguments, if any.
pub open spec fn arity_error(name: Seq<char>, n: nat) -> Option<Seq<char>> {
    if name == "contains"@ {
        if n != 2 { Some("contains() requires 2 arguments"@) } else { None }
    } else if name == "startsWith"@ || name == "startswith"@ {
        if n != 2 { Some("startsWith() requires 2 arguments"@) } else { None }
    } else if name == "endsWith"@ || name == "endswith"@ {
        if n != 2 { Some("endsWith() requires 2 arguments"@) } else { None }
    } else if name == "format"@ {
        if n == 0 { Some("format() requires at least 1 argument"@) } else { None }
    } else if name == "join"@ {
        if n == 0 || n > 2 { Some("join() requires 1 or 2 arguments"@) } else { None }
    } else if name == "toJSON"@ || name == "tojson"@ {
        if n != 1 { Some("toJSON() requires 1 argument"@) } else { None }
    } else if name == "fromJSON"@ || name == "fromjson"@ {
        if n != 1 { Some("fromJSON() requires 1 argument"@) } else { None }
    } else {
        None
    }
}

pub type PRes = Result<(ExprS, int), PErr>;

pub open spec fn comparison_op_of(t: Tok) -> Option<CompareOp> {
    match t {
        Tok::Eq => Some(CompareOp::Eq),
        Tok::Ne => Some(CompareOp::Ne),
        Tok::Lt => Some(CompareOp::Lt),
        Tok::Le => Some(CompareOp::Le),
        Tok::Gt => Some(CompareOp::Gt),
        Tok::Ge => Some(CompareOp::Ge),
        _ => None,
    }
}

/// `expr` at position `p`: the tree and the position after it.
pub open spec fn p_expr(ts: Seq<Tok>, p: int) -> PRes
    decreases ts.len() - p, 9int,
{
    p_or(ts, p)
}

pub open spec fn p_or(ts: Seq<Tok>, p: int) -> PRes
    decreases ts.len() - p, 8int,
{
    match p_and(ts, p) {
        Ok((l, q)) => if p < q && q <= ts.len() { p_or_rest(ts, q, l) } else { Err(PErr::Internal) },
        Err(e) => Err(e),
    }
}

pub open spec fn p_or_rest(ts: Seq<Tok>, q: int, l: ExprS) -> PRes
    decreases ts.len() - q, 7int,
{
    if q < ts.len() && tok_at(ts, q) == Tok::Or {
        match p_and(ts, q + 1) {
            Ok((r, q2)) => if q < q2 && q2 <= ts.len() { p_or_rest(ts, q2, ExprS::Or(Box::new(l), Box::new(r))) } else { Err(PErr::Internal) },
            Err(e) => Err(e),
        }
    } else {
        Ok((l, q))
    }
}

pub open spec fn p_and(ts: Seq<Tok>, p: int) -> PRes
    decreases ts.len() - p, 6int,
{
    match p_comparison(ts, p) {
        Ok((l, q)) => if p < q && q <= ts.len() { p_and_rest(ts, q, l) } else { Err(PErr::Internal) },
        Err(e) => Err(e),
    }
}

pub open spec fn p_and_rest(ts: Seq<Tok>, q: int, l: ExprS) -> PRes
    decreases ts.len() - q, 5int,
{
    if q < ts.len() && tok_at(ts, q) == Tok::And {
        match p_comparison(ts, q + 1) {
            Ok((r, q2)) => if q < q2 && q2 <= ts.len() { p_and_rest(ts, q2, ExprS::And(Box::new(l), Box::new(r))) } else { Err(PErr::Internal) },
            Err(e) => Err(e),
        }
    } else {
        Ok((l, q))
    }
}

pub open spec fn p_comparison(ts: Seq<Tok>, p: int) -> PRes
    decreases ts.len() - p, 4int,
{
    match p_unary(ts, p) {
        Ok((l, q)) => match comparison_op_of(tok_at(ts, q)) {
            Some(op) => if p < q && q < ts.len() {
                match p_unary(ts, q + 1) {
                    Ok((r, q2)) => Ok((ExprS::Compare(op, Box::new(l), Box::new(r)), q2)),
                    Err(e) => Err(e),
                }
            } else {
                Err(PErr::Internal)
            },
            None => Ok((l, q)),
        },
        Err(e) => Err(e),
    }
}

pub open spec fn p_unary(ts: Seq<Tok>, p: int) -> PRes
    decreases ts.len() - p, 3int,
{
    if 0 <= p < ts.len() && tok_at(ts, p) == Tok::Not {
        match p_unary(ts, p + 1) {
            Ok((e, q)) => Ok((ExprS::Not(Box::new(e)), q)),
            Err(e) => Err(e),
        }
    } else {
        p_primary(ts, p)
    }
}

pub open spec fn p_primary(ts: Seq<Tok>, p: int) -> PRes
    decreases ts.len() - p, 2int,
{
    if p < 0 || p >= ts.len() {
        Err(PErr::Unexpected(Tok::Eof))
    } else {
        match ts[p] {
            Tok::Str(s) => Ok((ExprS::Str(s), p + 1)),
            Tok::Num(n) => Ok((ExprS::Num(n), p + 1)),
            Tok::True => Ok((ExprS::Bool(true), p + 1)),
            Tok::False => Ok((ExprS::Bool(false), p + 1)),
            Tok::Null => Ok((ExprS::Null, p + 1)),
            Tok::LParen => match p_expr(ts, p + 1) {
                Ok((e, q)) => if tok_at(ts, q) == Tok::RParen {
                    Ok((e, q + 1))
                } else {
                    Err(PErr::ExpectedRParen(tok_at(ts, q)))
                },
                Err(e) => Err(e),
            },
            Tok::Ident(name) => p_ident(ts, p, name),
            Tok::Not => match p_unary(ts, p + 1) {
                Ok((e, q)) => Ok((ExprS::Not(Box::new(e)), q)),
                Err(e) => Err(e),
            },
            other => Err(PErr::Unexpected(other)),
        }
    }
}

/// An identifier at `p`: a call when `(` follows, otherwise a dotted reference.
pub open spec fn p_ident(ts: Seq<Tok>, p: int, name: Seq<char>) -> PRes
    decreases ts.len() - p, 1int,
{
    if 0 <= p && p + 1 < ts.len() && tok_at(ts, p + 1) == Tok::LParen {
        if tok_at(ts, p + 2) == Tok::RParen {
            p_call_end(ts, p + 2, name, ArgsS::Nil)
        } else {
            match p_expr(ts, p + 2) {
                Ok((a, q)) => if p + 2 < q && q <= ts.len() { p_args_rest(ts, q, name, ArgsS::Nil.snoc(a)) } else { Err(PErr::Internal) },
                Err(e) => Err(e),
            }
        }
    } else if 0 <= p {
        p_dots(ts, p + 1, seq![name])
    } else {
        Err(PErr::Internal)
    }
}

/// More arguments after a comma, or the closing `)`.
pub open spec fn p_args_rest(ts: Seq<Tok>, q: int, name: Seq<char>, args: ArgsS) -> PRes
    decreases ts.len() - q, 0int,
{
    if 0 <= q < ts.len() && tok_at(ts, q) == Tok::Comma {
        match p_expr(ts, q + 1) {
            Ok((a, q2)) => if q < q2 && q2 <= ts.len() { p_args_rest(ts, q2, name, args.snoc(a)) } else { Err(PErr::Internal) },
            Err(e) => Err(e),
        }
    } else {
        p_call_end(ts, q, name, args)
    }
}

/// The closing `)` of a call at `q`, then the arity check.
pub open spec fn p_call_end(ts: Seq<Tok>, q: int, name: Seq<char>, args: ArgsS) -> PRes {
    if tok_at(ts, q) == Tok::RParen {
        match arity_error(name, args.len()) {
            Some(m) => Err(PErr::Arity(m)),
            None => Ok((ExprS::Call(name, Box::new(args)), q + 1)),
        }
    } else {
        Err(PErr::ExpectedRParen(tok_at(ts, q)))
    }
}

/// `.ident` segments of a reference, starting at `q`.
pub open spec fn p_dots(ts: Seq<Tok>, q: int, parts: Seq<Seq<char>>) -> PRes
    decreases ts.len() - q,
{
    if 0 <= q < ts.len() && tok_at(ts, q) == Tok::Dot {
        match tok_at(ts, q + 1) {
            Tok::Ident(part) => p_dots(ts, q + 2, parts.push(part)),
            other => Err(PErr::ExpectedIdentAfterDot(other)),
        }
    } else {
        Ok((ExprS::Ref(parts), q))
    }
}

/// A whole token sequence: one expression, then `Eof`.
pub open spec fn parse_spec(ts: Seq<Tok>) -> Result<ExprS, PErr> {
    match p_expr(ts, 0) {
        Ok((e, q)) => if tok_at(ts, q) == Tok::Eof { Ok(e) } else { Err(PErr::Trailing(tok_at(ts, q))) },
        Err(e) => Err(e),
    }
}

/// Successful parses consume at least one token.
pub proof fn lemma_progress(ts: Seq<Tok>, p: int)
    requires
        0 <= p,
    ensures
        p_expr(ts, p) matches Ok((_, q)) ==> p < q,
        p_or(ts, p) matches Ok((_, q)) ==> p < q,
        p_and(ts, p) matches Ok((_, q)) ==> p < q,
        p_comparison(ts, p) matches Ok((_, q)) ==> p < q,
        p_unary(ts, p) matches Ok((_, q)) ==> p < q,
        p_primary(ts, p) matches Ok((_, q)) ==> p < q,
    decreases ts.len() - p, 2int,
{
    lemma_progress_unary(ts, p);
    match p_unary(ts, p) {
        Ok((l, q)) => {
            if comparison_op_of(tok_at(ts, q)) is Some && p < q && q < ts.len() {
                lemma_progress_unary(ts, q + 1);
            }
        },
        Err(_) => {},
    }
    match p_comparison(ts, p) {
        Ok((l, q)) => if q <= ts.len() { lemma_rest_mono_and(ts, q, l) },
        Err(_) => {},
    }
    match p_and(ts, p) {
        Ok((l, q)) => if q <= ts.len() { lemma_rest_mono_or(ts, q, l) },
        Err(_) => {},
    }
}

proof fn lemma_progress_unary(ts: Seq<Tok>, p: int)
    requires
        0 <= p,
    ensures
        p_unary(ts, p) matches Ok((_, q)) ==> p < q,
        p_primary(ts, p) matches Ok((_, q)) ==> p < q,
    decreases ts.len() - p, 1int,
{
    if p < ts.len() {
        lemma_progress_unary(ts, p + 1);
        if ts[p] is Ident {
            lemma_progress_ident(ts, p, ts[p]->Ident_0);
        }
        if ts[p] is LParen {
            lemma_progress(ts, p + 1);
        }
    }
}

proof fn lemma_progress_ident(ts: Seq<Tok>, p: int, name: Seq<char>)
    requires
        0 <= p < ts.len(),
    ensures
        p_ident(ts, p, name) matches Ok((_, q)) ==> p < q,
    decreases ts.len() - p, 0int,
{
    if p + 1 < ts.len() && tok_at(ts, p + 1) == Tok::LParen {
        if tok_at(ts, p + 2) != Tok::RParen {
            match p_expr(ts, p + 2) {
                Ok((a, q)) => {
                    if p + 2 < q && q <= ts.len() {
                        lemma_progress_args(ts, q, name, ArgsS::Nil.snoc(a));
                    }
                },
                Err(e) => {},
            }
        }
    } else {
        lemma_progress_dots(ts, p + 1, seq![name]);
    }
}

proof fn lemma_progress_args(ts: Seq<Tok>, q: int, name: Seq<char>, args: ArgsS)
    requires
        0 <= q <= ts.len(),
    ensures
        p_args_rest(ts, q, name, args) matches Ok((_, r)) ==> q < r,
    decreases ts.len() - q,
{
    if 0 <= q < ts.len() && tok_at(ts, q) == Tok::Comma {
        match p_expr(ts, q + 1) {
            Ok((a, q2)) => {
                if q < q2 && q2 <= ts.len() {
                    lemma_progress_args(ts, q2, name, args.snoc(a));
                }
            },
            Err(e) => {},
        }
    }
}

proof fn lemma_progress_dots(ts: Seq<Tok>, q: int, parts: Seq<Seq<char>>)
    requires
        0 <= q,
    ensures
        p_dots(ts, q, parts) matches Ok((_, r)) ==> q <= r,
    decreases ts.len() - q,
{
    if 0 <= q < ts.len() && tok_at(ts, q) == Tok::Dot {
        if tok_at(ts, q + 1) is Ident {
            lemma_progress_dots(ts, q + 2, parts.push(tok_at(ts, q + 1)->Ident_0));
        }
    }
}

proof fn lemma_rest_mono_and(ts: Seq<Tok>, q: int, l: ExprS)
    requires
        q <= ts.len(),
    ensures
        p_and_rest(ts, q, l) matches Ok((_, r)) ==> q <= r,
    decreases ts.len() - q,
{
    if q < ts.len() && tok_at(ts, q) == Tok::And {
        match p_comparison(ts, q + 1) {
            Ok((r, q2)) => if q < q2 && q2 <= ts.len() { lemma_rest_mono_and(ts, q2, ExprS::And(Box::new(l), Box::new(r))) },
            Err(_) => {},
        }
    }
}

proof fn lemma_rest_mono_or(ts: Seq<Tok>, q: int, l: ExprS)
    requires
        q <= ts.len(),
    ensures
        p_or_rest(ts, q, l) matches Ok((_, r)) ==> q <= r,
    decreases ts.len() - q,
{
    if q < ts.len() && tok_at(ts, q) == Tok::Or {
        match p_and(ts, q + 1) {
            Ok((r, q2)) => if q < q2 && q2 <= ts.len() { lemma_rest_mono_or(ts, q2, ExprS::Or(Box::new(l), Box::new(r))) },
            Err(_) => {},
        }
    }
}


/// The abstract form of a parse result.
pub open spec fn pres(r: Result<(Expr, usize), ParseError>) -> PRes {
    match r {
        Ok((e, q)) => Ok((e.view(), q as int)),
        Err(e) => Err(e@),
    }
}

impl ExprArgs {
    /// Number of arguments.
    pub fn count(&self) -> (n: usize)
        requires
            self.view().len() <= usize::MAX,
        ensures
            n == self.view().len(),
        decreases self,
    {
        match self {
            ExprArgs::Nil => 0,
            ExprArgs::Cons(_, rest) => 1 + rest.count(),
        }
    }
}

/// A copy of the token at `p`, or `Eof` past the end.
fn token_at(ts: &Vec<Token>, p: usize) -> (t: Token)
    ensures
        t@ == tok_at(toks(ts@), p as int),
{
    if p < ts.len() {
        ts[p].copy()
    } else {
        Token::Eof
    }
}

fn comparison_op_exec(t: &Token) -> (r: Option<CompareOp>)
    ensures
        r == comparison_op_of(t@),
{
    match t {
        Token::Eq => Some(CompareOp::Eq),
        Token::Ne => Some(CompareOp::Ne),
        Token::Lt => Some(CompareOp::Lt),
        Token::Le => Some(CompareOp::Le),
        Token::Gt => Some(CompareOp::Gt),
        Token::Ge => Some(CompareOp::Ge),
        _ => None,
    }
}

/// The arity error for calling built-in `name` with `n` arguments.
pub fn arity_error_exec(name: &str, n: usize) -> (r: Option<String>)
    ensures
        match r {
            Some(m) => arity_error(name@, n as nat) == Some(m@),
            None => arity_error(name@, n as nat) is None,
        },
{
    if str_eq(name, "contains") {
        if n != 2 { Some(owned("contains() requires 2 arguments")) } else { None }
    } else if str_eq(name, "startsWith") || str_eq(name, "startswith") {
        if n != 2 { Some(owned("startsWith() requires 2 arguments")) } else { None }
    } else if str_eq(name, "endsWith") || str_eq(name, "endswith") {
        if n != 2 { Some(owned("endsWith() requires 2 arguments")) } else { None }
    } else if str_eq(name, "format") {
        if n == 0 { Some(owned("format() requires at least 1 argument")) } else { None }
    } else if str_eq(name, "join") {
        if n == 0 || n > 2 { Some(owned("join() requires 1 or 2 arguments")) } else { None }
    } else if str_eq(name, "toJSON") || str_eq(name, "tojson") {
        if n != 1 { Some(owned("toJSON() requires 1 argument")) } else { None }
    } else if str_eq(name, "fromJSON") || str_eq(name, "fromjson") {
        if n != 1 { Some(owned("fromJSON() requires 1 argument")) } else { None }
    } else {
        None
    }
}

fn parse_expr(ts: &Vec<Token>, p: usize) -> (r: Result<(Expr, usize), ParseError>)
    requires
        p <= ts@.len(),
    ensures
        pres(r) == p_expr(toks(ts@), p as int),
        r matches Ok((_, q)) ==> p < q <= ts@.len(),
    decreases ts@.len() - p, 9int,
{
    parse_or(ts, p)
}

fn parse_or(ts: &Vec<Token>, p: usize) -> (r: Result<(Expr, usize), ParseError>)
    requires
        p <= ts@.len(),
    ensures
        pres(r) == p_or(toks(ts@), p as int),
        r matches Ok((_, q)) ==> p < q <= ts@.len(),
    decreases ts@.len() - p, 8int,
{
    match parse_and(ts, p) {
        Ok((l, q)) => parse_or_rest(ts, q, l),
        Err(e) => Err(e),
    }
}

fn parse_or_rest(ts: &Vec<Token>, q: usize, l: Expr) -> (r: Result<(Expr, usize), ParseError>)
    requires
        q <= ts@.len(),
    ensures
        pres(r) == p_or_rest(toks(ts@), q as int, l.view()),
        r matches Ok((_, q2)) ==> q <= q2 <= ts@.len(),
    decreases ts@.len() - q, 7int,
{
    if q < ts.len() && matches!(ts[q], Token::Or) {
        match parse_and(ts, q + 1) {
            Ok((rhs, q2)) => parse_or_rest(ts, q2, Expr::Or(Box::new(l), Box::new(rhs))),
            Err(e) => Err(e),
        }
    } else {
        Ok((l, q))
    }
}

fn parse_and(ts: &Vec<Token>, p: usize) -> (r: Result<(Expr, usize), ParseError>)
    requires
        p <= ts@.len(),
    ensures
        pres(r) == p_and(toks(ts@), p as int),
        r matches Ok((_, q)) ==> p < q <= ts@.len(),
    decreases ts@.len() - p, 6int,
{
    match parse_comparison(ts, p) {
        Ok((l, q)) => parse_and_rest(ts, q, l),
        Err(e) => Err(e),
    }
}

fn parse_and_rest(ts: &Vec<Token>, q: usize, l: Expr) -> (r: Result<(Expr, usize), ParseError>)
    requires
        q <= ts@.len(),
    ensures
        pres(r) == p_and_rest(toks(ts@), q as int, l.view()),
        r matches Ok((_, q2)) ==> q <= q2 <= ts@.len(),
    decreases ts@.len() - q, 5int,
{
    if q < ts.len() && matches!(ts[q], Token::And) {
        match parse_comparison(ts, q + 1) {
            Ok((rhs, q2)) => parse_and_rest(ts, q2, Expr::And(Box::new(l), Box::new(rhs))),
            Err(e) => Err(e),
        }
    } else {
        Ok((l, q))
    }
}

fn parse_comparison(ts: &Vec<Token>, p: usize) -> (r: Result<(Expr, usize), ParseError>)
    requires
        p <= ts@.len(),
    ensures
        pres(r) == p_comparison(toks(ts@), p as int),
        r matches Ok((_, q)) ==> p < q <= ts@.len(),
    decreases ts@.len() - p, 4int,
{
    match parse_unary(ts, p) {
        Ok((l, q)) => {
            let op = if q < ts.len() { comparison_op_exec(&ts[q]) } else { None };
            match op {
                Some(op) => match parse_unary(ts, q + 1) {
                    Ok((rhs, q2)) => Ok((Expr::Compare(op, Box::new(l), Box::new(rhs)), q2)),
                    Err(e) => Err(e),
                },
                None => Ok((l, q)),
            }
        },
        Err(e) => Err(e),
    }
}

fn parse_unary(ts: &Vec<Token>, p: usize) -> (r: Result<(Expr, usize), ParseError>)
    requires
        p <= ts@.len(),
    ensures
        pres(r) == p_unary(toks(ts@), p as int),
        r matches Ok((_, q)) ==> p < q <= ts@.len(),
    decreases ts@.len() - p, 3int,
{
    if p < ts.len() && matches!(ts[p], Token::Not) {
        match parse_unary(ts, p + 1) {
            Ok((e, q)) => Ok((Expr::Not(Box::new(e)), q)),
            Err(e) => Err(e),
        }
    } else {
        parse_primary(ts, p)
    }
}

fn parse_primary(ts: &Vec<Token>, p: usize) -> (r: Result<(Expr, usize), ParseError>)
    requires
        p <= ts@.len(),
    ensures
        pres(r) == p_primary(toks(ts@), p as int),
        r matches Ok((_, q)) ==> p < q <= ts@.len(),
    decreases ts@.len() - p, 2int,
{
    if p >= ts.len() {
        return Err(ParseError::UnexpectedToken(Token::Eof));
    }
    match &ts[p] {
        Token::StringLit(s) => Ok((Expr::Str(s.clone()), p + 1)),
        Token::NumberLit(n) => Ok((Expr::Num(n.clone()), p + 1)),
        Token::True => Ok((Expr::Bool(true), p + 1)),
        Token::False => Ok((Expr::Bool(false), p + 1)),
        Token::Null => Ok((Expr::Null, p + 1)),
        Token::LParen => match parse_expr(ts, p + 1) {
            Ok((e, q)) => {
                if q < ts.len() && matches!(ts[q], Token::RParen) {
                    Ok((e, q + 1))
                } else {
                    Err(ParseError::ExpectedRParen(token_at(ts, q)))
                }
            },
            Err(e) => Err(e),
        },
        Token::Ident(name) => parse_ident(ts, p, name.clone()),
        Token::Not => match parse_unary(ts, p + 1) {
            Ok((e, q)) => Ok((Expr::Not(Box::new(e)), q)),
            Err(e) => Err(e),
        },
        other => Err(ParseError::UnexpectedToken(other.copy())),
    }
}

fn parse_ident(ts: &Vec<Token>, p: usize, name: String) -> (r: Result<(Expr, usize), ParseError>)
    requires
        p < ts@.len(),
    ensures
        pres(r) == p_ident(toks(ts@), p as int, name@),
        r matches Ok((_, q)) ==> p < q <= ts@.len(),
    decreases ts@.len() - p, 1int,
{
    let n = ts.len();
    if p + 1 < n && matches!(ts[p + 1], Token::LParen) {
        if p + 2 < n && matches!(ts[p + 2], Token::RParen) {
            parse_call_end(ts, p + 2, name, ExprArgs::Nil, 0)
        } else {
            match parse_expr(ts, p + 2) {
                Ok((a, q)) => parse_args_rest(ts, q, name, ExprArgs::Nil.push_back(a), 1),
                Err(e) => Err(e),
            }
        }
    } else {
        let mut parts: Vec<String> = Vec::new();
        parts.push(name);
        proof {
            assert(crate::text::views(parts@) =~= seq![name@]);
        }
        parse_dots(ts, p + 1, parts)
    }
}

fn parse_args_rest(ts: &Vec<Token>, q: usize, name: String, args: ExprArgs, n: usize) -> (r: Result<(Expr, usize), ParseError>)
    requires
        q <= ts@.len(),
        n == args.view().len(),
        n <= q,
    ensures
        pres(r) == p_args_rest(toks(ts@), q as int, name@, args.view()),
        r matches Ok((_, q2)) ==> q < q2 <= ts@.len(),
    decreases ts@.len() - q, 0int,
{
    if q < ts.len() && matches!(ts[q], Token::Comma) {
        match parse_expr(ts, q + 1) {
            Ok((a, q2)) => {
                proof {
                    lemma_snoc_len(args.view(), a.view());
                }
                let more = args.push_back(a);
                parse_args_rest(ts, q2, name, more, n + 1)
            },
            Err(e) => Err(e),
        }
    } else {
        parse_call_end(ts, q, name, args, n)
    }
}

fn parse_call_end(ts: &Vec<Token>, q: usize, name: String, args: ExprArgs, n: usize) -> (r: Result<(Expr, usize), ParseError>)
    requires
        q <= ts@.len(),
        n == args.view().len(),
    ensures
        pres(r) == p_call_end(toks(ts@), q as int, name@, args.view()),
        r matches Ok((_, q2)) ==> q < q2 <= ts@.len(),
{
    if q < ts.len() && matches!(ts[q], Token::RParen) {
        match arity_error_exec(name.as_str(), n) {
            Some(m) => Err(ParseError::Arity(m)),
            None => Ok((Expr::Call(name, Box::new(args)), q + 1)),
        }
    } else {
        Err(ParseError::ExpectedRParen(token_at(ts, q)))
    }
}

fn parse_dots(ts: &Vec<Token>, q: usize, parts: Vec<String>) -> (r: Result<(Expr, usize), ParseError>)
    requires
        q <= ts@.len(),
    ensures
        pres(r) == p_dots(toks(ts@), q as int, crate::text::views(parts@)),
        r matches Ok((_, q2)) ==> q <= q2 <= ts@.len(),
    decreases ts@.len() - q,
{
    if q < ts.len() && matches!(ts[q], Token::Dot) {
        if q + 1 < ts.len() {
            match &ts[q + 1] {
                Token::Ident(part) => {
                    let mut more = parts;
                    let ghost before = more@;
                    more.push(part.clone());
                    proof {
                        assert(crate::text::views(more@) =~= crate::text::views(before).push(part@));
                    }
                    parse_dots(ts, q + 2, more)
                },
                other => Err(ParseError::ExpectedIdentAfterDot(other.copy())),
            }
        } else {
            Err(ParseError::ExpectedIdentAfterDot(Token::Eof))
        }
    } else {
        Ok((Expr::Ref(parts), q))
    }
}

/// Parses a token sequence: one expression, then the end of input.
pub fn parse(ts: &Vec<Token>) -> (r: Result<Expr, ParseError>)
    ensures
        match r {
            Ok(e) => parse_spec(toks(ts@)) == Ok::<ExprS, PErr>(e.view()),
            Err(e) => parse_spec(toks(ts@)) == Err::<ExprS, PErr>(e@),
        },
{
    match parse_expr(ts, 0) {
        Ok((e, q)) => {
            if q < ts.len() && !matches!(ts[q], Token::Eof) {
                Err(ParseError::TrailingToken(ts[q].copy()))
            } else {
                Ok(e)
            }
        },
        Err(e) => Err(e),
    }
}

} // verus!

verus! {

/// `e` is the tree of the one-token operand `t`: a literal or a bare
/// identifier.
pub open spec fn single_operand(t: Tok, e: ExprS) -> bool {
    ||| (exists|n: Seq<char>| t == Tok::Num(n) && e == ExprS::Num(n))
    ||| (exists|s: Seq<char>| t == Tok::Str(s) && e == ExprS::Str(s))
    ||| (t == Tok::True && e == ExprS::Bool(true))
    ||| (t == Tok::False && e == ExprS::Bool(false))
    ||| (t == Tok::Null && e == ExprS::Null)
    ||| (exists|x: Seq<char>| t == Tok::Ident(x) && e == ExprS::Ref(seq![x]))
}

/// `op` is the comparison that the token `t` writes.
pub open spec fn writes_comparison(t: Tok, op: CompareOp) -> bool {
    ||| (t == Tok::Eq && op == CompareOp::Eq)
    ||| (t == Tok::Ne && op == CompareOp::Ne)
    ||| (t == Tok::Lt && op == CompareOp::Lt)
    ||| (t == Tok::Le && op == CompareOp::Le)
    ||| (t == Tok::Gt && op == CompareOp::Gt)
    ||| (t == Tok::Ge && op == CompareOp::Ge)
}

/// A comparison `a OP b` parses into a comparison whose left operand is
/// the tree of `a` and whose right operand is the tree of `b`, for every
/// comparison operator and every pair of one-token operands: `1 < 2` is
/// `Compare(Lt, Num 1, Num 2)`, never the operands swapped.
pub proof fn lemma_comparison_operands_in_order(a: Tok, ea: ExprS, op_tok: Tok, op: CompareOp, b: Tok, eb: ExprS)
    requires
        single_operand(a, ea),
        single_operand(b, eb),
        writes_comparison(op_tok, op),
    ensures
        parse_spec(seq![a, op_tok, b]) == Ok::<ExprS, PErr>(ExprS::Compare(op, Box::new(ea), Box::new(eb))),
{
    let ts = seq![a, op_tok, b];
    assert(tok_at(ts, 1) == op_tok);
    assert(comparison_op_of(op_tok) == Some(op));
    assert(p_unary(ts, 0) == Ok::<(ExprS, int), PErr>((ea, 1))) by {
        assert(p_primary(ts, 0) == Ok::<(ExprS, int), PErr>((ea, 1))) by {
            if let Tok::Ident(x) = a {
                assert(p_dots(ts, 1, seq![x]) == Ok::<(ExprS, int), PErr>((ExprS::Ref(seq![x]), 1)));
            }
        }
    }
    assert(p_unary(ts, 2) == Ok::<(ExprS, int), PErr>((eb, 3))) by {
        assert(p_primary(ts, 2) == Ok::<(ExprS, int), PErr>((eb, 3))) by {
            if let Tok::Ident(x) = b {
                assert(p_dots(ts, 3, seq![x]) == Ok::<(ExprS, int), PErr>((ExprS::Ref(seq![x]), 3)));
            }
        }
    }
    let c = ExprS::Compare(op, Box::new(ea), Box::new(eb));
    assert(p_comparison(ts, 0) == Ok::<(ExprS, int), PErr>((c, 3)));
    assert(p_and_rest(ts, 3, c) == Ok::<(ExprS, int), PErr>((c, 3)));
    assert(p_and(ts, 0) == Ok::<(ExprS, int), PErr>((c, 3)));
    assert(p_or_rest(ts, 3, c) == Ok::<(ExprS, int), PErr>((c, 3)));
    assert(p_or(ts, 0) == Ok::<(ExprS, int), PErr>((c, 3)));
    assert(p_expr(ts, 0) == Ok::<(ExprS, int), PErr>((c, 3)));
    assert(tok_at(ts, 3) == Tok::Eof);
}

} // verus!
