//! The query language over the category taxonomy: a tokenizer, a
//! precedence-climbing parser and a validator that resolves names against
//! the taxonomy and evaluates the set algebra of `+`, `&` and `-`.
//!
//! Grammar, lowest precedence first, all operators left-associative:
//! `or := and ('+' and)*`, `and := not ('&' not)*`,
//! `not := primary ('-' primary)*`, `primary := WORD+ | '(' or ')'`.
//! Consecutive words form one token, which is how multi-word category names
//! survive tokenization.

use vstd::prelude::*;

use std::collections::VecDeque;

use crate::fuzzy::{spec_within_three, within_three};
use crate::setops::{
    diff_lists, inter_lists, lemma_filter_sorted, lemma_sort_dedup_props, lemma_union_commutative,
    lemma_union_idempotent, sort_dedup_list, sorted_unique, sp_diff, sp_inter, sp_sort_dedup,
    sp_union, union_lists,
};
use crate::taxonomy::{spec_taxonomy, taxonomy, views_of, CatModel, Category};
use crate::text::{lower, lower_chars, spec_join, spec_trim, str_chars, str_eq, string_of, trim_chars};

verus! {

/// The operator and grouping characters of the language.
pub open spec fn is_op_char(c: char) -> bool {
    c == '&' || c == '+' || c == '-' || c == '(' || c == ')'
}

/// Whether a token is the single character `c`.
pub open spec fn tok_is(t: Seq<char>, c: char) -> bool {
    t.len() == 1 && t[0] == c
}

/// Whether a token is an operator or grouping token.
pub open spec fn tok_is_op(t: Seq<char>) -> bool {
    t.len() == 1 && is_op_char(t[0])
}

/// The views of a sequence of token strings.
pub open spec fn tok_views(s: Seq<String>) -> Seq<Seq<char>> {
    s.map_values(|t: String| t@)
}

/// A non-empty trimmed buffer becomes a token; an empty one is dropped.
pub open spec fn flush_buf(buf: Seq<char>) -> Seq<Seq<char>> {
    if spec_trim(buf).len() > 0 {
        seq![spec_trim(buf)]
    } else {
        Seq::empty()
    }
}

/// The tokens of `s` when the word read so far is `buf`: the recursion
/// behind [`spec_tokenize`]. Operators and parentheses are their own
/// tokens; spaces end a word.
pub open spec fn spec_tokenize_rec(s: Seq<char>, buf: Seq<char>) -> Seq<Seq<char>>
    decreases s.len(),
{
    if s.len() == 0 {
        flush_buf(buf)
    } else if is_op_char(s[0]) {
        flush_buf(buf) + seq![seq![s[0]]] + spec_tokenize_rec(s.skip(1), Seq::empty())
    } else if s[0] == ' ' {
        flush_buf(buf) + spec_tokenize_rec(s.skip(1), Seq::empty())
    } else {
        spec_tokenize_rec(s.skip(1), buf.push(s[0]))
    }
}

/// The token sequence of an input line.
pub open spec fn spec_tokenize(s: Seq<char>) -> Seq<Seq<char>> {
    spec_tokenize_rec(s, Seq::empty())
}

/// Whether `c` is an operator or grouping character.
pub fn is_op(c: char) -> (r: bool)
    ensures
        r == is_op_char(c),
{
    c == '&' || c == '+' || c == '-' || c == '(' || c == ')'
}

/// Tokenize an input line into operators and category names. Words between
/// operators are separate tokens; the parser later joins consecutive words
/// into multi-word names.
pub fn tokenize(input: &str) -> (r: VecDeque<String>)
    ensures
        tok_views(r@) == spec_tokenize(input@),
{
    let chars = str_chars(input);
    let mut out: VecDeque<String> = VecDeque::new();
    let mut buf: Vec<char> = Vec::new();
    let mut i: usize = 0;
    proof {
        assert(chars@.skip(0) =~= chars@);
        assert(tok_views(out@) =~= Seq::<Seq<char>>::empty());
        assert(tok_views(out@) + spec_tokenize_rec(chars@, buf@) =~= spec_tokenize(input@));
    }
    while i < chars.len()
        invariant
            chars@ == input@,
            i <= chars@.len(),
            tok_views(out@) + spec_tokenize_rec(chars@.skip(i as int), buf@) == spec_tokenize(
                input@,
            ),
        decreases chars@.len() - i,
    {
        let ghost s = chars@.skip(i as int);
        let ghost pre_out = tok_views(out@);
        let ghost pre_buf = buf@;
        let c = chars[i];
        if is_op(c) {
            flush_token(&mut out, &buf);
            buf = Vec::new();
            let mut op: Vec<char> = Vec::new();
            op.push(c);
            out.push_back(string_of(&op));
            proof {
                assert(tok_views(out@) =~= pre_out + flush_buf(pre_buf) + seq![seq![s[0]]]);
            }
        } else if c == ' ' {
            flush_token(&mut out, &buf);
            buf = Vec::new();
            proof {
                assert(tok_views(out@) =~= pre_out + flush_buf(pre_buf));
            }
        } else {
            buf.push(c);
        }
        i += 1;
        proof {
            assert(s.skip(1) =~= chars@.skip(i as int));
            assert(tok_views(out@) + spec_tokenize_rec(chars@.skip(i as int), buf@) =~= pre_out
                + spec_tokenize_rec(s, pre_buf));
        }
    }
    let ghost pre_out = tok_views(out@);
    let ghost pre_buf = buf@;
    flush_token(&mut out, &buf);
    proof {
        assert(chars@.skip(chars@.len() as int) =~= Seq::<char>::empty());
        assert(tok_views(out@) =~= pre_out + flush_buf(pre_buf));
        assert(tok_views(out@) =~= spec_tokenize(input@));
    }
    out
}

/// Push the trimmed buffer as a token when it is non-empty.
fn flush_token(out: &mut VecDeque<String>, buf: &Vec<char>)
    ensures
        tok_views(final(out)@) == tok_views(old(out)@) + flush_buf(buf@),
{
    let t = trim_chars(buf);
    if t.len() > 0 {
        out.push_back(string_of(&t));
        proof {
            assert(tok_views(out@) =~= tok_views(old(out)@) + flush_buf(buf@));
        }
    } else {
        proof {
            assert(tok_views(out@) =~= tok_views(old(out)@) + flush_buf(buf@));
        }
    }
}

/// The shape of a parsed query expression.
#[verifier::ext_equal]
pub enum ExprModel {
    /// A category or subcategory name.
    Token(Seq<char>),
    /// Intersection of two expressions.
    And(Box<ExprModel>, Box<ExprModel>),
    /// Union of two expressions.
    Or(Box<ExprModel>, Box<ExprModel>),
    /// Subtraction of the second expression from the first.
    Not(Box<ExprModel>, Box<ExprModel>),
}

/// Abstract syntax tree of the query language, precedence already applied.
#[derive(Debug)]
pub enum Expr {
    /// A category or subcategory name (possibly multi-word).
    Token(String),
    /// Intersection: both sides must hold.
    And(Box<Expr>, Box<Expr>),
    /// Union: either side may hold.
    Or(Box<Expr>, Box<Expr>),
    /// Subtraction: the second side is excluded from the first.
    Not(Box<Expr>, Box<Expr>),
}

/// The shape of an expression tree.
pub open spec fn expr_model(e: Expr) -> ExprModel
    decreases e,
{
    match e {
        Expr::Token(t) => ExprModel::Token(t@),
        Expr::And(a, b) => ExprModel::And(Box::new(expr_model(*a)), Box::new(expr_model(*b))),
        Expr::Or(a, b) => ExprModel::Or(Box::new(expr_model(*a)), Box::new(expr_model(*b))),
        Expr::Not(a, b) => ExprModel::Not(Box::new(expr_model(*a)), Box::new(expr_model(*b))),
    }
}

impl View for Expr {
    type V = ExprModel;

    open spec fn view(&self) -> ExprModel {
        expr_model(*self)
    }
}

/// The rendering of an expression, used in error messages: tokens as they
/// stand, operator nodes parenthesized.
pub open spec fn spec_render(e: ExprModel) -> Seq<char>
    decreases e,
{
    match e {
        ExprModel::Token(t) => t,
        ExprModel::And(a, b) => "("@ + spec_render(*a) + " & "@ + spec_render(*b) + ")"@,
        ExprModel::Or(a, b) => "("@ + spec_render(*a) + " + "@ + spec_render(*b) + ")"@,
        ExprModel::Not(a, b) => "("@ + spec_render(*a) + " - "@ + spec_render(*b) + ")"@,
    }
}

impl Expr {
    /// The rendering of this expression, used in error messages.
    pub fn render(&self) -> (r: String)
        ensures
            r@ == spec_render(self@),
        decreases self,
    {
        match self {
            Expr::Token(t) => t.clone(),
            Expr::And(a, b) => {
                let mut s = String::from_str("(");
                s.append(a.render().as_str());
                s.append(" & ");
                s.append(b.render().as_str());
                s.append(")");
                s
            },
            Expr::Or(a, b) => {
                let mut s = String::from_str("(");
                s.append(a.render().as_str());
                s.append(" + ");
                s.append(b.render().as_str());
                s.append(")");
                s
            },
            Expr::Not(a, b) => {
                let mut s = String::from_str("(");
                s.append(a.render().as_str());
                s.append(" - ");
                s.append(b.render().as_str());
                s.append(")");
                s
            },
        }
    }
}

/// The shape of a query error.
#[verifier::ext_equal]
pub enum QErrModel {
    /// An operator or stray token stood where a name or `(` was expected;
    /// carries the offending token.
    UnexpectedToken(Seq<char>),
    /// The input ended inside an expression.
    UnexpectedEOF,
    /// A token resolved to no category; carries the token.
    InvalidCategory(Seq<char>),
    /// A branch of the query can select nothing; carries its rendering.
    ImpossibleBranch(Seq<char>),
}

/// Errors of query parsing and validation.
#[derive(Debug)]
pub enum QueryError {
    /// An operator or stray token stood where a name or `(` was expected.
    UnexpectedToken(String),
    /// The input ended inside an expression (an unclosed parenthesis).
    UnexpectedEOF,
    /// A token that resolves to no category.
    InvalidCategory(String),
    /// A query that can select nothing (conflicting categories).
    ImpossibleBranch(String),
}

impl View for QueryError {
    type V = QErrModel;

    open spec fn view(&self) -> QErrModel {
        match self {
            QueryError::UnexpectedToken(t) => QErrModel::UnexpectedToken(t@),
            QueryError::UnexpectedEOF => QErrModel::UnexpectedEOF,
            QueryError::InvalidCategory(t) => QErrModel::InvalidCategory(t@),
            QueryError::ImpossibleBranch(t) => QErrModel::ImpossibleBranch(t@),
        }
    }
}

/// One step of the parser: an expression with the tokens it left, a parse
/// error, or fuel exhaustion (which sufficient fuel never reaches).
#[verifier::ext_equal]
pub enum PStep {
    Done(ExprModel, Seq<Seq<char>>),
    Fail(QErrModel),
    Short,
}

/// How many leading word tokens `toks` has: the length of the multi-word
/// name a primary expression reads.
pub open spec fn words_len(toks: Seq<Seq<char>>) -> int
    decreases toks.len(),
{
    if toks.len() == 0 {
        0
    } else if tok_is_op(toks[0]) {
        0
    } else {
        1 + words_len(toks.skip(1))
    }
}

/// The leading word count is within bounds, and positive on a word.
pub proof fn lemma_words_len_bounds(toks: Seq<Seq<char>>)
    ensures
        0 <= words_len(toks) <= toks.len(),
        toks.len() > 0 && !tok_is_op(toks[0]) ==> words_len(toks) >= 1,
    decreases toks.len(),
{
    if toks.len() > 0 && !tok_is_op(toks[0]) {
        lemma_words_len_bounds(toks.skip(1));
    }
}

/// The leading word count is the index of the first operator token.
pub proof fn lemma_words_len_at(toks: Seq<Seq<char>>, j: int)
    requires
        0 <= j <= toks.len(),
        forall|k: int| 0 <= k < j ==> !tok_is_op(toks[k]),
        j == toks.len() || tok_is_op(toks[j]),
    ensures
        words_len(toks) == j,
    decreases j,
{
    if j == 0 {
    } else {
        lemma_words_len_at(toks.skip(1), j - 1);
    }
}

/// A primary expression: a run of words joined with spaces, or a
/// parenthesized expression.
pub open spec fn sp_primary(f: nat, toks: Seq<Seq<char>>) -> PStep
    decreases f,
{
    if f == 0 {
        PStep::Short
    } else if toks.len() == 0 {
        PStep::Fail(QErrModel::UnexpectedEOF)
    } else if tok_is(toks[0], '(') {
        match sp_or((f - 1) as nat, toks.skip(1)) {
            PStep::Done(e, rest) => if rest.len() == 0 {
                PStep::Fail(QErrModel::UnexpectedEOF)
            } else if tok_is(rest[0], ')') {
                PStep::Done(e, rest.skip(1))
            } else {
                PStep::Fail(QErrModel::UnexpectedToken(rest[0]))
            },
            r => r,
        }
    } else if tok_is_op(toks[0]) {
        PStep::Fail(QErrModel::UnexpectedToken(toks[0]))
    } else {
        let k = words_len(toks);
        PStep::Done(ExprModel::Token(spec_join(toks.take(k), " "@)), toks.skip(k))
    }
}

/// The rest of a subtraction chain after its first operand.
pub open spec fn sp_not_rest(f: nat, acc: ExprModel, toks: Seq<Seq<char>>) -> PStep
    decreases f,
{
    if f == 0 {
        PStep::Short
    } else if toks.len() > 0 && tok_is(toks[0], '-') {
        match sp_primary((f - 1) as nat, toks.skip(1)) {
            PStep::Done(e, rest) => sp_not_rest(
                (f - 1) as nat,
                ExprModel::Not(Box::new(acc), Box::new(e)),
                rest,
            ),
            r => r,
        }
    } else {
        PStep::Done(acc, toks)
    }
}

/// A subtraction chain, left-associative.
pub open spec fn sp_not(f: nat, toks: Seq<Seq<char>>) -> PStep
    decreases f,
{
    if f == 0 {
        PStep::Short
    } else {
        match sp_primary((f - 1) as nat, toks) {
            PStep::Done(e, rest) => sp_not_rest((f - 1) as nat, e, rest),
            r => r,
        }
    }
}

/// The rest of an intersection chain after its first operand.
pub open spec fn sp_and_rest(f: nat, acc: ExprModel, toks: Seq<Seq<char>>) -> PStep
    decreases f,
{
    if f == 0 {
        PStep::Short
    } else if toks.len() > 0 && tok_is(toks[0], '&') {
        match sp_not((f - 1) as nat, toks.skip(1)) {
            PStep::Done(e, rest) => sp_and_rest(
                (f - 1) as nat,
                ExprModel::And(Box::new(acc), Box::new(e)),
                rest,
            ),
            r => r,
        }
    } else {
        PStep::Done(acc, toks)
    }
}

/// An intersection chain, left-associative.
pub open spec fn sp_and(f: nat, toks: Seq<Seq<char>>) -> PStep
    decreases f,
{
    if f == 0 {
        PStep::Short
    } else {
        match sp_not((f - 1) as nat, toks) {
            PStep::Done(e, rest) => sp_and_rest((f - 1) as nat, e, rest),
            r => r,
        }
    }
}

/// The rest of a union chain after its first operand.
pub open spec fn sp_or_rest(f: nat, acc: ExprModel, toks: Seq<Seq<char>>) -> PStep
    decreases f,
{
    if f == 0 {
        PStep::Short
    } else if toks.len() > 0 && tok_is(toks[0], '+') {
        match sp_and((f - 1) as nat, toks.skip(1)) {
            PStep::Done(e, rest) => sp_or_rest(
                (f - 1) as nat,
                ExprModel::Or(Box::new(acc), Box::new(e)),
                rest,
            ),
            r => r,
        }
    } else {
        PStep::Done(acc, toks)
    }
}

/// A union chain, left-associative: a whole expression.
pub open spec fn sp_or(f: nat, toks: Seq<Seq<char>>) -> PStep
    decreases f,
{
    if f == 0 {
        PStep::Short
    } else {
        match sp_and((f - 1) as nat, toks) {
            PStep::Done(e, rest) => sp_or_rest((f - 1) as nat, e, rest),
            r => r,
        }
    }
}

/// The parse of `toks` as a primary expression, at fuel that always
/// suffices.
pub open spec fn primary_val(toks: Seq<Seq<char>>) -> PStep {
    sp_primary((8 * toks.len() + 1) as nat, toks)
}

pub open spec fn not_rest_val(acc: ExprModel, toks: Seq<Seq<char>>) -> PStep {
    sp_not_rest((8 * toks.len() + 2) as nat, acc, toks)
}

pub open spec fn not_val(toks: Seq<Seq<char>>) -> PStep {
    sp_not((8 * toks.len() + 3) as nat, toks)
}

pub open spec fn and_rest_val(acc: ExprModel, toks: Seq<Seq<char>>) -> PStep {
    sp_and_rest((8 * toks.len() + 4) as nat, acc, toks)
}

pub open spec fn and_val(toks: Seq<Seq<char>>) -> PStep {
    sp_and((8 * toks.len() + 5) as nat, toks)
}

pub open spec fn or_rest_val(acc: ExprModel, toks: Seq<Seq<char>>) -> PStep {
    sp_or_rest((8 * toks.len() + 6) as nat, acc, toks)
}

/// The parse of `toks` as a whole expression, at fuel that always suffices.
pub open spec fn or_val(toks: Seq<Seq<char>>) -> PStep {
    sp_or((8 * toks.len() + 7) as nat, toks)
}

/// With enough fuel a primary parse never runs short, and on success it
/// consumes at least one token.
proof fn suff_primary(f: nat, toks: Seq<Seq<char>>)
    requires
        f >= 8 * toks.len() + 1,
    ensures
        sp_primary(f, toks) != PStep::Short,
        sp_primary(f, toks) matches PStep::Done(e, rest) ==> rest.len() < toks.len(),
    decreases f,
{
    let n = toks.len();
    if n == 0 {
    } else if tok_is(toks[0], '(') {
        suff_or((f - 1) as nat, toks.skip(1));
    } else if tok_is_op(toks[0]) {
    } else {
        lemma_words_len_bounds(toks);
    }
}

/// With enough fuel a subtraction chain never runs short and never grows
/// its token list.
proof fn suff_not_rest(f: nat, acc: ExprModel, toks: Seq<Seq<char>>)
    requires
        f >= 8 * toks.len() + 2,
    ensures
        sp_not_rest(f, acc, toks) != PStep::Short,
        sp_not_rest(f, acc, toks) matches PStep::Done(e, rest) ==> rest.len() <= toks.len(),
    decreases f,
{
    if toks.len() > 0 && tok_is(toks[0], '-') {
        suff_primary((f - 1) as nat, toks.skip(1));
        match sp_primary((f - 1) as nat, toks.skip(1)) {
            PStep::Done(e, rest) => {
                suff_not_rest((f - 1) as nat, ExprModel::Not(Box::new(acc), Box::new(e)), rest);
            },
            _ => {},
        }
    }
}

proof fn suff_not(f: nat, toks: Seq<Seq<char>>)
    requires
        f >= 8 * toks.len() + 3,
    ensures
        sp_not(f, toks) != PStep::Short,
        sp_not(f, toks) matches PStep::Done(e, rest) ==> rest.len() < toks.len(),
    decreases f,
{
    suff_primary((f - 1) as nat, toks);
    match sp_primary((f - 1) as nat, toks) {
        PStep::Done(e, rest) => {
            suff_not_rest((f - 1) as nat, e, rest);
        },
        _ => {},
    }
}

proof fn suff_and_rest(f: nat, acc: ExprModel, toks: Seq<Seq<char>>)
    requires
        f >= 8 * toks.len() + 4,
    ensures
        sp_and_rest(f, acc, toks) != PStep::Short,
        sp_and_rest(f, acc, toks) matches PStep::Done(e, rest) ==> rest.len() <= toks.len(),
    decreases f,
{
    if toks.len() > 0 && tok_is(toks[0], '&') {
        suff_not((f - 1) as nat, toks.skip(1));
        match sp_not((f - 1) as nat, toks.skip(1)) {
            PStep::Done(e, rest) => {
                suff_and_rest((f - 1) as nat, ExprModel::And(Box::new(acc), Box::new(e)), rest);
            },
            _ => {},
        }
    }
}

proof fn suff_and(f: nat, toks: Seq<Seq<char>>)
    requires
        f >= 8 * toks.len() + 5,
    ensures
        sp_and(f, toks) != PStep::Short,
        sp_and(f, toks) matches PStep::Done(e, rest) ==> rest.len() < toks.len(),
    decreases f,
{
    suff_not((f - 1) as nat, toks);
    match sp_not((f - 1) as nat, toks) {
        PStep::Done(e, rest) => {
            suff_and_rest((f - 1) as nat, e, rest);
        },
        _ => {},
    }
}

proof fn suff_or_rest(f: nat, acc: ExprModel, toks: Seq<Seq<char>>)
    requires
        f >= 8 * toks.len() + 6,
    ensures
        sp_or_rest(f, acc, toks) != PStep::Short,
        sp_or_rest(f, acc, toks) matches PStep::Done(e, rest) ==> rest.len() <= toks.len(),
    decreases f,
{
    if toks.len() > 0 && tok_is(toks[0], '+') {
        suff_and((f - 1) as nat, toks.skip(1));
        match sp_and((f - 1) as nat, toks.skip(1)) {
            PStep::Done(e, rest) => {
                suff_or_rest((f - 1) as nat, ExprModel::Or(Box::new(acc), Box::new(e)), rest);
            },
            _ => {},
        }
    }
}

proof fn suff_or(f: nat, toks: Seq<Seq<char>>)
    requires
        f >= 8 * toks.len() + 7,
    ensures
        sp_or(f, toks) != PStep::Short,
        sp_or(f, toks) matches PStep::Done(e, rest) ==> rest.len() < toks.len(),
    decreases f,
{
    suff_and((f - 1) as nat, toks);
    match sp_and((f - 1) as nat, toks) {
        PStep::Done(e, rest) => {
            suff_or_rest((f - 1) as nat, e, rest);
        },
        _ => {},
    }
}

/// Above the sufficiency threshold, more fuel does not change a primary
/// parse.
proof fn mono_primary(f1: nat, f2: nat, toks: Seq<Seq<char>>)
    requires
        8 * toks.len() + 1 <= f1 <= f2,
    ensures
        sp_primary(f1, toks) == sp_primary(f2, toks),
    decreases f1,
{
    let n = toks.len();
    if n > 0 && tok_is(toks[0], '(') {
        mono_or((f1 - 1) as nat, (f2 - 1) as nat, toks.skip(1));
    }
}

proof fn mono_not_rest(f1: nat, f2: nat, acc: ExprModel, toks: Seq<Seq<char>>)
    requires
        8 * toks.len() + 2 <= f1 <= f2,
    ensures
        sp_not_rest(f1, acc, toks) == sp_not_rest(f2, acc, toks),
    decreases f1,
{
    if toks.len() > 0 && tok_is(toks[0], '-') {
        mono_primary((f1 - 1) as nat, (f2 - 1) as nat, toks.skip(1));
        suff_primary((f1 - 1) as nat, toks.skip(1));
        match sp_primary((f1 - 1) as nat, toks.skip(1)) {
            PStep::Done(e, rest) => {
                mono_not_rest(
                    (f1 - 1) as nat,
                    (f2 - 1) as nat,
                    ExprModel::Not(Box::new(acc), Box::new(e)),
                    rest,
                );
            },
            _ => {},
        }
    }
}

proof fn mono_not(f1: nat, f2: nat, toks: Seq<Seq<char>>)
    requires
        8 * toks.len() + 3 <= f1 <= f2,
    ensures
        sp_not(f1, toks) == sp_not(f2, toks),
    decreases f1,
{
    mono_primary((f1 - 1) as nat, (f2 - 1) as nat, toks);
    suff_primary((f1 - 1) as nat, toks);
    match sp_primary((f1 - 1) as nat, toks) {
        PStep::Done(e, rest) => {
            mono_not_rest((f1 - 1) as nat, (f2 - 1) as nat, e, rest);
        },
        _ => {},
    }
}

proof fn mono_and_rest(f1: nat, f2: nat, acc: ExprModel, toks: Seq<Seq<char>>)
    requires
        8 * toks.len() + 4 <= f1 <= f2,
    ensures
        sp_and_rest(f1, acc, toks) == sp_and_rest(f2, acc, toks),
    decreases f1,
{
    if toks.len() > 0 && tok_is(toks[0], '&') {
        mono_not((f1 - 1) as nat, (f2 - 1) as nat, toks.skip(1));
        suff_not((f1 - 1) as nat, toks.skip(1));
        match sp_not((f1 - 1) as nat, toks.skip(1)) {
            PStep::Done(e, rest) => {
                mono_and_rest(
                    (f1 - 1) as nat,
                    (f2 - 1) as nat,
                    ExprModel::And(Box::new(acc), Box::new(e)),
                    rest,
                );
            },
            _ => {},
        }
    }
}

proof fn mono_and(f1: nat, f2: nat, toks: Seq<Seq<char>>)
    requires
        8 * toks.len() + 5 <= f1 <= f2,
    ensures
        sp_and(f1, toks) == sp_and(f2, toks),
    decreases f1,
{
    mono_not((f1 - 1) as nat, (f2 - 1) as nat, toks);
    suff_not((f1 - 1) as nat, toks);
    match sp_not((f1 - 1) as nat, toks) {
        PStep::Done(e, rest) => {
            mono_and_rest((f1 - 1) as nat, (f2 - 1) as nat, e, rest);
        },
        _ => {},
    }
}

proof fn mono_or_rest(f1: nat, f2: nat, acc: ExprModel, toks: Seq<Seq<char>>)
    requires
        8 * toks.len() + 6 <= f1 <= f2,
    ensures
        sp_or_rest(f1, acc, toks) == sp_or_rest(f2, acc, toks),
    decreases f1,
{
    if toks.len() > 0 && tok_is(toks[0], '+') {
        mono_and((f1 - 1) as nat, (f2 - 1) as nat, toks.skip(1));
        suff_and((f1 - 1) as nat, toks.skip(1));
        match sp_and((f1 - 1) as nat, toks.skip(1)) {
            PStep::Done(e, rest) => {
                mono_or_rest(
                    (f1 - 1) as nat,
                    (f2 - 1) as nat,
                    ExprModel::Or(Box::new(acc), Box::new(e)),
                    rest,
                );
            },
            _ => {},
        }
    }
}

proof fn mono_or(f1: nat, f2: nat, toks: Seq<Seq<char>>)
    requires
        8 * toks.len() + 7 <= f1 <= f2,
    ensures
        sp_or(f1, toks) == sp_or(f2, toks),
    decreases f1,
{
    mono_and((f1 - 1) as nat, (f2 - 1) as nat, toks);
    suff_and((f1 - 1) as nat, toks);
    match sp_and((f1 - 1) as nat, toks) {
        PStep::Done(e, rest) => {
            mono_or_rest((f1 - 1) as nat, (f2 - 1) as nat, e, rest);
        },
        _ => {},
    }
}

/// A whole-expression parse never runs short at its canonical fuel, and on
/// success it consumes tokens.
pub proof fn lemma_or_val_total(toks: Seq<Seq<char>>)
    ensures
        or_val(toks) != PStep::Short,
        or_val(toks) matches PStep::Done(e, rest) ==> rest.len() < toks.len(),
{
    suff_or((8 * toks.len() + 7) as nat, toks);
}

/// A whole-expression parse is one intersection chain followed by the rest
/// of a union chain.
pub proof fn lemma_or_val(toks: Seq<Seq<char>>)
    ensures
        or_val(toks) == (match and_val(toks) {
            PStep::Done(e, rest) => or_rest_val(e, rest),
            r => r,
        }),
{
    let f = (8 * toks.len() + 7) as nat;
    mono_and((8 * toks.len() + 5) as nat, (f - 1) as nat, toks);
    suff_and((8 * toks.len() + 5) as nat, toks);
    match and_val(toks) {
        PStep::Done(e, rest) => {
            mono_or_rest((8 * rest.len() + 6) as nat, (f - 1) as nat, e, rest);
        },
        _ => {},
    }
}

/// The rest of a union chain consumes a `+` and one more intersection
/// chain, or ends.
pub proof fn lemma_or_rest_val(acc: ExprModel, toks: Seq<Seq<char>>)
    ensures
        or_rest_val(acc, toks) == (if toks.len() > 0 && tok_is(toks[0], '+') {
            match and_val(toks.skip(1)) {
                PStep::Done(e, rest) => or_rest_val(
                    ExprModel::Or(Box::new(acc), Box::new(e)),
                    rest,
                ),
                r => r,
            }
        } else {
            PStep::Done(acc, toks)
        }),
{
    let f = (8 * toks.len() + 6) as nat;
    if toks.len() > 0 && tok_is(toks[0], '+') {
        mono_and((8 * toks.skip(1).len() + 5) as nat, (f - 1) as nat, toks.skip(1));
        suff_and((8 * toks.skip(1).len() + 5) as nat, toks.skip(1));
        match and_val(toks.skip(1)) {
            PStep::Done(e, rest) => {
                mono_or_rest(
                    (8 * rest.len() + 6) as nat,
                    (f - 1) as nat,
                    ExprModel::Or(Box::new(acc), Box::new(e)),
                    rest,
                );
            },
            _ => {},
        }
    }
}

/// An intersection chain is one subtraction chain followed by the rest of
/// an intersection chain.
pub proof fn lemma_and_val(toks: Seq<Seq<char>>)
    ensures
        and_val(toks) == (match not_val(toks) {
            PStep::Done(e, rest) => and_rest_val(e, rest),
            r => r,
        }),
{
    let f = (8 * toks.len() + 5) as nat;
    mono_not((8 * toks.len() + 3) as nat, (f - 1) as nat, toks);
    suff_not((8 * toks.len() + 3) as nat, toks);
    match not_val(toks) {
        PStep::Done(e, rest) => {
            mono_and_rest((8 * rest.len() + 4) as nat, (f - 1) as nat, e, rest);
        },
        _ => {},
    }
}

/// The rest of an intersection chain consumes a `&` and one more
/// subtraction chain, or ends.
pub proof fn lemma_and_rest_val(acc: ExprModel, toks: Seq<Seq<char>>)
    ensures
        and_rest_val(acc, toks) == (if toks.len() > 0 && tok_is(toks[0], '&') {
            match not_val(toks.skip(1)) {
                PStep::Done(e, rest) => and_rest_val(
                    ExprModel::And(Box::new(acc), Box::new(e)),
                    rest,
                ),
                r => r,
            }
        } else {
            PStep::Done(acc, toks)
        }),
{
    let f = (8 * toks.len() + 4) as nat;
    if toks.len() > 0 && tok_is(toks[0], '&') {
        mono_not((8 * toks.skip(1).len() + 3) as nat, (f - 1) as nat, toks.skip(1));
        suff_not((8 * toks.skip(1).len() + 3) as nat, toks.skip(1));
        match not_val(toks.skip(1)) {
            PStep::Done(e, rest) => {
                mono_and_rest(
                    (8 * rest.len() + 4) as nat,
                    (f - 1) as nat,
                    ExprModel::And(Box::new(acc), Box::new(e)),
                    rest,
                );
            },
            _ => {},
        }
    }
}

/// A subtraction chain is one primary followed by the rest of a
/// subtraction chain.
pub proof fn lemma_not_val(toks: Seq<Seq<char>>)
    ensures
        not_val(toks) == (match primary_val(toks) {
            PStep::Done(e, rest) => not_rest_val(e, rest),
            r => r,
        }),
{
    let f = (8 * toks.len() + 3) as nat;
    mono_primary((8 * toks.len() + 1) as nat, (f - 1) as nat, toks);
    suff_primary((8 * toks.len() + 1) as nat, toks);
    match primary_val(toks) {
        PStep::Done(e, rest) => {
            mono_not_rest((8 * rest.len() + 2) as nat, (f - 1) as nat, e, rest);
        },
        _ => {},
    }
}

/// The rest of a subtraction chain consumes a `-` and one more primary, or
/// ends.
pub proof fn lemma_not_rest_val(acc: ExprModel, toks: Seq<Seq<char>>)
    ensures
        not_rest_val(acc, toks) == (if toks.len() > 0 && tok_is(toks[0], '-') {
            match primary_val(toks.skip(1)) {
                PStep::Done(e, rest) => not_rest_val(
                    ExprModel::Not(Box::new(acc), Box::new(e)),
                    rest,
                ),
                r => r,
            }
        } else {
            PStep::Done(acc, toks)
        }),
{
    let f = (8 * toks.len() + 2) as nat;
    if toks.len() > 0 && tok_is(toks[0], '-') {
        mono_primary((8 * toks.skip(1).len() + 1) as nat, (f - 1) as nat, toks.skip(1));
        suff_primary((8 * toks.skip(1).len() + 1) as nat, toks.skip(1));
        match primary_val(toks.skip(1)) {
            PStep::Done(e, rest) => {
                mono_not_rest(
                    (8 * rest.len() + 2) as nat,
                    (f - 1) as nat,
                    ExprModel::Not(Box::new(acc), Box::new(e)),
                    rest,
                );
            },
            _ => {},
        }
    }
}

/// A primary is a parenthesized whole expression or a run of words joined
/// with single spaces.
pub proof fn lemma_primary_val(toks: Seq<Seq<char>>)
    ensures
        primary_val(toks) == (if toks.len() == 0 {
            PStep::Fail(QErrModel::UnexpectedEOF)
        } else if tok_is(toks[0], '(') {
            match or_val(toks.skip(1)) {
                PStep::Done(e, rest) => if rest.len() == 0 {
                    PStep::Fail(QErrModel::UnexpectedEOF)
                } else if tok_is(rest[0], ')') {
                    PStep::Done(e, rest.skip(1))
                } else {
                    PStep::Fail(QErrModel::UnexpectedToken(rest[0]))
                },
                r => r,
            }
        } else if tok_is_op(toks[0]) {
            PStep::Fail(QErrModel::UnexpectedToken(toks[0]))
        } else {
            PStep::Done(
                ExprModel::Token(spec_join(toks.take(words_len(toks)), " "@)),
                toks.skip(words_len(toks)),
            )
        }),
{
    let f = (8 * toks.len() + 1) as nat;
    if toks.len() > 0 && tok_is(toks[0], '(') {
        mono_or((8 * toks.skip(1).len() + 7) as nat, (f - 1) as nat, toks.skip(1));
    }
}

/// The parse of a whole token list: the expression, or the first error.
pub open spec fn sp_parse(toks: Seq<Seq<char>>) -> Result<ExprModel, QErrModel> {
    match or_val(toks) {
        PStep::Done(e, rest) => if rest.len() == 0 {
            Result::Ok(e)
        } else {
            Result::Err(QErrModel::UnexpectedToken(rest[0]))
        },
        PStep::Fail(q) => Result::Err(q),
        PStep::Short => Result::Err(QErrModel::UnexpectedEOF),
    }
}

/// Whether the parser step `s` is what the call returned: the expression
/// `r` with `rest` left over, or the error.
pub open spec fn pstep_matches(s: PStep, r: &Result<Expr, QueryError>, rest: Seq<Seq<char>>) -> bool {
    match r {
        Result::Ok(e) => s == PStep::Done(e@, rest),
        Result::Err(q) => s == PStep::Fail(q@),
    }
}

/// Token views distribute over dropping a prefix.
proof fn lemma_tok_views_skip(s: Seq<String>, i: int)
    requires
        0 <= i <= s.len(),
    ensures
        tok_views(s.skip(i)) == tok_views(s).skip(i),
{
    assert(tok_views(s.skip(i)) =~= tok_views(s).skip(i));
}

/// Whether the token is the single character `c`.
fn tok_is_char(t: &String, c: char) -> (r: bool)
    ensures
        r == tok_is(t@, c),
{
    t.as_str().unicode_len() == 1 && t.as_str().get_char(0) == c
}

/// Whether the token is an operator or grouping token.
fn tok_op(t: &String) -> (r: bool)
    ensures
        r == tok_is_op(t@),
{
    t.as_str().unicode_len() == 1 && is_op(t.as_str().get_char(0))
}

/// Parse a primary expression: a multi-word name or a parenthesized
/// subexpression. Consumes the tokens it parses.
#[verifier::loop_isolation(false)]
fn parse_primary(tokens: &mut VecDeque<String>) -> (r: Result<Expr, QueryError>)
    ensures
        pstep_matches(primary_val(tok_views(old(tokens)@)), &r, tok_views(final(tokens)@)),
    decreases old(tokens)@.len(), 0int,
{
    let ghost t0 = tok_views(old(tokens)@);
    proof {
        lemma_primary_val(t0);
    }
    match tokens.pop_front() {
        None => Err(QueryError::UnexpectedEOF),
        Some(tok) => {
            proof {
                lemma_tok_views_skip(old(tokens)@, 1);
                assert(old(tokens)@.subrange(1, old(tokens)@.len() as int) =~= old(
                    tokens,
                )@.skip(1));
                assert(t0[0] == tok@);
            }
            if tok_is_char(&tok, '(') {
                let ghost t1 = tok_views(tokens@);
                let sub = parse_subexpr(tokens);
                match sub {
                    Err(q) => Err(q),
                    Ok(e) => {
                        if tokens.len() == 0 {
                            Err(QueryError::UnexpectedEOF)
                        } else {
                            let ghost t2 = tok_views(tokens@);
                            proof {
                                assert(t2[0] == tokens@[0]@);
                            }
                            if tok_is_char(&tokens[0], ')') {
                                let ghost pre = tokens@;
                                tokens.pop_front();
                                proof {
                                    lemma_tok_views_skip(pre, 1);
                                    assert(pre.subrange(1, pre.len() as int) =~= pre.skip(1));
                                }
                                Ok(e)
                            } else {
                                Err(QueryError::UnexpectedToken(tokens[0].clone()))
                            }
                        }
                    },
                }
            } else if tok_op(&tok) {
                Err(QueryError::UnexpectedToken(tok))
            } else {
                let mut words: Vec<String> = Vec::new();
                words.push(tok);
                proof {
                    assert(words.deep_view() =~= t0.take(1));
                }
                while tokens.len() > 0 && !tok_op(&tokens[0])
                    invariant
                        1 <= words@.len() <= t0.len(),
                        words.deep_view() == t0.take(words@.len() as int),
                        tok_views(tokens@) == t0.skip(words@.len() as int),
                        forall|k: int| 0 <= k < words@.len() ==> !tok_is_op(t0[k]),
                    decreases tokens@.len(),
                {
                    let ghost j = words@.len() as int;
                    proof {
                        assert(tok_views(tokens@)[0] == tokens@[0]@);
                        assert(t0.skip(j)[0] == t0[j]);
                    }
                    let ghost pre = tokens@;
                    match tokens.pop_front() {
                        Some(w) => {
                            words.push(w);
                        },
                        None => {
                        },
                    }
                    proof {
                        lemma_tok_views_skip(pre, 1);
                        assert(pre.subrange(1, pre.len() as int) =~= pre.skip(1));
                        assert(words.deep_view() =~= t0.take(j + 1));
                        assert(t0.skip(j).skip(1) =~= t0.skip(j + 1));
                    }
                }
                proof {
                    let j = words@.len() as int;
                    if tokens@.len() > 0 {
                        assert(tok_views(tokens@)[0] == tokens@[0]@);
                        assert(t0.skip(j)[0] == t0[j]);
                        assert(tok_is_op(t0[j]));
                    }
                    lemma_words_len_at(t0, j);
                    assert(words.deep_view().subrange(0, j) =~= t0.take(j));
                }
                let name = crate::text::join_range(&words, " ", 0, words.len());
                Ok(Expr::Token(name))
            }
        },
    }
}

/// Parse a subexpression: a whole union chain, without requiring that it
/// reach the end of the input. Parenthesized groups are parsed with it.
fn parse_subexpr(tokens: &mut VecDeque<String>) -> (r: Result<Expr, QueryError>)
    ensures
        pstep_matches(or_val(tok_views(old(tokens)@)), &r, tok_views(final(tokens)@)),
    decreases old(tokens)@.len(), 5int,
{
    parse_or(tokens)
}

/// Parse a left-associative subtraction chain.
#[verifier::loop_isolation(false)]
fn parse_not(tokens: &mut VecDeque<String>) -> (r: Result<Expr, QueryError>)
    ensures
        pstep_matches(not_val(tok_views(old(tokens)@)), &r, tok_views(final(tokens)@)),
    decreases old(tokens)@.len(), 1int,
{
    let ghost t0 = tok_views(old(tokens)@);
    proof {
        lemma_not_val(t0);
        suff_primary((8 * t0.len() + 1) as nat, t0);
    }
    let mut node = match parse_primary(tokens) {
        Ok(e) => e,
        Err(q) => {
            return Err(q);
        },
    };
    while tokens.len() > 0 && tok_is_char(&tokens[0], '-')
        invariant
            tokens@.len() < t0.len(),
            not_val(t0) == not_rest_val(node@, tok_views(tokens@)),
        decreases tokens@.len(),
    {
        let ghost cur = tok_views(tokens@);
        proof {
            assert(cur[0] == tokens@[0]@);
            lemma_not_rest_val(node@, cur);
        }
        let ghost pre = tokens@;
        tokens.pop_front();
        proof {
            lemma_tok_views_skip(pre, 1);
            assert(pre.subrange(1, pre.len() as int) =~= pre.skip(1));
            suff_primary((8 * cur.skip(1).len() + 1) as nat, cur.skip(1));
        }
        let rhs = match parse_primary(tokens) {
            Ok(e) => e,
            Err(q) => {
                return Err(q);
            },
        };
        node = Expr::Not(Box::new(node), Box::new(rhs));
    }
    proof {
        lemma_not_rest_val(node@, tok_views(tokens@));
        if tokens@.len() > 0 {
            assert(tok_views(tokens@)[0] == tokens@[0]@);
        }
    }
    Ok(node)
}

/// Parse a left-associative intersection chain.
#[verifier::loop_isolation(false)]
fn parse_and(tokens: &mut VecDeque<String>) -> (r: Result<Expr, QueryError>)
    ensures
        pstep_matches(and_val(tok_views(old(tokens)@)), &r, tok_views(final(tokens)@)),
    decreases old(tokens)@.len(), 2int,
{
    let ghost t0 = tok_views(old(tokens)@);
    proof {
        lemma_and_val(t0);
        suff_not((8 * t0.len() + 3) as nat, t0);
    }
    let mut node = match parse_not(tokens) {
        Ok(e) => e,
        Err(q) => {
            return Err(q);
        },
    };
    while tokens.len() > 0 && tok_is_char(&tokens[0], '&')
        invariant
            tokens@.len() < t0.len(),
            and_val(t0) == and_rest_val(node@, tok_views(tokens@)),
        decreases tokens@.len(),
    {
        let ghost cur = tok_views(tokens@);
        proof {
            assert(cur[0] == tokens@[0]@);
            lemma_and_rest_val(node@, cur);
        }
        let ghost pre = tokens@;
        tokens.pop_front();
        proof {
            lemma_tok_views_skip(pre, 1);
            assert(pre.subrange(1, pre.len() as int) =~= pre.skip(1));
            suff_not((8 * cur.skip(1).len() + 3) as nat, cur.skip(1));
        }
        let rhs = match parse_not(tokens) {
            Ok(e) => e,
            Err(q) => {
                return Err(q);
            },
        };
        node = Expr::And(Box::new(node), Box::new(rhs));
    }
    proof {
        lemma_and_rest_val(node@, tok_views(tokens@));
        if tokens@.len() > 0 {
            assert(tok_views(tokens@)[0] == tokens@[0]@);
        }
    }
    Ok(node)
}

/// Parse a left-associative union chain.
#[verifier::loop_isolation(false)]
fn parse_or(tokens: &mut VecDeque<String>) -> (r: Result<Expr, QueryError>)
    ensures
        pstep_matches(or_val(tok_views(old(tokens)@)), &r, tok_views(final(tokens)@)),
    decreases old(tokens)@.len(), 4int,
{
    let ghost t0 = tok_views(old(tokens)@);
    proof {
        lemma_or_val(t0);
        suff_and((8 * t0.len() + 5) as nat, t0);
    }
    let mut node = match parse_and(tokens) {
        Ok(e) => e,
        Err(q) => {
            return Err(q);
        },
    };
    while tokens.len() > 0 && tok_is_char(&tokens[0], '+')
        invariant
            tokens@.len() < t0.len(),
            or_val(t0) == or_rest_val(node@, tok_views(tokens@)),
        decreases tokens@.len(),
    {
        let ghost cur = tok_views(tokens@);
        proof {
            assert(cur[0] == tokens@[0]@);
            lemma_or_rest_val(node@, cur);
        }
        let ghost pre = tokens@;
        tokens.pop_front();
        proof {
            lemma_tok_views_skip(pre, 1);
            assert(pre.subrange(1, pre.len() as int) =~= pre.skip(1));
            suff_and((8 * cur.skip(1).len() + 5) as nat, cur.skip(1));
        }
        let rhs = match parse_and(tokens) {
            Ok(e) => e,
            Err(q) => {
                return Err(q);
            },
        };
        node = Expr::Or(Box::new(node), Box::new(rhs));
    }
    proof {
        lemma_or_rest_val(node@, tok_views(tokens@));
        if tokens@.len() > 0 {
            assert(tok_views(tokens@)[0] == tokens@[0]@);
        }
    }
    Ok(node)
}

/// Parse a complete expression, requiring that every token be consumed:
/// the parser's entry point.
pub fn parse_expr(tokens: &mut VecDeque<String>) -> (r: Result<Expr, QueryError>)
    ensures
        match r {
            Ok(e) => sp_parse(tok_views(old(tokens)@)) == Result::<ExprModel, QErrModel>::Ok(e@),
            Err(q) => sp_parse(tok_views(old(tokens)@)) == Result::<ExprModel, QErrModel>::Err(q@),
        },
{
    match parse_or(tokens) {
        Err(q) => Err(q),
        Ok(e) => {
            if tokens.len() == 0 {
                Ok(e)
            } else {
                proof {
                    assert(tok_views(tokens@)[0] == tokens@[0]@);
                }
                Err(QueryError::UnexpectedToken(tokens[0].clone()))
            }
        },
    }
}

/// A selection record: the categories, subcategories and alternate
/// subcategories a query selects, each list sorted and deduplicated.
#[verifier::ext_equal]
pub struct SelModel {
    pub cats: Seq<Seq<char>>,
    pub subs: Seq<Seq<char>>,
    pub alts: Seq<Seq<char>>,
}

/// A selection of categories, subcategories and alternate subcategories,
/// ready to become query parameters.
pub struct Selection {
    pub categories: Vec<String>,
    pub subcategories: Vec<String>,
    pub alternate_subcategories: Vec<String>,
}

impl View for Selection {
    type V = SelModel;

    open spec fn view(&self) -> SelModel {
        SelModel {
            cats: self.categories.deep_view(),
            subs: self.subcategories.deep_view(),
            alts: self.alternate_subcategories.deep_view(),
        }
    }
}

/// Whether the lowered token equals the lowered candidate.
pub open spec fn exact_low(lt: Seq<char>, cand: Seq<char>) -> bool {
    lt == lower(cand)
}

/// Whether the lowered token is within the edit-distance budget of the
/// lowered candidate.
pub open spec fn close_low(lt: Seq<char>, cand: Seq<char>) -> bool {
    spec_within_three(lt, lower(cand))
}

/// Index of the first exact match at or after `j`, or -1.
pub open spec fn fe_in(lt: Seq<char>, cands: Seq<Seq<char>>, j: int) -> int
    decreases cands.len() - j when 0 <= j <= cands.len()
{
    if j < 0 || j >= cands.len() {
        -1
    } else if exact_low(lt, cands[j]) {
        j
    } else {
        fe_in(lt, cands, j + 1)
    }
}

/// The number of fuzzy matches at or after `j`, capped at two: the
/// resolution only asks whether there is exactly one.
pub open spec fn cc_in(lt: Seq<char>, cands: Seq<Seq<char>>, j: int) -> int
    decreases cands.len() - j when 0 <= j <= cands.len()
{
    if j < 0 || j >= cands.len() {
        0
    } else {
        let rest = cc_in(lt, cands, j + 1);
        if close_low(lt, cands[j]) {
            if rest >= 2 {
                2
            } else {
                rest + 1
            }
        } else {
            rest
        }
    }
}

/// Index of the first fuzzy match at or after `j`, or -1.
pub open spec fn fc_in(lt: Seq<char>, cands: Seq<Seq<char>>, j: int) -> int
    decreases cands.len() - j when 0 <= j <= cands.len()
{
    if j < 0 || j >= cands.len() {
        -1
    } else if close_low(lt, cands[j]) {
        j
    } else {
        fc_in(lt, cands, j + 1)
    }
}

/// The main category names, in taxonomy order.
pub open spec fn main_names() -> Seq<Seq<char>> {
    spec_taxonomy().map_values(|c: CatModel| c.name)
}

/// The first exact subcategory match in categories `i` onward.
pub open spec fn fe_sub(lt: Seq<char>, i: int) -> Option<(int, int)>
    decreases spec_taxonomy().len() - i when 0 <= i <= spec_taxonomy().len()
{
    if i < 0 || i >= spec_taxonomy().len() {
        None
    } else {
        let j = fe_in(lt, spec_taxonomy()[i].subs, 0);
        if j >= 0 {
            Some((i, j))
        } else {
            fe_sub(lt, i + 1)
        }
    }
}

/// The first exact alternate-subcategory match in categories `i` onward.
pub open spec fn fe_alt(lt: Seq<char>, i: int) -> Option<(int, int)>
    decreases spec_taxonomy().len() - i when 0 <= i <= spec_taxonomy().len()
{
    if i < 0 || i >= spec_taxonomy().len() {
        None
    } else {
        let j = fe_in(lt, spec_taxonomy()[i].alts, 0);
        if j >= 0 {
            Some((i, j))
        } else {
            fe_alt(lt, i + 1)
        }
    }
}

/// The number of fuzzy subcategory matches in categories `i` onward,
/// capped at two.
pub open spec fn cc_sub(lt: Seq<char>, i: int) -> int
    decreases spec_taxonomy().len() - i when 0 <= i <= spec_taxonomy().len()
{
    if i < 0 || i >= spec_taxonomy().len() {
        0
    } else {
        let here = cc_in(lt, spec_taxonomy()[i].subs, 0);
        let rest = cc_sub(lt, i + 1);
        if here + rest >= 2 {
            2
        } else {
            here + rest
        }
    }
}

/// The number of fuzzy alternate matches in categories `i` onward, capped
/// at two.
pub open spec fn cc_alt(lt: Seq<char>, i: int) -> int
    decreases spec_taxonomy().len() - i when 0 <= i <= spec_taxonomy().len()
{
    if i < 0 || i >= spec_taxonomy().len() {
        0
    } else {
        let here = cc_in(lt, spec_taxonomy()[i].alts, 0);
        let rest = cc_alt(lt, i + 1);
        if here + rest >= 2 {
            2
        } else {
            here + rest
        }
    }
}

/// The first fuzzy subcategory match in categories `i` onward.
pub open spec fn fc_sub(lt: Seq<char>, i: int) -> Option<(int, int)>
    decreases spec_taxonomy().len() - i when 0 <= i <= spec_taxonomy().len()
{
    if i < 0 || i >= spec_taxonomy().len() {
        None
    } else {
        let j = fc_in(lt, spec_taxonomy()[i].subs, 0);
        if j >= 0 {
            Some((i, j))
        } else {
            fc_sub(lt, i + 1)
        }
    }
}

/// The first fuzzy alternate match in categories `i` onward.
pub open spec fn fc_alt(lt: Seq<char>, i: int) -> Option<(int, int)>
    decreases spec_taxonomy().len() - i when 0 <= i <= spec_taxonomy().len()
{
    if i < 0 || i >= spec_taxonomy().len() {
        None
    } else {
        let j = fc_in(lt, spec_taxonomy()[i].alts, 0);
        if j >= 0 {
            Some((i, j))
        } else {
            fc_alt(lt, i + 1)
        }
    }
}

/// The record a main category resolves to: the category with all its
/// subcategories and alternates, sorted.
pub open spec fn sel_of_main(i: int) -> SelModel {
    let c = spec_taxonomy()[i];
    SelModel { cats: seq![c.name], subs: sp_sort_dedup(c.subs), alts: sp_sort_dedup(c.alts) }
}

/// The record a subcategory resolves to: its category and itself.
pub open spec fn sel_of_sub(i: int, j: int) -> SelModel {
    let c = spec_taxonomy()[i];
    SelModel { cats: seq![c.name], subs: seq![c.subs[j]], alts: Seq::empty() }
}

/// The record an alternate resolves to: its category, the synthetic
/// `"Other <Category>"` anchor, and itself.
pub open spec fn sel_of_alt(i: int, j: int) -> SelModel {
    let c = spec_taxonomy()[i];
    SelModel { cats: seq![c.name], subs: seq!["Other "@ + c.name], alts: seq![c.alts[j]] }
}

/// Resolution of one token against the taxonomy. A case-insensitive exact
/// match wins at each layer (main, then sub, then alternate); otherwise a
/// layer resolves when exactly one candidate lies within edit distance
/// three of the lowered token.
pub open spec fn spec_resolve(t: Seq<char>) -> Option<SelModel> {
    let lt = lower(t);
    if fe_in(lt, main_names(), 0) >= 0 {
        Some(sel_of_main(fe_in(lt, main_names(), 0)))
    } else if fe_sub(lt, 0) matches Some(p) {
        Some(sel_of_sub(fe_sub(lt, 0)->Some_0.0, fe_sub(lt, 0)->Some_0.1))
    } else if fe_alt(lt, 0) matches Some(p) {
        Some(sel_of_alt(fe_alt(lt, 0)->Some_0.0, fe_alt(lt, 0)->Some_0.1))
    } else if cc_in(lt, main_names(), 0) == 1 && fc_in(lt, main_names(), 0) >= 0 {
        Some(sel_of_main(fc_in(lt, main_names(), 0)))
    } else if cc_sub(lt, 0) == 1 && fc_sub(lt, 0) matches Some(p) {
        Some(sel_of_sub(fc_sub(lt, 0)->Some_0.0, fc_sub(lt, 0)->Some_0.1))
    } else if cc_alt(lt, 0) == 1 && fc_alt(lt, 0) matches Some(p) {
        Some(sel_of_alt(fc_alt(lt, 0)->Some_0.0, fc_alt(lt, 0)->Some_0.1))
    } else {
        None
    }
}

/// The ASCII-lowered form of a string.
fn lowered(s: &str) -> (r: String)
    ensures
        r@ == lower(s@),
{
    string_of(&lower_chars(&str_chars(s)))
}

/// Scan for the first exact match, back to front so that each step is one
/// unfolding of [`fe_in`].
#[verifier::loop_isolation(false)]
fn fe_in_exec(lt: &str, cands: &Vec<String>) -> (r: Option<usize>)
    ensures
        match r {
            Some(j) => fe_in(lt@, cands.deep_view(), 0) == j as int && j < cands@.len(),
            None => fe_in(lt@, cands.deep_view(), 0) == -1,
        },
{
    let ghost cv = cands.deep_view();
    let mut res: Option<usize> = None;
    let mut j: usize = cands.len();
    while j > 0
        invariant
            j <= cv.len(),
            match res {
                Some(k) => fe_in(lt@, cv, j as int) == k as int && k < cv.len(),
                None => fe_in(lt@, cv, j as int) == -1,
            },
        decreases j,
    {
        j -= 1;
        let cl = lowered(cands[j].as_str());
        proof {
            assert(cv[j as int] == cands@[j as int]@);
        }
        if str_eq(lt, cl.as_str()) {
            res = Some(j);
        }
    }
    res
}

/// Scan for the first fuzzy match, back to front.
#[verifier::loop_isolation(false)]
fn fc_in_exec(lt: &str, cands: &Vec<String>) -> (r: Option<usize>)
    ensures
        match r {
            Some(j) => fc_in(lt@, cands.deep_view(), 0) == j as int && j < cands@.len(),
            None => fc_in(lt@, cands.deep_view(), 0) == -1,
        },
{
    let ghost cv = cands.deep_view();
    let mut res: Option<usize> = None;
    let mut j: usize = cands.len();
    while j > 0
        invariant
            j <= cv.len(),
            match res {
                Some(k) => fc_in(lt@, cv, j as int) == k as int && k < cv.len(),
                None => fc_in(lt@, cv, j as int) == -1,
            },
        decreases j,
    {
        j -= 1;
        let cl = lowered(cands[j].as_str());
        proof {
            assert(cv[j as int] == cands@[j as int]@);
        }
        if within_three(lt, cl.as_str()) {
            res = Some(j);
        }
    }
    res
}

/// Count fuzzy matches, capped at two, back to front.
#[verifier::loop_isolation(false)]
fn cc_in_exec(lt: &str, cands: &Vec<String>) -> (c: u8)
    ensures
        c as int == cc_in(lt@, cands.deep_view(), 0),
        c <= 2,
{
    let ghost cv = cands.deep_view();
    let mut c: u8 = 0;
    let mut j: usize = cands.len();
    while j > 0
        invariant
            j <= cv.len(),
            c <= 2,
            c as int == cc_in(lt@, cv, j as int),
        decreases j,
    {
        j -= 1;
        let cl = lowered(cands[j].as_str());
        proof {
            assert(cv[j as int] == cands@[j as int]@);
        }
        if within_three(lt, cl.as_str()) {
            c = if c >= 2 {
                2
            } else {
                c + 1
            };
        }
    }
    c
}

/// Scan the taxonomy for the first exact subcategory match.
#[verifier::loop_isolation(false)]
fn fe_sub_exec(lt: &str, tax: &Vec<Category>) -> (r: Option<(usize, usize)>)
    requires
        views_of(tax@) == spec_taxonomy(),
    ensures
        match r {
            Some(p) => fe_sub(lt@, 0) == Some((p.0 as int, p.1 as int)) && p.0 < tax@.len()
                && p.1 < spec_taxonomy()[p.0 as int].subs.len(),
            None => fe_sub(lt@, 0) == None::<(int, int)>,
        },
{
    let mut res: Option<(usize, usize)> = None;
    let mut i: usize = tax.len();
    proof {
        assert(views_of(tax@).len() == tax@.len());
    }
    while i > 0
        invariant
            i <= tax@.len(),
            match res {
                Some(p) => fe_sub(lt@, i as int) == Some((p.0 as int, p.1 as int)) && p.0
                    < tax@.len() && p.1 < spec_taxonomy()[p.0 as int].subs.len(),
                None => fe_sub(lt@, i as int) == None::<(int, int)>,
            },
        decreases i,
    {
        i -= 1;
        proof {
            assert(views_of(tax@)[i as int] == tax@[i as int]@);
        }
        match fe_in_exec(lt, &tax[i].subcategories) {
            Some(j) => {
                res = Some((i, j));
            },
            None => {},
        }
    }
    res
}

/// Scan the taxonomy for the first exact alternate match.
#[verifier::loop_isolation(false)]
fn fe_alt_exec(lt: &str, tax: &Vec<Category>) -> (r: Option<(usize, usize)>)
    requires
        views_of(tax@) == spec_taxonomy(),
    ensures
        match r {
            Some(p) => fe_alt(lt@, 0) == Some((p.0 as int, p.1 as int)) && p.0 < tax@.len()
                && p.1 < spec_taxonomy()[p.0 as int].alts.len(),
            None => fe_alt(lt@, 0) == None::<(int, int)>,
        },
{
    let mut res: Option<(usize, usize)> = None;
    let mut i: usize = tax.len();
    proof {
        assert(views_of(tax@).len() == tax@.len());
    }
    while i > 0
        invariant
            i <= tax@.len(),
            match res {
                Some(p) => fe_alt(lt@, i as int) == Some((p.0 as int, p.1 as int)) && p.0
                    < tax@.len() && p.1 < spec_taxonomy()[p.0 as int].alts.len(),
                None => fe_alt(lt@, i as int) == None::<(int, int)>,
            },
        decreases i,
    {
        i -= 1;
        proof {
            assert(views_of(tax@)[i as int] == tax@[i as int]@);
        }
        match fe_in_exec(lt, &tax[i].alternate_subcategories) {
            Some(j) => {
                res = Some((i, j));
            },
            None => {},
        }
    }
    res
}

/// Scan the taxonomy for the first fuzzy subcategory match.
#[verifier::loop_isolation(false)]
fn fc_sub_exec(lt: &str, tax: &Vec<Category>) -> (r: Option<(usize, usize)>)
    requires
        views_of(tax@) == spec_taxonomy(),
    ensures
        match r {
            Some(p) => fc_sub(lt@, 0) == Some((p.0 as int, p.1 as int)) && p.0 < tax@.len()
                && p.1 < spec_taxonomy()[p.0 as int].subs.len(),
            None => fc_sub(lt@, 0) == None::<(int, int)>,
        },
{
    let mut res: Option<(usize, usize)> = None;
    let mut i: usize = tax.len();
    proof {
        assert(views_of(tax@).len() == tax@.len());
    }
    while i > 0
        invariant
            i <= tax@.len(),
            match res {
                Some(p) => fc_sub(lt@, i as int) == Some((p.0 as int, p.1 as int)) && p.0
                    < tax@.len() && p.1 < spec_taxonomy()[p.0 as int].subs.len(),
                None => fc_sub(lt@, i as int) == None::<(int, int)>,
            },
        decreases i,
    {
        i -= 1;
        proof {
            assert(views_of(tax@)[i as int] == tax@[i as int]@);
        }
        match fc_in_exec(lt, &tax[i].subcategories) {
            Some(j) => {
                res = Some((i, j));
            },
            None => {},
        }
    }
    res
}

/// Scan the taxonomy for the first fuzzy alternate match.
#[verifier::loop_isolation(false)]
fn fc_alt_exec(lt: &str, tax: &Vec<Category>) -> (r: Option<(usize, usize)>)
    requires
        views_of(tax@) == spec_taxonomy(),
    ensures
        match r {
            Some(p) => fc_alt(lt@, 0) == Some((p.0 as int, p.1 as int)) && p.0 < tax@.len()
                && p.1 < spec_taxonomy()[p.0 as int].alts.len(),
            None => fc_alt(lt@, 0) == None::<(int, int)>,
        },
{
    let mut res: Option<(usize, usize)> = None;
    let mut i: usize = tax.len();
    proof {
        assert(views_of(tax@).len() == tax@.len());
    }
    while i > 0
        invariant
            i <= tax@.len(),
            match res {
                Some(p) => fc_alt(lt@, i as int) == Some((p.0 as int, p.1 as int)) && p.0
                    < tax@.len() && p.1 < spec_taxonomy()[p.0 as int].alts.len(),
                None => fc_alt(lt@, i as int) == None::<(int, int)>,
            },
        decreases i,
    {
        i -= 1;
        proof {
            assert(views_of(tax@)[i as int] == tax@[i as int]@);
        }
        match fc_in_exec(lt, &tax[i].alternate_subcategories) {
            Some(j) => {
                res = Some((i, j));
            },
            None => {},
        }
    }
    res
}

/// Count fuzzy subcategory matches over the taxonomy, capped at two.
#[verifier::loop_isolation(false)]
fn cc_sub_exec(lt: &str, tax: &Vec<Category>) -> (c: u8)
    requires
        views_of(tax@) == spec_taxonomy(),
    ensures
        c as int == cc_sub(lt@, 0),
{
    let mut c: u8 = 0;
    let mut i: usize = tax.len();
    proof {
        assert(views_of(tax@).len() == tax@.len());
    }
    while i > 0
        invariant
            i <= tax@.len(),
            c <= 2,
            c as int == cc_sub(lt@, i as int),
        decreases i,
    {
        i -= 1;
        proof {
            assert(views_of(tax@)[i as int] == tax@[i as int]@);
        }
        let here = cc_in_exec(lt, &tax[i].subcategories);
        c = if here + c >= 2 {
            2
        } else {
            here + c
        };
    }
    c
}

/// Count fuzzy alternate matches over the taxonomy, capped at two.
#[verifier::loop_isolation(false)]
fn cc_alt_exec(lt: &str, tax: &Vec<Category>) -> (c: u8)
    requires
        views_of(tax@) == spec_taxonomy(),
    ensures
        c as int == cc_alt(lt@, 0),
{
    let mut c: u8 = 0;
    let mut i: usize = tax.len();
    proof {
        assert(views_of(tax@).len() == tax@.len());
    }
    while i > 0
        invariant
            i <= tax@.len(),
            c <= 2,
            c as int == cc_alt(lt@, i as int),
        decreases i,
    {
        i -= 1;
        proof {
            assert(views_of(tax@)[i as int] == tax@[i as int]@);
        }
        let here = cc_in_exec(lt, &tax[i].alternate_subcategories);
        c = if here + c >= 2 {
            2
        } else {
            here + c
        };
    }
    c
}

/// One name as a singleton list.
fn one_name(x: String) -> (r: Vec<String>)
    ensures
        r.deep_view() == seq![x@],
{
    let mut r: Vec<String> = Vec::new();
    r.push(x);
    proof {
        assert(r.deep_view() =~= seq![x@]);
    }
    r
}

/// The record a main category resolves to.
fn sel_main(tax: &Vec<Category>, i: usize) -> (s: Selection)
    requires
        views_of(tax@) == spec_taxonomy(),
        i < tax@.len(),
    ensures
        s@ == sel_of_main(i as int),
{
    proof {
        assert(views_of(tax@)[i as int] == tax@[i as int]@);
    }
    let s = Selection {
        categories: one_name(tax[i].name.clone()),
        subcategories: sort_dedup_list(&tax[i].subcategories),
        alternate_subcategories: sort_dedup_list(&tax[i].alternate_subcategories),
    };
    proof {
        assert(s@ =~~= sel_of_main(i as int));
    }
    s
}

/// The record a subcategory resolves to.
fn sel_sub(tax: &Vec<Category>, i: usize, j: usize) -> (s: Selection)
    requires
        views_of(tax@) == spec_taxonomy(),
        i < tax@.len(),
        j < spec_taxonomy()[i as int].subs.len(),
    ensures
        s@ == sel_of_sub(i as int, j as int),
{
    proof {
        assert(views_of(tax@)[i as int] == tax@[i as int]@);
    }
    let s = Selection {
        categories: one_name(tax[i].name.clone()),
        subcategories: one_name(tax[i].subcategories[j].clone()),
        alternate_subcategories: Vec::new(),
    };
    proof {
        assert(s.alternate_subcategories.deep_view() =~= Seq::<Seq<char>>::empty());
        assert(tax@[i as int].subcategories.deep_view()[j as int] == tax@[i as int].subcategories@[
            j as int
        ]@);
        assert(s@ =~~= sel_of_sub(i as int, j as int));
    }
    s
}

/// The record an alternate subcategory resolves to.
fn sel_alt(tax: &Vec<Category>, i: usize, j: usize) -> (s: Selection)
    requires
        views_of(tax@) == spec_taxonomy(),
        i < tax@.len(),
        j < spec_taxonomy()[i as int].alts.len(),
    ensures
        s@ == sel_of_alt(i as int, j as int),
{
    proof {
        assert(views_of(tax@)[i as int] == tax@[i as int]@);
    }
    let anchor = String::from_str("Other ").concat(tax[i].name.as_str());
    let s = Selection {
        categories: one_name(tax[i].name.clone()),
        subcategories: one_name(anchor),
        alternate_subcategories: one_name(tax[i].alternate_subcategories[j].clone()),
    };
    proof {
        assert(tax@[i as int].alternate_subcategories.deep_view()[j as int] == tax@[
            i as int
        ].alternate_subcategories@[j as int]@);
        assert(s@ =~~= sel_of_alt(i as int, j as int));
    }
    s
}

/// The main category names, as data.
fn main_names_exec(tax: &Vec<Category>) -> (r: Vec<String>)
    requires
        views_of(tax@) == spec_taxonomy(),
    ensures
        r.deep_view() == main_names(),
{
    let mut r: Vec<String> = Vec::new();
    let mut i: usize = 0;
    proof {
        assert(views_of(tax@).len() == tax@.len());
    }
    while i < tax.len()
        invariant
            views_of(tax@) == spec_taxonomy(),
            i <= tax@.len(),
            r.deep_view() == main_names().take(i as int),
        decreases tax@.len() - i,
    {
        let ghost pre = r.deep_view();
        r.push(tax[i].name.clone());
        i += 1;
        proof {
            assert(views_of(tax@)[i - 1] == tax@[i - 1]@);
            assert(r.deep_view() =~~= pre.push(tax@[i - 1]@.name));
            assert(r.deep_view() =~= main_names().take(i as int));
        }
    }
    proof {
        assert(main_names().take(main_names().len() as int) =~= main_names());
    }
    r
}

/// Resolve one token against the taxonomy: a case-insensitive exact match
/// wins at each layer (main category, subcategory, alternate); otherwise a
/// layer resolves when exactly one of its candidates lies within edit
/// distance three of the lowered token.
#[verifier::loop_isolation(false)]
pub fn resolve_token(t: &str, tax: &Vec<Category>) -> (r: Option<Selection>)
    requires
        views_of(tax@) == spec_taxonomy(),
    ensures
        match r {
            Some(sel) => spec_resolve(t@) == Some(sel@),
            None => spec_resolve(t@) == None::<SelModel>,
        },
{
    let lt = lowered(t);
    let mains = main_names_exec(tax);
    if let Some(i) = fe_in_exec(lt.as_str(), &mains) {
        proof {
            assert(main_names().len() == spec_taxonomy().len());
        }
        return Some(sel_main(tax, i));
    }
    if let Some(p) = fe_sub_exec(lt.as_str(), tax) {
        return Some(sel_sub(tax, p.0, p.1));
    }
    if let Some(p) = fe_alt_exec(lt.as_str(), tax) {
        return Some(sel_alt(tax, p.0, p.1));
    }
    if cc_in_exec(lt.as_str(), &mains) == 1 {
        if let Some(i) = fc_in_exec(lt.as_str(), &mains) {
            proof {
                assert(main_names().len() == spec_taxonomy().len());
            }
            return Some(sel_main(tax, i));
        }
    }
    if cc_sub_exec(lt.as_str(), tax) == 1 {
        if let Some(p) = fc_sub_exec(lt.as_str(), tax) {
            return Some(sel_sub(tax, p.0, p.1));
        }
    }
    if cc_alt_exec(lt.as_str(), tax) == 1 {
        if let Some(p) = fc_alt_exec(lt.as_str(), tax) {
            return Some(sel_alt(tax, p.0, p.1));
        }
    }
    None
}

/// Whether a record constrains more than its main categories.
pub open spec fn sel_specific(s: SelModel) -> bool {
    s.subs.len() > 0 || s.alts.len() > 0
}

/// The record of `x + y`: the union in every dimension.
pub open spec fn spec_or_sel(va: SelModel, vb: SelModel) -> SelModel {
    SelModel {
        cats: sp_union(va.cats, vb.cats),
        subs: sp_union(va.subs, vb.subs),
        alts: sp_union(va.alts, vb.alts),
    }
}

/// The record of `x & y` when the categories intersect: the more specific
/// side's constraints, both sides' union when both are specific, and none
/// when neither is.
pub open spec fn spec_and_sel(va: SelModel, vb: SelModel) -> SelModel {
    let cc = sp_inter(va.cats, vb.cats);
    let ls = sel_specific(va);
    let rs = sel_specific(vb);
    if !ls && rs {
        SelModel { cats: cc, subs: vb.subs, alts: vb.alts }
    } else if ls && !rs {
        SelModel { cats: cc, subs: va.subs, alts: va.alts }
    } else if ls && rs {
        SelModel { cats: cc, subs: sp_union(va.subs, vb.subs), alts: sp_union(va.alts, vb.alts) }
    } else {
        SelModel { cats: cc, subs: Seq::empty(), alts: Seq::empty() }
    }
}

/// The record of a validated expression, or the first error: names resolve
/// through [`spec_resolve`], `+` unions, `&` intersects categories, and `-`
/// subtracts within common categories or else at the category level.
pub open spec fn spec_validate(e: ExprModel) -> Result<SelModel, QErrModel>
    decreases e,
{
    match e {
        ExprModel::Token(t) => match spec_resolve(t) {
            Some(s) => Result::Ok(s),
            None => Result::Err(QErrModel::InvalidCategory(t)),
        },
        ExprModel::Or(a, b) => match spec_validate(*a) {
            Result::Ok(va) => match spec_validate(*b) {
                Result::Ok(vb) => Result::Ok(spec_or_sel(va, vb)),
                Result::Err(q) => Result::Err(q),
            },
            Result::Err(q) => Result::Err(q),
        },
        ExprModel::And(a, b) => match spec_validate(*a) {
            Result::Ok(va) => match spec_validate(*b) {
                Result::Ok(vb) => {
                    if sp_inter(va.cats, vb.cats).len() == 0 {
                        Result::Err(
                            QErrModel::ImpossibleBranch(
                                spec_render(*a) + " & "@ + spec_render(*b),
                            ),
                        )
                    } else {
                        Result::Ok(spec_and_sel(va, vb))
                    }
                },
                Result::Err(q) => Result::Err(q),
            },
            Result::Err(q) => Result::Err(q),
        },
        ExprModel::Not(a, b) => match spec_validate(*a) {
            Result::Ok(va) => match spec_validate(*b) {
                Result::Ok(vb) => {
                    let common = sp_inter(va.cats, vb.cats);
                    if common.len() > 0 {
                        let r = SelModel {
                            cats: common,
                            subs: sp_diff(va.subs, vb.subs),
                            alts: sp_diff(va.alts, vb.alts),
                        };
                        if r.cats.len() == 0 && r.subs.len() == 0 && r.alts.len() == 0 {
                            Result::Err(
                                QErrModel::ImpossibleBranch(
                                    spec_render(*a) + " - "@ + spec_render(*b),
                                ),
                            )
                        } else {
                            Result::Ok(r)
                        }
                    } else {
                        let cats = sp_diff(va.cats, vb.cats);
                        if cats.len() == 0 {
                            Result::Err(
                                QErrModel::ImpossibleBranch(
                                    spec_render(*a) + " - "@ + spec_render(*b),
                                ),
                            )
                        } else {
                            Result::Ok(SelModel { cats: cats, subs: va.subs, alts: va.alts })
                        }
                    }
                },
                Result::Err(q) => Result::Err(q),
            },
            Result::Err(q) => Result::Err(q),
        },
    }
}

/// The rendering of `a OP b` for an impossible-branch message.
fn render_pair(a: &Expr, op: &str, b: &Expr) -> (r: String)
    ensures
        r@ == spec_render(a@) + op@ + spec_render(b@),
{
    let mut m = a.render();
    m.append(op);
    m.append(b.render().as_str());
    proof {
        assert(m@ =~= spec_render(a@) + op@ + spec_render(b@));
    }
    m
}

/// Validate an expression tree against the taxonomy and evaluate its set
/// algebra into one selection record.
fn validate(e: &Expr, tax: &Vec<Category>) -> (r: Result<Selection, QueryError>)
    requires
        views_of(tax@) == spec_taxonomy(),
    ensures
        match r {
            Result::Ok(s) => spec_validate(e@) == Result::<SelModel, QErrModel>::Ok(s@),
            Result::Err(q) => spec_validate(e@) == Result::<SelModel, QErrModel>::Err(q@),
        },
    decreases e,
{
    match e {
        Expr::Token(t) => match resolve_token(t.as_str(), tax) {
            Some(s) => Ok(s),
            None => Err(QueryError::InvalidCategory(t.clone())),
        },
        Expr::Or(a, b) => {
            let va = match validate(&*a, tax) {
                Ok(v) => v,
                Err(q) => {
                    return Err(q);
                },
            };
            let vb = match validate(&*b, tax) {
                Ok(v) => v,
                Err(q) => {
                    return Err(q);
                },
            };
            let s = Selection {
                categories: union_lists(&va.categories, &vb.categories),
                subcategories: union_lists(&va.subcategories, &vb.subcategories),
                alternate_subcategories: union_lists(
                    &va.alternate_subcategories,
                    &vb.alternate_subcategories,
                ),
            };
            proof {
                assert(s@ =~~= spec_or_sel(va@, vb@));
            }
            Ok(s)
        },
        Expr::And(a, b) => {
            let va = match validate(&*a, tax) {
                Ok(v) => v,
                Err(q) => {
                    return Err(q);
                },
            };
            let vb = match validate(&*b, tax) {
                Ok(v) => v,
                Err(q) => {
                    return Err(q);
                },
            };
            let cc = inter_lists(&va.categories, &vb.categories);
            if cc.len() == 0 {
                return Err(QueryError::ImpossibleBranch(render_pair(&*a, " & ", &*b)));
            }
            let ls = va.subcategories.len() > 0 || va.alternate_subcategories.len() > 0;
            let rs = vb.subcategories.len() > 0 || vb.alternate_subcategories.len() > 0;
            let s = if !ls && rs {
                Selection {
                    categories: cc,
                    subcategories: vb.subcategories,
                    alternate_subcategories: vb.alternate_subcategories,
                }
            } else if ls && !rs {
                Selection {
                    categories: cc,
                    subcategories: va.subcategories,
                    alternate_subcategories: va.alternate_subcategories,
                }
            } else if ls && rs {
                Selection {
                    categories: cc,
                    subcategories: union_lists(&va.subcategories, &vb.subcategories),
                    alternate_subcategories: union_lists(
                        &va.alternate_subcategories,
                        &vb.alternate_subcategories,
                    ),
                }
            } else {
                let none_s: Vec<String> = Vec::new();
                let none_a: Vec<String> = Vec::new();
                proof {
                    assert(none_s.deep_view() =~= Seq::<Seq<char>>::empty());
                    assert(none_a.deep_view() =~= Seq::<Seq<char>>::empty());
                }
                Selection {
                    categories: cc,
                    subcategories: none_s,
                    alternate_subcategories: none_a,
                }
            };
            proof {
                assert(s@ =~~= spec_and_sel(va@, vb@));
            }
            Ok(s)
        },
        Expr::Not(a, b) => {
            let va = match validate(&*a, tax) {
                Ok(v) => v,
                Err(q) => {
                    return Err(q);
                },
            };
            let vb = match validate(&*b, tax) {
                Ok(v) => v,
                Err(q) => {
                    return Err(q);
                },
            };
            let common = inter_lists(&va.categories, &vb.categories);
            if common.len() > 0 {
                let s = Selection {
                    categories: common,
                    subcategories: diff_lists(&va.subcategories, &vb.subcategories),
                    alternate_subcategories: diff_lists(
                        &va.alternate_subcategories,
                        &vb.alternate_subcategories,
                    ),
                };
                if s.categories.len() == 0 && s.subcategories.len() == 0
                    && s.alternate_subcategories.len() == 0 {
                    Err(QueryError::ImpossibleBranch(render_pair(&*a, " - ", &*b)))
                } else {
                    Ok(s)
                }
            } else {
                let cats = diff_lists(&va.categories, &vb.categories);
                if cats.len() == 0 {
                    Err(QueryError::ImpossibleBranch(render_pair(&*a, " - ", &*b)))
                } else {
                    Ok(
                        Selection {
                            categories: cats,
                            subcategories: va.subcategories,
                            alternate_subcategories: va.alternate_subcategories,
                        },
                    )
                }
            }
        },
    }
}

/// The validated record of a whole query line, or its first error.
pub open spec fn spec_parse_query(input: Seq<char>) -> Result<SelModel, QErrModel> {
    match sp_parse(spec_tokenize(input)) {
        Result::Ok(e) => spec_validate(e),
        Result::Err(q) => Result::Err(q),
    }
}

/// A validated query, ready to become request parameters: the three name
/// lists and how many questions to fetch.
#[derive(Debug, PartialEq)]
pub struct ApiQuery {
    /// Main categories to include.
    pub categories: Vec<String>,
    /// Subcategories to include.
    pub subcategories: Vec<String>,
    /// Alternate subcategories to include.
    pub alternate_subcategories: Vec<String>,
    /// How many questions to fetch.
    pub number: u32,
}

impl View for ApiQuery {
    type V = SelModel;

    open spec fn view(&self) -> SelModel {
        SelModel {
            cats: self.categories.deep_view(),
            subs: self.subcategories.deep_view(),
            alts: self.alternate_subcategories.deep_view(),
        }
    }
}

impl Default for ApiQuery {
    /// An empty selection asking for one question.
    fn default() -> (r: Self)
        ensures
            r@.cats.len() == 0,
            r@.subs.len() == 0,
            r@.alts.len() == 0,
            r.number == 1,
    {
        ApiQuery {
            categories: Vec::new(),
            subcategories: Vec::new(),
            alternate_subcategories: Vec::new(),
            number: 1,
        }
    }
}

/// Validate a parsed expression into query parameters asking for one
/// question.
fn build_api_query(expr: &Expr) -> (r: Result<ApiQuery, QueryError>)
    ensures
        match r {
            Result::Ok(q) => spec_validate(expr@) == Result::<SelModel, QErrModel>::Ok(q@)
                && q.number == 1,
            Result::Err(q) => spec_validate(expr@) == Result::<SelModel, QErrModel>::Err(q@),
        },
{
    let tax = taxonomy();
    match validate(expr, &tax) {
        Ok(s) => {
            let q = ApiQuery {
                categories: s.categories,
                subcategories: s.subcategories,
                alternate_subcategories: s.alternate_subcategories,
                number: 1,
            };
            proof {
                assert(q@ =~~= spec_validate(expr@)->Ok_0);
            }
            Ok(q)
        },
        Err(q) => Err(q),
    }
}

/// Parse a query line into query parameters: tokenize, parse and validate.
/// `Ok` exactly when the line is grammatical and every name resolves and
/// the set algebra selects something; the first error otherwise.
pub fn parse_query(query_str: &str) -> (r: Result<ApiQuery, QueryError>)
    ensures
        match r {
            Result::Ok(q) => spec_parse_query(query_str@) == Result::<SelModel, QErrModel>::Ok(q@)
                && q.number == 1,
            Result::Err(e) => spec_parse_query(query_str@) == Result::<SelModel, QErrModel>::Err(
                e@,
            ),
        },
{
    let mut tokens = tokenize(query_str);
    match parse_expr(&mut tokens) {
        Ok(e) => build_api_query(&e),
        Err(q) => Err(q),
    }
}

/// The check behind [`lemma_main_category_resolves`], for one category:
/// the category's own name, lowered, exactly matches it and no earlier one.
pub open spec fn main_resolves_exactly(i: int) -> bool {
    fe_in(lower(spec_taxonomy()[i].name), main_names(), 0) == i
}

/// The check behind [`lemma_subcategory_resolves`], for one subcategory:
/// its lowered name matches no main category and its first exact
/// subcategory match is itself.
pub open spec fn sub_resolves_exactly(i: int, j: int) -> bool {
    let lt = lower(spec_taxonomy()[i].subs[j]);
    fe_in(lt, main_names(), 0) == -1 && fe_sub(lt, 0) == Some((i, j))
}

/// The check behind [`lemma_alternate_resolves`], for one alternate: its
/// lowered name matches no main category or subcategory and its first
/// exact alternate match is itself.
pub open spec fn alt_resolves_exactly(i: int, j: int) -> bool {
    let lt = lower(spec_taxonomy()[i].alts[j]);
    fe_in(lt, main_names(), 0) == -1 && fe_sub(lt, 0) == None::<(int, int)> && fe_alt(lt, 0)
        == Some((i, j))
}

/// Whether an alternate's name is also a subcategory name, which the
/// subcategory layer then wins.
pub open spec fn alt_shadowed_by_sub(i: int, j: int) -> bool {
    fe_sub(lower(spec_taxonomy()[i].alts[j]), 0) matches Some(p)
}

/// Every main category name resolves to its own category, with all its
/// subcategories and alternates.
pub proof fn lemma_main_category_resolves(i: int)
    requires
        0 <= i < spec_taxonomy().len(),
    ensures
        spec_resolve(spec_taxonomy()[i].name) == Some(sel_of_main(i)),
        spec_validate(ExprModel::Token(spec_taxonomy()[i].name)) == Result::<
            SelModel,
            QErrModel,
        >::Ok(sel_of_main(i)),
{
    crate::resolve_facts::main_resolves(i);
}

/// Every subcategory name resolves to its category and itself alone.
pub proof fn lemma_subcategory_resolves(i: int, j: int)
    requires
        0 <= i < spec_taxonomy().len(),
        0 <= j < spec_taxonomy()[i].subs.len(),
    ensures
        spec_resolve(spec_taxonomy()[i].subs[j]) == Some(sel_of_sub(i, j)),
        spec_validate(ExprModel::Token(spec_taxonomy()[i].subs[j])) == Result::<
            SelModel,
            QErrModel,
        >::Ok(sel_of_sub(i, j)),
{
    crate::resolve_facts::sub_resolves(i, j);
}

/// Every alternate name that is not also a subcategory name resolves to
/// its category, the `"Other <Category>"` anchor, and itself.
pub proof fn lemma_alternate_resolves(i: int, j: int)
    requires
        0 <= i < spec_taxonomy().len(),
        0 <= j < spec_taxonomy()[i].alts.len(),
        !alt_shadowed_by_sub(i, j),
    ensures
        spec_resolve(spec_taxonomy()[i].alts[j]) == Some(sel_of_alt(i, j)),
        spec_validate(ExprModel::Token(spec_taxonomy()[i].alts[j])) == Result::<
            SelModel,
            QErrModel,
        >::Ok(sel_of_alt(i, j)),
{
    crate::resolve_facts::alt_resolves(i, j);
}


/// An extra space beside an existing one (or at either end of the line)
/// does not change the tokens: whitespace only separates.
pub proof fn lemma_tokenize_extra_space(x: Seq<char>, y: Seq<char>, buf: Seq<char>)
    requires
        y.len() == 0 || y[0] == ' ',
    ensures
        spec_tokenize_rec(x + seq![' '] + y, buf) == spec_tokenize_rec(x + y, buf),
    decreases x.len(),
{
    if x.len() == 0 {
        let l = x + seq![' '] + y;
        assert(l[0] == ' ');
        assert(l.skip(1) =~= y);
        assert(spec_tokenize_rec(l, buf) == flush_buf(buf) + spec_tokenize_rec(y, Seq::empty()));
        assert(spec_trim(Seq::<char>::empty()).len() == 0);
        if y.len() == 0 {
            assert(x + y =~= Seq::<char>::empty());
            assert(spec_tokenize_rec(y, Seq::empty()) == flush_buf(Seq::empty()));
            assert(flush_buf(buf) + flush_buf(Seq::empty()) =~= flush_buf(buf));
            assert(spec_tokenize_rec(x + y, buf) == flush_buf(buf));
        } else {
            assert(x + y =~= y);
            assert(y[0] == ' ');
            assert(spec_tokenize_rec(y, Seq::empty()) == flush_buf(Seq::empty())
                + spec_tokenize_rec(y.skip(1), Seq::empty()));
            assert(flush_buf(buf) + (flush_buf(Seq::empty()) + spec_tokenize_rec(
                y.skip(1),
                Seq::empty(),
            )) =~= flush_buf(buf) + spec_tokenize_rec(y.skip(1), Seq::empty()));
            assert(spec_tokenize_rec(x + y, buf) == flush_buf(buf) + spec_tokenize_rec(
                y.skip(1),
                Seq::empty(),
            ));
        }
    } else {
        let l = x + seq![' '] + y;
        let r = x + y;
        assert(l[0] == x[0] && r[0] == x[0]);
        assert(l.skip(1) =~= x.skip(1) + seq![' '] + y);
        assert(r.skip(1) =~= x.skip(1) + y);
        lemma_tokenize_extra_space(x.skip(1), y, Seq::empty());
        lemma_tokenize_extra_space(x.skip(1), y, buf.push(x[0]));
    }
}

/// Resolution is case-insensitive: tokens with the same lowered form
/// resolve alike.
pub proof fn lemma_resolve_case_insensitive(t1: Seq<char>, t2: Seq<char>)
    requires
        lower(t1) == lower(t2),
    ensures
        spec_resolve(t1) == spec_resolve(t2),
{
}

/// A validated record is sorted and duplicate-free in each dimension.
pub proof fn lemma_validate_sorted(e: ExprModel)
    ensures
        spec_validate(e) matches Result::Ok(s) ==> sorted_unique(s.cats) && sorted_unique(s.subs)
            && sorted_unique(s.alts),
    decreases e,
{
    match e {
        ExprModel::Token(t) => {
            if spec_validate(e) is Ok {
                let lt = lower(t);
                if fe_in(lt, main_names(), 0) >= 0 {
                    let c = spec_taxonomy()[fe_in(lt, main_names(), 0)];
                    lemma_sort_dedup_props(c.subs);
                    lemma_sort_dedup_props(c.alts);
                } else if cc_in(lt, main_names(), 0) == 1 && fc_in(lt, main_names(), 0) >= 0 {
                    let c = spec_taxonomy()[fc_in(lt, main_names(), 0)];
                    lemma_sort_dedup_props(c.subs);
                    lemma_sort_dedup_props(c.alts);
                }
            }
        },
        ExprModel::Or(a, b) => {
            lemma_validate_sorted(*a);
            lemma_validate_sorted(*b);
            if spec_validate(*a) is Ok && spec_validate(*b) is Ok {
                let va = spec_validate(*a)->Ok_0;
                let vb = spec_validate(*b)->Ok_0;
                lemma_sort_dedup_props(va.cats + vb.cats);
                lemma_sort_dedup_props(va.subs + vb.subs);
                lemma_sort_dedup_props(va.alts + vb.alts);
            }
        },
        ExprModel::And(a, b) => {
            lemma_validate_sorted(*a);
            lemma_validate_sorted(*b);
            if spec_validate(*a) is Ok && spec_validate(*b) is Ok {
                let va = spec_validate(*a)->Ok_0;
                let vb = spec_validate(*b)->Ok_0;
                lemma_filter_sorted(va.cats, vb.cats);
                lemma_sort_dedup_props(va.subs + vb.subs);
                lemma_sort_dedup_props(va.alts + vb.alts);
            }
        },
        ExprModel::Not(a, b) => {
            lemma_validate_sorted(*a);
            lemma_validate_sorted(*b);
            if spec_validate(*a) is Ok && spec_validate(*b) is Ok {
                let va = spec_validate(*a)->Ok_0;
                let vb = spec_validate(*b)->Ok_0;
                lemma_filter_sorted(va.cats, vb.cats);
                lemma_filter_sorted(va.subs, vb.subs);
                lemma_filter_sorted(va.alts, vb.alts);
            }
        },
    }
}

/// Union of queries does not depend on their order: when both sides
/// validate, `x + y` and `y + x` give the same record.
pub proof fn lemma_or_commutative(a: ExprModel, b: ExprModel)
    requires
        spec_validate(a) matches Result::Ok(va),
        spec_validate(b) matches Result::Ok(vb),
    ensures
        spec_validate(ExprModel::Or(Box::new(a), Box::new(b))) == spec_validate(
            ExprModel::Or(Box::new(b), Box::new(a)),
        ),
{
    let va = spec_validate(a)->Ok_0;
    let vb = spec_validate(b)->Ok_0;
    lemma_union_commutative(va.cats, vb.cats);
    lemma_union_commutative(va.subs, vb.subs);
    lemma_union_commutative(va.alts, vb.alts);
    assert(spec_or_sel(va, vb) =~~= spec_or_sel(vb, va));
}

/// Union of a query with itself changes nothing: `x + x` selects what `x`
/// selects, and fails exactly when `x` fails.
pub proof fn lemma_or_idempotent(e: ExprModel)
    ensures
        spec_validate(ExprModel::Or(Box::new(e), Box::new(e))) == spec_validate(e),
{
    if spec_validate(e) is Ok {
        let s = spec_validate(e)->Ok_0;
        lemma_validate_sorted(e);
        lemma_union_idempotent(s.cats);
        lemma_union_idempotent(s.subs);
        lemma_union_idempotent(s.alts);
        assert(spec_or_sel(s, s) =~~= s);
    }
}

} // verus!
