//! The answer grader's deterministic pipeline.
//!
//! Layer one compares the user's answer against the canonical answer with
//! its trailing parenthesized or bracketed clause stripped, by normalised
//! edit distance. Layer two compares against each tag-marked span of the
//! raw answer. What neither layer decides goes to an outside judge, whose
//! reply [`classify_reply`] post-processes: a leading `<think>…</think>`
//! block is stripped, the rest trimmed and read as a verdict. Character
//! classes (whitespace, word characters, case) are the ASCII ones.

use vstd::prelude::*;

use crate::fuzzy::{close_match, spec_close_match};
use crate::text::{
    extend_chars, has_sub, is_space, is_space_char, lower, matches_at, replace_chars, spec_replace,
    spec_trim, str_chars, str_eq, string_of, sub_chars, trim_chars,
};

verus! {

/// What grading decides: correct, incorrect with the judge's reply kept,
/// or a prompt asking the same contestant to be more specific.
#[derive(Debug, Clone, PartialEq)]
pub enum Response {
    Correct,
    Incorrect(String),
    Prompt(String),
}

/// The shape of a verdict.
#[verifier::ext_equal]
pub enum RespModel {
    Correct,
    Incorrect(Seq<char>),
    Prompt(Seq<char>),
}

impl View for Response {
    type V = RespModel;

    open spec fn view(&self) -> RespModel {
        match self {
            Response::Correct => RespModel::Correct,
            Response::Incorrect(t) => RespModel::Incorrect(t@),
            Response::Prompt(t) => RespModel::Prompt(t@),
        }
    }
}

/// Whether a run of whitespace starting at `j` reaches a `(` or `[`.
pub open spec fn bracket_after_spaces(s: Seq<char>, j: int) -> bool
    decreases s.len() - j when 0 <= j <= s.len()
{
    if j < 0 || j >= s.len() {
        false
    } else if s[j] == '(' || s[j] == '[' {
        true
    } else if is_space_char(s[j]) {
        bracket_after_spaces(s, j + 1)
    } else {
        false
    }
}

/// Whether the trailing clause starts at `i`: whitespace leading to an
/// opening bracket.
pub open spec fn clause_starts_at(s: Seq<char>, i: int) -> bool {
    0 <= i < s.len() && is_space_char(s[i]) && bracket_after_spaces(s, i + 1)
}

/// The first index where a trailing clause starts, from `i` on, or -1.
pub open spec fn clause_from(s: Seq<char>, i: int) -> int
    decreases s.len() - i when 0 <= i <= s.len()
{
    if i < 0 || i >= s.len() {
        -1
    } else if clause_starts_at(s, i) {
        i
    } else {
        clause_from(s, i + 1)
    }
}

/// The canonical answer with any trailing parenthesized or bracketed
/// clause removed: everything from the first whitespace that leads to a
/// `(` or `[` is dropped.
pub open spec fn spec_strip_clause(s: Seq<char>) -> Seq<char> {
    if clause_from(s, 0) >= 0 {
        s.take(clause_from(s, 0))
    } else {
        s
    }
}

/// Whether a run of whitespace starting at `j` reaches a bracket.
#[verifier::loop_isolation(false)]
fn bracket_after_spaces_exec(v: &Vec<char>, j: usize) -> (r: bool)
    requires
        j <= v@.len(),
    ensures
        r == bracket_after_spaces(v@, j as int),
    decreases v@.len() - j,
{
    if j >= v.len() {
        false
    } else if v[j] == '(' || v[j] == '[' {
        true
    } else if is_space(v[j]) {
        bracket_after_spaces_exec(v, j + 1)
    } else {
        false
    }
}

/// The canonical answer with any trailing clause removed.
#[verifier::loop_isolation(false)]
pub fn strip_trailing_clause(v: &Vec<char>) -> (r: Vec<char>)
    ensures
        r@ == spec_strip_clause(v@),
{
    let mut i: usize = 0;
    while i < v.len()
        invariant
            i <= v@.len(),
            clause_from(v@, 0) == clause_from(v@, i as int),
        decreases v@.len() - i,
    {
        if is_space(v[i]) && bracket_after_spaces_exec(v, i + 1) {
            proof {
                assert(v@.subrange(0, i as int) =~= v@.take(i as int));
            }
            return sub_chars(v, 0, i);
        }
        i += 1;
    }
    proof {
        assert(v@.subrange(0, v@.len() as int) =~= v@);
    }
    sub_chars(v, 0, v.len())
}

/// An ASCII word character, as in a markup tag name.
pub open spec fn is_word_char(c: char) -> bool {
    ('a' <= c && c <= 'z') || ('A' <= c && c <= 'Z') || ('0' <= c && c <= '9') || c == '_'
}

/// Whether an opening tag `<X>` with a one-character name stands at `p`.
pub open spec fn open_tag_at(s: Seq<char>, p: int) -> bool {
    0 <= p && p + 3 <= s.len() && s[p] == '<' && is_word_char(s[p + 1]) && s[p + 2] == '>'
}

/// Whether a closing tag `</X>` with a one-character name stands at `q`.
pub open spec fn close_tag_at(s: Seq<char>, q: int) -> bool {
    0 <= q && q + 4 <= s.len() && s[q] == '<' && s[q + 1] == '/' && is_word_char(s[q + 2]) && s[q
        + 3] == '>'
}

/// The first closing tag at or after `k`, stopping at a newline, or -1.
pub open spec fn close_from(s: Seq<char>, k: int) -> int
    decreases s.len() - k when 0 <= k <= s.len()
{
    if k < 0 || k + 4 > s.len() {
        -1
    } else if close_tag_at(s, k) {
        k
    } else if s[k] == '\n' {
        -1
    } else {
        close_from(s, k + 1)
    }
}

/// The tag-marked spans of `s` from position `p` on: for each leftmost
/// `<X>` whose inner text (at least one character, no newline) reaches a
/// closing `</Y>`, the inner text; scanning resumes after the closing tag.
pub open spec fn spans_from(s: Seq<char>, p: int) -> Seq<Seq<char>>
    decreases s.len() - p when 0 <= p <= s.len()
{
    if p < 0 || p + 4 > s.len() {
        Seq::empty()
    } else if open_tag_at(s, p) && s[p + 3] != '\n' {
        let q = close_from(s, p + 4);
        if p + 4 <= q && q + 4 <= s.len() {
            seq![s.subrange(p + 3, q)] + spans_from(s, q + 4)
        } else {
            spans_from(s, p + 1)
        }
    } else {
        spans_from(s, p + 1)
    }
}

/// A found closing tag lies at or after where the scan began, and fits.
pub proof fn lemma_close_from_bounds(s: Seq<char>, k: int)
    requires
        0 <= k <= s.len(),
    ensures
        close_from(s, k) == -1 || (k <= close_from(s, k) && close_from(s, k) + 4 <= s.len()),
    decreases s.len() - k,
{
    if k + 4 <= s.len() && !close_tag_at(s, k) && s[k] != '\n' {
        lemma_close_from_bounds(s, k + 1);
    }
}

/// Whether a character is an ASCII word character.
fn is_word(c: char) -> (r: bool)
    ensures
        r == is_word_char(c),
{
    ('a' <= c && c <= 'z') || ('A' <= c && c <= 'Z') || ('0' <= c && c <= '9') || c == '_'
}

/// The first closing tag at or after `k`, stopping at a newline.
#[verifier::loop_isolation(false)]
fn close_from_exec(v: &Vec<char>, k: usize) -> (r: Option<usize>)
    requires
        k <= v@.len(),
    ensures
        match r {
            Some(q) => close_from(v@, k as int) == q as int && q + 4 <= v@.len(),
            None => close_from(v@, k as int) == -1,
        },
{
    let ghost k0 = k as int;
    let mut k = k;
    while v.len() - k >= 4
        invariant
            k <= v@.len(),
            close_from(v@, k0) == close_from(v@, k as int),
        decreases v@.len() - k,
    {
        if v[k] == '<' && v[k + 1] == '/' && is_word(v[k + 2]) && v[k + 3] == '>' {
            return Some(k);
        }
        if v[k] == '\n' {
            return None;
        }
        k += 1;
    }
    None
}

/// The tag-marked spans of `v`: each `<X>INNER</Y>` with one-letter tag
/// names yields its inner text.
#[verifier::loop_isolation(false)]
pub fn extract_spans(v: &Vec<char>) -> (r: Vec<Vec<char>>)
    ensures
        r.deep_view() == spans_from(v@, 0),
{
    let mut out: Vec<Vec<char>> = Vec::new();
    let mut p: usize = 0;
    proof {
        assert(out.deep_view() + spans_from(v@, 0) =~= spans_from(v@, 0));
    }
    while v.len() - p >= 4
        invariant
            p <= v@.len(),
            out.deep_view() + spans_from(v@, p as int) == spans_from(v@, 0),
        decreases v@.len() - p,
    {
        let ghost pre = out.deep_view();
        if v[p] == '<' && is_word(v[p + 1]) && v[p + 2] == '>' && v[p + 3] != '\n' {
            match close_from_exec(v, p + 4) {
                Some(q) => {
                    proof {
                        lemma_close_from_bounds(v@, p + 4 as int);
                    }
                    let inner = sub_chars(v, p + 3, q);
                    out.push(inner);
                    proof {
                        assert(out.deep_view() =~~= pre.push(v@.subrange(p + 3, q as int)));
                        assert(out.deep_view() + spans_from(v@, q + 4 as int) =~= pre + spans_from(
                            v@,
                            p as int,
                        ));
                    }
                    p = q + 4;
                },
                None => {
                    p += 1;
                },
            }
        } else {
            p += 1;
        }
    }
    proof {
        assert(out.deep_view() + spans_from(v@, p as int) =~= out.deep_view());
    }
    out
}

/// Whether the user's answer is within the fuzzy budget of some span.
pub open spec fn any_span_close(spans: Seq<Seq<char>>, user: Seq<char>) -> bool {
    exists|i: int| 0 <= i < spans.len() && spec_close_match(lower(spans[i]), lower(user))
}

/// What layer one and two of the grader decide together: a fuzzy match on
/// the stripped canonical answer, or on some marked span of the raw answer
/// with its bold tags removed.
pub open spec fn spec_locally_correct(raw: Seq<char>, sanitized: Seq<char>, user: Seq<char>) -> bool {
    spec_close_match(lower(spec_strip_clause(sanitized)), lower(user)) || any_span_close(
        spans_from(spec_replace(spec_replace(raw, "<b>"@, Seq::empty()), "</b>"@, Seq::empty()), 0),
        user,
    )
}

/// The lowered form of a character vector, as a string.
fn lowered_string(v: &Vec<char>) -> (r: String)
    ensures
        r@ == lower(v@),
{
    string_of(&crate::text::lower_chars(v))
}

/// Run the grader's deterministic layers: the normalised-distance match on
/// the stripped canonical answer, then on each tag-marked span of the raw
/// answer. An answer equal to the stripped canonical answer up to ASCII
/// case is always accepted.
#[verifier::loop_isolation(false)]
pub fn locally_correct(answer_raw: &str, answer_sanitized: &str, user_answer: &str) -> (r: bool)
    ensures
        r == spec_locally_correct(answer_raw@, answer_sanitized@, user_answer@),
        lower(user_answer@) == lower(spec_strip_clause(answer_sanitized@)) ==> r,
{
    let user_low = lowered_string(&str_chars(user_answer));
    let san = str_chars(answer_sanitized);
    let normalized = strip_trailing_clause(&san);
    let norm_low = lowered_string(&normalized);
    if close_match(norm_low.as_str(), user_low.as_str()) {
        return true;
    }
    let raw = str_chars(answer_raw);
    let ob = str_chars("<b>");
    let cb = str_chars("</b>");
    let empty: Vec<char> = Vec::new();
    proof {
        reveal_strlit("<b>");
        reveal_strlit("</b>");
        assert(empty@ =~= Seq::<char>::empty());
    }
    let stripped = replace_chars(&replace_chars(&raw, &ob, &empty), &cb, &empty);
    let spans = extract_spans(&stripped);
    let ghost sv = spans.deep_view();
    let mut i: usize = 0;
    while i < spans.len()
        invariant
            sv == spans.deep_view(),
            i <= sv.len(),
            forall|k: int| 0 <= k < i ==> !spec_close_match(lower(sv[k]), lower(user_answer@)),
        decreases sv.len() - i,
    {
        let span_low = lowered_string(&spans[i]);
        proof {
            assert(sv[i as int] == spans@[i as int]@);
        }
        if close_match(span_low.as_str(), user_low.as_str()) {
            return true;
        }
        i += 1;
    }
    false
}

/// The first `<think>` tag at or after `k`, or -1.
pub open spec fn think_open_from(s: Seq<char>, k: int) -> int
    decreases s.len() - k when 0 <= k <= s.len()
{
    if k < 0 || k + 7 > s.len() {
        -1
    } else if matches_at(s, "<think>"@, k) {
        k
    } else {
        think_open_from(s, k + 1)
    }
}

/// The last `</think>` tag at or after `k` that a whitespace character
/// follows, or -1.
pub open spec fn think_close_last(s: Seq<char>, k: int) -> int
    decreases s.len() - k when 0 <= k <= s.len()
{
    if k < 0 || k + 9 > s.len() {
        -1
    } else {
        let rest = think_close_last(s, k + 1);
        if rest >= 0 {
            rest
        } else if matches_at(s, "</think>"@, k) && is_space_char(s[k + 8]) {
            k
        } else {
            -1
        }
    }
}

/// The end of the whitespace run starting at `k`.
pub open spec fn space_run_end(s: Seq<char>, k: int) -> int
    decreases s.len() - k when 0 <= k <= s.len()
{
    if 0 <= k < s.len() && is_space_char(s[k]) {
        space_run_end(s, k + 1)
    } else {
        k
    }
}

/// `s` with its reasoning block removed: from the first `<think>`, through
/// the last `</think>` that whitespace follows, together with that
/// whitespace run. Without such tags, `s` unchanged.
pub open spec fn spec_strip_think(s: Seq<char>) -> Seq<char> {
    let i = think_open_from(s, 0);
    if i >= 0 && i + 8 <= s.len() {
        let q = think_close_last(s, i + 8);
        if q >= 0 {
            s.take(i) + s.skip(space_run_end(s, q + 8))
        } else {
            s
        }
    } else {
        s
    }
}

/// The first `<think>` tag, or none.
#[verifier::loop_isolation(false)]
fn think_open_exec(v: &Vec<char>) -> (r: Option<usize>)
    ensures
        match r {
            Some(i) => think_open_from(v@, 0) == i as int && i + 7 <= v@.len(),
            None => think_open_from(v@, 0) == -1,
        },
{
    let pat = str_chars("<think>");
    proof {
        reveal_strlit("<think>");
    }
    let mut k: usize = 0;
    while v.len() - k >= 7
        invariant
            k <= v@.len(),
            pat@ == "<think>"@,
            think_open_from(v@, 0) == think_open_from(v@, k as int),
        decreases v@.len() - k,
    {
        if crate::text::match_at(v, &pat, k) {
            return Some(k);
        }
        k += 1;
    }
    None
}

/// The last `</think>` tag at or after `from` that whitespace follows.
#[verifier::loop_isolation(false)]
fn think_close_exec(v: &Vec<char>, from: usize) -> (r: Option<usize>)
    requires
        from <= v@.len(),
    ensures
        match r {
            Some(q) => think_close_last(v@, from as int) == q as int && q + 9 <= v@.len(),
            None => think_close_last(v@, from as int) == -1,
        },
{
    let pat = str_chars("</think>");
    proof {
        reveal_strlit("</think>");
    }
    let mut res: Option<usize> = None;
    if v.len() - from < 9 {
        return None;
    }
    let mut k: usize = v.len() - 8;
    while k > from
        invariant
            from <= k <= v@.len(),
            pat@ == "</think>"@,
            match res {
                Some(q) => think_close_last(v@, k as int) == q as int && q + 9 <= v@.len(),
                None => think_close_last(v@, k as int) == -1,
            },
        decreases k,
    {
        k -= 1;
        if v.len() - k >= 9 && crate::text::match_at(v, &pat, k) && is_space(v[k + 8]) {
            if res.is_none() {
                res = Some(k);
            }
        }
    }
    res
}

/// The whitespace run's end, from `k`.
#[verifier::loop_isolation(false)]
fn space_run_end_exec(v: &Vec<char>, k: usize) -> (r: usize)
    requires
        k <= v@.len(),
    ensures
        r as int == space_run_end(v@, k as int),
        k <= r <= v@.len(),
    decreases v@.len() - k,
{
    if k < v.len() && is_space(v[k]) {
        space_run_end_exec(v, k + 1)
    } else {
        k
    }
}

/// `v` with its leading reasoning block removed.
pub fn strip_think(v: &Vec<char>) -> (r: Vec<char>)
    ensures
        r@ == spec_strip_think(v@),
{
    match think_open_exec(v) {
        None => sub_chars(v, 0, v.len()),
        Some(i) => {
            if v.len() - i < 8 {
                proof {
                    assert(v@.subrange(0, v@.len() as int) =~= v@);
                }
                return sub_chars(v, 0, v.len());
            }
            match think_close_exec(v, i + 8) {
                None => sub_chars(v, 0, v.len()),
                Some(q) => {
                    let e = space_run_end_exec(v, q + 8);
                    let mut r = sub_chars(v, 0, i);
                    let tail = sub_chars(v, e, v.len());
                    extend_chars(&mut r, &tail);
                    proof {
                        assert(v@.subrange(0, i as int) =~= v@.take(i as int));
                        assert(v@.subrange(e as int, v@.len() as int) =~= v@.skip(e as int));
                    }
                    r
                },
            }
        },
    }
}

/// The verdict a judge reply means: its reasoning block stripped and the
/// rest trimmed, `CORRECT` and `INCORRECT` read as such, and anything else
/// a prompt on a first answer but incorrect on a prompted one.
pub open spec fn spec_classify(text: Seq<char>, prompted: bool) -> RespModel {
    let t = spec_trim(spec_strip_think(text));
    if t == "CORRECT"@ {
        RespModel::Correct
    } else if t == "INCORRECT"@ {
        RespModel::Incorrect(text)
    } else if prompted {
        RespModel::Incorrect(text)
    } else {
        RespModel::Prompt(t)
    }
}

/// Classify a judge reply. On a prompted answer the verdict is never
/// another prompt: a contestant is not prompted twice.
pub fn classify_reply(text: &str, prompted: bool) -> (r: Response)
    ensures
        r@ == spec_classify(text@, prompted),
        prompted ==> !(r@ is Prompt),
{
    let chars = str_chars(text);
    let stripped = strip_think(&chars);
    let trimmed = string_of(&trim_chars(&stripped));
    if str_eq(trimmed.as_str(), "CORRECT") {
        Response::Correct
    } else if str_eq(trimmed.as_str(), "INCORRECT") {
        Response::Incorrect(String::from_str(text))
    } else if prompted {
        Response::Incorrect(String::from_str(text))
    } else {
        Response::Prompt(trimmed)
    }
}

/// Whether the judge needs the question read so far: the canonical answer
/// speaks of how far the reading went.
pub open spec fn spec_needs_question(sanitized: Seq<char>) -> bool {
    has_sub(sanitized, "read"@) || has_sub(sanitized, "before"@) || has_sub(sanitized, "mention"@)
}

/// Whether the judge prompt should include the question read so far.
pub fn needs_question_context(answer_sanitized: &str) -> (r: bool)
    ensures
        r == spec_needs_question(answer_sanitized@),
{
    crate::text::contains_str(answer_sanitized, "read") || crate::text::contains_str(
        answer_sanitized,
        "before",
    ) || crate::text::contains_str(answer_sanitized, "mention")
}

} // verus!
