//! Tossup records from the question source, and the query parameters a
//! selection turns into.

use vstd::prelude::*;

use crate::query::{ApiQuery, SelModel};
use crate::text::{spec_dec, u64_dec};

verus! {

/// The packet a tossup came from.
#[derive(Debug, Clone)]
pub struct Packet {
    pub id: String,
    pub name: String,
    pub number: u32,
}

/// The question set a tossup came from.
#[derive(Debug, Clone)]
pub struct QuestionSet {
    pub id: String,
    pub name: String,
    pub year: u32,
    pub standard: bool,
}

/// One tossup: the question and answer in raw and sanitized form, with its
/// classification and provenance. The sanitized forms keep `<b>…</b>` and
/// `<u>…</u>` markup for the grader.
#[derive(Debug, Clone)]
pub struct Tossup {
    pub id: String,
    pub question: String,
    pub answer: String,
    pub category: String,
    pub subcategory: String,
    pub packet: Packet,
    pub set: QuestionSet,
    pub updated_at: String,
    pub difficulty: u8,
    pub number: u32,
    pub answer_sanitized: String,
    pub question_sanitized: String,
}

/// A page of tossups, as the question source returns them.
#[derive(Debug, Clone)]
pub struct Tossups {
    pub tossups: Vec<Tossup>,
}

/// The views of a list of key-value pairs.
pub open spec fn pair_views(s: Seq<(String, String)>) -> Seq<(Seq<char>, Seq<char>)> {
    s.map_values(|p: (String, String)| (p.0@, p.1@))
}

/// Every value of `vals` keyed by `key`.
pub open spec fn keyed(key: Seq<char>, vals: Seq<Seq<char>>) -> Seq<(Seq<char>, Seq<char>)> {
    vals.map_values(|v: Seq<char>| (key, v))
}

/// The query parameters a selection becomes: repeated `categories`,
/// `subcategories` and `alternateSubcategories` pairs, and the question
/// count as `number`.
pub open spec fn spec_query_pairs(sel: SelModel, number: u32) -> Seq<(Seq<char>, Seq<char>)> {
    keyed("categories"@, sel.cats) + keyed("subcategories"@, sel.subs) + keyed(
        "alternateSubcategories"@,
        sel.alts,
    ) + seq![("number"@, spec_dec(number as nat))]
}

/// Append `vals` keyed by `key` to `out`.
#[verifier::loop_isolation(false)]
fn push_keyed(out: &mut Vec<(String, String)>, key: &str, vals: &Vec<String>)
    ensures
        pair_views(final(out)@) == pair_views(old(out)@) + keyed(key@, vals.deep_view()),
{
    let mut i: usize = 0;
    proof {
        assert(pair_views(out@) =~= pair_views(old(out)@) + keyed(key@, vals.deep_view()).take(0));
    }
    while i < vals.len()
        invariant
            i <= vals@.len(),
            pair_views(out@) == pair_views(old(out)@) + keyed(key@, vals.deep_view()).take(
                i as int,
            ),
        decreases vals@.len() - i,
    {
        let ghost pre = pair_views(out@);
        out.push((String::from_str(key), vals[i].clone()));
        i += 1;
        proof {
            assert(pair_views(out@) =~= pre.push((key@, vals.deep_view()[i - 1])));
            assert(pair_views(out@) =~= pair_views(old(out)@) + keyed(key@, vals.deep_view()).take(
                i as int,
            ));
        }
    }
    proof {
        assert(keyed(key@, vals.deep_view()).take(vals@.len() as int) =~= keyed(
            key@,
            vals.deep_view(),
        ));
    }
}

/// The key-value pairs the question source is asked with: the selection's
/// three dimensions as repeated parameters, then the question count.
pub fn tossup_query_pairs(q: &ApiQuery) -> (r: Vec<(String, String)>)
    ensures
        pair_views(r@) == spec_query_pairs(q@, q.number),
{
    let mut out: Vec<(String, String)> = Vec::new();
    proof {
        assert(pair_views(out@) =~= Seq::<(Seq<char>, Seq<char>)>::empty());
    }
    push_keyed(&mut out, "categories", &q.categories);
    push_keyed(&mut out, "subcategories", &q.subcategories);
    push_keyed(&mut out, "alternateSubcategories", &q.alternate_subcategories);
    let ghost pre = pair_views(out@);
    out.push((String::from_str("number"), u64_dec(q.number as u64)));
    proof {
        assert(pair_views(out@) =~= pre.push(("number"@, spec_dec(q.number as nat))));
        assert(pair_views(out@) =~= spec_query_pairs(q@, q.number));
    }
    out
}

} // verus!
