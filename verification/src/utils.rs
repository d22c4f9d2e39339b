//! Rendering utilities: markup conversion for revealing answers, escaping
//! for display, and taking a chunk of words.

use vstd::prelude::*;

use crate::text::{replace_str, spec_replace};

verus! {

/// The markup mapping of [`render_html`].
pub open spec fn spec_render_html(s: Seq<char>) -> Seq<char> {
    spec_replace(
        spec_replace(
            spec_replace(
                spec_replace(
                    spec_replace(spec_replace(s, "<b>"@, "**"@), "</b>"@, "**"@),
                    "<i>"@,
                    "_"@,
                ),
                "</i>"@,
                "_"@,
            ),
            "<u>"@,
            "__"@,
        ),
        "</u>"@,
        "__"@,
    )
}

/// Render the answer's markup for chat: `<b>…</b>` to `**…**`, `<i>…</i>`
/// to `_…_`, `<u>…</u>` to `__…__`.
pub fn render_html(answer: &str) -> (r: String)
    ensures
        r@ == spec_render_html(answer@),
{
    proof {
        reveal_strlit("<b>");
        reveal_strlit("</b>");
        reveal_strlit("<i>");
        reveal_strlit("</i>");
        reveal_strlit("<u>");
        reveal_strlit("</u>");
    }
    let s = replace_str(answer, "<b>", "**");
    let s = replace_str(s.as_str(), "</b>", "**");
    let s = replace_str(s.as_str(), "<i>", "_");
    let s = replace_str(s.as_str(), "</i>", "_");
    let s = replace_str(s.as_str(), "<u>", "__");
    replace_str(s.as_str(), "</u>", "__")
}

/// The escaping of [`format_question`].
pub open spec fn spec_format_question(s: Seq<char>) -> Seq<char> {
    spec_replace(s, "*"@, "\\*"@)
}

/// Escape every `*` of the question to `\*`, so that the chat platform
/// shows it literally.
pub fn format_question(question: &str) -> (r: String)
    ensures
        r@ == spec_format_question(question@),
{
    proof {
        reveal_strlit("*");
    }
    replace_str(question, "*", "\\*")
}

/// Take up to `n` leading items of a vector of revealed words (or other
/// copyable items); returns fewer when fewer remain.
pub fn nth_chunk<T: Copy>(v: &Vec<T>, n: usize) -> (r: Vec<T>)
    ensures
        r@ == v@.take(if n <= v@.len() { n as int } else { v@.len() as int }),
{
    let mut r: Vec<T> = Vec::new();
    let mut i: usize = 0;
    while i < n && i < v.len()
        invariant
            i <= n,
            i <= v@.len(),
            r@ == v@.take(i as int),
        decreases n - i,
    {
        r.push(v[i]);
        i += 1;
        proof {
            assert(r@ =~= v@.take(i as int));
        }
    }
    proof {
        assert(r@ =~= v@.take(if n <= v@.len() { n as int } else { v@.len() as int }));
    }
    r
}

} // verus!
