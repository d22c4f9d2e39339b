//! Low-level text utilities shared by the query compiler, the grader and the
//! reader: case folding, substring search, replacement, splitting, joining,
//! trimming and decimal rendering.
//!
//! Case folding here is ASCII case folding: `'A'..='Z'` map to `'a'..='z'`
//! and every other character is kept. All category names and control words
//! are ASCII, so this is the case distinction the engine cares about.

use vstd::prelude::*;

verus! {

/// The whitespace characters recognised by [`trim_chars`] and the grader:
/// the ASCII whitespace class.
pub open spec fn is_space_char(c: char) -> bool {
    c == ' ' || c == '\t' || c == '\n' || c == '\r' || c == '\u{b}' || c == '\u{c}'
}

/// ASCII lower-casing of one character.
pub open spec fn lower_char(c: char) -> char {
    match c {
        'A' => 'a',
        'B' => 'b',
        'C' => 'c',
        'D' => 'd',
        'E' => 'e',
        'F' => 'f',
        'G' => 'g',
        'H' => 'h',
        'I' => 'i',
        'J' => 'j',
        'K' => 'k',
        'L' => 'l',
        'M' => 'm',
        'N' => 'n',
        'O' => 'o',
        'P' => 'p',
        'Q' => 'q',
        'R' => 'r',
        'S' => 's',
        'T' => 't',
        'U' => 'u',
        'V' => 'v',
        'W' => 'w',
        'X' => 'x',
        'Y' => 'y',
        'Z' => 'z',
        _ => c,
    }
}

/// ASCII lower-casing of a character sequence.
pub open spec fn lower(s: Seq<char>) -> Seq<char> {
    s.map_values(|c: char| lower_char(c))
}

/// Whether the needle `n` occurs in `h` starting at index `i`.
pub open spec fn matches_at(h: Seq<char>, n: Seq<char>, i: int) -> bool {
    0 <= i && i + n.len() <= h.len() && h.subrange(i, i + n.len()) == n
}

/// Whether the needle `n` occurs anywhere in `h`.
pub open spec fn has_sub(h: Seq<char>, n: Seq<char>) -> bool {
    exists|i: int| matches_at(h, n, i)
}

/// `h` with every non-overlapping occurrence of `n` replaced by `t`,
/// scanning left to right.
pub open spec fn spec_replace(h: Seq<char>, n: Seq<char>, t: Seq<char>) -> Seq<char>
    decreases h.len(),
{
    if h.len() == 0 {
        Seq::empty()
    } else if n.len() > 0 && matches_at(h, n, 0) {
        t + spec_replace(h.skip(n.len() as int), n, t)
    } else {
        seq![h[0]] + spec_replace(h.skip(1), n, t)
    }
}

/// The split of `s` on the separator `c` when the piece read so far is
/// `buf`: the recursion behind [`spec_split`].
pub open spec fn spec_split_rec(s: Seq<char>, c: char, buf: Seq<char>) -> Seq<Seq<char>>
    decreases s.len(),
{
    if s.len() == 0 {
        seq![buf]
    } else if s[0] == c {
        seq![buf] + spec_split_rec(s.skip(1), c, Seq::empty())
    } else {
        spec_split_rec(s.skip(1), c, buf.push(s[0]))
    }
}

/// `s` split on the separator `c`; adjacent separators yield empty pieces,
/// as `str::split` does.
pub open spec fn spec_split(s: Seq<char>, c: char) -> Seq<Seq<char>> {
    spec_split_rec(s, c, Seq::empty())
}

/// The pieces of `ws` joined with the separator `sep` in between.
pub open spec fn spec_join(ws: Seq<Seq<char>>, sep: Seq<char>) -> Seq<char>
    decreases ws.len(),
{
    if ws.len() == 0 {
        Seq::empty()
    } else if ws.len() == 1 {
        ws[0]
    } else {
        ws[0] + sep + spec_join(ws.skip(1), sep)
    }
}

/// `s` without leading whitespace.
pub open spec fn spec_trim_front(s: Seq<char>) -> Seq<char>
    decreases s.len(),
{
    if s.len() > 0 && is_space_char(s[0]) {
        spec_trim_front(s.skip(1))
    } else {
        s
    }
}

/// `s` without trailing whitespace.
pub open spec fn spec_trim_back(s: Seq<char>) -> Seq<char>
    decreases s.len(),
{
    if s.len() > 0 && is_space_char(s.last()) {
        spec_trim_back(s.drop_last())
    } else {
        s
    }
}

/// `s` without leading or trailing whitespace.
pub open spec fn spec_trim(s: Seq<char>) -> Seq<char> {
    spec_trim_back(spec_trim_front(s))
}

/// The decimal digits of `n`, most significant first.
pub open spec fn spec_dec(n: nat) -> Seq<char>
    decreases n,
{
    if n < 10 {
        seq![digit_char(n)]
    } else {
        spec_dec(n / 10).push(digit_char(n % 10))
    }
}

/// The digit character for a value below ten.
pub open spec fn digit_char(d: nat) -> char {
    if d == 0 {
        '0'
    } else if d == 1 {
        '1'
    } else if d == 2 {
        '2'
    } else if d == 3 {
        '3'
    } else if d == 4 {
        '4'
    } else if d == 5 {
        '5'
    } else if d == 6 {
        '6'
    } else if d == 7 {
        '7'
    } else if d == 8 {
        '8'
    } else {
        '9'
    }
}

/// Two texts differ after lower-casing when their lengths differ or some
/// position `k` lowers differently.
pub proof fn lemma_lower_ne(a: Seq<char>, b: Seq<char>, k: int)
    requires
        a.len() != b.len() || (0 <= k < a.len() && k < b.len() && lower_char(a[k]) != lower_char(
            b[k],
        )),
    ensures
        lower(a) != lower(b),
{
    if a.len() != b.len() {
        assert(lower(a).len() == a.len());
        assert(lower(b).len() == b.len());
    } else {
        assert(lower(a)[k] == lower_char(a[k]));
        assert(lower(b)[k] == lower_char(b[k]));
    }
}

/// Relies on `alloc::string::String::push`: appends the given character to
/// the end of the string.
#[verifier::external_body]
pub fn push_char(s: &mut String, c: char)
    ensures
        final(s)@ == old(s)@.push(c),
{
    s.push(c);
}

/// The characters of `s` as a vector.
pub fn str_chars(s: &str) -> (r: Vec<char>)
    ensures
        r@ == s@,
{
    let n = s.unicode_len();
    let mut r: Vec<char> = Vec::new();
    let mut i: usize = 0;
    while i < n
        invariant
            n == s@.len(),
            i <= n,
            r@ == s@.take(i as int),
        decreases n - i,
    {
        r.push(s.get_char(i));
        i += 1;
        proof {
            assert(r@ =~= s@.take(i as int));
        }
    }
    proof {
        assert(r@ =~= s@);
    }
    r
}

/// A `String` holding exactly the characters of `v`.
pub fn string_of(v: &Vec<char>) -> (r: String)
    ensures
        r@ == v@,
{
    let mut r = String::new();
    let mut i: usize = 0;
    while i < v.len()
        invariant
            i <= v@.len(),
            r@ == v@.take(i as int),
        decreases v@.len() - i,
    {
        push_char(&mut r, v[i]);
        i += 1;
        proof {
            assert(r@ =~= v@.take(i as int));
        }
    }
    proof {
        assert(r@ =~= v@);
    }
    r
}

/// Whether two string slices hold the same characters.
pub fn str_eq(a: &str, b: &str) -> (r: bool)
    ensures
        r == (a@ == b@),
{
    let sa = String::from_str(a);
    let sb = String::from_str(b);
    sa == sb
}

/// ASCII lower-casing of a character vector.
pub fn lower_chars(v: &Vec<char>) -> (r: Vec<char>)
    ensures
        r@ == lower(v@),
{
    let mut r: Vec<char> = Vec::new();
    let mut i: usize = 0;
    while i < v.len()
        invariant
            i <= v@.len(),
            r@ == lower(v@).take(i as int),
        decreases v@.len() - i,
    {
        r.push(lower_char_exec(v[i]));
        i += 1;
        proof {
            assert(r@ =~= lower(v@).take(i as int));
        }
    }
    proof {
        assert(r@ =~= lower(v@));
    }
    r
}

/// ASCII lower-casing of one character.
pub fn lower_char_exec(c: char) -> (r: char)
    ensures
        r == lower_char(c),
{
    match c {
        'A' => 'a',
        'B' => 'b',
        'C' => 'c',
        'D' => 'd',
        'E' => 'e',
        'F' => 'f',
        'G' => 'g',
        'H' => 'h',
        'I' => 'i',
        'J' => 'j',
        'K' => 'k',
        'L' => 'l',
        'M' => 'm',
        'N' => 'n',
        'O' => 'o',
        'P' => 'p',
        'Q' => 'q',
        'R' => 'r',
        'S' => 's',
        'T' => 't',
        'U' => 'u',
        'V' => 'v',
        'W' => 'w',
        'X' => 'x',
        'Y' => 'y',
        'Z' => 'z',
        _ => c,
    }
}

/// Whether the ASCII whitespace class holds `c`.
pub fn is_space(c: char) -> (r: bool)
    ensures
        r == is_space_char(c),
{
    c == ' ' || c == '\t' || c == '\n' || c == '\r' || c == '\u{b}' || c == '\u{c}'
}

/// Whether `n` occurs in `h` at index `i`.
pub fn match_at(h: &Vec<char>, n: &Vec<char>, i: usize) -> (r: bool)
    requires
        i + n@.len() <= h@.len(),
    ensures
        r == matches_at(h@, n@, i as int),
{
    let hl = h.len();
    let mut j: usize = 0;
    while j < n.len()
        invariant
            hl == h@.len(),
            i + n@.len() <= h@.len(),
            j <= n@.len(),
            forall|k: int| 0 <= k < j ==> h@[i + k] == n@[k],
        decreases n@.len() - j,
    {
        if h[i + j] != n[j] {
            assert(h@.subrange(i as int, i + n@.len()) != n@) by {
                assert(h@.subrange(i as int, i + n@.len())[j as int] != n@[j as int]);
            }
            return false;
        }
        j += 1;
    }
    proof {
        assert(h@.subrange(i as int, i + n@.len()) =~= n@);
    }
    true
}

/// Index of the leftmost occurrence of `n` in `h`, if any.
pub fn find_sub(h: &Vec<char>, n: &Vec<char>) -> (r: Option<usize>)
    ensures
        match r {
            Some(i) => matches_at(h@, n@, i as int) && forall|j: int|
                0 <= j < i ==> !matches_at(h@, n@, j),
            None => !has_sub(h@, n@),
        },
{
    if n.len() == 0 {
        proof {
            assert(h@.subrange(0, 0) =~= n@);
        }
        return Some(0);
    }
    if n.len() > h.len() {
        proof {
            assert(forall|i: int| !matches_at(h@, n@, i));
        }
        return None;
    }
    let last = h.len() - n.len();
    let mut i: usize = 0;
    while i <= last
        invariant
            0 < n@.len() <= h@.len(),
            h@.len() <= usize::MAX,
            last == h@.len() - n@.len(),
            i <= last + 1,
            forall|j: int| 0 <= j < i ==> !matches_at(h@, n@, j),
        decreases last + 1 - i,
    {
        if match_at(h, n, i) {
            return Some(i);
        }
        i += 1;
    }
    proof {
        assert(forall|j: int| matches_at(h@, n@, j) ==> 0 <= j <= last);
    }
    None
}

/// Append all characters of `t` to `out`.
pub fn extend_chars(out: &mut Vec<char>, t: &Vec<char>)
    ensures
        final(out)@ == old(out)@ + t@,
{
    let mut j: usize = 0;
    while j < t.len()
        invariant
            j <= t@.len(),
            out@ == old(out)@ + t@.take(j as int),
        decreases t@.len() - j,
    {
        out.push(t[j]);
        j += 1;
        proof {
            assert(out@ =~= old(out)@ + t@.take(j as int));
        }
    }
    proof {
        assert(out@ =~= old(out)@ + t@);
    }
}

/// An occurrence of `n` at `i` in `h` is an occurrence at the front of the
/// suffix of `h` starting at `i`, and conversely.
proof fn lemma_matches_at_skip(h: Seq<char>, n: Seq<char>, i: int)
    requires
        0 <= i <= h.len(),
    ensures
        matches_at(h, n, i) == matches_at(h.skip(i), n, 0),
{
    if i + n.len() <= h.len() {
        assert(h.skip(i).subrange(0, n.len() as int) =~= h.subrange(i, i + n.len()));
    }
}

/// `h` with every occurrence of `n` replaced by `t`, scanning left to right.
pub fn replace_chars(h: &Vec<char>, n: &Vec<char>, t: &Vec<char>) -> (r: Vec<char>)
    requires
        n@.len() > 0,
    ensures
        r@ == spec_replace(h@, n@, t@),
{
    let mut out: Vec<char> = Vec::new();
    let mut i: usize = 0;
    proof {
        assert(h@.skip(0) =~= h@);
        assert(Seq::<char>::empty() + spec_replace(h@, n@, t@) =~= spec_replace(h@, n@, t@));
    }
    while i < h.len()
        invariant
            n@.len() > 0,
            i <= h@.len(),
            out@ + spec_replace(h@.skip(i as int), n@, t@) == spec_replace(h@, n@, t@),
        decreases h@.len() - i,
    {
        proof {
            lemma_matches_at_skip(h@, n@, i as int);
        }
        let ghost pre = out@;
        let ghost s = h@.skip(i as int);
        if n.len() <= h.len() - i && match_at(h, n, i) {
            extend_chars(&mut out, t);
            i += n.len();
            proof {
                assert(s.skip(n@.len() as int) =~= h@.skip(i as int));
                assert(spec_replace(s, n@, t@) == t@ + spec_replace(h@.skip(i as int), n@, t@));
                assert(out@ + spec_replace(h@.skip(i as int), n@, t@) =~= pre + spec_replace(
                    s,
                    n@,
                    t@,
                ));
            }
        } else {
            out.push(h[i]);
            i += 1;
            proof {
                assert(!matches_at(s, n@, 0));
                assert(s.skip(1) =~= h@.skip(i as int));
                assert(s[0] == h@[i - 1]);
                assert(spec_replace(s, n@, t@) == seq![s[0]] + spec_replace(
                    h@.skip(i as int),
                    n@,
                    t@,
                ));
                assert(out@ + spec_replace(h@.skip(i as int), n@, t@) =~= pre + spec_replace(
                    s,
                    n@,
                    t@,
                ));
            }
        }
    }
    proof {
        assert(h@.skip(h@.len() as int) =~= Seq::<char>::empty());
        assert(out@ + spec_replace(Seq::<char>::empty(), n@, t@) =~= out@);
    }
    out
}

/// Whether two character vectors hold the same characters.
pub fn chars_eq(a: &Vec<char>, b: &Vec<char>) -> (r: bool)
    ensures
        r == (a@ == b@),
{
    if a.len() != b.len() {
        return false;
    }
    let mut i: usize = 0;
    while i < a.len()
        invariant
            a@.len() == b@.len(),
            i <= a@.len(),
            forall|k: int| 0 <= k < i ==> a@[k] == b@[k],
        decreases a@.len() - i,
    {
        if a[i] != b[i] {
            return false;
        }
        i += 1;
    }
    proof {
        assert(a@ =~= b@);
    }
    true
}

/// Whether `n` occurs anywhere in `h`.
pub fn contains_sub(h: &Vec<char>, n: &Vec<char>) -> (r: bool)
    ensures
        r == has_sub(h@, n@),
{
    match find_sub(h, n) {
        Some(_) => true,
        None => false,
    }
}

/// Whether `n` occurs anywhere in `h`, on string slices.
pub fn contains_str(h: &str, n: &str) -> (r: bool)
    ensures
        r == has_sub(h@, n@),
{
    let hv = str_chars(h);
    let nv = str_chars(n);
    contains_sub(&hv, &nv)
}

/// When the first `lo` characters of `s` are whitespace and the one at `lo`
/// is not, trimming the front of `s` drops exactly those `lo` characters.
proof fn lemma_trim_front_is_skip(s: Seq<char>, lo: int)
    requires
        0 <= lo <= s.len(),
        forall|k: int| 0 <= k < lo ==> is_space_char(s[k]),
        lo == s.len() || !is_space_char(s[lo]),
    ensures
        spec_trim_front(s) == s.skip(lo),
    decreases lo,
{
    if lo == 0 {
        assert(s.skip(0) =~= s);
    } else {
        lemma_trim_front_is_skip(s.skip(1), lo - 1);
        assert(s.skip(1).skip(lo - 1) =~= s.skip(lo));
    }
}

/// When the characters of `s` from `hi` on are whitespace and the one before
/// `hi` is not, trimming the back of `s` keeps exactly the first `hi`.
proof fn lemma_trim_back_is_take(s: Seq<char>, hi: int)
    requires
        0 <= hi <= s.len(),
        forall|k: int| hi <= k < s.len() ==> is_space_char(s[k]),
        hi == 0 || !is_space_char(s[hi - 1]),
    ensures
        spec_trim_back(s) == s.take(hi),
    decreases s.len() - hi,
{
    if hi == s.len() {
        assert(s.take(hi) =~= s);
    } else {
        assert(is_space_char(s.last()));
        lemma_trim_back_is_take(s.drop_last(), hi);
        assert(s.drop_last().take(hi) =~= s.take(hi));
    }
}

/// The characters of `v` from `from` to `to`.
pub fn sub_chars(v: &Vec<char>, from: usize, to: usize) -> (r: Vec<char>)
    requires
        from <= to <= v@.len(),
    ensures
        r@ == v@.subrange(from as int, to as int),
{
    let mut r: Vec<char> = Vec::new();
    let mut i: usize = from;
    while i < to
        invariant
            from <= i <= to <= v@.len(),
            r@ == v@.subrange(from as int, i as int),
        decreases to - i,
    {
        r.push(v[i]);
        i += 1;
        proof {
            assert(r@ =~= v@.subrange(from as int, i as int));
        }
    }
    r
}

/// `v` without leading or trailing whitespace.
pub fn trim_chars(v: &Vec<char>) -> (r: Vec<char>)
    ensures
        r@ == spec_trim(v@),
{
    let mut lo: usize = 0;
    while lo < v.len() && is_space(v[lo])
        invariant
            lo <= v@.len(),
            forall|k: int| 0 <= k < lo ==> is_space_char(v@[k]),
        decreases v@.len() - lo,
    {
        lo += 1;
    }
    proof {
        lemma_trim_front_is_skip(v@, lo as int);
    }
    let mut hi: usize = v.len();
    while hi > lo && is_space(v[hi - 1])
        invariant
            lo <= hi <= v@.len(),
            forall|k: int| hi <= k < v@.len() ==> is_space_char(v@[k]),
        decreases hi,
    {
        hi -= 1;
    }
    proof {
        let ghost f = v@.skip(lo as int);
        lemma_trim_back_is_take(f, hi - lo);
        assert(f.take(hi - lo) =~= v@.subrange(lo as int, hi as int));
    }
    sub_chars(v, lo, hi)
}

/// `v` split on the separator `c`; adjacent separators yield empty pieces.
pub fn split_chars(v: &Vec<char>, c: char) -> (r: Vec<Vec<char>>)
    ensures
        r.deep_view() == spec_split(v@, c),
{
    let mut out: Vec<Vec<char>> = Vec::new();
    let mut buf: Vec<char> = Vec::new();
    let mut i: usize = 0;
    proof {
        assert(v@.skip(0) =~= v@);
        assert(out.deep_view() =~= Seq::<Seq<char>>::empty());
    }
    while i < v.len()
        invariant
            i <= v@.len(),
            out.deep_view() + spec_split_rec(v@.skip(i as int), c, buf@) == spec_split(v@, c),
        decreases v@.len() - i,
    {
        let ghost s = v@.skip(i as int);
        let ghost pre_out = out.deep_view();
        let ghost pre_buf = buf@;
        if v[i] == c {
            out.push(buf);
            buf = Vec::new();
            proof {
                assert(out.deep_view() =~~= pre_out.push(pre_buf));
            }
        } else {
            let d = v[i];
            buf.push(d);
        }
        i += 1;
        proof {
            assert(s.skip(1) =~= v@.skip(i as int));
            if s[0] == c {
                assert(out.deep_view() + spec_split_rec(v@.skip(i as int), c, buf@) =~= pre_out
                    + spec_split_rec(s, c, pre_buf));
            }
        }
    }
    let ghost pre_out = out.deep_view();
    let ghost pre_buf = buf@;
    out.push(buf);
    proof {
        assert(v@.skip(v@.len() as int) =~= Seq::<char>::empty());
        assert(out.deep_view() =~~= pre_out.push(pre_buf));
        assert(out.deep_view() =~= pre_out + spec_split_rec(Seq::empty(), c, pre_buf));
    }
    out
}

/// Joining after appending one more piece appends the separator and the
/// piece to the joined text.
pub proof fn lemma_join_push(ws: Seq<Seq<char>>, w: Seq<char>, sep: Seq<char>)
    requires
        ws.len() >= 1,
    ensures
        spec_join(ws.push(w), sep) == spec_join(ws, sep) + sep + w,
    decreases ws.len(),
{
    if ws.len() == 1 {
        assert(ws.push(w).skip(1) =~= seq![w]);
        assert(spec_join(seq![w], sep) == w);
        assert(spec_join(ws.push(w), sep) =~= ws[0] + sep + w);
    } else {
        assert(ws.push(w).skip(1) =~= ws.skip(1).push(w));
        lemma_join_push(ws.skip(1), w, sep);
        assert(spec_join(ws.push(w), sep) =~= spec_join(ws, sep) + sep + w);
    }
}

/// The pieces of `ws` with indices in `from..to`, joined with `sep`.
pub fn join_range(ws: &Vec<String>, sep: &str, from: usize, to: usize) -> (r: String)
    requires
        from <= to <= ws@.len(),
    ensures
        r@ == spec_join(ws.deep_view().subrange(from as int, to as int), sep@),
{
    if from == to {
        proof {
            assert(ws.deep_view().subrange(from as int, to as int) =~= Seq::<Seq<char>>::empty());
        }
        return String::new();
    }
    let mut r = ws[from].clone();
    let mut i: usize = from + 1;
    proof {
        assert(ws.deep_view().subrange(from as int, i as int) =~~= seq![ws@[from as int]@]);
    }
    while i < to
        invariant
            from < i <= to <= ws@.len(),
            r@ == spec_join(ws.deep_view().subrange(from as int, i as int), sep@),
        decreases to - i,
    {
        let ghost pre = ws.deep_view().subrange(from as int, i as int);
        r.append(sep);
        r.append(ws[i].as_str());
        i += 1;
        proof {
            assert(ws.deep_view().subrange(from as int, i as int) =~~= pre.push(
                ws@[i - 1].deep_view(),
            ));
            lemma_join_push(pre, ws@[i - 1]@, sep@);
        }
    }
    r
}

/// The decimal rendering of `n`.
pub fn u64_dec(n: u64) -> (r: String)
    ensures
        r@ == spec_dec(n as nat),
{
    let mut out: Vec<char> = Vec::new();
    let mut m = n;
    proof {
        assert(spec_dec(n as nat) =~= spec_dec(m as nat) + out@);
    }
    while m >= 10
        invariant
            spec_dec(n as nat) == spec_dec(m as nat) + out@,
        decreases m,
    {
        let ghost pre_m = m as nat;
        let d = digit_exec(m % 10);
        out.insert(0, d);
        m = m / 10;
        proof {
            assert(spec_dec(pre_m) == spec_dec(m as nat).push(digit_char(pre_m % 10)));
            assert(spec_dec(m as nat) + out@ =~= spec_dec(m as nat).push(digit_char(pre_m % 10))
                + out@.skip(1));
        }
    }
    let d = digit_exec(m);
    out.insert(0, d);
    proof {
        assert(spec_dec(m as nat) =~= seq![digit_char(m as nat)]);
        assert(spec_dec(n as nat) =~= out@);
    }
    string_of(&out)
}

/// The digit character of a value below ten.
pub fn digit_exec(d: u64) -> (r: char)
    requires
        d < 10,
    ensures
        r == digit_char(d as nat),
{
    if d == 0 {
        '0'
    } else if d == 1 {
        '1'
    } else if d == 2 {
        '2'
    } else if d == 3 {
        '3'
    } else if d == 4 {
        '4'
    } else if d == 5 {
        '5'
    } else if d == 6 {
        '6'
    } else if d == 7 {
        '7'
    } else if d == 8 {
        '8'
    } else {
        '9'
    }
}

/// Convenience form of [`replace_chars`] on strings.
pub fn replace_str(h: &str, n: &str, t: &str) -> (r: String)
    requires
        n@.len() > 0,
    ensures
        r@ == spec_replace(h@, n@, t@),
{
    let hv = str_chars(h);
    let nv = str_chars(n);
    let tv = str_chars(t);
    let rv = replace_chars(&hv, &nv, &tv);
    string_of(&rv)
}

} // verus!
