//! Text primitives: Unicode white space, trimming, newline splitting, and the
//! extraction of candidate lines from a model reply.

use vstd::prelude::*;

verus! {

/// The characters with the Unicode `White_Space` property.
pub open spec fn is_white_space(c: char) -> bool {
    let u = c as u32;
    (0x9 <= u && u <= 0xd) || u == 0x20 || u == 0x85 || u == 0xa0 || u == 0x1680 || (0x2000 <= u
        && u <= 0x200a) || u == 0x2028 || u == 0x2029 || u == 0x202f || u == 0x205f || u == 0x3000
}

/// `s` without its leading white space.
pub open spec fn trim_start(s: Seq<char>) -> Seq<char>
    decreases s.len(),
{
    if s.len() > 0 && is_white_space(s[0]) {
        trim_start(s.drop_first())
    } else {
        s
    }
}

/// `s` without its trailing white space.
pub open spec fn trim_end(s: Seq<char>) -> Seq<char>
    decreases s.len(),
{
    if s.len() > 0 && is_white_space(s.last()) {
        trim_end(s.drop_last())
    } else {
        s
    }
}

/// `s` without white space at either end.
pub open spec fn trimmed(s: Seq<char>) -> Seq<char> {
    trim_end(trim_start(s))
}

/// The pieces of `s` between `'\n'` characters, in order; `k` newlines give
/// `k + 1` pieces, the empty text gives one empty piece.
pub open spec fn split_newlines(s: Seq<char>) -> Seq<Seq<char>>
    decreases s.len(),
{
    if s.len() == 0 {
        seq![Seq::<char>::empty()]
    } else {
        let rest = split_newlines(s.drop_last());
        if s.last() == '\n' {
            rest.push(Seq::<char>::empty())
        } else {
            rest.update(rest.len() - 1, rest.last().push(s.last()))
        }
    }
}

/// The views of a sequence of strings.
pub open spec fn views(v: Seq<String>) -> Seq<Seq<char>> {
    v.map_values(|s: String| s@)
}

/// The trimmed lines that are not empty, in their order.
pub open spec fn nonblank_trimmed(lines: Seq<Seq<char>>) -> Seq<Seq<char>>
    decreases lines.len(),
{
    if lines.len() == 0 {
        Seq::empty()
    } else {
        let prev = nonblank_trimmed(lines.drop_last());
        let t = trimmed(lines.last());
        if t.len() == 0 {
            prev
        } else {
            prev.push(t)
        }
    }
}

/// The candidate messages in a model reply: every line trimmed, blank lines dropped.
pub open spec fn candidate_lines(content: Seq<char>) -> Seq<Seq<char>> {
    nonblank_trimmed(split_newlines(content))
}

/// Relies on `str::trim`: removes leading and trailing characters with the
/// Unicode `White_Space` property.
#[verifier::external_body]
pub(crate) fn trim_text(s: &str) -> (r: &str)
    ensures
        r@ == trimmed(s@),
{
    s.trim()
}

/// Relies on `str::split` with the pattern `'\n'`: every piece between
/// newlines, in order, the empty ones included.
#[verifier::external_body]
pub(crate) fn split_at_newlines(s: &str) -> (r: Vec<String>)
    ensures
        views(r@) == split_newlines(s@),
{
    s.split('\n').map(String::from).collect()
}

/// Splits `content` into lines, trims each one and keeps those that are not
/// empty, in the order they came.
pub fn extract_candidates(content: &str) -> (r: Vec<String>)
    ensures
        views(r@) == candidate_lines(content@),
{
    let lines = split_at_newlines(content);
    let ghost lv = views(lines@);
    let mut out: Vec<String> = Vec::new();
    let mut i: usize = 0;
    while i < lines.len()
        invariant
            i <= lines@.len(),
            lv == views(lines@),
            lv == split_newlines(content@),
            views(out@) == nonblank_trimmed(lv.subrange(0, i as int)),
        decreases lines@.len() - i,
    {
        let t = trim_text(lines[i].as_str());
        proof {
            assert(lv.subrange(0, i + 1).drop_last() =~= lv.subrange(0, i as int));
            assert(lv.subrange(0, i + 1).last() == lines@[i as int]@);
        }
        if !t.is_empty() {
            let ghost before = out@;
            out.push(t.to_string());
            assert(views(out@) =~= views(before).push(t@));
        }
        i = i + 1;
    }
    assert(lv.subrange(0, lines@.len() as int) =~= lv);
    out
}

/// A line without the one carriage return that may end it.
pub open spec fn without_cr(l: Seq<char>) -> Seq<char> {
    if l.len() > 0 && l.last() == '\r' {
        l.drop_last()
    } else {
        l
    }
}

/// The lines of a text: the pieces ended by `'\n'`, each without one
/// trailing `'\r'`, then the piece after the last newline unless it is empty.
/// Empty lines are kept; the empty text has no lines.
pub open spec fn text_lines(s: Seq<char>) -> Seq<Seq<char>> {
    let pieces = split_newlines(s);
    let ended = pieces.drop_last().map_values(|l: Seq<char>| without_cr(l));
    if pieces.last().len() == 0 {
        ended
    } else {
        ended.push(pieces.last())
    }
}

proof fn lemma_split_newlines_len(s: Seq<char>)
    ensures
        split_newlines(s).len() >= 1,
    decreases s.len(),
{
    if s.len() > 0 {
        lemma_split_newlines_len(s.drop_last());
    }
}

/// `l` without one trailing carriage return.
fn strip_cr(l: &str) -> (r: String)
    ensures
        r@ == without_cr(l@),
{
    let n = l.unicode_len();
    if n > 0 && l.get_char(n - 1) == '\r' {
        l.substring_char(0, n - 1).to_string()
    } else {
        l.to_string()
    }
}

/// The lines of `output`, as `str::lines` gives them.
pub fn lines_of(output: &str) -> (r: Vec<String>)
    ensures
        views(r@) == text_lines(output@),
{
    let pieces = split_at_newlines(output);
    let ghost pv = views(pieces@);
    proof {
        lemma_split_newlines_len(output@);
    }
    let last = pieces.len() - 1;
    let mut out: Vec<String> = Vec::new();
    let mut i: usize = 0;
    while i < last
        invariant
            last + 1 == pieces@.len(),
            i <= last,
            pv == views(pieces@),
            pv == split_newlines(output@),
            views(out@) == pv.subrange(0, i as int).map_values(|l: Seq<char>| without_cr(l)),
        decreases last - i,
    {
        let line = strip_cr(pieces[i].as_str());
        let ghost before = out@;
        let ghost added = line@;
        out.push(line);
        assert(views(out@) =~= views(before).push(added));
        assert(pv[i as int] == pieces@[i as int]@);
        assert(views(out@) =~= pv.subrange(0, i + 1).map_values(|l: Seq<char>| without_cr(l)));
        i = i + 1;
    }
    assert(pv.subrange(0, last as int) =~= pv.drop_last());
    assert(pv.last() == pieces@[last as int]@);
    if !pieces[last].as_str().is_empty() {
        let ghost before = out@;
        out.push(pieces[last].clone());
        assert(views(out@) =~= views(before).push(pv.last()));
    }
    out
}

/// The decimal text of one digit.
pub open spec fn digit_text(d: nat) -> Seq<char> {
    if d == 0 {
        "0"@
    } else if d == 1 {
        "1"@
    } else if d == 2 {
        "2"@
    } else if d == 3 {
        "3"@
    } else if d == 4 {
        "4"@
    } else if d == 5 {
        "5"@
    } else if d == 6 {
        "6"@
    } else if d == 7 {
        "7"@
    } else if d == 8 {
        "8"@
    } else {
        "9"@
    }
}

/// The decimal text of `n`, without leading zeros.
pub open spec fn decimal(n: nat) -> Seq<char>
    decreases n,
{
    if n < 10 {
        digit_text(n)
    } else {
        decimal(n / 10) + digit_text(n % 10)
    }
}

fn digit_str(d: u32) -> (r: &'static str)
    requires
        d < 10,
    ensures
        r@ == digit_text(d as nat),
{
    if d == 0 {
        "0"
    } else if d == 1 {
        "1"
    } else if d == 2 {
        "2"
    } else if d == 3 {
        "3"
    } else if d == 4 {
        "4"
    } else if d == 5 {
        "5"
    } else if d == 6 {
        "6"
    } else if d == 7 {
        "7"
    } else if d == 8 {
        "8"
    } else {
        "9"
    }
}

/// The decimal text of `n`.
pub fn decimal_text(n: u32) -> (r: String)
    ensures
        r@ == decimal(n as nat),
    decreases n,
{
    if n < 10 {
        digit_str(n).to_string()
    } else {
        let mut s = decimal_text(n / 10);
        s.append(digit_str(n % 10));
        s
    }
}

proof fn lemma_trim_start_edge(s: Seq<char>)
    ensures
        trim_start(s).len() > 0 ==> !is_white_space(trim_start(s)[0]),
    decreases s.len(),
{
    if s.len() > 0 && is_white_space(s[0]) {
        lemma_trim_start_edge(s.drop_first());
    }
}

proof fn lemma_trim_end_edges(s: Seq<char>)
    ensures
        trim_end(s).len() <= s.len(),
        trim_end(s) == s.subrange(0, trim_end(s).len() as int),
        trim_end(s).len() > 0 ==> !is_white_space(trim_end(s).last()),
    decreases s.len(),
{
    if s.len() > 0 && is_white_space(s.last()) {
        lemma_trim_end_edges(s.drop_last());
        assert(trim_end(s) =~= s.subrange(0, trim_end(s).len() as int));
    } else {
        assert(s.subrange(0, s.len() as int) =~= s);
    }
}

/// A trimmed text that is not empty starts and ends with a character other
/// than white space.
pub proof fn lemma_trimmed_edges(s: Seq<char>)
    ensures
        trimmed(s).len() > 0 ==> !is_white_space(trimmed(s)[0]) && !is_white_space(
            trimmed(s).last(),
        ),
{
    lemma_trim_start_edge(s);
    lemma_trim_end_edges(trim_start(s));
    if trimmed(s).len() > 0 {
        assert(trimmed(s)[0] == trim_start(s)[0]);
    }
}

proof fn lemma_nonblank_trimmed_edges(lines: Seq<Seq<char>>)
    ensures
        forall|i: int|
            0 <= i < nonblank_trimmed(lines).len() ==> {
                let c = #[trigger] nonblank_trimmed(lines)[i];
                c.len() > 0 && !is_white_space(c[0]) && !is_white_space(c.last())
            },
    decreases lines.len(),
{
    if lines.len() > 0 {
        lemma_nonblank_trimmed_edges(lines.drop_last());
        lemma_trimmed_edges(lines.last());
        let prev = nonblank_trimmed(lines.drop_last());
        let out = nonblank_trimmed(lines);
        assert forall|i: int| 0 <= i < out.len() implies {
            let c = #[trigger] out[i];
            c.len() > 0 && !is_white_space(c[0]) && !is_white_space(c.last())
        } by {
            if i < prev.len() {
                assert(out[i] == prev[i]);
            }
        }
    }
}

/// Every candidate of a reply is non-empty and has no white space at either end.
pub proof fn lemma_candidates_trimmed(content: Seq<char>)
    ensures
        forall|i: int|
            0 <= i < candidate_lines(content).len() ==> {
                let c = #[trigger] candidate_lines(content)[i];
                c.len() > 0 && !is_white_space(c[0]) && !is_white_space(c.last())
            },
{
    lemma_nonblank_trimmed_edges(split_newlines(content));
}

} // verus!
