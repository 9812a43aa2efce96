//! Splitting a template's text into its frontmatter block and its body.
//!
//! A template may open with a line that is exactly `---`; the lines up to the
//! next such line are its frontmatter, the lines after it its body. Without
//! the opening line the whole text is body. A line ends at `\n` (a `\r`
//! before it is part of the ending); every line is kept with its own ending.
use vstd::prelude::*;

use crate::text::{chars_of, string_of, extend_chars};

verus! {

/// The lines of `s`, each with its line feed, given that the current line
/// starts at `start` and that the scan has reached `i` without meeting a
/// line feed since `start`.
pub open spec fn lines_from(s: Seq<char>, start: int, i: int) -> Seq<Seq<char>>
    decreases s.len() - i,
{
    if i >= s.len() {
        if start < s.len() {
            seq![s.subrange(start, s.len() as int)]
        } else {
            seq![]
        }
    } else if s[i] == '\n' {
        seq![s.subrange(start, i + 1)] + lines_from(s, i + 1, i + 1)
    } else {
        lines_from(s, start, i + 1)
    }
}

/// The lines of `s`: split after each `\n`, each keeping its ending; a last
/// line without a line feed is kept too.
pub open spec fn lines(s: Seq<char>) -> Seq<Seq<char>> {
    lines_from(s, 0, 0)
}

/// A line without the carriage return that may precede its line feed.
pub open spec fn strip_cr(l: Seq<char>) -> Seq<char> {
    if l.len() > 0 && l.last() == '\r' {
        l.drop_last()
    } else {
        l
    }
}

/// What a line holds: the line without its ending (`\n` or `\r\n`).
pub open spec fn content(l: Seq<char>) -> Seq<char> {
    if l.len() > 0 && l.last() == '\n' {
        strip_cr(l.drop_last())
    } else {
        l
    }
}

/// The lines written out one after the other.
pub open spec fn concat(ls: Seq<Seq<char>>) -> Seq<char>
    decreases ls.len(),
{
    if ls.len() == 0 {
        seq![]
    } else {
        concat(ls.drop_last()) + ls.last()
    }
}

/// The line that opens and closes a frontmatter block: `---` and its ending.
pub open spec fn is_marker(l: Seq<char>) -> bool {
    content(l) == seq!['-', '-', '-']
}

/// The index of the first marker line at or after `from`, or the number of lines.
pub open spec fn next_marker(ls: Seq<Seq<char>>, from: int) -> int
    decreases ls.len() - from,
{
    if from >= ls.len() {
        ls.len() as int
    } else if is_marker(ls[from]) {
        from
    } else {
        next_marker(ls, from + 1)
    }
}

/// Whether the text opens a frontmatter block.
pub open spec fn opens_frontmatter(s: Seq<char>) -> bool {
    lines(s).len() > 0 && is_marker(lines(s)[0])
}

/// The frontmatter of `s`: the lines after the opening marker, up to the
/// closing one or to the end.
pub open spec fn frontmatter_of(s: Seq<char>) -> Seq<char> {
    let ls = lines(s);
    if opens_frontmatter(s) {
        concat(ls.subrange(1, next_marker(ls, 1)))
    } else {
        seq![]
    }
}

/// The body of `s`: every line after the closing marker, or the whole text
/// when there is no frontmatter.
pub open spec fn body_of(s: Seq<char>) -> Seq<char> {
    let ls = lines(s);
    if opens_frontmatter(s) {
        let k = next_marker(ls, 1);
        if k < ls.len() {
            concat(ls.subrange(k + 1, ls.len() as int))
        } else {
            seq![]
        }
    } else {
        concat(ls)
    }
}

/// The character views of a list of lines.
pub open spec fn views(ls: Seq<Vec<char>>) -> Seq<Seq<char>> {
    Seq::new(ls.len(), |i: int| ls[i]@)
}

/// A template's text, split.
pub struct SplitTemplate {
    pub frontmatter: String,
    pub body: String,
}

proof fn lemma_next_marker_is(ls: Seq<Seq<char>>, from: int, k: int)
    requires
        0 <= from <= k < ls.len(),
        is_marker(ls[k]),
        forall|j: int| from <= j < k ==> !is_marker(#[trigger] ls[j]),
    ensures
        next_marker(ls, from) == k,
    decreases k - from,
{
    if from < k {
        lemma_next_marker_is(ls, from + 1, k);
    }
}

proof fn lemma_concat_append(a: Seq<Seq<char>>, b: Seq<Seq<char>>)
    ensures
        concat(a + b) == concat(a) + concat(b),
    decreases b.len(),
{
    if b.len() == 0 {
        assert(a + b == a);
    } else {
        lemma_concat_append(a, b.drop_last());
        assert((a + b).drop_last() == a + b.drop_last());
    }
}

proof fn lemma_concat_one(line: Seq<char>)
    ensures
        concat(seq![line]) == line,
{
    assert(seq![line].drop_last() == Seq::<Seq<char>>::empty());
    assert(seq![line].last() == line);
    assert(concat(Seq::<Seq<char>>::empty()) == Seq::<char>::empty());
    assert(Seq::<char>::empty() + line == line);
}

proof fn lemma_concat_lines_from(s: Seq<char>, start: int, i: int)
    requires
        0 <= start <= i <= s.len(),
    ensures
        concat(lines_from(s, start, i)) == s.subrange(start, s.len() as int),
    decreases s.len() - i,
{
    if i >= s.len() {
        if start < s.len() {
            let line = s.subrange(start, s.len() as int);
            lemma_concat_one(line);
        } else {
            assert(s.subrange(start, s.len() as int) == Seq::<char>::empty());
        }
    } else if s[i] == '\n' {
        let line = s.subrange(start, i + 1);
        lemma_concat_lines_from(s, i + 1, i + 1);
        lemma_concat_append(seq![line], lines_from(s, i + 1, i + 1));
        lemma_concat_one(line);
        assert(s.subrange(start, s.len() as int) == line + s.subrange(i + 1, s.len() as int));
    } else {
        lemma_concat_lines_from(s, start, i + 1);
    }
}

proof fn lemma_lines_end_with_line_feed(s: Seq<char>, start: int, i: int)
    requires
        0 <= start <= i <= s.len(),
    ensures
        forall|j: int| 0 <= j < lines_from(s, start, i).len() - 1
            ==> (#[trigger] lines_from(s, start, i)[j]).len() > 0 && lines_from(s, start, i)[j].last() == '\n',
    decreases s.len() - i,
{
    if i >= s.len() {
        assert(lines_from(s, start, i).len() <= 1);
    } else if s[i] == '\n' {
        lemma_lines_end_with_line_feed(s, i + 1, i + 1);
        let line = s.subrange(start, i + 1);
        let rest = lines_from(s, i + 1, i + 1);
        assert(lines_from(s, start, i) == seq![line] + rest);
        assert(line.len() > 0 && line.last() == s[i]);
        assert forall|j: int| 0 <= j < lines_from(s, start, i).len() - 1
            implies (#[trigger] lines_from(s, start, i)[j]).len() > 0 && lines_from(s, start, i)[j].last() == '\n' by {
            if j > 0 {
                assert(lines_from(s, start, i)[j] == rest[j - 1]);
            } else {
                assert(lines_from(s, start, i)[0] == line);
            }
        }
    } else {
        lemma_lines_end_with_line_feed(s, start, i + 1);
        assert(lines_from(s, start, i) == lines_from(s, start, i + 1));
    }
}

/// A text is its lines written out one after the other.
pub proof fn lemma_lines_rebuild(s: Seq<char>)
    ensures
        concat(lines(s)) == s,
{
    lemma_concat_lines_from(s, 0, 0);
    assert(s.subrange(0, s.len() as int) == s);
}

/// When a text opens with a `---` line and line `k` is the next `---` line,
/// the frontmatter is the lines strictly between the two, each ended by a
/// line feed, and the body is every line after the second.
pub proof fn lemma_frontmatter_between_markers(s: Seq<char>, k: int)
    requires
        lines(s).len() > 0,
        is_marker(lines(s)[0]),
        1 <= k < lines(s).len(),
        is_marker(lines(s)[k]),
        forall|j: int| 1 <= j < k ==> !is_marker(#[trigger] lines(s)[j]),
    ensures
        frontmatter_of(s) == concat(lines(s).subrange(1, k)),
        body_of(s) == concat(lines(s).subrange(k + 1, lines(s).len() as int)),
        forall|j: int| 1 <= j < k ==> (#[trigger] lines(s)[j]).len() > 0 && lines(s)[j].last() == '\n',
{
    lemma_next_marker_is(lines(s), 1, k);
    lemma_lines_end_with_line_feed(s, 0, 0);
}

/// A text whose first line is not `---` has no frontmatter, and its body is
/// the text unchanged.
pub proof fn lemma_no_frontmatter(s: Seq<char>)
    requires
        !opens_frontmatter(s),
    ensures
        frontmatter_of(s) == Seq::<char>::empty(),
        body_of(s) == s,
{
    lemma_lines_rebuild(s);
}

fn split_lines(s: &Vec<char>) -> (r: Vec<Vec<char>>)
    ensures
        views(r@) == lines(s@),
{
    let mut out: Vec<Vec<char>> = Vec::new();
    let mut cur: Vec<char> = Vec::new();
    let mut start: usize = 0;
    let mut i: usize = 0;
    while i < s.len()
        invariant
            start <= i <= s@.len(),
            cur@ == s@.subrange(start as int, i as int),
            views(out@) + lines_from(s@, start as int, i as int) == lines(s@),
        decreases s@.len() - i,
    {
        cur.push(s[i]);
        assert(s@.subrange(start as int, i + 1) == s@.subrange(start as int, i as int).push(s@[i as int]));
        if s[i] == '\n' {
            let ghost before = views(out@);
            out.push(cur);
            assert(views(out@) == before.push(s@.subrange(start as int, i + 1)));
            cur = Vec::new();
            start = i + 1;
        }
        i = i + 1;
    }
    if start < s.len() {
        let ghost before = views(out@);
        out.push(cur);
        assert(views(out@) == before.push(s@.subrange(start as int, s@.len() as int)));
    }
    assert(views(out@) == lines(s@));
    out
}

fn is_dashes(l: &Vec<char>, n: usize) -> (r: bool)
    requires
        n <= l@.len(),
    ensures
        r == (l@.subrange(0, n as int) == seq!['-', '-', '-']),
{
    if n == 3 && l[0] == '-' && l[1] == '-' && l[2] == '-' {
        assert(l@.subrange(0, 3) == seq!['-', '-', '-']);
        true
    } else {
        assert(seq!['-', '-', '-'].len() == 3);
        if n == 3 {
            assert(l@.subrange(0, 3)[0] == l@[0]);
            assert(l@.subrange(0, 3)[1] == l@[1]);
            assert(l@.subrange(0, 3)[2] == l@[2]);
        }
        false
    }
}

fn is_marker_line(l: &Vec<char>) -> (r: bool)
    ensures
        r == is_marker(l@),
{
    let n = l.len();
    if n > 0 && l[n - 1] == '\n' {
        if n > 1 && l[n - 2] == '\r' {
            assert(content(l@) == l@.subrange(0, n - 2));
            is_dashes(l, n - 2)
        } else {
            assert(content(l@) == l@.subrange(0, n - 1));
            is_dashes(l, n - 1)
        }
    } else {
        assert(l@.subrange(0, n as int) == l@);
        is_dashes(l, n)
    }
}

fn append_lines(out: &mut Vec<char>, ls: &Vec<Vec<char>>, from: usize, to: usize)
    requires
        from <= to <= ls@.len(),
    ensures
        final(out)@ == old(out)@ + concat(views(ls@).subrange(from as int, to as int)),
{
    let mut i: usize = from;
    assert(views(ls@).subrange(from as int, from as int) == Seq::<Seq<char>>::empty());
    while i < to
        invariant
            from <= i <= to <= ls@.len(),
            out@ == old(out)@ + concat(views(ls@).subrange(from as int, i as int)),
        decreases to - i,
    {
        extend_chars(out, &ls[i]);
        let ghost sub = views(ls@).subrange(from as int, i + 1);
        assert(sub.drop_last() == views(ls@).subrange(from as int, i as int));
        assert(sub.last() == ls@[i as int]@);
        i = i + 1;
    }
}

/// Splits a template's text into frontmatter and body. Without an opening
/// `---` line the body is the text unchanged.
pub fn split_frontmatter(raw: &str) -> (r: SplitTemplate)
    ensures
        r.frontmatter@ == frontmatter_of(raw@),
        r.body@ == body_of(raw@),
        !opens_frontmatter(raw@) ==> r.body@ == raw@ && r.frontmatter@.len() == 0,
{
    let chars = chars_of(raw);
    let ls = split_lines(&chars);
    let ghost lv = views(ls@);
    let mut fm: Vec<char> = Vec::new();
    let mut body: Vec<char> = Vec::new();
    if ls.len() > 0 && is_marker_line(&ls[0]) {
        let mut k: usize = 1;
        while k < ls.len() && !is_marker_line(&ls[k])
            invariant
                1 <= k <= ls@.len(),
                lv == views(ls@),
                next_marker(lv, 1) == next_marker(lv, k as int),
            decreases ls@.len() - k,
        {
            k = k + 1;
        }
        append_lines(&mut fm, &ls, 1, k);
        if k < ls.len() {
            append_lines(&mut body, &ls, k + 1, ls.len());
        }
    } else {
        append_lines(&mut body, &ls, 0, ls.len());
        assert(lv.subrange(0, lv.len() as int) == lv);
        proof {
            lemma_no_frontmatter(raw@);
        }
    }
    SplitTemplate { frontmatter: string_of(&fm), body: string_of(&body) }
}

} // verus!
