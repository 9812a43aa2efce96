//! What the library looks for in template text before handing it to the
//! template engine.
use vstd::prelude::*;

verus! {

/// Characters the engine lets stand between `{{` and what the tag is.
pub open spec fn is_pad(c: char) -> bool {
    c == ' ' || c == '\t' || c == '\n' || c == '\r' || c == '~'
}

/// The first index at or after `j` that is not padding, or the length.
pub open spec fn skip_pad(s: Seq<char>, j: int) -> int
    decreases s.len() - j,
{
    if j < 0 || j >= s.len() {
        s.len() as int
    } else if is_pad(s[j]) {
        skip_pad(s, j + 1)
    } else {
        j
    }
}

/// How deep the engine may nest a template's blocks, counting each `else`
/// branch of an open block as one level more (an `{{else if}}` chain is
/// nested one branch inside the other).
pub const MAX_NESTING: usize = 64;

/// How deep brackets (subexpressions and literals) may nest inside one tag.
pub const MAX_TAG_DEPTH: usize = 32;

/// Where the scan of a template stands.
#[derive(PartialEq, Eq, Structural, Clone, Copy)]
pub enum Mode {
    Text,
    Tag,
    DoubleQuoted,
    SingleQuoted,
    Comment,
    LongComment,
}

/// The scan's state: its mode, the bracket depth inside the current tag, and
/// for each open block the number of `else` branches seen in it.
pub struct Lexer {
    pub mode: Mode,
    pub depth: usize,
    pub blocks: Seq<usize>,
}

/// The nesting the open blocks cost the engine: one level per block and one
/// per `else` branch.
pub open spec fn weight(b: Seq<usize>) -> nat
    decreases b.len(),
{
    if b.len() == 0 {
        0
    } else {
        weight(b.drop_last()) + 1 + b.last() as nat
    }
}

/// Whether `c` stands twice from `i` on.
pub open spec fn pair_at(s: Seq<char>, i: int, c: char) -> bool {
    0 <= i && i + 1 < s.len() && s[i] == c && s[i + 1] == c
}

/// A tag of the given mode, with the given blocks.
pub open spec fn in_mode(mode: Mode, blocks: Seq<usize>) -> Lexer {
    Lexer { mode, depth: 0, blocks }
}

/// A block opens in the tag at `i`.
pub open spec fn push_block(i: int, st: Lexer) -> Option<(int, Lexer)> {
    let b = st.blocks.push(0usize);
    if weight(b) > MAX_NESTING {
        None
    } else {
        Some((i + 2, in_mode(Mode::Tag, b)))
    }
}

/// An `else` branch of the innermost open block starts in the tag at `i`.
pub open spec fn else_branch(i: int, st: Lexer) -> Option<(int, Lexer)> {
    if st.blocks.len() == 0 {
        Some((i + 2, in_mode(Mode::Tag, st.blocks)))
    } else {
        let b = st.blocks.update(st.blocks.len() - 1, (st.blocks.last() + 1) as usize);
        if weight(b) > MAX_NESTING {
            None
        } else {
            Some((i + 2, in_mode(Mode::Tag, b)))
        }
    }
}

/// A tag opens at `i` (`{{`): what kind of tag it is decides the next state.
/// Partials are refused; `else` and `^` alone start a branch; `#` and `^`
/// open a block, `/` closes one; `!` starts a comment.
pub open spec fn open_tag(s: Seq<char>, i: int, st: Lexer) -> Option<(int, Lexer)> {
    let j = skip_pad(s, i + 2);
    if j >= s.len() {
        Some((i + 2, in_mode(Mode::Tag, st.blocks)))
    } else if s[j] == '>' {
        None
    } else if s[j] == '#' {
        let k = skip_pad(s, j + 1);
        if k < s.len() && s[k] == '>' {
            None
        } else {
            push_block(i, st)
        }
    } else if s[j] == '^' {
        let k = skip_pad(s, j + 1);
        if k < s.len() && s[k] == '}' {
            else_branch(i, st)
        } else {
            push_block(i, st)
        }
    } else if s[j] == '/' {
        Some(
            (
                i + 2,
                in_mode(
                    Mode::Tag,
                    if st.blocks.len() > 0 {
                        st.blocks.drop_last()
                    } else {
                        st.blocks
                    },
                ),
            ),
        )
    } else if s[j] == '!' {
        if j + 2 < s.len() && s[j + 1] == '-' && s[j + 2] == '-' {
            Some((j + 3, in_mode(Mode::LongComment, st.blocks)))
        } else {
            Some((j + 1, in_mode(Mode::Comment, st.blocks)))
        }
    } else if j + 3 < s.len() && s[j] == 'e' && s[j + 1] == 'l' && s[j + 2] == 's' && s[j + 3] == 'e' {
        else_branch(i, st)
    } else {
        Some((i + 2, in_mode(Mode::Tag, st.blocks)))
    }
}

/// One step of the scan at `i`: the next position and state, or `None` when
/// the text uses what the library does not hand to the engine (partials,
/// raw blocks, escaped `{{`, `[` inside a tag) or nests too deep.
pub open spec fn lex_step(s: Seq<char>, i: int, st: Lexer) -> Option<(int, Lexer)> {
    match st.mode {
        Mode::Text => {
            if s[i] == '\\' && pair_at(s, i + 1, '{') {
                None
            } else if pair_at(s, i, '{') {
                if pair_at(s, i + 2, '{') {
                    None
                } else {
                    open_tag(s, i, st)
                }
            } else {
                Some((i + 1, st))
            }
        },
        Mode::Tag => {
            if pair_at(s, i, '}') {
                Some((i + 2, in_mode(Mode::Text, st.blocks)))
            } else if s[i] == '"' {
                Some((i + 1, Lexer { mode: Mode::DoubleQuoted, depth: st.depth, blocks: st.blocks }))
            } else if s[i] == '\'' {
                Some((i + 1, Lexer { mode: Mode::SingleQuoted, depth: st.depth, blocks: st.blocks }))
            } else if s[i] == '[' {
                None
            } else if s[i] == '(' || s[i] == '{' {
                if st.depth + 1 > MAX_TAG_DEPTH {
                    None
                } else {
                    Some((i + 1, Lexer { mode: Mode::Tag, depth: (st.depth + 1) as usize, blocks: st.blocks }))
                }
            } else if s[i] == ')' || s[i] == '}' {
                Some(
                    (
                        i + 1,
                        Lexer {
                            mode: Mode::Tag,
                            depth: if st.depth > 0 {
                                (st.depth - 1) as usize
                            } else {
                                0
                            },
                            blocks: st.blocks,
                        },
                    ),
                )
            } else {
                Some((i + 1, st))
            }
        },
        Mode::DoubleQuoted => {
            if s[i] == '\\' && i + 1 < s.len() {
                Some((i + 2, st))
            } else if s[i] == '"' {
                Some((i + 1, Lexer { mode: Mode::Tag, depth: st.depth, blocks: st.blocks }))
            } else {
                Some((i + 1, st))
            }
        },
        Mode::SingleQuoted => {
            if s[i] == '\\' && i + 1 < s.len() {
                Some((i + 2, st))
            } else if s[i] == '\'' {
                Some((i + 1, Lexer { mode: Mode::Tag, depth: st.depth, blocks: st.blocks }))
            } else {
                Some((i + 1, st))
            }
        },
        Mode::Comment => {
            if pair_at(s, i, '}') {
                Some((i + 2, in_mode(Mode::Text, st.blocks)))
            } else {
                Some((i + 1, st))
            }
        },
        Mode::LongComment => {
            if i + 3 < s.len() && s[i] == '-' && s[i + 1] == '-' && s[i + 2] == '}' && s[i + 3] == '}' {
                Some((i + 4, in_mode(Mode::Text, st.blocks)))
            } else {
                Some((i + 1, st))
            }
        },
    }
}

/// Whether the scan from `i` in state `st` reaches the end without refusing;
/// a `{{!--` comment must be closed by `--}}`.
pub open spec fn lex_from(s: Seq<char>, i: int, st: Lexer) -> bool
    decreases s.len() - i,
{
    if i < 0 {
        false
    } else if i >= s.len() {
        st.mode != Mode::LongComment
    } else {
        match lex_step(s, i, st) {
            None => false,
            Some((j, next)) => if i < j <= s.len() {
                lex_from(s, j, next)
            } else {
                false
            },
        }
    }
}

/// Whether the engine may be given this text: no partials, raw blocks or
/// escaped tags, no `[` inside a tag, blocks and `else` branches nested at
/// most `MAX_NESTING` deep, brackets inside a tag at most `MAX_TAG_DEPTH` deep.
pub open spec fn engine_safe(s: Seq<char>) -> bool {
    lex_from(s, 0, in_mode(Mode::Text, Seq::empty()))
}

struct LexState {
    mode: Mode,
    depth: usize,
    blocks: Vec<usize>,
    weight: usize,
}

impl LexState {
    spec fn view(&self) -> Lexer {
        Lexer { mode: self.mode, depth: self.depth, blocks: self.blocks@ }
    }

    spec fn wf(&self) -> bool {
        self.weight == weight(self.blocks@) && self.weight <= MAX_NESTING
    }
}

proof fn lemma_weight_push(b: Seq<usize>)
    ensures
        weight(b.push(0usize)) == weight(b) + 1,
{
    assert(b.push(0usize).drop_last() == b);
}

proof fn lemma_weight_last(b: Seq<usize>)
    requires
        b.len() > 0,
    ensures
        weight(b) == weight(b.drop_last()) + 1 + b.last(),
        b.last() <= weight(b),
{
}

proof fn lemma_weight_bump(b: Seq<usize>)
    requires
        b.len() > 0,
        b.last() < usize::MAX,
    ensures
        weight(b.update(b.len() - 1, (b.last() + 1) as usize)) == weight(b) + 1,
{
    let u = b.update(b.len() - 1, (b.last() + 1) as usize);
    assert(u.drop_last() == b.drop_last());
}

fn tag_step(s: &Vec<char>, i: usize, st: &mut LexState) -> (r: Option<usize>)
    requires
        i < s@.len(),
        pair_at(s@, i as int, '{'),
        old(st).wf(),
    ensures
        final(st).wf(),
        r matches Some(j) ==> i < j <= s@.len(),
        match (r, open_tag(s@, i as int, old(st).view())) {
            (Some(j), Some((sj, next))) => j == sj && final(st).view() == next,
            (None, None) => true,
            _ => false,
        },
{
    let n = s.len();
    let j = skip_padding(s, i + 2);
    if j >= n {
        st.mode = Mode::Tag;
        st.depth = 0;
        return Some(i + 2);
    }
    let c = s[j];
    let mut push = false;
    let mut branch = false;
    if c == '>' {
        return None;
    } else if c == '#' {
        let k = skip_padding(s, j + 1);
        if k < s.len() && s[k] == '>' {
            return None;
        }
        push = true;
    } else if c == '^' {
        let k = skip_padding(s, j + 1);
        if k < s.len() && s[k] == '}' {
            branch = true;
        } else {
            push = true;
        }
    } else if c == '/' {
        if st.blocks.len() > 0 {
            proof {
                lemma_weight_last(st.blocks@);
            }
            let last = st.blocks.pop().unwrap();
            st.weight = st.weight - 1 - last;
        }
        st.mode = Mode::Tag;
        st.depth = 0;
        return Some(i + 2);
    } else if c == '!' {
        st.depth = 0;
        if n - j > 2 && s[j + 1] == '-' && s[j + 2] == '-' {
            st.mode = Mode::LongComment;
            return Some(j + 3);
        } else {
            st.mode = Mode::Comment;
            return Some(j + 1);
        }
    } else if n - j > 3 && c == 'e' && s[j + 1] == 'l' && s[j + 2] == 's' && s[j + 3] == 'e' {
        branch = true;
    }
    if push {
        proof {
            lemma_weight_push(st.blocks@);
        }
        if st.weight >= MAX_NESTING {
            return None;
        }
        st.blocks.push(0);
        st.weight = st.weight + 1;
    } else if branch {
        if st.blocks.len() > 0 {
            proof {
                lemma_weight_last(st.blocks@);
                lemma_weight_bump(st.blocks@);
            }
            if st.weight >= MAX_NESTING {
                return None;
            }
            let n = st.blocks.len();
            let last = st.blocks[n - 1];
            st.blocks.set(n - 1, last + 1);
            st.weight = st.weight + 1;
        }
    }
    st.mode = Mode::Tag;
    st.depth = 0;
    Some(i + 2)
}

fn lex_step_exec(s: &Vec<char>, i: usize, st: &mut LexState) -> (r: Option<usize>)
    requires
        i < s@.len(),
        old(st).wf(),
    ensures
        final(st).wf(),
        r matches Some(j) ==> i < j <= s@.len(),
        match (r, lex_step(s@, i as int, old(st).view())) {
            (Some(j), Some((sj, next))) => j == sj && final(st).view() == next,
            (None, None) => true,
            _ => false,
        },
{
    let n = s.len();
    let c = s[i];
    match st.mode {
        Mode::Text => {
            if c == '\\' && n - i > 2 && s[i + 1] == '{' && s[i + 2] == '{' {
                None
            } else if n - i > 1 && c == '{' && s[i + 1] == '{' {
                if n - i > 3 && s[i + 2] == '{' && s[i + 3] == '{' {
                    None
                } else {
                    tag_step(s, i, st)
                }
            } else {
                Some(i + 1)
            }
        },
        Mode::Tag => {
            if n - i > 1 && c == '}' && s[i + 1] == '}' {
                st.mode = Mode::Text;
                st.depth = 0;
                Some(i + 2)
            } else if c == '"' {
                st.mode = Mode::DoubleQuoted;
                Some(i + 1)
            } else if c == '\'' {
                st.mode = Mode::SingleQuoted;
                Some(i + 1)
            } else if c == '[' {
                None
            } else if c == '(' || c == '{' {
                if st.depth >= MAX_TAG_DEPTH {
                    None
                } else {
                    st.depth = st.depth + 1;
                    Some(i + 1)
                }
            } else if c == ')' || c == '}' {
                if st.depth > 0 {
                    st.depth = st.depth - 1;
                }
                Some(i + 1)
            } else {
                Some(i + 1)
            }
        },
        Mode::DoubleQuoted => {
            if c == '\\' && n - i > 1 {
                Some(i + 2)
            } else {
                if c == '"' {
                    st.mode = Mode::Tag;
                }
                Some(i + 1)
            }
        },
        Mode::SingleQuoted => {
            if c == '\\' && n - i > 1 {
                Some(i + 2)
            } else {
                if c == '\'' {
                    st.mode = Mode::Tag;
                }
                Some(i + 1)
            }
        },
        Mode::Comment => {
            if n - i > 1 && c == '}' && s[i + 1] == '}' {
                st.mode = Mode::Text;
                st.depth = 0;
                Some(i + 2)
            } else {
                Some(i + 1)
            }
        },
        Mode::LongComment => {
            if n - i > 3 && c == '-' && s[i + 1] == '-' && s[i + 2] == '}' && s[i + 3] == '}' {
                st.mode = Mode::Text;
                st.depth = 0;
                Some(i + 4)
            } else {
                Some(i + 1)
            }
        },
    }
}

/// Whether the engine may be given this text.
pub fn engine_may_render(text: &Vec<char>) -> (r: bool)
    ensures
        r == engine_safe(text@),
{
    let mut st = LexState { mode: Mode::Text, depth: 0, blocks: Vec::new(), weight: 0 };
    let mut i: usize = 0;
    assert(st.view() == in_mode(Mode::Text, Seq::<usize>::empty()));
    while i < text.len()
        invariant
            i <= text@.len(),
            st.wf(),
            engine_safe(text@) == lex_from(text@, i as int, st.view()),
        decreases text@.len() - i,
    {
        match lex_step_exec(text, i, &mut st) {
            Some(j) => {
                i = j;
            },
            None => {
                return false;
            },
        }
    }
    st.mode != Mode::LongComment
}

/// Whether position `k` lies inside a tag: after a `{{` with no `}}` since.
pub open spec fn in_tag_at(s: Seq<char>, k: int) -> bool
    decreases k,
{
    if k < 2 || k > s.len() {
        false
    } else if s[k - 2] == '{' && s[k - 1] == '{' {
        true
    } else if s[k - 2] == '}' && s[k - 1] == '}' {
        false
    } else {
        in_tag_at(s, k - 1)
    }
}

/// Whether `word` occurs inside a tag of `s`.
pub open spec fn mentions_in_tag(s: Seq<char>, word: Seq<char>) -> bool {
    exists|k: int| 0 <= k <= s.len() - word.len() && in_tag_at(s, k) && #[trigger] s.subrange(k, k + word.len()) == word
}

fn skip_padding(s: &Vec<char>, j: usize) -> (r: usize)
    ensures
        r == skip_pad(s@, j as int),
        j <= s@.len() ==> j <= r <= s@.len(),
{
    let mut k: usize = j;
    while k < s.len() && (s[k] == ' ' || s[k] == '\t' || s[k] == '\n' || s[k] == '\r' || s[k] == '~')
        invariant
            j <= k,
            skip_pad(s@, j as int) == skip_pad(s@, k as int),
        decreases s@.len() - k,
    {
        k = k + 1;
    }
    if k >= s.len() {
        s.len()
    } else {
        k
    }
}

/// Whether the characters of `word` stand in `s` from `k` on.
fn matches_at(s: &Vec<char>, word: &Vec<char>, k: usize) -> (r: bool)
    requires
        k + word@.len() <= s@.len(),
    ensures
        r == (s@.subrange(k as int, k + word@.len()) == word@),
{
    let n: usize = s.len();
    let mut j: usize = 0;
    while j < word.len()
        invariant
            n == s@.len(),
            k + word@.len() <= s@.len(),
            j <= word@.len(),
            forall|m: int| 0 <= m < j ==> s@[k + m] == word@[m],
        decreases word@.len() - j,
    {
        if s[k + j] != word[j] {
            assert(s@.subrange(k as int, k + word@.len())[j as int] != word@[j as int]);
            return false;
        }
        j = j + 1;
    }
    assert(s@.subrange(k as int, k + word@.len()) == word@);
    true
}

/// Whether `word` occurs inside a tag of `s`.
pub fn find_in_tag(s: &Vec<char>, word: &Vec<char>) -> (r: bool)
    ensures
        r == mentions_in_tag(s@, word@),
{
    if word.len() > s.len() {
        return false;
    }
    let last: usize = s.len() - word.len();
    let mut open = false;
    let mut k: usize = 0;
    loop
        invariant
            last == s@.len() - word@.len(),
            word@.len() <= s@.len(),
            k <= last,
            open == in_tag_at(s@, k as int),
            forall|m: int| 0 <= m < k ==> !(in_tag_at(s@, m) && #[trigger] s@.subrange(m, m + word@.len()) == word@),
        decreases last - k,
    {
        if open && matches_at(s, word, k) {
            return true;
        }
        if k == last {
            assert forall|m: int| 0 <= m <= s@.len() - word@.len() implies !(in_tag_at(s@, m) && #[trigger] s@.subrange(m, m + word@.len()) == word@) by {
                if m == k {
                }
            }
            return false;
        }
        if k >= 1 {
            if s[k - 1] == '{' && s[k] == '{' {
                open = true;
            } else if s[k - 1] == '}' && s[k] == '}' {
                open = false;
            }
        }
        k = k + 1;
    }
}

} // verus!
