//! The library's error type.
use vstd::prelude::*;

use crate::text::chars_of;

verus! {

/// Declares `std::io::ErrorKind`, which an I/O failure is reported with.
#[verifier::external_type_specification]
#[verifier::external_body]
pub struct ExIoErrorKind(std::io::ErrorKind);

/// What went wrong.
#[derive(Debug)]
pub enum ErrorKind {
    /// Unclassified.
    Base,
    /// The version-control client failed, with its message.
    Git(String),
    /// Reading or writing a file failed.
    Io(std::io::ErrorKind),
    /// A configuration document did not parse, with the line and column when known.
    Toml(Option<(usize, usize)>),
    /// The template engine refused a template.
    Render,
    /// A template uses what the library does not hand to the engine
    /// (partials, raw blocks, escaped tags, `[` in a tag) or nests blocks,
    /// `else` branches or brackets deeper than it allows.
    UnsupportedTemplate,
    /// No usable clipboard is configured; holds the configured value, if any.
    Clipboard(Option<String>),
    /// A configuration entry under this key does not have the expected shape.
    Malformed(String),
}

#[derive(Debug)]
pub struct Error {
    kind: ErrorKind,
}

impl Error {
    pub fn new(kind: ErrorKind) -> (r: Error)
        ensures
            r.spec_kind() == kind,
    {
        Error { kind }
    }

    pub fn kind(&self) -> (r: &ErrorKind)
        ensures
            *r == self.spec_kind(),
    {
        &self.kind
    }

    pub closed spec fn spec_kind(&self) -> ErrorKind {
        self.kind
    }
}

/// The number of bytes UTF-8 takes for `c`.
pub open spec fn utf8_len(c: char) -> nat {
    let u = c as u32;
    if u < 0x80 {
        1
    } else if u < 0x800 {
        2
    } else if u < 0x10000 {
        3
    } else {
        4
    }
}

/// How many characters of `s`, from the `i`-th on and `bytes` bytes in,
/// lie wholly within the first `offset` bytes.
pub open spec fn chars_within(s: Seq<char>, i: int, bytes: nat, offset: nat) -> int
    decreases s.len() - i,
{
    if 0 <= i < s.len() && bytes + utf8_len(s[i]) <= offset {
        chars_within(s, i + 1, bytes + utf8_len(s[i]), offset)
    } else {
        i
    }
}

/// The number of line feeds in `p`.
pub open spec fn line_count(p: Seq<char>) -> nat
    decreases p.len(),
{
    if p.len() == 0 {
        0
    } else {
        line_count(p.drop_last()) + if p.last() == '\n' {
            1nat
        } else {
            0nat
        }
    }
}

/// The number of characters after the last line feed of `p`.
pub open spec fn column(p: Seq<char>) -> nat
    decreases p.len(),
{
    if p.len() == 0 {
        0
    } else if p.last() == '\n' {
        0
    } else {
        column(p.drop_last()) + 1
    }
}

/// The zero-based line and column, in characters, of byte `offset` of `s`.
pub open spec fn position(s: Seq<char>, offset: nat) -> (nat, nat) {
    let p = s.subrange(0, chars_within(s, 0, 0, offset));
    (line_count(p), column(p))
}

/// The line and column of a byte offset into a text, as a parser reports
/// where it stopped.
pub fn position_of(text: &str, offset: usize) -> (r: (usize, usize))
    ensures
        r.0 == position(text@, offset as nat).0,
        r.1 == position(text@, offset as nat).1,
{
    let s = chars_of(text);
    let mut i: usize = 0;
    let mut bytes: usize = 0;
    let mut line: usize = 0;
    let mut col: usize = 0;
    loop
        invariant
            i <= s@.len(),
            bytes <= offset,
            line <= i,
            col <= i,
            s@ == text@,
            chars_within(s@, 0, 0, offset as nat) == chars_within(s@, i as int, bytes as nat, offset as nat),
            line == line_count(s@.subrange(0, i as int)),
            col == column(s@.subrange(0, i as int)),
        ensures
            chars_within(s@, 0, 0, offset as nat) == i,
            line == line_count(s@.subrange(0, i as int)),
            col == column(s@.subrange(0, i as int)),
        decreases s@.len() - i,
    {
        if i >= s.len() {
            break;
        }
        let c = s[i];
        let u = c as u32;
        let w: usize = if u < 0x80 {
            1
        } else if u < 0x800 {
            2
        } else if u < 0x10000 {
            3
        } else {
            4
        };
        assert(w == utf8_len(c));
        if offset - bytes < w {
            break;
        }
        assert(s@.subrange(0, i + 1).drop_last() == s@.subrange(0, i as int));
        if c == '\n' {
            line = line + 1;
            col = 0;
        } else {
            col = col + 1;
        }
        bytes = bytes + w;
        i = i + 1;
    }
    (line, col)
}

} // verus!
