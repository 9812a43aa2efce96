//! JSON text of configuration values, the form in which the template engine
//! receives its context.
use vstd::prelude::*;

use crate::config::ConfigTree;
use crate::text::{chars_of, extend_str};

verus! {

broadcast use vstd::std_specs::vec::group_vec_axioms;

/// The hexadecimal digit of `d`, in lower case.
pub open spec fn hex_digit(d: u32) -> char {
    if d < 10 {
        ((d + 48) as u8) as char
    } else {
        ((d + 87) as u8) as char
    }
}

/// The decimal digit of `d`.
pub open spec fn digit(d: nat) -> char {
    ((d + 48) as u8) as char
}

/// A character as it stands inside a JSON string.
pub open spec fn escape_char(c: char) -> Seq<char> {
    if c == '"' {
        seq!['\\', '"']
    } else if c == '\\' {
        seq!['\\', '\\']
    } else if (c as u32) < 32 {
        seq!['\\', 'u', '0', '0', hex_digit((c as u32) / 16), hex_digit((c as u32) % 16)]
    } else {
        seq![c]
    }
}

/// A text with every character escaped.
pub open spec fn escaped(s: Seq<char>) -> Seq<char>
    decreases s.len(),
{
    if s.len() == 0 {
        seq![]
    } else {
        escaped(s.drop_last()) + escape_char(s.last())
    }
}

/// A JSON string holding `s`.
pub open spec fn quoted(s: Seq<char>) -> Seq<char> {
    seq!['"'] + escaped(s) + seq!['"']
}

/// The decimal digits of `n`.
pub open spec fn decimal(n: nat) -> Seq<char>
    decreases n,
{
    if n < 10 {
        seq![digit(n)]
    } else {
        decimal(n / 10).push(digit(n % 10))
    }
}

/// A JSON number holding the integer `n`.
pub open spec fn int_json(n: int) -> Seq<char> {
    if n < 0 {
        seq!['-'] + decimal((-n) as nat)
    } else {
        decimal(n as nat)
    }
}

/// A JSON object member.
pub open spec fn member(key: Seq<char>, value: Seq<char>) -> Seq<char> {
    quoted(key) + seq![':'] + value
}

/// Texts separated by commas.
pub open spec fn commas(parts: Seq<Seq<char>>) -> Seq<char>
    decreases parts.len(),
{
    if parts.len() == 0 {
        seq![]
    } else if parts.len() == 1 {
        parts[0]
    } else {
        commas(parts.drop_last()) + seq![','] + parts.last()
    }
}

/// A JSON object made of these members.
pub open spec fn object(members: Seq<Seq<char>>) -> Seq<char> {
    seq!['{'] + commas(members) + seq!['}']
}

/// The JSON text of a configuration value. Floating-point values and dates
/// are carried as strings holding their text.
pub open spec fn json_of(t: ConfigTree) -> Seq<char>
    decreases t, 0int,
{
    match t {
        ConfigTree::Str(s) => quoted(s@),
        ConfigTree::Integer(n) => int_json(n as int),
        ConfigTree::Float(s) => quoted(s@),
        ConfigTree::Boolean(b) => if b {
            "true"@
        } else {
            "false"@
        },
        ConfigTree::Datetime(s) => quoted(s@),
        ConfigTree::Array(v) => seq!['['] + json_items(v@, v@.len() as int) + seq![']'],
        ConfigTree::Table(e) => seq!['{'] + json_entries(e@, e@.len() as int) + seq!['}'],
    }
}

/// The first `n` items of an array, as JSON separated by commas.
pub open spec fn json_items(v: Seq<ConfigTree>, n: int) -> Seq<char>
    decreases v, n,
{
    if n <= 0 || n > v.len() {
        seq![]
    } else if n == 1 {
        json_of(v[0])
    } else {
        json_items(v, n - 1) + seq![','] + json_of(v[n - 1])
    }
}

/// The first `n` entries of a table, as JSON members separated by commas.
pub open spec fn json_entries(e: Seq<(String, ConfigTree)>, n: int) -> Seq<char>
    decreases e, n,
{
    if n <= 0 || n > e.len() {
        seq![]
    } else if n == 1 {
        member(e[0].0@, json_of(e[0].1))
    } else {
        json_entries(e, n - 1) + seq![','] + member(e[n - 1].0@, json_of(e[n - 1].1))
    }
}

/// The JSON text of a configuration that may be absent: `null` when it is.
pub open spec fn config_json(c: Option<ConfigTree>) -> Seq<char> {
    match c {
        Some(t) => json_of(t),
        None => "null"@,
    }
}

fn hex(d: u32) -> (r: char)
    requires
        d < 16,
    ensures
        r == hex_digit(d),
{
    if d < 10 {
        ((d + 48) as u8) as char
    } else {
        ((d + 87) as u8) as char
    }
}

fn push_escaped(out: &mut Vec<char>, c: char)
    ensures
        final(out)@ == old(out)@ + escape_char(c),
{
    if c == '"' {
        out.push('\\');
        out.push('"');
    } else if c == '\\' {
        out.push('\\');
        out.push('\\');
    } else if (c as u32) < 32 {
        out.push('\\');
        out.push('u');
        out.push('0');
        out.push('0');
        out.push(hex((c as u32) / 16));
        out.push(hex((c as u32) % 16));
    } else {
        out.push(c);
    }
}

/// Appends `s` as a JSON string.
pub(crate) fn push_quoted(out: &mut Vec<char>, s: &str)
    ensures
        final(out)@ == old(out)@ + quoted(s@),
{
    let cs = chars_of(s);
    out.push('"');
    let ghost start = out@;
    let mut i: usize = 0;
    while i < cs.len()
        invariant
            i <= cs@.len(),
            cs@ == s@,
            out@ == start + escaped(cs@.subrange(0, i as int)),
        decreases cs@.len() - i,
    {
        push_escaped(out, cs[i]);
        assert(cs@.subrange(0, i + 1).drop_last() == cs@.subrange(0, i as int));
        i = i + 1;
    }
    assert(cs@.subrange(0, cs@.len() as int) == s@);
    out.push('"');
    assert(out@ == old(out)@ + quoted(s@));
}

fn push_decimal(out: &mut Vec<char>, n: u64)
    ensures
        final(out)@ == old(out)@ + decimal(n as nat),
    decreases n,
{
    if n >= 10 {
        push_decimal(out, n / 10);
    }
    out.push(((n % 10) as u8 + 48) as char);
}

fn push_int(out: &mut Vec<char>, n: i64)
    ensures
        final(out)@ == old(out)@ + int_json(n as int),
{
    if n < 0 {
        out.push('-');
        let m: u64 = (0i128 - n as i128) as u64;
        push_decimal(out, m);
        assert(out@ == old(out)@ + seq!['-'] + decimal((-n) as nat));
    } else {
        push_decimal(out, n as u64);
    }
}

/// Appends the JSON text of a configuration value.
pub(crate) fn push_json(out: &mut Vec<char>, t: &ConfigTree)
    ensures
        final(out)@ == old(out)@ + json_of(*t),
    decreases t,
{
    match t {
        ConfigTree::Str(s) => push_quoted(out, s.as_str()),
        ConfigTree::Integer(n) => push_int(out, *n),
        ConfigTree::Float(s) => push_quoted(out, s.as_str()),
        ConfigTree::Boolean(b) => {
            if *b {
                extend_str(out, "true");
            } else {
                extend_str(out, "false");
            }
        },
        ConfigTree::Datetime(s) => push_quoted(out, s.as_str()),
        ConfigTree::Array(v) => {
            out.push('[');
            let ghost start = out@;
            let mut i: usize = 0;
            while i < v.len()
                invariant
                    i <= v@.len(),
                    out@ == start + json_items(v@, i as int),
                    *t == ConfigTree::Array(*v),
                decreases v@.len() - i,
            {
                if i > 0 {
                    out.push(',');
                }
                assert(decreases_to!(*t => (*t)->Array_0));
                assert(decreases_to!(*v => v[i as int]));
                push_json(out, &v[i]);
                i = i + 1;
            }
            out.push(']');
        },
        ConfigTree::Table(e) => {
            out.push('{');
            let ghost start = out@;
            let mut i: usize = 0;
            while i < e.len()
                invariant
                    i <= e@.len(),
                    out@ == start + json_entries(e@, i as int),
                    *t == ConfigTree::Table(*e),
                decreases e@.len() - i,
            {
                if i > 0 {
                    out.push(',');
                }
                push_quoted(out, e[i].0.as_str());
                out.push(':');
                assert(decreases_to!(*t => (*t)->Table_0));
                assert(decreases_to!(*e => e[i as int]));
                assert(decreases_to!(e[i as int] => e[i as int].1));
                push_json(out, &e[i].1);
                i = i + 1;
            }
            out.push('}');
        },
    }
}

/// Appends the JSON text of a configuration that may be absent.
pub(crate) fn push_config(out: &mut Vec<char>, c: &Option<ConfigTree>)
    ensures
        final(out)@ == old(out)@ + config_json(*c),
{
    match c {
        Some(t) => push_json(out, t),
        None => extend_str(out, "null"),
    }
}

} // verus!
