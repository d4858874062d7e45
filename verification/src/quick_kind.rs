//! Reading the `kind = "..."` line of a TOML template without parsing it.

use vstd::prelude::*;
use crate::text::{
    chars_of, find_char_from, find_char_from_exec, lemma_find_char_from_b, lemma_trim_len_b,
    slice_copy, starts_with, starts_with_exec, string_of, strip_char, trim, trim_chars, trim_range,
};

verus! {

broadcast use lemma_find_char_from_b, lemma_trim_len_b;

pub open spec fn w_kind() -> Seq<char> {
    seq!['k', 'i', 'n', 'd']
}

pub open spec fn w_compiler() -> Seq<char> {
    seq!['c', 'o', 'm', 'p', 'i', 'l', 'e', 'r']
}

/// The value of a `kind = "..."` line, if `line` is one with a non-empty value.
pub open spec fn kind_of_line(line: Seq<char>) -> Option<Seq<char>> {
    let t = trim(line);
    if starts_with(t, seq!['#']) {
        None
    } else if starts_with(t, w_kind()) {
        let r = trim(t.subrange(4, t.len() as int));
        if starts_with(r, seq!['=']) {
            let v = strip_char(strip_char(trim(r.subrange(1, r.len() as int)), '"'), '\'');
            if v.len() > 0 {
                Some(v)
            } else {
                None
            }
        } else {
            None
        }
    } else {
        None
    }
}

/// A line as `str::lines` yields it: a `\r` before the `\n` is dropped.
pub open spec fn strip_cr(l: Seq<char>) -> Seq<char> {
    if l.len() > 0 && l[l.len() - 1] == '\r' {
        l.subrange(0, l.len() - 1)
    } else {
        l
    }
}

/// The first line of `s` (in `str::lines` order) that declares a kind.
pub open spec fn first_kind(s: Seq<char>) -> Option<Seq<char>>
    decreases s.len(),
{
    if s.len() == 0 {
        None
    } else {
        match find_char_from(s, '\n', 0) {
            Some(i) => match kind_of_line(strip_cr(s.subrange(0, i))) {
                Some(v) => Some(v),
                None => first_kind(s.subrange(i + 1, s.len() as int)),
            },
            None => kind_of_line(s),
        }
    }
}

fn strip_char_vec(v: &Vec<char>, c: char) -> (r: Vec<char>)
    ensures
        r@ == strip_char(v@, c),
{
    crate::expr::strip_char_exec(v, c)
}

fn kind_of_line_exec(line: &Vec<char>) -> (r: Option<Vec<char>>)
    ensures
        crate::expr::opt_view(r) == kind_of_line(line@),
{
    let t = trim_chars(line);
    let hash = vec!['#'];
    let kind = vec!['k', 'i', 'n', 'd'];
    let eq = vec!['='];
    assert(kind@ == w_kind());
    assert(hash@ == seq!['#']);
    assert(eq@ == seq!['=']);
    if starts_with_exec(&t, &hash) {
        None
    } else if starts_with_exec(&t, &kind) {
        let r = trim_range(&t, 4, t.len());
        if starts_with_exec(&r, &eq) {
            let inner = trim_range(&r, 1, r.len());
            let v = strip_char_vec(&strip_char_vec(&inner, '"'), '\'');
            if v.len() > 0 {
                Some(v)
            } else {
                None
            }
        } else {
            None
        }
    } else {
        None
    }
}

/// Fast pre-check that reads the `kind = "..."` line from a TOML file without
/// full parsing. Returns `"compiler"` when no explicit kind is set.
pub fn quick_kind_toml(src: &str) -> (r: String)
    ensures
        r@ == match first_kind(src@) {
            Some(v) => v,
            None => w_compiler(),
        },
{
    let s = chars_of(src);
    let mut lo: usize = 0;
    assert(s@.subrange(0, s.len() as int) == s@);
    while lo < s.len()
        invariant
            lo <= s.len(),
            s@ == src@,
            first_kind(s@.subrange(lo as int, s.len() as int)) == first_kind(src@),
        decreases s.len() - lo,
    {
        let rest = slice_copy(&s, lo, s.len());
        match find_char_from_exec(&rest, '\n', 0) {
            Some(i) => {
                let mut line = slice_copy(&rest, 0, i);
                if line.len() > 0 && line[line.len() - 1] == '\r' {
                    line = slice_copy(&line, 0, line.len() - 1);
                }
                match kind_of_line_exec(&line) {
                    Some(v) => {
                        return string_of(&v);
                    },
                    None => {},
                }
                assert(rest@.subrange(i + 1, rest.len() as int) == s@.subrange(
                    lo + i + 1,
                    s.len() as int,
                ));
                lo = lo + i + 1;
            },
            None => {
                match kind_of_line_exec(&rest) {
                    Some(v) => {
                        return string_of(&v);
                    },
                    None => {
                        let c = vec!['c', 'o', 'm', 'p', 'i', 'l', 'e', 'r'];
                        return string_of(&c);
                    },
                }
            },
        }
    }
    let c = vec!['c', 'o', 'm', 'p', 'i', 'l', 'e', 'r'];
    string_of(&c)
}

} // verus!
