//! Names for packages migrated from foreign build systems.

use vstd::prelude::*;
use crate::text::{chars_of, is_ascii_alnum, string_of};

verus! {

/// `s` without its leading characters that are not ASCII letters or digits.
pub open spec fn trim_start_non_alnum(s: Seq<char>) -> Seq<char>
    decreases s.len(),
{
    if s.len() > 0 && !is_ascii_alnum(s[0]) {
        trim_start_non_alnum(s.drop_first())
    } else {
        s
    }
}

/// `s` without its trailing characters that are not ASCII letters or digits.
pub open spec fn trim_end_non_alnum(s: Seq<char>) -> Seq<char>
    decreases s.len(),
{
    if s.len() > 0 && !is_ascii_alnum(s.last()) {
        trim_end_non_alnum(s.drop_last())
    } else {
        s
    }
}

/// A character kept as it is in a package name, or `-` in its place.
pub open spec fn name_char(c: char) -> char {
    if is_ascii_alnum(c) || c == '-' || c == '_' {
        c
    } else {
        '-'
    }
}

/// A foreign target name as a package name: leading and trailing characters
/// that are not ASCII letters or digits removed, then every character other
/// than `[A-Za-z0-9_-]` replaced by `-`.
pub open spec fn sanitize_spec(s: Seq<char>) -> Seq<char> {
    trim_end_non_alnum(trim_start_non_alnum(s)).map_values(|c: char| name_char(c))
}

fn alnum(c: char) -> (r: bool)
    ensures
        r == is_ascii_alnum(c),
{
    ('0' <= c && c <= '9') || ('a' <= c && c <= 'z') || ('A' <= c && c <= 'Z')
}

/// Normalises a foreign build-system target name into a package name.
pub fn sanitize_name(s: &str) -> (r: String)
    ensures
        r@ == sanitize_spec(s@),
{
    let v = chars_of(s);
    let mut lo: usize = 0;
    assert(v@.skip(0) =~= v@);
    while lo < v.len() && !alnum(v[lo])
        invariant
            lo <= v.len(),
            trim_start_non_alnum(v@.skip(lo as int)) == trim_start_non_alnum(v@),
        decreases v.len() - lo,
    {
        assert(v@.skip(lo as int).drop_first() =~= v@.skip(lo + 1));
        lo = lo + 1;
    }
    let ghost t = v@.skip(lo as int);
    assert(trim_start_non_alnum(t) == t);
    let mut hi: usize = v.len();
    assert(t.take(hi - lo) =~= t);
    while hi > lo && !alnum(v[hi - 1])
        invariant
            lo <= hi <= v.len(),
            t == v@.skip(lo as int),
            trim_end_non_alnum(t.take(hi - lo)) == trim_end_non_alnum(t),
        decreases hi,
    {
        assert(t.take(hi - lo).drop_last() =~= t.take(hi - lo - 1));
        hi = hi - 1;
    }
    let ghost u = t.take(hi - lo);
    assert(trim_end_non_alnum(u) == u);
    let mut out: Vec<char> = Vec::new();
    let mut i: usize = lo;
    while i < hi
        invariant
            lo <= i <= hi <= v.len(),
            u == v@.subrange(lo as int, hi as int),
            out@ == u.take(i - lo).map_values(|c: char| name_char(c)),
        decreases hi - i,
    {
        let c = v[i];
        let m = if alnum(c) || c == '-' || c == '_' {
            c
        } else {
            '-'
        };
        out.push(m);
        assert(u.take(i + 1 - lo) =~= u.take(i - lo).push(c));
        assert(out@ =~= u.take(i + 1 - lo).map_values(|c: char| name_char(c)));
        i = i + 1;
    }
    assert(u.take(hi - lo) =~= u);
    string_of(&out)
}

} // verus!
