//! The `$(...)` expression language used in TOML toolchain templates.
//!
//! A template string is copied verbatim except for `$(...)` groups, whose
//! contents are evaluated: ternaries `c ? a : b`, `||`, `&&`, comparisons
//! (`>=`, `<=`, `!=`, `==`, `>`, `<`, semantic on version strings),
//! string concatenation `+`, negation `!`, parentheses, quoted literals, the
//! context variables `arch`, `os`, `binary`, `version`, `value`, environment
//! variables `env.NAME`, and the `.replace(a, b)` method.
//!
//! Every value is a string; `"false"` and the empty string are false.
//! The spec functions below define the language; the executable functions
//! are proved to compute exactly them. A spec result of `None` marks an input
//! on which evaluation fails (a quote character standing alone as an argument
//! of `.replace`).

use vstd::prelude::*;
use crate::scan::{
    close_paren_exec, first_rel_exec, op_pos_exec, rel_op_exec, split_outer_exec, close_paren, first_rel, lemma_close_paren_bounds, lemma_first_rel_b, lemma_op_pos_bounds, op_pos,
    rel_op, split_outer,
};
use crate::text::{
    chars_of, concat, eq_chars, find_char_from_exec, slice_copy, starts_with_exec, string_of,
    trim_chars, trim_range, lemma_find_b, find_from_exec, occurs_at_exec, lemma_find_char_from_b, lemma_trim_len_b, 
    find, find_char_from, is_digit, replace, rfind_char, lemma_rfind_char,
    starts_with, strip_char, strip_char_end, strip_char_start, trim,
};

verus! {

broadcast use lemma_trim_len_b, lemma_op_pos_bounds, lemma_close_paren_bounds,
    lemma_find_char_from_b, lemma_first_rel_b, lemma_find_b;

// ── Evaluation context ────────────────────────────────────────────────────────

/// Context for evaluating `$(...)` expressions.
///
/// `env` is the snapshot of the process environment that `env.NAME` reads.
#[derive(Clone, Copy, Default)]
pub struct EvalCtx<'a> {
    pub arch: &'a str,
    pub os: &'a str,
    pub binary: &'a str,
    pub version: &'a str,
    pub value: &'a str,
    pub env: &'a [(String, String)],
}

/// The mathematical content of an [`EvalCtx`].
pub struct CtxView {
    pub arch: Seq<char>,
    pub os: Seq<char>,
    pub binary: Seq<char>,
    pub version: Seq<char>,
    pub value: Seq<char>,
    pub env: Seq<(Seq<char>, Seq<char>)>,
}

impl<'a> View for EvalCtx<'a> {
    type V = CtxView;

    open spec fn view(&self) -> CtxView {
        CtxView {
            arch: self.arch@,
            os: self.os@,
            binary: self.binary@,
            version: self.version@,
            value: self.value@,
            env: self.env@.map_values(|p: (String, String)| (p.0@, p.1@)),
        }
    }
}

// ── Constant words ────────────────────────────────────────────────────────────

pub open spec fn w_true() -> Seq<char> {
    seq!['t', 'r', 'u', 'e']
}

pub open spec fn w_false() -> Seq<char> {
    seq!['f', 'a', 'l', 's', 'e']
}

pub open spec fn w_zero() -> Seq<char> {
    seq!['0']
}

pub open spec fn w_or() -> Seq<char> {
    seq!['|', '|']
}

pub open spec fn w_and() -> Seq<char> {
    seq!['&', '&']
}

pub open spec fn w_open() -> Seq<char> {
    seq!['$', '(']
}

pub open spec fn w_env() -> Seq<char> {
    seq!['e', 'n', 'v', '.']
}

pub open spec fn w_replace_call() -> Seq<char> {
    seq!['r', 'e', 'p', 'l', 'a', 'c', 'e', '(']
}

pub open spec fn w_len_call() -> Seq<char> {
    seq!['l', 'e', 'n', '(', ')']
}

pub open spec fn w_dot_replace() -> Seq<char> {
    seq!['.', 'r', 'e', 'p', 'l', 'a', 'c', 'e', '(']
}

/// Truth of a value used as a ternary condition.
pub open spec fn cond_true(v: Seq<char>) -> bool {
    v != w_false() && v.len() > 0 && v != w_zero()
}

/// A value that `!`, `&&` and `||` treat as false.
pub open spec fn is_falsy(v: Seq<char>) -> bool {
    v == w_false() || v.len() == 0
}

pub open spec fn bool_word(b: bool) -> Seq<char> {
    if b {
        w_true()
    } else {
        w_false()
    }
}

// ── Versions and comparison ───────────────────────────────────────────────────

/// A value with its surrounding quote characters removed.
pub open spec fn unquoted_value(s: Seq<char>) -> Seq<char> {
    strip_char(strip_char(s, '\''), '"')
}

/// `a.b[.c...]`: at least one dot, and nothing but ASCII digits and dots.
pub open spec fn looks_like_version(s: Seq<char>) -> bool {
    let t = unquoted_value(s);
    &&& t.contains('.')
    &&& forall|i: int| 0 <= i < t.len() ==> is_digit(#[trigger] t[i]) || t[i] == '.'
}

/// Decimal value of a string of ASCII digits.
pub open spec fn digits_value(d: Seq<char>) -> int
    decreases d.len(),
{
    if d.len() == 0 {
        0
    } else {
        digits_value(d.subrange(0, d.len() - 1)) * 10 + (d[d.len() - 1] as int - '0' as int)
    }
}

/// `c` without one leading `+`.
pub open spec fn strip_plus(c: Seq<char>) -> Seq<char> {
    if c.len() > 0 && c[0] == '+' {
        c.subrange(1, c.len() as int)
    } else {
        c
    }
}

pub open spec fn all_digits(d: Seq<char>) -> bool {
    forall|i: int| 0 <= i < d.len() ==> is_digit(#[trigger] d[i])
}

/// A non-empty run of digits whose value fits in a `u64`.
pub open spec fn parse_digits(d: Seq<char>) -> Option<int> {
    if d.len() > 0 && all_digits(d) && digits_value(d) <= u64::MAX {
        Some(digits_value(d))
    } else {
        None
    }
}

/// `str::parse::<u64>`: an optional `+`, then at least one digit, within range.
pub open spec fn parse_u64(c: Seq<char>) -> Option<int> {
    parse_digits(strip_plus(c))
}

/// The numeric components of a dotted string, skipping those that do not parse.
pub open spec fn components(h: Seq<char>) -> Seq<int>
    decreases h.len(),
{
    match find_char_from(h, '.', 0) {
        Some(i) => {
            let rest = components(h.subrange(i + 1, h.len() as int));
            match parse_u64(h.subrange(0, i)) {
                Some(v) => seq![v] + rest,
                None => rest,
            }
        },
        None => match parse_u64(h) {
            Some(v) => seq![v],
            None => seq![],
        },
    }
}

/// The numeric components of a version: quotes removed, a `-suffix` dropped.
pub open spec fn version_parts(s: Seq<char>) -> Seq<int> {
    let t = unquoted_value(s);
    let head = match find_char_from(t, '-', 0) {
        Some(i) => t.subrange(0, i),
        None => t,
    };
    components(head)
}

/// Three-way comparison of component lists, missing components counting as 0.
pub open spec fn parts_order_from(a: Seq<int>, b: Seq<int>, i: int) -> int
    decreases a.len() + b.len() - i,
{
    if i < 0 || (i >= a.len() && i >= b.len()) {
        0
    } else {
        let x = if i < a.len() {
            a[i]
        } else {
            0
        };
        let y = if i < b.len() {
            b[i]
        } else {
            0
        };
        if x < y {
            -1
        } else if x > y {
            1
        } else {
            parts_order_from(a, b, i + 1)
        }
    }
}

/// Semantic version comparison: -1, 0 or 1.
pub open spec fn version_order(a: Seq<char>, b: Seq<char>) -> int {
    parts_order_from(version_parts(a), version_parts(b), 0)
}

/// Lexicographic comparison by code point (the order of `str`): -1, 0 or 1.
pub open spec fn lex_order(a: Seq<char>, b: Seq<char>) -> int
    decreases a.len(),
{
    if a.len() == 0 {
        if b.len() == 0 {
            0
        } else {
            -1
        }
    } else if b.len() == 0 {
        1
    } else if (a[0] as u32) < (b[0] as u32) {
        -1
    } else if (a[0] as u32) > (b[0] as u32) {
        1
    } else {
        lex_order(a.subrange(1, a.len() as int), b.subrange(1, b.len() as int))
    }
}

/// Comparison of two values: semantic when both look like versions.
pub open spec fn values_order(a: Seq<char>, b: Seq<char>) -> int {
    if looks_like_version(a) && looks_like_version(b) {
        version_order(a, b)
    } else {
        lex_order(a, b)
    }
}

/// Outcome of comparison operator number `k` (see [`rel_op`]).
pub open spec fn compare_values(a: Seq<char>, b: Seq<char>, k: int) -> bool {
    let c = values_order(a, b);
    if k == 0 {
        c != -1
    } else if k == 1 {
        c != 1
    } else if k == 2 {
        c != 0
    } else if k == 3 {
        c == 0
    } else if k == 4 {
        c == 1
    } else {
        c == -1
    }
}

// ── Methods ───────────────────────────────────────────────────────────────────

/// The `.method(...)` calls that follow a dot at or after `pos`.
pub open spec fn methods_from(e: Seq<char>, pos: int) -> Seq<Seq<char>>
    decreases e.len() - pos,
{
    if pos < 0 || pos > e.len() {
        seq![]
    } else {
        match find_char_from(e, '.', pos) {
            None => seq![],
            Some(md) => {
                let after = e.subrange(md + 1, e.len() as int);
                match find_char_from(after, '(', 0) {
                    None => seq![],
                    Some(pp) => match close_paren(after.subrange(pp + 1, after.len() as int)) {
                        None => seq![],
                        Some(ep) => {
                            let me = md + 1 + pp + 1 + ep + 1;
                            seq![e.subrange(md, me)] + methods_from(e, me)
                        },
                    },
                }
            },
        }
    }
}

/// `expr` split into its base and its method calls: the base ends at the
/// first dot (from `k`) that starts `.replace(` or `.len()`.
pub open spec fn split_methods_from(e: Seq<char>, k: int) -> (Seq<char>, Seq<Seq<char>>)
    decreases e.len() + 1 - k,
{
    if k < 0 || k > e.len() {
        (e, seq![])
    } else {
        match find_char_from(e, '.', k) {
            None => (e, seq![]),
            Some(d) => {
                let rest = e.subrange(d + 1, e.len() as int);
                if starts_with(rest, w_replace_call()) || starts_with(rest, w_len_call()) {
                    (e.subrange(0, d), methods_from(e, d))
                } else {
                    split_methods_from(e, d + 1)
                }
            },
        }
    }
}

pub open spec fn split_methods(e: Seq<char>) -> (Seq<char>, Seq<Seq<char>>) {
    split_methods_from(e, 0)
}

/// A quoted argument without its quotes; `None` for a lone quote character.
pub open spec fn unquote(s: Seq<char>) -> Option<Seq<char>> {
    if s.len() > 0 && ((s[0] == '\'' && s[s.len() - 1] == '\'') || (s[0] == '"' && s[s.len()
        - 1] == '"')) {
        if s.len() >= 2 {
            Some(s.subrange(1, s.len() - 1))
        } else {
            None
        }
    } else {
        Some(s)
    }
}

/// The effect of one method call on `val`.
pub open spec fn apply_method(val: Seq<char>, m: Seq<char>) -> Option<Seq<char>> {
    if starts_with(m, w_dot_replace()) {
        let rest = m.subrange(9, m.len() as int);
        match rfind_char(rest, ')') {
            None => Some(val),
            Some(ae) => match split_outer(rest.subrange(0, ae), ',') {
                None => Some(val),
                Some((fr, tr)) => match unquote(trim(fr)) {
                    None => None,
                    Some(from) => match unquote(trim(tr)) {
                        None => None,
                        Some(to) => Some(replace(val, from, to)),
                    },
                },
            },
        }
    } else {
        Some(val)
    }
}

/// The method calls applied in order.
pub open spec fn apply_methods(val: Seq<char>, ms: Seq<Seq<char>>) -> Option<Seq<char>>
    decreases ms.len(),
{
    if ms.len() == 0 {
        Some(val)
    } else {
        match apply_method(val, ms[0]) {
            None => None,
            Some(v) => apply_methods(v, ms.subrange(1, ms.len() as int)),
        }
    }
}

/// The value of environment variable `name` (empty when unset).
pub open spec fn env_lookup(env: Seq<(Seq<char>, Seq<char>)>, name: Seq<char>) -> Seq<char>
    decreases env.len(),
{
    if env.len() == 0 {
        seq![]
    } else if env[0].0 == name {
        env[0].1
    } else {
        env_lookup(env.subrange(1, env.len() as int), name)
    }
}

/// The value of a bare word: a context variable, or the word itself.
pub open spec fn word_value(ctx: CtxView, w: Seq<char>) -> Seq<char> {
    if w == seq!['a', 'r', 'c', 'h'] {
        ctx.arch
    } else if w == seq!['o', 's'] {
        ctx.os
    } else if w == seq!['b', 'i', 'n', 'a', 'r', 'y'] {
        ctx.binary
    } else if w == seq!['v', 'e', 'r', 's', 'i', 'o', 'n'] {
        ctx.version
    } else if w == seq!['v', 'a', 'l', 'u', 'e'] {
        ctx.value
    } else {
        w
    }
}

// ── Evaluation ────────────────────────────────────────────────────────────────

/// `cond ? a : b`, or an `||` expression.
pub open spec fn ev_ternary(ctx: CtxView, e: Seq<char>) -> Option<Seq<char>>
    decreases e.len(), 5int,
{
    match split_outer(e, '?') {
        Some((c, rest)) => match ev_or(ctx, trim(c)) {
            None => None,
            Some(cv) => match split_outer(trim(rest), ':') {
                Some((t, f)) => if cond_true(cv) {
                    ev_ternary(ctx, trim(t))
                } else {
                    ev_ternary(ctx, trim(f))
                },
                None => ev_or(ctx, e),
            },
        },
        None => ev_or(ctx, e),
    }
}

/// `a || b`: the left value when it is true, else the right one.
pub open spec fn ev_or(ctx: CtxView, e: Seq<char>) -> Option<Seq<char>>
    decreases e.len(), 4int,
{
    match op_pos(e, w_or()) {
        Some(p) => match ev_and(ctx, trim(e.subrange(0, p))) {
            None => None,
            Some(lv) => if !is_falsy(lv) {
                Some(lv)
            } else {
                ev_and(ctx, trim(e.subrange(p + 2, e.len() as int)))
            },
        },
        None => ev_and(ctx, e),
    }
}

/// `a && b`: `"false"` when the left value is false, else the right one.
pub open spec fn ev_and(ctx: CtxView, e: Seq<char>) -> Option<Seq<char>>
    decreases e.len(), 3int,
{
    match op_pos(e, w_and()) {
        Some(p) => match ev_compare(ctx, trim(e.subrange(0, p))) {
            None => None,
            Some(lv) => if is_falsy(lv) {
                Some(w_false())
            } else {
                ev_compare(ctx, trim(e.subrange(p + 2, e.len() as int)))
            },
        },
        None => ev_compare(ctx, e),
    }
}

/// A comparison, giving `"true"` or `"false"`, or a `+` expression.
pub open spec fn ev_compare(ctx: CtxView, e: Seq<char>) -> Option<Seq<char>>
    decreases e.len(), 2int,
{
    match first_rel(e, 0) {
        Some((k, p)) => match ev_add(ctx, trim(e.subrange(0, p))) {
            None => None,
            Some(l) => match ev_add(ctx, trim(e.subrange(p + rel_op(k).len(), e.len() as int))) {
                None => None,
                Some(r) => Some(bool_word(compare_values(l, r, k))),
            },
        },
        None => ev_add(ctx, e),
    }
}

/// `a + b`: concatenation.
pub open spec fn ev_add(ctx: CtxView, e: Seq<char>) -> Option<Seq<char>>
    decreases e.len(), 1int,
{
    match op_pos(e, seq!['+']) {
        Some(p) => match ev_atom(ctx, trim(e.subrange(0, p))) {
            None => None,
            Some(l) => match ev_add(ctx, trim(e.subrange(p + 1, e.len() as int))) {
                None => None,
                Some(r) => Some(l + r),
            },
        },
        None => ev_atom(ctx, e),
    }
}

/// Atoms: `!atom`, `(expr)`, quoted literals, `env.NAME`, words, each with
/// optional method calls.
pub open spec fn ev_atom(ctx: CtxView, e0: Seq<char>) -> Option<Seq<char>>
    decreases e0.len(), 0int,
{
    let e = trim(e0);
    if e.len() > 0 && e[0] == '!' {
        match ev_atom(ctx, trim(e.subrange(1, e.len() as int))) {
            None => None,
            Some(v) => Some(bool_word(is_falsy(v))),
        }
    } else if e.len() > 0 && e[0] == '(' && close_paren(e.subrange(1, e.len() as int)) is Some {
        let inner = e.subrange(1, e.len() as int);
        ev_ternary(ctx, inner.subrange(0, close_paren(inner)->0))
    } else if e.len() >= 2 && ((e[0] == '\'' && e[e.len() - 1] == '\'') || (e[0] == '"' && e[e.len()
        - 1] == '"')) {
        Some(e.subrange(1, e.len() - 1))
    } else if starts_with(e, w_env()) {
        let sm = split_methods(e.subrange(4, e.len() as int));
        apply_methods(env_lookup(ctx.env, sm.0), sm.1)
    } else {
        let sm = split_methods(e);
        apply_methods(word_value(ctx, sm.0), sm.1)
    }
}

/// `s` with every `$(...)` group replaced by its value; an unclosed group is
/// kept verbatim together with the rest of the string.
pub open spec fn expand(ctx: CtxView, s: Seq<char>) -> Option<Seq<char>>
    decreases s.len(),
{
    match find(s, w_open()) {
        None => Some(s),
        Some(start) => {
            let after = s.subrange(start + 2, s.len() as int);
            match close_paren(after) {
                None => Some(s),
                Some(end) => match ev_ternary(ctx, trim(after.subrange(0, end))) {
                    None => None,
                    Some(v) => match expand(ctx, after.subrange(end + 1, after.len() as int)) {
                        None => None,
                        Some(r) => Some(s.subrange(0, start) + v + r),
                    },
                },
            }
        },
    }
}


// ── Executable: words ─────────────────────────────────────────────────────────

fn v_true() -> (r: Vec<char>)
    ensures
        r@ == w_true(),
{
    vec!['t', 'r', 'u', 'e']
}

fn v_false() -> (r: Vec<char>)
    ensures
        r@ == w_false(),
{
    vec!['f', 'a', 'l', 's', 'e']
}

fn bool_word_exec(b: bool) -> (r: Vec<char>)
    ensures
        r@ == bool_word(b),
{
    if b {
        v_true()
    } else {
        v_false()
    }
}

fn is_falsy_exec(v: &Vec<char>) -> (r: bool)
    ensures
        r == is_falsy(v@),
{
    v.len() == 0 || eq_chars(v, &v_false())
}

fn cond_true_exec(v: &Vec<char>) -> (r: bool)
    ensures
        r == cond_true(v@),
{
    let zero = vec!['0'];
    assert(zero@ == w_zero());
    v.len() > 0 && !eq_chars(v, &v_false()) && !eq_chars(v, &zero)
}

// ── Executable: versions and comparison ───────────────────────────────────────

fn strip_char_start_pos(v: &Vec<char>, lo: usize, hi: usize, c: char) -> (r: usize)
    requires
        lo <= hi <= v.len(),
    ensures
        lo <= r <= hi,
        v@.subrange(r as int, hi as int) == strip_char_start(v@.subrange(lo as int, hi as int), c),
    decreases hi - lo,
{
    if lo < hi && v[lo] == c {
        assert(v@.subrange(lo as int, hi as int).subrange(1, (hi - lo) as int) == v@.subrange(
            lo + 1,
            hi as int,
        ));
        strip_char_start_pos(v, lo + 1, hi, c)
    } else {
        lo
    }
}

fn strip_char_end_pos(v: &Vec<char>, lo: usize, hi: usize, c: char) -> (r: usize)
    requires
        lo <= hi <= v.len(),
    ensures
        lo <= r <= hi,
        v@.subrange(lo as int, r as int) == strip_char_end(v@.subrange(lo as int, hi as int), c),
    decreases hi - lo,
{
    if lo < hi && v[hi - 1] == c {
        assert(v@.subrange(lo as int, hi as int).subrange(0, (hi - 1 - lo) as int) == v@.subrange(
            lo as int,
            hi - 1,
        ));
        strip_char_end_pos(v, lo, hi - 1, c)
    } else {
        hi
    }
}

/// `str::trim_matches(c)`.
pub fn strip_char_exec(v: &Vec<char>, c: char) -> (r: Vec<char>)
    ensures
        r@ == strip_char(v@, c),
{
    assert(v@.subrange(0, v.len() as int) == v@);
    let a = strip_char_start_pos(v, 0, v.len(), c);
    let b = strip_char_end_pos(v, a, v.len(), c);
    slice_copy(v, a, b)
}

fn unquoted_value_exec(v: &Vec<char>) -> (r: Vec<char>)
    ensures
        r@ == unquoted_value(v@),
{
    let a = strip_char_exec(v, '\'');
    strip_char_exec(&a, '"')
}

/// Whether a value looks like a dotted version number.
pub fn looks_like_version_exec(v: &Vec<char>) -> (r: bool)
    ensures
        r == looks_like_version(v@),
{
    let t = unquoted_value_exec(v);
    let mut has_dot = false;
    let mut i: usize = 0;
    while i < t.len()
        invariant
            t@ == unquoted_value(v@),
            i <= t.len(),
            forall|j: int| 0 <= j < i ==> is_digit(#[trigger] t@[j]) || t@[j] == '.',
            has_dot <==> exists|j: int| 0 <= j < i && t@[j] == '.',
        decreases t.len() - i,
    {
        let c = t[i];
        if c == '.' {
            has_dot = true;
        } else if !('0' <= c && c <= '9') {
            assert(!is_digit(t@[i as int]) && t@[i as int] != '.');
            assert(!(forall|j: int| 0 <= j < t@.len() ==> is_digit(#[trigger] t@[j]) || t@[j] == '.'));
            return false;
        }
        i = i + 1;
    }
    proof {
        if has_dot {
            let j = choose|j: int| 0 <= j < i && t@[j] == '.';
            assert(t@[j] == '.');
            assert(t@.contains('.'));
        }
    }
    has_dot
}

proof fn lemma_digits_value_prefix(d: Seq<char>, k: int)
    requires
        0 <= k <= d.len(),
        forall|i: int| 0 <= i < d.len() ==> is_digit(#[trigger] d[i]),
    ensures
        digits_value(d.subrange(0, k)) <= digits_value(d),
        digits_value(d) >= 0,
    decreases d.len(),
{
    if d.len() == 0 {
    } else if k == d.len() {
        assert(d.subrange(0, k) == d);
        lemma_digits_value_nonneg(d);
    } else {
        let p = d.subrange(0, d.len() - 1);
        assert(p.subrange(0, k) == d.subrange(0, k));
        lemma_digits_value_prefix(p, k);
        lemma_digits_value_nonneg(d);
    }
}

proof fn lemma_digits_value_nonneg(d: Seq<char>)
    requires
        forall|i: int| 0 <= i < d.len() ==> is_digit(#[trigger] d[i]),
    ensures
        digits_value(d) >= 0,
    decreases d.len(),
{
    if d.len() > 0 {
        let p = d.subrange(0, d.len() - 1);
        assert forall|i: int| 0 <= i < p.len() implies is_digit(#[trigger] p[i]) by {
            assert(p[i] == d[i]);
        }
        lemma_digits_value_nonneg(p);
        assert(is_digit(d[d.len() - 1]));
    }
}

/// `str::parse::<u64>`.
pub fn parse_u64_exec(c: &Vec<char>) -> (r: Option<u64>)
    ensures
        r matches Some(x) ==> parse_u64(c@) == Some(x as int),
        r is None ==> parse_u64(c@) is None,
{
    let d = if c.len() > 0 && c[0] == '+' {
        slice_copy(c, 1, c.len())
    } else {
        slice_copy(c, 0, c.len())
    };
    assert(c@.subrange(0, c.len() as int) == c@);
    assert(d@ == strip_plus(c@));
    if d.len() == 0 {
        assert(parse_u64(c@) is None);
        return None;
    }
    let mut acc: u64 = 0;
    let mut i: usize = 0;
    while i < d.len()
        invariant
            d@ == strip_plus(c@),
            d.len() > 0,
            i <= d.len(),
            forall|j: int| 0 <= j < i ==> is_digit(#[trigger] d@[j]),
            acc as int == digits_value(d@.subrange(0, i as int)),
        decreases d.len() - i,
    {
        let ch = d[i];
        if !('0' <= ch && ch <= '9') {
            assert(!is_digit(d@[i as int]));
            assert(!all_digits(d@));
            return None;
        }
        let dig: u64 = (ch as u32 - '0' as u32) as u64;
        proof {
            assert(d@.subrange(0, i + 1).subrange(0, i as int) == d@.subrange(0, i as int));
        }
        match acc.checked_mul(10) {
            None => {
                proof {
                    lemma_overflow_none(d@, (i + 1) as int);
                }
                return None;
            },
            Some(m) => match m.checked_add(dig) {
                None => {
                    proof {
                        lemma_overflow_none(d@, (i + 1) as int);
                    }
                    return None;
                },
                Some(a) => {
                    acc = a;
                },
            },
        }
        i = i + 1;
    }
    assert(d@.subrange(0, d.len() as int) == d@);
    Some(acc)
}

proof fn lemma_overflow_none(d: Seq<char>, k: int)
    requires
        0 < k <= d.len(),
        d.len() > 0,
        digits_value(d.subrange(0, k)) > u64::MAX,
    ensures
        all_digits(d) ==> digits_value(d) > u64::MAX,
{
    if all_digits(d) {
        lemma_digits_value_prefix(d, k);
    }
}

fn push_parsed(out: &mut Vec<u64>, c: &Vec<char>)
    ensures
        final(out)@.map_values(|x: u64| x as int) == match parse_u64(c@) {
            Some(v) => old(out)@.map_values(|x: u64| x as int).push(v),
            None => old(out)@.map_values(|x: u64| x as int),
        },
{
    match parse_u64_exec(c) {
        Some(v) => {
            out.push(v);
            assert(out@.map_values(|x: u64| x as int) =~= old(out)@.map_values(|x: u64| x as int).push(
                v as int,
            ));
        },
        None => {},
    }
}

/// The numeric components of a dotted string.
fn components_exec(h: &Vec<char>) -> (r: Vec<u64>)
    ensures
        r@.map_values(|x: u64| x as int) == components(h@),
    decreases h.len(),
{
    match find_char_from_exec(h, '.', 0) {
        Some(i) => {
            let rest = components_exec(&slice_copy(h, i + 1, h.len()));
            let mut out: Vec<u64> = Vec::new();
            push_parsed(&mut out, &slice_copy(h, 0, i));
            let mut k: usize = 0;
            let ghost base = out@.map_values(|x: u64| x as int);
            let ghost rv = rest@.map_values(|x: u64| x as int);
            while k < rest.len()
                invariant
                    k <= rest.len(),
                    rv == rest@.map_values(|x: u64| x as int),
                    out@.map_values(|x: u64| x as int) == base + rv.subrange(0, k as int),
                decreases rest.len() - k,
            {
                let ghost before = out@;
                out.push(rest[k]);
                assert(out@ == before.push(rest@[k as int]));
                assert(out@.map_values(|x: u64| x as int) =~= before.map_values(|x: u64| x as int).push(
                    rv[k as int],
                ));
                assert(rv.subrange(0, k + 1) =~= rv.subrange(0, k as int).push(rv[k as int]));
                k = k + 1;
            }
            assert(rest@.map_values(|x: u64| x as int).subrange(0, rest.len() as int)
                =~= rest@.map_values(|x: u64| x as int));
            proof {
                let comp = components(h@);
                match parse_u64(h@.subrange(0, i as int)) {
                    Some(v) => {
                        assert(base =~= seq![v]);
                    },
                    None => {
                        assert(base =~= Seq::<int>::empty());
                    },
                }
            }
            out
        },
        None => {
            let mut out: Vec<u64> = Vec::new();
            push_parsed(&mut out, h);
            proof {
                match parse_u64(h@) {
                    Some(v) => {
                        assert(out@.map_values(|x: u64| x as int) =~= seq![v]);
                    },
                    None => {
                        assert(out@.map_values(|x: u64| x as int) =~= Seq::<int>::empty());
                    },
                }
            }
            out
        },
    }
}

fn version_parts_exec(s: &Vec<char>) -> (r: Vec<u64>)
    ensures
        r@.map_values(|x: u64| x as int) == version_parts(s@),
{
    let t = unquoted_value_exec(s);
    let head = match find_char_from_exec(&t, '-', 0) {
        Some(i) => slice_copy(&t, 0, i),
        None => t,
    };
    components_exec(&head)
}

fn parts_order_exec(a: &Vec<u64>, b: &Vec<u64>) -> (r: i8)
    ensures
        r as int == parts_order_from(
            a@.map_values(|x: u64| x as int),
            b@.map_values(|x: u64| x as int),
            0,
        ),
{
    let ghost av = a@.map_values(|x: u64| x as int);
    let ghost bv = b@.map_values(|x: u64| x as int);
    let mut i: usize = 0;
    while i < a.len() || i < b.len()
        invariant
            av == a@.map_values(|x: u64| x as int),
            bv == b@.map_values(|x: u64| x as int),
            parts_order_from(av, bv, i as int) == parts_order_from(av, bv, 0),
        decreases a.len() + b.len() - i,
    {
        let x: u64 = if i < a.len() {
            a[i]
        } else {
            0
        };
        let y: u64 = if i < b.len() {
            b[i]
        } else {
            0
        };
        if x < y {
            return -1;
        } else if x > y {
            return 1;
        }
        i = i + 1;
    }
    0
}

/// Semantic version comparison.
pub fn version_order_exec(a: &Vec<char>, b: &Vec<char>) -> (r: i8)
    ensures
        r as int == version_order(a@, b@),
{
    let av = version_parts_exec(a);
    let bv = version_parts_exec(b);
    parts_order_exec(&av, &bv)
}

/// Lexicographic comparison by code point.
pub fn lex_order_exec(a: &Vec<char>, b: &Vec<char>) -> (r: i8)
    ensures
        r as int == lex_order(a@, b@),
{
    let mut i: usize = 0;
    assert(a@.subrange(0, a.len() as int) == a@);
    assert(b@.subrange(0, b.len() as int) == b@);
    while i < a.len() && i < b.len()
        invariant
            i <= a.len(),
            i <= b.len(),
            lex_order(a@.subrange(i as int, a.len() as int), b@.subrange(i as int, b.len() as int))
                == lex_order(a@, b@),
        decreases a.len() - i,
    {
        let x = a[i] as u32;
        let y = b[i] as u32;
        if x < y {
            return -1;
        } else if x > y {
            return 1;
        }
        assert(a@.subrange(i as int, a.len() as int).subrange(1, (a.len() - i) as int)
            == a@.subrange(i + 1, a.len() as int));
        assert(b@.subrange(i as int, b.len() as int).subrange(1, (b.len() - i) as int)
            == b@.subrange(i + 1, b.len() as int));
        i = i + 1;
    }
    if i < a.len() {
        1
    } else if i < b.len() {
        -1
    } else {
        0
    }
}

/// Outcome of comparison operator number `k` on two values.
pub fn compare_values_exec(a: &Vec<char>, b: &Vec<char>, k: usize) -> (r: bool)
    ensures
        r == compare_values(a@, b@, k as int),
{
    let c = if looks_like_version_exec(a) && looks_like_version_exec(b) {
        version_order_exec(a, b)
    } else {
        lex_order_exec(a, b)
    };
    if k == 0 {
        c != -1
    } else if k == 1 {
        c != 1
    } else if k == 2 {
        c != 0
    } else if k == 3 {
        c == 0
    } else if k == 4 {
        c == 1
    } else {
        c == -1
    }
}


// ── Executable: methods ───────────────────────────────────────────────────────

/// Views of a list of character vectors.
pub open spec fn views(v: Seq<Vec<char>>) -> Seq<Seq<char>> {
    v.map_values(|x: Vec<char>| x@)
}

/// View of an optional character vector.
pub open spec fn opt_view(r: Option<Vec<char>>) -> Option<Seq<char>> {
    match r {
        Some(v) => Some(v@),
        None => None,
    }
}

fn methods_from_exec(e: &Vec<char>, pos: usize) -> (r: Vec<Vec<char>>)
    requires
        pos <= e.len(),
    ensures
        views(r@) == methods_from(e@, pos as int),
    decreases e.len() - pos,
{
    match find_char_from_exec(e, '.', pos) {
        None => Vec::new(),
        Some(md) => {
            let after = slice_copy(e, md + 1, e.len());
            match find_char_from_exec(&after, '(', 0) {
                None => Vec::new(),
                Some(pp) => {
                    let tail = slice_copy(&after, pp + 1, after.len());
                    match close_paren_exec(&tail) {
                        None => Vec::new(),
                        Some(ep) => {
                            let me = md + 1 + pp + 1 + ep + 1;
                            let first = slice_copy(e, md, me);
                            let rest = methods_from_exec(e, me);
                            let mut out: Vec<Vec<char>> = Vec::new();
                            out.push(first);
                            let mut k: usize = 0;
                            while k < rest.len()
                                invariant
                                    k <= rest.len(),
                                    views(out@) == seq![e@.subrange(md as int, me as int)] + views(
                                        rest@,
                                    ).subrange(0, k as int),
                                decreases rest.len() - k,
                            {
                                let ghost before = out@;
                                out.push(rest[k].clone());
                                assert(views(out@) =~= views(before).push(rest@[k as int]@));
                                assert(views(rest@).subrange(0, k + 1) =~= views(rest@).subrange(
                                    0,
                                    k as int,
                                ).push(rest@[k as int]@));
                                k = k + 1;
                            }
                            assert(views(rest@).subrange(0, rest.len() as int) =~= views(rest@));
                            out
                        },
                    }
                },
            }
        },
    }
}

fn split_methods_exec(e: &Vec<char>) -> (r: (Vec<char>, Vec<Vec<char>>))
    ensures
        (r.0@, views(r.1@)) == split_methods(e@),
{
    let replace_call = vec!['r', 'e', 'p', 'l', 'a', 'c', 'e', '('];
    let len_call = vec!['l', 'e', 'n', '(', ')'];
    assert(replace_call@ == w_replace_call());
    assert(len_call@ == w_len_call());
    let mut k: usize = 0;
    while k <= e.len()
        invariant
            k <= e.len() + 1,
            replace_call@ == w_replace_call(),
            len_call@ == w_len_call(),
            split_methods_from(e@, k as int) == split_methods(e@),
        decreases e.len() + 1 - k,
    {
        match find_char_from_exec(e, '.', k) {
            None => {
                return (slice_copy(e, 0, e.len()), Vec::new());
            },
            Some(d) => {
                let rest = slice_copy(e, d + 1, e.len());
                if starts_with_exec(&rest, &replace_call) || starts_with_exec(&rest, &len_call) {
                    return (slice_copy(e, 0, d), methods_from_exec(e, d));
                }
                k = d + 1;
            },
        }
    }
    proof {
        assert(e@.subrange(0, e.len() as int) == e@);
    }
    (slice_copy(e, 0, e.len()), Vec::new())
}

pub fn unquote_exec(s: &Vec<char>) -> (r: Option<Vec<char>>)
    ensures
        opt_view(r) == unquote(s@),
{
    let n = s.len();
    if n > 0 && ((s[0] == '\'' && s[n - 1] == '\'') || (s[0] == '"' && s[n - 1] == '"')) {
        if n >= 2 {
            Some(slice_copy(s, 1, n - 1))
        } else {
            None
        }
    } else {
        assert(s@.subrange(0, n as int) == s@);
        Some(slice_copy(s, 0, n))
    }
}

/// `str::replace`.
pub fn replace_exec(s: &Vec<char>, from: &Vec<char>, to: &Vec<char>) -> (r: Vec<char>)
    ensures
        r@ == replace(s@, from@, to@),
{
    let mut out: Vec<char> = Vec::new();
    let mut i: usize = 0;
    assert(s@.subrange(0, s.len() as int) == s@);
    while i < s.len()
        invariant
            i <= s.len(),
            replace(s@, from@, to@) == out@ + replace(
                s@.subrange(i as int, s.len() as int),
                from@,
                to@,
            ),
        decreases s.len() - i,
    {
        let ghost rest = s@.subrange(i as int, s.len() as int);
        if from.len() == 0 {
            out = concat(&out, to);
            out.push(s[i]);
            assert(rest.subrange(1, rest.len() as int) == s@.subrange(i + 1, s.len() as int));
            i = i + 1;
        } else if s.len() - i < from.len() {
            out = concat(&out, &slice_copy(s, i, s.len()));
            i = s.len();
            assert(s@.subrange(i as int, s.len() as int) =~= Seq::<char>::empty());
            assert(replace(Seq::<char>::empty(), from@, to@) == Seq::<char>::empty());
        } else if occurs_at_exec(s, from, i) {
            assert(rest.subrange(0, from.len() as int) == s@.subrange(i as int, i + from.len()));
            out = concat(&out, to);
            assert(rest.subrange(from.len() as int, rest.len() as int) == s@.subrange(
                i + from.len(),
                s.len() as int,
            ));
            i = i + from.len();
        } else {
            assert(rest.subrange(0, from.len() as int) == s@.subrange(i as int, i + from.len()));
            out.push(s[i]);
            assert(rest.subrange(1, rest.len() as int) == s@.subrange(i + 1, s.len() as int));
            i = i + 1;
        }
    }
    if from.len() == 0 {
        out = concat(&out, to);
    }
    assert(s@.subrange(s.len() as int, s.len() as int) =~= Seq::<char>::empty());
    out
}

fn apply_method_exec(val: &Vec<char>, m: &Vec<char>) -> (r: Option<Vec<char>>)
    ensures
        opt_view(r) == apply_method(val@, m@),
{
    let dot_replace = vec!['.', 'r', 'e', 'p', 'l', 'a', 'c', 'e', '('];
    assert(dot_replace@ == w_dot_replace());
    if starts_with_exec(m, &dot_replace) {
        let rest = slice_copy(m, 9, m.len());
        match rfind_char_exec(&rest, ')') {
            None => Some(val.clone()),
            Some(ae) => {
                proof {
                    lemma_rfind_char(rest@, ')');
                }
                let args = slice_copy(&rest, 0, ae);
                match split_outer_exec(&args, ',') {
                    None => Some(val.clone()),
                    Some((fr, tr)) => match unquote_exec(&trim_chars(&fr)) {
                        None => None,
                        Some(from) => match unquote_exec(&trim_chars(&tr)) {
                            None => None,
                            Some(to) => Some(replace_exec(val, &from, &to)),
                        },
                    },
                }
            },
        }
    } else {
        Some(val.clone())
    }
}

fn rfind_char_exec(t: &Vec<char>, c: char) -> (r: Option<usize>)
    ensures
        r matches Some(i) ==> rfind_char(t@, c) == Some(i as int),
        r is None ==> rfind_char(t@, c) is None,
{
    let mut n: usize = t.len();
    assert(t@.subrange(0, n as int) == t@);
    while n > 0
        invariant
            n <= t.len(),
            rfind_char(t@.subrange(0, n as int), c) == rfind_char(t@, c),
        decreases n,
    {
        if t[n - 1] == c {
            return Some(n - 1);
        }
        assert(t@.subrange(0, n as int).subrange(0, n - 1) == t@.subrange(0, n - 1));
        n = n - 1;
    }
    None
}

fn apply_methods_exec(val: &Vec<char>, ms: &Vec<Vec<char>>) -> (r: Option<Vec<char>>)
    ensures
        opt_view(r) == apply_methods(val@, views(ms@)),
{
    let mut cur = val.clone();
    let mut i: usize = 0;
    assert(views(ms@).subrange(0, ms.len() as int) == views(ms@));
    while i < ms.len()
        invariant
            i <= ms.len(),
            apply_methods(val@, views(ms@)) == apply_methods(
                cur@,
                views(ms@).subrange(i as int, ms.len() as int),
            ),
        decreases ms.len() - i,
    {
        let ghost tail = views(ms@).subrange(i as int, ms.len() as int);
        assert(tail[0] == ms@[i as int]@);
        assert(tail.subrange(1, tail.len() as int) =~= views(ms@).subrange(
            i + 1,
            ms.len() as int,
        ));
        match apply_method_exec(&cur, &ms[i]) {
            None => {
                return None;
            },
            Some(v) => {
                cur = v;
            },
        }
        i = i + 1;
    }
    Some(cur)
}

fn env_lookup_exec(env: &[(String, String)], name: &Vec<char>) -> (r: Vec<char>)
    ensures
        r@ == env_lookup(env@.map_values(|p: (String, String)| (p.0@, p.1@)), name@),
{
    let ghost ev = env@.map_values(|p: (String, String)| (p.0@, p.1@));
    let mut i: usize = 0;
    assert(ev.subrange(0, env.len() as int) == ev);
    while i < env.len()
        invariant
            i <= env.len(),
            ev == env@.map_values(|p: (String, String)| (p.0@, p.1@)),
            env_lookup(ev.subrange(i as int, env.len() as int), name@) == env_lookup(ev, name@),
        decreases env.len() - i,
    {
        let key = chars_of(env[i].0.as_str());
        let ghost tail = ev.subrange(i as int, env.len() as int);
        assert(tail[0] == ev[i as int]);
        if eq_chars(&key, name) {
            return chars_of(env[i].1.as_str());
        }
        assert(tail.subrange(1, tail.len() as int) =~= ev.subrange(i + 1, env.len() as int));
        i = i + 1;
    }
    Vec::new()
}

fn word_value_exec(ctx: &EvalCtx, w: &Vec<char>) -> (r: Vec<char>)
    ensures
        r@ == word_value(ctx@, w@),
{
    let arch = vec!['a', 'r', 'c', 'h'];
    let os = vec!['o', 's'];
    let binary = vec!['b', 'i', 'n', 'a', 'r', 'y'];
    let version = vec!['v', 'e', 'r', 's', 'i', 'o', 'n'];
    let value = vec!['v', 'a', 'l', 'u', 'e'];
    if eq_chars(w, &arch) {
        chars_of(ctx.arch)
    } else if eq_chars(w, &os) {
        chars_of(ctx.os)
    } else if eq_chars(w, &binary) {
        chars_of(ctx.binary)
    } else if eq_chars(w, &version) {
        chars_of(ctx.version)
    } else if eq_chars(w, &value) {
        chars_of(ctx.value)
    } else {
        w.clone()
    }
}

// ── Executable: evaluation ────────────────────────────────────────────────────

fn ev_ternary_exec(ctx: &EvalCtx, e: &Vec<char>) -> (r: Option<Vec<char>>)
    ensures
        opt_view(r) == ev_ternary(ctx@, e@),
    decreases e@.len(), 5int,
{
    match split_outer_exec(e, '?') {
        Some((c, rest)) => match ev_or_exec(ctx, &trim_chars(&c)) {
            None => None,
            Some(cv) => match split_outer_exec(&trim_chars(&rest), ':') {
                Some((t, f)) => if cond_true_exec(&cv) {
                    ev_ternary_exec(ctx, &trim_chars(&t))
                } else {
                    ev_ternary_exec(ctx, &trim_chars(&f))
                },
                None => ev_or_exec(ctx, e),
            },
        },
        None => ev_or_exec(ctx, e),
    }
}

#[verifier::rlimit(40)]
fn ev_or_exec(ctx: &EvalCtx, e: &Vec<char>) -> (r: Option<Vec<char>>)
    ensures
        opt_view(r) == ev_or(ctx@, e@),
    decreases e@.len(), 4int,
{
    let op = vec!['|', '|'];
    assert(op@ == w_or());
    match op_pos_exec(e, &op) {
        Some(p) => match ev_and_exec(ctx, &trim_range(e, 0, p)) {
            None => None,
            Some(lv) => if !is_falsy_exec(&lv) {
                Some(lv)
            } else {
                ev_and_exec(ctx, &trim_range(e, p + 2, e.len()))
            },
        },
        None => ev_and_exec(ctx, e),
    }
}

#[verifier::rlimit(40)]
fn ev_and_exec(ctx: &EvalCtx, e: &Vec<char>) -> (r: Option<Vec<char>>)
    ensures
        opt_view(r) == ev_and(ctx@, e@),
    decreases e@.len(), 3int,
{
    let op = vec!['&', '&'];
    assert(op@ == w_and());
    match op_pos_exec(e, &op) {
        Some(p) => match ev_compare_exec(ctx, &trim_range(e, 0, p)) {
            None => None,
            Some(lv) => if is_falsy_exec(&lv) {
                Some(v_false())
            } else {
                ev_compare_exec(ctx, &trim_range(e, p + 2, e.len()))
            },
        },
        None => ev_compare_exec(ctx, e),
    }
}

#[verifier::rlimit(60)]
fn ev_compare_exec(ctx: &EvalCtx, e: &Vec<char>) -> (r: Option<Vec<char>>)
    ensures
        opt_view(r) == ev_compare(ctx@, e@),
    decreases e@.len(), 2int,
{
    match first_rel_exec(e) {
        Some((k, p)) => {
            proof {
                crate::scan::lemma_first_rel_b(e@);
            }
            let oplen = rel_op_exec(k).len();
            assert(p + oplen <= e.len());
            match ev_add_exec(ctx, &trim_range(e, 0, p)) {
                None => None,
                Some(l) => match ev_add_exec(ctx, &trim_range(e, p + oplen, e.len())) {
                    None => None,
                    Some(r) => Some(bool_word_exec(compare_values_exec(&l, &r, k))),
                },
            }
        },
        None => ev_add_exec(ctx, e),
    }
}

fn ev_add_exec(ctx: &EvalCtx, e: &Vec<char>) -> (r: Option<Vec<char>>)
    ensures
        opt_view(r) == ev_add(ctx@, e@),
    decreases e@.len(), 1int,
{
    let op = vec!['+'];
    assert(op@ == seq!['+']);
    match op_pos_exec(e, &op) {
        Some(p) => {
            proof {
                lemma_op_pos_bounds(e@, op@);
            }
            assert(p + 1 <= e.len());
            match ev_atom_exec(ctx, &trim_range(e, 0, p)) {
                None => None,
                Some(l) => match ev_add_exec(ctx, &trim_range(e, p + 1, e.len())) {
                    None => None,
                    Some(r) => Some(concat(&l, &r)),
                },
            }
        },
        None => ev_atom_exec(ctx, e),
    }
}

fn ev_atom_exec(ctx: &EvalCtx, e0: &Vec<char>) -> (r: Option<Vec<char>>)
    ensures
        opt_view(r) == ev_atom(ctx@, e0@),
    decreases e0@.len(), 0int,
{
    let e = trim_chars(e0);
    let n = e.len();
    if n > 0 && e[0] == '!' {
        match ev_atom_exec(ctx, &trim_range(&e, 1, n)) {
            None => None,
            Some(v) => Some(bool_word_exec(is_falsy_exec(&v))),
        }
    } else {
        if n > 0 && e[0] == '(' {
            let inner = slice_copy(&e, 1, n);
            match close_paren_exec(&inner) {
                Some(end) => {
                    return ev_ternary_exec(ctx, &slice_copy(&inner, 0, end));
                },
                None => {},
            }
        }
        if n >= 2 && ((e[0] == '\'' && e[n - 1] == '\'') || (e[0] == '"' && e[n - 1] == '"')) {
            Some(slice_copy(&e, 1, n - 1))
        } else {
            let env_dot = vec!['e', 'n', 'v', '.'];
            assert(env_dot@ == w_env());
            if starts_with_exec(&e, &env_dot) {
                let sm = split_methods_exec(&slice_copy(&e, 4, n));
                let val = env_lookup_exec(ctx.env, &sm.0);
                apply_methods_exec(&val, &sm.1)
            } else {
                let sm = split_methods_exec(&e);
                let val = word_value_exec(ctx, &sm.0);
                apply_methods_exec(&val, &sm.1)
            }
        }
    }
}

fn expand_exec(ctx: &EvalCtx, s: &Vec<char>) -> (r: Option<Vec<char>>)
    ensures
        opt_view(r) == expand(ctx@, s@),
    decreases s@.len(),
{
    let open = vec!['$', '('];
    assert(open@ == w_open());
    match find_from_exec(s, &open, 0) {
        None => Some(s.clone()),
        Some(start) => {
            proof {
                crate::text::lemma_find_from(s@, open@, 0);
                assert(open@.len() == 2);
            }
            assert(start + 2 <= s.len());
            let after = slice_copy(s, start + 2, s.len());
            match close_paren_exec(&after) {
                None => Some(s.clone()),
                Some(end) => match ev_ternary_exec(ctx, &trim_range(&after, 0, end)) {
                    None => None,
                    Some(v) => match expand_exec(ctx, &slice_copy(&after, end + 1, after.len())) {
                        None => None,
                        Some(rest) => {
                            let head = slice_copy(s, 0, start);
                            Some(concat(&concat(&head, &v), &rest))
                        },
                    },
                },
            }
        },
    }
}

/// Expand every `$(...)` occurrence in `s`, replacing each with its value.
///
/// The input must not hold a lone quote character as an argument of
/// `.replace(...)` (see [`try_eval_expr`]).
pub fn eval_expr(s: &str, ctx: &EvalCtx<'_>) -> (r: String)
    requires
        expand(ctx@, s@) is Some,
    ensures
        r@ == expand(ctx@, s@)->0,
{
    let v = chars_of(s);
    match expand_exec(ctx, &v) {
        Some(out) => string_of(&out),
        None => String::new(),
    }
}

/// [`eval_expr`] on any input: `None` exactly when the input holds a lone quote
/// character as an argument of `.replace(...)`, which evaluation rejects.
pub fn try_eval_expr(s: &str, ctx: &EvalCtx<'_>) -> (r: Option<String>)
    ensures
        r matches Some(v) ==> expand(ctx@, s@) == Some(v@),
        r is None ==> expand(ctx@, s@) is None,
{
    let v = chars_of(s);
    match expand_exec(ctx, &v) {
        Some(out) => Some(string_of(&out)),
        None => None,
    }
}

} // verus!
