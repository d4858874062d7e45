//! Properties of the library that hold for all inputs or across functions,
//! stated over the specifications that the functions' contracts use.

use vstd::prelude::*;
use crate::expr::{compare_values, ev_and, ev_atom, ev_compare, ev_or, ev_ternary, expand, w_and, w_false, w_or, w_true, lex_order, parts_order_from, values_order,
    version_order, version_parts, w_open, CtxView};
use crate::index_map::{distinct_keys, inner_distinct, ins, key_index, lookup};
use crate::text::{find, find_char_from, find_from, lemma_find_from, occurs_at};
use crate::scan::{close_paren, close_paren_from, lemma_close_paren_bounds, op_pos};
use crate::toml_doc::ins_all;
use crate::toml_def::{def_from_doc, insert_sorted, or_empty, sort_dedup};
use crate::toml_doc::{
    empty_doc, ins_nested, ins_nested_all, merge_entries, merge_nested_spec, merge_spec, pick,
    NestedEntries, SanitizerView, StrEntries, StructureView, ToolchainDoc, VersionView,
};
use crate::install::{
    artifact_plan, bin_dir, bins_plan, executable_name_spec, file_name_of, headers_plan,
    include_dir, install_plan, install_root_spec, join_path, lib_dir, lib_plan,
    first_segment, missing_binary_msg, out_dir, shared_lib_plan, LibType, OpView, RequestView,
};
use crate::migration::{name_char, sanitize_spec, trim_end_non_alnum, trim_start_non_alnum};
use crate::text::{ends_with, is_ascii_alnum, starts_with, trim};
use crate::vcpkg::default_triplet_spec;
use crate::package::{
    archive_name_spec, bundled_deps, is_system_lib_spec, linux_system_prefixes, lowercase, starts_with_any,
    windows_system_prefixes,
};
use crate::meta::{cmake_steps_spec, decimal};
use crate::quick_kind::{first_kind, kind_of_line, w_compiler};
use crate::commands::{report_from, LineView, OutcomeView, RepoView};

verus! {

// ── Comparisons ───────────────────────────────────────────────────────────────

/// Comparing by code point is antisymmetric: swapping the operands negates
/// the outcome.
pub proof fn law_lex_order_antisymmetric(a: Seq<char>, b: Seq<char>)
    ensures
        lex_order(a, b) == -lex_order(b, a),
    decreases a.len(),
{
    if a.len() > 0 && b.len() > 0 && (a[0] as u32) == (b[0] as u32) {
        law_lex_order_antisymmetric(a.subrange(1, a.len() as int), b.subrange(1, b.len() as int));
    }
}

/// Two strings compare equal by code point exactly when they are equal.
pub proof fn law_lex_order_equal(a: Seq<char>, b: Seq<char>)
    ensures
        (lex_order(a, b) == 0) <==> (a == b),
    decreases a.len(),
{
    if a.len() > 0 && b.len() > 0 && (a[0] as u32) == (b[0] as u32) {
        law_lex_order_equal(a.subrange(1, a.len() as int), b.subrange(1, b.len() as int));
        vstd::utf8::char_u32_cast(a[0], a[0] as u32);
        vstd::utf8::char_u32_cast(b[0], b[0] as u32);
        assert(a[0] == b[0]);
        if lex_order(a, b) == 0 {
            assert(a.subrange(1, a.len() as int) == b.subrange(1, b.len() as int));
            assert forall|j: int| 0 <= j < a.len() implies a[j] == b[j] by {
                if j > 0 {
                    assert(a[j] == a.subrange(1, a.len() as int)[j - 1]);
                    assert(b[j] == b.subrange(1, b.len() as int)[j - 1]);
                }
            }
            assert(a =~= b);
        }
    } else if a.len() > 0 && b.len() > 0 {
        if a == b {
            assert(a[0] == b[0]);
        }
    } else if a.len() == 0 && b.len() == 0 {
        assert(a =~= b);
    }
}

/// Comparing by code point is transitive.
pub proof fn law_lex_order_transitive(a: Seq<char>, b: Seq<char>, c: Seq<char>)
    requires
        lex_order(a, b) < 0,
        lex_order(b, c) < 0,
    ensures
        lex_order(a, c) < 0,
    decreases a.len(),
{
    if a.len() > 0 && b.len() > 0 && c.len() > 0 && (a[0] as u32) == (b[0] as u32) && (b[0] as u32)
        == (c[0] as u32) {
        law_lex_order_transitive(
            a.subrange(1, a.len() as int),
            b.subrange(1, b.len() as int),
            c.subrange(1, c.len() as int),
        );
    }
}

proof fn lemma_parts_order_antisymmetric(a: Seq<int>, b: Seq<int>, i: int)
    ensures
        parts_order_from(a, b, i) == -parts_order_from(b, a, i),
    decreases a.len() + b.len() - i,
{
    if !(i < 0 || (i >= a.len() && i >= b.len())) {
        lemma_parts_order_antisymmetric(a, b, i + 1);
    }
}

/// Version comparison is antisymmetric.
pub proof fn law_version_order_antisymmetric(a: Seq<char>, b: Seq<char>)
    ensures
        version_order(a, b) == -version_order(b, a),
{
    lemma_parts_order_antisymmetric(version_parts(a), version_parts(b), 0);
}

/// In the expression language, `a >= b` holds exactly when `b <= a` does,
/// and `a > b` exactly when `b < a` does.
pub proof fn law_comparison_converse(a: Seq<char>, b: Seq<char>)
    ensures
        compare_values(a, b, 0) == compare_values(b, a, 1),
        compare_values(a, b, 4) == compare_values(b, a, 5),
        compare_values(a, b, 3) == compare_values(b, a, 3),
{
    law_version_order_antisymmetric(a, b);
    law_lex_order_antisymmetric(a, b);
    assert(values_order(a, b) == -values_order(b, a));
}

// ── Expansion ─────────────────────────────────────────────────────────────────

/// A template without `$(` is its own expansion, in every context.
pub proof fn law_plain_text_unchanged(c: CtxView, s: Seq<char>)
    requires
        find(s, w_open()) is None,
    ensures
        expand(c, s) == Some(s),
{
}

/// `o` with every position moved `n` further along.
pub open spec fn shift(o: Option<int>, n: int) -> Option<int> {
    match o {
        Some(k) => Some(k + n),
        None => None,
    }
}

/// The expansion of two pieces joined: both must expand, and the results join.
pub open spec fn join_expansions(x: Option<Seq<char>>, y: Option<Seq<char>>) -> Option<Seq<char>> {
    match (x, y) {
        (Some(u), Some(v)) => Some(u + v),
        _ => None,
    }
}

/// Every `$(` that the left-to-right scan of `s` opens is closed inside `s`.
pub open spec fn groups_closed(s: Seq<char>) -> bool
    decreases s.len(),
{
    match find(s, w_open()) {
        None => true,
        Some(start) => {
            let after = s.subrange(start + 2, s.len() as int);
            match close_paren(after) {
                None => false,
                Some(end) => {
                    proof {
                        lemma_find_from(s, w_open(), 0);
                        lemma_close_paren_bounds(after);
                    }
                    groups_closed(after.subrange(end + 1, after.len() as int))
                },
            }
        },
    }
}

proof fn lemma_close_paren_none(s: Seq<char>, i: int, depth: int)
    requires
        forall|k: int| 0 <= k < s.len() ==> s[k] != ')',
    ensures
        close_paren_from(s, i, depth) is None,
    decreases s.len() - i,
{
    if 0 <= i < s.len() {
        if s[i] == '(' {
            lemma_close_paren_none(s, i + 1, depth + 1);
        } else {
            lemma_close_paren_none(s, i + 1, depth);
        }
    }
}

proof fn lemma_close_paren_extend(s: Seq<char>, t: Seq<char>, i: int, depth: int)
    requires
        close_paren_from(s, i, depth) is Some,
    ensures
        close_paren_from(s + t, i, depth) == close_paren_from(s, i, depth),
    decreases s.len() - i,
{
    let st = s + t;
    assert(st[i] == s[i]);
    if s[i] == '(' {
        lemma_close_paren_extend(s, t, i + 1, depth + 1);
    } else if s[i] == ')' {
        if depth != 1 {
            lemma_close_paren_extend(s, t, i + 1, depth - 1);
        }
    } else {
        lemma_close_paren_extend(s, t, i + 1, depth);
    }
}

proof fn lemma_find_extend(a: Seq<char>, b: Seq<char>, pat: Seq<char>, from: int)
    requires
        find_from(a, pat, from) is Some,
    ensures
        find_from(a + b, pat, from) == find_from(a, pat, from),
    decreases a.len() + 1 - from,
{
    let ab = a + b;
    assert(ab.subrange(from, from + pat.len()) =~= a.subrange(from, from + pat.len()));
    if !occurs_at(a, pat, from) {
        lemma_find_extend(a, b, pat, from + 1);
    }
}

proof fn lemma_find_in_suffix(a: Seq<char>, b: Seq<char>, pat: Seq<char>, j: int)
    requires
        0 <= j,
    ensures
        find_from(a + b, pat, a.len() + j) == shift(find_from(b, pat, j), a.len() as int),
    decreases b.len() + 1 - j,
{
    let ab = a + b;
    if j + pat.len() <= b.len() {
        assert(ab.subrange(a.len() + j, a.len() + j + pat.len()) =~= b.subrange(j, j + pat.len()));
        if !occurs_at(b, pat, j) {
            lemma_find_in_suffix(a, b, pat, j + 1);
        }
    }
}

proof fn lemma_find_past_prefix(a: Seq<char>, b: Seq<char>, from: int)
    requires
        0 <= from <= a.len(),
        find_from(a, w_open(), from) is None,
        a.len() == 0 || a.last() != '$' || (b.len() > 0 && b[0] != '('),
    ensures
        find_from(a + b, w_open(), from) == shift(find_from(b, w_open(), 0), a.len() as int),
    decreases a.len() - from,
{
    let ab = a + b;
    if from == a.len() {
        lemma_find_in_suffix(a, b, w_open(), 0);
    } else {
        if from + 2 <= a.len() {
            assert(ab.subrange(from, from + 2) =~= a.subrange(from, from + 2));
        } else if from + 2 <= ab.len() {
            assert(ab.subrange(from, from + 2)[0] == a.last());
            assert(ab.subrange(from, from + 2)[1] == b[0]);
        }
        lemma_find_past_prefix(a, b, from + 1);
    }
}

/// A `$(` that is never closed is kept verbatim, with the rest of the text:
/// when `p` holds no `$(` and `q` no `)`, `p$(q` is its own expansion.
pub proof fn law_unclosed_group_verbatim(c: CtxView, p: Seq<char>, q: Seq<char>)
    requires
        find(p, w_open()) is None,
        forall|k: int| 0 <= k < q.len() ==> q[k] != ')',
    ensures
        expand(c, p + w_open() + q) == Some(p + w_open() + q),
{
    let b = w_open() + q;
    let s = p + b;
    assert(p + w_open() + q =~= s);
    assert(b.subrange(0, 2) =~= w_open());
    lemma_find_past_prefix(p, b, 0);
    assert(s.subrange(p.len() + 2int, s.len() as int) =~= q);
    lemma_close_paren_none(q, 0, 1);
}

/// Expansion splits over a concatenation: when every `$(` opened in `a` is
/// closed inside `a`, and `a` does not end in `$`, expanding `a + b` expands
/// `a` and `b` and joins the results (and fails when either fails).
pub proof fn law_expand_concat(c: CtxView, a: Seq<char>, b: Seq<char>)
    requires
        groups_closed(a),
        a.len() == 0 || a.last() != '$',
    ensures
        expand(c, a + b) == join_expansions(expand(c, a), expand(c, b)),
    decreases a.len(),
{
    let ab = a + b;
    match find(a, w_open()) {
        None => {
            lemma_find_past_prefix(a, b, 0);
            match find(b, w_open()) {
                None => {},
                Some(st) => {
                    lemma_find_from(b, w_open(), 0);
                    assert(ab.subrange(a.len() + st + 2, ab.len() as int) =~= b.subrange(
                        st + 2,
                        b.len() as int,
                    ));
                    assert(ab.subrange(0, a.len() + st) =~= a + b.subrange(0, st));
                    let after = b.subrange(st + 2, b.len() as int);
                    match close_paren(after) {
                        None => {
                            assert(a + b =~= ab);
                        },
                        Some(end) => {
                            match ev_ternary(c, trim(after.subrange(0, end))) {
                                None => {},
                                Some(v) => {
                                    match expand(c, after.subrange(end + 1, after.len() as int)) {
                                        None => {},
                                        Some(r) => {
                                            assert(a + (b.subrange(0, st) + v + r) =~= (a
                                                + b.subrange(0, st)) + v + r);
                                        },
                                    }
                                },
                            }
                        },
                    }
                },
            }
        },
        Some(start) => {
            lemma_find_from(a, w_open(), 0);
            lemma_find_extend(a, b, w_open(), 0);
            let after = a.subrange(start + 2, a.len() as int);
            let end = close_paren(after)->0;
            let rest = after.subrange(end + 1, after.len() as int);
            assert(ab.subrange(start + 2, ab.len() as int) =~= after + b);
            lemma_close_paren_extend(after, b, 0, 1);
            lemma_close_paren_bounds(after);
            assert((after + b).subrange(0, end) =~= after.subrange(0, end));
            assert((after + b).subrange(end + 1, (after + b).len() as int) =~= rest + b);
            assert(ab.subrange(0, start) =~= a.subrange(0, start));
            if rest.len() > 0 {
                assert(rest.last() == a.last());
            }
            law_expand_concat(c, rest, b);
            match ev_ternary(c, trim(after.subrange(0, end))) {
                None => {},
                Some(v) => {
                    match (expand(c, rest), expand(c, b)) {
                        (Some(x), Some(y)) => {
                            assert(a.subrange(0, start) + v + (x + y) =~= (a.subrange(0, start) + v
                                + x) + y);
                        },
                        _ => {},
                    }
                },
            }
        },
    }
}

// ── Logical operators ─────────────────────────────────────────────────────────

/// A value that `&&`, `||` and `!` count as false: `false` or nothing.
pub open spec fn false_like(v: Seq<char>) -> bool {
    v == "false"@ || v.len() == 0
}

/// `a && b` (the first `&&` outside quotes and parentheses): when `a`
/// evaluates to something false, the whole is `false`; when it is true only
/// if both sides evaluated to true values, and then it is the right value.
pub proof fn law_and_needs_both(c: CtxView, e: Seq<char>, p: int)
    requires
        op_pos(e, w_and()) == Some(p),
    ensures
        ({
            let left = ev_compare(c, trim(e.subrange(0, p)));
            let right = ev_compare(c, trim(e.subrange(p + 2, e.len() as int)));
            &&& (left is Some && false_like(left->0)) ==> ev_and(c, e) == Some("false"@)
            &&& (ev_and(c, e) is Some && !false_like(ev_and(c, e)->0)) ==> (left is Some
                && !false_like(left->0) && right == ev_and(c, e))
            &&& left is None ==> ev_and(c, e) is None
        }),
{
    reveal_strlit("false");
    assert(w_false() == "false"@);
}

/// `a || b` (the first `||` outside quotes and parentheses): the left value
/// when it is true, else the right value.
pub proof fn law_or_first_true(c: CtxView, e: Seq<char>, p: int)
    requires
        op_pos(e, w_or()) == Some(p),
    ensures
        ({
            let left = ev_and(c, trim(e.subrange(0, p)));
            let right = ev_and(c, trim(e.subrange(p + 2, e.len() as int)));
            &&& (left is Some && !false_like(left->0)) ==> ev_or(c, e) == left
            &&& (left is Some && false_like(left->0)) ==> ev_or(c, e) == right
            &&& left is None ==> ev_or(c, e) is None
        }),
{
    reveal_strlit("false");
    assert(w_false() == "false"@);
}

/// `!a` is `true` exactly when `a` evaluates to something false.
pub proof fn law_not_negates(c: CtxView, e: Seq<char>)
    requires
        trim(e).len() > 0,
        trim(e)[0] == '!',
    ensures
        ({
            let inner = ev_atom(c, trim(trim(e).subrange(1, trim(e).len() as int)));
            &&& (inner is Some && false_like(inner->0)) ==> ev_atom(c, e) == Some("true"@)
            &&& (inner is Some && !false_like(inner->0)) ==> ev_atom(c, e) == Some("false"@)
            &&& inner is None ==> ev_atom(c, e) is None
        }),
{
    reveal_strlit("false");
    reveal_strlit("true");
    assert(w_false() == "false"@);
    assert(w_true() == "true"@);
}

// ── Merging template maps ─────────────────────────────────────────────────────


proof fn lemma_key_index_facts<V>(es: Seq<(Seq<char>, V)>, k: Seq<char>)
    ensures
        match key_index(es, k) {
            Some(i) => 0 <= i < es.len() && es[i].0 == k && forall|j: int|
                0 <= j < i ==> #[trigger] es[j].0 != k,
            None => forall|j: int| 0 <= j < es.len() ==> #[trigger] es[j].0 != k,
        },
    decreases es.len(),
{
    if es.len() > 0 {
        let d = es.drop_last();
        lemma_key_index_facts(d, k);
        assert forall|j: int| 0 <= j < d.len() implies d[j] == es[j] by {}
    }
}

proof fn lemma_lookup_ins_same<V>(es: Seq<(Seq<char>, V)>, k: Seq<char>, v: V)
    ensures
        lookup(ins(es, k, v), k) == Some(v),
{
    lemma_key_index_facts(es, k);
    match key_index(es, k) {
        Some(i) => {
            let u = es.update(i, (k, v));
            assert forall|j: int| 0 <= j < i implies #[trigger] u[j].0 != k by {
                assert(u[j] == es[j]);
            }
            crate::toml_def::lemma_key_index_first(u, k, i);
        },
        None => {
            let u = es.push((k, v));
            assert forall|j: int| 0 <= j < es.len() implies #[trigger] u[j].0 != k by {
                assert(u[j] == es[j]);
            }
            crate::toml_def::lemma_key_index_first(u, k, es.len() as int);
        },
    }
}

proof fn lemma_lookup_ins_other<V>(es: Seq<(Seq<char>, V)>, k: Seq<char>, v: V, k2: Seq<char>)
    requires
        k2 != k,
    ensures
        lookup(ins(es, k, v), k2) == lookup(es, k2),
{
    lemma_key_index_facts(es, k);
    lemma_key_index_facts(es, k2);
    let u = ins(es, k, v);
    assert(u.len() >= es.len());
    assert forall|j: int| 0 <= j < es.len() implies #[trigger] u[j].0 == es[j].0 && (u[j].0 == k2
        ==> u[j] == es[j]) by {}
    match key_index(es, k2) {
        Some(i) => {
            assert forall|j: int| 0 <= j < i implies #[trigger] u[j].0 != k2 by {
                assert(u[j].0 == es[j].0);
            }
            assert(u[i] == es[i]);
            crate::toml_def::lemma_key_index_first(u, k2, i);
        },
        None => {
            assert forall|j: int| 0 <= j < u.len() implies #[trigger] u[j].0 != k2 by {
                if j < es.len() {
                    assert(u[j].0 == es[j].0);
                }
            }
            crate::toml_def::lemma_key_index_first(u, k2, u.len() as int);
        },
    }
}

proof fn lemma_lookup_distinct_last<V>(o: Seq<(Seq<char>, V)>, k: Seq<char>)
    requires
        o.len() > 0,
        distinct_keys(o),
    ensures
        o.last().0 == k ==> lookup(o, k) == Some(o.last().1),
        o.last().0 != k ==> lookup(o, k) == lookup(o.drop_last(), k),
{
    let d = o.drop_last();
    if o.last().0 == k {
        assert forall|j: int| 0 <= j < o.len() - 1 implies #[trigger] o[j].0 != k by {
            assert(o[j].0 != o[o.len() - 1].0);
        }
        crate::toml_def::lemma_key_index_first(o, k, o.len() - 1);
    } else {
        lemma_key_index_facts(d, k);
        match key_index(d, k) {
            Some(i) => {
                assert forall|j: int| 0 <= j < i implies #[trigger] o[j].0 != k by {
                    assert(o[j] == d[j]);
                }
                assert(o[i] == d[i]);
                crate::toml_def::lemma_key_index_first(o, k, i);
            },
            None => {
                assert forall|j: int| 0 <= j < o.len() implies #[trigger] o[j].0 != k by {
                    if j < d.len() {
                        assert(o[j] == d[j]);
                    }
                }
                crate::toml_def::lemma_key_index_first(o, k, o.len() as int);
            },
        }
    }
}

/// Merging two template maps: a key of the overlay takes the overlay's value;
/// any other key keeps the base's value (or stays absent).
pub proof fn law_merge_overlay_wins<V>(b: Seq<(Seq<char>, V)>, o: Seq<(Seq<char>, V)>, k: Seq<char>)
    requires
        distinct_keys(o),
    ensures
        lookup(ins_all(b, o), k) == (match lookup(o, k) {
            Some(v) => Some(v),
            None => lookup(b, k),
        }),
    decreases o.len(),
{
    if o.len() > 0 {
        let d = o.drop_last();
        assert(distinct_keys(d)) by {
            assert forall|i: int, j: int| 0 <= i < j < d.len() implies #[trigger] d[i].0
                != #[trigger] d[j].0 by {
                assert(d[i] == o[i] && d[j] == o[j]);
            }
        }
        law_merge_overlay_wins(b, d, k);
        lemma_lookup_distinct_last(o, k);
        if o.last().0 == k {
            lemma_lookup_ins_same(ins_all(b, d), k, o.last().1);
        } else {
            lemma_lookup_ins_other(ins_all(b, d), o.last().0, o.last().1, k);
        }
    }
}


// ── Sorted extension lists ────────────────────────────────────────────────────

/// Each item comes strictly before the next in code-point order.
pub open spec fn strictly_sorted(s: Seq<Seq<char>>) -> bool {
    forall|i: int, j: int| 0 <= i < j < s.len() ==> lex_order(#[trigger] s[i], #[trigger] s[j]) < 0
}

proof fn lemma_insert_sorted(s: Seq<Seq<char>>, x: Seq<char>)
    requires
        strictly_sorted(s),
    ensures
        strictly_sorted(insert_sorted(s, x)),
        forall|y: Seq<char>| #[trigger] insert_sorted(s, x).contains(y) <==> (s.contains(y) || y == x),
    decreases s.len(),
{
    if s.len() == 0 {
        assert(insert_sorted(s, x) =~= seq![x]);
        assert forall|y: Seq<char>| #[trigger] insert_sorted(s, x).contains(y) <==> (s.contains(y)
            || y == x) by {
            if y == x {
                assert(insert_sorted(s, x)[0] == x);
            }
        }
    } else if lex_order(x, s[0]) == 0 {
        law_lex_order_equal(x, s[0]);
        assert forall|y: Seq<char>| #[trigger] insert_sorted(s, x).contains(y) <==> (s.contains(y)
            || y == x) by {
            if y == x {
                assert(s[0] == x);
            }
        }
    } else if lex_order(x, s[0]) < 0 {
        let r = seq![x] + s;
        assert(insert_sorted(s, x) == r);
        assert forall|i: int, j: int| 0 <= i < j < r.len() implies lex_order(
            #[trigger] r[i],
            #[trigger] r[j],
        ) < 0 by {
            if i == 0 {
                if j > 1 {
                    assert(lex_order(s[0], s[j - 1]) < 0);
                    law_lex_order_transitive(x, s[0], s[j - 1]);
                }
            } else {
                assert(r[i] == s[i - 1] && r[j] == s[j - 1]);
            }
        }
        assert forall|y: Seq<char>| #[trigger] r.contains(y) <==> (s.contains(y) || y == x) by {
            if y == x {
                assert(r[0] == x);
            }
            if s.contains(y) {
                let k = choose|k: int| 0 <= k < s.len() && s[k] == y;
                assert(r[k + 1] == y);
            }
            if r.contains(y) && y != x {
                let k = choose|k: int| 0 <= k < r.len() && r[k] == y;
                assert(s[k - 1] == y);
            }
        }
    } else {
        let t = s.drop_first();
        assert forall|i: int, j: int| 0 <= i < j < t.len() implies lex_order(
            #[trigger] t[i],
            #[trigger] t[j],
        ) < 0 by {
            assert(t[i] == s[i + 1] && t[j] == s[j + 1]);
        }
        lemma_insert_sorted(t, x);
        let rest = insert_sorted(t, x);
        let r = seq![s[0]] + rest;
        assert(insert_sorted(s, x) == r);
        law_lex_order_antisymmetric(x, s[0]);
        assert forall|j: int| 0 <= j < rest.len() implies lex_order(s[0], #[trigger] rest[j]) < 0 by {
            assert(rest.contains(rest[j]));
            if rest[j] != x {
                assert(t.contains(rest[j]));
                let k = choose|k: int| 0 <= k < t.len() && t[k] == rest[j];
                assert(s[k + 1] == rest[j]);
                assert(lex_order(s[0], s[k + 1]) < 0);
            }
        }
        assert forall|i: int, j: int| 0 <= i < j < r.len() implies lex_order(
            #[trigger] r[i],
            #[trigger] r[j],
        ) < 0 by {
            if i == 0 {
                assert(r[j] == rest[j - 1]);
            } else {
                assert(r[i] == rest[i - 1] && r[j] == rest[j - 1]);
            }
        }
        assert forall|y: Seq<char>| #[trigger] r.contains(y) <==> (s.contains(y) || y == x) by {
            if r.contains(y) {
                let k = choose|k: int| 0 <= k < r.len() && r[k] == y;
                if k > 0 {
                    assert(rest[k - 1] == y);
                    assert(rest.contains(y));
                    if t.contains(y) {
                        let m = choose|m: int| 0 <= m < t.len() && t[m] == y;
                        assert(s[m + 1] == y);
                    }
                } else {
                    assert(s[0] == y);
                }
            }
            if s.contains(y) {
                let k = choose|k: int| 0 <= k < s.len() && s[k] == y;
                if k == 0 {
                    assert(r[0] == y);
                } else {
                    assert(t[k - 1] == y);
                    assert(rest.contains(y));
                    let m = choose|m: int| 0 <= m < rest.len() && rest[m] == y;
                    assert(r[m + 1] == y);
                }
            }
            if y == x {
                assert(rest.contains(x));
                let m = choose|m: int| 0 <= m < rest.len() && rest[m] == x;
                assert(r[m + 1] == x);
            }
        }
    }
}

/// The extensions derived from linking sections are sorted in code-point
/// order without duplicates, and are exactly the extensions that occur.
pub proof fn law_sort_dedup(xs: Seq<Seq<char>>)
    ensures
        strictly_sorted(sort_dedup(xs)),
        forall|y: Seq<char>| #[trigger] sort_dedup(xs).contains(y) <==> xs.contains(y),
    decreases xs.len(),
{
    if xs.len() == 0 {
    } else {
        let d = xs.drop_last();
        law_sort_dedup(d);
        lemma_insert_sorted(sort_dedup(d), xs.last());
        assert forall|y: Seq<char>| #[trigger] sort_dedup(xs).contains(y) <==> xs.contains(y) by {
            if d.contains(y) {
                let k = choose|k: int| 0 <= k < d.len() && d[k] == y;
                assert(xs[k] == y);
            }
            if xs.contains(y) {
                let k = choose|k: int| 0 <= k < xs.len() && xs[k] == y;
                if k < xs.len() - 1 {
                    assert(d[k] == y);
                }
            }
        }
    }
}


// ── Merging template documents ────────────────────────────────────────────────

// ── Merging whole documents ───────────────────────────────────────────────────

/// The keys of a map's entries, in order.
pub open spec fn keys_of<V>(es: Seq<(Seq<char>, V)>) -> Seq<Seq<char>> {
    es.map_values(|p: (Seq<char>, V)| p.0)
}

/// The keys of `o` that `known` lacks, in `o`'s order.
pub open spec fn fresh_keys<V>(known: Seq<Seq<char>>, o: Seq<(Seq<char>, V)>) -> Seq<Seq<char>>
    decreases o.len(),
{
    if o.len() == 0 {
        seq![]
    } else {
        let f = fresh_keys(known, o.drop_last());
        if known.contains(o.last().0) {
            f
        } else {
            f.push(o.last().0)
        }
    }
}

/// `r` is map `o` merged onto map `b`: each key once; the base's keys in the
/// base's order, then the overlay's new keys in the overlay's order; a key of
/// the overlay takes the overlay's value, any other key the base's.
pub open spec fn merged_map<V>(
    b: Seq<(Seq<char>, V)>,
    o: Seq<(Seq<char>, V)>,
    r: Seq<(Seq<char>, V)>,
) -> bool {
    &&& distinct_keys(r)
    &&& keys_of(r) == keys_of(b) + fresh_keys(keys_of(b), o)
    &&& forall|k: Seq<char>| #[trigger] lookup(r, k) == pick(lookup(o, k), lookup(b, k))
}

/// `r` is the table of tables `o` merged onto `b`: outer keys as in
/// [`merged_map`]; a table the overlay sets is the base's table (or an empty
/// one) with the overlay's table merged onto it; any other table is the base's.
pub open spec fn merged_nested(b: NestedEntries, o: NestedEntries, r: NestedEntries) -> bool {
    &&& distinct_keys(r)
    &&& inner_distinct(r)
    &&& keys_of(r) == keys_of(b) + fresh_keys(keys_of(b), o)
    &&& forall|k: Seq<char>|
        #[trigger] lookup(r, k) == match lookup(o, k) {
            Some(oi) => Some(ins_all(or_empty(lookup(b, k)), oi)),
            None => lookup(b, k),
        }
    &&& forall|k: Seq<char>|
        #[trigger] lookup(o, k) matches Some(oi) ==> merged_map(
            or_empty(lookup(b, k)),
            oi,
            ins_all(or_empty(lookup(b, k)), oi),
        )
}

/// Every map of a document holds each key once, as an `IndexMap` does.
pub open spec fn doc_wf(d: ToolchainDoc) -> bool {
    &&& distinct_keys(or_empty(d.toolset))
    &&& distinct_keys(or_empty(d.arch_flags))
    &&& distinct_keys(or_empty(d.optimization))
    &&& distinct_keys(or_empty(d.warnings))
    &&& distinct_keys(or_empty(d.linking))
    &&& distinct_keys(or_empty(d.language))
    &&& inner_distinct(or_empty(d.language))
    &&& distinct_keys(or_empty(d.compiler))
    &&& inner_distinct(or_empty(d.compiler))
    &&& distinct_keys(or_empty(d.launch))
    &&& distinct_keys(or_empty(d.settings))
    &&& distinct_keys(or_empty(d.values))
    &&& distinct_keys(or_empty(d.run))
}

/// A map field merged: absent only when absent on both sides, and otherwise
/// the overlay's entries merged onto the base's.
pub open spec fn merged_field<V>(
    b: Option<Seq<(Seq<char>, V)>>,
    o: Option<Seq<(Seq<char>, V)>>,
    r: Option<Seq<(Seq<char>, V)>>,
) -> bool {
    &&& (r is None <==> (b is None && o is None))
    &&& merged_map(or_empty(b), or_empty(o), or_empty(r))
}

/// A table-of-tables field merged, as [`merged_field`].
pub open spec fn merged_nested_field(
    b: Option<NestedEntries>,
    o: Option<NestedEntries>,
    r: Option<NestedEntries>,
) -> bool {
    &&& (r is None <==> (b is None && o is None))
    &&& merged_nested(or_empty(b), or_empty(o), or_empty(r))
}

pub open spec fn version_or_none(v: Option<VersionView>) -> VersionView {
    match v {
        Some(x) => x,
        None => VersionView { argument: None, regex: None },
    }
}

pub open spec fn sanitizer_or_none(v: Option<SanitizerView>) -> SanitizerView {
    match v {
        Some(x) => x,
        None => SanitizerView { options: None, argument: None },
    }
}

pub open spec fn structure_or_none(v: Option<StructureView>) -> StructureView {
    match v {
        Some(x) => x,
        None => StructureView {
            include_dir: None,
            define: None,
            define_value: None,
            output: None,
            output_obj: None,
            output_bin: None,
            compile_only: None,
            dep_file: None,
            dep_file_mode: None,
            system_lib: None,
            target: None,
            sysroot: None,
        },
    }
}

proof fn lemma_not_in_keys<V>(es: Seq<(Seq<char>, V)>, k: Seq<char>)
    requires
        forall|j: int| 0 <= j < es.len() ==> #[trigger] es[j].0 != k,
    ensures
        !keys_of(es).contains(k),
{
    if keys_of(es).contains(k) {
        let j = choose|j: int| 0 <= j < keys_of(es).len() && keys_of(es)[j] == k;
        assert(es[j].0 == k);
    }
}

proof fn lemma_ins_shape<V>(es: Seq<(Seq<char>, V)>, k: Seq<char>, v: V)
    requires
        distinct_keys(es),
    ensures
        distinct_keys(ins(es, k, v)),
        keys_of(ins(es, k, v)) == (if keys_of(es).contains(k) {
            keys_of(es)
        } else {
            keys_of(es).push(k)
        }),
        forall|j: int| 0 <= j < es.len() ==> (#[trigger] ins(es, k, v)[j] == es[j] || ins(es, k, v)[j] == (k, v)),
        ins(es, k, v).len() == es.len() || ins(es, k, v).last() == (k, v),
{
    lemma_key_index_facts(es, k);
    let r = ins(es, k, v);
    match key_index(es, k) {
        Some(i) => {
            assert(keys_of(es)[i] == k);
            assert(keys_of(r) =~= keys_of(es));
            assert forall|a: int, c: int| 0 <= a < c < r.len() implies #[trigger] r[a].0
                != #[trigger] r[c].0 by {
                assert(r[a].0 == es[a].0 && r[c].0 == es[c].0);
            }
        },
        None => {
            lemma_not_in_keys(es, k);
            assert(keys_of(r) =~= keys_of(es).push(k));
            assert forall|a: int, c: int| 0 <= a < c < r.len() implies #[trigger] r[a].0
                != #[trigger] r[c].0 by {
                if c == es.len() {
                    assert(r[a] == es[a]);
                } else {
                    assert(r[a] == es[a] && r[c] == es[c]);
                }
            }
        },
    }
}

proof fn lemma_fresh_in_overlay<V>(known: Seq<Seq<char>>, o: Seq<(Seq<char>, V)>, x: Seq<char>)
    requires
        fresh_keys(known, o).contains(x),
    ensures
        keys_of(o).contains(x),
    decreases o.len(),
{
    let d = o.drop_last();
    let f = fresh_keys(known, d);
    if f.contains(x) {
        lemma_fresh_in_overlay(known, d, x);
        let j = choose|j: int| 0 <= j < keys_of(d).len() && keys_of(d)[j] == x;
        assert(keys_of(o)[j] == x);
    } else {
        assert(o.last().0 == x);
        assert(keys_of(o)[o.len() - 1] == x);
    }
}

proof fn lemma_drop_last_distinct<V>(o: Seq<(Seq<char>, V)>)
    requires
        o.len() > 0,
        distinct_keys(o),
    ensures
        distinct_keys(o.drop_last()),
        !keys_of(o.drop_last()).contains(o.last().0),
{
    let d = o.drop_last();
    assert forall|i: int, j: int| 0 <= i < j < d.len() implies #[trigger] d[i].0
        != #[trigger] d[j].0 by {
        assert(d[i] == o[i] && d[j] == o[j]);
    }
    assert forall|j: int| 0 <= j < d.len() implies #[trigger] d[j].0 != o.last().0 by {
        assert(d[j] == o[j]);
    }
    lemma_not_in_keys(d, o.last().0);
}

/// The keys after inserting `o` into `b`, and that they stay distinct.
proof fn lemma_ins_all_keys<V>(b: Seq<(Seq<char>, V)>, o: Seq<(Seq<char>, V)>)
    requires
        distinct_keys(b),
        distinct_keys(o),
    ensures
        distinct_keys(ins_all(b, o)),
        keys_of(ins_all(b, o)) == keys_of(b) + fresh_keys(keys_of(b), o),
    decreases o.len(),
{
    if o.len() == 0 {
        assert(keys_of(b) + fresh_keys(keys_of(b), o) =~= keys_of(b));
    } else {
        let d = o.drop_last();
        let k = o.last().0;
        lemma_drop_last_distinct(o);
        lemma_ins_all_keys(b, d);
        let e = ins_all(b, d);
        lemma_ins_shape(e, k, o.last().1);
        let kb = keys_of(b);
        let f = fresh_keys(kb, d);
        if f.contains(k) {
            lemma_fresh_in_overlay(kb, d, k);
        }
        assert(keys_of(e).contains(k) <==> kb.contains(k)) by {
            if keys_of(e).contains(k) && !kb.contains(k) {
                let j = choose|j: int| 0 <= j < keys_of(e).len() && keys_of(e)[j] == k;
                assert((kb + f)[j] == k);
                assert(f[j - kb.len()] == k);
                assert(f.contains(k));
            }
            if kb.contains(k) {
                let j = choose|j: int| 0 <= j < kb.len() && kb[j] == k;
                assert(keys_of(e)[j] == k);
            }
        }
        if !kb.contains(k) {
            assert((kb + f).push(k) =~= kb + f.push(k));
        }
    }
}

/// Merging maps, in full.
proof fn lemma_ins_all_merged<V>(b: Seq<(Seq<char>, V)>, o: Seq<(Seq<char>, V)>)
    requires
        distinct_keys(b),
        distinct_keys(o),
    ensures
        merged_map(b, o, ins_all(b, o)),
{
    lemma_ins_all_keys(b, o);
    assert forall|k: Seq<char>| #[trigger] lookup(ins_all(b, o), k) == pick(lookup(o, k), lookup(b, k)) by {
        law_merge_overlay_wins(b, o, k);
    }
}

proof fn lemma_ins_all_empty<V>(o: Seq<(Seq<char>, V)>)
    requires
        distinct_keys(o),
    ensures
        ins_all(Seq::<(Seq<char>, V)>::empty(), o) == o,
    decreases o.len(),
{
    if o.len() > 0 {
        let d = o.drop_last();
        lemma_drop_last_distinct(o);
        lemma_ins_all_empty(d);
        lemma_key_index_facts(d, o.last().0);
        if key_index(d, o.last().0) is Some {
            let i = key_index(d, o.last().0)->0;
            assert(keys_of(d)[i] == o.last().0);
        }
        assert(d.push(o.last()) =~= o);
    }
}

proof fn lemma_merge_entries_law<V>(b: Option<Seq<(Seq<char>, V)>>, o: Option<Seq<(Seq<char>, V)>>)
    requires
        distinct_keys(or_empty(b)),
        distinct_keys(or_empty(o)),
    ensures
        merged_field(b, o, merge_entries(b, o)),
{
    lemma_ins_all_merged(or_empty(b), or_empty(o));
    if b is None {
        lemma_ins_all_empty(or_empty(o));
    }
    if o is None {
        assert(ins_all(or_empty(b), or_empty(o)) == or_empty(b));
    }
}

proof fn lemma_lookup_found<V>(es: Seq<(Seq<char>, V)>, k: Seq<char>)
    ensures
        lookup(es, k) matches Some(x) ==> exists|i: int| 0 <= i < es.len() && #[trigger] es[i] == (k, x),
{
    lemma_key_index_facts(es, k);
    if key_index(es, k) is Some {
        let i = key_index(es, k)->0;
        assert(es[i] == (k, es[i].1));
    }
}

proof fn lemma_inner_of(es: NestedEntries, k: Seq<char>)
    requires
        inner_distinct(es),
    ensures
        distinct_keys(or_empty(lookup(es, k))),
{
    lemma_lookup_found(es, k);
    if lookup(es, k) is Some {
        let i = choose|i: int| 0 <= i < es.len() && #[trigger] es[i] == (k, lookup(es, k)->0);
        assert(distinct_keys(es[i].1));
    }
}

proof fn lemma_ins_nested_all_merged(b: NestedEntries, o: NestedEntries)
    requires
        distinct_keys(b),
        inner_distinct(b),
        distinct_keys(o),
        inner_distinct(o),
    ensures
        merged_nested(b, o, ins_nested_all(b, o)),
    decreases o.len(),
{
    if o.len() == 0 {
        assert(keys_of(b) + fresh_keys(keys_of(b), o) =~= keys_of(b));
        assert forall|k: Seq<char>| #[trigger] lookup(o, k) is None by {
            lemma_key_index_facts(o, k);
        }
    } else {
        let d = o.drop_last();
        let k = o.last().0;
        let inner = o.last().1;
        lemma_drop_last_distinct(o);
        assert(inner_distinct(d)) by {
            assert forall|i: int| 0 <= i < d.len() implies distinct_keys(#[trigger] d[i].1) by {
                assert(d[i] == o[i]);
            }
        }
        assert(distinct_keys(inner)) by {
            assert(distinct_keys(o[o.len() - 1].1));
        }
        lemma_ins_nested_all_merged(b, d);
        let e = ins_nested_all(b, d);
        lemma_key_index_facts(d, k);
        if key_index(d, k) is Some {
            let i = key_index(d, k)->0;
            assert(keys_of(d)[i] == k);
        }
        assert(lookup(d, k) is None);
        assert(lookup(e, k) == lookup(b, k));
        let existing = or_empty(lookup(b, k));
        lemma_inner_of(b, k);
        let nv = ins_all(existing, inner);
        lemma_ins_all_merged(existing, inner);
        assert(ins_nested(e, k, inner) == ins(e, k, nv));
        let r = ins(e, k, nv);
        lemma_ins_shape(e, k, nv);
        // keys
        let kb = keys_of(b);
        let f = fresh_keys(kb, d);
        if f.contains(k) {
            lemma_fresh_in_overlay(kb, d, k);
        }
        assert(keys_of(e).contains(k) <==> kb.contains(k)) by {
            if keys_of(e).contains(k) && !kb.contains(k) {
                let j = choose|j: int| 0 <= j < keys_of(e).len() && keys_of(e)[j] == k;
                assert((kb + f)[j] == k);
                assert(f[j - kb.len()] == k);
                assert(f.contains(k));
            }
            if kb.contains(k) {
                let j = choose|j: int| 0 <= j < kb.len() && kb[j] == k;
                assert(keys_of(e)[j] == k);
            }
        }
        if !kb.contains(k) {
            assert((kb + f).push(k) =~= kb + f.push(k));
        }
        // inner maps stay distinct
        assert forall|i: int| 0 <= i < r.len() implies distinct_keys(#[trigger] r[i].1) by {
            if i < e.len() {
                assert(r[i] == e[i] || r[i] == (k, nv));
                assert(distinct_keys(e[i].1));
            } else {
                assert(r[i] == (k, nv));
            }
        }
        // lookups
        assert forall|k2: Seq<char>| #[trigger] lookup(r, k2) == match lookup(o, k2) {
            Some(oi) => Some(ins_all(or_empty(lookup(b, k2)), oi)),
            None => lookup(b, k2),
        } by {
            lemma_lookup_distinct_last(o, k2);
            if k2 == k {
                lemma_lookup_ins_same(e, k, nv);
            } else {
                lemma_lookup_ins_other(e, k, nv, k2);
            }
        }
        assert forall|k2: Seq<char>| #[trigger] lookup(o, k2) is Some implies merged_map(
            or_empty(lookup(b, k2)),
            lookup(o, k2)->0,
            ins_all(or_empty(lookup(b, k2)), lookup(o, k2)->0),
        ) by {
            lemma_lookup_distinct_last(o, k2);
            if k2 != k {
                assert(lookup(d, k2) == lookup(o, k2));
            }
        }
    }
}

proof fn lemma_ins_nested_all_empty(o: NestedEntries)
    requires
        distinct_keys(o),
        inner_distinct(o),
    ensures
        ins_nested_all(Seq::<(Seq<char>, StrEntries)>::empty(), o) == o,
    decreases o.len(),
{
    if o.len() > 0 {
        let d = o.drop_last();
        let k = o.last().0;
        lemma_drop_last_distinct(o);
        assert(inner_distinct(d)) by {
            assert forall|i: int| 0 <= i < d.len() implies distinct_keys(#[trigger] d[i].1) by {
                assert(d[i] == o[i]);
            }
        }
        lemma_ins_nested_all_empty(d);
        lemma_key_index_facts(d, k);
        if key_index(d, k) is Some {
            let i = key_index(d, k)->0;
            assert(keys_of(d)[i] == k);
        }
        assert(distinct_keys(o[o.len() - 1].1));
        lemma_ins_all_empty(o.last().1);
        assert(d.push((k, o.last().1)) =~= o);
    }
}

proof fn lemma_merge_nested_law(b: Option<NestedEntries>, o: Option<NestedEntries>)
    requires
        distinct_keys(or_empty(b)),
        inner_distinct(or_empty(b)),
        distinct_keys(or_empty(o)),
        inner_distinct(or_empty(o)),
    ensures
        merged_nested_field(b, o, merge_nested_spec(b, o)),
{
    lemma_ins_nested_all_merged(or_empty(b), or_empty(o));
    if b is None {
        lemma_ins_nested_all_empty(or_empty(o));
    }
    if o is None {
        assert(ins_nested_all(or_empty(b), or_empty(o)) == or_empty(b));
    }
}

/// Merging a template document over its base: `base` comes from the overlay
/// alone; every other scalar, list or table the overlay sets wins and every one
/// it leaves out comes from the base; `[version]`, `[passthrough]`,
/// `[sanitizer]` and `[structure]` merge field by field; every map keeps the
/// base's keys in order, then the overlay's new keys, each with the overlay's
/// value where it has one; `[language]` and `[compiler]` merge their inner
/// tables the same way, key by key. The result again holds each key once.
pub proof fn law_merge_documents(b: ToolchainDoc, o: ToolchainDoc)
    requires
        doc_wf(b),
        doc_wf(o),
    ensures
        ({
            let m = merge_spec(b, o);
            &&& doc_wf(m)
            &&& m.base == o.base
            &&& m.name == pick(o.name, b.name)
            &&& m.family == pick(o.family, b.family)
            &&& m.alias == pick(o.alias, b.alias)
            &&& m.homepage == pick(o.homepage, b.homepage)
            &&& m.kind == pick(o.kind, b.kind)
            &&& m.binary == pick(o.binary, b.binary)
            &&& m.extensions == pick(o.extensions, b.extensions)
            &&& m.always_flags == pick(o.always_flags, b.always_flags)
            &&& m.supported_archs == pick(o.supported_archs, b.supported_archs)
            &&& m.supported_os == pick(o.supported_os, b.supported_os)
            &&& m.required_tools == pick(o.required_tools, b.required_tools)
            &&& m.required_env == pick(o.required_env, b.required_env)
            &&& m.requires_toolchain == pick(o.requires_toolchain, b.requires_toolchain)
            &&& m.debug == pick(o.debug, b.debug)
            &&& m.lto == pick(o.lto, b.lto)
            &&& m.lto_link == pick(o.lto_link, b.lto_link)
            &&& m.cpu_ext == pick(o.cpu_ext, b.cpu_ext)
            &&& m.dap == pick(o.dap, b.dap)
            &&& m.version == (if b.version is None && o.version is None {
                None
            } else {
                Some(
                    VersionView {
                        argument: pick(version_or_none(o.version).argument, version_or_none(b.version).argument),
                        regex: pick(version_or_none(o.version).regex, version_or_none(b.version).regex),
                    },
                )
            })
            &&& m.passthrough == (if b.passthrough is None && o.passthrough is None {
                None
            } else {
                Some(pick(o.passthrough.unwrap_or(None), b.passthrough.unwrap_or(None)))
            })
            &&& m.sanitizer == (if b.sanitizer is None && o.sanitizer is None {
                None
            } else {
                Some(
                    SanitizerView {
                        options: pick(sanitizer_or_none(o.sanitizer).options, sanitizer_or_none(b.sanitizer).options),
                        argument: pick(sanitizer_or_none(o.sanitizer).argument, sanitizer_or_none(b.sanitizer).argument),
                    },
                )
            })
            &&& m.structure == (if b.structure is None && o.structure is None {
                None
            } else {
                let (os, bs) = (structure_or_none(o.structure), structure_or_none(b.structure));
                Some(
                    StructureView {
                        include_dir: pick(os.include_dir, bs.include_dir),
                        define: pick(os.define, bs.define),
                        define_value: pick(os.define_value, bs.define_value),
                        output: pick(os.output, bs.output),
                        output_obj: pick(os.output_obj, bs.output_obj),
                        output_bin: pick(os.output_bin, bs.output_bin),
                        compile_only: pick(os.compile_only, bs.compile_only),
                        dep_file: pick(os.dep_file, bs.dep_file),
                        dep_file_mode: pick(os.dep_file_mode, bs.dep_file_mode),
                        system_lib: pick(os.system_lib, bs.system_lib),
                        target: pick(os.target, bs.target),
                        sysroot: pick(os.sysroot, bs.sysroot),
                    },
                )
            })
            &&& merged_field(b.toolset, o.toolset, m.toolset)
            &&& merged_field(b.arch_flags, o.arch_flags, m.arch_flags)
            &&& merged_field(b.optimization, o.optimization, m.optimization)
            &&& merged_field(b.warnings, o.warnings, m.warnings)
            &&& merged_field(b.linking, o.linking, m.linking)
            &&& merged_field(b.launch, o.launch, m.launch)
            &&& merged_field(b.settings, o.settings, m.settings)
            &&& merged_field(b.values, o.values, m.values)
            &&& merged_field(b.run, o.run, m.run)
            &&& merged_nested_field(b.language, o.language, m.language)
            &&& merged_nested_field(b.compiler, o.compiler, m.compiler)
        }),
{
    lemma_merge_entries_law(b.toolset, o.toolset);
    lemma_merge_entries_law(b.arch_flags, o.arch_flags);
    lemma_merge_entries_law(b.optimization, o.optimization);
    lemma_merge_entries_law(b.warnings, o.warnings);
    lemma_merge_entries_law(b.linking, o.linking);
    lemma_merge_entries_law(b.launch, o.launch);
    lemma_merge_entries_law(b.settings, o.settings);
    lemma_merge_entries_law(b.values, o.values);
    lemma_merge_entries_law(b.run, o.run);
    lemma_merge_nested_law(b.language, o.language);
    lemma_merge_nested_law(b.compiler, o.compiler);
}

/// Merging a document onto an empty one (the default template) gives the
/// document back.
pub proof fn law_merge_onto_empty(o: ToolchainDoc)
    ensures
        merge_spec(empty_doc(), o) == o,
{
}

// ── Install names on macOS ────────────────────────────────────────────────────

/// Every install name that `ops` sets is `n`.
pub open spec fn install_names_are(ops: Seq<OpView>, n: Seq<char>) -> bool {
    forall|i: int|
        0 <= i < ops.len() ==> match #[trigger] ops[i] {
            OpView::SetInstallName(m, _) => m == n,
            _ => true,
        }
}

proof fn lemma_install_names_concat(a: Seq<OpView>, b: Seq<OpView>, n: Seq<char>)
    requires
        install_names_are(a, n),
        install_names_are(b, n),
    ensures
        install_names_are(a + b, n),
{
    assert forall|i: int| 0 <= i < (a + b).len() implies match #[trigger] (a + b)[i] {
        OpView::SetInstallName(m, _) => m == n,
        _ => true,
    } by {
        if i < a.len() {
            assert((a + b)[i] == a[i]);
        } else {
            assert((a + b)[i] == b[i - a.len()]);
        }
    }
}

proof fn lemma_bins_set_no_install_name(
    r: RequestView,
    ex: Seq<Seq<char>>,
    bins: Seq<Seq<char>>,
    n: Seq<char>,
)
    ensures
        install_names_are(bins_plan(r, ex, bins).0, n),
    decreases bins.len(),
{
    if bins.len() > 0 {
        lemma_bins_set_no_install_name(r, ex, bins.drop_last(), n);
        let ops = bins_plan(r, ex, bins.drop_last()).0;
        let name = bins.last();
        let file = executable_name_spec(name, r.target_os);
        let src = join_path(out_dir(r), file);
        let dst = join_path(bin_dir(r), file);
        let more = seq![OpView::CreateDir(bin_dir(r)), OpView::Copy(src, dst), OpView::SetMode(dst, 0o755)];
        assert(install_names_are(more, n));
        lemma_install_names_concat(ops, more, n);
        let fail = seq![OpView::Fail(missing_binary_msg(name, r.profile))];
        assert(install_names_are(fail, n));
        lemma_install_names_concat(ops, fail, n);
        assert(ops.push(OpView::Fail(missing_binary_msg(name, r.profile))) == ops + fail);
    }
}

proof fn lemma_headers_set_no_install_name(
    r: RequestView,
    files: Seq<Seq<char>>,
    hdrs: Seq<Seq<char>>,
    n: Seq<char>,
)
    ensures
        install_names_are(headers_plan(r, files, hdrs).0, n),
    decreases hdrs.len(),
{
    if hdrs.len() > 0 {
        lemma_headers_set_no_install_name(r, files, hdrs.drop_last(), n);
        let ops = headers_plan(r, files, hdrs.drop_last()).0;
        let src = join_path(r.project_dir, hdrs.last());
        let dst = join_path(include_dir(r), file_name_of(src));
        let more = seq![OpView::Copy(src, dst)];
        assert(install_names_are(more, n));
        lemma_install_names_concat(ops, more, n);
        assert(ops.push(OpView::Copy(src, dst)) == ops + more);
    }
}

/// A dylib installed for macOS gets the install name
/// `<prefix>/lib/lib<package>.dylib`, where consumers find it once installed:
/// every install name that an installation plan sets is that one, whatever
/// the staging root, and one is set whenever the dylib is installed.
pub proof fn law_install_name_under_prefix(r: RequestView, ex: Seq<Seq<char>>, files: Seq<Seq<char>>)
    ensures
        install_names_are(
            install_plan(r, ex, files).0,
            join_path(join_path(r.prefix, "lib"@), "lib"@ + r.name + ".dylib"@),
        ),
        ({
            let fname = "lib"@ + r.name + ".dylib"@;
            (r.target_os == "macos"@ && !bins_plan(r, ex, r.bins).2 && r.lib is Some
                && !r.lib->0.prebuilt && r.lib->0.lib_type == LibType::Shared && ex.contains(
                join_path(out_dir(r), fname),
            )) ==> install_plan(r, ex, files).0.contains(
                OpView::SetInstallName(
                    join_path(join_path(r.prefix, "lib"@), fname),
                    join_path(join_path(r.root, "lib"@), fname),
                ),
            )
        }),
{
    let n = join_path(join_path(r.prefix, "lib"@), "lib"@ + r.name + ".dylib"@);
    let (bops, bitems, failed) = bins_plan(r, ex, r.bins);
    lemma_bins_set_no_install_name(r, ex, r.bins, n);
    if !failed {
        match r.lib {
            Some(l) => {
                let (aops, aitems) = artifact_plan(r, l, ex);
                assert(install_names_are(aops, n));
                let hops = if l.hdrs.len() > 0 {
                    lemma_headers_set_no_install_name(r, files, l.hdrs, n);
                    let o = headers_plan(r, files, l.hdrs).0;
                    let c = seq![OpView::CreateDir(include_dir(r))];
                    assert(install_names_are(c, n));
                    lemma_install_names_concat(c, o, n);
                    c + o
                } else {
                    seq![]
                };
                let c = seq![OpView::CreateDir(lib_dir(r))];
                assert(install_names_are(c, n));
                assert(install_names_are(hops, n));
                lemma_install_names_concat(c, aops, n);
                lemma_install_names_concat(c + aops, hops, n);
                assert(lib_plan(r, l, ex, files).0 == c + aops + hops);
                lemma_install_names_concat(bops, c + aops + hops, n);
                let ops = bops + (c + aops + hops);
                let ld = seq![OpView::Ldconfig(lib_dir(r))];
                assert(install_names_are(ld, n));
                lemma_install_names_concat(ops, ld, n);
                assert(ops.push(OpView::Ldconfig(lib_dir(r))) == ops + ld);
                let fname = "lib"@ + r.name + ".dylib"@;
                if r.target_os == "macos"@ && !l.prebuilt && l.lib_type == LibType::Shared
                    && ex.contains(join_path(out_dir(r), fname)) {
                    let op = OpView::SetInstallName(n, join_path(join_path(r.root, "lib"@), fname));
                    reveal_strlit("linux");
                    reveal_strlit("macos");
                    assert("macos"@[0] != "linux"@[0]);
                    assert(r.target_os != "linux"@);
                    assert(aops == shared_lib_plan(r, ex).0);
                    assert(aops[2] == op);
                    assert(ops[bops.len() + 3int] == op);
                    assert(install_plan(r, ex, files).0[bops.len() + 3int] == op);
                }
            },
            None => {
                let ld = seq![OpView::Ldconfig(lib_dir(r))];
                assert(install_names_are(ld, n));
                lemma_install_names_concat(bops, seq![], n);
                assert(bops + Seq::<OpView>::empty() == bops);
                lemma_install_names_concat(bops, ld, n);
                assert(bops.push(OpView::Ldconfig(lib_dir(r))) == bops + ld);
            },
        }
    }
}

// ── CMake versions ────────────────────────────────────────────────────────────

/// `(major, minor)` is at least `(a, b)` in the order of versions: a later
/// major version, or the same major version and a minor one at least `b`.
pub open spec fn version_reaches(major: int, minor: int, a: int, b: int) -> bool {
    major > a || (major == a && minor >= b)
}

/// The CMake build step runs `--parallel` exactly from CMake 3.12 on, and the
/// install step uses `cmake --install` exactly from CMake 3.15 on, comparing
/// versions by major number first and minor number second; with no known
/// version neither is used. So a later CMake never loses either.
pub proof fn law_cmake_version_gates(
    dep_dir: Seq<char>,
    build_dir: Seq<char>,
    profile: Seq<char>,
    extra: Seq<Seq<char>>,
    target: Option<Seq<char>>,
    ninja: bool,
    version: Option<(int, int)>,
    jobs: nat,
)
    ensures
        ({
            let steps = cmake_steps_spec(dep_dir, build_dir, profile, extra, target, ninja, version, jobs);
            let parallel = version matches Some((m, n)) && version_reaches(m, n, 3, 12);
            let install = version matches Some((m, n)) && version_reaches(m, n, 3, 15);
            &&& steps.len() == 3
            &&& steps[1].args == (if parallel {
                seq!["--build"@, build_dir, "--parallel"@, decimal(jobs)]
            } else {
                seq!["--build"@, build_dir]
            })
            &&& steps[2].args == (if install {
                seq!["--install"@, build_dir, "--prefix"@, join_path(build_dir, "install"@)]
            } else {
                seq!["--build"@, build_dir, "--target"@, "install"@]
            })
        }),
{
}

/// Moving to a later CMake keeps `--parallel` and `--install` once they are
/// used: the steps are monotone in the version.
pub proof fn law_cmake_gates_monotone(
    dep_dir: Seq<char>,
    build_dir: Seq<char>,
    profile: Seq<char>,
    extra: Seq<Seq<char>>,
    target: Option<Seq<char>>,
    ninja: bool,
    m1: int,
    n1: int,
    m2: int,
    n2: int,
    jobs: nat,
)
    requires
        version_reaches(m2, n2, m1, n1),
    ensures
        ({
            let s1 = cmake_steps_spec(dep_dir, build_dir, profile, extra, target, ninja, Some((m1, n1)), jobs);
            let s2 = cmake_steps_spec(dep_dir, build_dir, profile, extra, target, ninja, Some((m2, n2)), jobs);
            &&& s1[1].args.contains("--parallel"@) ==> s2[1].args.contains("--parallel"@)
            &&& s1[2].args[0] == "--install"@ ==> s2[2].args[0] == "--install"@
        }),
{
    law_cmake_version_gates(dep_dir, build_dir, profile, extra, target, ninja, Some((m1, n1)), jobs);
    law_cmake_version_gates(dep_dir, build_dir, profile, extra, target, ninja, Some((m2, n2)), jobs);
    reveal_strlit("--parallel");
    reveal_strlit("--build");
    reveal_strlit("--install");
    let s1 = cmake_steps_spec(dep_dir, build_dir, profile, extra, target, ninja, Some((m1, n1)), jobs);
    if s1[1].args.contains("--parallel"@) && !version_reaches(m1, n1, 3, 12) {
        let j = choose|j: int| 0 <= j < s1[1].args.len() && s1[1].args[j] == "--parallel"@;
        assert(s1[1].args =~= seq!["--build"@, build_dir]);
        if j == 0 {
            assert("--build"@[2] != "--parallel"@[2]);
        } else {
            assert(build_dir == "--parallel"@);
        }
    }
    if s1[2].args[0] == "--install"@ && !version_reaches(m1, n1, 3, 15) {
        assert("--build"@[2] != "--install"@[2]);
    }
    let s2 = cmake_steps_spec(dep_dir, build_dir, profile, extra, target, ninja, Some((m2, n2)), jobs);
    if version_reaches(m2, n2, 3, 12) {
        assert(s2[1].args[2] == "--parallel"@);
    }
}

// ── Template definitions ──────────────────────────────────────────────────────

/// `v` is what the optional template value `o` expands to: empty when the
/// value is absent, and its expansion when it has one.
pub open spec fn expands_to(c: CtxView, o: Option<Seq<char>>, v: Seq<char>) -> bool {
    match o {
        None => v.len() == 0,
        Some(s) => expand(c, s) is Some ==> expand(c, s) == Some(v),
    }
}

/// Each single-flag setting of a definition is the expansion of the template
/// key of the same name (empty when the template leaves it out): `debug`,
/// `lto`, `lto_link`, `cpu_ext` and `[sanitizer] argument`; the name and the
/// family are the template's own (empty when absent), and the kind is
/// `compiler` unless the template says otherwise. Changing the template's
/// `lto` leaves the link-time flag alone, and changing `lto_link` leaves the
/// compile-time flag alone.
pub proof fn law_def_flags_from_their_keys(
    d: ToolchainDoc,
    binary: Seq<char>,
    c: CtxView,
    other: Option<Seq<char>>,
)
    ensures
        ({
            let def = def_from_doc(d, binary, c);
            &&& expands_to(c, d.debug, def.flags_debug)
            &&& expands_to(c, d.lto, def.flags_lto)
            &&& expands_to(c, d.lto_link, def.flags_lto_link)
            &&& expands_to(c, d.cpu_ext, def.cpu_ext)
            &&& expands_to(
                c,
                match d.sanitizer {
                    Some(s) => s.argument,
                    None => None,
                },
                def.sanitize,
            )
            &&& def.name == (match d.name {
                Some(n) => n,
                None => seq![],
            })
            &&& def.family == (match d.family {
                Some(n) => n,
                None => seq![],
            })
            &&& def.kind == (match d.kind {
                Some(k) => k,
                None => "compiler"@,
            })
            &&& def.binary == binary
            &&& def_from_doc(ToolchainDoc { lto: other, ..d }, binary, c).flags_lto_link
                == def.flags_lto_link
            &&& def_from_doc(ToolchainDoc { lto_link: other, ..d }, binary, c).flags_lto
                == def.flags_lto
        }),
{
}

// ── System libraries ──────────────────────────────────────────────────────────

/// The glibc and kernel-interface libraries that every Linux system provides:
/// a library whose lower-cased file name starts with one of these.
pub open spec fn glibc_family(name: Seq<char>) -> bool {
    ||| starts_with(name, "libc.so"@)
    ||| starts_with(name, "libm.so"@)
    ||| starts_with(name, "libdl.so"@)
    ||| starts_with(name, "libpthread.so"@)
    ||| starts_with(name, "librt.so"@)
    ||| starts_with(name, "libresolv.so"@)
    ||| starts_with(name, "libutil.so"@)
    ||| starts_with(name, "libnss_"@)
    ||| starts_with(name, "libnsl.so"@)
    ||| starts_with(name, "libgcc_s.so"@)
    ||| starts_with(name, "ld-linux"@)
    ||| starts_with(name, "linux-vdso"@)
    ||| starts_with(name, "linux-gate"@)
}

/// On Linux, a library is a system library exactly when its lower-cased file
/// name starts with the name of a glibc or kernel-interface library, and such
/// a library is never chosen for bundling.
pub proof fn law_linux_system_libs_not_bundled(
    path: Seq<char>,
    cands: Seq<Seq<char>>,
    present: Seq<Seq<char>>,
)
    ensures
        is_system_lib_spec(path, "linux"@) <==> glibc_family(lowercase(file_name_of(path))),
        forall|i: int|
            0 <= i < bundled_deps(cands, present, "linux"@).len() ==> !glibc_family(
                lowercase(file_name_of(#[trigger] bundled_deps(cands, present, "linux"@)[i])),
            ),
{
    let name = lowercase(file_name_of(path));
    let ps = linux_system_prefixes();
    assert(is_system_lib_spec(path, "linux"@) == starts_with_any(name, ps));
    lemma_glibc_is_system(path);
    if starts_with_any(name, ps) {
        let i = choose|i: int| 0 <= i < ps.len() && starts_with(name, #[trigger] ps[i]);
        assert(glibc_family(name));
    }
    let pred = |c: Seq<char>| present.contains(c) && !is_system_lib_spec(c, "linux"@);
    assert forall|i: int| 0 <= i < bundled_deps(cands, present, "linux"@).len() implies !glibc_family(
        lowercase(file_name_of(#[trigger] bundled_deps(cands, present, "linux"@)[i])),
    ) by {
        let b = bundled_deps(cands, present, "linux"@)[i];
        cands.lemma_filter_pred(pred, i);
        lemma_glibc_is_system(b);
    }
}

proof fn lemma_glibc_is_system(path: Seq<char>)
    ensures
        glibc_family(lowercase(file_name_of(path))) ==> is_system_lib_spec(path, "linux"@),
{
    let name = lowercase(file_name_of(path));
    let ps = linux_system_prefixes();
    if glibc_family(name) {
        if starts_with(name, "libc.so"@) { assert(starts_with(name, ps[0])); }
        if starts_with(name, "libm.so"@) { assert(starts_with(name, ps[1])); }
        if starts_with(name, "libdl.so"@) { assert(starts_with(name, ps[2])); }
        if starts_with(name, "libpthread.so"@) { assert(starts_with(name, ps[3])); }
        if starts_with(name, "librt.so"@) { assert(starts_with(name, ps[4])); }
        if starts_with(name, "libresolv.so"@) { assert(starts_with(name, ps[5])); }
        if starts_with(name, "libutil.so"@) { assert(starts_with(name, ps[6])); }
        if starts_with(name, "libnss_"@) { assert(starts_with(name, ps[7])); }
        if starts_with(name, "libnsl.so"@) { assert(starts_with(name, ps[8])); }
        if starts_with(name, "libgcc_s.so"@) { assert(starts_with(name, ps[9])); }
        if starts_with(name, "ld-linux"@) { assert(starts_with(name, ps[10])); }
        if starts_with(name, "linux-vdso"@) { assert(starts_with(name, ps[11])); }
        if starts_with(name, "linux-gate"@) { assert(starts_with(name, ps[12])); }
    }
}

/// The system DLLs that every Windows installation provides: a library
/// whose lower-cased file name starts with one of these.
pub open spec fn windows_system_family(name: Seq<char>) -> bool {
    ||| starts_with(name, "kernel32.dll"@)
    ||| starts_with(name, "user32.dll"@)
    ||| starts_with(name, "gdi32.dll"@)
    ||| starts_with(name, "ole32.dll"@)
    ||| starts_with(name, "oleaut32.dll"@)
    ||| starts_with(name, "ntdll.dll"@)
    ||| starts_with(name, "advapi32.dll"@)
    ||| starts_with(name, "shell32.dll"@)
    ||| starts_with(name, "shlwapi.dll"@)
    ||| starts_with(name, "ws2_32.dll"@)
    ||| starts_with(name, "msvcp"@)
    ||| starts_with(name, "vcruntime"@)
    ||| starts_with(name, "ucrtbase"@)
    ||| starts_with(name, "api-ms-win"@)
    ||| starts_with(name, "ext-ms-win"@)
}

/// On Windows, a library is a system library exactly when its lower-cased
/// file name starts with the name of a system DLL or runtime, and such a
/// library is never chosen for bundling.
pub proof fn law_windows_system_libs_not_bundled(
    path: Seq<char>,
    cands: Seq<Seq<char>>,
    present: Seq<Seq<char>>,
)
    ensures
        is_system_lib_spec(path, "windows"@) <==> windows_system_family(lowercase(file_name_of(path))),
        forall|i: int|
            0 <= i < bundled_deps(cands, present, "windows"@).len() ==> !windows_system_family(
                lowercase(file_name_of(#[trigger] bundled_deps(cands, present, "windows"@)[i])),
            ),
{
    reveal_strlit("windows");
    reveal_strlit("linux");
    reveal_strlit("macos");
    assert("windows"@[0] != "linux"@[0] && "windows"@[0] != "macos"@[0]);
    let name = lowercase(file_name_of(path));
    let ps = windows_system_prefixes();
    assert(is_system_lib_spec(path, "windows"@) == starts_with_any(name, ps));
    lemma_windows_is_system(path);
    if starts_with_any(name, ps) {
        let i = choose|i: int| 0 <= i < ps.len() && starts_with(name, #[trigger] ps[i]);
        assert(windows_system_family(name));
    }
    let pred = |c: Seq<char>| present.contains(c) && !is_system_lib_spec(c, "windows"@);
    assert forall|i: int| 0 <= i < bundled_deps(cands, present, "windows"@).len() implies !windows_system_family(
        lowercase(file_name_of(#[trigger] bundled_deps(cands, present, "windows"@)[i])),
    ) by {
        let b = bundled_deps(cands, present, "windows"@)[i];
        cands.lemma_filter_pred(pred, i);
        lemma_windows_is_system(b);
    }
}

proof fn lemma_windows_is_system(path: Seq<char>)
    ensures
        windows_system_family(lowercase(file_name_of(path))) ==> is_system_lib_spec(path, "windows"@),
{
    reveal_strlit("windows");
    reveal_strlit("linux");
    reveal_strlit("macos");
    assert("windows"@[0] != "linux"@[0] && "windows"@[0] != "macos"@[0]);
    let name = lowercase(file_name_of(path));
    let ps = windows_system_prefixes();
    if windows_system_family(name) {
        if starts_with(name, "kernel32.dll"@) { assert(starts_with(name, ps[0])); }
        if starts_with(name, "user32.dll"@) { assert(starts_with(name, ps[1])); }
        if starts_with(name, "gdi32.dll"@) { assert(starts_with(name, ps[2])); }
        if starts_with(name, "ole32.dll"@) { assert(starts_with(name, ps[3])); }
        if starts_with(name, "oleaut32.dll"@) { assert(starts_with(name, ps[4])); }
        if starts_with(name, "ntdll.dll"@) { assert(starts_with(name, ps[5])); }
        if starts_with(name, "advapi32.dll"@) { assert(starts_with(name, ps[6])); }
        if starts_with(name, "shell32.dll"@) { assert(starts_with(name, ps[7])); }
        if starts_with(name, "shlwapi.dll"@) { assert(starts_with(name, ps[8])); }
        if starts_with(name, "ws2_32.dll"@) { assert(starts_with(name, ps[9])); }
        if starts_with(name, "msvcp"@) { assert(starts_with(name, ps[10])); }
        if starts_with(name, "vcruntime"@) { assert(starts_with(name, ps[11])); }
        if starts_with(name, "ucrtbase"@) { assert(starts_with(name, ps[12])); }
        if starts_with(name, "api-ms-win"@) { assert(starts_with(name, ps[13])); }
        if starts_with(name, "ext-ms-win"@) { assert(starts_with(name, ps[14])); }
    }
}

proof fn lemma_find_char_first(t: Seq<char>, c: char, from: int)
    requires
        0 <= from,
    ensures
        match find_char_from(t, c, from) {
            Some(i) => from <= i < t.len() && t[i] == c && forall|j: int| from <= j < i ==> t[j] != c,
            None => forall|j: int| from <= j < t.len() ==> t[j] != c,
        },
    decreases t.len() - from,
{
    if from < t.len() && t[from] != c {
        lemma_find_char_first(t, c, from + 1);
    }
}

/// The major part of a version: the text before its first `.` (all of it
/// when there is none).
pub open spec fn is_major_of(major: Seq<char>, version: Seq<char>) -> bool {
    &&& major.len() <= version.len()
    &&& version.subrange(0, major.len() as int) == major
    &&& forall|j: int| 0 <= j < major.len() ==> major[j] != '.'
    &&& (major.len() == version.len() || version[major.len() as int] == '.')
}

/// A shared library built for Linux is installed as `lib<name>.so.<version>`
/// in `lib/`, made executable, with the soname link
/// `lib<name>.so.<major>` pointing at it and the linker name
/// `lib<name>.so` pointing at the soname link, `<major>` being the version
/// up to its first dot.
pub proof fn law_linux_shared_lib_links(r: RequestView, ex: Seq<Seq<char>>)
    requires
        r.target_os == "linux"@,
        ex.contains(join_path(out_dir(r), "lib"@ + r.name + ".so"@)),
    ensures
        exists|major: Seq<char>|
            #[trigger] is_major_of(major, r.version) && {
                let ld = join_path(r.root, "lib"@);
                let versioned = "lib"@ + r.name + ".so."@ + r.version;
                let soname = "lib"@ + r.name + ".so."@ + major;
                shared_lib_plan(r, ex).0 == seq![
                    OpView::Copy(join_path(out_dir(r), "lib"@ + r.name + ".so"@), join_path(ld, versioned)),
                    OpView::SetMode(join_path(ld, versioned), 0o755),
                    OpView::Symlink(ld, soname, versioned),
                    OpView::Symlink(ld, "lib"@ + r.name + ".so"@, soname),
                ]
            },
{
    let major = first_segment(r.version, '.');
    lemma_find_char_first(r.version, '.', 0);
    match find_char_from(r.version, '.', 0) {
        Some(i) => {
            assert(major =~= r.version.subrange(0, i));
            assert(r.version.subrange(0, major.len() as int) =~= major);
        },
        None => {
            assert(r.version.subrange(0, major.len() as int) =~= major);
        },
    }
    assert(is_major_of(major, r.version));
}

// ── Installation ──────────────────────────────────────────────────────────────

/// With a staging root, the install root lies beneath it.
pub proof fn law_staged_root_under_destdir(prefix: Seq<char>, destdir: Seq<char>)
    ensures
        starts_with(install_root_spec(prefix, Some(destdir)), destdir),
{
    let rel = crate::text::strip_char_start(prefix, '/');
    lemma_strip_slash_start(prefix);
    let r = join_path(destdir, rel);
    if rel.len() > 0 && rel[0] == '/' {
        assert(false);
    } else if destdir.len() == 0 {
        assert(r.subrange(0, 0) =~= destdir);
    } else if destdir[destdir.len() - 1] == '/' {
        assert(r.subrange(0, destdir.len() as int) =~= destdir);
    } else {
        assert(r.subrange(0, destdir.len() as int) =~= destdir);
    }
}

proof fn lemma_strip_slash_start(s: Seq<char>)
    ensures
        crate::text::strip_char_start(s, '/').len() == 0 || crate::text::strip_char_start(s, '/')[0]
            != '/',
    decreases s.len(),
{
    if s.len() > 0 && s[0] == '/' {
        lemma_strip_slash_start(s.subrange(1, s.len() as int));
    }
}

/// Naming an executable for a target twice changes nothing more.
pub proof fn law_executable_name_idempotent(name: Seq<char>, os: Seq<char>)
    ensures
        executable_name_spec(executable_name_spec(name, os), os) == executable_name_spec(name, os),
{
    if os == "windows"@ && !ends_with(name, ".exe"@) {
        let n2 = name + ".exe"@;
        reveal_strlit(".exe");
        assert(n2.subrange(n2.len() - 4, n2.len() as int) =~= ".exe"@);
    }
}

/// An executable for Windows is named with `.exe` (added only when the name
/// lacks it); for any other target the name is kept as it is.
pub proof fn law_executable_name_suffix(name: Seq<char>, os: Seq<char>)
    ensures
        os != "windows"@ ==> executable_name_spec(name, os) == name,
        os == "windows"@ ==> ends_with(executable_name_spec(name, os), ".exe"@) && starts_with(
            executable_name_spec(name, os),
            name,
        ) && executable_name_spec(name, os).len() <= name.len() + 4,
{
    reveal_strlit(".exe");
    let r = executable_name_spec(name, os);
    if os == "windows"@ && !ends_with(name, ".exe"@) {
        assert(r.subrange(r.len() - 4, r.len() as int) =~= ".exe"@);
        assert(r.subrange(0, name.len() as int) =~= name);
    } else {
        assert(r.subrange(0, name.len() as int) =~= name);
    }
}

/// A package for Windows is a `.zip`; for any other target a `.tar.gz`,
/// named after the stem in both cases.
pub proof fn law_archive_kind(stem: Seq<char>, os: Seq<char>)
    ensures
        os == "windows"@ ==> archive_name_spec(stem, os) == stem + ".zip"@,
        os != "windows"@ ==> archive_name_spec(stem, os) == stem + ".tar.gz"@,
{
}

proof fn lemma_bins_plan_fail(r: crate::install::RequestView, ex: Seq<Seq<char>>, bins: Seq<
    Seq<char>,
>)
    ensures
        ({
            let (ops, items, failed) = bins_plan(r, ex, bins);
            &&& failed ==> ops.len() > 0 && ops.last() is Fail
            &&& forall|i: int| 0 <= i < ops.len() && (!failed || i < ops.len() - 1)
                ==> !(#[trigger] ops[i] is Fail)
        }),
    decreases bins.len(),
{
    if bins.len() > 0 {
        lemma_bins_plan_fail(r, ex, bins.drop_last());
    }
}

/// An installation stops at its first failure: a `Fail` step can only be the
/// last one.
pub proof fn law_install_stops_at_failure(
    r: crate::install::RequestView,
    ex: Seq<Seq<char>>,
    files: Seq<Seq<char>>,
)
    ensures
        ({
            let ops = install_plan(r, ex, files).0;
            forall|i: int| 0 <= i < ops.len() - 1 ==> !(#[trigger] ops[i] is Fail)
        }),
{
    lemma_bins_plan_fail(r, ex, r.bins);
    let (bops, bitems, failed) = bins_plan(r, ex, r.bins);
    if !failed {
        let (lops, litems) = match r.lib {
            Some(l) => crate::install::lib_plan(r, l, ex, files),
            None => (seq![], seq![]),
        };
        lemma_lib_plan_no_fail(r, ex, files);
        let ops = install_plan(r, ex, files).0;
        assert forall|i: int| 0 <= i < ops.len() - 1 implies !(#[trigger] ops[i] is Fail) by {
            if i < bops.len() {
                assert(ops[i] == bops[i]);
            } else if i < bops.len() + lops.len() {
                assert(ops[i] == lops[i - bops.len()]);
            }
        }
    }
}

proof fn lemma_headers_no_fail(r: crate::install::RequestView, files: Seq<Seq<char>>, hdrs: Seq<
    Seq<char>,
>)
    ensures
        forall|i: int| 0 <= i < crate::install::headers_plan(r, files, hdrs).0.len() ==> !(
        #[trigger] crate::install::headers_plan(r, files, hdrs).0[i] is Fail),
    decreases hdrs.len(),
{
    if hdrs.len() > 0 {
        lemma_headers_no_fail(r, files, hdrs.drop_last());
    }
}

proof fn lemma_lib_plan_no_fail(r: crate::install::RequestView, ex: Seq<Seq<char>>, files: Seq<
    Seq<char>,
>)
    ensures
        match r.lib {
            Some(l) => forall|i: int| 0 <= i < crate::install::lib_plan(r, l, ex, files).0.len()
                ==> !(#[trigger] crate::install::lib_plan(r, l, ex, files).0[i] is Fail),
            None => true,
        },
{
    match r.lib {
        Some(l) => {
            lemma_headers_no_fail(r, files, l.hdrs);
            let a = crate::install::artifact_plan(r, l, ex).0;
            let h = crate::install::headers_plan(r, files, l.hdrs).0;
            let lp = crate::install::lib_plan(r, l, ex, files).0;
            assert forall|i: int| 0 <= i < lp.len() implies !(#[trigger] lp[i] is Fail) by {
                if i > 0 && i < 1 + a.len() {
                    assert(lp[i] == a[i - 1]);
                } else if i >= 1 + a.len() {
                    if l.hdrs.len() > 0 && i > 1 + a.len() {
                        assert(lp[i] == h[i - 2 - a.len()]);
                    }
                }
            }
        },
        None => {},
    }
}

// ── Package names ─────────────────────────────────────────────────────────────

/// A sanitized name holds only ASCII letters, digits, `-` and `_`, and
/// sanitizing it again changes nothing.
pub proof fn law_sanitize_name(s: Seq<char>)
    ensures
        forall|i: int| 0 <= i < sanitize_spec(s).len() ==> {
            let c = #[trigger] sanitize_spec(s)[i];
            is_ascii_alnum(c) || c == '-' || c == '_'
        },
        sanitize_spec(sanitize_spec(s)) == sanitize_spec(s),
{
    let t = trim_end_non_alnum(trim_start_non_alnum(s));
    let r = sanitize_spec(s);
    lemma_trimmed_ends(s);
    assert(r.len() == t.len());
    if t.len() > 0 {
        assert(r[0] == name_char(t[0]));
        assert(r[r.len() - 1] == name_char(t[t.len() - 1]));
    }
    assert(trim_start_non_alnum(r) == r);
    assert(trim_end_non_alnum(r) == r);
    assert(sanitize_spec(r) =~= r);
}

proof fn lemma_trimmed_ends(s: Seq<char>)
    ensures
        ({
            let t = trim_end_non_alnum(trim_start_non_alnum(s));
            t.len() > 0 ==> is_ascii_alnum(t[0]) && is_ascii_alnum(t[t.len() - 1])
        }),
{
    lemma_trim_start_alnum(s);
    let u = trim_start_non_alnum(s);
    lemma_trim_end_alnum(u);
}

proof fn lemma_trim_start_alnum(s: Seq<char>)
    ensures
        trim_start_non_alnum(s).len() > 0 ==> is_ascii_alnum(trim_start_non_alnum(s)[0]),
    decreases s.len(),
{
    if s.len() > 0 && !is_ascii_alnum(s[0]) {
        lemma_trim_start_alnum(s.drop_first());
    }
}

proof fn lemma_trim_end_alnum(u: Seq<char>)
    requires
        u.len() > 0 ==> is_ascii_alnum(u[0]),
    ensures
        ({
            let t = trim_end_non_alnum(u);
            t.len() > 0 ==> is_ascii_alnum(t[0]) && is_ascii_alnum(t[t.len() - 1])
        }),
    decreases u.len(),
{
    if u.len() > 0 && !is_ascii_alnum(u.last()) {
        if u.len() > 1 {
            assert(u.drop_last()[0] == u[0]);
        }
        lemma_trim_end_alnum(u.drop_last());
    }
}


// ── Defaults that are never empty ─────────────────────────────────────────────

/// The default vcpkg triplet is never empty.
pub proof fn law_default_triplet_nonempty(o: Option<Seq<char>>, os: Seq<char>, arch: Seq<char>)
    ensures
        default_triplet_spec(o, os, arch).len() > 0,
{
    reveal_strlit("x64-windows");
    reveal_strlit("x86-windows");
    reveal_strlit("arm64-windows");
    reveal_strlit("arm64-osx");
    reveal_strlit("x64-osx");
    reveal_strlit("arm64-linux");
    reveal_strlit("x64-linux");
}

/// Without an override, the default vcpkg triplet names the host: it ends in
/// `-windows` on Windows (x86-64, x86 or ARM64), `-osx` on macOS and `-linux`
/// everywhere else, and starts
/// with `arm64-` exactly on 64-bit ARM hosts. A non-blank override is used,
/// trimmed, as it is.
pub proof fn law_default_triplet_names_host(o: Option<Seq<char>>, os: Seq<char>, arch: Seq<char>)
    ensures
        ({
            let t = default_triplet_spec(o, os, arch);
            &&& (o is Some && trim(o->0).len() > 0) ==> t == trim(o->0)
            &&& !(o is Some && trim(o->0).len() > 0) ==> {
                &&& (os == "windows"@ && (arch == "x86_64"@ || arch == "x86"@ || arch
                    == "aarch64"@) ==> ends_with(t, "-windows"@))
                &&& (os == "macos"@ ==> ends_with(t, "-osx"@))
                &&& (os != "macos"@ && !(os == "windows"@ && (arch == "x86_64"@ || arch == "x86"@
                    || arch == "aarch64"@)) ==> ends_with(t, "-linux"@))
                &&& (starts_with(t, "arm64-"@) <==> arch == "aarch64"@)
            }
        }),
{
    reveal_strlit("x64-windows");
    reveal_strlit("x86-windows");
    reveal_strlit("arm64-windows");
    reveal_strlit("arm64-osx");
    reveal_strlit("x64-osx");
    reveal_strlit("arm64-linux");
    reveal_strlit("x64-linux");
    reveal_strlit("-windows");
    reveal_strlit("-osx");
    reveal_strlit("-linux");
    reveal_strlit("arm64-");
    reveal_strlit("windows");
    reveal_strlit("macos");
    reveal_strlit("linux");
    reveal_strlit("x86_64");
    reveal_strlit("x86");
    reveal_strlit("aarch64");
    let t = default_triplet_spec(o, os, arch);
    assert("x64-windows"@.subrange(3, 11) =~= "-windows"@);
    assert("x86-windows"@.subrange(3, 11) =~= "-windows"@);
    assert("arm64-windows"@.subrange(5, 13) =~= "-windows"@);
    assert("arm64-osx"@.subrange(5, 9) =~= "-osx"@);
    assert("x64-osx"@.subrange(3, 7) =~= "-osx"@);
    assert("arm64-linux"@.subrange(5, 11) =~= "-linux"@);
    assert("x64-linux"@.subrange(3, 9) =~= "-linux"@);
    assert("arm64-windows"@.subrange(0, 6) =~= "arm64-"@);
    assert("arm64-osx"@.subrange(0, 6) =~= "arm64-"@);
    assert("arm64-linux"@.subrange(0, 6) =~= "arm64-"@);
    assert("x64-windows"@[0] != "arm64-"@[0]);
    assert("x86-windows"@[0] != "arm64-"@[0]);
    assert("x64-osx"@[0] != "arm64-"@[0]);
    assert("x64-linux"@[0] != "arm64-"@[0]);
    assert("windows"@ != "macos"@) by { assert("windows"@[0] != "macos"@[0]); }
    assert("windows"@ != "linux"@) by { assert("windows"@[0] != "linux"@[0]); }
    assert("macos"@ != "linux"@) by { assert("macos"@[0] != "linux"@[0]); }
    assert("aarch64"@ != "x86_64"@) by { assert("aarch64"@[0] != "x86_64"@[0]); }
    assert("aarch64"@ != "x86"@) by { assert("aarch64"@[0] != "x86"@[0]); }
}

proof fn lemma_first_kind_nonempty(s: Seq<char>)
    ensures
        first_kind(s) matches Some(v) ==> v.len() > 0,
    decreases s.len(),
{
    if s.len() > 0 {
        match crate::text::find_char_from(s, '\n', 0) {
            Some(i) => {
                crate::text::lemma_find_char_from(s, '\n', 0);
                if kind_of_line(crate::quick_kind::strip_cr(s.subrange(0, i))) is None {
                    lemma_first_kind_nonempty(s.subrange(i + 1, s.len() as int));
                }
            },
            None => {},
        }
    }
}

/// The kind that a template declares (or `compiler`) is never empty.
pub proof fn law_quick_kind_nonempty(s: Seq<char>)
    ensures
        (match first_kind(s) {
            Some(v) => v,
            None => w_compiler(),
        }).len() > 0,
{
    lemma_first_kind_nonempty(s);
}

// ── The search report ─────────────────────────────────────────────────────────

/// A registry that found packages.
pub open spec fn found_some(r: RepoView) -> bool {
    r.outcome matches OutcomeView::Found(ps) && ps.len() > 0
}

/// The search report ends with the "no packages found" line exactly when no
/// registry found a package.
pub proof fn law_search_nothing_found(query: Seq<char>, rs: Seq<RepoView>, any: bool)
    ensures
        ({
            let lines = report_from(query, rs, any);
            (lines.len() > 0 && lines.last() is NothingFound) <==> (!any && forall|i: int|
                0 <= i < rs.len() ==> !found_some(#[trigger] rs[i]))
        }),
    decreases rs.len(),
{
    if rs.len() > 0 {
        let r = rs[0];
        let t = rs.drop_first();
        assert forall|i: int| 0 <= i < t.len() implies #[trigger] t[i] == rs[i + 1] by {}
        match r.outcome {
            OutcomeView::Found(ps) => {
                if ps.len() > 0 {
                    law_search_nothing_found(query, t, true);
                    assert(found_some(rs[0]));
                } else {
                    law_search_nothing_found(query, t, any);
                    if !any && (forall|i: int| 0 <= i < t.len() ==> !found_some(#[trigger] t[i])) {
                        assert forall|i: int| 0 <= i < rs.len() implies !found_some(
                            #[trigger] rs[i],
                        ) by {
                            if i > 0 {
                                assert(rs[i] == t[i - 1]);
                            }
                        }
                    }
                    if (forall|i: int| 0 <= i < rs.len() ==> !found_some(#[trigger] rs[i])) {
                        assert forall|i: int| 0 <= i < t.len() implies !found_some(#[trigger] t[i]) by {
                            assert(t[i] == rs[i + 1]);
                        }
                    }
                }
            },
            OutcomeView::Failed(e) => {
                law_search_nothing_found(query, t, any);
                if !any && (forall|i: int| 0 <= i < t.len() ==> !found_some(#[trigger] t[i])) {
                    assert forall|i: int| 0 <= i < rs.len() implies !found_some(#[trigger] rs[i]) by {
                        if i > 0 {
                            assert(rs[i] == t[i - 1]);
                        }
                    }
                }
                if (forall|i: int| 0 <= i < rs.len() ==> !found_some(#[trigger] rs[i])) {
                    assert forall|i: int| 0 <= i < t.len() implies !found_some(#[trigger] t[i]) by {
                        assert(t[i] == rs[i + 1]);
                    }
                }
            },
        }
    }
}

} // verus!
