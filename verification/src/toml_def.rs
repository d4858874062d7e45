//! Turning a merged TOML template document into a toolchain definition: every
//! `$(...)` expression is expanded in the template's context, flag tables become
//! flag maps, and the tables that need a per-option handler are handed on.

use vstd::prelude::*;
use indexmap::IndexMap;
use crate::expr::{eval_expr, expand, lex_order, lex_order_exec, CtxView, EvalCtx};
use crate::index_map::{
    key_index, link_entries, link_map_into_entries, list_entries, list_map_into_entries, lookup,
    nested_entries, nested_map_into_entries, link_map_clone, nested_map_clone, str_map_clone, str_entries, str_map_into_entries, string_pairs, LinkingEntryView,
};
use crate::template::{
    linking_views, opt_str, push_link, str_views, DefView, FlagMap, HandlerMap, HandlerView,
    LinkingParams, LinkingView, ToolchainDef,
};
use crate::text::{chars_of, eq_str, owned};
use crate::error::FreightError;
use crate::handler_script::{
    handler_entries, option_handlers, script_entries, tables_ok, tables_ok_exec, ScriptHandler,
};
use crate::toml_doc::{
    base_names, empty_doc, merge, merge_spec, NestedEntries, StrEntries, StructureView,
    ToolchainDoc, TomlLinking, TomlStructure, TomlToolchain,
};

verus! {

// ── Expansion of template values ──────────────────────────────────────────────

/// The expansion of `s` (meaningful when it succeeds).
pub open spec fn ev(c: CtxView, s: Seq<char>) -> Seq<char> {
    expand(c, s)->0
}

/// The expansion of an optional value; empty when absent.
pub open spec fn ev_opt(c: CtxView, o: Option<Seq<char>>) -> Seq<char> {
    match o {
        Some(s) => ev(c, s),
        None => seq![],
    }
}

/// An optional value expands without error.
pub open spec fn opt_ok(c: CtxView, o: Option<Seq<char>>) -> bool {
    match o {
        Some(s) => expand(c, s) is Some,
        None => true,
    }
}

/// Every value of `es` expands without error.
pub open spec fn entries_ok(c: CtxView, es: StrEntries) -> bool {
    forall|i: int| 0 <= i < es.len() ==> expand(c, #[trigger] es[i].1) is Some
}

/// Every value of `es` whose key is not `skip` expands without error.
pub open spec fn entries_ok_except(c: CtxView, es: StrEntries, skip: Seq<char>) -> bool {
    forall|i: int| 0 <= i < es.len() && es[i].0 != skip ==> expand(c, #[trigger] es[i].1) is Some
}

/// Every item of `xs` expands without error.
pub open spec fn all_ok(c: CtxView, xs: Seq<Seq<char>>) -> bool {
    forall|i: int| 0 <= i < xs.len() ==> expand(c, #[trigger] xs[i]) is Some
}

/// The map built by inserting each key with its expanded value, in order.
pub open spec fn ev_map(c: CtxView, es: StrEntries) -> Map<Seq<char>, Seq<char>>
    decreases es.len(),
{
    if es.len() == 0 {
        Map::empty()
    } else {
        ev_map(c, es.drop_last()).insert(es.last().0, ev(c, es.last().1))
    }
}

/// [`ev_map`] over the entries whose key is not `skip`.
pub open spec fn ev_map_except(c: CtxView, es: StrEntries, skip: Seq<char>) -> Map<
    Seq<char>,
    Seq<char>,
>
    decreases es.len(),
{
    if es.len() == 0 {
        Map::empty()
    } else if es.last().0 == skip {
        ev_map_except(c, es.drop_last(), skip)
    } else {
        ev_map_except(c, es.drop_last(), skip).insert(es.last().0, ev(c, es.last().1))
    }
}

/// The map built by inserting each entry unchanged, in order.
pub open spec fn plain_map(es: StrEntries) -> Map<Seq<char>, Seq<char>>
    decreases es.len(),
{
    if es.len() == 0 {
        Map::empty()
    } else {
        plain_map(es.drop_last()).insert(es.last().0, es.last().1)
    }
}

/// The expansions of `xs` that are not empty, in order.
pub open spec fn ev_nonempty(c: CtxView, xs: Seq<Seq<char>>) -> Seq<Seq<char>>
    decreases xs.len(),
{
    if xs.len() == 0 {
        seq![]
    } else {
        let r = ev_nonempty(c, xs.drop_last());
        if ev(c, xs.last()).len() > 0 {
            r.push(ev(c, xs.last()))
        } else {
            r
        }
    }
}

pub open spec fn or_empty<T>(o: Option<Seq<T>>) -> Seq<T> {
    match o {
        Some(s) => s,
        None => seq![],
    }
}

pub open spec fn or_default(o: Option<Seq<char>>) -> Seq<char> {
    match o {
        Some(s) => s,
        None => seq![],
    }
}

/// The entries of table `k` of an optional table of tables; empty when absent.
pub open spec fn sub_entries(o: Option<NestedEntries>, k: Seq<char>) -> StrEntries {
    match o {
        Some(n) => match lookup(n, k) {
            Some(es) => es,
            None => seq![],
        },
        None => seq![],
    }
}

/// The entries of a flattened table of tables.
pub open spec fn nested_pairs(v: Seq<(String, Vec<(String, String)>)>) -> NestedEntries {
    v.map_values(|p: (String, Vec<(String, String)>)| (p.0@, string_pairs(p.1@)))
}

/// The entries of a flattened table of linking sections.
pub open spec fn link_pairs(v: Seq<(String, TomlLinking)>) -> Seq<(Seq<char>, LinkingEntryView)> {
    v.map_values(|p: (String, TomlLinking)| (p.0@, p.1@))
}

// ── Sorted, duplicate-free lists ──────────────────────────────────────────────

/// `s` with `x` inserted at its place in code-point order, unless present.
pub open spec fn insert_sorted(s: Seq<Seq<char>>, x: Seq<char>) -> Seq<Seq<char>>
    decreases s.len(),
{
    if s.len() == 0 {
        seq![x]
    } else if lex_order(x, s[0]) == 0 {
        s
    } else if lex_order(x, s[0]) < 0 {
        seq![x] + s
    } else {
        seq![s[0]] + insert_sorted(s.drop_first(), x)
    }
}

/// The items of `xs` sorted in code-point order with duplicates removed
/// (`sort` then `dedup`).
pub open spec fn sort_dedup(xs: Seq<Seq<char>>) -> Seq<Seq<char>>
    decreases xs.len(),
{
    if xs.len() == 0 {
        seq![]
    } else {
        insert_sorted(sort_dedup(xs.drop_last()), xs.last())
    }
}

/// The extensions of all linking sections, in order.
pub open spec fn all_exts(ls: Seq<(Seq<char>, LinkingEntryView)>) -> Seq<Seq<char>>
    decreases ls.len(),
{
    if ls.len() == 0 {
        seq![]
    } else {
        all_exts(ls.drop_last()) + ls.last().1.extensions
    }
}

proof fn lemma_insert_sorted_at(s: Seq<Seq<char>>, x: Seq<char>, i: int)
    requires
        0 <= i <= s.len(),
        forall|j: int| 0 <= j < i ==> lex_order(x, #[trigger] s[j]) > 0,
        i < s.len() ==> lex_order(x, s[i]) <= 0,
    ensures
        i == s.len() ==> insert_sorted(s, x) == s.push(x),
        i < s.len() && lex_order(x, s[i]) == 0 ==> insert_sorted(s, x) == s,
        i < s.len() && lex_order(x, s[i]) < 0 ==> insert_sorted(s, x) == s.insert(i, x),
    decreases i,
{
    if i == 0 {
        if s.len() == 0 {
            assert(seq![x] =~= s.push(x));
        } else if lex_order(x, s[0]) < 0 {
            assert(seq![x] + s =~= s.insert(0, x));
        }
    } else {
        let t = s.drop_first();
        assert forall|j: int| 0 <= j < i - 1 implies lex_order(x, #[trigger] t[j]) > 0 by {
            assert(t[j] == s[j + 1]);
        }
        assert(lex_order(x, s[0]) > 0);
        lemma_insert_sorted_at(t, x, i - 1);
        if i == s.len() {
            assert(seq![s[0]] + t.push(x) =~= s.push(x));
        } else if lex_order(x, s[i]) == 0 {
            assert(seq![s[0]] + t =~= s);
        } else {
            assert(seq![s[0]] + t.insert(i - 1, x) =~= s.insert(i, x));
        }
    }
}

/// Inserts `x` at its place in a sorted list unless it is already there.
fn insert_sorted_exec(v: &mut Vec<String>, x: String)
    ensures
        str_views(final(v)@) == insert_sorted(str_views(old(v)@), x@),
{
    let ghost sv = str_views(v@);
    let xc = chars_of(x.as_str());
    let mut i: usize = 0;
    while i < v.len()
        invariant
            i <= v.len(),
            sv == str_views(v@),
            sv == str_views(old(v)@),
            xc@ == x@,
            forall|j: int| 0 <= j < i ==> lex_order(x@, #[trigger] sv[j]) > 0,
        decreases v.len() - i,
    {
        let o = lex_order_exec(&xc, &chars_of(v[i].as_str()));
        assert(sv[i as int] == v@[i as int]@);
        if o == 0 {
            proof {
                lemma_insert_sorted_at(sv, x@, i as int);
            }
            return;
        } else if o < 0 {
            proof {
                lemma_insert_sorted_at(sv, x@, i as int);
            }
            let ghost xv = x@;
            v.insert(i, x);
            assert(str_views(v@) =~= sv.insert(i as int, xv));
            return;
        }
        i = i + 1;
    }
    proof {
        lemma_insert_sorted_at(sv, x@, i as int);
    }
    let ghost xv = x@;
    v.push(x);
    assert(str_views(v@) =~= sv.push(xv));
}

/// Sorts `xs` in code-point order and removes duplicates.
fn sort_dedup_exec(xs: Vec<String>) -> (r: Vec<String>)
    ensures
        str_views(r@) == sort_dedup(str_views(xs@)),
{
    let ghost xv = str_views(xs@);
    let mut out: Vec<String> = Vec::new();
    let mut i: usize = 0;
    let mut rest = xs;
    assert(xv.take(0) =~= Seq::<Seq<char>>::empty());
    while i < rest.len()
        invariant
            i <= rest.len(),
            xv == str_views(rest@),
            str_views(out@) == sort_dedup(xv.take(i as int)),
        decreases rest.len() - i,
    {
        let x = owned(rest[i].as_str());
        assert(xv.take(i + 1).drop_last() =~= xv.take(i as int));
        insert_sorted_exec(&mut out, x);
        i = i + 1;
    }
    assert(xv.take(i as int) =~= xv);
    out
}

// ── Small exec helpers ────────────────────────────────────────────────────────

/// A copy of a list of strings.
fn clone_strs(v: &Vec<String>) -> (r: Vec<String>)
    ensures
        str_views(r@) == str_views(v@),
{
    let mut out: Vec<String> = Vec::new();
    let mut i: usize = 0;
    while i < v.len()
        invariant
            i <= v.len(),
            str_views(out@) == str_views(v@).take(i as int),
        decreases v.len() - i,
    {
        let s = owned(v[i].as_str());
        let ghost before = out@;
        out.push(s);
        assert(str_views(out@) =~= str_views(before).push(v@[i as int]@));
        assert(str_views(v@).take(i + 1) =~= str_views(v@).take(i as int).push(v@[i as int]@));
        i = i + 1;
    }
    assert(str_views(v@).take(i as int) =~= str_views(v@));
    out
}

/// A copy of an optional string.
fn clone_opt(o: &Option<String>) -> (r: Option<String>)
    ensures
        opt_str(r) == opt_str(*o),
{
    match o {
        Some(s) => Some(owned(s.as_str())),
        None => None,
    }
}

/// The entries of an optional string map; empty when absent.
fn entries_or_empty(o: Option<IndexMap<String, String>>) -> (r: Vec<(String, String)>)
    ensures
        string_pairs(r@) == or_empty(match o {
            Some(m) => Some(str_entries(m)),
            None => None,
        }),
{
    match o {
        Some(m) => str_map_into_entries(m),
        None => {
            let r: Vec<(String, String)> = Vec::new();
            assert(string_pairs(r@) =~= Seq::<(Seq<char>, Seq<char>)>::empty());
            r
        },
    }
}

/// The entries of an optional table of tables, each inner table by its entries.
fn nested_or_empty(o: Option<IndexMap<String, IndexMap<String, String>>>) -> (r: Vec<
    (String, Vec<(String, String)>),
>)
    ensures
        nested_pairs(r@) == or_empty(match o {
            Some(m) => Some(nested_entries(m)),
            None => None,
        }),
{
    let mut out: Vec<(String, Vec<(String, String)>)> = Vec::new();
    match o {
        Some(m) => {
            let ghost target = nested_entries(m);
            let mut es = nested_map_into_entries(m);
            let ghost ev = es@;
            assert(ev.map_values(|p: (String, IndexMap<String, String>)| (p.0@, str_entries(p.1)))
                == target);
            let ghost n = es.len();
            while es.len() > 0
                invariant
                    es.len() <= n,
                    n == ev.len(),
                    es@ == ev.skip(n - es.len()),
                    nested_pairs(out@) == target.take(n - es.len()),
                    target.len() == n,
                    forall|j: int| 0 <= j < n ==> #[trigger] target[j] == (ev[j].0@, str_entries(ev[j].1)),
                decreases es.len(),
            {
                let ghost k = n - es.len();
                let (key, inner) = es.remove(0);
                assert((key, inner) == ev[k]);
                assert(es@ =~= ev.skip(k + 1));
                let pairs = str_map_into_entries(inner);
                let ghost before = out@;
                let ghost kv = key@;
                out.push((key, pairs));
                assert(target[k] == (kv, string_pairs(pairs@)));
                assert(nested_pairs(out@) =~= nested_pairs(before).push((kv, string_pairs(pairs@))));
                assert(target.take(k + 1) =~= target.take(k).push(target[k]));
            }
            assert(target.take(n as int) =~= target);
        },
        None => {
            assert(nested_pairs(out@) =~= Seq::<(Seq<char>, StrEntries)>::empty());
        },
    }
    out
}

/// The entries of an optional table of linking sections.
fn links_or_empty(o: Option<IndexMap<String, TomlLinking>>) -> (r: Vec<(String, TomlLinking)>)
    ensures
        link_pairs(r@) == or_empty(match o {
            Some(m) => Some(link_entries(m)),
            None => None,
        }),
{
    match o {
        Some(m) => {
            let r = link_map_into_entries(m);
            assert(link_pairs(r@) =~= link_entries(m));
            r
        },
        None => {
            let r: Vec<(String, TomlLinking)> = Vec::new();
            assert(link_pairs(r@) =~= Seq::<(Seq<char>, LinkingEntryView)>::empty());
            r
        },
    }
}


// ── Lookups in flattened tables ───────────────────────────────────────────────

pub proof fn lemma_key_index_first<V>(es: Seq<(Seq<char>, V)>, k: Seq<char>, i: int)
    requires
        0 <= i <= es.len(),
        forall|j: int| 0 <= j < i ==> #[trigger] es[j].0 != k,
        i < es.len() ==> es[i].0 == k,
    ensures
        key_index(es, k) == (if i < es.len() {
            Some(i)
        } else {
            None
        }),
    decreases es.len(),
{
    if es.len() > 0 {
        let d = es.drop_last();
        if i < es.len() - 1 {
            assert forall|j: int| 0 <= j < i implies #[trigger] d[j].0 != k by {
                assert(d[j] == es[j]);
            }
            assert(d[i] == es[i]);
            lemma_key_index_first(d, k, i);
        } else {
            assert forall|j: int| 0 <= j < d.len() implies #[trigger] d[j].0 != k by {
                assert(d[j] == es[j]);
            }
            lemma_key_index_first(d, k, d.len() as int);
        }
    }
}

/// Position of the first entry with key `k` in a flattened table of tables.
fn find_nested(es: &Vec<(String, Vec<(String, String)>)>, k: &str) -> (r: Option<usize>)
    ensures
        match r {
            Some(i) => key_index(nested_pairs(es@), k@) == Some(i as int) && i < es.len(),
            None => key_index(nested_pairs(es@), k@) is None,
        },
{
    let ghost n = nested_pairs(es@);
    let mut i: usize = 0;
    while i < es.len()
        invariant
            i <= es.len(),
            n == nested_pairs(es@),
            forall|j: int| 0 <= j < i ==> #[trigger] n[j].0 != k@,
        decreases es.len() - i,
    {
        assert(n[i as int].0 == es@[i as int].0@);
        if eq_str(&chars_of(es[i].0.as_str()), k) {
            proof {
                lemma_key_index_first(n, k@, i as int);
            }
            return Some(i);
        }
        i = i + 1;
    }
    proof {
        lemma_key_index_first(n, k@, i as int);
    }
    None
}

/// Position of the first entry with key `k` in a flattened string table.
pub fn find_str(es: &Vec<(String, String)>, k: &str) -> (r: Option<usize>)
    ensures
        match r {
            Some(i) => key_index(string_pairs(es@), k@) == Some(i as int) && i < es.len(),
            None => key_index(string_pairs(es@), k@) is None,
        },
{
    let ghost n = string_pairs(es@);
    let mut i: usize = 0;
    while i < es.len()
        invariant
            i <= es.len(),
            n == string_pairs(es@),
            forall|j: int| 0 <= j < i ==> #[trigger] n[j].0 != k@,
        decreases es.len() - i,
    {
        assert(n[i as int].0 == es@[i as int].0@);
        if eq_str(&chars_of(es[i].0.as_str()), k) {
            proof {
                lemma_key_index_first(n, k@, i as int);
            }
            return Some(i);
        }
        i = i + 1;
    }
    proof {
        lemma_key_index_first(n, k@, i as int);
    }
    None
}

/// A copy of a flattened string table.
fn clone_pairs(v: &Vec<(String, String)>) -> (r: Vec<(String, String)>)
    ensures
        string_pairs(r@) == string_pairs(v@),
{
    let mut out: Vec<(String, String)> = Vec::new();
    let mut i: usize = 0;
    while i < v.len()
        invariant
            i <= v.len(),
            string_pairs(out@) == string_pairs(v@).take(i as int),
        decreases v.len() - i,
    {
        let a = owned(v[i].0.as_str());
        let b = owned(v[i].1.as_str());
        let ghost before = out@;
        out.push((a, b));
        assert(string_pairs(out@) =~= string_pairs(before).push((v@[i as int].0@, v@[i as int].1@)));
        assert(string_pairs(v@).take(i + 1) =~= string_pairs(v@).take(i as int).push(
            string_pairs(v@)[i as int],
        ));
        i = i + 1;
    }
    assert(string_pairs(v@).take(i as int) =~= string_pairs(v@));
    out
}

/// The entries of table `k` of a flattened table of tables; empty when absent.
fn sub_table(es: &Vec<(String, Vec<(String, String)>)>, k: &str) -> (r: Vec<(String, String)>)
    ensures
        string_pairs(r@) == sub_entries(Some(nested_pairs(es@)), k@),
{
    match find_nested(es, k) {
        Some(i) => {
            assert(nested_pairs(es@)[i as int].1 == string_pairs(es@[i as int].1@));
            clone_pairs(&es[i].1)
        },
        None => {
            let r: Vec<(String, String)> = Vec::new();
            assert(string_pairs(r@) =~= Seq::<(Seq<char>, Seq<char>)>::empty());
            r
        },
    }
}

proof fn lemma_sub_entries_flat(o: Option<NestedEntries>, k: Seq<char>)
    ensures
        sub_entries(o, k) == sub_entries(Some(or_empty(o)), k),
{
    if o is None {
        assert(key_index(Seq::<(Seq<char>, StrEntries)>::empty(), k) is None);
    }
}

// ── Evaluating tables and lists ───────────────────────────────────────────────

/// The expansion of an optional value; empty when absent.
fn eval_opt_string(o: &Option<String>, ctx: &EvalCtx<'_>) -> (r: String)
    requires
        opt_ok(ctx@, opt_str(*o)),
    ensures
        r@ == ev_opt(ctx@, opt_str(*o)),
{
    match o {
        Some(s) => eval_expr(s.as_str(), ctx),
        None => String::new(),
    }
}

/// Each key of `es` with its expanded value, inserted in order.
fn eval_entries(es: &Vec<(String, String)>, ctx: &EvalCtx<'_>) -> (r: FlagMap)
    requires
        entries_ok(ctx@, string_pairs(es@)),
    ensures
        r@ == ev_map(ctx@, string_pairs(es@)),
{
    let ghost sp = string_pairs(es@);
    let mut m = FlagMap::new();
    let mut i: usize = 0;
    assert(sp.take(0) =~= Seq::<(Seq<char>, Seq<char>)>::empty());
    while i < es.len()
        invariant
            i <= es.len(),
            sp == string_pairs(es@),
            entries_ok(ctx@, sp),
            m@ == ev_map(ctx@, sp.take(i as int)),
        decreases es.len() - i,
    {
        assert(sp[i as int] == (es@[i as int].0@, es@[i as int].1@));
        assert(expand(ctx@, sp[i as int].1) is Some);
        let v = eval_expr(es[i].1.as_str(), ctx);
        m.insert(owned(es[i].0.as_str()), v);
        assert(sp.take(i + 1).drop_last() =~= sp.take(i as int));
        i = i + 1;
    }
    assert(sp.take(i as int) =~= sp);
    m
}

/// [`eval_entries`] over the entries whose key is not `skip`.
fn eval_entries_except(es: &Vec<(String, String)>, skip: &str, ctx: &EvalCtx<'_>) -> (r: FlagMap)
    requires
        entries_ok_except(ctx@, string_pairs(es@), skip@),
    ensures
        r@ == ev_map_except(ctx@, string_pairs(es@), skip@),
{
    let ghost sp = string_pairs(es@);
    let mut m = FlagMap::new();
    let mut i: usize = 0;
    assert(sp.take(0) =~= Seq::<(Seq<char>, Seq<char>)>::empty());
    while i < es.len()
        invariant
            i <= es.len(),
            sp == string_pairs(es@),
            entries_ok_except(ctx@, sp, skip@),
            m@ == ev_map_except(ctx@, sp.take(i as int), skip@),
        decreases es.len() - i,
    {
        assert(sp[i as int] == (es@[i as int].0@, es@[i as int].1@));
        assert(sp.take(i + 1).drop_last() =~= sp.take(i as int));
        if !eq_str(&chars_of(es[i].0.as_str()), skip) {
            assert(expand(ctx@, sp[i as int].1) is Some);
            let v = eval_expr(es[i].1.as_str(), ctx);
            m.insert(owned(es[i].0.as_str()), v);
        }
        i = i + 1;
    }
    assert(sp.take(i as int) =~= sp);
    m
}

/// Each entry of `es` unchanged, inserted in order.
fn plain_entries(es: &Vec<(String, String)>) -> (r: FlagMap)
    ensures
        r@ == plain_map(string_pairs(es@)),
{
    let ghost sp = string_pairs(es@);
    let mut m = FlagMap::new();
    let mut i: usize = 0;
    assert(sp.take(0) =~= Seq::<(Seq<char>, Seq<char>)>::empty());
    while i < es.len()
        invariant
            i <= es.len(),
            sp == string_pairs(es@),
            m@ == plain_map(sp.take(i as int)),
        decreases es.len() - i,
    {
        assert(sp[i as int] == (es@[i as int].0@, es@[i as int].1@));
        m.insert(owned(es[i].0.as_str()), owned(es[i].1.as_str()));
        assert(sp.take(i + 1).drop_last() =~= sp.take(i as int));
        i = i + 1;
    }
    assert(sp.take(i as int) =~= sp);
    m
}

/// The expansions of `xs` that are not empty.
fn eval_nonempty_exec(xs: &Vec<String>, ctx: &EvalCtx<'_>) -> (r: Vec<String>)
    requires
        all_ok(ctx@, str_views(xs@)),
    ensures
        str_views(r@) == ev_nonempty(ctx@, str_views(xs@)),
{
    let ghost sv = str_views(xs@);
    let mut out: Vec<String> = Vec::new();
    let mut i: usize = 0;
    assert(sv.take(0) =~= Seq::<Seq<char>>::empty());
    while i < xs.len()
        invariant
            i <= xs.len(),
            sv == str_views(xs@),
            all_ok(ctx@, sv),
            str_views(out@) == ev_nonempty(ctx@, sv.take(i as int)),
        decreases xs.len() - i,
    {
        assert(sv[i as int] == xs@[i as int]@);
        let v = eval_expr(xs[i].as_str(), ctx);
        assert(sv.take(i + 1).drop_last() =~= sv.take(i as int));
        if !v.as_str().is_empty() {
            let ghost before = out@;
            let ghost vv = v@;
            out.push(v);
            assert(str_views(out@) =~= str_views(before).push(vv));
        }
        i = i + 1;
    }
    assert(sv.take(i as int) =~= sv);
    out
}


// ── Structure and linking ─────────────────────────────────────────────────────

/// A `[structure]` section with no field set.
pub open spec fn no_structure() -> StructureView {
    StructureView {
        include_dir: None,
        define: None,
        define_value: None,
        output: None,
        output_obj: None,
        output_bin: None,
        compile_only: None,
        dep_file: None,
        dep_file_mode: None,
        system_lib: None,
        target: None,
        sysroot: None,
    }
}

pub open spec fn structure_or_none(so: Option<StructureView>) -> StructureView {
    match so {
        Some(s) => s,
        None => no_structure(),
    }
}

/// The command-line structure entries: each of the twelve keys with its
/// expanded value, empty when the template leaves it out.
pub open spec fn structure_map(c: CtxView, so: Option<StructureView>) -> Map<Seq<char>, Seq<char>> {
    let s = structure_or_none(so);
    Map::empty().insert("include_dir"@, ev_opt(c, s.include_dir)).insert(
        "define"@,
        ev_opt(c, s.define),
    ).insert("define_value"@, ev_opt(c, s.define_value)).insert(
        "output"@,
        ev_opt(c, s.output),
    ).insert("output_obj"@, ev_opt(c, s.output_obj)).insert(
        "output_bin"@,
        ev_opt(c, s.output_bin),
    ).insert("compile_only"@, ev_opt(c, s.compile_only)).insert(
        "dep_file"@,
        ev_opt(c, s.dep_file),
    ).insert("dep_file_mode"@, ev_opt(c, s.dep_file_mode)).insert(
        "system_lib"@,
        ev_opt(c, s.system_lib),
    ).insert("target"@, ev_opt(c, s.target)).insert("sysroot"@, ev_opt(c, s.sysroot))
}

pub open spec fn structure_ok(c: CtxView, so: Option<StructureView>) -> bool {
    let s = structure_or_none(so);
    &&& opt_ok(c, s.include_dir)
    &&& opt_ok(c, s.define)
    &&& opt_ok(c, s.define_value)
    &&& opt_ok(c, s.output)
    &&& opt_ok(c, s.output_obj)
    &&& opt_ok(c, s.output_bin)
    &&& opt_ok(c, s.compile_only)
    &&& opt_ok(c, s.dep_file)
    &&& opt_ok(c, s.dep_file_mode)
    &&& opt_ok(c, s.system_lib)
    &&& opt_ok(c, s.target)
    &&& opt_ok(c, s.sysroot)
}

/// The linking entry of a definition for one `[linking.<lang>]` section: its
/// `compile_binary` expanded, and dropped when that leaves it empty.
pub open spec fn link_def(c: CtxView, e: (Seq<char>, LinkingEntryView)) -> (Seq<char>, LinkingView) {
    (
        e.0,
        LinkingView {
            abi: e.1.abi,
            compatible: e.1.compatible,
            linker: e.1.linker,
            extensions: e.1.extensions,
            compile_binary: match e.1.compile_binary {
                Some(s) => if ev(c, s).len() > 0 {
                    Some(ev(c, s))
                } else {
                    None
                },
                None => None,
            },
        },
    )
}

pub open spec fn links_def(c: CtxView, ls: Seq<(Seq<char>, LinkingEntryView)>) -> Seq<
    (Seq<char>, LinkingView),
> {
    ls.map_values(|e: (Seq<char>, LinkingEntryView)| link_def(c, e))
}

pub open spec fn links_ok(c: CtxView, ls: Seq<(Seq<char>, LinkingEntryView)>) -> bool {
    forall|i: int| 0 <= i < ls.len() ==> opt_ok(c, #[trigger] ls[i].1.compile_binary)
}

/// The structure entries of a definition.
fn build_structure(so: Option<TomlStructure>, ctx: &EvalCtx<'_>) -> (r: FlagMap)
    requires
        structure_ok(ctx@, match so {
            Some(s) => Some(s@),
            None => None,
        }),
    ensures
        r@ == structure_map(
            ctx@,
            match so {
                Some(s) => Some(s@),
                None => None,
            },
        ),
{
    let s = match so {
        Some(s) => s,
        None => TomlStructure {
            include_dir: None,
            define: None,
            define_value: None,
            output: None,
            output_obj: None,
            output_bin: None,
            compile_only: None,
            dep_file: None,
            dep_file_mode: None,
            system_lib: None,
            target: None,
            sysroot: None,
        },
    };
    let mut m = FlagMap::new();
    m.insert(owned("include_dir"), eval_opt_string(&s.include_dir, ctx));
    m.insert(owned("define"), eval_opt_string(&s.define, ctx));
    m.insert(owned("define_value"), eval_opt_string(&s.define_value, ctx));
    m.insert(owned("output"), eval_opt_string(&s.output, ctx));
    m.insert(owned("output_obj"), eval_opt_string(&s.output_obj, ctx));
    m.insert(owned("output_bin"), eval_opt_string(&s.output_bin, ctx));
    m.insert(owned("compile_only"), eval_opt_string(&s.compile_only, ctx));
    m.insert(owned("dep_file"), eval_opt_string(&s.dep_file, ctx));
    m.insert(owned("dep_file_mode"), eval_opt_string(&s.dep_file_mode, ctx));
    m.insert(owned("system_lib"), eval_opt_string(&s.system_lib, ctx));
    m.insert(owned("target"), eval_opt_string(&s.target, ctx));
    m.insert(owned("sysroot"), eval_opt_string(&s.sysroot, ctx));
    m
}

/// The linking entries of a definition, one per section, in order.
fn build_links(ls: &Vec<(String, TomlLinking)>, ctx: &EvalCtx<'_>) -> (r: Vec<
    (String, LinkingParams),
>)
    requires
        links_ok(ctx@, link_pairs(ls@)),
    ensures
        linking_views(r@) == links_def(ctx@, link_pairs(ls@)),
{
    let ghost lp = link_pairs(ls@);
    let mut out: Vec<(String, LinkingParams)> = Vec::new();
    let mut i: usize = 0;
    assert(links_def(ctx@, lp).take(0) =~= Seq::<(Seq<char>, LinkingView)>::empty());
    while i < ls.len()
        invariant
            i <= ls.len(),
            lp == link_pairs(ls@),
            links_ok(ctx@, lp),
            linking_views(out@) == links_def(ctx@, lp).take(i as int),
        decreases ls.len() - i,
    {
        let e = &ls[i].1;
        assert(lp[i as int] == (ls@[i as int].0@, ls@[i as int].1@));
        assert(opt_ok(ctx@, lp[i as int].1.compile_binary));
        let cb = match &e.compile_binary {
            Some(s) => {
                let v = eval_expr(s.as_str(), ctx);
                if v.as_str().is_empty() {
                    None
                } else {
                    Some(v)
                }
            },
            None => None,
        };
        let p = LinkingParams {
            abi: owned(e.abi.as_str()),
            compatible: clone_strs(&e.compatible),
            linker: owned(e.linker.as_str()),
            extensions: clone_strs(&e.extensions),
            compile_binary: cb,
        };
        assert(p@ == link_def(ctx@, lp[i as int]).1);
        push_link(&mut out, ls[i].0.as_str(), p);
        assert(links_def(ctx@, lp).take(i + 1) =~= links_def(ctx@, lp).take(i as int).push(
            link_def(ctx@, lp[i as int]),
        ));
        i = i + 1;
    }
    assert(links_def(ctx@, lp).take(i as int) =~= links_def(ctx@, lp));
    out
}

/// All extensions of all linking sections, in order.
fn collect_exts(ls: &Vec<(String, TomlLinking)>) -> (r: Vec<String>)
    ensures
        str_views(r@) == all_exts(link_pairs(ls@)),
{
    let ghost lp = link_pairs(ls@);
    let mut out: Vec<String> = Vec::new();
    let mut i: usize = 0;
    assert(lp.take(0) =~= Seq::<(Seq<char>, LinkingEntryView)>::empty());
    while i < ls.len()
        invariant
            i <= ls.len(),
            lp == link_pairs(ls@),
            str_views(out@) == all_exts(lp.take(i as int)),
        decreases ls.len() - i,
    {
        assert(lp[i as int] == (ls@[i as int].0@, ls@[i as int].1@));
        let mut more = clone_strs(&ls[i].1.extensions);
        let ghost before = out@;
        let ghost mv = more@;
        out.append(&mut more);
        assert(str_views(out@) =~= str_views(before) + str_views(mv));
        assert(lp.take(i + 1).drop_last() =~= lp.take(i as int));
        i = i + 1;
    }
    assert(lp.take(i as int) =~= lp);
    out
}


// ── The definition of a template document ─────────────────────────────────────

/// The definition's extensions: the template's own list when it is not empty,
/// else every extension of every linking section, sorted, without duplicates.
pub open spec fn def_extensions(d: ToolchainDoc) -> Seq<Seq<char>> {
    if d.extensions is Some && d.extensions->0.len() > 0 {
        d.extensions->0
    } else {
        sort_dedup(all_exts(or_empty(d.linking)))
    }
}

/// Default option values: the first `[language.std]` key and the first
/// `[optimization]` key.
pub open spec fn defaults_map(d: ToolchainDoc) -> Map<Seq<char>, Seq<char>> {
    let std_es = sub_entries(d.language, "std"@);
    let m = if std_es.len() > 0 {
        Map::empty().insert("std"@, std_es[0].0)
    } else {
        Map::<Seq<char>, Seq<char>>::empty()
    };
    let opt = or_empty(d.optimization);
    if opt.len() > 0 {
        m.insert("opt_level"@, opt[0].0)
    } else {
        m
    }
}

/// Every value that building the definition expands, expands without error.
pub open spec fn doc_ok(c: CtxView, d: ToolchainDoc) -> bool {
    &&& opt_ok(c, d.debug)
    &&& opt_ok(c, d.lto)
    &&& opt_ok(c, d.lto_link)
    &&& opt_ok(c, d.cpu_ext)
    &&& match d.sanitizer {
        Some(s) => opt_ok(c, s.argument),
        None => true,
    }
    &&& entries_ok(c, or_empty(d.optimization))
    &&& entries_ok(c, or_empty(d.warnings))
    &&& entries_ok(c, or_empty(d.arch_flags))
    &&& entries_ok(c, or_empty(d.toolset))
    &&& entries_ok(c, sub_entries(d.compiler, "stdlib"@))
    &&& all_ok(c, or_empty(d.always_flags))
    &&& structure_ok(c, d.structure)
    &&& links_ok(c, or_empty(d.linking))
    &&& entries_ok_except(c, sub_entries(d.language, "modules"@), "style"@)
    &&& entries_ok(c, sub_entries(d.language, "pch"@))
}

/// The toolchain definition that template document `d` describes, for the
/// detected `binary`, with every `$(...)` expanded in context `c`.
pub open spec fn def_from_doc(d: ToolchainDoc, binary: Seq<char>, c: CtxView) -> DefView {
    DefView {
        name: or_default(d.name),
        binary: binary,
        family: or_default(d.family),
        alias: match d.alias {
            Some(a) => if a.len() > 0 {
                Some(a)
            } else {
                None
            },
            None => None,
        },
        kind: match d.kind {
            Some(k) => k,
            None => "compiler"@,
        },
        version_arg: match d.version {
            Some(v) => or_default(v.argument),
            None => seq![],
        },
        version_regex: match d.version {
            Some(v) => or_default(v.regex),
            None => seq![],
        },
        subcommand: None,
        passthrough_enabled: d.passthrough is Some,
        passthrough_prefix: match d.passthrough {
            Some(p) => or_default(p),
            None => seq![],
        },
        extensions: def_extensions(d),
        supported_archs: or_empty(d.supported_archs),
        supported_os: or_empty(d.supported_os),
        required_tools: or_empty(d.required_tools),
        required_env: or_empty(d.required_env),
        requires_toolchain: or_empty(d.requires_toolchain),
        sanitizer_options: match d.sanitizer {
            Some(s) => or_empty(s.options),
            None => seq![],
        },
        always_flags: ev_nonempty(c, or_empty(d.always_flags)),
        flags_debug: ev_opt(c, d.debug),
        flags_lto: ev_opt(c, d.lto),
        flags_lto_link: ev_opt(c, d.lto_link),
        sanitize: match d.sanitizer {
            Some(s) => ev_opt(c, s.argument),
            None => seq![],
        },
        cpu_ext: ev_opt(c, d.cpu_ext),
        flags_opt: ev_map(c, or_empty(d.optimization)),
        flags_warnings: ev_map(c, or_empty(d.warnings)),
        flags_stdlib: ev_map(c, sub_entries(d.compiler, "stdlib"@)),
        standards: plain_map(sub_entries(d.language, "std"@)),
        defaults: defaults_map(d),
        structure: structure_map(c, d.structure),
        toolset: ev_map(c, or_empty(d.toolset)),
        arch_flags: ev_map(c, or_empty(d.arch_flags)),
        module_style: or_default(lookup(sub_entries(d.language, "modules"@), "style"@)),
        module_params: ev_map_except(c, sub_entries(d.language, "modules"@), "style"@),
        pch: ev_map(c, sub_entries(d.language, "pch"@)),
        linking: links_def(c, or_empty(d.linking)),
        compiler_option_handlers: Map::<Seq<char>, HandlerView>::empty(),
        language_option_handlers: Map::<Seq<char>, HandlerView>::empty(),
    }
}

pub open spec fn name_required_msg() -> Seq<char> {
    "TOML toolchain must set `name = \"...\"`"@
}

/// A definition together with the `[compiler.*]` and `[language.*]` tables
/// from which its option handlers are made.
pub struct DefWithMaps {
    pub def: ToolchainDef,
    pub compiler: Vec<(String, Vec<(String, String)>)>,
    pub language: Vec<(String, Vec<(String, String)>)>,
}

fn str_or_empty(o: Option<String>) -> (r: String)
    ensures
        r@ == or_default(opt_str(o)),
{
    match o {
        Some(s) => s,
        None => String::new(),
    }
}

fn strs_or_empty(o: Option<Vec<String>>) -> (r: Vec<String>)
    ensures
        str_views(r@) == or_empty(crate::toml_doc::opt_strs(o)),
{
    match o {
        Some(v) => v,
        None => {
            let r: Vec<String> = Vec::new();
            assert(str_views(r@) =~= Seq::<Seq<char>>::empty());
            r
        },
    }
}

/// The defaults map of a definition.
fn build_defaults(
    std_es: &Vec<(String, String)>,
    opt_es: &Vec<(String, String)>,
) -> (r: FlagMap)
    ensures
        r@ == ({
            let s = string_pairs(std_es@);
            let o = string_pairs(opt_es@);
            let m = if s.len() > 0 {
                Map::empty().insert("std"@, s[0].0)
            } else {
                Map::<Seq<char>, Seq<char>>::empty()
            };
            if o.len() > 0 {
                m.insert("opt_level"@, o[0].0)
            } else {
                m
            }
        }),
{
    let mut m = FlagMap::new();
    if std_es.len() > 0 {
        m.insert(owned("std"), owned(std_es[0].0.as_str()));
    }
    if opt_es.len() > 0 {
        m.insert(owned("opt_level"), owned(opt_es[0].0.as_str()));
    }
    m
}

/// Builds the definition of a merged template document.
///
/// Fails exactly when the document sets no `name` (or an empty one).
pub fn build_def(tc: TomlToolchain, binary: &str, ctx: &EvalCtx<'_>) -> (r: Result<
    DefWithMaps,
    FreightError,
>)
    requires
        doc_ok(ctx@, tc@),
    ensures
        r is Ok <==> or_default(tc@.name).len() > 0,
        r matches Ok(dm) ==> {
            &&& dm.def@ == def_from_doc(tc@, binary@, ctx@)
            &&& nested_pairs(dm.compiler@) == or_empty(tc@.compiler)
            &&& nested_pairs(dm.language@) == or_empty(tc@.language)
        },
        r matches Err(e) ==> (e matches FreightError::TemplateError(m) && m@ == name_required_msg()),
{
    let ghost d = tc@;
    let TomlToolchain {
        name,
        family,
        alias,
        homepage: _,
        kind,
        base: _,
        binary: _,
        version,
        passthrough,
        sanitizer,
        extensions,
        always_flags,
        supported_archs,
        supported_os,
        required_tools,
        required_env,
        requires_toolchain,
        debug,
        lto,
        lto_link,
        cpu_ext,
        structure,
        toolset,
        arch_flags,
        optimization,
        warnings,
        linking,
        language,
        compiler,
        launch: _,
        dap: _,
        settings: _,
        values: _,
        run: _,
    } = tc;
    let name = str_or_empty(name);
    if name.as_str().is_empty() {
        return Err(FreightError::TemplateError(owned("TOML toolchain must set `name = \"...\"`")));
    }
    let lang_vec = nested_or_empty(language);
    let comp_vec = nested_or_empty(compiler);
    let links = links_or_empty(linking);
    let opt_vec = entries_or_empty(optimization);
    let warn_vec = entries_or_empty(warnings);
    let arch_vec = entries_or_empty(arch_flags);
    let tool_vec = entries_or_empty(toolset);
    proof {
        lemma_sub_entries_flat(d.language, "std"@);
        lemma_sub_entries_flat(d.language, "modules"@);
        lemma_sub_entries_flat(d.language, "pch"@);
        lemma_sub_entries_flat(d.compiler, "stdlib"@);
    }
    let std_es = sub_table(&lang_vec, "std");
    let modules = sub_table(&lang_vec, "modules");
    let pch_es = sub_table(&lang_vec, "pch");
    let stdlib_es = sub_table(&comp_vec, "stdlib");

    let alias = match alias {
        Some(a) => if a.as_str().is_empty() {
            None
        } else {
            Some(a)
        },
        None => None,
    };
    let kind = match kind {
        Some(k) => k,
        None => owned("compiler"),
    };
    let (version_arg, version_regex) = match version {
        Some(v) => (str_or_empty(v.argument), str_or_empty(v.regex)),
        None => (String::new(), String::new()),
    };
    let passthrough_enabled = passthrough.is_some();
    let passthrough_prefix = match passthrough {
        Some(p) => str_or_empty(p.prefix),
        None => String::new(),
    };
    let (sanitizer_options, sanitize) = match sanitizer {
        Some(s) => {
            let a = eval_opt_string(&s.argument, ctx);
            (strs_or_empty(s.options), a)
        },
        None => (Vec::new(), String::new()),
    };
    assert(str_views(Seq::<String>::empty()) =~= Seq::<Seq<char>>::empty());
    let given = match &extensions {
        Some(e) => e.len() > 0,
        None => false,
    };
    let exts = if given {
        strs_or_empty(extensions)
    } else {
        sort_dedup_exec(collect_exts(&links))
    };
    let af = strs_or_empty(always_flags);
    let always = eval_nonempty_exec(&af, ctx);
    let module_style = match find_str(&modules, "style") {
        Some(i) => owned(modules[i].1.as_str()),
        None => String::new(),
    };
    let def = ToolchainDef {
        name: name,
        binary: owned(binary),
        family: str_or_empty(family),
        alias: alias,
        kind: kind,
        version_arg: version_arg,
        version_regex: version_regex,
        subcommand: None,
        passthrough_enabled: passthrough_enabled,
        passthrough_prefix: passthrough_prefix,
        extensions: exts,
        supported_archs: strs_or_empty(supported_archs),
        supported_os: strs_or_empty(supported_os),
        required_tools: strs_or_empty(required_tools),
        required_env: strs_or_empty(required_env),
        requires_toolchain: strs_or_empty(requires_toolchain),
        sanitizer_options: sanitizer_options,
        always_flags: always,
        flags_debug: eval_opt_string(&debug, ctx),
        flags_lto: eval_opt_string(&lto, ctx),
        flags_lto_link: eval_opt_string(&lto_link, ctx),
        sanitize: sanitize,
        cpu_ext: eval_opt_string(&cpu_ext, ctx),
        flags_opt: eval_entries(&opt_vec, ctx),
        flags_warnings: eval_entries(&warn_vec, ctx),
        flags_stdlib: eval_entries(&stdlib_es, ctx),
        standards: plain_entries(&std_es),
        defaults: build_defaults(&std_es, &opt_vec),
        structure: build_structure(structure, ctx),
        toolset: eval_entries(&tool_vec, ctx),
        arch_flags: eval_entries(&arch_vec, ctx),
        module_style: module_style,
        module_params: eval_entries_except(&modules, "style", ctx),
        pch: eval_entries(&pch_es, ctx),
        linking: build_links(&links, ctx),
        compiler_option_handlers: HandlerMap::new(),
        language_option_handlers: HandlerMap::new(),
    };
    Ok(DefWithMaps { def, compiler: comp_vec, language: lang_vec })
}


// ── Evaluating a whole template ───────────────────────────────────────────────

/// The binary a template runs: its `binary`, else its `name`, else empty.
pub open spec fn binary_of(d: ToolchainDoc) -> Seq<char> {
    match d.binary {
        Some(b) => b,
        None => or_default(d.name),
    }
}

/// The binary a template runs: its `binary`, else its `name`, else empty.
pub fn resolve_binary(tc: &TomlToolchain) -> (r: String)
    ensures
        r@ == binary_of(tc@),
{
    match &tc.binary {
        Some(b) => owned(b.as_str()),
        None => match &tc.name {
            Some(n) => owned(n.as_str()),
            None => String::new(),
        },
    }
}

/// The context a template is evaluated in: the host `arch` and `os`, the
/// template's binary, no version or option value yet, and environment `env`.
pub open spec fn template_ctx(
    d: ToolchainDoc,
    arch: Seq<char>,
    os: Seq<char>,
    env: Seq<(Seq<char>, Seq<char>)>,
) -> CtxView {
    CtxView { arch, os, binary: binary_of(d), version: seq![], value: seq![], env }
}

/// Every expansion and every handler script of template `d` can be made.
pub open spec fn template_ok(d: ToolchainDoc, c: CtxView) -> bool {
    &&& doc_ok(c, d)
    &&& tables_ok(c, or_empty(d.compiler), false)
    &&& tables_ok(c, or_empty(d.language), true)
}

/// A compiler template loaded from TOML: its definition and the option
/// handlers of its `[compiler.*]` and `[language.*]` tables.
pub struct ToolchainEval {
    pub def: ToolchainDef,
    pub compiler_option_handlers: Vec<(String, ScriptHandler)>,
    pub language_option_handlers: Vec<(String, ScriptHandler)>,
}

pub open spec fn env_view(env: Seq<(String, String)>) -> Seq<(Seq<char>, Seq<char>)> {
    env.map_values(|p: (String, String)| (p.0@, p.1@))
}

/// Evaluates a merged compiler template on host `arch` / `os` with
/// environment `env`. Fails exactly when the template sets no name. The option
/// handlers are those `option_handlers_given` makes from Rhai's answers on
/// the generated scripts.
pub fn evaluate_toolchain(
    merged: TomlToolchain,
    arch: &str,
    os: &str,
    env: &[(String, String)],
) -> (r: Result<ToolchainEval, FreightError>)
    requires
        template_ok(merged@, template_ctx(merged@, arch@, os@, env_view(env@))),
    ensures
        r is Ok <==> or_default(merged@.name).len() > 0,
        r matches Ok(t) ==> {
            let c = template_ctx(merged@, arch@, os@, env_view(env@));
            &&& t.def@ == def_from_doc(merged@, binary_of(merged@), c)
            &&& exists|oks: Seq<bool>|
                oks.len() == or_empty(merged@.compiler).len() && script_entries(
                    t.compiler_option_handlers@,
                ) == #[trigger] handler_entries(c, or_empty(merged@.compiler), false, oks)
            &&& exists|oks: Seq<bool>|
                oks.len() == or_empty(merged@.language).len() && script_entries(
                    t.language_option_handlers@,
                ) == #[trigger] handler_entries(c, or_empty(merged@.language), true, oks)
        },
        r matches Err(e) ==> (e matches FreightError::TemplateError(m) && m@ == name_required_msg()),
{
    let binary = resolve_binary(&merged);
    let none = String::new();
    let ctx = EvalCtx {
        arch,
        os,
        binary: binary.as_str(),
        version: none.as_str(),
        value: none.as_str(),
        env,
    };
    assert(ctx@.env == env_view(env@));
    assert(ctx@ == template_ctx(merged@, arch@, os@, env_view(env@)));
    match build_def(merged, binary.as_str(), &ctx) {
        Ok(dm) => {
            let comp = option_handlers(&dm.compiler, false, &ctx);
            let lang = option_handlers(&dm.language, true, &ctx);
            Ok(ToolchainEval {
                def: dm.def,
                compiler_option_handlers: comp,
                language_option_handlers: lang,
            })
        },
        Err(m) => Err(m),
    }
}


// ── Base inheritance ──────────────────────────────────────────────────────────

/// `acc` with each of `ds` merged over it in turn.
pub open spec fn merge_all(acc: ToolchainDoc, ds: Seq<ToolchainDoc>) -> ToolchainDoc
    decreases ds.len(),
{
    if ds.len() == 0 {
        acc
    } else {
        merge_spec(merge_all(acc, ds.drop_last()), ds.last())
    }
}

pub open spec fn doc_views(v: Seq<TomlToolchain>) -> Seq<ToolchainDoc> {
    v.map_values(|t: TomlToolchain| t@)
}

/// The names of the bases that `tc` inherits from, in order.
pub fn base_list(tc: &TomlToolchain) -> (r: Vec<String>)
    ensures
        str_views(r@) == match tc@.base {
            Some(b) => base_names(b),
            None => Seq::<Seq<char>>::empty(),
        },
{
    match &tc.base {
        Some(crate::toml_doc::TomlBase::Single(s)) => {
            let mut v: Vec<String> = Vec::new();
            v.push(owned(s.as_str()));
            assert(str_views(v@) =~= seq![s@]);
            v
        },
        Some(crate::toml_doc::TomlBase::Multiple(v)) => clone_strs(v),
        None => {
            let v: Vec<String> = Vec::new();
            assert(str_views(v@) =~= Seq::<Seq<char>>::empty());
            v
        },
    }
}

/// Resolves `base` inheritance once the documents it names are loaded (each
/// with its own bases resolved), in the order `base` lists them: the bases
/// are merged in order over an empty document, then `current` over them. A
/// document without `base` is returned as it is; the result has no `base`.
pub fn resolve_bases(current: TomlToolchain, bases: Vec<TomlToolchain>) -> (r: TomlToolchain)
    ensures
        current@.base is None ==> r@ == current@,
        current@.base is Some ==> r@ == merge_spec(
            merge_all(empty_doc(), doc_views(bases@)),
            ToolchainDoc { base: None, ..current@ },
        ),
{
    if current.base.is_none() {
        return current;
    }
    let ghost bv = doc_views(bases@);
    let mut acc = TomlToolchain::empty();
    let mut rest = bases;
    let ghost n = rest.len();
    assert(bv.take(0) =~= Seq::<ToolchainDoc>::empty());
    while rest.len() > 0
        invariant
            rest.len() <= n,
            n == bv.len(),
            doc_views(rest@) == bv.skip(n - rest.len()),
            acc@ == merge_all(empty_doc(), bv.take(n - rest.len())),
        decreases rest.len(),
    {
        let ghost k = n - rest.len();
        let ghost old_rest = rest@;
        assert(doc_views(old_rest)[0] == old_rest[0]@);
        assert(bv.skip(k)[0] == bv[k]);
        let b = rest.remove(0);
        assert(rest@ =~= old_rest.remove(0));
        assert forall|j: int| 0 <= j < rest.len() implies #[trigger] doc_views(rest@)[j] == bv.skip(
            k + 1,
        )[j] by {
            assert(rest@[j] == old_rest[j + 1]);
            assert(doc_views(old_rest)[j + 1] == bv.skip(k)[j + 1]);
        }
        assert(doc_views(rest@) =~= bv.skip(k + 1));
        assert(b@ == bv[k]);
        assert(bv.take(k + 1).drop_last() =~= bv.take(k));
        acc = merge(acc, b);
    }
    assert(bv.take(n as int) =~= bv);
    let mut cur = current;
    cur.base = None;
    merge(acc, cur)
}

// ── Debugger and tool templates ───────────────────────────────────────────────

/// How a debugger separates its own arguments from the program's.
pub struct LaunchConfig {
    pub separator: String,
}

/// How a debugger is driven over the Debug Adapter Protocol.
pub struct DapConfig {
    pub binaries: Vec<String>,
    pub vscode_type: String,
    pub mi_mode: String,
}

/// A debugger described by a TOML template.
pub struct DebuggerTemplate {
    pub name: String,
    pub binary: String,
    pub version_arg: String,
    pub version_regex: String,
    pub launch: LaunchConfig,
    pub dap: DapConfig,
    pub settings: FlagMap,
    pub default_args: Vec<String>,
}

pub struct DebuggerView {
    pub name: Seq<char>,
    pub binary: Seq<char>,
    pub version_arg: Seq<char>,
    pub version_regex: Seq<char>,
    pub separator: Seq<char>,
    pub dap_binaries: Seq<Seq<char>>,
    pub dap_vscode_type: Seq<char>,
    pub dap_mi_mode: Seq<char>,
    pub settings: Map<Seq<char>, Seq<char>>,
    pub default_args: Seq<Seq<char>>,
}

impl View for DebuggerTemplate {
    type V = DebuggerView;

    open spec fn view(&self) -> DebuggerView {
        DebuggerView {
            name: self.name@,
            binary: self.binary@,
            version_arg: self.version_arg@,
            version_regex: self.version_regex@,
            separator: self.launch.separator@,
            dap_binaries: str_views(self.dap.binaries@),
            dap_vscode_type: self.dap.vscode_type@,
            dap_mi_mode: self.dap.mi_mode@,
            settings: self.settings@,
            default_args: str_views(self.default_args@),
        }
    }
}

/// The debugger that template `d` describes; its `[settings]` values are
/// expanded in context `c`.
pub open spec fn debugger_from_doc(d: ToolchainDoc, c: CtxView) -> DebuggerView {
    DebuggerView {
        name: or_default(d.name),
        binary: or_default(d.binary),
        version_arg: match d.version {
            Some(v) => or_default(v.argument),
            None => seq![],
        },
        version_regex: match d.version {
            Some(v) => or_default(v.regex),
            None => seq![],
        },
        separator: or_default(lookup(or_empty(d.launch), "separator"@)),
        dap_binaries: match d.dap {
            Some(x) => x.binaries,
            None => seq![],
        },
        dap_vscode_type: match d.dap {
            Some(x) => x.vscode_type,
            None => seq![],
        },
        dap_mi_mode: match d.dap {
            Some(x) => x.mi_mode,
            None => seq![],
        },
        settings: ev_map(c, or_empty(d.settings)),
        default_args: seq![],
    }
}

pub open spec fn not_debugger_msg() -> Seq<char> {
    "not a debugger template"@
}

/// The context of a debugger or tool template: its `binary` (no fallback to
/// the name), the host `arch` and `os`, and environment `env`.
pub open spec fn tool_ctx(
    d: ToolchainDoc,
    arch: Seq<char>,
    os: Seq<char>,
    env: Seq<(Seq<char>, Seq<char>)>,
) -> CtxView {
    CtxView { arch, os, binary: or_default(d.binary), version: seq![], value: seq![], env }
}

/// Builds a debugger from a merged template on host `arch` / `os` with
/// environment `env`. Fails exactly when the template's kind is not
/// `debugger`.
pub fn debugger_template(
    merged: TomlToolchain,
    arch: &str,
    os: &str,
    env: &[(String, String)],
) -> (r: Result<DebuggerTemplate, FreightError>)
    requires
        merged@.kind == Some("debugger"@) ==> entries_ok(
            tool_ctx(merged@, arch@, os@, env_view(env@)),
            or_empty(merged@.settings),
        ),
    ensures
        r is Ok <==> merged@.kind == Some("debugger"@),
        r matches Ok(t) ==> t@ == debugger_from_doc(
            merged@,
            tool_ctx(merged@, arch@, os@, env_view(env@)),
        ),
        r matches Err(e) ==> (e matches FreightError::TemplateError(m) && m@ == not_debugger_msg()),
{
    let is_debugger = match &merged.kind {
        Some(k) => eq_str(&chars_of(k.as_str()), "debugger"),
        None => false,
    };
    if !is_debugger {
        return Err(FreightError::TemplateError(owned("not a debugger template")));
    }
    let binary = str_or_empty(clone_opt(&merged.binary));
    let none = String::new();
    let ctx = EvalCtx {
        arch,
        os,
        binary: binary.as_str(),
        version: none.as_str(),
        value: none.as_str(),
        env,
    };
    assert(ctx@ == tool_ctx(merged@, arch@, os@, env_view(env@)));
    let launch = entries_or_empty(merged.launch);
    let separator = match find_str(&launch, "separator") {
        Some(i) => owned(launch[i].1.as_str()),
        None => String::new(),
    };
    let (dap_binaries, dap_vscode_type, dap_mi_mode) = match merged.dap {
        Some(d) => (d.binaries, d.vscode_type, d.mi_mode),
        None => (Vec::new(), String::new(), String::new()),
    };
    assert(str_views(Seq::<String>::empty()) =~= Seq::<Seq<char>>::empty());
    let settings_es = entries_or_empty(merged.settings);
    let settings = eval_entries(&settings_es, &ctx);
    let (version_arg, version_regex) = match merged.version {
        Some(v) => (str_or_empty(v.argument), str_or_empty(v.regex)),
        None => (String::new(), String::new()),
    };
    Ok(DebuggerTemplate {
        name: str_or_empty(merged.name),
        binary: owned(binary.as_str()),
        version_arg,
        version_regex,
        launch: LaunchConfig { separator },
        dap: DapConfig { binaries: dap_binaries, vscode_type: dap_vscode_type, mi_mode: dap_mi_mode },
        settings,
        default_args: Vec::new(),
    })
}

/// A formatter or linter described by a TOML template.
pub struct ToolTemplate {
    pub kind: String,
    pub name: String,
    pub family: String,
    pub binary: String,
    pub version_arg: String,
    pub version_regex: String,
    pub extensions: Vec<String>,
    pub run: FlagMap,
    pub settings: FlagMap,
    pub values: Vec<(String, Vec<String>)>,
}

pub struct ToolView {
    pub kind: Seq<char>,
    pub name: Seq<char>,
    pub family: Seq<char>,
    pub binary: Seq<char>,
    pub version_arg: Seq<char>,
    pub version_regex: Seq<char>,
    pub extensions: Seq<Seq<char>>,
    pub run: Map<Seq<char>, Seq<char>>,
    pub settings: Map<Seq<char>, Seq<char>>,
    pub values: Seq<(Seq<char>, Seq<Seq<char>>)>,
}

pub open spec fn list_pairs(v: Seq<(String, Vec<String>)>) -> Seq<(Seq<char>, Seq<Seq<char>>)> {
    v.map_values(|p: (String, Vec<String>)| (p.0@, str_views(p.1@)))
}

impl View for ToolTemplate {
    type V = ToolView;

    open spec fn view(&self) -> ToolView {
        ToolView {
            kind: self.kind@,
            name: self.name@,
            family: self.family@,
            binary: self.binary@,
            version_arg: self.version_arg@,
            version_regex: self.version_regex@,
            extensions: str_views(self.extensions@),
            run: self.run@,
            settings: self.settings@,
            values: list_pairs(self.values@),
        }
    }
}

/// The tool that template `d` describes (a formatter unless it says
/// otherwise); its `[run]` values are expanded in context `c`.
pub open spec fn tool_from_doc(d: ToolchainDoc, c: CtxView) -> ToolView {
    ToolView {
        kind: match d.kind {
            Some(k) => k,
            None => "formatter"@,
        },
        name: or_default(d.name),
        family: or_default(d.family),
        binary: or_default(d.binary),
        version_arg: match d.version {
            Some(v) => or_default(v.argument),
            None => seq![],
        },
        version_regex: match d.version {
            Some(v) => or_default(v.regex),
            None => seq![],
        },
        extensions: or_empty(d.extensions),
        run: ev_map(c, or_empty(d.run)),
        settings: plain_map(or_empty(d.settings)),
        values: or_empty(d.values),
    }
}

/// Builds a formatter or linter from a merged template on host `arch` / `os`
/// with environment `env`.
pub fn tool_template(
    merged: TomlToolchain,
    arch: &str,
    os: &str,
    env: &[(String, String)],
) -> (r: ToolTemplate)
    requires
        entries_ok(tool_ctx(merged@, arch@, os@, env_view(env@)), or_empty(merged@.run)),
    ensures
        r@ == tool_from_doc(merged@, tool_ctx(merged@, arch@, os@, env_view(env@))),
{
    let binary = str_or_empty(clone_opt(&merged.binary));
    let none = String::new();
    let ctx = EvalCtx {
        arch,
        os,
        binary: binary.as_str(),
        version: none.as_str(),
        value: none.as_str(),
        env,
    };
    assert(ctx@ == tool_ctx(merged@, arch@, os@, env_view(env@)));
    let run_es = entries_or_empty(merged.run);
    let run = eval_entries(&run_es, &ctx);
    let settings_es = entries_or_empty(merged.settings);
    let settings = plain_entries(&settings_es);
    let values = match merged.values {
        Some(m) => list_map_into_entries(m),
        None => Vec::new(),
    };
    assert(list_pairs(values@) == or_empty(merged@.values)) by {
        if merged@.values is None {
            assert(list_pairs(values@) =~= Seq::<(Seq<char>, Seq<Seq<char>>)>::empty());
        } else {
            assert(list_pairs(values@) =~= values@.map_values(
                |p: (String, Vec<String>)| (p.0@, p.1@.map_values(|s: String| s@)),
            ));
        }
    }
    let (version_arg, version_regex) = match merged.version {
        Some(v) => (str_or_empty(v.argument), str_or_empty(v.regex)),
        None => (String::new(), String::new()),
    };
    ToolTemplate {
        kind: match merged.kind {
            Some(k) => k,
            None => owned("formatter"),
        },
        name: str_or_empty(merged.name),
        family: str_or_empty(merged.family),
        binary: owned(binary.as_str()),
        version_arg,
        version_regex,
        extensions: strs_or_empty(merged.extensions),
        run,
        settings,
        values,
    }
}


// ── Checking that a template can be evaluated ─────────────────────────────────

fn opt_ok_exec(o: &Option<String>, ctx: &EvalCtx<'_>) -> (r: bool)
    ensures
        r == opt_ok(ctx@, opt_str(*o)),
{
    match o {
        Some(s) => crate::expr::try_eval_expr(s.as_str(), ctx).is_some(),
        None => true,
    }
}

fn entries_ok_exec(es: &Vec<(String, String)>, ctx: &EvalCtx<'_>) -> (r: bool)
    ensures
        r == entries_ok(ctx@, string_pairs(es@)),
{
    let ghost sp = string_pairs(es@);
    let mut i: usize = 0;
    while i < es.len()
        invariant
            i <= es.len(),
            sp == string_pairs(es@),
            forall|j: int| 0 <= j < i ==> expand(ctx@, #[trigger] sp[j].1) is Some,
        decreases es.len() - i,
    {
        assert(sp[i as int] == (es@[i as int].0@, es@[i as int].1@));
        if crate::expr::try_eval_expr(es[i].1.as_str(), ctx).is_none() {
            assert(!(expand(ctx@, sp[i as int].1) is Some));
            return false;
        }
        i = i + 1;
    }
    true
}

fn entries_ok_except_exec(es: &Vec<(String, String)>, skip: &str, ctx: &EvalCtx<'_>) -> (r: bool)
    ensures
        r == entries_ok_except(ctx@, string_pairs(es@), skip@),
{
    let ghost sp = string_pairs(es@);
    let mut i: usize = 0;
    while i < es.len()
        invariant
            i <= es.len(),
            sp == string_pairs(es@),
            forall|j: int| 0 <= j < i && sp[j].0 != skip@ ==> expand(ctx@, #[trigger] sp[j].1) is Some,
        decreases es.len() - i,
    {
        assert(sp[i as int] == (es@[i as int].0@, es@[i as int].1@));
        if !eq_str(&chars_of(es[i].0.as_str()), skip) {
            if crate::expr::try_eval_expr(es[i].1.as_str(), ctx).is_none() {
                assert(!(expand(ctx@, sp[i as int].1) is Some));
                return false;
            }
        }
        i = i + 1;
    }
    true
}

fn all_ok_exec(xs: &Vec<String>, ctx: &EvalCtx<'_>) -> (r: bool)
    ensures
        r == all_ok(ctx@, str_views(xs@)),
{
    let mut i: usize = 0;
    while i < xs.len()
        invariant
            i <= xs.len(),
            forall|j: int| 0 <= j < i ==> expand(ctx@, #[trigger] str_views(xs@)[j]) is Some,
        decreases xs.len() - i,
    {
        assert(str_views(xs@)[i as int] == xs@[i as int]@);
        if crate::expr::try_eval_expr(xs[i].as_str(), ctx).is_none() {
            return false;
        }
        i = i + 1;
    }
    true
}

fn map_entries(o: &Option<IndexMap<String, String>>) -> (r: Vec<(String, String)>)
    ensures
        string_pairs(r@) == or_empty(match *o {
            Some(m) => Some(str_entries(m)),
            None => None,
        }),
{
    match o {
        Some(m) => entries_or_empty(Some(str_map_clone(m))),
        None => entries_or_empty(None),
    }
}

fn nested_entries_of(o: &Option<IndexMap<String, IndexMap<String, String>>>) -> (r: Vec<
    (String, Vec<(String, String)>),
>)
    ensures
        nested_pairs(r@) == or_empty(match *o {
            Some(m) => Some(nested_entries(m)),
            None => None,
        }),
{
    match o {
        Some(m) => nested_or_empty(Some(nested_map_clone(m))),
        None => nested_or_empty(None),
    }
}

/// Whether template `tc` can be evaluated on host `arch` / `os` with
/// environment `env`: every value it expands, and every handler script it
/// makes, can be made ([`template_ok`]). [`evaluate_toolchain`] asks for this.
pub fn template_evaluable(tc: &TomlToolchain, arch: &str, os: &str, env: &[(String, String)]) -> (r:
    bool)
    ensures
        r == template_ok(tc@, template_ctx(tc@, arch@, os@, env_view(env@))),
{
    let ghost d = tc@;
    let binary = resolve_binary(tc);
    let none = String::new();
    let ctx = EvalCtx {
        arch,
        os,
        binary: binary.as_str(),
        version: none.as_str(),
        value: none.as_str(),
        env,
    };
    assert(ctx@ == template_ctx(d, arch@, os@, env_view(env@)));
    let sanitize_ok = match &tc.sanitizer {
        Some(s) => opt_ok_exec(&s.argument, &ctx),
        None => true,
    };
    let structure_good = match &tc.structure {
        Some(s) => {
            opt_ok_exec(&s.include_dir, &ctx) && opt_ok_exec(&s.define, &ctx) && opt_ok_exec(
                &s.define_value,
                &ctx,
            ) && opt_ok_exec(&s.output, &ctx) && opt_ok_exec(&s.output_obj, &ctx) && opt_ok_exec(
                &s.output_bin,
                &ctx,
            ) && opt_ok_exec(&s.compile_only, &ctx) && opt_ok_exec(&s.dep_file, &ctx)
                && opt_ok_exec(&s.dep_file_mode, &ctx) && opt_ok_exec(&s.system_lib, &ctx)
                && opt_ok_exec(&s.target, &ctx) && opt_ok_exec(&s.sysroot, &ctx)
        },
        None => true,
    };
    let af = match &tc.always_flags {
        Some(v) => clone_strs(v),
        None => Vec::new(),
    };
    assert(str_views(af@) == or_empty(d.always_flags)) by {
        if d.always_flags is None {
            assert(str_views(af@) =~= Seq::<Seq<char>>::empty());
        }
    }
    let links = match &tc.linking {
        Some(m) => links_or_empty(Some(link_map_clone(m))),
        None => links_or_empty(None),
    };
    let lp_ok = {
        let ghost lp = link_pairs(links@);
        let mut ok = true;
        let mut i: usize = 0;
        while i < links.len()
            invariant
                i <= links.len(),
                lp == link_pairs(links@),
                ok == (forall|j: int| 0 <= j < i ==> opt_ok(ctx@, #[trigger] lp[j].1.compile_binary)),
            decreases links.len() - i,
        {
            assert(lp[i as int] == (links@[i as int].0@, links@[i as int].1@));
            let b = opt_ok_exec(&links[i].1.compile_binary, &ctx);
            assert(b == opt_ok(ctx@, lp[i as int].1.compile_binary));
            if !b {
                ok = false;
            }
            i = i + 1;
        }
        ok
    };
    let comp = nested_entries_of(&tc.compiler);
    let lang = nested_entries_of(&tc.language);
    proof {
        lemma_sub_entries_flat(d.language, "modules"@);
        lemma_sub_entries_flat(d.language, "pch"@);
        lemma_sub_entries_flat(d.compiler, "stdlib"@);
    }
    let modules = sub_table(&lang, "modules");
    let pch = sub_table(&lang, "pch");
    let stdlib = sub_table(&comp, "stdlib");
    opt_ok_exec(&tc.debug, &ctx) && opt_ok_exec(&tc.lto, &ctx) && opt_ok_exec(&tc.lto_link, &ctx)
        && opt_ok_exec(&tc.cpu_ext, &ctx) && sanitize_ok && entries_ok_exec(
        &map_entries(&tc.optimization),
        &ctx,
    ) && entries_ok_exec(&map_entries(&tc.warnings), &ctx) && entries_ok_exec(
        &map_entries(&tc.arch_flags),
        &ctx,
    ) && entries_ok_exec(&map_entries(&tc.toolset), &ctx) && entries_ok_exec(&stdlib, &ctx)
        && all_ok_exec(&af, &ctx) && structure_good && lp_ok && entries_ok_except_exec(
        &modules,
        "style",
        &ctx,
    ) && entries_ok_exec(&pch, &ctx) && tables_ok_exec(&comp, false, &ctx) && tables_ok_exec(
        &lang,
        true,
        &ctx,
    )
}

/// Whether every value of the optional table `m` expands without error in
/// the context of a debugger or tool template ([`tool_ctx`]).
pub fn tool_table_evaluable(
    tc: &TomlToolchain,
    m: &Option<IndexMap<String, String>>,
    arch: &str,
    os: &str,
    env: &[(String, String)],
) -> (r: bool)
    ensures
        r == entries_ok(
            tool_ctx(tc@, arch@, os@, env_view(env@)),
            or_empty(match *m {
                Some(x) => Some(str_entries(x)),
                None => None,
            }),
        ),
{
    let binary = str_or_empty(clone_opt(&tc.binary));
    let none = String::new();
    let ctx = EvalCtx {
        arch,
        os,
        binary: binary.as_str(),
        version: none.as_str(),
        value: none.as_str(),
        env,
    };
    assert(ctx@ == tool_ctx(tc@, arch@, os@, env_view(env@)));
    entries_ok_exec(&map_entries(m), &ctx)
}

} // verus!
