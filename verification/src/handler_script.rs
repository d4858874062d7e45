//! Option handlers for the `[compiler.*]` and `[language.*]` tables of a TOML
//! template. Each table becomes the source of a small Rhai script with a
//! `handler(ctx)` function that looks the manifest value up and calls
//! `add_flag`; values that depend on `version`, `arch` or `os` are turned into
//! Rhai expressions evaluated when the handler runs.

use vstd::prelude::*;
use crate::expr::{
    eval_expr, expand, looks_like_version, w_open, looks_like_version_exec, opt_view, replace_exec,
    unquote, unquote_exec, CtxView, EvalCtx,
};
use crate::index_map::{key_index, lookup, string_pairs};
use crate::scan::{
    close_paren, close_paren_exec, first_rel, first_rel_exec, lemma_close_paren_bounds,
    lemma_op_pos_bounds, rel_op, rel_op_exec, split_outer, split_outer_exec,
};
use crate::template::opt_str;
use crate::text::{
    chars_of, concat, eq_str, find, find_from_exec, lemma_find_b, lemma_trim_len_b, owned,
    replace, slice_copy, string_of, trim, trim_chars, trim_range,
};
use crate::toml_def::nested_pairs;
use crate::toml_doc::{NestedEntries, StrEntries};

verus! {

broadcast use lemma_trim_len_b, lemma_op_pos_bounds, lemma_close_paren_bounds, lemma_find_b;

// ── Rhai expressions for template values ──────────────────────────────────────

/// `s` between double quotes.
pub open spec fn quoted(s: Seq<char>) -> Seq<char> {
    seq!['"'] + s + seq!['"']
}

/// A Rhai string literal holding `s`, its double quotes escaped.
pub open spec fn literal_rhai(s: Seq<char>) -> Seq<char> {
    quoted(replace(s, seq!['"'], seq!['\\', '"']))
}

/// A variable or literal of the template language as a Rhai expression;
/// `None` for a lone quote character, which the conversion rejects.
pub open spec fn atom_rhai(atom: Seq<char>) -> Option<Seq<char>> {
    let a = trim(atom);
    if a == "version"@ {
        Some("ctx.version"@)
    } else if a == "arch"@ {
        Some("ctx.arch"@)
    } else if a == "os"@ {
        Some("ctx.os"@)
    } else if a == "binary"@ {
        Some("ctx.name"@)
    } else if a == "value"@ {
        Some("ctx.value"@)
    } else if a.len() > 0 && ((a[0] == '\'' && a[a.len() - 1] == '\'') || (a[0] == '"' && a[a.len()
        - 1] == '"')) {
        if a.len() >= 2 {
            Some(quoted(a.subrange(1, a.len() - 1)))
        } else {
            None
        }
    } else {
        Some(literal_rhai(a))
    }
}

/// The Rhai helper that compares versions for operator number `k`.
pub open spec fn version_fn(k: int) -> Seq<char> {
    if k == 0 {
        "version_gte"@
    } else if k == 1 {
        "version_lte"@
    } else if k == 4 {
        "version_gt"@
    } else {
        "version_lt"@
    }
}

/// A condition as a Rhai expression: a comparison against a version string
/// (other than `==` and `!=`) calls a version helper; other comparisons stay
/// infix with the right side as a string literal.
pub open spec fn cond_rhai(cond: Seq<char>) -> Option<Seq<char>> {
    match first_rel(cond, 0) {
        Some((k, pos)) => {
            let rhs = trim(cond.subrange(pos + rel_op(k).len(), cond.len() as int));
            match (atom_rhai(trim(cond.subrange(0, pos))), unquote(rhs)) {
                (Some(l), Some(r)) => Some(
                    if looks_like_version(rhs) && k != 2 && k != 3 {
                        version_fn(k) + "("@ + l + ", "@ + quoted(r) + ")"@
                    } else {
                        l + " "@ + rel_op(k) + " "@ + quoted(r)
                    },
                ),
                _ => None,
            }
        },
        None => atom_rhai(cond),
    }
}

/// An expression of the template language as a Rhai expression: a ternary
/// becomes `if`, anything else an atom.
pub open spec fn expr_rhai(e: Seq<char>) -> Option<Seq<char>>
    decreases e.len(),
{
    match split_outer(e, '?') {
        Some((c, rest)) => match split_outer(trim(rest), ':') {
            Some((a, b)) => match (cond_rhai(trim(c)), expr_rhai(trim(a)), expr_rhai(trim(b))) {
                (Some(x), Some(y), Some(z)) => Some(
                    "(if "@ + x + " { "@ + y + " } else { "@ + z + " })"@,
                ),
                _ => None,
            },
            None => atom_rhai(e),
        },
        None => atom_rhai(e),
    }
}

/// The parts of a template: literal text as string literals and each
/// `$(...)` group as its expression; an unclosed group is kept as text.
pub open spec fn template_parts(s: Seq<char>) -> Option<Seq<Seq<char>>>
    decreases s.len(),
{
    match find(s, w_open()) {
        Some(start) => {
            let lit = s.subrange(0, start);
            let pre = if lit.len() > 0 {
                seq![literal_rhai(lit)]
            } else {
                Seq::<Seq<char>>::empty()
            };
            let after = s.subrange(start + 2, s.len() as int);
            match close_paren(after) {
                Some(end) => match (
                    expr_rhai(trim(after.subrange(0, end))),
                    template_parts(after.subrange(end + 1, after.len() as int)),
                ) {
                    (Some(x), Some(ps)) => Some(pre + seq![x] + ps),
                    _ => None,
                },
                None => Some(pre + seq![literal_rhai(s)]),
            }
        },
        None => Some(
            if s.len() > 0 {
                seq![literal_rhai(s)]
            } else {
                Seq::<Seq<char>>::empty()
            },
        ),
    }
}

/// The parts joined with ` + `.
pub open spec fn join_plus(ps: Seq<Seq<char>>) -> Seq<char>
    decreases ps.len(),
{
    if ps.len() <= 1 {
        if ps.len() == 1 {
            ps[0]
        } else {
            seq![]
        }
    } else {
        join_plus(ps.drop_last()) + " + "@ + ps.last()
    }
}

/// A template string as a Rhai expression that concatenates its parts.
pub open spec fn template_rhai(t: Seq<char>) -> Option<Seq<char>> {
    match template_parts(t) {
        Some(ps) => Some(
            if ps.len() == 0 {
                literal_rhai(t)
            } else {
                join_plus(ps)
            },
        ),
        None => None,
    }
}

// ── Executable conversion ─────────────────────────────────────────────────────

fn quoted_exec(s: &Vec<char>) -> (r: Vec<char>)
    ensures
        r@ == quoted(s@),
{
    let q = vec!['"'];
    assert(q@ == seq!['"']);
    concat(&concat(&q, s), &q)
}

fn literal_rhai_exec(s: &Vec<char>) -> (r: Vec<char>)
    ensures
        r@ == literal_rhai(s@),
{
    let from = vec!['"'];
    let to = vec!['\\', '"'];
    assert(from@ == seq!['"']);
    assert(to@ == seq!['\\', '"']);
    quoted_exec(&replace_exec(s, &from, &to))
}

fn atom_rhai_exec(atom: &Vec<char>) -> (r: Option<Vec<char>>)
    ensures
        opt_view(r) == atom_rhai(atom@),
{
    let a = trim_chars(atom);
    let n = a.len();
    if eq_str(&a, "version") {
        Some(chars_of("ctx.version"))
    } else if eq_str(&a, "arch") {
        Some(chars_of("ctx.arch"))
    } else if eq_str(&a, "os") {
        Some(chars_of("ctx.os"))
    } else if eq_str(&a, "binary") {
        Some(chars_of("ctx.name"))
    } else if eq_str(&a, "value") {
        Some(chars_of("ctx.value"))
    } else if n > 0 && ((a[0] == '\'' && a[n - 1] == '\'') || (a[0] == '"' && a[n - 1] == '"')) {
        if n >= 2 {
            Some(quoted_exec(&slice_copy(&a, 1, n - 1)))
        } else {
            None
        }
    } else {
        Some(literal_rhai_exec(&a))
    }
}

fn version_fn_exec(k: usize) -> (r: Vec<char>)
    ensures
        r@ == version_fn(k as int),
{
    if k == 0 {
        chars_of("version_gte")
    } else if k == 1 {
        chars_of("version_lte")
    } else if k == 4 {
        chars_of("version_gt")
    } else {
        chars_of("version_lt")
    }
}

fn cond_rhai_exec(cond: &Vec<char>) -> (r: Option<Vec<char>>)
    ensures
        opt_view(r) == cond_rhai(cond@),
{
    match first_rel_exec(cond) {
        Some((k, pos)) => {
            let op = rel_op_exec(k);
            proof {
                crate::scan::lemma_first_rel_b(cond@);
            }
            assert(pos + op.len() <= cond.len());
            let rhs = trim_range(cond, pos + op.len(), cond.len());
            let lhs = atom_rhai_exec(&trim_range(cond, 0, pos));
            let rq = unquote_exec(&rhs);
            match (lhs, rq) {
                (Some(l), Some(r)) => {
                    let qr = quoted_exec(&r);
                    if looks_like_version_exec(&rhs) && k != 2 && k != 3 {
                        let mut o = version_fn_exec(k);
                        o = concat(&o, &chars_of("("));
                        o = concat(&o, &l);
                        o = concat(&o, &chars_of(", "));
                        o = concat(&o, &qr);
                        o = concat(&o, &chars_of(")"));
                        Some(o)
                    } else {
                        let mut o = concat(&l, &chars_of(" "));
                        o = concat(&o, &op);
                        o = concat(&o, &chars_of(" "));
                        o = concat(&o, &qr);
                        Some(o)
                    }
                },
                _ => None,
            }
        },
        None => atom_rhai_exec(cond),
    }
}

fn expr_rhai_exec(e: &Vec<char>) -> (r: Option<Vec<char>>)
    ensures
        opt_view(r) == expr_rhai(e@),
    decreases e@.len(),
{
    match split_outer_exec(e, '?') {
        Some((c, rest)) => match split_outer_exec(&trim_chars(&rest), ':') {
            Some((a, b)) => {
                let x = cond_rhai_exec(&trim_chars(&c));
                let y = expr_rhai_exec(&trim_chars(&a));
                let z = expr_rhai_exec(&trim_chars(&b));
                match (x, y, z) {
                    (Some(x), Some(y), Some(z)) => {
                        let mut o = concat(&chars_of("(if "), &x);
                        o = concat(&o, &chars_of(" { "));
                        o = concat(&o, &y);
                        o = concat(&o, &chars_of(" } else { "));
                        o = concat(&o, &z);
                        o = concat(&o, &chars_of(" })"));
                        Some(o)
                    },
                    _ => None,
                }
            },
            None => atom_rhai_exec(e),
        },
        None => atom_rhai_exec(e),
    }
}

pub open spec fn views_of(v: Seq<Vec<char>>) -> Seq<Seq<char>> {
    v.map_values(|x: Vec<char>| x@)
}

fn template_parts_exec(s: &Vec<char>) -> (r: Option<Vec<Vec<char>>>)
    ensures
        match (r, template_parts(s@)) {
            (Some(v), Some(ps)) => views_of(v@) == ps,
            (None, None) => true,
            _ => false,
        },
    decreases s@.len(),
{
    let open = vec!['$', '('];
    assert(open@ == w_open());
    match find_from_exec(s, &open, 0) {
        Some(start) => {
            assert(start + 2 <= s.len());
            let lit = slice_copy(s, 0, start);
            let mut pre: Vec<Vec<char>> = Vec::new();
            if lit.len() > 0 {
                pre.push(literal_rhai_exec(&lit));
            }
            let ghost pre_v = if lit@.len() > 0 {
                seq![literal_rhai(lit@)]
            } else {
                Seq::<Seq<char>>::empty()
            };
            assert(views_of(pre@) =~= pre_v);
            let after = slice_copy(s, start + 2, s.len());
            match close_paren_exec(&after) {
                Some(end) => {
                    let x = expr_rhai_exec(&trim_range(&after, 0, end));
                    let ps = template_parts_exec(&slice_copy(&after, end + 1, after.len()));
                    match (x, ps) {
                        (Some(x), Some(ps)) => {
                            let ghost xv = x@;
                            let ghost psv = views_of(ps@);
                            let mut out = pre;
                            out.push(x);
                            let mut tail = ps;
                            out.append(&mut tail);
                            assert(views_of(out@) =~= pre_v + seq![xv] + psv);
                            Some(out)
                        },
                        _ => None,
                    }
                },
                None => {
                    let mut out = pre;
                    out.push(literal_rhai_exec(s));
                    assert(views_of(out@) =~= pre_v + seq![literal_rhai(s@)]);
                    Some(out)
                },
            }
        },
        None => {
            let mut out: Vec<Vec<char>> = Vec::new();
            if s.len() > 0 {
                out.push(literal_rhai_exec(s));
                assert(views_of(out@) =~= seq![literal_rhai(s@)]);
            } else {
                assert(views_of(out@) =~= Seq::<Seq<char>>::empty());
            }
            Some(out)
        },
    }
}

fn join_plus_exec(ps: &Vec<Vec<char>>) -> (r: Vec<char>)
    ensures
        r@ == join_plus(views_of(ps@)),
{
    let ghost pv = views_of(ps@);
    if ps.len() == 0 {
        return Vec::new();
    }
    let mut out = ps[0].clone();
    let mut i: usize = 1;
    assert(pv.take(1).drop_last() =~= Seq::<Seq<char>>::empty());
    while i < ps.len()
        invariant
            1 <= i <= ps.len(),
            pv == views_of(ps@),
            out@ == join_plus(pv.take(i as int)),
        decreases ps.len() - i,
    {
        assert(pv.take(i + 1).drop_last() =~= pv.take(i as int));
        assert(pv[i as int] == ps@[i as int]@);
        out = concat(&concat(&out, &chars_of(" + ")), &ps[i]);
        i = i + 1;
    }
    assert(pv.take(i as int) =~= pv);
    out
}

fn template_rhai_exec(t: &Vec<char>) -> (r: Option<Vec<char>>)
    ensures
        opt_view(r) == template_rhai(t@),
{
    match template_parts_exec(t) {
        Some(ps) => if ps.len() == 0 {
            Some(literal_rhai_exec(t))
        } else {
            Some(join_plus_exec(&ps))
        },
        None => None,
    }
}


// ── Handler scripts ───────────────────────────────────────────────────────────

/// A value that mentions `version`, `arch` or `os` is turned into a Rhai
/// expression evaluated when the handler runs; others are expanded now.
pub open spec fn deferred(v: Seq<char>) -> bool {
    ||| find(v, "$(version"@) is Some
    ||| find(v, "$(arch"@) is Some
    ||| find(v, "$(os"@) is Some
}

/// `s` with backslashes and double quotes escaped.
pub open spec fn escaped(s: Seq<char>) -> Seq<char> {
    replace(replace(s, seq!['\\'], seq!['\\', '\\']), seq!['"'], seq!['\\', '"'])
}

/// The script line for table entry `k = v`.
pub open spec fn case_line(c: CtxView, k: Seq<char>, v: Seq<char>) -> Option<Seq<char>> {
    if deferred(v) {
        match template_rhai(v) {
            Some(f) => Some("    if v == \""@ + escaped(k) + "\" { flag = "@ + f + "; }\n"@),
            None => None,
        }
    } else {
        match expand(c, v) {
            Some(x) => Some(
                "    if v == \""@ + escaped(k) + "\" { flag = \""@ + escaped(x) + "\"; }\n"@,
            ),
            None => None,
        }
    }
}

/// The script lines for all entries, in order.
pub open spec fn case_lines(c: CtxView, es: StrEntries) -> Option<Seq<char>>
    decreases es.len(),
{
    if es.len() == 0 {
        Some(seq![])
    } else {
        match (case_lines(c, es.drop_last()), case_line(c, es.last().0, es.last().1)) {
            (Some(a), Some(b)) => Some(a + b),
            _ => None,
        }
    }
}

/// The script for a table with a `value` entry: the flag is that template
/// with the manifest value interpolated.
pub open spec fn value_script(f: Seq<char>) -> Seq<char> {
    "\n            fn handler(ctx) {\n                let flag = "@ + f
        + ";\n                if flag != \"\" { add_flag(flag); }\n            }\n        "@
}

/// The script for a table without a `value` entry: the manifest value selects
/// the entry whose flag is added.
pub open spec fn lookup_script(body: Seq<char>) -> Seq<char> {
    "fn handler(ctx) {\n"@ + "    let v = ctx.value;\n"@ + "    let flag = \"\";\n"@ + body
        + "    if flag != \"\" { add_flag(flag); }\n"@ + "}\n"@
}

/// The handler script of an option table; `None` when a value cannot be
/// converted or expanded.
pub open spec fn handler_script(c: CtxView, es: StrEntries) -> Option<Seq<char>> {
    match lookup(es, "value"@) {
        Some(t) => match template_rhai(t) {
            Some(f) => Some(value_script(f)),
            None => None,
        },
        None => match case_lines(c, es) {
            Some(body) => Some(lookup_script(body)),
            None => None,
        },
    }
}

/// Compiles `script` with a fresh `rhai::Engine` (`Engine::compile`) and
/// reports whether it parsed. Nothing is stated of the outcome: besides the
/// script, it depends on the engine's parse limits (expression nesting
/// depth), whose defaults differ between debug and release builds of rhai.
#[verifier::external_body]
fn script_compiles(script: &str) -> (r: bool) {
    rhai::Engine::new().compile(script).is_ok()
}

/// An option handler backed by a Rhai script.
pub struct ScriptHandler {
    /// The first key of the table, the value used when the manifest sets none.
    pub default_value: Option<String>,
    pub script: String,
}

pub struct ScriptView {
    pub default_value: Option<Seq<char>>,
    pub script: Seq<char>,
}

impl View for ScriptHandler {
    type V = ScriptView;

    open spec fn view(&self) -> ScriptView {
        ScriptView { default_value: opt_str(self.default_value), script: self.script@ }
    }
}

/// The handler of a table whose script is `script`.
pub open spec fn handler_view(es: StrEntries, script: Seq<char>) -> ScriptView {
    ScriptView {
        default_value: if es.len() > 0 {
            Some(es[0].0)
        } else {
            None
        },
        script: script,
    }
}

fn escaped_exec(s: &Vec<char>) -> (r: Vec<char>)
    ensures
        r@ == escaped(s@),
{
    let bs = vec!['\\'];
    let bs2 = vec!['\\', '\\'];
    let q = vec!['"'];
    let bq = vec!['\\', '"'];
    assert(bs@ == seq!['\\']);
    assert(bs2@ == seq!['\\', '\\']);
    assert(q@ == seq!['"']);
    assert(bq@ == seq!['\\', '"']);
    replace_exec(&replace_exec(s, &bs, &bs2), &q, &bq)
}

fn contains_exec(v: &Vec<char>, pat: &str) -> (r: bool)
    ensures
        r == (find(v@, pat@) is Some),
{
    find_from_exec(v, &chars_of(pat), 0).is_some()
}

fn case_line_exec(k: &Vec<char>, v: &Vec<char>, ctx: &EvalCtx<'_>) -> (r: Option<Vec<char>>)
    ensures
        opt_view(r) == case_line(ctx@, k@, v@),
{
    let ek = escaped_exec(k);
    if contains_exec(v, "$(version") || contains_exec(v, "$(arch") || contains_exec(v, "$(os") {
        match template_rhai_exec(v) {
            Some(f) => {
                let mut o = concat(&chars_of("    if v == \""), &ek);
                o = concat(&o, &chars_of("\" { flag = "));
                o = concat(&o, &f);
                o = concat(&o, &chars_of("; }\n"));
                Some(o)
            },
            None => None,
        }
    } else {
        match crate::expr::try_eval_expr(string_of(v).as_str(), ctx) {
            Some(x) => {
                let mut o = concat(&chars_of("    if v == \""), &ek);
                o = concat(&o, &chars_of("\" { flag = \""));
                o = concat(&o, &escaped_exec(&chars_of(x.as_str())));
                o = concat(&o, &chars_of("\"; }\n"));
                Some(o)
            },
            None => None,
        }
    }
}

/// The handler script of option table `es`.
pub fn handler_script_exec(es: &Vec<(String, String)>, ctx: &EvalCtx<'_>) -> (r: Option<String>)
    ensures
        opt_str(r) == handler_script(ctx@, string_pairs(es@)),
{
    let ghost sp = string_pairs(es@);
    let vi = crate::toml_def::find_str(es, "value");
    match vi {
        Some(i) => {
            assert(sp[i as int].1 == es@[i as int].1@);
            match template_rhai_exec(&chars_of(es[i].1.as_str())) {
                Some(f) => {
                    let mut o = chars_of("\n            fn handler(ctx) {\n                let flag = ");
                    o = concat(&o, &f);
                    o = concat(
                        &o,
                        &chars_of(";\n                if flag != \"\" { add_flag(flag); }\n            }\n        "),
                    );
                    Some(string_of(&o))
                },
                None => None,
            }
        },
        None => {
            let mut body: Vec<char> = Vec::new();
            let mut i: usize = 0;
            assert(sp.take(0) =~= Seq::<(Seq<char>, Seq<char>)>::empty());
            while i < es.len()
                invariant
                    i <= es.len(),
                    sp == string_pairs(es@),
                    key_index(sp, "value"@) is None,
                    case_lines(ctx@, sp.take(i as int)) == Some(body@),
                decreases es.len() - i,
            {
                assert(sp[i as int] == (es@[i as int].0@, es@[i as int].1@));
                assert(sp.take(i + 1).drop_last() =~= sp.take(i as int));
                match case_line_exec(&chars_of(es[i].0.as_str()), &chars_of(es[i].1.as_str()), ctx) {
                    Some(line) => {
                        body = concat(&body, &line);
                    },
                    None => {
                        assert(sp.take(i + 1).last() == sp[i as int]);
                        assert(case_lines(ctx@, sp.take(i + 1)) is None);
                        proof {
                            lemma_case_lines_none(ctx@, sp, (i + 1) as int);
                        }
                        return None;
                    },
                }
                i = i + 1;
            }
            assert(sp.take(i as int) =~= sp);
            let mut o = chars_of("fn handler(ctx) {\n");
            o = concat(&o, &chars_of("    let v = ctx.value;\n"));
            o = concat(&o, &chars_of("    let flag = \"\";\n"));
            o = concat(&o, &body);
            o = concat(&o, &chars_of("    if flag != \"\" { add_flag(flag); }\n"));
            o = concat(&o, &chars_of("}\n"));
            Some(string_of(&o))
        },
    }
}

proof fn lemma_case_lines_none(c: CtxView, es: StrEntries, n: int)
    requires
        0 < n <= es.len(),
        case_lines(c, es.take(n)) is None,
    ensures
        case_lines(c, es) is None,
    decreases es.len() - n,
{
    if n < es.len() {
        assert(es.take(n + 1).drop_last() =~= es.take(n));
        lemma_case_lines_none(c, es, n + 1);
    } else {
        assert(es.take(n) =~= es);
    }
}

/// The handler of option table `es` whose script is `script`, given whether
/// Rhai compiled that script: the handler when it did, else none. The table's
/// first key is the handler's default value.
pub fn handler_from_script(es: &Vec<(String, String)>, script: String, compiles: bool) -> (r:
    Option<ScriptHandler>)
    ensures
        r is Some <==> compiles,
        r matches Some(h) ==> h@ == handler_view(string_pairs(es@), script@),
{
    let ghost sp = string_pairs(es@);
    if compiles {
        let default_value = if es.len() > 0 {
            assert(sp[0].0 == es@[0].0@);
            Some(owned(es[0].0.as_str()))
        } else {
            None
        };
        Some(ScriptHandler { default_value, script })
    } else {
        None
    }
}

/// Makes the handler of option table `es`: its generated script, handed to
/// Rhai, and kept when Rhai compiles it (see [`handler_from_script`]).
pub fn make_map_handler(es: &Vec<(String, String)>, ctx: &EvalCtx<'_>) -> (r: Option<
    ScriptHandler,
>)
    requires
        handler_script(ctx@, string_pairs(es@)) is Some,
    ensures
        r matches Some(h) ==> h@ == handler_view(
            string_pairs(es@),
            handler_script(ctx@, string_pairs(es@))->0,
        ),
{
    match handler_script_exec(es, ctx) {
        Some(script) => {
            let ok = script_compiles(script.as_str());
            handler_from_script(es, script, ok)
        },
        None => None,
    }
}

// ── Handlers of all option tables ─────────────────────────────────────────────

/// Tables that are not option handlers: `[compiler.stdlib]`, and
/// `[language.std]`, `[language.modules]` and `[language.pch]`.
pub open spec fn skipped(k: Seq<char>, language: bool) -> bool {
    if language {
        k == "std"@ || k == "modules"@ || k == "pch"@
    } else {
        k == "stdlib"@
    }
}

/// Every option table's script can be made.
pub open spec fn tables_ok(c: CtxView, ts: NestedEntries, language: bool) -> bool {
    forall|i: int|
        0 <= i < ts.len() && !skipped(ts[i].0, language) ==> handler_script(
            c,
            #[trigger] ts[i].1,
        ) is Some
}

/// The handlers of a list of option tables, in order, given for each table
/// whether Rhai compiled its script (`oks`, one per table): one for each table
/// that is not skipped, whose script can be made, and whose script compiled.
pub open spec fn handler_entries(c: CtxView, ts: NestedEntries, language: bool, oks: Seq<bool>) -> Seq<
    (Seq<char>, ScriptView),
>
    decreases ts.len(),
{
    if ts.len() == 0 {
        seq![]
    } else {
        let prev = handler_entries(c, ts.drop_last(), language, oks.drop_last());
        let k = ts.last().0;
        let es = ts.last().1;
        if skipped(k, language) {
            prev
        } else {
            match handler_script(c, es) {
                Some(sc) => if oks.last() {
                    prev.push((k, handler_view(es, sc)))
                } else {
                    prev
                },
                None => prev,
            }
        }
    }
}

pub open spec fn script_entries(v: Seq<(String, ScriptHandler)>) -> Seq<(Seq<char>, ScriptView)> {
    v.map_values(|p: (String, ScriptHandler)| (p.0@, p.1@))
}

fn is_skipped(k: &str, language: bool) -> (r: bool)
    ensures
        r == skipped(k@, language),
{
    let kc = chars_of(k);
    if language {
        eq_str(&kc, "std") || eq_str(&kc, "modules") || eq_str(&kc, "pch")
    } else {
        eq_str(&kc, "stdlib")
    }
}

/// The handlers of the option tables `tables` (`[language.*]` when `language`,
/// else `[compiler.*]`), given for each table whether Rhai compiled its
/// script.
pub fn option_handlers_given(
    tables: &Vec<(String, Vec<(String, String)>)>,
    language: bool,
    ctx: &EvalCtx<'_>,
    oks: &Vec<bool>,
) -> (r: Vec<(String, ScriptHandler)>)
    requires
        tables_ok(ctx@, nested_pairs(tables@), language),
        oks.len() == tables.len(),
    ensures
        script_entries(r@) == handler_entries(ctx@, nested_pairs(tables@), language, oks@),
{
    let ghost ts = nested_pairs(tables@);
    let mut out: Vec<(String, ScriptHandler)> = Vec::new();
    let mut i: usize = 0;
    assert(ts.take(0) =~= Seq::<(Seq<char>, StrEntries)>::empty());
    assert(script_entries(out@) =~= Seq::<(Seq<char>, ScriptView)>::empty());
    while i < tables.len()
        invariant
            i <= tables.len(),
            oks.len() == tables.len(),
            ts == nested_pairs(tables@),
            tables_ok(ctx@, ts, language),
            script_entries(out@) == handler_entries(
                ctx@,
                ts.take(i as int),
                language,
                oks@.take(i as int),
            ),
        decreases tables.len() - i,
    {
        assert(ts[i as int] == (tables@[i as int].0@, string_pairs(tables@[i as int].1@)));
        assert(ts.take(i + 1).drop_last() =~= ts.take(i as int));
        assert(ts.take(i + 1).last() == ts[i as int]);
        assert(oks@.take(i + 1).drop_last() =~= oks@.take(i as int));
        assert(oks@.take(i + 1).last() == oks@[i as int]);
        if !is_skipped(tables[i].0.as_str(), language) {
            assert(handler_script(ctx@, ts[i as int].1) is Some);
            match handler_script_exec(&tables[i].1, ctx) {
                Some(script) => {
                    match handler_from_script(&tables[i].1, script, oks[i]) {
                        Some(h) => {
                            let ghost before = out@;
                            let ghost hv = h@;
                            out.push((owned(tables[i].0.as_str()), h));
                            assert(script_entries(out@) =~= script_entries(before).push(
                                (ts[i as int].0, hv),
                            ));
                        },
                        None => {},
                    }
                },
                None => {},
            }
        }
        i = i + 1;
    }
    assert(ts.take(i as int) =~= ts);
    assert(oks@.take(i as int) =~= oks@);
    out
}

/// The handlers of the option tables `tables`: each table's script is handed
/// to Rhai, and the handlers are those [`option_handlers_given`] makes from
/// what Rhai answered, whatever that was.
pub fn option_handlers(
    tables: &Vec<(String, Vec<(String, String)>)>,
    language: bool,
    ctx: &EvalCtx<'_>,
) -> (r: Vec<(String, ScriptHandler)>)
    requires
        tables_ok(ctx@, nested_pairs(tables@), language),
    ensures
        exists|oks: Seq<bool>|
            oks.len() == tables.len() && script_entries(r@) == #[trigger] handler_entries(
                ctx@,
                nested_pairs(tables@),
                language,
                oks,
            ),
{
    let ghost ts = nested_pairs(tables@);
    let mut oks: Vec<bool> = Vec::new();
    let mut i: usize = 0;
    while i < tables.len()
        invariant
            i <= tables.len(),
            oks.len() == i,
        decreases tables.len() - i,
    {
        let ok = if is_skipped(tables[i].0.as_str(), language) {
            false
        } else {
            match handler_script_exec(&tables[i].1, ctx) {
                Some(script) => script_compiles(script.as_str()),
                None => false,
            }
        };
        oks.push(ok);
        i = i + 1;
    }
    let r = option_handlers_given(tables, language, ctx, &oks);
    assert(script_entries(r@) == handler_entries(ctx@, ts, language, oks@));
    r
}


/// Whether every option table's script can be made (see [`tables_ok`]).
pub fn tables_ok_exec(
    tables: &Vec<(String, Vec<(String, String)>)>,
    language: bool,
    ctx: &EvalCtx<'_>,
) -> (r: bool)
    ensures
        r == tables_ok(ctx@, nested_pairs(tables@), language),
{
    let ghost ts = nested_pairs(tables@);
    let mut i: usize = 0;
    while i < tables.len()
        invariant
            i <= tables.len(),
            ts == nested_pairs(tables@),
            forall|j: int|
                0 <= j < i && !skipped(ts[j].0, language) ==> handler_script(
                    ctx@,
                    #[trigger] ts[j].1,
                ) is Some,
        decreases tables.len() - i,
    {
        assert(ts[i as int] == (tables@[i as int].0@, string_pairs(tables@[i as int].1@)));
        if !is_skipped(tables[i].0.as_str(), language) {
            if handler_script_exec(&tables[i].1, ctx).is_none() {
                assert(!(handler_script(ctx@, ts[i as int].1) is Some));
                return false;
            }
        }
        i = i + 1;
    }
    true
}

} // verus!
