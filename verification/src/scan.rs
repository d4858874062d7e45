//! Scanning primitives for the expression language: matching parentheses and
//! operators that stand outside quotes and parentheses.

use vstd::prelude::*;
use crate::text::{occurs_at, occurs_at_exec, slice_copy};


verus! {

/// The comparison operators, in the order in which they are looked for.
pub open spec fn rel_op(k: int) -> Seq<char> {
    if k == 0 {
        seq!['>', '=']
    } else if k == 1 {
        seq!['<', '=']
    } else if k == 2 {
        seq!['!', '=']
    } else if k == 3 {
        seq!['=', '=']
    } else if k == 4 {
        seq!['>']
    } else {
        seq!['<']
    }
}

// ── Scanning ──────────────────────────────────────────────────────────────────

/// Position of the `)` that closes an already consumed `(`, scanning from `i`
/// at nesting `depth`.
pub open spec fn close_paren_from(s: Seq<char>, i: int, depth: int) -> Option<int>
    decreases s.len() - i,
{
    if i < 0 || i >= s.len() {
        None
    } else if s[i] == '(' {
        close_paren_from(s, i + 1, depth + 1)
    } else if s[i] == ')' {
        if depth == 1 {
            Some(i)
        } else {
            close_paren_from(s, i + 1, depth - 1)
        }
    } else {
        close_paren_from(s, i + 1, depth)
    }
}

/// Position of the `)` that closes an `(` standing just before `s`.
pub open spec fn close_paren(s: Seq<char>) -> Option<int> {
    close_paren_from(s, 0, 1)
}

/// First position of `op` at or after `i` that lies outside quotes and at
/// parenthesis depth zero, given the scanner state at `i`.
pub open spec fn op_pos_from(
    e: Seq<char>,
    op: Seq<char>,
    i: int,
    depth: nat,
    sq: bool,
    dq: bool,
) -> Option<int>
    decreases e.len() + 1 - i,
{
    if i < 0 || i + op.len() > e.len() {
        None
    } else {
        let c = e[i];
        if c == '\'' && !dq {
            op_pos_from(e, op, i + 1, depth, !sq, dq)
        } else if c == '"' && !sq {
            op_pos_from(e, op, i + 1, depth, sq, !dq)
        } else if sq || dq {
            op_pos_from(e, op, i + 1, depth, sq, dq)
        } else if c == '(' {
            op_pos_from(e, op, i + 1, depth + 1, sq, dq)
        } else if c == ')' {
            op_pos_from(e, op, i + 1, if depth == 0 { 0 } else { (depth - 1) as nat }, sq, dq)
        } else if depth == 0 && e.subrange(i, i + op.len()) == op {
            Some(i)
        } else {
            op_pos_from(e, op, i + 1, depth, sq, dq)
        }
    }
}

/// First position of `op` outside quotes and parentheses.
pub open spec fn op_pos(e: Seq<char>, op: Seq<char>) -> Option<int> {
    op_pos_from(e, op, 0, 0, false, false)
}

/// `e` split around its first `ch` outside quotes and parentheses.
pub open spec fn split_outer(e: Seq<char>, ch: char) -> Option<(Seq<char>, Seq<char>)> {
    match op_pos(e, seq![ch]) {
        Some(p) => Some((e.subrange(0, p), e.subrange(p + 1, e.len() as int))),
        None => None,
    }
}

/// The first comparison operator (index and position) found in `e`, trying the
/// operators in order from `k`.
pub open spec fn first_rel(e: Seq<char>, k: int) -> Option<(int, int)>
    decreases 6 - k,
{
    if k < 0 || k >= 6 {
        None
    } else {
        match op_pos(e, rel_op(k)) {
            Some(p) => Some((k, p)),
            None => first_rel(e, k + 1),
        }
    }
}

// ── Bounds lemmas ─────────────────────────────────────────────────────────────

proof fn lemma_close_paren_from(s: Seq<char>, i: int, depth: int)
    ensures
        close_paren_from(s, i, depth) matches Some(j) ==> i <= j < s.len() && s[j] == ')',
    decreases s.len() - i,
{
    if i < 0 || i >= s.len() {
    } else if s[i] == '(' {
        lemma_close_paren_from(s, i + 1, depth + 1);
    } else if s[i] == ')' {
        if depth != 1 {
            lemma_close_paren_from(s, i + 1, depth - 1);
        }
    } else {
        lemma_close_paren_from(s, i + 1, depth);
    }
}

pub broadcast proof fn lemma_close_paren_bounds(s: Seq<char>)
    ensures
        #[trigger] close_paren(s) matches Some(j) ==> 0 <= j < s.len() && s[j] == ')',
{
    lemma_close_paren_from(s, 0, 1);
}

proof fn lemma_op_pos_from(e: Seq<char>, op: Seq<char>, i: int, depth: nat, sq: bool, dq: bool)
    ensures
        op_pos_from(e, op, i, depth, sq, dq) matches Some(p) ==> i <= p && p + op.len()
            <= e.len() && e.subrange(p, p + op.len()) == op,
    decreases e.len() + 1 - i,
{
    if i < 0 || i + op.len() > e.len() {
    } else {
        let c = e[i];
        if c == '\'' && !dq {
            lemma_op_pos_from(e, op, i + 1, depth, !sq, dq);
        } else if c == '"' && !sq {
            lemma_op_pos_from(e, op, i + 1, depth, sq, !dq);
        } else if sq || dq {
            lemma_op_pos_from(e, op, i + 1, depth, sq, dq);
        } else if c == '(' {
            lemma_op_pos_from(e, op, i + 1, depth + 1, sq, dq);
        } else if c == ')' {
            lemma_op_pos_from(
                e,
                op,
                i + 1,
                if depth == 0 { 0 } else { (depth - 1) as nat },
                sq,
                dq,
            );
        } else if depth == 0 && e.subrange(i, i + op.len()) == op {
        } else {
            lemma_op_pos_from(e, op, i + 1, depth, sq, dq);
        }
    }
}

pub broadcast proof fn lemma_op_pos_bounds(e: Seq<char>, op: Seq<char>)
    ensures
        #[trigger] op_pos(e, op) matches Some(p) ==> 0 <= p && p + op.len() <= e.len() && e.subrange(
            p,
            p + op.len(),
        ) == op,
{
    lemma_op_pos_from(e, op, 0, 0, false, false);
}

proof fn lemma_first_rel(e: Seq<char>, k: int)
    ensures
        first_rel(e, k) matches Some((j, p)) ==> 0 <= j < 6 && op_pos(e, rel_op(j)) == Some(p)
            && 0 <= p && p + rel_op(j).len() <= e.len() && rel_op(j).len() >= 1,
    decreases 6 - k,
{
    if k < 0 || k >= 6 {
    } else {
        lemma_op_pos_bounds(e, rel_op(k));
        match op_pos(e, rel_op(k)) {
            Some(p) => {},
            None => lemma_first_rel(e, k + 1),
        }
    }
}

pub broadcast proof fn lemma_first_rel_b(e: Seq<char>)
    ensures
        #[trigger] first_rel(e, 0) matches Some((j, p)) ==> 0 <= j < 6 && op_pos(e, rel_op(j))
            == Some(p) && 0 <= p && p + rel_op(j).len() <= e.len() && rel_op(j).len() >= 1,
{
    lemma_first_rel(e, 0);
}


// ── Executable scanning ───────────────────────────────────────────────────────

/// Position of the `)` closing an `(` that stands just before `s`.
pub fn close_paren_exec(s: &Vec<char>) -> (r: Option<usize>)
    ensures
        r matches Some(i) ==> close_paren(s@) == Some(i as int),
        r is None ==> close_paren(s@) is None,
{
    let mut i: usize = 0;
    // nesting depth minus one
    let mut extra: usize = 0;
    while i < s.len()
        invariant
            i <= s.len(),
            extra <= i,
            close_paren_from(s@, i as int, extra + 1) == close_paren(s@),
        decreases s.len() - i,
    {
        let c = s[i];
        if c == '(' {
            extra = extra + 1;
        } else if c == ')' {
            if extra == 0 {
                return Some(i);
            }
            extra = extra - 1;
        }
        i = i + 1;
    }
    None
}

/// First position of `op` outside quotes and parentheses.
pub fn op_pos_exec(e: &Vec<char>, op: &Vec<char>) -> (r: Option<usize>)
    requires
        op.len() > 0,
    ensures
        r matches Some(i) ==> op_pos(e@, op@) == Some(i as int),
        r is None ==> op_pos(e@, op@) is None,
{
    let mut i: usize = 0;
    let mut depth: usize = 0;
    let mut sq = false;
    let mut dq = false;
    while i <= e.len() && op.len() <= e.len() - i
        invariant
            op.len() > 0,
            i <= e.len() + 1,
            depth <= i,
            op_pos_from(e@, op@, i as int, depth as nat, sq, dq) == op_pos(e@, op@),
        decreases e.len() + 1 - i,
    {
        let c = e[i];
        if c == '\'' && !dq {
            sq = !sq;
        } else if c == '"' && !sq {
            dq = !dq;
        } else if sq || dq {
        } else if c == '(' {
            depth = depth + 1;
        } else if c == ')' {
            if depth > 0 {
                depth = depth - 1;
            }
        } else if depth == 0 && occurs_at_exec(e, op, i) {
            return Some(i);
        }
        i = i + 1;
    }
    None
}

/// `e` split around its first `ch` outside quotes and parentheses.
pub fn split_outer_exec(e: &Vec<char>, ch: char) -> (r: Option<(Vec<char>, Vec<char>)>)
    ensures
        r matches Some((a, b)) ==> split_outer(e@, ch) == Some((a@, b@)),
        r is None ==> split_outer(e@, ch) is None,
{
    let op = vec![ch];
    assert(op@ == seq![ch]);
    match op_pos_exec(e, &op) {
        Some(p) => {
            proof {
                lemma_op_pos_bounds(e@, op@);
                assert(p + 1 <= e.len());
            }
            Some((slice_copy(e, 0, p), slice_copy(e, p + 1, e.len())))
        },
        None => None,
    }
}

/// The characters of comparison operator number `k`.
pub fn rel_op_exec(k: usize) -> (r: Vec<char>)
    ensures
        r@ == rel_op(k as int),
{
    if k == 0 {
        vec!['>', '=']
    } else if k == 1 {
        vec!['<', '=']
    } else if k == 2 {
        vec!['!', '=']
    } else if k == 3 {
        vec!['=', '=']
    } else if k == 4 {
        vec!['>']
    } else {
        vec!['<']
    }
}

/// The first comparison operator (index and position) found in `e`.
pub fn first_rel_exec(e: &Vec<char>) -> (r: Option<(usize, usize)>)
    ensures
        r matches Some((k, p)) ==> first_rel(e@, 0) == Some((k as int, p as int)),
        r is None ==> first_rel(e@, 0) is None,
{
    let mut k: usize = 0;
    while k < 6
        invariant
            k <= 6,
            first_rel(e@, k as int) == first_rel(e@, 0),
        decreases 6 - k,
    {
        let op = rel_op_exec(k);
        match op_pos_exec(e, &op) {
            Some(p) => {
                return Some((k, p));
            },
            None => {},
        }
        k = k + 1;
    }
    None
}

} // verus!
