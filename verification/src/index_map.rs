//! The insertion-ordered maps of a TOML template document (`indexmap::IndexMap`),
//! with the operations the template logic uses.
//!
//! The contents of each map are named as the sequence of its entries in
//! iteration (insertion) order. `IndexMap::insert` updates the value of an
//! existing key in place and appends a new key at the end, so a map never
//! holds a key twice; the contracts below state exactly that.

use vstd::prelude::*;
use indexmap::IndexMap;

verus! {

#[verifier::external_type_specification]
#[verifier::external_body]
#[verifier::reject_recursive_types(K)]
#[verifier::reject_recursive_types(V)]
#[verifier::reject_recursive_types(S)]
pub struct ExIndexMap<K, V, S>(IndexMap<K, V, S>);

/// A template document's linking entry, as plain values.
pub struct LinkingEntryView {
    pub abi: Seq<char>,
    pub compatible: Seq<Seq<char>>,
    pub linker: Seq<char>,
    pub extensions: Seq<Seq<char>>,
    pub compile_binary: Option<Seq<char>>,
}

/// The entries of a string map, in order.
pub uninterp spec fn str_entries(m: IndexMap<String, String>) -> Seq<(Seq<char>, Seq<char>)>;

/// The entries of a map of string lists, in order.
pub uninterp spec fn list_entries(m: IndexMap<String, Vec<String>>) -> Seq<
    (Seq<char>, Seq<Seq<char>>),
>;

/// The entries of a map of string maps, in order, each inner map by its entries.
pub uninterp spec fn nested_entries(m: IndexMap<String, IndexMap<String, String>>) -> Seq<
    (Seq<char>, Seq<(Seq<char>, Seq<char>)>),
>;

/// The entries of a map of linking sections, in order.
pub uninterp spec fn link_entries(m: IndexMap<String, crate::toml_doc::TomlLinking>) -> Seq<
    (Seq<char>, LinkingEntryView),
>;

/// No two entries share a key: an `IndexMap` holds each key once.
pub open spec fn distinct_keys<V>(es: Seq<(Seq<char>, V)>) -> bool {
    forall|i: int, j: int| 0 <= i < j < es.len() ==> #[trigger] es[i].0 != #[trigger] es[j].0
}

/// Every inner map of a map of string maps holds each key once.
pub open spec fn inner_distinct(es: Seq<(Seq<char>, Seq<(Seq<char>, Seq<char>)>)>) -> bool {
    forall|i: int| 0 <= i < es.len() ==> distinct_keys(#[trigger] es[i].1)
}

/// Position of the first entry with key `k`.
pub open spec fn key_index<V>(es: Seq<(Seq<char>, V)>, k: Seq<char>) -> Option<int>
    decreases es.len(),
{
    if es.len() == 0 {
        None
    } else if es.last().0 == k {
        match key_index(es.drop_last(), k) {
            Some(i) => Some(i),
            None => Some(es.len() - 1),
        }
    } else {
        key_index(es.drop_last(), k)
    }
}

/// The entries after `IndexMap::insert(k, v)`: an existing key keeps its place
/// and takes the new value; a new key goes last.
pub open spec fn ins<V>(es: Seq<(Seq<char>, V)>, k: Seq<char>, v: V) -> Seq<(Seq<char>, V)> {
    match key_index(es, k) {
        Some(i) => es.update(i, (k, v)),
        None => es.push((k, v)),
    }
}

/// The value of the first entry with key `k`.
pub open spec fn lookup<V>(es: Seq<(Seq<char>, V)>, k: Seq<char>) -> Option<V> {
    match key_index(es, k) {
        Some(i) => Some(es[i].1),
        None => None,
    }
}

pub open spec fn string_pairs(v: Seq<(String, String)>) -> Seq<(Seq<char>, Seq<char>)> {
    v.map_values(|p: (String, String)| (p.0@, p.1@))
}

/// `IndexMap::new` for a string map.
#[verifier::external_body]
pub(crate) fn str_map_new() -> (r: IndexMap<String, String>)
    ensures
        str_entries(r) == Seq::<(Seq<char>, Seq<char>)>::empty(),
        distinct_keys(str_entries(r)),
{
    IndexMap::new()
}

/// `IndexMap::insert` on a string map.
#[verifier::external_body]
pub(crate) fn str_map_insert(m: &mut IndexMap<String, String>, k: String, v: String)
    ensures
        str_entries(*final(m)) == ins(str_entries(*old(m)), k@, v@),
        distinct_keys(str_entries(*final(m))),
{
    m.insert(k, v);
}

/// `IndexMap::clone` on a string map.
#[verifier::external_body]
pub(crate) fn str_map_clone(m: &IndexMap<String, String>) -> (r: IndexMap<String, String>)
    ensures
        str_entries(r) == str_entries(*m),
        distinct_keys(str_entries(r)),
{
    m.clone()
}

/// `IndexMap::clone` on a map of string maps.
#[verifier::external_body]
pub(crate) fn nested_map_clone(m: &IndexMap<String, IndexMap<String, String>>) -> (r: IndexMap<
    String,
    IndexMap<String, String>,
>)
    ensures
        nested_entries(r) == nested_entries(*m),
        distinct_keys(nested_entries(r)),
        inner_distinct(nested_entries(r)),
{
    m.clone()
}

/// `IndexMap::clone` on a map of linking sections (each section cloned field
/// by field by its derived `Clone`).
#[verifier::external_body]
pub(crate) fn link_map_clone(m: &IndexMap<String, crate::toml_doc::TomlLinking>) -> (r: IndexMap<
    String,
    crate::toml_doc::TomlLinking,
>)
    ensures
        link_entries(r) == link_entries(*m),
        distinct_keys(link_entries(r)),
{
    m.clone()
}

/// The entries of a string map, in order (`IndexMap::into_iter`).
#[verifier::external_body]
pub(crate) fn str_map_into_entries(m: IndexMap<String, String>) -> (r: Vec<(String, String)>)
    ensures
        string_pairs(r@) == str_entries(m),
        distinct_keys(string_pairs(r@)),
{
    m.into_iter().collect()
}

/// `IndexMap::insert` on a map of string lists.
#[verifier::external_body]
pub(crate) fn list_map_insert(m: &mut IndexMap<String, Vec<String>>, k: String, v: Vec<String>)
    ensures
        list_entries(*final(m)) == ins(
            list_entries(*old(m)),
            k@,
            v@.map_values(|s: String| s@),
        ),
        distinct_keys(list_entries(*final(m))),
{
    m.insert(k, v);
}

/// The entries of a map of string lists, in order (`IndexMap::into_iter`).
#[verifier::external_body]
pub(crate) fn list_map_into_entries(m: IndexMap<String, Vec<String>>) -> (r: Vec<(String, Vec<String>)>)
    ensures
        r@.map_values(|p: (String, Vec<String>)| (p.0@, p.1@.map_values(|s: String| s@)))
            == list_entries(m),
        distinct_keys(
            r@.map_values(|p: (String, Vec<String>)| (p.0@, p.1@.map_values(|s: String| s@))),
        ),
{
    m.into_iter().collect()
}

/// `IndexMap::insert` on a map of string maps.
#[verifier::external_body]
pub(crate) fn nested_map_insert(
    m: &mut IndexMap<String, IndexMap<String, String>>,
    k: String,
    v: IndexMap<String, String>,
)
    ensures
        nested_entries(*final(m)) == ins(nested_entries(*old(m)), k@, str_entries(v)),
        distinct_keys(nested_entries(*final(m))),
        inner_distinct(nested_entries(*final(m))),
{
    m.insert(k, v);
}

/// `IndexMap::get` on a map of string maps.
#[verifier::external_body]
pub(crate) fn nested_map_get<'a>(m: &'a IndexMap<String, IndexMap<String, String>>, k: &String) -> (r:
    Option<&'a IndexMap<String, String>>)
    ensures
        match (r, lookup(nested_entries(*m), k@)) {
            (Some(inner), Some(es)) => str_entries(*inner) == es,
            (None, None) => true,
            _ => false,
        },
        r matches Some(inner) ==> distinct_keys(str_entries(*inner)),
{
    m.get(k)
}

/// The entries of a map of string maps, in order (`IndexMap::into_iter`).
#[verifier::external_body]
pub(crate) fn nested_map_into_entries(m: IndexMap<String, IndexMap<String, String>>) -> (r: Vec<
    (String, IndexMap<String, String>),
>)
    ensures
        r@.map_values(|p: (String, IndexMap<String, String>)| (p.0@, str_entries(p.1)))
            == nested_entries(m),
        distinct_keys(r@.map_values(|p: (String, IndexMap<String, String>)| (p.0@, str_entries(p.1)))),
        forall|i: int| 0 <= i < r@.len() ==> distinct_keys(str_entries(#[trigger] r@[i].1)),
{
    m.into_iter().collect()
}

/// `IndexMap::insert` on a map of linking sections.
#[verifier::external_body]
pub(crate) fn link_map_insert(
    m: &mut IndexMap<String, crate::toml_doc::TomlLinking>,
    k: String,
    v: crate::toml_doc::TomlLinking,
)
    ensures
        link_entries(*final(m)) == ins(link_entries(*old(m)), k@, v@),
        distinct_keys(link_entries(*final(m))),
{
    m.insert(k, v);
}

/// The entries of a map of linking sections, in order (`IndexMap::into_iter`).
#[verifier::external_body]
pub(crate) fn link_map_into_entries(m: IndexMap<String, crate::toml_doc::TomlLinking>) -> (r: Vec<
    (String, crate::toml_doc::TomlLinking),
>)
    ensures
        r@.map_values(|p: (String, crate::toml_doc::TomlLinking)| (p.0@, p.1@)) == link_entries(
            m,
        ),
        distinct_keys(r@.map_values(|p: (String, crate::toml_doc::TomlLinking)| (p.0@, p.1@))),
{
    m.into_iter().collect()
}

} // verus!
