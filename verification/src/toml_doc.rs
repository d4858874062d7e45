//! A TOML toolchain template document and `base` inheritance: merging a
//! document over the documents it names as bases.
//!
//! Merge rule: scalars and lists of the overlay win when present; maps are
//! merged entry by entry with the overlay's entries inserted over the base's
//! (an existing key keeps its place, a new one goes last); `[language.*]` and
//! `[compiler.*]` tables merge one level deeper; `base` is not inherited.

use vstd::prelude::*;
use indexmap::IndexMap;
use crate::index_map::{
    ins, link_entries, link_map_insert, link_map_into_entries, list_entries, list_map_insert,
    list_map_into_entries, lookup, nested_entries, nested_map_get, nested_map_insert,
    nested_map_into_entries, str_entries, str_map_clone, str_map_insert, str_map_into_entries,
    str_map_new, string_pairs, LinkingEntryView,
};
use crate::template::{opt_str, str_views};

verus! {

// ── Document types ────────────────────────────────────────────────────────────

/// `base` may be a single string or a list of strings.
pub enum TomlBase {
    Single(String),
    Multiple(Vec<String>),
}

pub enum TomlBaseView {
    Single(Seq<char>),
    Multiple(Seq<Seq<char>>),
}

impl View for TomlBase {
    type V = TomlBaseView;

    open spec fn view(&self) -> TomlBaseView {
        match self {
            TomlBase::Single(s) => TomlBaseView::Single(s@),
            TomlBase::Multiple(v) => TomlBaseView::Multiple(str_views(v@)),
        }
    }
}

/// The names of the bases, in order.
pub open spec fn base_names(b: TomlBaseView) -> Seq<Seq<char>> {
    match b {
        TomlBaseView::Single(s) => seq![s],
        TomlBaseView::Multiple(v) => v,
    }
}

impl TomlBase {
    /// The names of the bases, in order.
    pub fn into_vec(self) -> (r: Vec<String>)
        ensures
            str_views(r@) == base_names(self@),
    {
        match self {
            TomlBase::Single(s) => {
                let ghost sv = s@;
                let mut v: Vec<String> = Vec::new();
                v.push(s);
                assert(str_views(v@) =~= seq![sv]);
                v
            },
            TomlBase::Multiple(v) => v,
        }
    }
}

pub struct TomlStructure {
    pub include_dir: Option<String>,
    pub define: Option<String>,
    pub define_value: Option<String>,
    pub output: Option<String>,
    pub output_obj: Option<String>,
    pub output_bin: Option<String>,
    pub compile_only: Option<String>,
    pub dep_file: Option<String>,
    pub dep_file_mode: Option<String>,
    pub system_lib: Option<String>,
    pub target: Option<String>,
    pub sysroot: Option<String>,
}

pub struct StructureView {
    pub include_dir: Option<Seq<char>>,
    pub define: Option<Seq<char>>,
    pub define_value: Option<Seq<char>>,
    pub output: Option<Seq<char>>,
    pub output_obj: Option<Seq<char>>,
    pub output_bin: Option<Seq<char>>,
    pub compile_only: Option<Seq<char>>,
    pub dep_file: Option<Seq<char>>,
    pub dep_file_mode: Option<Seq<char>>,
    pub system_lib: Option<Seq<char>>,
    pub target: Option<Seq<char>>,
    pub sysroot: Option<Seq<char>>,
}

impl View for TomlStructure {
    type V = StructureView;

    open spec fn view(&self) -> StructureView {
        StructureView {
            include_dir: opt_str(self.include_dir),
            define: opt_str(self.define),
            define_value: opt_str(self.define_value),
            output: opt_str(self.output),
            output_obj: opt_str(self.output_obj),
            output_bin: opt_str(self.output_bin),
            compile_only: opt_str(self.compile_only),
            dep_file: opt_str(self.dep_file),
            dep_file_mode: opt_str(self.dep_file_mode),
            system_lib: opt_str(self.system_lib),
            target: opt_str(self.target),
            sysroot: opt_str(self.sysroot),
        }
    }
}

pub struct TomlDap {
    pub binaries: Vec<String>,
    pub vscode_type: String,
    pub mi_mode: String,
}

pub struct DapView {
    pub binaries: Seq<Seq<char>>,
    pub vscode_type: Seq<char>,
    pub mi_mode: Seq<char>,
}

impl View for TomlDap {
    type V = DapView;

    open spec fn view(&self) -> DapView {
        DapView {
            binaries: str_views(self.binaries@),
            vscode_type: self.vscode_type@,
            mi_mode: self.mi_mode@,
        }
    }
}

pub struct TomlVersion {
    pub argument: Option<String>,
    pub regex: Option<String>,
}

pub struct VersionView {
    pub argument: Option<Seq<char>>,
    pub regex: Option<Seq<char>>,
}

impl View for TomlVersion {
    type V = VersionView;

    open spec fn view(&self) -> VersionView {
        VersionView { argument: opt_str(self.argument), regex: opt_str(self.regex) }
    }
}

pub struct TomlPassthrough {
    pub prefix: Option<String>,
}

impl View for TomlPassthrough {
    type V = Option<Seq<char>>;

    open spec fn view(&self) -> Option<Seq<char>> {
        opt_str(self.prefix)
    }
}

pub struct TomlSanitizer {
    pub options: Option<Vec<String>>,
    pub argument: Option<String>,
}

pub struct SanitizerView {
    pub options: Option<Seq<Seq<char>>>,
    pub argument: Option<Seq<char>>,
}

pub open spec fn opt_strs(o: Option<Vec<String>>) -> Option<Seq<Seq<char>>> {
    match o {
        Some(v) => Some(str_views(v@)),
        None => None,
    }
}

impl View for TomlSanitizer {
    type V = SanitizerView;

    open spec fn view(&self) -> SanitizerView {
        SanitizerView { options: opt_strs(self.options), argument: opt_str(self.argument) }
    }
}

/// A `[linking.<lang>]` section.
#[derive(Clone)]
pub struct TomlLinking {
    pub abi: String,
    pub compatible: Vec<String>,
    pub linker: String,
    pub extensions: Vec<String>,
    pub compile_binary: Option<String>,
}

impl View for TomlLinking {
    type V = LinkingEntryView;

    open spec fn view(&self) -> LinkingEntryView {
        LinkingEntryView {
            abi: self.abi@,
            compatible: str_views(self.compatible@),
            linker: self.linker@,
            extensions: str_views(self.extensions@),
            compile_binary: opt_str(self.compile_binary),
        }
    }
}

/// The full TOML toolchain document.
pub struct TomlToolchain {
    pub name: Option<String>,
    pub family: Option<String>,
    pub alias: Option<String>,
    pub homepage: Option<String>,
    pub kind: Option<String>,
    pub base: Option<TomlBase>,
    pub binary: Option<String>,
    pub version: Option<TomlVersion>,
    pub passthrough: Option<TomlPassthrough>,
    pub sanitizer: Option<TomlSanitizer>,
    pub extensions: Option<Vec<String>>,
    pub always_flags: Option<Vec<String>>,
    pub supported_archs: Option<Vec<String>>,
    pub supported_os: Option<Vec<String>>,
    pub required_tools: Option<Vec<String>>,
    pub required_env: Option<Vec<String>>,
    pub requires_toolchain: Option<Vec<String>>,
    pub debug: Option<String>,
    pub lto: Option<String>,
    pub lto_link: Option<String>,
    pub cpu_ext: Option<String>,
    pub structure: Option<TomlStructure>,
    pub toolset: Option<IndexMap<String, String>>,
    pub arch_flags: Option<IndexMap<String, String>>,
    pub optimization: Option<IndexMap<String, String>>,
    pub warnings: Option<IndexMap<String, String>>,
    pub linking: Option<IndexMap<String, TomlLinking>>,
    /// `[language.std]` → standards map; `[language.modules]` → module params;
    /// `[language.pch]` → PCH params; other entries become language option handlers.
    pub language: Option<IndexMap<String, IndexMap<String, String>>>,
    /// `[compiler.stdlib]` → stdlib flag map; other entries become compiler option handlers.
    pub compiler: Option<IndexMap<String, IndexMap<String, String>>>,
    pub launch: Option<IndexMap<String, String>>,
    pub dap: Option<TomlDap>,
    pub settings: Option<IndexMap<String, String>>,
    pub values: Option<IndexMap<String, Vec<String>>>,
    pub run: Option<IndexMap<String, String>>,
}

pub type StrEntries = Seq<(Seq<char>, Seq<char>)>;

pub type NestedEntries = Seq<(Seq<char>, StrEntries)>;

pub open spec fn opt_map(o: Option<IndexMap<String, String>>) -> Option<StrEntries> {
    match o {
        Some(m) => Some(str_entries(m)),
        None => None,
    }
}

pub open spec fn opt_nested(o: Option<IndexMap<String, IndexMap<String, String>>>) -> Option<
    NestedEntries,
> {
    match o {
        Some(m) => Some(nested_entries(m)),
        None => None,
    }
}

pub open spec fn opt_links(o: Option<IndexMap<String, TomlLinking>>) -> Option<
    Seq<(Seq<char>, LinkingEntryView)>,
> {
    match o {
        Some(m) => Some(link_entries(m)),
        None => None,
    }
}

pub open spec fn opt_lists(o: Option<IndexMap<String, Vec<String>>>) -> Option<
    Seq<(Seq<char>, Seq<Seq<char>>)>,
> {
    match o {
        Some(m) => Some(list_entries(m)),
        None => None,
    }
}

pub open spec fn opt_view_of<T: View>(o: Option<T>) -> Option<T::V> {
    match o {
        Some(x) => Some(x@),
        None => None,
    }
}

pub struct ToolchainDoc {
    pub name: Option<Seq<char>>,
    pub family: Option<Seq<char>>,
    pub alias: Option<Seq<char>>,
    pub homepage: Option<Seq<char>>,
    pub kind: Option<Seq<char>>,
    pub base: Option<TomlBaseView>,
    pub binary: Option<Seq<char>>,
    pub version: Option<VersionView>,
    pub passthrough: Option<Option<Seq<char>>>,
    pub sanitizer: Option<SanitizerView>,
    pub extensions: Option<Seq<Seq<char>>>,
    pub always_flags: Option<Seq<Seq<char>>>,
    pub supported_archs: Option<Seq<Seq<char>>>,
    pub supported_os: Option<Seq<Seq<char>>>,
    pub required_tools: Option<Seq<Seq<char>>>,
    pub required_env: Option<Seq<Seq<char>>>,
    pub requires_toolchain: Option<Seq<Seq<char>>>,
    pub debug: Option<Seq<char>>,
    pub lto: Option<Seq<char>>,
    pub lto_link: Option<Seq<char>>,
    pub cpu_ext: Option<Seq<char>>,
    pub structure: Option<StructureView>,
    pub toolset: Option<StrEntries>,
    pub arch_flags: Option<StrEntries>,
    pub optimization: Option<StrEntries>,
    pub warnings: Option<StrEntries>,
    pub linking: Option<Seq<(Seq<char>, LinkingEntryView)>>,
    pub language: Option<NestedEntries>,
    pub compiler: Option<NestedEntries>,
    pub launch: Option<StrEntries>,
    pub dap: Option<DapView>,
    pub settings: Option<StrEntries>,
    pub values: Option<Seq<(Seq<char>, Seq<Seq<char>>)>>,
    pub run: Option<StrEntries>,
}

impl View for TomlToolchain {
    type V = ToolchainDoc;

    open spec fn view(&self) -> ToolchainDoc {
        ToolchainDoc {
            name: opt_str(self.name),
            family: opt_str(self.family),
            alias: opt_str(self.alias),
            homepage: opt_str(self.homepage),
            kind: opt_str(self.kind),
            base: opt_view_of(self.base),
            binary: opt_str(self.binary),
            version: opt_view_of(self.version),
            passthrough: opt_view_of(self.passthrough),
            sanitizer: opt_view_of(self.sanitizer),
            extensions: opt_strs(self.extensions),
            always_flags: opt_strs(self.always_flags),
            supported_archs: opt_strs(self.supported_archs),
            supported_os: opt_strs(self.supported_os),
            required_tools: opt_strs(self.required_tools),
            required_env: opt_strs(self.required_env),
            requires_toolchain: opt_strs(self.requires_toolchain),
            debug: opt_str(self.debug),
            lto: opt_str(self.lto),
            lto_link: opt_str(self.lto_link),
            cpu_ext: opt_str(self.cpu_ext),
            structure: opt_view_of(self.structure),
            toolset: opt_map(self.toolset),
            arch_flags: opt_map(self.arch_flags),
            optimization: opt_map(self.optimization),
            warnings: opt_map(self.warnings),
            linking: opt_links(self.linking),
            language: opt_nested(self.language),
            compiler: opt_nested(self.compiler),
            launch: opt_map(self.launch),
            dap: opt_view_of(self.dap),
            settings: opt_map(self.settings),
            values: opt_lists(self.values),
            run: opt_map(self.run),
        }
    }
}

impl TomlToolchain {
    /// The document with no field set.
    pub fn empty() -> (r: TomlToolchain)
        ensures
            r@ == empty_doc(),
    {
        TomlToolchain {
            name: None,
            family: None,
            alias: None,
            homepage: None,
            kind: None,
            base: None,
            binary: None,
            version: None,
            passthrough: None,
            sanitizer: None,
            extensions: None,
            always_flags: None,
            supported_archs: None,
            supported_os: None,
            required_tools: None,
            required_env: None,
            requires_toolchain: None,
            debug: None,
            lto: None,
            lto_link: None,
            cpu_ext: None,
            structure: None,
            toolset: None,
            arch_flags: None,
            optimization: None,
            warnings: None,
            linking: None,
            language: None,
            compiler: None,
            launch: None,
            dap: None,
            settings: None,
            values: None,
            run: None,
        }
    }
}

pub open spec fn empty_doc() -> ToolchainDoc {
    ToolchainDoc {
        name: None,
        family: None,
        alias: None,
        homepage: None,
        kind: None,
        base: None,
        binary: None,
        version: None,
        passthrough: None,
        sanitizer: None,
        extensions: None,
        always_flags: None,
        supported_archs: None,
        supported_os: None,
        required_tools: None,
        required_env: None,
        requires_toolchain: None,
        debug: None,
        lto: None,
        lto_link: None,
        cpu_ext: None,
        structure: None,
        toolset: None,
        arch_flags: None,
        optimization: None,
        warnings: None,
        linking: None,
        language: None,
        compiler: None,
        launch: None,
        dap: None,
        settings: None,
        values: None,
        run: None,
    }
}

// ── Merge specification ───────────────────────────────────────────────────────

/// The overlay's value when it has one, else the base's.
pub open spec fn pick<T>(overlay: Option<T>, base: Option<T>) -> Option<T> {
    match overlay {
        Some(x) => Some(x),
        None => base,
    }
}

/// `entries` with each of `news` inserted in order.
pub open spec fn ins_all<V>(entries: Seq<(Seq<char>, V)>, news: Seq<(Seq<char>, V)>) -> Seq<
    (Seq<char>, V),
>
    decreases news.len(),
{
    if news.len() == 0 {
        entries
    } else {
        let e = ins_all(entries, news.drop_last());
        ins(e, news.last().0, news.last().1)
    }
}

/// Two optional maps merged: one side alone is kept, both are combined by
/// inserting the overlay's entries into the base's.
pub open spec fn merge_entries<V>(
    base: Option<Seq<(Seq<char>, V)>>,
    overlay: Option<Seq<(Seq<char>, V)>>,
) -> Option<Seq<(Seq<char>, V)>> {
    match (base, overlay) {
        (None, v) => v,
        (v, None) => v,
        (Some(b), Some(o)) => Some(ins_all(b, o)),
    }
}

/// One `[table.key]` of the overlay merged into the base's table of tables.
pub open spec fn ins_nested(
    entries: NestedEntries,
    k: Seq<char>,
    inner: StrEntries,
) -> NestedEntries {
    let existing = match lookup(entries, k) {
        Some(es) => es,
        None => Seq::empty(),
    };
    ins(entries, k, ins_all(existing, inner))
}

pub open spec fn ins_nested_all(entries: NestedEntries, news: NestedEntries) -> NestedEntries
    decreases news.len(),
{
    if news.len() == 0 {
        entries
    } else {
        let e = ins_nested_all(entries, news.drop_last());
        ins_nested(e, news.last().0, news.last().1)
    }
}

pub open spec fn merge_nested_spec(base: Option<NestedEntries>, overlay: Option<NestedEntries>) -> Option<
    NestedEntries,
> {
    match (base, overlay) {
        (None, v) => v,
        (v, None) => v,
        (Some(b), Some(o)) => Some(ins_nested_all(b, o)),
    }
}

pub open spec fn merge_version_spec(base: Option<VersionView>, overlay: Option<VersionView>) -> Option<
    VersionView,
> {
    match (base, overlay) {
        (None, v) => v,
        (v, None) => v,
        (Some(b), Some(o)) => Some(
            VersionView { argument: pick(o.argument, b.argument), regex: pick(o.regex, b.regex) },
        ),
    }
}

pub open spec fn merge_passthrough_spec(
    base: Option<Option<Seq<char>>>,
    overlay: Option<Option<Seq<char>>>,
) -> Option<Option<Seq<char>>> {
    match (base, overlay) {
        (None, v) => v,
        (v, None) => v,
        (Some(b), Some(o)) => Some(pick(o, b)),
    }
}

pub open spec fn merge_sanitizer_spec(
    base: Option<SanitizerView>,
    overlay: Option<SanitizerView>,
) -> Option<SanitizerView> {
    match (base, overlay) {
        (None, v) => v,
        (v, None) => v,
        (Some(b), Some(o)) => Some(
            SanitizerView {
                options: pick(o.options, b.options),
                argument: pick(o.argument, b.argument),
            },
        ),
    }
}

pub open spec fn merge_structure_spec(
    base: Option<StructureView>,
    overlay: Option<StructureView>,
) -> Option<StructureView> {
    match (base, overlay) {
        (None, v) => v,
        (v, None) => v,
        (Some(b), Some(o)) => Some(
            StructureView {
                include_dir: pick(o.include_dir, b.include_dir),
                define: pick(o.define, b.define),
                define_value: pick(o.define_value, b.define_value),
                output: pick(o.output, b.output),
                output_obj: pick(o.output_obj, b.output_obj),
                output_bin: pick(o.output_bin, b.output_bin),
                compile_only: pick(o.compile_only, b.compile_only),
                dep_file: pick(o.dep_file, b.dep_file),
                dep_file_mode: pick(o.dep_file_mode, b.dep_file_mode),
                system_lib: pick(o.system_lib, b.system_lib),
                target: pick(o.target, b.target),
                sysroot: pick(o.sysroot, b.sysroot),
            },
        ),
    }
}

/// `overlay` merged on top of `base`.
pub open spec fn merge_spec(b: ToolchainDoc, o: ToolchainDoc) -> ToolchainDoc {
    ToolchainDoc {
        name: pick(o.name, b.name),
        family: pick(o.family, b.family),
        alias: pick(o.alias, b.alias),
        homepage: pick(o.homepage, b.homepage),
        kind: pick(o.kind, b.kind),
        base: o.base,
        binary: pick(o.binary, b.binary),
        version: merge_version_spec(b.version, o.version),
        passthrough: merge_passthrough_spec(b.passthrough, o.passthrough),
        sanitizer: merge_sanitizer_spec(b.sanitizer, o.sanitizer),
        extensions: pick(o.extensions, b.extensions),
        always_flags: pick(o.always_flags, b.always_flags),
        supported_archs: pick(o.supported_archs, b.supported_archs),
        supported_os: pick(o.supported_os, b.supported_os),
        required_tools: pick(o.required_tools, b.required_tools),
        required_env: pick(o.required_env, b.required_env),
        requires_toolchain: pick(o.requires_toolchain, b.requires_toolchain),
        debug: pick(o.debug, b.debug),
        lto: pick(o.lto, b.lto),
        lto_link: pick(o.lto_link, b.lto_link),
        cpu_ext: pick(o.cpu_ext, b.cpu_ext),
        structure: merge_structure_spec(b.structure, o.structure),
        toolset: merge_entries(b.toolset, o.toolset),
        arch_flags: merge_entries(b.arch_flags, o.arch_flags),
        optimization: merge_entries(b.optimization, o.optimization),
        warnings: merge_entries(b.warnings, o.warnings),
        linking: merge_entries(b.linking, o.linking),
        language: merge_nested_spec(b.language, o.language),
        compiler: merge_nested_spec(b.compiler, o.compiler),
        launch: merge_entries(b.launch, o.launch),
        dap: pick(o.dap, b.dap),
        settings: merge_entries(b.settings, o.settings),
        values: merge_entries(b.values, o.values),
        run: merge_entries(b.run, o.run),
    }
}

// ── Merge ─────────────────────────────────────────────────────────────────────

fn pick_exec<T>(overlay: Option<T>, base: Option<T>) -> (r: Option<T>)
    ensures
        r == pick(overlay, base),
{
    match overlay {
        Some(x) => Some(x),
        None => base,
    }
}

fn merge_str_maps(base: Option<IndexMap<String, String>>, overlay: Option<IndexMap<String, String>>) -> (r:
    Option<IndexMap<String, String>>)
    ensures
        opt_map(r) == merge_entries(opt_map(base), opt_map(overlay)),
{
    match (base, overlay) {
        (None, v) => v,
        (v, None) => v,
        (Some(b), Some(o)) => {
            let ghost os = str_entries(o);
            let mut m = b;
            insert_all_str(&mut m, o);
            Some(m)
        },
    }
}

/// Inserts every entry of `o`, in order, into `m`.
fn insert_all_str(m: &mut IndexMap<String, String>, o: IndexMap<String, String>)
    ensures
        str_entries(*final(m)) == ins_all(str_entries(*old(m)), str_entries(o)),
{
    let ghost os = str_entries(o);
    let ghost start = str_entries(*m);
    let mut es = str_map_into_entries(o);
    let mut i: usize = 0;
    let ghost all = es@;
    let n = es.len();
    assert(all.len() == n);
    while es.len() > 0
        invariant
            string_pairs(all) == os,
            i + es.len() == all.len(),
            all.len() <= usize::MAX,
            es@ == all.subrange(i as int, all.len() as int),
            str_entries(*m) == ins_all(start, os.subrange(0, i as int)),
        decreases es.len(),
    {
        let (k, v) = es.remove(0);
        proof {
            assert(all[i as int] == (k, v));
            assert(os.subrange(0, i + 1).drop_last() =~= os.subrange(0, i as int));
            assert(os[i as int] == (k@, v@));
        }
        str_map_insert(m, k, v);
        i = i + 1;
        proof {
            assert(es@ =~= all.subrange(i as int, all.len() as int));
        }
    }
    assert(os.subrange(0, i as int) =~= os);
}

fn merge_list_maps(
    base: Option<IndexMap<String, Vec<String>>>,
    overlay: Option<IndexMap<String, Vec<String>>>,
) -> (r: Option<IndexMap<String, Vec<String>>>)
    ensures
        opt_lists(r) == merge_entries(opt_lists(base), opt_lists(overlay)),
{
    match (base, overlay) {
        (None, v) => v,
        (v, None) => v,
        (Some(b), Some(o)) => {
            let ghost os = list_entries(o);
            let ghost start = list_entries(b);
            let mut m = b;
            let mut es = list_map_into_entries(o);
            let ghost all = es@;
            let n = es.len();
            assert(all.len() == n);
            let mut i: usize = 0;
            while es.len() > 0
                invariant
                    all.map_values(|p: (String, Vec<String>)| (p.0@, p.1@.map_values(|s: String| s@)))
                        == os,
                    i + es.len() == all.len(),
                    all.len() <= usize::MAX,
                    es@ == all.subrange(i as int, all.len() as int),
                    list_entries(m) == ins_all(start, os.subrange(0, i as int)),
                decreases es.len(),
            {
                let (k, v) = es.remove(0);
                proof {
                    assert(all[i as int] == (k, v));
                    assert(os.subrange(0, i + 1).drop_last() =~= os.subrange(0, i as int));
                }
                list_map_insert(&mut m, k, v);
                i = i + 1;
                proof {
                    assert(es@ =~= all.subrange(i as int, all.len() as int));
                }
            }
            assert(os.subrange(0, i as int) =~= os);
            Some(m)
        },
    }
}

fn merge_link_maps(
    base: Option<IndexMap<String, TomlLinking>>,
    overlay: Option<IndexMap<String, TomlLinking>>,
) -> (r: Option<IndexMap<String, TomlLinking>>)
    ensures
        opt_links(r) == merge_entries(opt_links(base), opt_links(overlay)),
{
    match (base, overlay) {
        (None, v) => v,
        (v, None) => v,
        (Some(b), Some(o)) => {
            let ghost os = link_entries(o);
            let ghost start = link_entries(b);
            let mut m = b;
            let mut es = link_map_into_entries(o);
            let ghost all = es@;
            let n = es.len();
            assert(all.len() == n);
            let mut i: usize = 0;
            while es.len() > 0
                invariant
                    all.map_values(|p: (String, TomlLinking)| (p.0@, p.1@)) == os,
                    i + es.len() == all.len(),
                    all.len() <= usize::MAX,
                    es@ == all.subrange(i as int, all.len() as int),
                    link_entries(m) == ins_all(start, os.subrange(0, i as int)),
                decreases es.len(),
            {
                let (k, v) = es.remove(0);
                proof {
                    assert(all[i as int] == (k, v));
                    assert(os.subrange(0, i + 1).drop_last() =~= os.subrange(0, i as int));
                }
                link_map_insert(&mut m, k, v);
                i = i + 1;
                proof {
                    assert(es@ =~= all.subrange(i as int, all.len() as int));
                }
            }
            assert(os.subrange(0, i as int) =~= os);
            Some(m)
        },
    }
}

fn merge_nested_maps(
    base: Option<IndexMap<String, IndexMap<String, String>>>,
    overlay: Option<IndexMap<String, IndexMap<String, String>>>,
) -> (r: Option<IndexMap<String, IndexMap<String, String>>>)
    ensures
        opt_nested(r) == merge_nested_spec(opt_nested(base), opt_nested(overlay)),
{
    match (base, overlay) {
        (None, v) => v,
        (v, None) => v,
        (Some(b), Some(o)) => {
            let ghost os = nested_entries(o);
            let ghost start = nested_entries(b);
            let mut m = b;
            let mut es = nested_map_into_entries(o);
            let ghost all = es@;
            let n = es.len();
            assert(all.len() == n);
            let mut i: usize = 0;
            while es.len() > 0
                invariant
                    all.map_values(|p: (String, IndexMap<String, String>)| (p.0@, str_entries(p.1)))
                        == os,
                    i + es.len() == all.len(),
                    all.len() <= usize::MAX,
                    es@ == all.subrange(i as int, all.len() as int),
                    nested_entries(m) == ins_nested_all(start, os.subrange(0, i as int)),
                decreases es.len(),
            {
                let (k, inner) = es.remove(0);
                proof {
                    assert(all[i as int] == (k, inner));
                    assert(os.subrange(0, i + 1).drop_last() =~= os.subrange(0, i as int));
                }
                let mut entry = match nested_map_get(&m, &k) {
                    Some(existing) => str_map_clone(existing),
                    None => str_map_new(),
                };
                insert_all_str(&mut entry, inner);
                nested_map_insert(&mut m, k, entry);
                i = i + 1;
                proof {
                    assert(es@ =~= all.subrange(i as int, all.len() as int));
                }
            }
            assert(os.subrange(0, i as int) =~= os);
            Some(m)
        },
    }
}

fn merge_version(base: Option<TomlVersion>, overlay: Option<TomlVersion>) -> (r: Option<TomlVersion>)
    ensures
        opt_view_of(r) == merge_version_spec(opt_view_of(base), opt_view_of(overlay)),
{
    match (base, overlay) {
        (None, v) => v,
        (v, None) => v,
        (Some(b), Some(o)) => Some(
            TomlVersion {
                argument: pick_exec(o.argument, b.argument),
                regex: pick_exec(o.regex, b.regex),
            },
        ),
    }
}

fn merge_passthrough(base: Option<TomlPassthrough>, overlay: Option<TomlPassthrough>) -> (r: Option<
    TomlPassthrough,
>)
    ensures
        opt_view_of(r) == merge_passthrough_spec(opt_view_of(base), opt_view_of(overlay)),
{
    match (base, overlay) {
        (None, v) => v,
        (v, None) => v,
        (Some(b), Some(o)) => Some(TomlPassthrough { prefix: pick_exec(o.prefix, b.prefix) }),
    }
}

fn merge_sanitizer(base: Option<TomlSanitizer>, overlay: Option<TomlSanitizer>) -> (r: Option<
    TomlSanitizer,
>)
    ensures
        opt_view_of(r) == merge_sanitizer_spec(opt_view_of(base), opt_view_of(overlay)),
{
    match (base, overlay) {
        (None, v) => v,
        (v, None) => v,
        (Some(b), Some(o)) => Some(
            TomlSanitizer {
                options: pick_exec(o.options, b.options),
                argument: pick_exec(o.argument, b.argument),
            },
        ),
    }
}

/// Merges two `[structure]` tables, the overlay's fields winning.
pub fn merge_structure(base: Option<TomlStructure>, overlay: Option<TomlStructure>) -> (r: Option<
    TomlStructure,
>)
    ensures
        opt_view_of(r) == merge_structure_spec(opt_view_of(base), opt_view_of(overlay)),
{
    match (base, overlay) {
        (None, v) => v,
        (v, None) => v,
        (Some(b), Some(o)) => Some(
            TomlStructure {
                include_dir: pick_exec(o.include_dir, b.include_dir),
                define: pick_exec(o.define, b.define),
                define_value: pick_exec(o.define_value, b.define_value),
                output: pick_exec(o.output, b.output),
                output_obj: pick_exec(o.output_obj, b.output_obj),
                output_bin: pick_exec(o.output_bin, b.output_bin),
                compile_only: pick_exec(o.compile_only, b.compile_only),
                dep_file: pick_exec(o.dep_file, b.dep_file),
                dep_file_mode: pick_exec(o.dep_file_mode, b.dep_file_mode),
                system_lib: pick_exec(o.system_lib, b.system_lib),
                target: pick_exec(o.target, b.target),
                sysroot: pick_exec(o.sysroot, b.sysroot),
            },
        ),
    }
}

/// Merges `overlay` on top of `base`. Scalar fields: overlay wins. Arrays:
/// overlay replaces (when present). Maps: entries merged (base provides
/// defaults).
#[verifier::rlimit(100)]
pub fn merge(base: TomlToolchain, overlay: TomlToolchain) -> (r: TomlToolchain)
    ensures
        r@ == merge_spec(base@, overlay@),
{
    let ghost bv = base@;
    let ghost ov = overlay@;
    let r = TomlToolchain {
        name: pick_exec(overlay.name, base.name),
        family: pick_exec(overlay.family, base.family),
        alias: pick_exec(overlay.alias, base.alias),
        homepage: pick_exec(overlay.homepage, base.homepage),
        kind: pick_exec(overlay.kind, base.kind),
        base: overlay.base,
        binary: pick_exec(overlay.binary, base.binary),
        version: merge_version(base.version, overlay.version),
        passthrough: merge_passthrough(base.passthrough, overlay.passthrough),
        sanitizer: merge_sanitizer(base.sanitizer, overlay.sanitizer),
        extensions: pick_exec(overlay.extensions, base.extensions),
        always_flags: pick_exec(overlay.always_flags, base.always_flags),
        supported_archs: pick_exec(overlay.supported_archs, base.supported_archs),
        supported_os: pick_exec(overlay.supported_os, base.supported_os),
        required_tools: pick_exec(overlay.required_tools, base.required_tools),
        required_env: pick_exec(overlay.required_env, base.required_env),
        requires_toolchain: pick_exec(overlay.requires_toolchain, base.requires_toolchain),
        debug: pick_exec(overlay.debug, base.debug),
        lto: pick_exec(overlay.lto, base.lto),
        lto_link: pick_exec(overlay.lto_link, base.lto_link),
        cpu_ext: pick_exec(overlay.cpu_ext, base.cpu_ext),
        structure: merge_structure(base.structure, overlay.structure),
        toolset: merge_str_maps(base.toolset, overlay.toolset),
        arch_flags: merge_str_maps(base.arch_flags, overlay.arch_flags),
        optimization: merge_str_maps(base.optimization, overlay.optimization),
        warnings: merge_str_maps(base.warnings, overlay.warnings),
        linking: merge_link_maps(base.linking, overlay.linking),
        language: merge_nested_maps(base.language, overlay.language),
        compiler: merge_nested_maps(base.compiler, overlay.compiler),
        launch: merge_str_maps(base.launch, overlay.launch),
        dap: pick_exec(overlay.dap, base.dap),
        settings: merge_str_maps(base.settings, overlay.settings),
        values: merge_list_maps(base.values, overlay.values),
        run: merge_str_maps(base.run, overlay.run),
    };
    r
}

} // verus!
