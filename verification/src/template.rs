//! The toolchain definition that every compiler template describes, and the
//! checked constructor of a [`CompilerTemplate`].

use vstd::prelude::*;
use crate::expr::{parse_u64, parse_u64_exec};
use crate::text::{
    chars_of, concat, eq_str, find_char_from, find_char_from_exec, lemma_find_char_from_b, owned,
    slice_copy, string_of,
};

verus! {

broadcast use lemma_find_char_from_b;

// ── Views of string collections ───────────────────────────────────────────────

/// The character sequences of a list of strings.
pub open spec fn str_views(v: Seq<String>) -> Seq<Seq<char>> {
    v.map_values(|s: String| s@)
}

/// The character sequence of an optional string.
pub open spec fn opt_str(o: Option<String>) -> Option<Seq<char>> {
    match o {
        Some(s) => Some(s@),
        None => None,
    }
}

/// Appends an owned copy of `x`.
pub fn push_str(v: &mut Vec<String>, x: &str)
    ensures
        str_views(final(v)@) == str_views(old(v)@).push(x@),
{
    let ghost before = v@;
    v.push(owned(x));
    assert(str_views(v@) =~= str_views(before).push(x@));
}

/// Appends a string.
pub fn push_string(v: &mut Vec<String>, x: String)
    ensures
        str_views(final(v)@) == str_views(old(v)@).push(x@),
{
    let ghost before = v@;
    v.push(x);
    assert(str_views(v@) =~= str_views(before).push(x@));
}

// ── Flag maps ─────────────────────────────────────────────────────────────────

/// A map from option values to flag strings. Entries are kept in insertion
/// order; a later entry for a key overrides an earlier one.
pub struct FlagMap {
    entries: Vec<(String, String)>,
}

/// The map that a list of `(key, value)` insertions builds.
pub open spec fn map_of(es: Seq<(String, String)>) -> Map<Seq<char>, Seq<char>>
    decreases es.len(),
{
    if es.len() == 0 {
        Map::empty()
    } else {
        map_of(es.drop_last()).insert(es.last().0@, es.last().1@)
    }
}

impl View for FlagMap {
    type V = Map<Seq<char>, Seq<char>>;

    closed spec fn view(&self) -> Map<Seq<char>, Seq<char>> {
        map_of(self.entries@)
    }
}

proof fn lemma_map_of_dom_empty(es: Seq<(String, String)>)
    ensures
        (es.len() == 0) <==> map_of(es).dom() =~= Set::<Seq<char>>::empty(),
    decreases es.len(),
{
    if es.len() > 0 {
        assert(map_of(es).dom().contains(es.last().0@));
    }
}

impl FlagMap {
    /// An empty map.
    pub fn new() -> (r: FlagMap)
        ensures
            r@ == Map::<Seq<char>, Seq<char>>::empty(),
    {
        FlagMap { entries: Vec::new() }
    }

    /// Sets `k` to `v`.
    pub fn insert(&mut self, k: String, v: String)
        ensures
            final(self)@ == old(self)@.insert(k@, v@),
    {
        let ghost before = self.entries@;
        self.entries.push((k, v));
        assert(self.entries@.drop_last() == before);
    }

    /// Sets `k` to `v`, copying both.
    pub fn put(&mut self, k: &str, v: &str)
        ensures
            final(self)@ == old(self)@.insert(k@, v@),
    {
        self.insert(owned(k), owned(v));
    }

    /// Removes every entry.
    pub fn clear(&mut self)
        ensures
            final(self)@ == Map::<Seq<char>, Seq<char>>::empty(),
    {
        self.entries = Vec::new();
    }

    /// Whether the map has no entry.
    pub fn is_empty(&self) -> (r: bool)
        ensures
            r == (self@.dom() =~= Set::<Seq<char>>::empty()),
    {
        proof {
            lemma_map_of_dom_empty(self.entries@);
        }
        self.entries.len() == 0
    }

    /// The value of `k`.
    pub fn get(&self, k: &str) -> (r: Option<&String>)
        ensures
            r matches Some(v) ==> self@.dom().contains(k@) && self@[k@] == v@,
            r is None ==> !self@.dom().contains(k@),
    {
        let mut n = self.entries.len();
        while n > 0
            invariant
                n <= self.entries.len(),
                forall|j: int|
                    n <= j < self.entries.len() ==> #[trigger] self.entries@[j].0@ != k@,
            decreases n,
        {
            if eq_str(&chars_of(self.entries[n - 1].0.as_str()), k) {
                proof {
                    lemma_map_of_last(self.entries@, (n - 1) as int, k@);
                }
                return Some(&self.entries[n - 1].1);
            }
            n = n - 1;
        }
        proof {
            lemma_map_of_absent(self.entries@, k@);
        }
        None
    }

    /// Whether `k` has a value.
    pub fn contains_key(&self, k: &str) -> (r: bool)
        ensures
            r == self@.dom().contains(k@),
    {
        self.get(k).is_some()
    }
}

proof fn lemma_map_of_last(es: Seq<(String, String)>, i: int, k: Seq<char>)
    requires
        0 <= i < es.len(),
        es[i].0@ == k,
        forall|j: int| i < j < es.len() ==> #[trigger] es[j].0@ != k,
    ensures
        map_of(es).dom().contains(k),
        map_of(es)[k] == es[i].1@,
    decreases es.len(),
{
    if i < es.len() - 1 {
        assert(es.drop_last()[i] == es[i]);
        assert forall|j: int| i < j < es.drop_last().len() implies #[trigger] es.drop_last()[j].0@
            != k by {
            assert(es.drop_last()[j] == es[j]);
        }
        lemma_map_of_last(es.drop_last(), i, k);
        assert(es[es.len() - 1].0@ != k);
    }
}

proof fn lemma_map_of_absent(es: Seq<(String, String)>, k: Seq<char>)
    requires
        forall|j: int| 0 <= j < es.len() ==> #[trigger] es[j].0@ != k,
    ensures
        !map_of(es).dom().contains(k),
    decreases es.len(),
{
    if es.len() > 0 {
        assert forall|j: int| 0 <= j < es.drop_last().len() implies #[trigger] es.drop_last()[j].0@
            != k by {
            assert(es.drop_last()[j] == es[j]);
        }
        lemma_map_of_absent(es.drop_last(), k);
        assert(es[es.len() - 1].0@ != k);
    }
}

// ── Option handlers ───────────────────────────────────────────────────────────

/// The built-in handlers that turn a manifest option value into flags.
#[derive(PartialEq, Eq, Structural, Clone, Copy)]
pub enum HandlerFn {
    /// Rejects an `arch` value that differs from the effective target arch.
    ArchCheck,
    /// `lto_mode`: `thin` (Clang 3.9 and later) or `full`.
    LtoMode,
    /// `dip1000 = true` enables `-preview=dip1000`.
    Dip1000,
}

/// A manifest option handler: its default value and its flag computation.
pub struct OptionHandler {
    pub default_value: Option<String>,
    pub callback: HandlerFn,
}

pub struct HandlerView {
    pub default_value: Option<Seq<char>>,
    pub callback: HandlerFn,
}

impl View for OptionHandler {
    type V = HandlerView;

    open spec fn view(&self) -> HandlerView {
        HandlerView { default_value: opt_str(self.default_value), callback: self.callback }
    }
}

/// The first dot-separated component of `s` and what follows its dot.
pub open spec fn first_component(s: Seq<char>) -> (Seq<char>, Option<Seq<char>>) {
    match find_char_from(s, '.', 0) {
        Some(i) => (s.subrange(0, i), Some(s.subrange(i + 1, s.len() as int))),
        None => (s, None),
    }
}

/// `str::parse::<u32>` (0 when it fails, as the handlers use it).
pub open spec fn parse_u32_or_zero(c: Seq<char>) -> int {
    match parse_u64(c) {
        Some(v) => if v <= u32::MAX {
            v
        } else {
            0
        },
        None => 0,
    }
}

/// Major and minor number of a dotted version (missing or bad parts are 0).
pub open spec fn major_minor(ver: Seq<char>) -> (int, int) {
    let (a, rest) = first_component(ver);
    let minor = match rest {
        Some(r) => parse_u32_or_zero(first_component(r).0),
        None => 0,
    };
    (parse_u32_or_zero(a), minor)
}

pub open spec fn arch_error(v: Seq<char>, arch: Seq<char>, name: Seq<char>) -> Seq<char> {
    "assembler '"@ + name + "' requires arch '"@ + v + "' but the effective target is '"@ + arch
        + "'"@
}

/// What a handler yields for option value `v` with the detected compiler
/// version `ver`, the target `arch` and `os`, and the toolchain `name`.
pub open spec fn handler_result(
    f: HandlerFn,
    v: Seq<char>,
    ver: Seq<char>,
    arch: Seq<char>,
    name: Seq<char>,
) -> Result<Seq<Seq<char>>, Seq<char>> {
    match f {
        HandlerFn::ArchCheck => if v.len() > 0 && arch != v {
            Err(arch_error(v, arch, name))
        } else {
            Ok(seq![])
        },
        HandlerFn::LtoMode => if v == "thin"@ {
            let (major, minor) = major_minor(ver);
            if major > 3 || (major == 3 && minor >= 9) {
                Ok(seq!["-flto=thin"@])
            } else {
                Ok(seq![])
            }
        } else if v == "full"@ {
            Ok(seq!["-flto=full"@])
        } else {
            Ok(seq![])
        },
        HandlerFn::Dip1000 => if v == "true"@ {
            Ok(seq!["-preview=dip1000"@])
        } else {
            Ok(seq![])
        },
    }
}

fn first_component_exec(s: &Vec<char>) -> (r: (Vec<char>, Option<Vec<char>>))
    ensures
        r.0@ == first_component(s@).0,
        crate::expr::opt_view(r.1) == first_component(s@).1,
{
    match find_char_from_exec(s, '.', 0) {
        Some(i) => (slice_copy(s, 0, i), Some(slice_copy(s, i + 1, s.len()))),
        None => {
            assert(s@.subrange(0, s.len() as int) == s@);
            (slice_copy(s, 0, s.len()), None)
        },
    }
}

fn parse_u32_or_zero_exec(c: &Vec<char>) -> (r: u32)
    ensures
        r as int == parse_u32_or_zero(c@),
{
    match parse_u64_exec(c) {
        Some(v) => if v <= 0xffff_ffffu64 {
            v as u32
        } else {
            0
        },
        None => 0,
    }
}

impl HandlerFn {
    /// Runs the handler on option value `v`.
    pub fn call(&self, v: &str, ver: &str, arch: &str, os: &str, name: &str) -> (r: Result<
        Vec<String>,
        String,
    >)
        ensures
            match (r, handler_result(*self, v@, ver@, arch@, name@)) {
                (Ok(flags), Ok(expected)) => str_views(flags@) == expected,
                (Err(m), Err(expected)) => m@ == expected,
                _ => false,
            },
    {
        match self {
            HandlerFn::ArchCheck => {
                if !v.is_empty() && !eq_str(&chars_of(arch), v) {
                    let mut m = chars_of("assembler '");
                    m = concat(&m, &chars_of(name));
                    m = concat(&m, &chars_of("' requires arch '"));
                    m = concat(&m, &chars_of(v));
                    m = concat(&m, &chars_of("' but the effective target is '"));
                    m = concat(&m, &chars_of(arch));
                    m = concat(&m, &chars_of("'"));
                    Err(string_of(&m))
                } else {
                    proof {
                        assert(v@.len() == 0 || arch@ == v@);
                    }
                    let out: Vec<String> = Vec::new();
                    assert(str_views(out@) =~= Seq::<Seq<char>>::empty());
                    Ok(out)
                }
            },
            HandlerFn::LtoMode => {
                let mut out: Vec<String> = Vec::new();
                if eq_str(&chars_of(v), "thin") {
                    let (a, rest) = first_component_exec(&chars_of(ver));
                    let major = parse_u32_or_zero_exec(&a);
                    let minor = match rest {
                        Some(r) => parse_u32_or_zero_exec(&first_component_exec(&r).0),
                        None => 0,
                    };
                    if major > 3 || (major == 3 && minor >= 9) {
                        push_str(&mut out, "-flto=thin");
                    }
                } else if eq_str(&chars_of(v), "full") {
                    push_str(&mut out, "-flto=full");
                }
                assert(str_views(Seq::<String>::empty()) =~= Seq::<Seq<char>>::empty());
                Ok(out)
            },
            HandlerFn::Dip1000 => {
                let mut out: Vec<String> = Vec::new();
                if eq_str(&chars_of(v), "true") {
                    push_str(&mut out, "-preview=dip1000");
                }
                assert(str_views(Seq::<String>::empty()) =~= Seq::<Seq<char>>::empty());
                Ok(out)
            },
        }
    }
}

/// Option handlers by option name; a later entry overrides an earlier one.
pub struct HandlerMap {
    entries: Vec<(String, OptionHandler)>,
}

pub open spec fn handler_map_of(es: Seq<(String, OptionHandler)>) -> Map<Seq<char>, HandlerView>
    decreases es.len(),
{
    if es.len() == 0 {
        Map::empty()
    } else {
        handler_map_of(es.drop_last()).insert(es.last().0@, es.last().1@)
    }
}

impl View for HandlerMap {
    type V = Map<Seq<char>, HandlerView>;

    closed spec fn view(&self) -> Map<Seq<char>, HandlerView> {
        handler_map_of(self.entries@)
    }
}

impl HandlerMap {
    pub fn new() -> (r: HandlerMap)
        ensures
            r@ == Map::<Seq<char>, HandlerView>::empty(),
    {
        HandlerMap { entries: Vec::new() }
    }

    /// Registers handler `h` for option `k`.
    pub fn insert(&mut self, k: String, h: OptionHandler)
        ensures
            final(self)@ == old(self)@.insert(k@, h@),
    {
        let ghost before = self.entries@;
        self.entries.push((k, h));
        assert(self.entries@.drop_last() == before);
    }

    /// The handler of option `k`.
    pub fn get(&self, k: &str) -> (r: Option<&OptionHandler>)
        ensures
            r matches Some(h) ==> self@.dom().contains(k@) && self@[k@] == h@,
            r is None ==> !self@.dom().contains(k@),
    {
        let mut n = self.entries.len();
        while n > 0
            invariant
                n <= self.entries.len(),
                forall|j: int|
                    n <= j < self.entries.len() ==> #[trigger] self.entries@[j].0@ != k@,
            decreases n,
        {
            if eq_str(&chars_of(self.entries[n - 1].0.as_str()), k) {
                proof {
                    lemma_handler_map_of_last(self.entries@, (n - 1) as int, k@);
                }
                return Some(&self.entries[n - 1].1);
            }
            n = n - 1;
        }
        proof {
            lemma_handler_map_of_absent(self.entries@, k@);
        }
        None
    }

    /// Whether option `k` has a handler.
    pub fn contains_key(&self, k: &str) -> (r: bool)
        ensures
            r == self@.dom().contains(k@),
    {
        let mut n = self.entries.len();
        while n > 0
            invariant
                n <= self.entries.len(),
                forall|j: int|
                    n <= j < self.entries.len() ==> #[trigger] self.entries@[j].0@ != k@,
            decreases n,
        {
            if eq_str(&chars_of(self.entries[n - 1].0.as_str()), k) {
                proof {
                    lemma_handler_map_of_last(self.entries@, (n - 1) as int, k@);
                }
                return true;
            }
            n = n - 1;
        }
        proof {
            lemma_handler_map_of_absent(self.entries@, k@);
        }
        false
    }
}

proof fn lemma_handler_map_of_last(es: Seq<(String, OptionHandler)>, i: int, k: Seq<char>)
    requires
        0 <= i < es.len(),
        es[i].0@ == k,
        forall|j: int| i < j < es.len() ==> #[trigger] es[j].0@ != k,
    ensures
        handler_map_of(es).dom().contains(k),
        handler_map_of(es)[k] == es[i].1@,
    decreases es.len(),
{
    if i < es.len() - 1 {
        assert(es.drop_last()[i] == es[i]);
        assert forall|j: int| i < j < es.drop_last().len() implies #[trigger] es.drop_last()[j].0@
            != k by {
            assert(es.drop_last()[j] == es[j]);
        }
        lemma_handler_map_of_last(es.drop_last(), i, k);
    }
}

proof fn lemma_handler_map_of_absent(es: Seq<(String, OptionHandler)>, k: Seq<char>)
    requires
        forall|j: int| 0 <= j < es.len() ==> #[trigger] es[j].0@ != k,
    ensures
        !handler_map_of(es).dom().contains(k),
    decreases es.len(),
{
    if es.len() > 0 {
        assert forall|j: int| 0 <= j < es.drop_last().len() implies #[trigger] es.drop_last()[j].0@
            != k by {
            assert(es.drop_last()[j] == es[j]);
        }
        lemma_handler_map_of_absent(es.drop_last(), k);
        assert(es[es.len() - 1].0@ != k);
    }
}

// ── Linking and the definition ────────────────────────────────────────────────

/// How sources of one language are compiled and linked.
pub struct LinkingParams {
    pub abi: String,
    pub compatible: Vec<String>,
    pub linker: String,
    pub extensions: Vec<String>,
    pub compile_binary: Option<String>,
}

pub struct LinkingView {
    pub abi: Seq<char>,
    pub compatible: Seq<Seq<char>>,
    pub linker: Seq<char>,
    pub extensions: Seq<Seq<char>>,
    pub compile_binary: Option<Seq<char>>,
}

impl View for LinkingParams {
    type V = LinkingView;

    open spec fn view(&self) -> LinkingView {
        LinkingView {
            abi: self.abi@,
            compatible: str_views(self.compatible@),
            linker: self.linker@,
            extensions: str_views(self.extensions@),
            compile_binary: opt_str(self.compile_binary),
        }
    }
}

pub open spec fn linking_views(v: Seq<(String, LinkingParams)>) -> Seq<(Seq<char>, LinkingView)> {
    v.map_values(|p: (String, LinkingParams)| (p.0@, p.1@))
}

/// Appends a linking entry for language `lang`.
pub fn push_link(v: &mut Vec<(String, LinkingParams)>, lang: &str, lp: LinkingParams)
    ensures
        linking_views(final(v)@) == linking_views(old(v)@).push((lang@, lp@)),
{
    let ghost before = v@;
    let ghost lpv = lp@;
    v.push((owned(lang), lp));
    assert(linking_views(v@) =~= linking_views(before).push((lang@, lpv)));
}

/// Everything a toolchain template declares about a compiler.
pub struct ToolchainDef {
    pub name: String,
    pub binary: String,
    pub family: String,
    pub alias: Option<String>,
    pub kind: String,
    pub version_arg: String,
    pub version_regex: String,
    pub subcommand: Option<String>,
    pub passthrough_enabled: bool,
    pub passthrough_prefix: String,
    pub extensions: Vec<String>,
    pub supported_archs: Vec<String>,
    pub supported_os: Vec<String>,
    pub required_tools: Vec<String>,
    pub required_env: Vec<String>,
    pub requires_toolchain: Vec<String>,
    pub sanitizer_options: Vec<String>,
    pub always_flags: Vec<String>,
    pub flags_debug: String,
    pub flags_lto: String,
    pub flags_lto_link: String,
    pub sanitize: String,
    pub cpu_ext: String,
    pub flags_opt: FlagMap,
    pub flags_warnings: FlagMap,
    pub flags_stdlib: FlagMap,
    pub standards: FlagMap,
    pub defaults: FlagMap,
    pub structure: FlagMap,
    pub toolset: FlagMap,
    pub arch_flags: FlagMap,
    pub module_style: String,
    pub module_params: FlagMap,
    pub pch: FlagMap,
    pub linking: Vec<(String, LinkingParams)>,
    pub compiler_option_handlers: HandlerMap,
    pub language_option_handlers: HandlerMap,
}

pub struct DefView {
    pub name: Seq<char>,
    pub binary: Seq<char>,
    pub family: Seq<char>,
    pub alias: Option<Seq<char>>,
    pub kind: Seq<char>,
    pub version_arg: Seq<char>,
    pub version_regex: Seq<char>,
    pub subcommand: Option<Seq<char>>,
    pub passthrough_enabled: bool,
    pub passthrough_prefix: Seq<char>,
    pub extensions: Seq<Seq<char>>,
    pub supported_archs: Seq<Seq<char>>,
    pub supported_os: Seq<Seq<char>>,
    pub required_tools: Seq<Seq<char>>,
    pub required_env: Seq<Seq<char>>,
    pub requires_toolchain: Seq<Seq<char>>,
    pub sanitizer_options: Seq<Seq<char>>,
    pub always_flags: Seq<Seq<char>>,
    pub flags_debug: Seq<char>,
    pub flags_lto: Seq<char>,
    pub flags_lto_link: Seq<char>,
    pub sanitize: Seq<char>,
    pub cpu_ext: Seq<char>,
    pub flags_opt: Map<Seq<char>, Seq<char>>,
    pub flags_warnings: Map<Seq<char>, Seq<char>>,
    pub flags_stdlib: Map<Seq<char>, Seq<char>>,
    pub standards: Map<Seq<char>, Seq<char>>,
    pub defaults: Map<Seq<char>, Seq<char>>,
    pub structure: Map<Seq<char>, Seq<char>>,
    pub toolset: Map<Seq<char>, Seq<char>>,
    pub arch_flags: Map<Seq<char>, Seq<char>>,
    pub module_style: Seq<char>,
    pub module_params: Map<Seq<char>, Seq<char>>,
    pub pch: Map<Seq<char>, Seq<char>>,
    pub linking: Seq<(Seq<char>, LinkingView)>,
    pub compiler_option_handlers: Map<Seq<char>, HandlerView>,
    pub language_option_handlers: Map<Seq<char>, HandlerView>,
}

impl View for ToolchainDef {
    type V = DefView;

    open spec fn view(&self) -> DefView {
        DefView {
            name: self.name@,
            binary: self.binary@,
            family: self.family@,
            alias: opt_str(self.alias),
            kind: self.kind@,
            version_arg: self.version_arg@,
            version_regex: self.version_regex@,
            subcommand: opt_str(self.subcommand),
            passthrough_enabled: self.passthrough_enabled,
            passthrough_prefix: self.passthrough_prefix@,
            extensions: str_views(self.extensions@),
            supported_archs: str_views(self.supported_archs@),
            supported_os: str_views(self.supported_os@),
            required_tools: str_views(self.required_tools@),
            required_env: str_views(self.required_env@),
            requires_toolchain: str_views(self.requires_toolchain@),
            sanitizer_options: str_views(self.sanitizer_options@),
            always_flags: str_views(self.always_flags@),
            flags_debug: self.flags_debug@,
            flags_lto: self.flags_lto@,
            flags_lto_link: self.flags_lto_link@,
            sanitize: self.sanitize@,
            cpu_ext: self.cpu_ext@,
            flags_opt: self.flags_opt@,
            flags_warnings: self.flags_warnings@,
            flags_stdlib: self.flags_stdlib@,
            standards: self.standards@,
            defaults: self.defaults@,
            structure: self.structure@,
            toolset: self.toolset@,
            arch_flags: self.arch_flags@,
            module_style: self.module_style@,
            module_params: self.module_params@,
            pch: self.pch@,
            linking: linking_views(self.linking@),
            compiler_option_handlers: self.compiler_option_handlers@,
            language_option_handlers: self.language_option_handlers@,
        }
    }
}

/// The definition with every field empty.
pub open spec fn empty_def() -> DefView {
    DefView {
        name: seq![],
        binary: seq![],
        family: seq![],
        alias: None,
        kind: seq![],
        version_arg: seq![],
        version_regex: seq![],
        subcommand: None,
        passthrough_enabled: false,
        passthrough_prefix: seq![],
        extensions: seq![],
        supported_archs: seq![],
        supported_os: seq![],
        required_tools: seq![],
        required_env: seq![],
        requires_toolchain: seq![],
        sanitizer_options: seq![],
        always_flags: seq![],
        flags_debug: seq![],
        flags_lto: seq![],
        flags_lto_link: seq![],
        sanitize: seq![],
        cpu_ext: seq![],
        flags_opt: Map::empty(),
        flags_warnings: Map::empty(),
        flags_stdlib: Map::empty(),
        standards: Map::empty(),
        defaults: Map::empty(),
        structure: Map::empty(),
        toolset: Map::empty(),
        arch_flags: Map::empty(),
        module_style: seq![],
        module_params: Map::empty(),
        pch: Map::empty(),
        linking: seq![],
        compiler_option_handlers: Map::empty(),
        language_option_handlers: Map::empty(),
    }
}

impl ToolchainDef {
    /// The definition with every field empty.
    pub fn empty() -> (r: ToolchainDef)
        ensures
            r@ == empty_def(),
    {
        let r = ToolchainDef {
            name: String::new(),
            binary: String::new(),
            family: String::new(),
            alias: None,
            kind: String::new(),
            version_arg: String::new(),
            version_regex: String::new(),
            subcommand: None,
            passthrough_enabled: false,
            passthrough_prefix: String::new(),
            extensions: Vec::new(),
            supported_archs: Vec::new(),
            supported_os: Vec::new(),
            required_tools: Vec::new(),
            required_env: Vec::new(),
            requires_toolchain: Vec::new(),
            sanitizer_options: Vec::new(),
            always_flags: Vec::new(),
            flags_debug: String::new(),
            flags_lto: String::new(),
            flags_lto_link: String::new(),
            sanitize: String::new(),
            cpu_ext: String::new(),
            flags_opt: FlagMap::new(),
            flags_warnings: FlagMap::new(),
            flags_stdlib: FlagMap::new(),
            standards: FlagMap::new(),
            defaults: FlagMap::new(),
            structure: FlagMap::new(),
            toolset: FlagMap::new(),
            arch_flags: FlagMap::new(),
            module_style: String::new(),
            module_params: FlagMap::new(),
            pch: FlagMap::new(),
            linking: Vec::new(),
            compiler_option_handlers: HandlerMap::new(),
            language_option_handlers: HandlerMap::new(),
        };
        assert(str_views(Seq::<String>::empty()) =~= Seq::<Seq<char>>::empty());
        assert(linking_views(Seq::<(String, LinkingParams)>::empty()) =~= Seq::<
            (Seq<char>, LinkingView),
        >::empty());
        r
    }
}

/// A validated compiler template.
pub struct CompilerTemplate {
    pub def: ToolchainDef,
}

impl CompilerTemplate {
    /// Accepts a definition that names its toolchain.
    pub fn from_def(d: ToolchainDef) -> (r: Result<CompilerTemplate, String>)
        ensures
            r is Ok <==> d@.name.len() > 0,
            r matches Ok(t) ==> t.def@ == d@,
            r matches Err(m) ==> m@ == "toolchain definition must set a name"@,
    {
        if d.name.as_str().is_empty() {
            Err(owned("toolchain definition must set a name"))
        } else {
            Ok(CompilerTemplate { def: d })
        }
    }
}

/// The definitions of a list of templates.
pub open spec fn defs(v: Seq<CompilerTemplate>) -> Seq<DefView> {
    v.map_values(|t: CompilerTemplate| t.def@)
}

/// Appends a template.
pub fn push_template(v: &mut Vec<CompilerTemplate>, t: CompilerTemplate)
    ensures
        defs(final(v)@) == defs(old(v)@).push(t.def@),
{
    let ghost before = v@;
    let ghost d = t.def@;
    v.push(t);
    assert(defs(v@) =~= defs(before).push(d));
}

/// Appends all of `other` (`Vec::extend`).
pub fn append_templates(v: &mut Vec<CompilerTemplate>, other: Vec<CompilerTemplate>)
    ensures
        defs(final(v)@) == defs(old(v)@) + defs(other@),
{
    let ghost before = v@;
    let mut o = other;
    v.append(&mut o);
    assert(defs(v@) =~= defs(before) + defs(other@));
}

} // verus!
