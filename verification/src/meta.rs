//! Foreign build systems (CMake and autotools): the commands that build a
//! dependency with them, decided from what the caller finds on the machine
//! (the CMake version, whether Ninja is available, which files exist).

use vstd::prelude::*;
use crate::expr::{parse_u64, parse_u64_exec};
use crate::install::{join_path, join_path_exec};
use crate::package::{lines_exec, lines_of};
use crate::template::str_views;
use crate::text::{
    chars_of, concat, eq_str, find, find_char_from, find_char_from_exec, find_from_exec,
    lemma_find_char_from_b, owned, slice_copy, starts_with, starts_with_str, string_of, trim,
    trim_chars,
};

verus! {

broadcast use lemma_find_char_from_b;

// ── Commands ──────────────────────────────────────────────────────────────────

/// A program run in the dependency's directory; `label` names the step in
/// error messages.
#[derive(Debug, PartialEq, Eq)]
pub struct ToolCommand {
    pub program: String,
    pub args: Vec<String>,
    pub label: String,
}

pub struct CommandView {
    pub program: Seq<char>,
    pub args: Seq<Seq<char>>,
    pub label: Seq<char>,
}

impl View for ToolCommand {
    type V = CommandView;

    open spec fn view(&self) -> CommandView {
        CommandView { program: self.program@, args: str_views(self.args@), label: self.label@ }
    }
}

pub open spec fn command_views(v: Seq<ToolCommand>) -> Seq<CommandView> {
    v.map_values(|c: ToolCommand| c@)
}

fn command(program: &str, args: Vec<String>, label: &str) -> (r: ToolCommand)
    ensures
        r@ == (CommandView { program: program@, args: str_views(args@), label: label@ }),
{
    ToolCommand { program: owned(program), args, label: owned(label) }
}

fn cat(a: &str, b: &str) -> (r: String)
    ensures
        r@ == a@ + b@,
{
    string_of(&concat(&chars_of(a), &chars_of(b)))
}

// ── Decimal numbers ───────────────────────────────────────────────────────────

pub open spec fn digit(d: nat) -> char {
    if d == 0 {
        '0'
    } else if d == 1 {
        '1'
    } else if d == 2 {
        '2'
    } else if d == 3 {
        '3'
    } else if d == 4 {
        '4'
    } else if d == 5 {
        '5'
    } else if d == 6 {
        '6'
    } else if d == 7 {
        '7'
    } else if d == 8 {
        '8'
    } else {
        '9'
    }
}

/// The decimal digits of `n` (`usize::to_string`).
pub open spec fn decimal(n: nat) -> Seq<char>
    decreases n,
{
    if n < 10 {
        seq![digit(n)]
    } else {
        decimal(n / 10).push(digit(n % 10))
    }
}

fn digit_exec(d: usize) -> (r: char)
    requires
        d < 10,
    ensures
        r == digit(d as nat),
{
    if d == 0 {
        '0'
    } else if d == 1 {
        '1'
    } else if d == 2 {
        '2'
    } else if d == 3 {
        '3'
    } else if d == 4 {
        '4'
    } else if d == 5 {
        '5'
    } else if d == 6 {
        '6'
    } else if d == 7 {
        '7'
    } else if d == 8 {
        '8'
    } else {
        '9'
    }
}

fn decimal_chars(n: usize) -> (r: Vec<char>)
    ensures
        r@ == decimal(n as nat),
    decreases n,
{
    if n < 10 {
        vec![digit_exec(n)]
    } else {
        let mut v = decimal_chars(n / 10);
        v.push(digit_exec(n % 10));
        v
    }
}

/// `n` in decimal.
pub fn decimal_string(n: usize) -> (r: String)
    ensures
        r@ == decimal(n as nat),
{
    string_of(&decimal_chars(n))
}

// ── CMake ─────────────────────────────────────────────────────────────────────

/// `CMAKE_SYSTEM_NAME` and `CMAKE_SYSTEM_PROCESSOR` for a target triple, for
/// the systems that CMake cross-compiles to.
pub open spec fn cmake_system_spec(t: Seq<char>) -> Option<(Seq<char>, Seq<char>)> {
    if find(t, "linux"@) is Some {
        Some(
            (
                "Linux"@,
                if starts_with(t, "aarch64"@) {
                    "aarch64"@
                } else if starts_with(t, "arm"@) {
                    "arm"@
                } else if starts_with(t, "riscv64"@) {
                    "riscv64"@
                } else if starts_with(t, "i686"@) || starts_with(t, "i386"@) {
                    "x86"@
                } else {
                    "x86_64"@
                },
            ),
        )
    } else if find(t, "darwin"@) is Some || find(t, "apple"@) is Some {
        Some(
            (
                "Darwin"@,
                if starts_with(t, "aarch64"@) {
                    "arm64"@
                } else {
                    "x86_64"@
                },
            ),
        )
    } else if find(t, "windows"@) is Some {
        Some(
            (
                "Windows"@,
                if starts_with(t, "aarch64"@) {
                    "ARM64"@
                } else if starts_with(t, "i686"@) || starts_with(t, "i386"@) {
                    "X86"@
                } else {
                    "AMD64"@
                },
            ),
        )
    } else if find(t, "wasm"@) is Some || find(t, "emscripten"@) is Some {
        Some(("Emscripten"@, "asm.js"@))
    } else if find(t, "android"@) is Some {
        Some(
            (
                "Android"@,
                if starts_with(t, "aarch64"@) {
                    "aarch64"@
                } else if starts_with(t, "arm"@) {
                    "arm"@
                } else {
                    "x86_64"@
                },
            ),
        )
    } else {
        None
    }
}

fn contains(t: &Vec<char>, p: &str) -> (r: bool)
    ensures
        r == (find(t@, p@) is Some),
{
    find_from_exec(t, &chars_of(p), 0).is_some()
}

/// Maps a target triple to (`CMAKE_SYSTEM_NAME`, `CMAKE_SYSTEM_PROCESSOR`).
pub fn cmake_system_from_triple(triple: &str) -> (r: Option<(&'static str, &'static str)>)
    ensures
        match (r, cmake_system_spec(triple@)) {
            (Some((n, p)), Some((sn, sp))) => n@ == sn && p@ == sp,
            (None, None) => true,
            _ => false,
        },
{
    let t = chars_of(triple);
    if contains(&t, "linux") {
        let p = if starts_with_str(&t, "aarch64") {
            "aarch64"
        } else if starts_with_str(&t, "arm") {
            "arm"
        } else if starts_with_str(&t, "riscv64") {
            "riscv64"
        } else if starts_with_str(&t, "i686") || starts_with_str(&t, "i386") {
            "x86"
        } else {
            "x86_64"
        };
        return Some(("Linux", p));
    }
    if contains(&t, "darwin") || contains(&t, "apple") {
        let p = if starts_with_str(&t, "aarch64") {
            "arm64"
        } else {
            "x86_64"
        };
        return Some(("Darwin", p));
    }
    if contains(&t, "windows") {
        let p = if starts_with_str(&t, "aarch64") {
            "ARM64"
        } else if starts_with_str(&t, "i686") || starts_with_str(&t, "i386") {
            "X86"
        } else {
            "AMD64"
        };
        return Some(("Windows", p));
    }
    if contains(&t, "wasm") || contains(&t, "emscripten") {
        return Some(("Emscripten", "asm.js"));
    }
    if contains(&t, "android") {
        let p = if starts_with_str(&t, "aarch64") {
            "aarch64"
        } else if starts_with_str(&t, "arm") {
            "arm"
        } else {
            "x86_64"
        };
        return Some(("Android", p));
    }
    None
}

/// `s` up to its first `c`, and what follows that `c` if there is one.
pub open spec fn split_first(s: Seq<char>, c: char) -> (Seq<char>, Option<Seq<char>>) {
    match find_char_from(s, c, 0) {
        Some(i) => (s.subrange(0, i), Some(s.subrange(i + 1, s.len() as int))),
        None => (s, None),
    }
}

/// `str::parse::<u32>`.
pub open spec fn parse_u32(s: Seq<char>) -> Option<int> {
    match parse_u64(s) {
        Some(v) => if v <= u32::MAX {
            Some(v)
        } else {
            None
        },
        None => None,
    }
}

/// The (major, minor) version in the first line of `cmake --version`
/// output: `cmake version <major>.<minor>...`.
pub open spec fn cmake_version_spec(out: Seq<char>) -> Option<(int, int)> {
    let ls = lines_of(out);
    if ls.len() == 0 || !starts_with(ls[0], "cmake version "@) {
        None
    } else {
        let v = trim(ls[0].subrange(14, ls[0].len() as int));
        let (a, rest) = split_first(v, '.');
        match (parse_u32(a), rest) {
            (Some(major), Some(r)) => match parse_u32(split_first(r, '.').0) {
                Some(minor) => Some((major, minor)),
                None => None,
            },
            _ => None,
        }
    }
}

fn split_first_exec(s: &Vec<char>, c: char) -> (r: (Vec<char>, Option<Vec<char>>))
    ensures
        (r.0@, crate::expr::opt_view(r.1)) == split_first(s@, c),
{
    match find_char_from_exec(s, c, 0) {
        Some(i) => (slice_copy(s, 0, i), Some(slice_copy(s, i + 1, s.len()))),
        None => (s.clone(), None),
    }
}

fn parse_u32_exec(s: &Vec<char>) -> (r: Option<u32>)
    ensures
        match r {
            Some(v) => parse_u32(s@) == Some(v as int),
            None => parse_u32(s@) is None,
        },
{
    match parse_u64_exec(s) {
        Some(v) => if v <= 0xffff_ffff {
            Some(v as u32)
        } else {
            None
        },
        None => None,
    }
}

/// Parses the output of `cmake --version`.
pub fn parse_cmake_version(out: &str) -> (r: Option<(u32, u32)>)
    ensures
        match r {
            Some((a, b)) => cmake_version_spec(out@) == Some((a as int, b as int)),
            None => cmake_version_spec(out@) is None,
        },
{
    let ls = lines_exec(&chars_of(out));
    proof {
        reveal_strlit("cmake version ");
    }
    if ls.len() == 0 {
        return None;
    }
    assert(crate::expr::views(ls@)[0] == ls@[0]@);
    if !starts_with_str(&ls[0], "cmake version ") {
        return None;
    }
    let v = trim_chars(&slice_copy(&ls[0], 14, ls[0].len()));
    let (a, rest) = split_first_exec(&v, '.');
    match (parse_u32_exec(&a), rest) {
        (Some(major), Some(r)) => match parse_u32_exec(&split_first_exec(&r, '.').0) {
            Some(minor) => Some((major, minor)),
            None => None,
        },
        _ => None,
    }
}

/// `(major, minor) >= (a, b)`.
pub open spec fn at_least(v: Option<(int, int)>, a: int, b: int) -> bool {
    match v {
        Some((major, minor)) => major > a || (major == a && minor >= b),
        None => false,
    }
}

/// The arguments of the CMake configure step.
pub open spec fn cmake_configure_spec(
    dep_dir: Seq<char>,
    build_dir: Seq<char>,
    profile: Seq<char>,
    extra: Seq<Seq<char>>,
    target: Option<Seq<char>>,
    ninja: bool,
) -> Seq<Seq<char>> {
    let build_type = if profile == "release"@ {
        "Release"@
    } else {
        "Debug"@
    };
    seq![
        "-S"@,
        dep_dir,
        "-B"@,
        build_dir,
        "-DCMAKE_BUILD_TYPE="@ + build_type,
        "-DCMAKE_INSTALL_PREFIX="@ + join_path(build_dir, "install"@),
    ] + (if ninja {
        seq!["-G"@, "Ninja"@]
    } else {
        Seq::<Seq<char>>::empty()
    }) + (match target {
        Some(t) => match cmake_system_spec(t) {
            Some((n, p)) => seq!["-DCMAKE_SYSTEM_NAME="@ + n, "-DCMAKE_SYSTEM_PROCESSOR="@ + p],
            None => Seq::<Seq<char>>::empty(),
        },
        None => Seq::<Seq<char>>::empty(),
    }) + extra
}

/// The steps of a CMake build: configure (Ninja when it is available; system
/// name and processor for a cross target), build (`--parallel` from CMake
/// 3.12), install (`--install` from CMake 3.15, else the `install` target).
pub open spec fn cmake_steps_spec(
    dep_dir: Seq<char>,
    build_dir: Seq<char>,
    profile: Seq<char>,
    extra: Seq<Seq<char>>,
    target: Option<Seq<char>>,
    ninja: bool,
    version: Option<(int, int)>,
    jobs: nat,
) -> Seq<CommandView> {
    seq![
        CommandView {
            program: "cmake"@,
            args: cmake_configure_spec(dep_dir, build_dir, profile, extra, target, ninja),
            label: "cmake configure"@,
        },
        CommandView {
            program: "cmake"@,
            args: if at_least(version, 3, 12) {
                seq!["--build"@, build_dir, "--parallel"@, decimal(jobs)]
            } else {
                seq!["--build"@, build_dir]
            },
            label: "cmake build"@,
        },
        CommandView {
            program: "cmake"@,
            args: if at_least(version, 3, 15) {
                seq!["--install"@, build_dir, "--prefix"@, join_path(build_dir, "install"@)]
            } else {
                seq!["--build"@, build_dir, "--target"@, "install"@]
            },
            label: "cmake install"@,
        },
    ]
}

/// The commands that build a CMake dependency in `build_dir`, installing
/// into `build_dir/install`, given whether Ninja is available, the CMake
/// version, and the number of parallel jobs.
pub fn cmake_steps(
    dep_dir: &str,
    build_dir: &str,
    profile: &str,
    extra_args: &Vec<String>,
    target: Option<&str>,
    ninja: bool,
    version: Option<(u32, u32)>,
    jobs: usize,
) -> (r: Vec<ToolCommand>)
    ensures
        command_views(r@) == cmake_steps_spec(
            dep_dir@,
            build_dir@,
            profile@,
            str_views(extra_args@),
            match target {
                Some(t) => Some(t@),
                None => None,
            },
            ninja,
            match version {
                Some((a, b)) => Some((a as int, b as int)),
                None => None,
            },
            jobs as nat,
        ),
{
    let ghost tv = match target {
        Some(t) => Some(t@),
        None => None,
    };
    let ghost vv = match version {
        Some((a, b)) => Some((a as int, b as int)),
        None => None,
    };
    let install_prefix = join_path_exec(build_dir, "install");
    let bt = if eq_str(&chars_of(profile), "release") {
        "Release"
    } else {
        "Debug"
    };
    let mut conf: Vec<String> = Vec::new();
    conf.push(owned("-S"));
    conf.push(owned(dep_dir));
    conf.push(owned("-B"));
    conf.push(owned(build_dir));
    conf.push(cat("-DCMAKE_BUILD_TYPE=", bt));
    conf.push(cat("-DCMAKE_INSTALL_PREFIX=", install_prefix.as_str()));
    let ghost c0 = str_views(conf@);
    if ninja {
        conf.push(owned("-G"));
        conf.push(owned("Ninja"));
    }
    let ghost c1 = str_views(conf@);
    match target {
        Some(t) => match cmake_system_from_triple(t) {
            Some((n, p)) => {
                conf.push(cat("-DCMAKE_SYSTEM_NAME=", n));
                conf.push(cat("-DCMAKE_SYSTEM_PROCESSOR=", p));
            },
            None => {},
        },
        None => {},
    }
    let ghost c2 = str_views(conf@);
    let mut i: usize = 0;
    while i < extra_args.len()
        invariant
            i <= extra_args.len(),
            str_views(conf@) == c2 + str_views(extra_args@).take(i as int),
        decreases extra_args.len() - i,
    {
        let ghost before = str_views(conf@);
        conf.push(owned(extra_args[i].as_str()));
        assert(str_views(conf@) =~= before.push(extra_args@[i as int]@));
        assert(str_views(extra_args@).take(i + 1) =~= str_views(extra_args@).take(i as int).push(
            extra_args@[i as int]@,
        ));
        i = i + 1;
    }
    assert(str_views(extra_args@).take(i as int) =~= str_views(extra_args@));
    assert(str_views(conf@) =~= cmake_configure_spec(
        dep_dir@,
        build_dir@,
        profile@,
        str_views(extra_args@),
        tv,
        ninja,
    ));
    let parallel = match version {
        Some((a, b)) => a > 3 || (a == 3 && b >= 12),
        None => false,
    };
    let install = match version {
        Some((a, b)) => a > 3 || (a == 3 && b >= 15),
        None => false,
    };
    let build_args = if parallel {
        let mut v: Vec<String> = Vec::new();
        v.push(owned("--build"));
        v.push(owned(build_dir));
        v.push(owned("--parallel"));
        v.push(decimal_string(jobs));
        v
    } else {
        let mut v: Vec<String> = Vec::new();
        v.push(owned("--build"));
        v.push(owned(build_dir));
        v
    };
    let install_args = if install {
        let mut v: Vec<String> = Vec::new();
        v.push(owned("--install"));
        v.push(owned(build_dir));
        v.push(owned("--prefix"));
        v.push(owned(install_prefix.as_str()));
        v
    } else {
        let mut v: Vec<String> = Vec::new();
        v.push(owned("--build"));
        v.push(owned(build_dir));
        v.push(owned("--target"));
        v.push(owned("install"));
        v
    };
    let mut out: Vec<ToolCommand> = Vec::new();
    out.push(command("cmake", conf, "cmake configure"));
    out.push(command("cmake", build_args, "cmake build"));
    out.push(command("cmake", install_args, "cmake install"));
    let ghost expected = cmake_steps_spec(
        dep_dir@,
        build_dir@,
        profile@,
        str_views(extra_args@),
        tv,
        ninja,
        vv,
        jobs as nat,
    );
    assert(command_views(out@)[1].args =~= expected[1].args);
    assert(command_views(out@)[2].args =~= expected[2].args);
    assert(command_views(out@) =~= expected);
    out
}

// ── Autotools ─────────────────────────────────────────────────────────────────

/// A step of an autotools build.
#[derive(Debug, PartialEq, Eq)]
pub enum BuildStep {
    CreateDir(String),
    Run(ToolCommand),
}

pub enum StepView {
    CreateDir(Seq<char>),
    Run(CommandView),
}

impl View for BuildStep {
    type V = StepView;

    open spec fn view(&self) -> StepView {
        match self {
            BuildStep::CreateDir(d) => StepView::CreateDir(d@),
            BuildStep::Run(c) => StepView::Run(c@),
        }
    }
}

pub open spec fn step_views(v: Seq<BuildStep>) -> Seq<StepView> {
    v.map_values(|s: BuildStep| s@)
}

/// Whether a target is built with Emscripten (`wasm` or `emscripten` in the
/// triple).
pub open spec fn uses_emscripten(target: Option<Seq<char>>) -> bool {
    match target {
        Some(t) => find(t, "wasm"@) is Some || find(t, "emscripten"@) is Some,
        None => false,
    }
}

/// Generating a missing `configure` script: `autogen.sh` when the package
/// has one (through `emconfigure` for Emscripten), else `autoreconf -fi`.
pub open spec fn bootstrap_spec(
    target: Option<Seq<char>>,
    configure_exists: bool,
    autogen_exists: bool,
) -> Option<CommandView> {
    if configure_exists {
        None
    } else if autogen_exists {
        Some(
            CommandView {
                program: if uses_emscripten(target) {
                    "emconfigure"@
                } else {
                    "sh"@
                },
                args: seq!["autogen.sh"@],
                label: "autogen.sh"@,
            },
        )
    } else {
        Some(CommandView { program: "autoreconf"@, args: seq!["-fi"@], label: "autoreconf"@ })
    }
}

fn opt_str_view(t: Option<&str>) -> (r: Option<Vec<char>>)
    ensures
        crate::expr::opt_view(r) == match t {
            Some(s) => Some(s@),
            None => None,
        },
{
    match t {
        Some(s) => Some(chars_of(s)),
        None => None,
    }
}

fn emscripten_exec(target: Option<&str>) -> (r: bool)
    ensures
        r == uses_emscripten(
            match target {
                Some(s) => Some(s@),
                None => None,
            },
        ),
{
    match target {
        Some(t) => {
            let v = chars_of(t);
            contains(&v, "wasm") || contains(&v, "emscripten")
        },
        None => false,
    }
}

/// The command that generates a missing `configure` script, if one is needed.
pub fn autotools_bootstrap(target: Option<&str>, configure_exists: bool, autogen_exists: bool) -> (r:
    Option<ToolCommand>)
    ensures
        match (r, bootstrap_spec(
            match target {
                Some(s) => Some(s@),
                None => None,
            },
            configure_exists,
            autogen_exists,
        )) {
            (Some(c), Some(e)) => c@ == e,
            (None, None) => true,
            _ => false,
        },
{
    if configure_exists {
        None
    } else if autogen_exists {
        let program = if emscripten_exec(target) {
            "emconfigure"
        } else {
            "sh"
        };
        let mut args: Vec<String> = Vec::new();
        args.push(owned("autogen.sh"));
        assert(str_views(args@) =~= seq!["autogen.sh"@]);
        Some(command(program, args, "autogen.sh"))
    } else {
        let mut args: Vec<String> = Vec::new();
        args.push(owned("-fi"));
        assert(str_views(args@) =~= seq!["-fi"@]);
        Some(command("autoreconf", args, "autoreconf"))
    }
}

/// The steps after `configure` exists: create the install directory, run
/// `configure` unless its output is up to date (static libraries only,
/// `--host` for a cross target; through `emconfigure` for Emscripten), then
/// `make -j<jobs>` and `make install` (through `emmake` for Emscripten).
pub open spec fn autotools_build_spec(
    dep_dir: Seq<char>,
    build_dir: Seq<char>,
    target: Option<Seq<char>>,
    up_to_date: bool,
    jobs: nat,
) -> Seq<StepView> {
    let install_dir = join_path(build_dir, "install"@);
    let em = uses_emscripten(target);
    let configure = join_path(dep_dir, "configure"@);
    let args = seq!["--prefix="@ + install_dir, "--enable-static"@, "--disable-shared"@] + (
    match target {
        Some(t) => seq!["--host="@ + t],
        None => Seq::<Seq<char>>::empty(),
    });
    let conf = if up_to_date {
        Seq::<StepView>::empty()
    } else {
        seq![
            StepView::Run(
                CommandView {
                    program: if em {
                        "emconfigure"@
                    } else {
                        configure
                    },
                    args: if em {
                        seq![configure] + args
                    } else {
                        args
                    },
                    label: "configure"@,
                },
            ),
        ]
    };
    let make = if em {
        seq![
            StepView::Run(
                CommandView {
                    program: "emmake"@,
                    args: seq!["make"@, "-j"@, decimal(jobs)],
                    label: "make"@,
                },
            ),
            StepView::Run(
                CommandView {
                    program: "emmake"@,
                    args: seq!["make"@, "install"@],
                    label: "make install"@,
                },
            ),
        ]
    } else {
        seq![
            StepView::Run(
                CommandView { program: "make"@, args: seq!["-j"@, decimal(jobs)], label: "make"@ },
            ),
            StepView::Run(
                CommandView { program: "make"@, args: seq!["install"@], label: "make install"@ },
            ),
        ]
    };
    seq![StepView::CreateDir(install_dir)] + conf + make
}

fn push_step(v: &mut Vec<BuildStep>, st: BuildStep)
    ensures
        step_views(final(v)@) == step_views(old(v)@).push(st@),
{
    let ghost before = v@;
    let ghost sv = st@;
    v.push(st);
    assert(step_views(v@) =~= step_views(before).push(sv));
}

/// The steps of an autotools build once `configure` exists, given whether
/// its output is up to date and the number of parallel jobs.
pub fn autotools_build(
    dep_dir: &str,
    build_dir: &str,
    target: Option<&str>,
    up_to_date: bool,
    jobs: usize,
) -> (r: Vec<BuildStep>)
    ensures
        step_views(r@) == autotools_build_spec(
            dep_dir@,
            build_dir@,
            match target {
                Some(s) => Some(s@),
                None => None,
            },
            up_to_date,
            jobs as nat,
        ),
{
    let ghost tv = match target {
        Some(s) => Some(s@),
        None => None,
    };
    let install_dir = join_path_exec(build_dir, "install");
    let em = emscripten_exec(target);
    let configure = join_path_exec(dep_dir, "configure");
    let mut steps: Vec<BuildStep> = Vec::new();
    push_step(&mut steps, BuildStep::CreateDir(owned(install_dir.as_str())));
    if !up_to_date {
        let mut args: Vec<String> = Vec::new();
        if em {
            args.push(owned(configure.as_str()));
        }
        args.push(cat("--prefix=", install_dir.as_str()));
        args.push(owned("--enable-static"));
        args.push(owned("--disable-shared"));
        match target {
            Some(t) => args.push(cat("--host=", t)),
            None => {},
        }
        let ghost base_args = seq!["--prefix="@ + install_dir@, "--enable-static"@, "--disable-shared"@]
            + (match tv {
            Some(t) => seq!["--host="@ + t],
            None => Seq::<Seq<char>>::empty(),
        });
        assert(str_views(args@) =~= (if em {
            seq![configure@] + base_args
        } else {
            base_args
        }));
        let program = if em {
            owned("emconfigure")
        } else {
            owned(configure.as_str())
        };
        push_step(&mut steps, BuildStep::Run(command(program.as_str(), args, "configure")));
    }
    let ghost s_conf = step_views(steps@);
    let j = decimal_string(jobs);
    if em {
        let mut a1: Vec<String> = Vec::new();
        a1.push(owned("make"));
        a1.push(owned("-j"));
        a1.push(owned(j.as_str()));
        assert(str_views(a1@) =~= seq!["make"@, "-j"@, decimal(jobs as nat)]);
        push_step(&mut steps, BuildStep::Run(command("emmake", a1, "make")));
        let mut a2: Vec<String> = Vec::new();
        a2.push(owned("make"));
        a2.push(owned("install"));
        assert(str_views(a2@) =~= seq!["make"@, "install"@]);
        push_step(&mut steps, BuildStep::Run(command("emmake", a2, "make install")));
    } else {
        let mut a1: Vec<String> = Vec::new();
        a1.push(owned("-j"));
        a1.push(owned(j.as_str()));
        assert(str_views(a1@) =~= seq!["-j"@, decimal(jobs as nat)]);
        push_step(&mut steps, BuildStep::Run(command("make", a1, "make")));
        let mut a2: Vec<String> = Vec::new();
        a2.push(owned("install"));
        assert(str_views(a2@) =~= seq!["install"@]);
        push_step(&mut steps, BuildStep::Run(command("make", a2, "make install")));
    }
    let ghost expected = autotools_build_spec(dep_dir@, build_dir@, tv, up_to_date, jobs as nat);
    assert(s_conf.len() == expected.len() - 2);
    assert forall|k: int| 0 <= k < s_conf.len() implies s_conf[k] == expected[k] by {}
    assert(step_views(steps@) =~= expected);
    steps
}

} // verus!
