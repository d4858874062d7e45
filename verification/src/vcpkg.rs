//! vcpkg dependencies: where Freight installs them (the project's
//! `.deps/vcpkg_installed/`), the triplet it asks for, the `vcpkg install`
//! call, and which of the installed files a build links against.

use vstd::prelude::*;
use crate::expr::lex_order;
use crate::install::{file_name_of, file_name_of_exec, join_path, join_path_exec};
use crate::template::str_views;
use crate::text::{
    chars_of, concat, eq_str, lemma_trim_len_b, owned, rfind_char, slice_copy, string_of, trim,
    trim_chars,
};

verus! {

broadcast use lemma_trim_len_b;

/// Libraries and include directories made available by a vcpkg package.
pub struct VcpkgResolution {
    pub include_dirs: Vec<String>,
    pub libs: Vec<String>,
    pub raw_link_flags: Vec<String>,
}

/// The project-local vcpkg installation root.
pub open spec fn installed_root_spec(project_dir: Seq<char>) -> Seq<char> {
    join_path(join_path(project_dir, ".deps"@), "vcpkg_installed"@)
}

/// The project-local vcpkg installation root.
pub fn installed_root(project_dir: &str) -> (r: String)
    ensures
        r@ == installed_root_spec(project_dir@),
{
    join_path_exec(join_path_exec(project_dir, ".deps").as_str(), "vcpkg_installed")
}

/// A package spec with an explicit `:triplet` suffix that is not blank.
pub open spec fn has_triplet(package: Seq<char>) -> bool {
    match rfind_char(package, ':') {
        Some(i) => trim(package.subrange(i + 1, package.len() as int)).len() > 0,
        None => false,
    }
}

/// Whether the package spec already names a triplet (`name:triplet`).
pub fn package_has_triplet(package: &str) -> (r: bool)
    ensures
        r == has_triplet(package@),
{
    let p = chars_of(package);
    let mut n = p.len();
    while n > 0 && p[n - 1] != ':'
        invariant
            n <= p.len(),
            forall|j: int| n <= j < p.len() ==> #[trigger] p@[j] != ':',
        decreases n,
    {
        n = n - 1;
    }
    proof {
        lemma_rfind_colon(p@, n as int);
    }
    if n == 0 {
        false
    } else {
        trim_chars(&slice_copy(&p, n, p.len())).len() > 0
    }
}

proof fn lemma_rfind_colon(t: Seq<char>, n: int)
    requires
        0 <= n <= t.len(),
        forall|j: int| n <= j < t.len() ==> #[trigger] t[j] != ':',
        n > 0 ==> t[n - 1] == ':',
    ensures
        n > 0 ==> rfind_char(t, ':') == Some(n - 1),
        n == 0 ==> rfind_char(t, ':') is None,
    decreases t.len(),
{
    if t.len() > 0 && n < t.len() {
        let d = t.subrange(0, t.len() - 1);
        assert forall|j: int| n <= j < d.len() implies #[trigger] d[j] != ':' by {
            assert(d[j] == t[j]);
        }
        if n > 0 {
            assert(d[n - 1] == t[n - 1]);
        }
        lemma_rfind_colon(d, n);
    }
}

/// The triplet for a host: the `VCPKG_DEFAULT_TRIPLET` override when it is
/// not blank (trimmed), else the triplet of the host OS and architecture.
pub open spec fn default_triplet_spec(
    override_value: Option<Seq<char>>,
    os: Seq<char>,
    arch: Seq<char>,
) -> Seq<char> {
    if override_value is Some && trim(override_value->0).len() > 0 {
        trim(override_value->0)
    } else if os == "windows"@ && arch == "x86_64"@ {
        "x64-windows"@
    } else if os == "windows"@ && arch == "x86"@ {
        "x86-windows"@
    } else if os == "windows"@ && arch == "aarch64"@ {
        "arm64-windows"@
    } else if os == "macos"@ && arch == "aarch64"@ {
        "arm64-osx"@
    } else if os == "macos"@ {
        "x64-osx"@
    } else if os == "linux"@ && arch == "aarch64"@ {
        "arm64-linux"@
    } else if os == "linux"@ {
        "x64-linux"@
    } else if arch == "aarch64"@ {
        "arm64-linux"@
    } else {
        "x64-linux"@
    }
}

/// The default vcpkg triplet for host `os` / `arch`, given the value of
/// `VCPKG_DEFAULT_TRIPLET` if it is set.
pub fn default_triplet(override_value: Option<&str>, os: &str, arch: &str) -> (r: String)
    ensures
        r@ == default_triplet_spec(
            match override_value {
                Some(v) => Some(v@),
                None => None,
            },
            os@,
            arch@,
        ),
{
    if let Some(v) = override_value {
        let t = trim_chars(&chars_of(v));
        if t.len() > 0 {
            return string_of(&t);
        }
    }
    let o = chars_of(os);
    let a = chars_of(arch);
    if eq_str(&o, "windows") && eq_str(&a, "x86_64") {
        owned("x64-windows")
    } else if eq_str(&o, "windows") && eq_str(&a, "x86") {
        owned("x86-windows")
    } else if eq_str(&o, "windows") && eq_str(&a, "aarch64") {
        owned("arm64-windows")
    } else if eq_str(&o, "macos") && eq_str(&a, "aarch64") {
        owned("arm64-osx")
    } else if eq_str(&o, "macos") {
        owned("x64-osx")
    } else if eq_str(&o, "linux") && eq_str(&a, "aarch64") {
        owned("arm64-linux")
    } else if eq_str(&o, "linux") {
        owned("x64-linux")
    } else if eq_str(&a, "aarch64") {
        owned("arm64-linux")
    } else {
        owned("x64-linux")
    }
}

/// The marker file that records a finished install of `name` for `triplet`.
pub fn sentinel_path(root: &str, name: &str, triplet: &str) -> (r: String)
    ensures
        r@ == join_path(join_path(root@, ".freight"@), name@ + "."@ + triplet@ + ".fetched"@),
{
    let f = string_of(
        &concat(
            &concat(&concat(&chars_of(name), &chars_of(".")), &chars_of(triplet)),
            &chars_of(".fetched"),
        ),
    );
    join_path_exec(join_path_exec(root, ".freight").as_str(), f.as_str())
}

/// The arguments of `vcpkg install` for `package`: the triplet is passed
/// unless the package spec names one.
pub open spec fn install_args_spec(package: Seq<char>, triplet: Seq<char>, root: Seq<char>) -> Seq<
    Seq<char>,
> {
    seq!["install"@, package] + (if has_triplet(package) {
        Seq::<Seq<char>>::empty()
    } else {
        seq!["--triplet"@, triplet]
    }) + seq!["--x-install-root"@, root]
}

/// The arguments of `vcpkg install` for `package`.
pub fn vcpkg_install_args(package: &str, triplet: &str, root: &str) -> (r: Vec<String>)
    ensures
        str_views(r@) == install_args_spec(package@, triplet@, root@),
{
    let mut v: Vec<String> = Vec::new();
    v.push(owned("install"));
    v.push(owned(package));
    let with = !package_has_triplet(package);
    if with {
        v.push(owned("--triplet"));
        v.push(owned(triplet));
    }
    v.push(owned("--x-install-root"));
    v.push(owned(root));
    assert(str_views(v@) =~= install_args_spec(package@, triplet@, root@));
    v
}

// ── Libraries of an installed package ─────────────────────────────────────────

/// The extension of a path's file name: what follows its last dot, when the
/// dot does not start the name.
pub open spec fn extension_of(p: Seq<char>) -> Option<Seq<char>> {
    let f = file_name_of(p);
    match rfind_char(f, '.') {
        Some(i) => if i > 0 {
            Some(f.subrange(i + 1, f.len() as int))
        } else {
            None
        },
        None => None,
    }
}

/// A library file: its extension is `a`, `lib`, `so` or `dylib`.
pub open spec fn is_lib_file(p: Seq<char>) -> bool {
    match extension_of(p) {
        Some(e) => e == "a"@ || e == "lib"@ || e == "so"@ || e == "dylib"@,
        None => false,
    }
}

/// `x` inserted into sorted `s` after every path that is not greater.
pub open spec fn insert_path(s: Seq<Seq<char>>, x: Seq<char>) -> Seq<Seq<char>>
    decreases s.len(),
{
    if s.len() == 0 {
        seq![x]
    } else if lex_order(x, s.last()) < 0 {
        insert_path(s.drop_last(), x).push(s.last())
    } else {
        s.push(x)
    }
}

/// `xs` sorted (stably).
pub open spec fn sort_paths(xs: Seq<Seq<char>>) -> Seq<Seq<char>>
    decreases xs.len(),
{
    if xs.len() == 0 {
        seq![]
    } else {
        insert_path(sort_paths(xs.drop_last()), xs.last())
    }
}

/// The library files among the regular files of a directory, sorted.
pub open spec fn libs_spec(files: Seq<Seq<char>>) -> Seq<Seq<char>> {
    sort_paths(files.filter(|p: Seq<char>| is_lib_file(p)))
}

fn extension_exec(p: &str) -> (r: Option<Vec<char>>)
    ensures
        crate::expr::opt_view(r) == extension_of(p@),
{
    let f = chars_of(file_name_of_exec(p).as_str());
    let mut n = f.len();
    while n > 0 && f[n - 1] != '.'
        invariant
            n <= f.len(),
            forall|j: int| n <= j < f.len() ==> #[trigger] f@[j] != '.',
        decreases n,
    {
        n = n - 1;
    }
    proof {
        lemma_rfind_dot(f@, n as int);
    }
    if n > 1 {
        Some(slice_copy(&f, n, f.len()))
    } else {
        None
    }
}

proof fn lemma_rfind_dot(t: Seq<char>, n: int)
    requires
        0 <= n <= t.len(),
        forall|j: int| n <= j < t.len() ==> #[trigger] t[j] != '.',
        n > 0 ==> t[n - 1] == '.',
    ensures
        n > 0 ==> rfind_char(t, '.') == Some(n - 1),
        n == 0 ==> rfind_char(t, '.') is None,
    decreases t.len(),
{
    if t.len() > 0 && n < t.len() {
        let d = t.subrange(0, t.len() - 1);
        assert forall|j: int| n <= j < d.len() implies #[trigger] d[j] != '.' by {
            assert(d[j] == t[j]);
        }
        if n > 0 {
            assert(d[n - 1] == t[n - 1]);
        }
        lemma_rfind_dot(d, n);
    }
}

fn is_lib_file_exec(p: &str) -> (r: bool)
    ensures
        r == is_lib_file(p@),
{
    match extension_exec(p) {
        Some(e) => eq_str(&e, "a") || eq_str(&e, "lib") || eq_str(&e, "so") || eq_str(&e, "dylib"),
        None => false,
    }
}

proof fn lemma_insert_path_at(s: Seq<Seq<char>>, x: Seq<char>, i: int)
    requires
        0 <= i <= s.len(),
        forall|j: int| i <= j < s.len() ==> lex_order(x, #[trigger] s[j]) < 0,
        i > 0 ==> lex_order(x, s[i - 1]) >= 0,
    ensures
        insert_path(s, x) == s.insert(i, x),
    decreases s.len(),
{
    if s.len() == 0 {
        assert(seq![x] =~= s.insert(0, x));
    } else if i == s.len() {
        assert(s.push(x) =~= s.insert(i, x));
    } else {
        let d = s.drop_last();
        assert forall|j: int| i <= j < d.len() implies lex_order(x, #[trigger] d[j]) < 0 by {
            assert(d[j] == s[j]);
        }
        if i > 0 {
            assert(d[i - 1] == s[i - 1]);
        }
        lemma_insert_path_at(d, x, i);
        assert(d.insert(i, x).push(s.last()) =~= s.insert(i, x));
    }
}

/// The library files among `files` (the regular files of a directory),
/// sorted.
pub fn select_libs(files: &Vec<String>) -> (r: Vec<String>)
    ensures
        str_views(r@) == libs_spec(str_views(files@)),
{
    let ghost fv = str_views(files@);
    let ghost pred = |p: Seq<char>| is_lib_file(p);
    let mut out: Vec<String> = Vec::new();
    let mut i: usize = 0;
    assert(fv.take(0) =~= Seq::<Seq<char>>::empty());
    proof {
        reveal(Seq::filter);
    }
    assert(str_views(out@) =~= Seq::<Seq<char>>::empty());
    while i < files.len()
        invariant
            i <= files.len(),
            fv == str_views(files@),
            pred == (|p: Seq<char>| is_lib_file(p)),
            str_views(out@) == sort_paths(fv.take(i as int).filter(pred)),
        decreases files.len() - i,
    {
        proof {
            reveal(Seq::filter);
        }
        assert(fv.take(i + 1).drop_last() =~= fv.take(i as int));
        assert(fv.take(i + 1).last() == fv[i as int]);
        assert(fv[i as int] == files@[i as int]@);
        if is_lib_file_exec(files[i].as_str()) {
            let x = chars_of(files[i].as_str());
            let ghost ov = str_views(out@);
            let mut pos = out.len();
            while pos > 0 && crate::expr::lex_order_exec(&x, &chars_of(out[pos - 1].as_str())) < 0
                invariant
                    pos <= out.len(),
                    ov == str_views(out@),
                    forall|j: int| pos <= j < out.len() ==> lex_order(x@, #[trigger] ov[j]) < 0,
                decreases pos,
            {
                assert(ov[pos - 1] == out@[pos - 1]@);
                pos = pos - 1;
            }
            if pos > 0 {
                assert(ov[pos - 1] == out@[pos - 1]@);
            }
            proof {
                lemma_insert_path_at(ov, x@, pos as int);
            }
            out.insert(pos, owned(files[i].as_str()));
            assert(str_views(out@) =~= ov.insert(pos as int, x@));
            assert(fv.take(i + 1).filter(pred) == fv.take(i as int).filter(pred).push(fv[i as int]));
            let ghost fs = fv.take(i as int).filter(pred);
            assert(fs.push(x@).drop_last() =~= fs);
            assert(sort_paths(fs.push(x@)) == insert_path(sort_paths(fs), x@));
        } else {
            assert(fv.take(i + 1).filter(pred) == fv.take(i as int).filter(pred));
        }
        i = i + 1;
    }
    assert(fv.take(i as int) =~= fv);
    out
}

/// What a resolved package offers a build: its `include/` directory when it
/// has one, its libraries (those of `debug/lib` when `lib/` has none), and a
/// `-L` flag for `lib/` when that directory exists.
pub open spec fn resolution_spec(
    triplet_dir: Seq<char>,
    include_is_dir: bool,
    lib_is_dir: bool,
    libs: Seq<Seq<char>>,
    debug_libs: Seq<Seq<char>>,
) -> (Seq<Seq<char>>, Seq<Seq<char>>, Seq<Seq<char>>) {
    (
        if include_is_dir {
            seq![join_path(triplet_dir, "include"@)]
        } else {
            seq![]
        },
        if libs.len() > 0 {
            libs
        } else {
            debug_libs
        },
        if lib_is_dir {
            seq!["-L"@ + join_path(triplet_dir, "lib"@)]
        } else {
            seq![]
        },
    )
}

/// Assembles what a resolved package offers, given whether its `include/`
/// and `lib/` directories exist and the libraries found in `lib/` and in
/// `debug/lib`.
pub fn resolve_vcpkg_dep(
    triplet_dir: &str,
    include_is_dir: bool,
    lib_is_dir: bool,
    libs: Vec<String>,
    debug_libs: Vec<String>,
) -> (r: VcpkgResolution)
    ensures
        (str_views(r.include_dirs@), str_views(r.libs@), str_views(r.raw_link_flags@))
            == resolution_spec(
            triplet_dir@,
            include_is_dir,
            lib_is_dir,
            str_views(libs@),
            str_views(debug_libs@),
        ),
{
    let mut include_dirs: Vec<String> = Vec::new();
    if include_is_dir {
        include_dirs.push(join_path_exec(triplet_dir, "include"));
    }
    let libs = if libs.len() > 0 {
        libs
    } else {
        debug_libs
    };
    let mut raw_link_flags: Vec<String> = Vec::new();
    if lib_is_dir {
        let ld = join_path_exec(triplet_dir, "lib");
        raw_link_flags.push(string_of(&concat(&chars_of("-L"), &chars_of(ld.as_str()))));
    }
    let r = VcpkgResolution { include_dirs, libs, raw_link_flags };
    assert(str_views(r.include_dirs@) =~= resolution_spec(
        triplet_dir@,
        include_is_dir,
        lib_is_dir,
        str_views(libs@),
        str_views(debug_libs@),
    ).0);
    assert(str_views(r.raw_link_flags@) =~= resolution_spec(
        triplet_dir@,
        include_is_dir,
        lib_is_dir,
        str_views(libs@),
        str_views(debug_libs@),
    ).2);
    r
}

} // verus!
