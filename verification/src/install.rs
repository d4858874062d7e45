//! `freight install`: which build outputs go where. The library plans the
//! installation as a list of file operations over slash-separated path
//! strings; the caller checks which candidate files exist, performs the
//! operations in order and stops at the first failure.

use vstd::prelude::*;
use crate::template::str_views;
use crate::text::{
    chars_of, concat, ends_with, eq_str, find_char_from, find_char_from_exec, owned, rfind_char,
    slice_copy, string_of, strip_char_start,
};

verus! {

// ── Installed items ───────────────────────────────────────────────────────────

/// What an installed file is.
#[derive(PartialEq, Eq, Structural, Clone, Copy, Debug)]
pub enum InstalledKind {
    Binary,
    StaticLib,
    SharedLib,
    Header,
    Symlink,
}

pub open spec fn kind_label(k: InstalledKind) -> Seq<char> {
    match k {
        InstalledKind::Binary => "binary"@,
        InstalledKind::StaticLib => "static-lib"@,
        InstalledKind::SharedLib => "shared-lib"@,
        InstalledKind::Header => "header"@,
        InstalledKind::Symlink => "symlink"@,
    }
}

impl InstalledKind {
    /// The kind's name as printed in the install summary.
    pub fn label(&self) -> (r: &'static str)
        ensures
            r@ == kind_label(*self),
    {
        match self {
            InstalledKind::Binary => "binary",
            InstalledKind::StaticLib => "static-lib",
            InstalledKind::SharedLib => "shared-lib",
            InstalledKind::Header => "header",
            InstalledKind::Symlink => "symlink",
        }
    }
}

/// One installed file.
#[derive(Debug, PartialEq, Eq)]
pub struct InstalledItem {
    pub dst: String,
    pub kind: InstalledKind,
}

/// Everything that an installation put in place, in order.
pub struct InstallResult {
    pub items: Vec<InstalledItem>,
}

/// Settings of `freight install`.
pub struct InstallOptions {
    /// Installation prefix; `bin/`, `lib/` and `include/` go beneath it.
    pub prefix: String,
    /// Staging root prepended to the prefix (for package tools).
    pub destdir: Option<String>,
    /// Build in release mode before installing.
    pub release: bool,
    /// Skip the build step.
    pub no_build: bool,
    /// Cross-compilation target triple.
    pub target: Option<String>,
}

/// The default prefix: `C:\Program Files` on a Windows host, else
/// `/usr/local`.
pub fn default_prefix(windows_host: bool) -> (r: String)
    ensures
        r@ == (if windows_host {
            "C:\\Program Files"@
        } else {
            "/usr/local"@
        }),
{
    if windows_host {
        owned("C:\\Program Files")
    } else {
        owned("/usr/local")
    }
}

impl InstallOptions {
    /// The default options: the host's default prefix, no staging root, a
    /// release build, no target override.
    pub fn defaults(windows_host: bool) -> (r: InstallOptions)
        ensures
            r.prefix@ == (if windows_host {
                "C:\\Program Files"@
            } else {
                "/usr/local"@
            }),
            r.destdir is None,
            r.release,
            !r.no_build,
            r.target is None,
    {
        InstallOptions {
            prefix: default_prefix(windows_host),
            destdir: None,
            release: true,
            no_build: false,
            target: None,
        }
    }
}

// ── Paths ─────────────────────────────────────────────────────────────────────

/// `b` appended to `a` as a path: an absolute `b` replaces `a`; otherwise a
/// `/` separates them unless `a` is empty or already ends with one.
pub open spec fn join_path(a: Seq<char>, b: Seq<char>) -> Seq<char> {
    if b.len() > 0 && b[0] == '/' {
        b
    } else if a.len() == 0 {
        b
    } else if a[a.len() - 1] == '/' {
        a + b
    } else {
        a + seq!['/'] + b
    }
}

pub fn join_path_exec(a: &str, b: &str) -> (r: String)
    ensures
        r@ == join_path(a@, b@),
{
    let av = chars_of(a);
    let bv = chars_of(b);
    if bv.len() > 0 && bv[0] == '/' {
        owned(b)
    } else if av.len() == 0 {
        owned(b)
    } else if av[av.len() - 1] == '/' {
        string_of(&concat(&av, &bv))
    } else {
        let sep = vec!['/'];
        assert(sep@ == seq!['/']);
        string_of(&concat(&concat(&av, &sep), &bv))
    }
}

/// The effective on-disk install root: the prefix, or, with a staging root,
/// the prefix (without its leading `/`) beneath the staging root.
pub open spec fn install_root_spec(prefix: Seq<char>, destdir: Option<Seq<char>>) -> Seq<char> {
    match destdir {
        None => prefix,
        Some(dd) => join_path(dd, strip_char_start(prefix, '/')),
    }
}

/// The effective on-disk install root.
pub fn install_root(prefix: &str, destdir: Option<&str>) -> (r: String)
    ensures
        r@ == install_root_spec(
            prefix@,
            match destdir {
                Some(d) => Some(d@),
                None => None,
            },
        ),
{
    match destdir {
        None => owned(prefix),
        Some(dd) => {
            let p = chars_of(prefix);
            let mut i: usize = 0;
            assert(p@.subrange(0, p.len() as int) =~= p@);
            while i < p.len() && p[i] == '/'
                invariant
                    i <= p.len(),
                    strip_char_start(p@.subrange(i as int, p.len() as int), '/') == strip_char_start(
                        p@,
                        '/',
                    ),
                decreases p.len() - i,
            {
                assert(p@.subrange(i as int, p.len() as int).subrange(1, (p.len() - i) as int)
                    =~= p@.subrange(i + 1, p.len() as int));
                i = i + 1;
            }
            assert(p@.subrange(0, p.len() as int) =~= p@);
            let rel = string_of(&crate::text::slice_copy(&p, i, p.len()));
            join_path_exec(dd, rel.as_str())
        },
    }
}

/// The file name of an executable: `.exe` is added for Windows targets.
pub open spec fn executable_name_spec(name: Seq<char>, target_os: Seq<char>) -> Seq<char> {
    if target_os == "windows"@ && !ends_with(name, ".exe"@) {
        name + ".exe"@
    } else {
        name
    }
}

/// The file name of an executable: `.exe` is added for Windows targets.
pub fn executable_name(name: &str, target_os: &str) -> (r: String)
    ensures
        r@ == executable_name_spec(name@, target_os@),
{
    let n = chars_of(name);
    let exe = chars_of(".exe");
    let ends = n.len() >= exe.len() && {
        let tail = crate::text::slice_copy(&n, n.len() - exe.len(), n.len());
        crate::text::eq_chars(&tail, &exe)
    };
    if eq_str(&chars_of(target_os), "windows") && !ends {
        string_of(&concat(&n, &exe))
    } else {
        owned(name)
    }
}


// ── The installation plan ─────────────────────────────────────────────────────

/// One step of an installation, performed in order.
#[derive(Debug, PartialEq, Eq)]
pub enum InstallOp {
    /// Create a directory and its parents.
    CreateDir(String),
    /// Copy a file, creating the destination's directory.
    Copy { src: String, dst: String },
    /// Set a file's Unix permission bits.
    SetMode { path: String, mode: u32 },
    /// Replace `dir/link_name` with a symbolic link to `target`.
    Symlink { dir: String, link_name: String, target: String },
    /// Set the install name embedded in a macOS dylib (`install_name_tool -id`).
    SetInstallName { install_name: String, path: String },
    /// Refresh the dynamic linker cache for a directory.
    Ldconfig(String),
    /// Stop the installation with this error.
    Fail(String),
}

pub enum OpView {
    CreateDir(Seq<char>),
    Copy(Seq<char>, Seq<char>),
    SetMode(Seq<char>, u32),
    Symlink(Seq<char>, Seq<char>, Seq<char>),
    SetInstallName(Seq<char>, Seq<char>),
    Ldconfig(Seq<char>),
    Fail(Seq<char>),
}

impl View for InstallOp {
    type V = OpView;

    open spec fn view(&self) -> OpView {
        match self {
            InstallOp::CreateDir(d) => OpView::CreateDir(d@),
            InstallOp::Copy { src, dst } => OpView::Copy(src@, dst@),
            InstallOp::SetMode { path, mode } => OpView::SetMode(path@, *mode),
            InstallOp::Symlink { dir, link_name, target } => OpView::Symlink(
                dir@,
                link_name@,
                target@,
            ),
            InstallOp::SetInstallName { install_name, path } => OpView::SetInstallName(
                install_name@,
                path@,
            ),
            InstallOp::Ldconfig(d) => OpView::Ldconfig(d@),
            InstallOp::Fail(m) => OpView::Fail(m@),
        }
    }
}

pub struct ItemView {
    pub dst: Seq<char>,
    pub kind: InstalledKind,
}

impl View for InstalledItem {
    type V = ItemView;

    open spec fn view(&self) -> ItemView {
        ItemView { dst: self.dst@, kind: self.kind }
    }
}

/// How the package's library is built.
#[derive(PartialEq, Eq, Structural, Clone, Copy)]
pub enum LibType {
    Static,
    Shared,
    Header,
}

/// The package's `[lib]` section.
pub struct LibSpec {
    pub lib_type: LibType,
    /// A prebuilt library (`link` is set): there is no built artifact.
    pub prebuilt: bool,
    /// Public headers, relative to the project directory.
    pub hdrs: Vec<String>,
}

/// What an installation works from.
pub struct InstallRequest {
    pub project_dir: String,
    pub package_name: String,
    pub package_version: String,
    pub bins: Vec<String>,
    pub lib: Option<LibSpec>,
    /// `release` or `dev`.
    pub profile: String,
    /// The effective install root ([`install_root`]).
    pub root: String,
    /// The installation prefix as configured.
    pub prefix: String,
    pub target_os: String,
    /// Whether the root is a staging directory (`destdir` is set).
    pub staged: bool,
}

pub struct LibView {
    pub lib_type: LibType,
    pub prebuilt: bool,
    pub hdrs: Seq<Seq<char>>,
}

pub struct RequestView {
    pub project_dir: Seq<char>,
    pub name: Seq<char>,
    pub version: Seq<char>,
    pub bins: Seq<Seq<char>>,
    pub lib: Option<LibView>,
    pub profile: Seq<char>,
    pub root: Seq<char>,
    pub prefix: Seq<char>,
    pub target_os: Seq<char>,
    pub staged: bool,
}

impl View for InstallRequest {
    type V = RequestView;

    open spec fn view(&self) -> RequestView {
        RequestView {
            project_dir: self.project_dir@,
            name: self.package_name@,
            version: self.package_version@,
            bins: str_views(self.bins@),
            lib: match self.lib {
                Some(l) => Some(
                    LibView { lib_type: l.lib_type, prebuilt: l.prebuilt, hdrs: str_views(l.hdrs@) },
                ),
                None => None,
            },
            profile: self.profile@,
            root: self.root@,
            prefix: self.prefix@,
            target_os: self.target_os@,
            staged: self.staged,
        }
    }
}

/// The operations and the installed items of a plan.
pub struct InstallPlan {
    pub ops: Vec<InstallOp>,
    pub items: Vec<InstalledItem>,
}

pub open spec fn op_views(v: Seq<InstallOp>) -> Seq<OpView> {
    v.map_values(|o: InstallOp| o@)
}

pub open spec fn item_views(v: Seq<InstalledItem>) -> Seq<ItemView> {
    v.map_values(|i: InstalledItem| i@)
}

/// The directory of the build outputs: `<project>/target/<profile>`.
pub open spec fn out_dir(r: RequestView) -> Seq<char> {
    join_path(join_path(r.project_dir, "target"@), r.profile)
}

pub open spec fn bin_dir(r: RequestView) -> Seq<char> {
    join_path(r.root, "bin"@)
}

pub open spec fn lib_dir(r: RequestView) -> Seq<char> {
    join_path(r.root, "lib"@)
}

pub open spec fn missing_binary_msg(name: Seq<char>, profile: Seq<char>) -> Seq<char> {
    "binary '"@ + name + "' not found in target/"@ + profile + "/ \u{2014} run `freight build` first"@
}

/// A piece of a path between separators, as a component: empty pieces and
/// `.` name nothing.
pub open spec fn kept_segment(s: Seq<char>) -> Seq<Seq<char>> {
    if s.len() == 0 || s == seq!['.'] {
        seq![]
    } else {
        seq![s]
    }
}

/// The named components of a `/`-separated path, in order, as
/// `Path::components` gives them on Unix without the root: repeated and
/// trailing separators and `.` components are left out.
pub open spec fn path_segments(p: Seq<char>) -> Seq<Seq<char>>
    decreases p.len(),
{
    match rfind_char(p, '/') {
        None => kept_segment(p),
        Some(i) => {
            proof {
                crate::text::lemma_rfind_char(p, '/');
            }
            path_segments(p.subrange(0, i)) + kept_segment(p.subrange(i + 1, p.len() as int))
        },
    }
}

/// The file name of a `/`-separated path (`Path::file_name` on Unix): its
/// last component, or nothing (empty) when the path ends in `..` or has no
/// component.
pub open spec fn file_name_of(p: Seq<char>) -> Seq<char> {
    let c = path_segments(p);
    if c.len() == 0 || c.last() == seq!['.', '.'] {
        seq![]
    } else {
        c.last()
    }
}

/// Whether the absolute path `base` begins the path `path`, component by
/// component (`Path::starts_with` on Unix).
pub open spec fn path_starts_with(path: Seq<char>, base: Seq<char>) -> bool {
    let (bc, pc) = (path_segments(base), path_segments(path));
    &&& path.len() > 0
    &&& path[0] == '/'
    &&& bc.len() <= pc.len()
    &&& pc.subrange(0, bc.len() as int) == bc
}

/// Installing the binaries `bins`, in order: each is copied to `bin/` with
/// mode 755; a binary missing from the build outputs fails the installation.
/// The flag tells whether it failed.
pub open spec fn bins_plan(r: RequestView, ex: Seq<Seq<char>>, bins: Seq<Seq<char>>) -> (
    Seq<OpView>,
    Seq<ItemView>,
    bool,
)
    decreases bins.len(),
{
    if bins.len() == 0 {
        (seq![], seq![], false)
    } else {
        let (ops, items, failed) = bins_plan(r, ex, bins.drop_last());
        let name = bins.last();
        let file = executable_name_spec(name, r.target_os);
        let src = join_path(out_dir(r), file);
        let dst = join_path(bin_dir(r), file);
        if failed {
            (ops, items, true)
        } else if !ex.contains(src) {
            (ops.push(OpView::Fail(missing_binary_msg(name, r.profile))), items, true)
        } else {
            (
                ops + seq![
                    OpView::CreateDir(bin_dir(r)),
                    OpView::Copy(src, dst),
                    OpView::SetMode(dst, 0o755),
                ],
                items.push(ItemView { dst, kind: InstalledKind::Binary }),
                false,
            )
        }
    }
}

/// Installing a shared library the way the target OS expects: on Linux the
/// versioned file with its soname and linker-name links; on macOS the dylib
/// with its install name set beneath the prefix; elsewhere (Windows) the DLL
/// in `bin/` and its import library, when built, in `lib/`. Nothing when the
/// library was not built.
pub open spec fn shared_lib_plan(r: RequestView, ex: Seq<Seq<char>>) -> (Seq<OpView>, Seq<ItemView>) {
    let name = r.name;
    let ld = lib_dir(r);
    if r.target_os == "linux"@ {
        let src = join_path(out_dir(r), "lib"@ + name + ".so"@);
        if !ex.contains(src) {
            (seq![], seq![])
        } else {
            let major = first_segment(r.version, '.');
            let versioned = "lib"@ + name + ".so."@ + r.version;
            let soname = "lib"@ + name + ".so."@ + major;
            let unversioned = "lib"@ + name + ".so"@;
            let dst = join_path(ld, versioned);
            (
                seq![
                    OpView::Copy(src, dst),
                    OpView::SetMode(dst, 0o755),
                    OpView::Symlink(ld, soname, versioned),
                    OpView::Symlink(ld, unversioned, soname),
                ],
                seq![
                    ItemView { dst, kind: InstalledKind::SharedLib },
                    ItemView { dst: join_path(ld, soname), kind: InstalledKind::Symlink },
                    ItemView { dst: join_path(ld, unversioned), kind: InstalledKind::Symlink },
                ],
            )
        }
    } else if r.target_os == "macos"@ {
        let fname = "lib"@ + name + ".dylib"@;
        let src = join_path(out_dir(r), fname);
        if !ex.contains(src) {
            (seq![], seq![])
        } else {
            let dst = join_path(ld, fname);
            let install_name = join_path(join_path(r.prefix, "lib"@), fname);
            (
                seq![
                    OpView::Copy(src, dst),
                    OpView::SetMode(dst, 0o755),
                    OpView::SetInstallName(install_name, dst),
                ],
                seq![ItemView { dst, kind: InstalledKind::SharedLib }],
            )
        }
    } else {
        let src = join_path(out_dir(r), name + ".dll"@);
        if !ex.contains(src) {
            (seq![], seq![])
        } else {
            let bd = bin_dir(r);
            let dst = join_path(bd, name + ".dll"@);
            let imp_src = join_path(out_dir(r), name + ".lib"@);
            let imp_dst = join_path(ld, name + ".lib"@);
            if ex.contains(imp_src) {
                (
                    seq![OpView::CreateDir(bd), OpView::Copy(src, dst), OpView::Copy(imp_src, imp_dst)],
                    seq![
                        ItemView { dst, kind: InstalledKind::SharedLib },
                        ItemView { dst: imp_dst, kind: InstalledKind::StaticLib },
                    ],
                )
            } else {
                (
                    seq![OpView::CreateDir(bd), OpView::Copy(src, dst)],
                    seq![ItemView { dst, kind: InstalledKind::SharedLib }],
                )
            }
        }
    }
}

/// Installing the built library artifact (none for a prebuilt or
/// header-only library).
pub open spec fn artifact_plan(r: RequestView, l: LibView, ex: Seq<Seq<char>>) -> (
    Seq<OpView>,
    Seq<ItemView>,
) {
    if l.prebuilt {
        (seq![], seq![])
    } else {
        match l.lib_type {
            LibType::Static => {
                let fname = "lib"@ + r.name + ".a"@;
                let src = join_path(out_dir(r), fname);
                let dst = join_path(lib_dir(r), fname);
                if ex.contains(src) {
                    (
                        seq![OpView::Copy(src, dst), OpView::SetMode(dst, 0o644)],
                        seq![ItemView { dst, kind: InstalledKind::StaticLib }],
                    )
                } else {
                    (seq![], seq![])
                }
            },
            LibType::Shared => shared_lib_plan(r, ex),
            LibType::Header => (seq![], seq![]),
        }
    }
}

/// The header directory: `include/<package>` beneath the root.
pub open spec fn include_dir(r: RequestView) -> Seq<char> {
    join_path(join_path(r.root, "include"@), r.name)
}

/// Copying the headers `hdrs` that are files into the header directory.
pub open spec fn headers_plan(r: RequestView, files: Seq<Seq<char>>, hdrs: Seq<Seq<char>>) -> (
    Seq<OpView>,
    Seq<ItemView>,
)
    decreases hdrs.len(),
{
    if hdrs.len() == 0 {
        (seq![], seq![])
    } else {
        let (ops, items) = headers_plan(r, files, hdrs.drop_last());
        let src = join_path(r.project_dir, hdrs.last());
        let dst = join_path(include_dir(r), file_name_of(src));
        if files.contains(src) {
            (ops.push(OpView::Copy(src, dst)), items.push(ItemView { dst, kind: InstalledKind::Header }))
        } else {
            (ops, items)
        }
    }
}

/// Installing the library: `lib/` is created, the artifact installed, then
/// the public headers, if any.
pub open spec fn lib_plan(r: RequestView, l: LibView, ex: Seq<Seq<char>>, files: Seq<Seq<char>>) -> (
    Seq<OpView>,
    Seq<ItemView>,
) {
    let (aops, aitems) = artifact_plan(r, l, ex);
    let (hops, hitems) = if l.hdrs.len() > 0 {
        let (o, i) = headers_plan(r, files, l.hdrs);
        (seq![OpView::CreateDir(include_dir(r))] + o, i)
    } else {
        (seq![], seq![])
    };
    (seq![OpView::CreateDir(lib_dir(r))] + aops + hops, aitems + hitems)
}

pub open spec fn any_shared(items: Seq<ItemView>) -> bool {
    exists|i: int| 0 <= i < items.len() && #[trigger] items[i].kind == InstalledKind::SharedLib
}

/// The whole installation, given the paths that exist (`ex`) and those that
/// are regular files (`files`): the binaries, then the library; on Linux, a
/// linker-cache refresh when a shared library went to a real (unstaged) root.
pub open spec fn install_plan(r: RequestView, ex: Seq<Seq<char>>, files: Seq<Seq<char>>) -> (
    Seq<OpView>,
    Seq<ItemView>,
) {
    let (bops, bitems, failed) = bins_plan(r, ex, r.bins);
    if failed {
        (bops, bitems)
    } else {
        let (lops, litems) = match r.lib {
            Some(l) => lib_plan(r, l, ex, files),
            None => (seq![], seq![]),
        };
        let ops = bops + lops;
        let items = bitems + litems;
        if r.target_os == "linux"@ && any_shared(items) && !r.staged {
            (ops.push(OpView::Ldconfig(lib_dir(r))), items)
        } else {
            (ops, items)
        }
    }
}


/// `s` up to the first `c` (all of `s` when there is none).
pub open spec fn first_segment(s: Seq<char>, c: char) -> Seq<char> {
    match find_char_from(s, c, 0) {
        Some(i) => s.subrange(0, i),
        None => s,
    }
}

pub fn first_segment_exec(s: &str, c: char) -> (r: String)
    ensures
        r@ == first_segment(s@, c),
{
    let v = chars_of(s);
    match find_char_from_exec(&v, c, 0) {
        Some(i) => {
            proof {
                crate::text::lemma_find_char_from(v@, c, 0);
            }
            string_of(&slice_copy(&v, 0, i))
        },
        None => owned(s),
    }
}

fn is_kept(v: &Vec<char>, a: usize, b: usize) -> (r: bool)
    requires
        a <= b <= v.len(),
    ensures
        r == (kept_segment(v@.subrange(a as int, b as int)).len() > 0),
{
    let ghost seg = v@.subrange(a as int, b as int);
    if a == b {
        false
    } else if b == a + 1 && v[a] == '.' {
        assert(seg =~= seq!['.']);
        false
    } else {
        proof {
            if seg == seq!['.'] {
                assert(seg.len() == 1);
                assert(seg[0] == '.');
                assert(seg[0] == v@[a as int]);
            }
        }
        true
    }
}

/// Where the piece of `v[..end]` after its last separator starts.
fn after_last_slash(v: &Vec<char>, end: usize) -> (n: usize)
    requires
        end <= v.len(),
    ensures
        n <= end,
        n > 0 ==> rfind_char(v@.subrange(0, end as int), '/') == Some(n - 1),
        n == 0 ==> rfind_char(v@.subrange(0, end as int), '/') is None,
{
    let ghost t = v@.subrange(0, end as int);
    let mut n = end;
    while n > 0 && v[n - 1] != '/'
        invariant
            n <= end <= v.len(),
            t == v@.subrange(0, end as int),
            forall|j: int| n <= j < end ==> #[trigger] v@[j] != '/',
        decreases n,
    {
        n = n - 1;
    }
    proof {
        assert forall|j: int| n <= j < t.len() implies #[trigger] t[j] != '/' by {
            assert(t[j] == v@[j]);
        }
        if n > 0 {
            assert(t[n - 1] == v@[n - 1]);
        }
        lemma_rfind_last(t, n as int);
    }
    n
}

/// The bounds of the last component of `v[..end]`, if it has one.
fn last_segment(v: &Vec<char>, end: usize) -> (r: Option<(usize, usize)>)
    requires
        end <= v.len(),
    ensures
        match r {
            None => path_segments(v@.subrange(0, end as int)).len() == 0,
            Some((a, b)) => a <= b <= end && path_segments(v@.subrange(0, end as int)).len() > 0
                && path_segments(v@.subrange(0, end as int)).last() == v@.subrange(
                a as int,
                b as int,
            ),
        },
    decreases end,
{
    let ghost t = v@.subrange(0, end as int);
    let n = after_last_slash(v, end);
    assert(t.subrange(n as int, t.len() as int) =~= v@.subrange(n as int, end as int));
    if is_kept(v, n, end) {
        Some((n, end))
    } else if n == 0 {
        None
    } else {
        assert(t.subrange(0, n - 1) =~= v@.subrange(0, n - 1));
        assert(path_segments(t) =~= path_segments(v@.subrange(0, n - 1)));
        last_segment(v, n - 1)
    }
}

/// The named components of `v[..end]`, in order.
fn segments_exec(v: &Vec<char>, end: usize) -> (r: Vec<Vec<char>>)
    requires
        end <= v.len(),
    ensures
        r@.map_values(|x: Vec<char>| x@) == path_segments(v@.subrange(0, end as int)),
    decreases end,
{
    let ghost t = v@.subrange(0, end as int);
    let n = after_last_slash(v, end);
    assert(t.subrange(n as int, t.len() as int) =~= v@.subrange(n as int, end as int));
    let mut r = if n == 0 {
        Vec::new()
    } else {
        assert(t.subrange(0, n - 1) =~= v@.subrange(0, n - 1));
        segments_exec(v, n - 1)
    };
    let ghost before = r@.map_values(|x: Vec<char>| x@);
    if n == 0 {
        assert(t =~= v@.subrange(n as int, end as int));
        assert(before =~= Seq::<Seq<char>>::empty());
    }
    if is_kept(v, n, end) {
        let seg = slice_copy(v, n, end);
        r.push(seg);
        assert(r@.map_values(|x: Vec<char>| x@) =~= before + kept_segment(v@.subrange(n as int, end as int)));
    } else {
        assert(r@.map_values(|x: Vec<char>| x@) =~= before + kept_segment(v@.subrange(n as int, end as int)));
    }
    r
}

/// The named components of the path `p`.
pub fn path_segments_exec(p: &str) -> (r: Vec<Vec<char>>)
    ensures
        r@.map_values(|x: Vec<char>| x@) == path_segments(p@),
{
    let v = chars_of(p);
    assert(v@.subrange(0, v.len() as int) =~= v@);
    segments_exec(&v, v.len())
}

pub fn file_name_of_exec(p: &str) -> (r: String)
    ensures
        r@ == file_name_of(p@),
{
    let v = chars_of(p);
    assert(v@.subrange(0, v.len() as int) =~= v@);
    match last_segment(&v, v.len()) {
        None => String::new(),
        Some((a, b)) => {
            let seg = slice_copy(&v, a, b);
            if b - a == 2 && seg[0] == '.' && seg[1] == '.' {
                assert(seg@ =~= seq!['.', '.']);
                String::new()
            } else {
                proof {
                    if seg@ == seq!['.', '.'] {
                        assert(seg@.len() == 2);
                        assert(seg@[0] == '.' && seg@[1] == '.');
                    }
                }
                string_of(&seg)
            }
        },
    }
}

proof fn lemma_rfind_last(t: Seq<char>, n: int)
    requires
        0 <= n <= t.len(),
        forall|j: int| n <= j < t.len() ==> #[trigger] t[j] != '/',
        n > 0 ==> t[n - 1] == '/',
    ensures
        n > 0 ==> rfind_char(t, '/') == Some(n - 1),
        n == 0 ==> rfind_char(t, '/') is None,
    decreases t.len(),
{
    if t.len() > 0 {
        if n < t.len() {
            let d = t.subrange(0, t.len() - 1);
            assert forall|j: int| n <= j < d.len() implies #[trigger] d[j] != '/' by {
                assert(d[j] == t[j]);
            }
            if n > 0 {
                assert(d[n - 1] == t[n - 1]);
            }
            lemma_rfind_last(d, n);
        } else if n == 0 {
        }
    }
}

fn path_listed(v: &Vec<String>, p: &String) -> (r: bool)
    ensures
        r == str_views(v@).contains(p@),
{
    let pc = chars_of(p.as_str());
    let mut i: usize = 0;
    while i < v.len()
        invariant
            i <= v.len(),
            pc@ == p@,
            forall|j: int| 0 <= j < i ==> #[trigger] str_views(v@)[j] != p@,
        decreases v.len() - i,
    {
        if eq_str(&pc, v[i].as_str()) {
            assert(str_views(v@)[i as int] == p@);
            return true;
        }
        i = i + 1;
    }
    false
}

fn push_op(v: &mut Vec<InstallOp>, o: InstallOp)
    ensures
        op_views(final(v)@) == op_views(old(v)@).push(o@),
{
    let ghost before = v@;
    let ghost ov = o@;
    v.push(o);
    assert(op_views(v@) =~= op_views(before).push(ov));
}

fn push_item(v: &mut Vec<InstalledItem>, dst: &String, kind: InstalledKind)
    ensures
        item_views(final(v)@) == item_views(old(v)@).push(ItemView { dst: dst@, kind }),
{
    let ghost before = v@;
    v.push(InstalledItem { dst: owned(dst.as_str()), kind });
    assert(item_views(v@) =~= item_views(before).push(ItemView { dst: dst@, kind }));
}

fn cat2(a: &str, b: &str) -> (r: String)
    ensures
        r@ == a@ + b@,
{
    string_of(&concat(&chars_of(a), &chars_of(b)))
}

fn cat3(a: &str, b: &str, c: &str) -> (r: String)
    ensures
        r@ == a@ + b@ + c@,
{
    string_of(&concat(&concat(&chars_of(a), &chars_of(b)), &chars_of(c)))
}

fn out_dir_exec(r: &InstallRequest) -> (o: String)
    ensures
        o@ == out_dir(r@),
{
    join_path_exec(join_path_exec(r.project_dir.as_str(), "target").as_str(), r.profile.as_str())
}

fn op_copy(src: &String, dst: &String) -> (o: InstallOp)
    ensures
        o@ == OpView::Copy(src@, dst@),
{
    InstallOp::Copy { src: owned(src.as_str()), dst: owned(dst.as_str()) }
}

fn op_mode(path: &String, mode: u32) -> (o: InstallOp)
    ensures
        o@ == OpView::SetMode(path@, mode),
{
    InstallOp::SetMode { path: owned(path.as_str()), mode }
}

fn op_dir(path: &String) -> (o: InstallOp)
    ensures
        o@ == OpView::CreateDir(path@),
{
    InstallOp::CreateDir(owned(path.as_str()))
}

fn plan_bins(
    r: &InstallRequest,
    exists: &Vec<String>,
    ops: &mut Vec<InstallOp>,
    items: &mut Vec<InstalledItem>,
) -> (failed: bool)
    requires
        op_views(old(ops)@) == Seq::<OpView>::empty(),
        item_views(old(items)@) == Seq::<ItemView>::empty(),
    ensures
        (op_views(final(ops)@), item_views(final(items)@), failed) == bins_plan(
            r@,
            str_views(exists@),
            r@.bins,
        ),
{
    let ghost rv = r@;
    let ghost ex = str_views(exists@);
    let ghost bins = rv.bins;
    let out = out_dir_exec(r);
    let bd = join_path_exec(r.root.as_str(), "bin");
    let mut failed = false;
    let mut i: usize = 0;
    assert(bins.take(0) =~= Seq::<Seq<char>>::empty());
    while i < r.bins.len()
        invariant
            i <= r.bins.len(),
            rv == r@,
            ex == str_views(exists@),
            bins == rv.bins,
            out@ == out_dir(rv),
            bd@ == bin_dir(rv),
            (op_views(ops@), item_views(items@), failed) == bins_plan(rv, ex, bins.take(i as int)),
        decreases r.bins.len() - i,
    {
        assert(bins.take(i + 1).drop_last() =~= bins.take(i as int));
        assert(bins.take(i + 1).last() == r.bins@[i as int]@);
        if !failed {
            let file = executable_name(r.bins[i].as_str(), r.target_os.as_str());
            let src = join_path_exec(out.as_str(), file.as_str());
            let dst = join_path_exec(bd.as_str(), file.as_str());
            if !path_listed(exists, &src) {
                let mut m = cat3("binary '", r.bins[i].as_str(), "' not found in target/");
                m = cat3(m.as_str(), r.profile.as_str(), "/ \u{2014} run `freight build` first");
                push_op(ops, InstallOp::Fail(m));
                failed = true;
            } else {
                let ghost o0 = op_views(ops@);
                push_op(ops, op_dir(&bd));
                push_op(ops, op_copy(&src, &dst));
                push_op(ops, op_mode(&dst, 0o755));
                assert(op_views(ops@) =~= o0 + seq![
                    OpView::CreateDir(bin_dir(rv)),
                    OpView::Copy(src@, dst@),
                    OpView::SetMode(dst@, 0o755),
                ]);
                push_item(items, &dst, InstalledKind::Binary);
            }
        }
        i = i + 1;
    }
    assert(bins.take(i as int) =~= bins);
    failed
}


fn append_ops(v: &mut Vec<InstallOp>, mut more: Vec<InstallOp>)
    ensures
        op_views(final(v)@) == op_views(old(v)@) + op_views(more@),
{
    let ghost a = v@;
    let ghost b = more@;
    v.append(&mut more);
    assert(op_views(v@) =~= op_views(a) + op_views(b));
}

fn append_items(v: &mut Vec<InstalledItem>, mut more: Vec<InstalledItem>)
    ensures
        item_views(final(v)@) == item_views(old(v)@) + item_views(more@),
{
    let ghost a = v@;
    let ghost b = more@;
    v.append(&mut more);
    assert(item_views(v@) =~= item_views(a) + item_views(b));
}

fn plan_shared_lib(r: &InstallRequest, exists: &Vec<String>) -> (p: InstallPlan)
    ensures
        (op_views(p.ops@), item_views(p.items@)) == shared_lib_plan(r@, str_views(exists@)),
{
    let ghost rv = r@;
    let name = r.package_name.as_str();
    let out = out_dir_exec(r);
    let ld = join_path_exec(r.root.as_str(), "lib");
    let mut ops: Vec<InstallOp> = Vec::new();
    let mut items: Vec<InstalledItem> = Vec::new();
    assert(op_views(ops@) =~= Seq::<OpView>::empty());
    assert(item_views(items@) =~= Seq::<ItemView>::empty());
    let os = chars_of(r.target_os.as_str());
    if eq_str(&os, "linux") {
        let src = join_path_exec(out.as_str(), cat3("lib", name, ".so").as_str());
        if path_listed(exists, &src) {
            let major = first_segment_exec(r.package_version.as_str(), '.');
            let versioned = cat2(cat3("lib", name, ".so.").as_str(), r.package_version.as_str());
            let soname = cat2(cat3("lib", name, ".so.").as_str(), major.as_str());
            let unversioned = cat3("lib", name, ".so");
            let dst = join_path_exec(ld.as_str(), versioned.as_str());
            push_op(&mut ops, op_copy(&src, &dst));
            push_op(&mut ops, op_mode(&dst, 0o755));
            push_op(
                &mut ops,
                InstallOp::Symlink {
                    dir: owned(ld.as_str()),
                    link_name: owned(soname.as_str()),
                    target: owned(versioned.as_str()),
                },
            );
            push_op(
                &mut ops,
                InstallOp::Symlink {
                    dir: owned(ld.as_str()),
                    link_name: owned(unversioned.as_str()),
                    target: owned(soname.as_str()),
                },
            );
            push_item(&mut items, &dst, InstalledKind::SharedLib);
            push_item(&mut items, &join_path_exec(ld.as_str(), soname.as_str()), InstalledKind::Symlink);
            push_item(
                &mut items,
                &join_path_exec(ld.as_str(), unversioned.as_str()),
                InstalledKind::Symlink,
            );
            assert(op_views(ops@) =~= shared_lib_plan(rv, str_views(exists@)).0);
            assert(item_views(items@) =~= shared_lib_plan(rv, str_views(exists@)).1);
        }
    } else if eq_str(&os, "macos") {
        let fname = cat3("lib", name, ".dylib");
        let src = join_path_exec(out.as_str(), fname.as_str());
        if path_listed(exists, &src) {
            let dst = join_path_exec(ld.as_str(), fname.as_str());
            let install_name = join_path_exec(
                join_path_exec(r.prefix.as_str(), "lib").as_str(),
                fname.as_str(),
            );
            push_op(&mut ops, op_copy(&src, &dst));
            push_op(&mut ops, op_mode(&dst, 0o755));
            push_op(
                &mut ops,
                InstallOp::SetInstallName {
                    install_name: owned(install_name.as_str()),
                    path: owned(dst.as_str()),
                },
            );
            push_item(&mut items, &dst, InstalledKind::SharedLib);
            assert(op_views(ops@) =~= shared_lib_plan(rv, str_views(exists@)).0);
            assert(item_views(items@) =~= shared_lib_plan(rv, str_views(exists@)).1);
        }
    } else {
        let src = join_path_exec(out.as_str(), cat2(name, ".dll").as_str());
        if path_listed(exists, &src) {
            let bd = join_path_exec(r.root.as_str(), "bin");
            let dst = join_path_exec(bd.as_str(), cat2(name, ".dll").as_str());
            let imp_src = join_path_exec(out.as_str(), cat2(name, ".lib").as_str());
            let imp_dst = join_path_exec(ld.as_str(), cat2(name, ".lib").as_str());
            push_op(&mut ops, op_dir(&bd));
            push_op(&mut ops, op_copy(&src, &dst));
            push_item(&mut items, &dst, InstalledKind::SharedLib);
            if path_listed(exists, &imp_src) {
                push_op(&mut ops, op_copy(&imp_src, &imp_dst));
                push_item(&mut items, &imp_dst, InstalledKind::StaticLib);
            }
            assert(op_views(ops@) =~= shared_lib_plan(rv, str_views(exists@)).0);
            assert(item_views(items@) =~= shared_lib_plan(rv, str_views(exists@)).1);
        }
    }
    InstallPlan { ops, items }
}


fn plan_artifact(r: &InstallRequest, l: &LibSpec, exists: &Vec<String>) -> (p: InstallPlan)
    ensures
        (op_views(p.ops@), item_views(p.items@)) == artifact_plan(
            r@,
            LibView { lib_type: l.lib_type, prebuilt: l.prebuilt, hdrs: str_views(l.hdrs@) },
            str_views(exists@),
        ),
{
    let mut ops: Vec<InstallOp> = Vec::new();
    let mut items: Vec<InstalledItem> = Vec::new();
    assert(op_views(ops@) =~= Seq::<OpView>::empty());
    assert(item_views(items@) =~= Seq::<ItemView>::empty());
    if l.prebuilt {
        return InstallPlan { ops, items };
    }
    match l.lib_type {
        LibType::Static => {
            let fname = cat3("lib", r.package_name.as_str(), ".a");
            let src = join_path_exec(out_dir_exec(r).as_str(), fname.as_str());
            let dst = join_path_exec(join_path_exec(r.root.as_str(), "lib").as_str(), fname.as_str());
            if path_listed(exists, &src) {
                push_op(&mut ops, op_copy(&src, &dst));
                push_op(&mut ops, op_mode(&dst, 0o644));
                push_item(&mut items, &dst, InstalledKind::StaticLib);
                assert(op_views(ops@) =~= seq![
                    OpView::Copy(src@, dst@),
                    OpView::SetMode(dst@, 0o644),
                ]);
                assert(item_views(items@) =~= seq![
                    ItemView { dst: dst@, kind: InstalledKind::StaticLib },
                ]);
            }
            InstallPlan { ops, items }
        },
        LibType::Shared => plan_shared_lib(r, exists),
        LibType::Header => InstallPlan { ops, items },
    }
}

fn plan_headers(r: &InstallRequest, hdrs: &Vec<String>, files: &Vec<String>) -> (p: InstallPlan)
    ensures
        (op_views(p.ops@), item_views(p.items@)) == headers_plan(
            r@,
            str_views(files@),
            str_views(hdrs@),
        ),
{
    let ghost rv = r@;
    let ghost hv = str_views(hdrs@);
    let ghost fv = str_views(files@);
    let inc = join_path_exec(
        join_path_exec(r.root.as_str(), "include").as_str(),
        r.package_name.as_str(),
    );
    let mut ops: Vec<InstallOp> = Vec::new();
    let mut items: Vec<InstalledItem> = Vec::new();
    assert(op_views(ops@) =~= Seq::<OpView>::empty());
    assert(item_views(items@) =~= Seq::<ItemView>::empty());
    assert(hv.take(0) =~= Seq::<Seq<char>>::empty());
    let mut i: usize = 0;
    while i < hdrs.len()
        invariant
            i <= hdrs.len(),
            rv == r@,
            hv == str_views(hdrs@),
            fv == str_views(files@),
            inc@ == include_dir(rv),
            (op_views(ops@), item_views(items@)) == headers_plan(rv, fv, hv.take(i as int)),
        decreases hdrs.len() - i,
    {
        assert(hv.take(i + 1).drop_last() =~= hv.take(i as int));
        assert(hv.take(i + 1).last() == hdrs@[i as int]@);
        let src = join_path_exec(r.project_dir.as_str(), hdrs[i].as_str());
        if path_listed(files, &src) {
            let dst = join_path_exec(inc.as_str(), file_name_of_exec(src.as_str()).as_str());
            push_op(&mut ops, op_copy(&src, &dst));
            push_item(&mut items, &dst, InstalledKind::Header);
        }
        i = i + 1;
    }
    assert(hv.take(i as int) =~= hv);
    InstallPlan { ops, items }
}

/// Plans the installation of request `r`, given the paths that exist and
/// those that are regular files. Performing the operations in order, and
/// stopping at a `Fail`, installs the package as `freight install` does; the
/// items are what it reports.
pub fn plan_install(r: &InstallRequest, exists: &Vec<String>, files: &Vec<String>) -> (p: InstallPlan)
    ensures
        (op_views(p.ops@), item_views(p.items@)) == install_plan(
            r@,
            str_views(exists@),
            str_views(files@),
        ),
{
    let ghost rv = r@;
    let mut ops: Vec<InstallOp> = Vec::new();
    let mut items: Vec<InstalledItem> = Vec::new();
    assert(op_views(ops@) =~= Seq::<OpView>::empty());
    assert(item_views(items@) =~= Seq::<ItemView>::empty());
    let failed = plan_bins(r, exists, &mut ops, &mut items);
    if failed {
        return InstallPlan { ops, items };
    }
    let ld = join_path_exec(r.root.as_str(), "lib");
    let mut shared = false;
    match &r.lib {
        Some(l) => {
            let ghost lv = LibView { lib_type: l.lib_type, prebuilt: l.prebuilt, hdrs: str_views(l.hdrs@) };
            let ghost o0 = op_views(ops@);
            let ghost i0 = item_views(items@);
            push_op(&mut ops, op_dir(&ld));
            let a = plan_artifact(r, l, exists);
            append_ops(&mut ops, a.ops);
            append_items(&mut items, a.items);
            if l.hdrs.len() > 0 {
                let inc = join_path_exec(
                    join_path_exec(r.root.as_str(), "include").as_str(),
                    r.package_name.as_str(),
                );
                push_op(&mut ops, op_dir(&inc));
                let h = plan_headers(r, &l.hdrs, files);
                append_ops(&mut ops, h.ops);
                append_items(&mut items, h.items);
            }
            assert(op_views(ops@) =~= o0 + lib_plan(rv, lv, str_views(exists@), str_views(files@)).0);
            assert(item_views(items@) =~= i0 + lib_plan(rv, lv, str_views(exists@), str_views(files@)).1);
        },
        None => {
            assert(op_views(ops@) =~= op_views(ops@) + Seq::<OpView>::empty());
            assert(item_views(items@) =~= item_views(items@) + Seq::<ItemView>::empty());
        },
    }
    let mut k: usize = 0;
    while k < items.len()
        invariant
            k <= items.len(),
            shared <==> exists|j: int| 0 <= j < k && #[trigger] item_views(items@)[j].kind
                == InstalledKind::SharedLib,
        decreases items.len() - k,
    {
        assert(item_views(items@)[k as int].kind == items@[k as int].kind);
        if items[k].kind == InstalledKind::SharedLib {
            shared = true;
        }
        k = k + 1;
    }
    if eq_str(&chars_of(r.target_os.as_str()), "linux") && shared && !r.staged {
        push_op(&mut ops, InstallOp::Ldconfig(ld));
    }
    InstallPlan { ops, items }
}


/// The paths whose existence an installation plan depends on: each binary's
/// build output and every library artifact the package could have built.
pub open spec fn exist_candidates(r: RequestView) -> Seq<Seq<char>> {
    r.bins.map_values(|b: Seq<char>| join_path(out_dir(r), executable_name_spec(b, r.target_os)))
        + seq![
        join_path(out_dir(r), "lib"@ + r.name + ".a"@),
        join_path(out_dir(r), "lib"@ + r.name + ".so"@),
        join_path(out_dir(r), "lib"@ + r.name + ".dylib"@),
        join_path(out_dir(r), r.name + ".dll"@),
        join_path(out_dir(r), r.name + ".lib"@),
    ]
}

/// The header paths whose being regular files an installation plan depends on.
pub open spec fn file_candidates(r: RequestView) -> Seq<Seq<char>> {
    match r.lib {
        Some(l) => l.hdrs.map_values(|h: Seq<char>| join_path(r.project_dir, h)),
        None => seq![],
    }
}

/// The paths to test before planning: which of the first list exist, and
/// which of the second are regular files.
pub fn install_candidates(r: &InstallRequest) -> (c: (Vec<String>, Vec<String>))
    ensures
        str_views(c.0@) == exist_candidates(r@),
        str_views(c.1@) == file_candidates(r@),
{
    let ghost rv = r@;
    let out = out_dir_exec(r);
    let mut ex: Vec<String> = Vec::new();
    let mut i: usize = 0;
    while i < r.bins.len()
        invariant
            i <= r.bins.len(),
            rv == r@,
            out@ == out_dir(rv),
            str_views(ex@) == rv.bins.take(i as int).map_values(
                |b: Seq<char>| join_path(out_dir(rv), executable_name_spec(b, rv.target_os)),
            ),
        decreases r.bins.len() - i,
    {
        let ghost before = str_views(ex@);
        let f = executable_name(r.bins[i].as_str(), r.target_os.as_str());
        let p = join_path_exec(out.as_str(), f.as_str());
        let ghost pv = p@;
        ex.push(p);
        assert(rv.bins[i as int] == r.bins@[i as int]@);
        assert(str_views(ex@) =~= before.push(pv));
        assert(rv.bins.take(i + 1) =~= rv.bins.take(i as int).push(rv.bins[i as int]));
        assert(str_views(ex@) =~= rv.bins.take(i + 1).map_values(
            |b: Seq<char>| join_path(out_dir(rv), executable_name_spec(b, rv.target_os)),
        ));
        i = i + 1;
    }
    assert(rv.bins.take(i as int) =~= rv.bins);
    let ghost bins_part = str_views(ex@);
    let name = r.package_name.as_str();
    ex.push(join_path_exec(out.as_str(), cat3("lib", name, ".a").as_str()));
    ex.push(join_path_exec(out.as_str(), cat3("lib", name, ".so").as_str()));
    ex.push(join_path_exec(out.as_str(), cat3("lib", name, ".dylib").as_str()));
    ex.push(join_path_exec(out.as_str(), cat2(name, ".dll").as_str()));
    ex.push(join_path_exec(out.as_str(), cat2(name, ".lib").as_str()));
    assert(str_views(ex@) =~= exist_candidates(rv));
    let mut fs: Vec<String> = Vec::new();
    match &r.lib {
        Some(l) => {
            let mut k: usize = 0;
            while k < l.hdrs.len()
                invariant
                    k <= l.hdrs.len(),
                    rv == r@,
                    str_views(fs@) == str_views(l.hdrs@).take(k as int).map_values(
                        |h: Seq<char>| join_path(rv.project_dir, h),
                    ),
                decreases l.hdrs.len() - k,
            {
                let ghost before = str_views(fs@);
                let p = join_path_exec(r.project_dir.as_str(), l.hdrs[k].as_str());
                let ghost pv = p@;
                fs.push(p);
                assert(str_views(l.hdrs@)[k as int] == l.hdrs@[k as int]@);
                assert(str_views(fs@) =~= before.push(pv));
                assert(str_views(l.hdrs@).take(k + 1) =~= str_views(l.hdrs@).take(k as int).push(
                    str_views(l.hdrs@)[k as int],
                ));
                assert(str_views(fs@) =~= str_views(l.hdrs@).take(k + 1).map_values(
                    |h: Seq<char>| join_path(rv.project_dir, h),
                ));
                k = k + 1;
            }
            assert(str_views(l.hdrs@).take(k as int) =~= str_views(l.hdrs@));
        },
        None => {
            assert(str_views(fs@) =~= Seq::<Seq<char>>::empty());
        },
    }
    (ex, fs)
}

} // verus!
