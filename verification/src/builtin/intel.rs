//! Intel oneAPI compiler templates.

use vstd::prelude::*;
use crate::builtin::{empty_strs, no_templates};
use crate::template::{CompilerTemplate, DefView, LinkingParams, LinkingView, ToolchainDef, defs, empty_def, push_link, push_str, push_template};
use crate::text::owned;

verus! {

pub open spec fn intel_base_def(name: Seq<char>, binary: Seq<char>) -> DefView {
    DefView {
        name: name,
        binary: binary,
        family: "intel"@,
        version_arg: "--version"@,
        flags_debug: "-g"@,
        supported_archs: Seq::<Seq<char>>::empty().push("x86"@).push("x86_64"@),
        supported_os: Seq::<Seq<char>>::empty().push("linux"@).push("windows"@),
        required_env: Seq::<Seq<char>>::empty().push("ONEAPI_ROOT"@),
        flags_opt: map![
            "0"@ => "-O0"@,
            "1"@ => "-O1"@,
            "2"@ => "-O2"@,
            "3"@ => "-O3"@,
        ],
        structure: map![
            "include_dir"@ => "-I{path}"@,
            "define"@ => "-D{name}"@,
            "define_value"@ => "-D{name}={value}"@,
            "output"@ => "-o {path}"@,
            "compile_only"@ => "-c"@,
        ],
        ..empty_def()
    }
}

pub open spec fn icpx_def() -> DefView {
    let b = intel_base_def("icpx"@, "icpx"@);
    DefView {
        version_regex: r"\b(\d+\.\d+\.\d+)\b"@,
        extensions: Seq::<Seq<char>>::empty().push(".cpp"@).push(".cc"@).push(".cxx"@).push(".c++"@).push(".sycl"@),
        sanitizer_options: Seq::<Seq<char>>::empty().push("address"@).push("undefined"@).push("thread"@).push("leak"@),
        always_flags: Seq::<Seq<char>>::empty().push("-fsycl"@),
        flags_opt: b.flags_opt
            .insert("s"@, "-Os"@)
            .insert("z"@, "-Oz"@),
        flags_warnings: b.flags_warnings
            .insert("none"@, ""@)
            .insert("default"@, "-Wall"@)
            .insert("all"@, "-Wall -Wextra"@)
            .insert("error"@, "-Wall -Wextra -Werror"@),
        flags_lto: "-flto"@,
        sanitize: "-fsanitize={values}"@,
        structure: b.structure
            .insert("dep_file"@, "-MMD -MF {path}"@)
            .insert("target"@, "--target={triple}"@)
            .insert("sysroot"@, "--sysroot={path}"@),
        standards: b.standards
            .insert("c++17"@, "-std=c++17"@)
            .insert("c++20"@, "-std=c++20"@)
            .insert("c++23"@, "-std=c++23"@),
        toolset: b.toolset
            .insert("ld"@, "icpx"@),
        linking: b.linking
            .push(("sycl"@, LinkingView {
                abi: "sycl"@,
                compatible: Seq::<Seq<char>>::empty().push("c++"@).push("c"@).push("fortran"@),
                linker: ""@,
                extensions: Seq::<Seq<char>>::empty().push(".sycl"@).push(".cpp"@).push(".cc"@).push(".cxx"@),
                compile_binary: None,
            })),
        ..b
    }
}

pub open spec fn ifx_def() -> DefView {
    let b = intel_base_def("ifx"@, "ifx"@);
    DefView {
        version_regex: r"(\d+\.\d+\.\d+)"@,
        extensions: Seq::<Seq<char>>::empty().push(".f90"@).push(".f95"@).push(".f03"@).push(".f08"@).push(".f"@).push(".F90"@),
        sanitizer_options: Seq::<Seq<char>>::empty().push("address"@).push("undefined"@),
        flags_opt: b.flags_opt
            .insert("s"@, "-O2"@)
            .insert("z"@, "-O2"@),
        flags_warnings: b.flags_warnings
            .insert("none"@, "-warn none"@)
            .insert("default"@, ""@)
            .insert("all"@, "-warn all"@)
            .insert("error"@, "-warn all -warn errors"@),
        flags_lto: "-ipo"@,
        structure: b.structure
            .insert("dep_file"@, "-cpp -MMD -MF {path}"@),
        standards: b.standards
            .insert("f95"@, "-std=f95"@)
            .insert("f2003"@, "-std=f2003"@)
            .insert("f2008"@, "-std=f2008"@)
            .insert("f2018"@, "-std=f2018"@),
        toolset: b.toolset
            .insert("ld"@, "ifx"@)
            .insert("ar"@, "ar"@)
            .insert("strip"@, "strip"@),
        linking: b.linking
            .push(("fortran"@, LinkingView {
                abi: "fortran"@,
                compatible: Seq::<Seq<char>>::empty().push("c"@),
                linker: ""@,
                extensions: Seq::<Seq<char>>::empty().push(".f90"@).push(".f95"@).push(".f03"@).push(".f08"@).push(".f"@).push(".F90"@),
                compile_binary: None,
            })),
        ..b
    }
}

pub open spec fn ispc_def() -> DefView {
    DefView {
        name: "ispc"@,
        binary: "ispc"@,
        family: "intel"@,
        version_arg: "--version"@,
        version_regex: r"(\d+\.\d+\.\d+)"@,
        extensions: Seq::<Seq<char>>::empty().push(".ispc"@),
        supported_archs: Seq::<Seq<char>>::empty().push("x86_64"@).push("aarch64"@),
        requires_toolchain: Seq::<Seq<char>>::empty().push("cpp"@),
        flags_debug: "-g"@,
        flags_lto: ""@,
        flags_opt: map![
            "0"@ => "-O0"@,
            "1"@ => "-O1"@,
            "2"@ => "-O2"@,
            "3"@ => "-O3"@,
            "s"@ => "-O2"@,
            "z"@ => "-O2"@,
        ],
        flags_warnings: map![
            "none"@ => "--woff"@,
            "default"@ => ""@,
            "all"@ => ""@,
            "error"@ => "--werror"@,
        ],
        structure: map![
            "include_dir"@ => "-I{path}"@,
            "define"@ => "-D{name}"@,
            "define_value"@ => "-D{name}={value}"@,
            "output"@ => "-o {path}"@,
            "compile_only"@ => ""@,
            "dep_file"@ => "-MMM {path}"@,
        ],
        toolset: map![
            "ld"@ => "ispc"@,
        ],
        linking: Seq::empty()
            .push(("ispc"@, LinkingView {
                abi: "ispc"@,
                compatible: Seq::<Seq<char>>::empty().push("c++"@).push("c"@),
                linker: ""@,
                extensions: Seq::<Seq<char>>::empty().push(".ispc"@),
                compile_binary: None,
            })),
        ..empty_def()
    }
}

/// The definitions of this family's templates, in order.
pub open spec fn templates_defs() -> Seq<DefView> {
    Seq::<DefView>::empty().push(icpx_def()).push(ifx_def()).push(ispc_def())
}

fn intel_base(name: &str, binary: &str) -> (r: ToolchainDef)
    ensures
        r@ == intel_base_def(name@, binary@),
{
    let mut d = ToolchainDef::empty();
    d.name = owned(name);
    d.binary = owned(binary);
    d.family = owned("intel");
    d.version_arg = owned("--version");
    d.flags_debug = owned("-g");
    d.supported_archs = empty_strs();
    push_str(&mut d.supported_archs, "x86");
    push_str(&mut d.supported_archs, "x86_64");
    d.supported_os = empty_strs();
    push_str(&mut d.supported_os, "linux");
    push_str(&mut d.supported_os, "windows");
    d.required_env = empty_strs();
    push_str(&mut d.required_env, "ONEAPI_ROOT");
    d.flags_opt.put("0", "-O0");
    d.flags_opt.put("1", "-O1");
    d.flags_opt.put("2", "-O2");
    d.flags_opt.put("3", "-O3");
    d.structure.put("include_dir", "-I{path}");
    d.structure.put("define", "-D{name}");
    d.structure.put("define_value", "-D{name}={value}");
    d.structure.put("output", "-o {path}");
    d.structure.put("compile_only", "-c");
    d
}

pub fn icpx() -> (r: CompilerTemplate)
    ensures
        r.def@ == icpx_def(),
{
    let mut d = intel_base("icpx", "icpx");
    d.version_regex = owned(r"\b(\d+\.\d+\.\d+)\b");
    d.extensions = empty_strs();
    push_str(&mut d.extensions, ".cpp");
    push_str(&mut d.extensions, ".cc");
    push_str(&mut d.extensions, ".cxx");
    push_str(&mut d.extensions, ".c++");
    push_str(&mut d.extensions, ".sycl");
    d.sanitizer_options = empty_strs();
    push_str(&mut d.sanitizer_options, "address");
    push_str(&mut d.sanitizer_options, "undefined");
    push_str(&mut d.sanitizer_options, "thread");
    push_str(&mut d.sanitizer_options, "leak");
    d.always_flags = empty_strs();
    push_str(&mut d.always_flags, "-fsycl");
    d.flags_opt.put("s", "-Os");
    d.flags_opt.put("z", "-Oz");
    d.flags_warnings.put("none", "");
    d.flags_warnings.put("default", "-Wall");
    d.flags_warnings.put("all", "-Wall -Wextra");
    d.flags_warnings.put("error", "-Wall -Wextra -Werror");
    d.flags_lto = owned("-flto");
    d.sanitize = owned("-fsanitize={values}");
    d.structure.put("dep_file", "-MMD -MF {path}");
    d.structure.put("target", "--target={triple}");
    d.structure.put("sysroot", "--sysroot={path}");
    d.standards.put("c++17", "-std=c++17");
    d.standards.put("c++20", "-std=c++20");
    d.standards.put("c++23", "-std=c++23");
    d.toolset.put("ld", "icpx");
    {
        let mut compatible = empty_strs();
        push_str(&mut compatible, "c++");
        push_str(&mut compatible, "c");
        push_str(&mut compatible, "fortran");
        let mut extensions = empty_strs();
        push_str(&mut extensions, ".sycl");
        push_str(&mut extensions, ".cpp");
        push_str(&mut extensions, ".cc");
        push_str(&mut extensions, ".cxx");
        push_link(&mut d.linking, "sycl", LinkingParams {
            abi: owned("sycl"),
            compatible,
            linker: owned(""),
            extensions,
            compile_binary: None,
        });
    }
    proof {
        reveal_strlit("icpx");
    }
    CompilerTemplate::from_def(d).unwrap()
}

pub fn ifx() -> (r: CompilerTemplate)
    ensures
        r.def@ == ifx_def(),
{
    let mut d = intel_base("ifx", "ifx");
    d.version_regex = owned(r"(\d+\.\d+\.\d+)");
    d.extensions = empty_strs();
    push_str(&mut d.extensions, ".f90");
    push_str(&mut d.extensions, ".f95");
    push_str(&mut d.extensions, ".f03");
    push_str(&mut d.extensions, ".f08");
    push_str(&mut d.extensions, ".f");
    push_str(&mut d.extensions, ".F90");
    d.sanitizer_options = empty_strs();
    push_str(&mut d.sanitizer_options, "address");
    push_str(&mut d.sanitizer_options, "undefined");
    d.flags_opt.put("s", "-O2");
    d.flags_opt.put("z", "-O2");
    d.flags_warnings.put("none", "-warn none");
    d.flags_warnings.put("default", "");
    d.flags_warnings.put("all", "-warn all");
    d.flags_warnings.put("error", "-warn all -warn errors");
    d.flags_lto = owned("-ipo");
    d.structure.put("dep_file", "-cpp -MMD -MF {path}");
    d.standards.put("f95", "-std=f95");
    d.standards.put("f2003", "-std=f2003");
    d.standards.put("f2008", "-std=f2008");
    d.standards.put("f2018", "-std=f2018");
    d.toolset.put("ld", "ifx");
    d.toolset.put("ar", "ar");
    d.toolset.put("strip", "strip");
    {
        let mut compatible = empty_strs();
        push_str(&mut compatible, "c");
        let mut extensions = empty_strs();
        push_str(&mut extensions, ".f90");
        push_str(&mut extensions, ".f95");
        push_str(&mut extensions, ".f03");
        push_str(&mut extensions, ".f08");
        push_str(&mut extensions, ".f");
        push_str(&mut extensions, ".F90");
        push_link(&mut d.linking, "fortran", LinkingParams {
            abi: owned("fortran"),
            compatible,
            linker: owned(""),
            extensions,
            compile_binary: None,
        });
    }
    proof {
        reveal_strlit("ifx");
    }
    CompilerTemplate::from_def(d).unwrap()
}

pub fn ispc() -> (r: CompilerTemplate)
    ensures
        r.def@ == ispc_def(),
{
    let mut d = ToolchainDef::empty();
    d.name = owned("ispc");
    d.binary = owned("ispc");
    d.family = owned("intel");
    d.version_arg = owned("--version");
    d.version_regex = owned(r"(\d+\.\d+\.\d+)");
    d.extensions = empty_strs();
    push_str(&mut d.extensions, ".ispc");
    d.supported_archs = empty_strs();
    push_str(&mut d.supported_archs, "x86_64");
    push_str(&mut d.supported_archs, "aarch64");
    d.requires_toolchain = empty_strs();
    push_str(&mut d.requires_toolchain, "cpp");
    d.flags_debug = owned("-g");
    d.flags_lto = owned("");
    d.flags_opt.put("0", "-O0");
    d.flags_opt.put("1", "-O1");
    d.flags_opt.put("2", "-O2");
    d.flags_opt.put("3", "-O3");
    d.flags_opt.put("s", "-O2");
    d.flags_opt.put("z", "-O2");
    d.flags_warnings.put("none", "--woff");
    d.flags_warnings.put("default", "");
    d.flags_warnings.put("all", "");
    d.flags_warnings.put("error", "--werror");
    d.structure.put("include_dir", "-I{path}");
    d.structure.put("define", "-D{name}");
    d.structure.put("define_value", "-D{name}={value}");
    d.structure.put("output", "-o {path}");
    d.structure.put("compile_only", "");
    d.structure.put("dep_file", "-MMM {path}");
    d.toolset.put("ld", "ispc");
    {
        let mut compatible = empty_strs();
        push_str(&mut compatible, "c++");
        push_str(&mut compatible, "c");
        let mut extensions = empty_strs();
        push_str(&mut extensions, ".ispc");
        push_link(&mut d.linking, "ispc", LinkingParams {
            abi: owned("ispc"),
            compatible,
            linker: owned(""),
            extensions,
            compile_binary: None,
        });
    }
    proof {
        reveal_strlit("ispc");
    }
    CompilerTemplate::from_def(d).unwrap()
}

/// The templates of this family, in order.
pub fn templates() -> (r: Vec<CompilerTemplate>)
    ensures
        defs(r@) == templates_defs(),
{
    let mut v = no_templates();
    push_template(&mut v, icpx());
    push_template(&mut v, ifx());
    push_template(&mut v, ispc());
    v
}

} // verus!
