//! Templates for less common compilers (TCC, DMD, OpenCL, Circle, NAG, GNAT, Swift).

use vstd::prelude::*;
use crate::builtin::{empty_strs, no_templates};
use crate::template::{CompilerTemplate, DefView, HandlerFn, HandlerView, LinkingParams, LinkingView, OptionHandler, ToolchainDef, defs, empty_def, push_link, push_str, push_template};
use crate::text::owned;

verus! {

pub open spec fn tcc_def() -> DefView {
    DefView {
        name: "tcc"@,
        binary: "tcc"@,
        family: ""@,
        version_arg: "-v"@,
        version_regex: r"version (\d+\.\d+\.\d+)"@,
        extensions: Seq::<Seq<char>>::empty().push(".c"@),
        flags_debug: "-g"@,
        flags_lto: ""@,
        flags_opt: map![
            "0"@ => ""@,
            "1"@ => ""@,
            "2"@ => ""@,
            "3"@ => ""@,
            "s"@ => ""@,
            "z"@ => ""@,
        ],
        flags_warnings: map![
            "none"@ => ""@,
            "default"@ => "-Wall"@,
            "all"@ => "-Wall"@,
            "error"@ => "-Wall -Werror"@,
        ],
        standards: map![
            "c99"@ => "-std=c99"@,
            "c11"@ => "-std=c11"@,
            "c17"@ => "-std=c17"@,
        ],
        structure: map![
            "include_dir"@ => "-I{path}"@,
            "define"@ => "-D{name}"@,
            "define_value"@ => "-D{name}={value}"@,
            "output"@ => "-o {path}"@,
            "compile_only"@ => "-c"@,
        ],
        toolset: map![
            "cc"@ => "tcc"@,
            "ld"@ => "tcc"@,
            "ar"@ => "tcc"@,
        ],
        linking: Seq::empty()
            .push(("c"@, LinkingView {
                abi: "c"@,
                compatible: Seq::<Seq<char>>::empty(),
                linker: ""@,
                extensions: Seq::<Seq<char>>::empty().push(".c"@),
                compile_binary: Some("tcc"@),
            })),
        ..empty_def()
    }
}

pub open spec fn dmd_def() -> DefView {
    DefView {
        name: "dmd"@,
        binary: "dmd"@,
        family: ""@,
        version_arg: "--version"@,
        version_regex: r"v(\d+\.\d+\.\d+)"@,
        extensions: Seq::<Seq<char>>::empty().push(".d"@),
        flags_debug: "-g"@,
        flags_lto: ""@,
        flags_opt: map![
            "0"@ => ""@,
            "1"@ => "-O"@,
            "2"@ => "-O"@,
            "3"@ => "-O -release"@,
            "s"@ => "-O -release"@,
            "z"@ => "-O -release"@,
        ],
        flags_warnings: map![
            "none"@ => ""@,
            "default"@ => ""@,
            "all"@ => "-wi"@,
            "error"@ => "-w"@,
        ],
        structure: map![
            "include_dir"@ => "-I{path}"@,
            "define"@ => "-version={name}"@,
            "define_value"@ => "-version={name}"@,
            "output"@ => "-of{path}"@,
            "compile_only"@ => "-c"@,
            "dep_file_mode"@ => "none"@,
            "system_lib"@ => "-L-l{name}"@,
        ],
        toolset: map![
            "ld"@ => "dmd"@,
            "ar"@ => "ar"@,
            "strip"@ => "strip"@,
        ],
        linking: Seq::empty()
            .push(("d"@, LinkingView {
                abi: "d"@,
                compatible: Seq::<Seq<char>>::empty().push("c"@),
                linker: ""@,
                extensions: Seq::<Seq<char>>::empty().push(".d"@),
                compile_binary: None,
            })),
        compiler_option_handlers: map![
            "dip1000"@ => HandlerView { default_value: Some("false"@), callback: HandlerFn::Dip1000 },
        ],
        ..empty_def()
    }
}

pub open spec fn opencl_def() -> DefView {
    DefView {
        name: "opencl"@,
        binary: "clang"@,
        family: ""@,
        version_arg: "--version"@,
        version_regex: r"\b(\d+\.\d+\.\d+)\b"@,
        extensions: Seq::<Seq<char>>::empty().push(".cl"@),
        always_flags: Seq::<Seq<char>>::empty().push("-x"@).push("cl"@),
        requires_toolchain: Seq::<Seq<char>>::empty().push("cpp"@),
        flags_debug: "-g"@,
        flags_lto: ""@,
        flags_opt: map![
            "0"@ => "-O0"@,
            "1"@ => "-O1"@,
            "2"@ => "-O2"@,
            "3"@ => "-O3"@,
            "s"@ => "-Os"@,
            "z"@ => "-Oz"@,
        ],
        flags_warnings: map![
            "none"@ => ""@,
            "default"@ => "-Wall"@,
            "all"@ => "-Wall -Wextra"@,
            "error"@ => "-Wall -Wextra -Werror"@,
        ],
        standards: map![
            "CL1.0"@ => "-cl-std=CL1.0"@,
            "CL1.1"@ => "-cl-std=CL1.1"@,
            "CL1.2"@ => "-cl-std=CL1.2"@,
            "CL2.0"@ => "-cl-std=CL2.0"@,
            "CL3.0"@ => "-cl-std=CL3.0"@,
        ],
        structure: map![
            "include_dir"@ => "-I{path}"@,
            "define"@ => "-D{name}"@,
            "define_value"@ => "-D{name}={value}"@,
            "output"@ => "-o {path}"@,
            "compile_only"@ => "-c"@,
            "dep_file"@ => "-MMD -MF {path}"@,
        ],
        toolset: map![
            "ld"@ => "clang"@,
        ],
        linking: Seq::empty()
            .push(("opencl"@, LinkingView {
                abi: "opencl"@,
                compatible: Seq::<Seq<char>>::empty().push("c++"@).push("c"@),
                linker: "c++"@,
                extensions: Seq::<Seq<char>>::empty().push(".cl"@),
                compile_binary: None,
            })),
        ..empty_def()
    }
}

/// `circle` — experimental C++20+ compiler with compile-time metaprogramming extensions. Drop-in Clang-compatible flag set.
pub open spec fn circle_def() -> DefView {
    DefView {
        name: "circle"@,
        binary: "circle"@,
        family: "llvm"@,
        version_arg: "--version"@,
        version_regex: r"version (\d+)"@,
        extensions: Seq::<Seq<char>>::empty().push(".cpp"@).push(".cc"@).push(".cxx"@).push(".c++"@),
        flags_debug: "-g"@,
        flags_lto: "-flto"@,
        sanitize: "-fsanitize={values}"@,
        sanitizer_options: Seq::<Seq<char>>::empty().push("address"@).push("undefined"@),
        flags_opt: map![
            "0"@ => "-O0"@,
            "1"@ => "-O1"@,
            "2"@ => "-O2"@,
            "3"@ => "-O3"@,
            "s"@ => "-Os"@,
            "z"@ => "-Oz"@,
        ],
        flags_warnings: map![
            "none"@ => ""@,
            "default"@ => "-Wall"@,
            "all"@ => "-Wall -Wextra"@,
            "error"@ => "-Wall -Wextra -Werror"@,
        ],
        standards: map![
            "c++20"@ => "-std=c++20"@,
            "c++23"@ => "-std=c++23"@,
        ],
        structure: map![
            "include_dir"@ => "-I{path}"@,
            "define"@ => "-D{name}"@,
            "define_value"@ => "-D{name}={value}"@,
            "output"@ => "-o {path}"@,
            "compile_only"@ => "-c"@,
            "dep_file"@ => "-MMD -MF {path}"@,
            "target"@ => "--target={triple}"@,
        ],
        toolset: map![
            "ld"@ => "circle"@,
            "ar"@ => "ar"@,
        ],
        linking: Seq::empty()
            .push(("cpp"@, LinkingView {
                abi: "c++"@,
                compatible: Seq::<Seq<char>>::empty().push("c"@),
                linker: ""@,
                extensions: Seq::<Seq<char>>::empty().push(".cpp"@).push(".cc"@).push(".cxx"@).push(".c++"@),
                compile_binary: None,
            })),
        ..empty_def()
    }
}

/// `nagfor` — Numerical Algorithms Group Fortran compiler. The strictest Fortran standard checker available; popular in academic HPC environments.
pub open spec fn nagfor_def() -> DefView {
    DefView {
        name: "nagfor"@,
        binary: "nagfor"@,
        family: ""@,
        version_arg: "-V"@,
        version_regex: r"Release (\d+\.\d+)"@,
        extensions: Seq::<Seq<char>>::empty().push(".f90"@).push(".f95"@).push(".f03"@).push(".f08"@).push(".f"@).push(".F90"@),
        flags_debug: "-g"@,
        flags_lto: ""@,
        flags_opt: map![
            "0"@ => "-O0"@,
            "1"@ => "-O1"@,
            "2"@ => "-O2"@,
            "3"@ => "-O4"@,
            "s"@ => "-O2"@,
            "z"@ => "-O2"@,
        ],
        flags_warnings: map![
            "none"@ => "-w=all -quiet"@,
            "default"@ => ""@,
            "all"@ => "-w=obs -w=unused -w=undef"@,
            "error"@ => "-w=obs -w=unused -w=undef -halt=error"@,
        ],
        standards: map![
            "f95"@ => "-f95"@,
            "f2003"@ => "-f2003"@,
            "f2008"@ => "-f2008"@,
            "f2018"@ => "-f2018"@,
        ],
        structure: map![
            "include_dir"@ => "-I{path}"@,
            "define"@ => "-D{name}"@,
            "define_value"@ => "-D{name}={value}"@,
            "output"@ => "-o {path}"@,
            "compile_only"@ => "-c"@,
            "dep_file_mode"@ => "none"@,
        ],
        toolset: map![
            "ld"@ => "nagfor"@,
            "ar"@ => "ar"@,
        ],
        linking: Seq::empty()
            .push(("fortran"@, LinkingView {
                abi: "fortran"@,
                compatible: Seq::<Seq<char>>::empty().push("c"@),
                linker: ""@,
                extensions: Seq::<Seq<char>>::empty().push(".f90"@).push(".f95"@).push(".f03"@).push(".f08"@).push(".f"@).push(".F90"@),
                compile_binary: None,
            })),
        ..empty_def()
    }
}

/// `gnat` — GNU Ada Translator (GNAT), part of GCC. Compiles `.adb` (body) and `.ads` (spec) Ada source files. Requires GCC with Ada language support.
pub open spec fn gnat_def() -> DefView {
    DefView {
        name: "gnat"@,
        binary: "gnat"@,
        family: "gnu"@,
        version_arg: "--version"@,
        version_regex: r"(?:GNAT.*?(\d{4})|GNAT \w+ (\d+\.\d+))"@,
        extensions: Seq::<Seq<char>>::empty().push(".adb"@).push(".ads"@),
        flags_debug: "-g"@,
        flags_lto: "-flto"@,
        flags_opt: map![
            "0"@ => "-O0"@,
            "1"@ => "-O1"@,
            "2"@ => "-O2"@,
            "3"@ => "-O3"@,
            "s"@ => "-Os"@,
            "z"@ => "-Os"@,
        ],
        flags_warnings: map![
            "none"@ => "-gnatws"@,
            "default"@ => ""@,
            "all"@ => "-gnatwa"@,
            "error"@ => "-gnatwa -gnatwe"@,
        ],
        standards: map![
            "ada83"@ => "-gnat83"@,
            "ada95"@ => "-gnat95"@,
            "ada2005"@ => "-gnat2005"@,
            "ada2012"@ => "-gnat2012"@,
            "ada2022"@ => "-gnat2022"@,
        ],
        structure: map![
            "include_dir"@ => "-I{path}"@,
            "define"@ => "-D{name}"@,
            "define_value"@ => "-D{name}={value}"@,
            "output"@ => "-o {path}"@,
            "compile_only"@ => "-c"@,
            "dep_file_mode"@ => "none"@,
        ],
        toolset: map![
            "ld"@ => "gnat"@,
            "ar"@ => "ar"@,
        ],
        linking: Seq::empty()
            .push(("ada"@, LinkingView {
                abi: "ada"@,
                compatible: Seq::<Seq<char>>::empty().push("c"@),
                linker: ""@,
                extensions: Seq::<Seq<char>>::empty().push(".adb"@).push(".ads"@),
                compile_binary: Some("gnat"@),
            })),
        ..empty_def()
    }
}

/// `swiftc` — Apple Swift compiler. Produces object files linkable with C. Swift has its own module system (`.swiftmodule`); inter-module dependencies are not yet tracked by freight's module DAG.
pub open spec fn swiftc_def() -> DefView {
    DefView {
        name: "swiftc"@,
        binary: "swiftc"@,
        family: ""@,
        version_arg: "--version"@,
        version_regex: r"Swift version (\d+\.\d+(?:\.\d+)?)"@,
        extensions: Seq::<Seq<char>>::empty().push(".swift"@),
        flags_debug: "-g"@,
        flags_lto: "-lto=llvm-full"@,
        flags_opt: map![
            "0"@ => "-Onone"@,
            "1"@ => "-O"@,
            "2"@ => "-O"@,
            "3"@ => "-O -whole-module-optimization"@,
            "s"@ => "-Osize"@,
            "z"@ => "-Osize"@,
        ],
        flags_warnings: map![
            "none"@ => "-suppress-warnings"@,
            "default"@ => ""@,
            "all"@ => "-warnings-as-notes"@,
            "error"@ => "-warnings-as-errors"@,
        ],
        structure: map![
            "include_dir"@ => "-I{path}"@,
            "define"@ => "-D{name}"@,
            "define_value"@ => "-D{name}={value}"@,
            "output"@ => "-o {path}"@,
            "compile_only"@ => "-c"@,
            "dep_file_mode"@ => "none"@,
        ],
        toolset: map![
            "ld"@ => "swiftc"@,
        ],
        linking: Seq::empty()
            .push(("swift"@, LinkingView {
                abi: "swift"@,
                compatible: Seq::<Seq<char>>::empty().push("c"@),
                linker: ""@,
                extensions: Seq::<Seq<char>>::empty().push(".swift"@),
                compile_binary: None,
            })),
        ..empty_def()
    }
}

/// The definitions of this family's templates, in order.
pub open spec fn templates_defs() -> Seq<DefView> {
    Seq::<DefView>::empty().push(tcc_def()).push(dmd_def()).push(opencl_def()).push(circle_def()).push(nagfor_def()).push(gnat_def()).push(swiftc_def())
}

pub fn tcc() -> (r: CompilerTemplate)
    ensures
        r.def@ == tcc_def(),
{
    let mut d = ToolchainDef::empty();
    d.name = owned("tcc");
    d.binary = owned("tcc");
    d.family = owned("");
    d.version_arg = owned("-v");
    d.version_regex = owned(r"version (\d+\.\d+\.\d+)");
    d.extensions = empty_strs();
    push_str(&mut d.extensions, ".c");
    d.flags_debug = owned("-g");
    d.flags_lto = owned("");
    d.flags_opt.put("0", "");
    d.flags_opt.put("1", "");
    d.flags_opt.put("2", "");
    d.flags_opt.put("3", "");
    d.flags_opt.put("s", "");
    d.flags_opt.put("z", "");
    d.flags_warnings.put("none", "");
    d.flags_warnings.put("default", "-Wall");
    d.flags_warnings.put("all", "-Wall");
    d.flags_warnings.put("error", "-Wall -Werror");
    d.standards.put("c99", "-std=c99");
    d.standards.put("c11", "-std=c11");
    d.standards.put("c17", "-std=c17");
    d.structure.put("include_dir", "-I{path}");
    d.structure.put("define", "-D{name}");
    d.structure.put("define_value", "-D{name}={value}");
    d.structure.put("output", "-o {path}");
    d.structure.put("compile_only", "-c");
    d.toolset.put("cc", "tcc");
    d.toolset.put("ld", "tcc");
    d.toolset.put("ar", "tcc");
    {
        let mut compatible = empty_strs();
        let mut extensions = empty_strs();
        push_str(&mut extensions, ".c");
        push_link(&mut d.linking, "c", LinkingParams {
            abi: owned("c"),
            compatible,
            linker: owned(""),
            extensions,
            compile_binary: Some(owned("tcc")),
        });
    }
    proof {
        reveal_strlit("tcc");
    }
    CompilerTemplate::from_def(d).unwrap()
}

pub fn dmd() -> (r: CompilerTemplate)
    ensures
        r.def@ == dmd_def(),
{
    let mut d = ToolchainDef::empty();
    d.name = owned("dmd");
    d.binary = owned("dmd");
    d.family = owned("");
    d.version_arg = owned("--version");
    d.version_regex = owned(r"v(\d+\.\d+\.\d+)");
    d.extensions = empty_strs();
    push_str(&mut d.extensions, ".d");
    d.flags_debug = owned("-g");
    d.flags_lto = owned("");
    d.flags_opt.put("0", "");
    d.flags_opt.put("1", "-O");
    d.flags_opt.put("2", "-O");
    d.flags_opt.put("3", "-O -release");
    d.flags_opt.put("s", "-O -release");
    d.flags_opt.put("z", "-O -release");
    d.flags_warnings.put("none", "");
    d.flags_warnings.put("default", "");
    d.flags_warnings.put("all", "-wi");
    d.flags_warnings.put("error", "-w");
    d.structure.put("include_dir", "-I{path}");
    d.structure.put("define", "-version={name}");
    d.structure.put("define_value", "-version={name}");
    d.structure.put("output", "-of{path}");
    d.structure.put("compile_only", "-c");
    d.structure.put("dep_file_mode", "none");
    d.structure.put("system_lib", "-L-l{name}");
    d.toolset.put("ld", "dmd");
    d.toolset.put("ar", "ar");
    d.toolset.put("strip", "strip");
    {
        let mut compatible = empty_strs();
        push_str(&mut compatible, "c");
        let mut extensions = empty_strs();
        push_str(&mut extensions, ".d");
        push_link(&mut d.linking, "d", LinkingParams {
            abi: owned("d"),
            compatible,
            linker: owned(""),
            extensions,
            compile_binary: None,
        });
    }
    d.compiler_option_handlers.insert(owned("dip1000"), OptionHandler { default_value: Some(owned("false")), callback: HandlerFn::Dip1000 });
    proof {
        reveal_strlit("dmd");
    }
    CompilerTemplate::from_def(d).unwrap()
}

pub fn opencl() -> (r: CompilerTemplate)
    ensures
        r.def@ == opencl_def(),
{
    let mut d = ToolchainDef::empty();
    d.name = owned("opencl");
    d.binary = owned("clang");
    d.family = owned("");
    d.version_arg = owned("--version");
    d.version_regex = owned(r"\b(\d+\.\d+\.\d+)\b");
    d.extensions = empty_strs();
    push_str(&mut d.extensions, ".cl");
    d.always_flags = empty_strs();
    push_str(&mut d.always_flags, "-x");
    push_str(&mut d.always_flags, "cl");
    d.requires_toolchain = empty_strs();
    push_str(&mut d.requires_toolchain, "cpp");
    d.flags_debug = owned("-g");
    d.flags_lto = owned("");
    d.flags_opt.put("0", "-O0");
    d.flags_opt.put("1", "-O1");
    d.flags_opt.put("2", "-O2");
    d.flags_opt.put("3", "-O3");
    d.flags_opt.put("s", "-Os");
    d.flags_opt.put("z", "-Oz");
    d.flags_warnings.put("none", "");
    d.flags_warnings.put("default", "-Wall");
    d.flags_warnings.put("all", "-Wall -Wextra");
    d.flags_warnings.put("error", "-Wall -Wextra -Werror");
    d.standards.put("CL1.0", "-cl-std=CL1.0");
    d.standards.put("CL1.1", "-cl-std=CL1.1");
    d.standards.put("CL1.2", "-cl-std=CL1.2");
    d.standards.put("CL2.0", "-cl-std=CL2.0");
    d.standards.put("CL3.0", "-cl-std=CL3.0");
    d.structure.put("include_dir", "-I{path}");
    d.structure.put("define", "-D{name}");
    d.structure.put("define_value", "-D{name}={value}");
    d.structure.put("output", "-o {path}");
    d.structure.put("compile_only", "-c");
    d.structure.put("dep_file", "-MMD -MF {path}");
    d.toolset.put("ld", "clang");
    {
        let mut compatible = empty_strs();
        push_str(&mut compatible, "c++");
        push_str(&mut compatible, "c");
        let mut extensions = empty_strs();
        push_str(&mut extensions, ".cl");
        push_link(&mut d.linking, "opencl", LinkingParams {
            abi: owned("opencl"),
            compatible,
            linker: owned("c++"),
            extensions,
            compile_binary: None,
        });
    }
    proof {
        reveal_strlit("opencl");
    }
    CompilerTemplate::from_def(d).unwrap()
}

/// `circle` — experimental C++20+ compiler with compile-time metaprogramming extensions. Drop-in Clang-compatible flag set.
pub fn circle() -> (r: CompilerTemplate)
    ensures
        r.def@ == circle_def(),
{
    let mut d = ToolchainDef::empty();
    d.name = owned("circle");
    d.binary = owned("circle");
    d.family = owned("llvm");
    d.version_arg = owned("--version");
    d.version_regex = owned(r"version (\d+)");
    d.extensions = empty_strs();
    push_str(&mut d.extensions, ".cpp");
    push_str(&mut d.extensions, ".cc");
    push_str(&mut d.extensions, ".cxx");
    push_str(&mut d.extensions, ".c++");
    d.flags_debug = owned("-g");
    d.flags_lto = owned("-flto");
    d.sanitize = owned("-fsanitize={values}");
    d.sanitizer_options = empty_strs();
    push_str(&mut d.sanitizer_options, "address");
    push_str(&mut d.sanitizer_options, "undefined");
    d.flags_opt.put("0", "-O0");
    d.flags_opt.put("1", "-O1");
    d.flags_opt.put("2", "-O2");
    d.flags_opt.put("3", "-O3");
    d.flags_opt.put("s", "-Os");
    d.flags_opt.put("z", "-Oz");
    d.flags_warnings.put("none", "");
    d.flags_warnings.put("default", "-Wall");
    d.flags_warnings.put("all", "-Wall -Wextra");
    d.flags_warnings.put("error", "-Wall -Wextra -Werror");
    d.standards.put("c++20", "-std=c++20");
    d.standards.put("c++23", "-std=c++23");
    d.structure.put("include_dir", "-I{path}");
    d.structure.put("define", "-D{name}");
    d.structure.put("define_value", "-D{name}={value}");
    d.structure.put("output", "-o {path}");
    d.structure.put("compile_only", "-c");
    d.structure.put("dep_file", "-MMD -MF {path}");
    d.structure.put("target", "--target={triple}");
    d.toolset.put("ld", "circle");
    d.toolset.put("ar", "ar");
    {
        let mut compatible = empty_strs();
        push_str(&mut compatible, "c");
        let mut extensions = empty_strs();
        push_str(&mut extensions, ".cpp");
        push_str(&mut extensions, ".cc");
        push_str(&mut extensions, ".cxx");
        push_str(&mut extensions, ".c++");
        push_link(&mut d.linking, "cpp", LinkingParams {
            abi: owned("c++"),
            compatible,
            linker: owned(""),
            extensions,
            compile_binary: None,
        });
    }
    proof {
        reveal_strlit("circle");
    }
    CompilerTemplate::from_def(d).unwrap()
}

/// `nagfor` — Numerical Algorithms Group Fortran compiler. The strictest Fortran standard checker available; popular in academic HPC environments.
pub fn nagfor() -> (r: CompilerTemplate)
    ensures
        r.def@ == nagfor_def(),
{
    let mut d = ToolchainDef::empty();
    d.name = owned("nagfor");
    d.binary = owned("nagfor");
    d.family = owned("");
    d.version_arg = owned("-V");
    d.version_regex = owned(r"Release (\d+\.\d+)");
    d.extensions = empty_strs();
    push_str(&mut d.extensions, ".f90");
    push_str(&mut d.extensions, ".f95");
    push_str(&mut d.extensions, ".f03");
    push_str(&mut d.extensions, ".f08");
    push_str(&mut d.extensions, ".f");
    push_str(&mut d.extensions, ".F90");
    d.flags_debug = owned("-g");
    d.flags_lto = owned("");
    d.flags_opt.put("0", "-O0");
    d.flags_opt.put("1", "-O1");
    d.flags_opt.put("2", "-O2");
    d.flags_opt.put("3", "-O4");
    d.flags_opt.put("s", "-O2");
    d.flags_opt.put("z", "-O2");
    d.flags_warnings.put("none", "-w=all -quiet");
    d.flags_warnings.put("default", "");
    d.flags_warnings.put("all", "-w=obs -w=unused -w=undef");
    d.flags_warnings.put("error", "-w=obs -w=unused -w=undef -halt=error");
    d.standards.put("f95", "-f95");
    d.standards.put("f2003", "-f2003");
    d.standards.put("f2008", "-f2008");
    d.standards.put("f2018", "-f2018");
    d.structure.put("include_dir", "-I{path}");
    d.structure.put("define", "-D{name}");
    d.structure.put("define_value", "-D{name}={value}");
    d.structure.put("output", "-o {path}");
    d.structure.put("compile_only", "-c");
    d.structure.put("dep_file_mode", "none");
    d.toolset.put("ld", "nagfor");
    d.toolset.put("ar", "ar");
    {
        let mut compatible = empty_strs();
        push_str(&mut compatible, "c");
        let mut extensions = empty_strs();
        push_str(&mut extensions, ".f90");
        push_str(&mut extensions, ".f95");
        push_str(&mut extensions, ".f03");
        push_str(&mut extensions, ".f08");
        push_str(&mut extensions, ".f");
        push_str(&mut extensions, ".F90");
        push_link(&mut d.linking, "fortran", LinkingParams {
            abi: owned("fortran"),
            compatible,
            linker: owned(""),
            extensions,
            compile_binary: None,
        });
    }
    proof {
        reveal_strlit("nagfor");
    }
    CompilerTemplate::from_def(d).unwrap()
}

/// `gnat` — GNU Ada Translator (GNAT), part of GCC. Compiles `.adb` (body) and `.ads` (spec) Ada source files. Requires GCC with Ada language support.
pub fn gnat() -> (r: CompilerTemplate)
    ensures
        r.def@ == gnat_def(),
{
    let mut d = ToolchainDef::empty();
    d.name = owned("gnat");
    d.binary = owned("gnat");
    d.family = owned("gnu");
    d.version_arg = owned("--version");
    d.version_regex = owned(r"(?:GNAT.*?(\d{4})|GNAT \w+ (\d+\.\d+))");
    d.extensions = empty_strs();
    push_str(&mut d.extensions, ".adb");
    push_str(&mut d.extensions, ".ads");
    d.flags_debug = owned("-g");
    d.flags_lto = owned("-flto");
    d.flags_opt.put("0", "-O0");
    d.flags_opt.put("1", "-O1");
    d.flags_opt.put("2", "-O2");
    d.flags_opt.put("3", "-O3");
    d.flags_opt.put("s", "-Os");
    d.flags_opt.put("z", "-Os");
    d.flags_warnings.put("none", "-gnatws");
    d.flags_warnings.put("default", "");
    d.flags_warnings.put("all", "-gnatwa");
    d.flags_warnings.put("error", "-gnatwa -gnatwe");
    d.standards.put("ada83", "-gnat83");
    d.standards.put("ada95", "-gnat95");
    d.standards.put("ada2005", "-gnat2005");
    d.standards.put("ada2012", "-gnat2012");
    d.standards.put("ada2022", "-gnat2022");
    d.structure.put("include_dir", "-I{path}");
    d.structure.put("define", "-D{name}");
    d.structure.put("define_value", "-D{name}={value}");
    d.structure.put("output", "-o {path}");
    d.structure.put("compile_only", "-c");
    d.structure.put("dep_file_mode", "none");
    d.toolset.put("ld", "gnat");
    d.toolset.put("ar", "ar");
    {
        let mut compatible = empty_strs();
        push_str(&mut compatible, "c");
        let mut extensions = empty_strs();
        push_str(&mut extensions, ".adb");
        push_str(&mut extensions, ".ads");
        push_link(&mut d.linking, "ada", LinkingParams {
            abi: owned("ada"),
            compatible,
            linker: owned(""),
            extensions,
            compile_binary: Some(owned("gnat")),
        });
    }
    proof {
        reveal_strlit("gnat");
    }
    CompilerTemplate::from_def(d).unwrap()
}

/// `swiftc` — Apple Swift compiler. Produces object files linkable with C. Swift has its own module system (`.swiftmodule`); inter-module dependencies are not yet tracked by freight's module DAG.
pub fn swiftc() -> (r: CompilerTemplate)
    ensures
        r.def@ == swiftc_def(),
{
    let mut d = ToolchainDef::empty();
    d.name = owned("swiftc");
    d.binary = owned("swiftc");
    d.family = owned("");
    d.version_arg = owned("--version");
    d.version_regex = owned(r"Swift version (\d+\.\d+(?:\.\d+)?)");
    d.extensions = empty_strs();
    push_str(&mut d.extensions, ".swift");
    d.flags_debug = owned("-g");
    d.flags_lto = owned("-lto=llvm-full");
    d.flags_opt.put("0", "-Onone");
    d.flags_opt.put("1", "-O");
    d.flags_opt.put("2", "-O");
    d.flags_opt.put("3", "-O -whole-module-optimization");
    d.flags_opt.put("s", "-Osize");
    d.flags_opt.put("z", "-Osize");
    d.flags_warnings.put("none", "-suppress-warnings");
    d.flags_warnings.put("default", "");
    d.flags_warnings.put("all", "-warnings-as-notes");
    d.flags_warnings.put("error", "-warnings-as-errors");
    d.structure.put("include_dir", "-I{path}");
    d.structure.put("define", "-D{name}");
    d.structure.put("define_value", "-D{name}={value}");
    d.structure.put("output", "-o {path}");
    d.structure.put("compile_only", "-c");
    d.structure.put("dep_file_mode", "none");
    d.toolset.put("ld", "swiftc");
    {
        let mut compatible = empty_strs();
        push_str(&mut compatible, "c");
        let mut extensions = empty_strs();
        push_str(&mut extensions, ".swift");
        push_link(&mut d.linking, "swift", LinkingParams {
            abi: owned("swift"),
            compatible,
            linker: owned(""),
            extensions,
            compile_binary: None,
        });
    }
    proof {
        reveal_strlit("swiftc");
    }
    CompilerTemplate::from_def(d).unwrap()
}

/// The templates of this family, in order.
pub fn templates() -> (r: Vec<CompilerTemplate>)
    ensures
        defs(r@) == templates_defs(),
{
    let mut v = no_templates();
    push_template(&mut v, tcc());
    push_template(&mut v, dmd());
    push_template(&mut v, opencl());
    push_template(&mut v, circle());
    push_template(&mut v, nagfor());
    push_template(&mut v, gnat());
    push_template(&mut v, swiftc());
    v
}

} // verus!
