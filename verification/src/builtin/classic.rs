//! The earlier set of miscellaneous templates (TCC, DMD, MSVC, OpenCL).

use vstd::prelude::*;
use crate::builtin::{empty_strs, no_templates};
use crate::template::{CompilerTemplate, DefView, HandlerFn, HandlerView, LinkingParams, LinkingView, OptionHandler, ToolchainDef, defs, empty_def, push_link, push_str, push_template};
use crate::text::owned;

verus! {

pub open spec fn tcc_def() -> DefView {
    DefView {
        name: "tcc"@,
        binary: "tcc"@,
        family: ""@,
        version_arg: "-v"@,
        version_regex: r"version (\d+\.\d+\.\d+)"@,
        extensions: Seq::<Seq<char>>::empty().push(".c"@),
        flags_debug: "-g"@,
        flags_lto: ""@,
        flags_opt: map![
            "0"@ => ""@,
            "1"@ => ""@,
            "2"@ => ""@,
            "3"@ => ""@,
            "s"@ => ""@,
            "z"@ => ""@,
        ],
        flags_warnings: map![
            "none"@ => ""@,
            "default"@ => "-Wall"@,
            "all"@ => "-Wall"@,
            "error"@ => "-Wall -Werror"@,
        ],
        standards: map![
            "c99"@ => "-std=c99"@,
            "c11"@ => "-std=c11"@,
            "c17"@ => "-std=c17"@,
        ],
        structure: map![
            "include_dir"@ => "-I{path}"@,
            "define"@ => "-D{name}"@,
            "define_value"@ => "-D{name}={value}"@,
            "output"@ => "-o {path}"@,
            "compile_only"@ => "-c"@,
        ],
        toolset: map![
            "cc"@ => "tcc"@,
            "ld"@ => "tcc"@,
            "ar"@ => "tcc"@,
        ],
        linking: Seq::empty()
            .push(("c"@, LinkingView {
                abi: "c"@,
                compatible: Seq::<Seq<char>>::empty(),
                linker: ""@,
                extensions: Seq::<Seq<char>>::empty().push(".c"@),
                compile_binary: Some("tcc"@),
            })),
        ..empty_def()
    }
}

pub open spec fn dmd_def() -> DefView {
    DefView {
        name: "dmd"@,
        binary: "dmd"@,
        family: ""@,
        version_arg: "--version"@,
        version_regex: r"v(\d+\.\d+\.\d+)"@,
        extensions: Seq::<Seq<char>>::empty().push(".d"@),
        flags_debug: "-g"@,
        flags_lto: ""@,
        flags_opt: map![
            "0"@ => ""@,
            "1"@ => "-O"@,
            "2"@ => "-O"@,
            "3"@ => "-O -release"@,
            "s"@ => "-O -release"@,
            "z"@ => "-O -release"@,
        ],
        flags_warnings: map![
            "none"@ => ""@,
            "default"@ => ""@,
            "all"@ => "-wi"@,
            "error"@ => "-w"@,
        ],
        structure: map![
            "include_dir"@ => "-I{path}"@,
            "define"@ => "-version={name}"@,
            "define_value"@ => "-version={name}"@,
            "output"@ => "-of{path}"@,
            "compile_only"@ => "-c"@,
            "dep_file_mode"@ => "none"@,
            "system_lib"@ => "-L-l{name}"@,
        ],
        toolset: map![
            "ld"@ => "dmd"@,
            "ar"@ => "ar"@,
            "strip"@ => "strip"@,
        ],
        linking: Seq::empty()
            .push(("d"@, LinkingView {
                abi: "d"@,
                compatible: Seq::<Seq<char>>::empty().push("c"@),
                linker: ""@,
                extensions: Seq::<Seq<char>>::empty().push(".d"@),
                compile_binary: None,
            })),
        compiler_option_handlers: map![
            "dip1000"@ => HandlerView { default_value: Some("false"@), callback: HandlerFn::Dip1000 },
        ],
        ..empty_def()
    }
}

pub open spec fn msvc_def() -> DefView {
    DefView {
        name: "msvc"@,
        binary: "cl.exe"@,
        family: ""@,
        version_arg: ""@,
        version_regex: r"Version (\d+\.\d+\.\d+\.\d+)"@,
        extensions: Seq::<Seq<char>>::empty().push(".cpp"@).push(".cc"@).push(".cxx"@).push(".c++"@).push(".c"@),
        sanitizer_options: Seq::<Seq<char>>::empty().push("address"@),
        supported_os: Seq::<Seq<char>>::empty().push("windows"@),
        flags_debug: "/Zi /FS"@,
        flags_lto: "/GL"@,
        flags_lto_link: "/LTCG"@,
        sanitize: "/fsanitize={values}"@,
        flags_opt: map![
            "0"@ => "/Od"@,
            "1"@ => "/O1"@,
            "2"@ => "/O2"@,
            "3"@ => "/Ox"@,
            "s"@ => "/O1 /Os"@,
            "z"@ => "/O1 /Os"@,
        ],
        flags_warnings: map![
            "none"@ => "/W0"@,
            "default"@ => "/W3"@,
            "all"@ => "/W4"@,
            "error"@ => "/W4 /WX"@,
        ],
        standards: map![
            "c++17"@ => "/std:c++17"@,
            "c++20"@ => "/std:c++20"@,
            "c++23"@ => "/std:c++latest"@,
            "c17"@ => "/std:c17"@,
            "c11"@ => "/std:c11"@,
        ],
        structure: map![
            "include_dir"@ => "/I{path}"@,
            "define"@ => "/D{name}"@,
            "define_value"@ => "/D{name}={value}"@,
            "output_obj"@ => "/Fo{path}"@,
            "output_bin"@ => "/Fe{path}"@,
            "compile_only"@ => "/c"@,
            "dep_file"@ => "/showIncludes"@,
            "dep_file_mode"@ => "stdout"@,
            "system_lib"@ => "{name}.lib"@,
        ],
        toolset: map![
            "cc"@ => "cl.exe"@,
            "cxx"@ => "cl.exe"@,
            "ld"@ => "link.exe"@,
            "ar"@ => "lib.exe"@,
            "strip"@ => ""@,
        ],
        linking: Seq::empty()
            .push(("c"@, LinkingView {
                abi: "c"@,
                compatible: Seq::<Seq<char>>::empty(),
                linker: ""@,
                extensions: Seq::<Seq<char>>::empty().push(".c"@),
                compile_binary: Some("cl.exe"@),
            }))
            .push(("cpp"@, LinkingView {
                abi: "c++"@,
                compatible: Seq::<Seq<char>>::empty().push("c"@),
                linker: ""@,
                extensions: Seq::<Seq<char>>::empty().push(".cpp"@).push(".cc"@).push(".cxx"@).push(".c++"@),
                compile_binary: None,
            })),
        ..empty_def()
    }
}

pub open spec fn opencl_def() -> DefView {
    DefView {
        name: "opencl"@,
        binary: "clang"@,
        family: ""@,
        version_arg: "--version"@,
        version_regex: r"\b(\d+\.\d+\.\d+)\b"@,
        extensions: Seq::<Seq<char>>::empty().push(".cl"@),
        always_flags: Seq::<Seq<char>>::empty().push("-x"@).push("cl"@),
        requires_toolchain: Seq::<Seq<char>>::empty().push("cpp"@),
        flags_debug: "-g"@,
        flags_lto: ""@,
        flags_opt: map![
            "0"@ => "-O0"@,
            "1"@ => "-O1"@,
            "2"@ => "-O2"@,
            "3"@ => "-O3"@,
            "s"@ => "-Os"@,
            "z"@ => "-Oz"@,
        ],
        flags_warnings: map![
            "none"@ => ""@,
            "default"@ => "-Wall"@,
            "all"@ => "-Wall -Wextra"@,
            "error"@ => "-Wall -Wextra -Werror"@,
        ],
        standards: map![
            "CL1.0"@ => "-cl-std=CL1.0"@,
            "CL1.1"@ => "-cl-std=CL1.1"@,
            "CL1.2"@ => "-cl-std=CL1.2"@,
            "CL2.0"@ => "-cl-std=CL2.0"@,
            "CL3.0"@ => "-cl-std=CL3.0"@,
        ],
        structure: map![
            "include_dir"@ => "-I{path}"@,
            "define"@ => "-D{name}"@,
            "define_value"@ => "-D{name}={value}"@,
            "output"@ => "-o {path}"@,
            "compile_only"@ => "-c"@,
            "dep_file"@ => "-MMD -MF {path}"@,
        ],
        toolset: map![
            "ld"@ => "clang"@,
        ],
        linking: Seq::empty()
            .push(("opencl"@, LinkingView {
                abi: "opencl"@,
                compatible: Seq::<Seq<char>>::empty().push("c++"@).push("c"@),
                linker: "c++"@,
                extensions: Seq::<Seq<char>>::empty().push(".cl"@),
                compile_binary: None,
            })),
        ..empty_def()
    }
}

/// The definitions of this family's templates, in order.
pub open spec fn templates_defs() -> Seq<DefView> {
    Seq::<DefView>::empty().push(tcc_def()).push(dmd_def()).push(msvc_def()).push(opencl_def())
}

pub fn tcc() -> (r: CompilerTemplate)
    ensures
        r.def@ == tcc_def(),
{
    let mut d = ToolchainDef::empty();
    d.name = owned("tcc");
    d.binary = owned("tcc");
    d.family = owned("");
    d.version_arg = owned("-v");
    d.version_regex = owned(r"version (\d+\.\d+\.\d+)");
    d.extensions = empty_strs();
    push_str(&mut d.extensions, ".c");
    d.flags_debug = owned("-g");
    d.flags_lto = owned("");
    d.flags_opt.put("0", "");
    d.flags_opt.put("1", "");
    d.flags_opt.put("2", "");
    d.flags_opt.put("3", "");
    d.flags_opt.put("s", "");
    d.flags_opt.put("z", "");
    d.flags_warnings.put("none", "");
    d.flags_warnings.put("default", "-Wall");
    d.flags_warnings.put("all", "-Wall");
    d.flags_warnings.put("error", "-Wall -Werror");
    d.standards.put("c99", "-std=c99");
    d.standards.put("c11", "-std=c11");
    d.standards.put("c17", "-std=c17");
    d.structure.put("include_dir", "-I{path}");
    d.structure.put("define", "-D{name}");
    d.structure.put("define_value", "-D{name}={value}");
    d.structure.put("output", "-o {path}");
    d.structure.put("compile_only", "-c");
    d.toolset.put("cc", "tcc");
    d.toolset.put("ld", "tcc");
    d.toolset.put("ar", "tcc");
    {
        let mut compatible = empty_strs();
        let mut extensions = empty_strs();
        push_str(&mut extensions, ".c");
        push_link(&mut d.linking, "c", LinkingParams {
            abi: owned("c"),
            compatible,
            linker: owned(""),
            extensions,
            compile_binary: Some(owned("tcc")),
        });
    }
    proof {
        reveal_strlit("tcc");
    }
    CompilerTemplate::from_def(d).unwrap()
}

pub fn dmd() -> (r: CompilerTemplate)
    ensures
        r.def@ == dmd_def(),
{
    let mut d = ToolchainDef::empty();
    d.name = owned("dmd");
    d.binary = owned("dmd");
    d.family = owned("");
    d.version_arg = owned("--version");
    d.version_regex = owned(r"v(\d+\.\d+\.\d+)");
    d.extensions = empty_strs();
    push_str(&mut d.extensions, ".d");
    d.flags_debug = owned("-g");
    d.flags_lto = owned("");
    d.flags_opt.put("0", "");
    d.flags_opt.put("1", "-O");
    d.flags_opt.put("2", "-O");
    d.flags_opt.put("3", "-O -release");
    d.flags_opt.put("s", "-O -release");
    d.flags_opt.put("z", "-O -release");
    d.flags_warnings.put("none", "");
    d.flags_warnings.put("default", "");
    d.flags_warnings.put("all", "-wi");
    d.flags_warnings.put("error", "-w");
    d.structure.put("include_dir", "-I{path}");
    d.structure.put("define", "-version={name}");
    d.structure.put("define_value", "-version={name}");
    d.structure.put("output", "-of{path}");
    d.structure.put("compile_only", "-c");
    d.structure.put("dep_file_mode", "none");
    d.structure.put("system_lib", "-L-l{name}");
    d.toolset.put("ld", "dmd");
    d.toolset.put("ar", "ar");
    d.toolset.put("strip", "strip");
    {
        let mut compatible = empty_strs();
        push_str(&mut compatible, "c");
        let mut extensions = empty_strs();
        push_str(&mut extensions, ".d");
        push_link(&mut d.linking, "d", LinkingParams {
            abi: owned("d"),
            compatible,
            linker: owned(""),
            extensions,
            compile_binary: None,
        });
    }
    d.compiler_option_handlers.insert(owned("dip1000"), OptionHandler { default_value: Some(owned("false")), callback: HandlerFn::Dip1000 });
    proof {
        reveal_strlit("dmd");
    }
    CompilerTemplate::from_def(d).unwrap()
}

pub fn msvc() -> (r: CompilerTemplate)
    ensures
        r.def@ == msvc_def(),
{
    let mut d = ToolchainDef::empty();
    d.name = owned("msvc");
    d.binary = owned("cl.exe");
    d.family = owned("");
    d.version_arg = owned("");
    d.version_regex = owned(r"Version (\d+\.\d+\.\d+\.\d+)");
    d.extensions = empty_strs();
    push_str(&mut d.extensions, ".cpp");
    push_str(&mut d.extensions, ".cc");
    push_str(&mut d.extensions, ".cxx");
    push_str(&mut d.extensions, ".c++");
    push_str(&mut d.extensions, ".c");
    d.sanitizer_options = empty_strs();
    push_str(&mut d.sanitizer_options, "address");
    d.supported_os = empty_strs();
    push_str(&mut d.supported_os, "windows");
    d.flags_debug = owned("/Zi /FS");
    d.flags_lto = owned("/GL");
    d.flags_lto_link = owned("/LTCG");
    d.sanitize = owned("/fsanitize={values}");
    d.flags_opt.put("0", "/Od");
    d.flags_opt.put("1", "/O1");
    d.flags_opt.put("2", "/O2");
    d.flags_opt.put("3", "/Ox");
    d.flags_opt.put("s", "/O1 /Os");
    d.flags_opt.put("z", "/O1 /Os");
    d.flags_warnings.put("none", "/W0");
    d.flags_warnings.put("default", "/W3");
    d.flags_warnings.put("all", "/W4");
    d.flags_warnings.put("error", "/W4 /WX");
    d.standards.put("c++17", "/std:c++17");
    d.standards.put("c++20", "/std:c++20");
    d.standards.put("c++23", "/std:c++latest");
    d.standards.put("c17", "/std:c17");
    d.standards.put("c11", "/std:c11");
    d.structure.put("include_dir", "/I{path}");
    d.structure.put("define", "/D{name}");
    d.structure.put("define_value", "/D{name}={value}");
    d.structure.put("output_obj", "/Fo{path}");
    d.structure.put("output_bin", "/Fe{path}");
    d.structure.put("compile_only", "/c");
    d.structure.put("dep_file", "/showIncludes");
    d.structure.put("dep_file_mode", "stdout");
    d.structure.put("system_lib", "{name}.lib");
    d.toolset.put("cc", "cl.exe");
    d.toolset.put("cxx", "cl.exe");
    d.toolset.put("ld", "link.exe");
    d.toolset.put("ar", "lib.exe");
    d.toolset.put("strip", "");
    {
        let mut compatible = empty_strs();
        let mut extensions = empty_strs();
        push_str(&mut extensions, ".c");
        push_link(&mut d.linking, "c", LinkingParams {
            abi: owned("c"),
            compatible,
            linker: owned(""),
            extensions,
            compile_binary: Some(owned("cl.exe")),
        });
    }
    {
        let mut compatible = empty_strs();
        push_str(&mut compatible, "c");
        let mut extensions = empty_strs();
        push_str(&mut extensions, ".cpp");
        push_str(&mut extensions, ".cc");
        push_str(&mut extensions, ".cxx");
        push_str(&mut extensions, ".c++");
        push_link(&mut d.linking, "cpp", LinkingParams {
            abi: owned("c++"),
            compatible,
            linker: owned(""),
            extensions,
            compile_binary: None,
        });
    }
    proof {
        reveal_strlit("msvc");
    }
    CompilerTemplate::from_def(d).unwrap()
}

pub fn opencl() -> (r: CompilerTemplate)
    ensures
        r.def@ == opencl_def(),
{
    let mut d = ToolchainDef::empty();
    d.name = owned("opencl");
    d.binary = owned("clang");
    d.family = owned("");
    d.version_arg = owned("--version");
    d.version_regex = owned(r"\b(\d+\.\d+\.\d+)\b");
    d.extensions = empty_strs();
    push_str(&mut d.extensions, ".cl");
    d.always_flags = empty_strs();
    push_str(&mut d.always_flags, "-x");
    push_str(&mut d.always_flags, "cl");
    d.requires_toolchain = empty_strs();
    push_str(&mut d.requires_toolchain, "cpp");
    d.flags_debug = owned("-g");
    d.flags_lto = owned("");
    d.flags_opt.put("0", "-O0");
    d.flags_opt.put("1", "-O1");
    d.flags_opt.put("2", "-O2");
    d.flags_opt.put("3", "-O3");
    d.flags_opt.put("s", "-Os");
    d.flags_opt.put("z", "-Oz");
    d.flags_warnings.put("none", "");
    d.flags_warnings.put("default", "-Wall");
    d.flags_warnings.put("all", "-Wall -Wextra");
    d.flags_warnings.put("error", "-Wall -Wextra -Werror");
    d.standards.put("CL1.0", "-cl-std=CL1.0");
    d.standards.put("CL1.1", "-cl-std=CL1.1");
    d.standards.put("CL1.2", "-cl-std=CL1.2");
    d.standards.put("CL2.0", "-cl-std=CL2.0");
    d.standards.put("CL3.0", "-cl-std=CL3.0");
    d.structure.put("include_dir", "-I{path}");
    d.structure.put("define", "-D{name}");
    d.structure.put("define_value", "-D{name}={value}");
    d.structure.put("output", "-o {path}");
    d.structure.put("compile_only", "-c");
    d.structure.put("dep_file", "-MMD -MF {path}");
    d.toolset.put("ld", "clang");
    {
        let mut compatible = empty_strs();
        push_str(&mut compatible, "c++");
        push_str(&mut compatible, "c");
        let mut extensions = empty_strs();
        push_str(&mut extensions, ".cl");
        push_link(&mut d.linking, "opencl", LinkingParams {
            abi: owned("opencl"),
            compatible,
            linker: owned("c++"),
            extensions,
            compile_binary: None,
        });
    }
    proof {
        reveal_strlit("opencl");
    }
    CompilerTemplate::from_def(d).unwrap()
}

/// The templates of this family, in order.
pub fn templates() -> (r: Vec<CompilerTemplate>)
    ensures
        defs(r@) == templates_defs(),
{
    let mut v = no_templates();
    push_template(&mut v, tcc());
    push_template(&mut v, dmd());
    push_template(&mut v, msvc());
    push_template(&mut v, opencl());
    v
}

} // verus!
