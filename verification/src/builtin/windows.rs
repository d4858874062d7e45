//! Microsoft toolchain templates (MSVC, clang-cl, MASM).

use vstd::prelude::*;
use crate::builtin::{empty_strs, no_templates};
use crate::template::{CompilerTemplate, DefView, LinkingParams, LinkingView, ToolchainDef, defs, empty_def, push_link, push_str, push_template};
use crate::text::owned;

verus! {

pub open spec fn msvc_def() -> DefView {
    DefView {
        name: "msvc"@,
        binary: "cl.exe"@,
        family: ""@,
        version_arg: ""@,
        version_regex: r"Version (\d+\.\d+\.\d+\.\d+)"@,
        extensions: Seq::<Seq<char>>::empty().push(".cpp"@).push(".cc"@).push(".cxx"@).push(".c++"@).push(".c"@),
        sanitizer_options: Seq::<Seq<char>>::empty().push("address"@),
        supported_os: Seq::<Seq<char>>::empty().push("windows"@),
        flags_debug: "/Zi /FS"@,
        flags_lto: "/GL"@,
        flags_lto_link: "/LTCG"@,
        sanitize: "/fsanitize={values}"@,
        flags_opt: map![
            "0"@ => "/Od"@,
            "1"@ => "/O1"@,
            "2"@ => "/O2"@,
            "3"@ => "/Ox"@,
            "s"@ => "/O1 /Os"@,
            "z"@ => "/O1 /Os"@,
        ],
        flags_warnings: map![
            "none"@ => "/W0"@,
            "default"@ => "/W3"@,
            "all"@ => "/W4"@,
            "error"@ => "/W4 /WX"@,
        ],
        standards: map![
            "c++17"@ => "/std:c++17"@,
            "c++20"@ => "/std:c++20"@,
            "c++23"@ => "/std:c++latest"@,
            "c17"@ => "/std:c17"@,
            "c11"@ => "/std:c11"@,
        ],
        structure: map![
            "include_dir"@ => "/I{path}"@,
            "define"@ => "/D{name}"@,
            "define_value"@ => "/D{name}={value}"@,
            "output_obj"@ => "/Fo{path}"@,
            "output_bin"@ => "/Fe{path}"@,
            "compile_only"@ => "/c"@,
            "dep_file"@ => "/showIncludes"@,
            "dep_file_mode"@ => "stdout"@,
            "system_lib"@ => "{name}.lib"@,
        ],
        toolset: map![
            "cc"@ => "cl.exe"@,
            "cxx"@ => "cl.exe"@,
            "ld"@ => "link.exe"@,
            "ar"@ => "lib.exe"@,
            "strip"@ => ""@,
        ],
        linking: Seq::empty()
            .push(("c"@, LinkingView {
                abi: "c"@,
                compatible: Seq::<Seq<char>>::empty(),
                linker: ""@,
                extensions: Seq::<Seq<char>>::empty().push(".c"@),
                compile_binary: Some("cl.exe"@),
            }))
            .push(("cpp"@, LinkingView {
                abi: "c++"@,
                compatible: Seq::<Seq<char>>::empty().push("c"@),
                linker: ""@,
                extensions: Seq::<Seq<char>>::empty().push(".cpp"@).push(".cc"@).push(".cxx"@).push(".c++"@),
                compile_binary: None,
            })),
        ..empty_def()
    }
}

/// `clang-cl` — Clang with MSVC-compatible flags. Uses the same flag scheme as `cl.exe` but is detected by `clang-cl` on PATH.
pub open spec fn clang_cl_def() -> DefView {
    DefView {
        name: "clang-cl"@,
        binary: "clang-cl"@,
        family: "llvm"@,
        version_arg: "--version"@,
        version_regex: r"\b(\d+\.\d+\.\d+)\b"@,
        extensions: Seq::<Seq<char>>::empty().push(".cpp"@).push(".cc"@).push(".cxx"@).push(".c++"@).push(".c"@),
        sanitizer_options: Seq::<Seq<char>>::empty().push("address"@).push("undefined"@),
        supported_os: Seq::<Seq<char>>::empty().push("windows"@),
        flags_debug: "/Zi /FS"@,
        flags_lto: "/GL"@,
        flags_lto_link: "/LTCG"@,
        sanitize: "/fsanitize={values}"@,
        flags_opt: map![
            "0"@ => "/Od"@,
            "1"@ => "/O1"@,
            "2"@ => "/O2"@,
            "3"@ => "/Ox"@,
            "s"@ => "/O1 /Os"@,
            "z"@ => "/O1 /Os"@,
        ],
        flags_warnings: map![
            "none"@ => "/W0"@,
            "default"@ => "/W3"@,
            "all"@ => "/W4 -Wextra"@,
            "error"@ => "/W4 -Wextra /WX"@,
        ],
        standards: map![
            "c++17"@ => "/std:c++17"@,
            "c++20"@ => "/std:c++20"@,
            "c++23"@ => "/std:c++latest"@,
            "c17"@ => "/std:c17"@,
            "c11"@ => "/std:c11"@,
        ],
        structure: map![
            "include_dir"@ => "/I{path}"@,
            "define"@ => "/D{name}"@,
            "define_value"@ => "/D{name}={value}"@,
            "output_obj"@ => "/Fo{path}"@,
            "output_bin"@ => "/Fe{path}"@,
            "compile_only"@ => "/c"@,
            "dep_file"@ => "/showIncludes"@,
            "dep_file_mode"@ => "stdout"@,
            "system_lib"@ => "{name}.lib"@,
        ],
        toolset: map![
            "ld"@ => "lld-link"@,
            "ar"@ => "llvm-lib"@,
        ],
        linking: Seq::empty()
            .push(("c"@, LinkingView {
                abi: "c"@,
                compatible: Seq::<Seq<char>>::empty(),
                linker: ""@,
                extensions: Seq::<Seq<char>>::empty().push(".c"@),
                compile_binary: Some("clang-cl"@),
            }))
            .push(("cpp"@, LinkingView {
                abi: "c++"@,
                compatible: Seq::<Seq<char>>::empty().push("c"@),
                linker: ""@,
                extensions: Seq::<Seq<char>>::empty().push(".cpp"@).push(".cc"@).push(".cxx"@).push(".c++"@),
                compile_binary: None,
            })),
        ..empty_def()
    }
}

/// `ml.exe` / `ml64.exe` — Microsoft Macro Assembler, required for Windows kernel and driver development. Windows only.
pub open spec fn masm_def() -> DefView {
    DefView {
        name: "masm"@,
        binary: "ml64.exe"@,
        alias: Some("ml.exe"@),
        family: ""@,
        version_arg: ""@,
        version_regex: r"(\d+\.\d+\.\d+\.\d+)"@,
        extensions: Seq::<Seq<char>>::empty().push(".asm"@).push(".masm"@),
        supported_os: Seq::<Seq<char>>::empty().push("windows"@),
        flags_debug: "/Zi"@,
        flags_lto: ""@,
        requires_toolchain: Seq::<Seq<char>>::empty().push("cpp"@),
        flags_opt: map![
            "0"@ => ""@,
            "1"@ => ""@,
            "2"@ => ""@,
            "3"@ => ""@,
            "s"@ => ""@,
            "z"@ => ""@,
        ],
        flags_warnings: map![
            "none"@ => ""@,
            "default"@ => ""@,
            "all"@ => ""@,
            "error"@ => ""@,
        ],
        structure: map![
            "include_dir"@ => "/I{path}"@,
            "define"@ => "/D{name}"@,
            "define_value"@ => "/D{name}={value}"@,
            "output"@ => "/Fo {path}"@,
            "compile_only"@ => "/c"@,
            "dep_file_mode"@ => "none"@,
        ],
        linking: Seq::empty()
            .push(("asm"@, LinkingView {
                abi: "c"@,
                compatible: Seq::<Seq<char>>::empty().push("c"@).push("cpp"@),
                linker: "c++"@,
                extensions: Seq::<Seq<char>>::empty().push(".asm"@).push(".masm"@),
                compile_binary: None,
            })),
        ..empty_def()
    }
}

/// The definitions of this family's templates, in order.
pub open spec fn templates_defs() -> Seq<DefView> {
    Seq::<DefView>::empty().push(msvc_def()).push(clang_cl_def()).push(masm_def())
}

pub fn msvc() -> (r: CompilerTemplate)
    ensures
        r.def@ == msvc_def(),
{
    let mut d = ToolchainDef::empty();
    d.name = owned("msvc");
    d.binary = owned("cl.exe");
    d.family = owned("");
    d.version_arg = owned("");
    d.version_regex = owned(r"Version (\d+\.\d+\.\d+\.\d+)");
    d.extensions = empty_strs();
    push_str(&mut d.extensions, ".cpp");
    push_str(&mut d.extensions, ".cc");
    push_str(&mut d.extensions, ".cxx");
    push_str(&mut d.extensions, ".c++");
    push_str(&mut d.extensions, ".c");
    d.sanitizer_options = empty_strs();
    push_str(&mut d.sanitizer_options, "address");
    d.supported_os = empty_strs();
    push_str(&mut d.supported_os, "windows");
    d.flags_debug = owned("/Zi /FS");
    d.flags_lto = owned("/GL");
    d.flags_lto_link = owned("/LTCG");
    d.sanitize = owned("/fsanitize={values}");
    d.flags_opt.put("0", "/Od");
    d.flags_opt.put("1", "/O1");
    d.flags_opt.put("2", "/O2");
    d.flags_opt.put("3", "/Ox");
    d.flags_opt.put("s", "/O1 /Os");
    d.flags_opt.put("z", "/O1 /Os");
    d.flags_warnings.put("none", "/W0");
    d.flags_warnings.put("default", "/W3");
    d.flags_warnings.put("all", "/W4");
    d.flags_warnings.put("error", "/W4 /WX");
    d.standards.put("c++17", "/std:c++17");
    d.standards.put("c++20", "/std:c++20");
    d.standards.put("c++23", "/std:c++latest");
    d.standards.put("c17", "/std:c17");
    d.standards.put("c11", "/std:c11");
    d.structure.put("include_dir", "/I{path}");
    d.structure.put("define", "/D{name}");
    d.structure.put("define_value", "/D{name}={value}");
    d.structure.put("output_obj", "/Fo{path}");
    d.structure.put("output_bin", "/Fe{path}");
    d.structure.put("compile_only", "/c");
    d.structure.put("dep_file", "/showIncludes");
    d.structure.put("dep_file_mode", "stdout");
    d.structure.put("system_lib", "{name}.lib");
    d.toolset.put("cc", "cl.exe");
    d.toolset.put("cxx", "cl.exe");
    d.toolset.put("ld", "link.exe");
    d.toolset.put("ar", "lib.exe");
    d.toolset.put("strip", "");
    {
        let mut compatible = empty_strs();
        let mut extensions = empty_strs();
        push_str(&mut extensions, ".c");
        push_link(&mut d.linking, "c", LinkingParams {
            abi: owned("c"),
            compatible,
            linker: owned(""),
            extensions,
            compile_binary: Some(owned("cl.exe")),
        });
    }
    {
        let mut compatible = empty_strs();
        push_str(&mut compatible, "c");
        let mut extensions = empty_strs();
        push_str(&mut extensions, ".cpp");
        push_str(&mut extensions, ".cc");
        push_str(&mut extensions, ".cxx");
        push_str(&mut extensions, ".c++");
        push_link(&mut d.linking, "cpp", LinkingParams {
            abi: owned("c++"),
            compatible,
            linker: owned(""),
            extensions,
            compile_binary: None,
        });
    }
    proof {
        reveal_strlit("msvc");
    }
    CompilerTemplate::from_def(d).unwrap()
}

/// `clang-cl` — Clang with MSVC-compatible flags. Uses the same flag scheme as `cl.exe` but is detected by `clang-cl` on PATH.
pub fn clang_cl() -> (r: CompilerTemplate)
    ensures
        r.def@ == clang_cl_def(),
{
    let mut d = ToolchainDef::empty();
    d.name = owned("clang-cl");
    d.binary = owned("clang-cl");
    d.family = owned("llvm");
    d.version_arg = owned("--version");
    d.version_regex = owned(r"\b(\d+\.\d+\.\d+)\b");
    d.extensions = empty_strs();
    push_str(&mut d.extensions, ".cpp");
    push_str(&mut d.extensions, ".cc");
    push_str(&mut d.extensions, ".cxx");
    push_str(&mut d.extensions, ".c++");
    push_str(&mut d.extensions, ".c");
    d.sanitizer_options = empty_strs();
    push_str(&mut d.sanitizer_options, "address");
    push_str(&mut d.sanitizer_options, "undefined");
    d.supported_os = empty_strs();
    push_str(&mut d.supported_os, "windows");
    d.flags_debug = owned("/Zi /FS");
    d.flags_lto = owned("/GL");
    d.flags_lto_link = owned("/LTCG");
    d.sanitize = owned("/fsanitize={values}");
    d.flags_opt.put("0", "/Od");
    d.flags_opt.put("1", "/O1");
    d.flags_opt.put("2", "/O2");
    d.flags_opt.put("3", "/Ox");
    d.flags_opt.put("s", "/O1 /Os");
    d.flags_opt.put("z", "/O1 /Os");
    d.flags_warnings.put("none", "/W0");
    d.flags_warnings.put("default", "/W3");
    d.flags_warnings.put("all", "/W4 -Wextra");
    d.flags_warnings.put("error", "/W4 -Wextra /WX");
    d.standards.put("c++17", "/std:c++17");
    d.standards.put("c++20", "/std:c++20");
    d.standards.put("c++23", "/std:c++latest");
    d.standards.put("c17", "/std:c17");
    d.standards.put("c11", "/std:c11");
    d.structure.put("include_dir", "/I{path}");
    d.structure.put("define", "/D{name}");
    d.structure.put("define_value", "/D{name}={value}");
    d.structure.put("output_obj", "/Fo{path}");
    d.structure.put("output_bin", "/Fe{path}");
    d.structure.put("compile_only", "/c");
    d.structure.put("dep_file", "/showIncludes");
    d.structure.put("dep_file_mode", "stdout");
    d.structure.put("system_lib", "{name}.lib");
    d.toolset.put("ld", "lld-link");
    d.toolset.put("ar", "llvm-lib");
    {
        let mut compatible = empty_strs();
        let mut extensions = empty_strs();
        push_str(&mut extensions, ".c");
        push_link(&mut d.linking, "c", LinkingParams {
            abi: owned("c"),
            compatible,
            linker: owned(""),
            extensions,
            compile_binary: Some(owned("clang-cl")),
        });
    }
    {
        let mut compatible = empty_strs();
        push_str(&mut compatible, "c");
        let mut extensions = empty_strs();
        push_str(&mut extensions, ".cpp");
        push_str(&mut extensions, ".cc");
        push_str(&mut extensions, ".cxx");
        push_str(&mut extensions, ".c++");
        push_link(&mut d.linking, "cpp", LinkingParams {
            abi: owned("c++"),
            compatible,
            linker: owned(""),
            extensions,
            compile_binary: None,
        });
    }
    proof {
        reveal_strlit("clang-cl");
    }
    CompilerTemplate::from_def(d).unwrap()
}

/// `ml.exe` / `ml64.exe` — Microsoft Macro Assembler, required for Windows kernel and driver development. Windows only.
pub fn masm() -> (r: CompilerTemplate)
    ensures
        r.def@ == masm_def(),
{
    let mut d = ToolchainDef::empty();
    d.name = owned("masm");
    d.binary = owned("ml64.exe");
    d.alias = Some(owned("ml.exe"));
    d.family = owned("");
    d.version_arg = owned("");
    d.version_regex = owned(r"(\d+\.\d+\.\d+\.\d+)");
    d.extensions = empty_strs();
    push_str(&mut d.extensions, ".asm");
    push_str(&mut d.extensions, ".masm");
    d.supported_os = empty_strs();
    push_str(&mut d.supported_os, "windows");
    d.flags_debug = owned("/Zi");
    d.flags_lto = owned("");
    d.requires_toolchain = empty_strs();
    push_str(&mut d.requires_toolchain, "cpp");
    d.flags_opt.put("0", "");
    d.flags_opt.put("1", "");
    d.flags_opt.put("2", "");
    d.flags_opt.put("3", "");
    d.flags_opt.put("s", "");
    d.flags_opt.put("z", "");
    d.flags_warnings.put("none", "");
    d.flags_warnings.put("default", "");
    d.flags_warnings.put("all", "");
    d.flags_warnings.put("error", "");
    d.structure.put("include_dir", "/I{path}");
    d.structure.put("define", "/D{name}");
    d.structure.put("define_value", "/D{name}={value}");
    d.structure.put("output", "/Fo {path}");
    d.structure.put("compile_only", "/c");
    d.structure.put("dep_file_mode", "none");
    {
        let mut compatible = empty_strs();
        push_str(&mut compatible, "c");
        push_str(&mut compatible, "cpp");
        let mut extensions = empty_strs();
        push_str(&mut extensions, ".asm");
        push_str(&mut extensions, ".masm");
        push_link(&mut d.linking, "asm", LinkingParams {
            abi: owned("c"),
            compatible,
            linker: owned("c++"),
            extensions,
            compile_binary: None,
        });
    }
    proof {
        reveal_strlit("masm");
    }
    CompilerTemplate::from_def(d).unwrap()
}

/// The templates of this family, in order.
pub fn templates() -> (r: Vec<CompilerTemplate>)
    ensures
        defs(r@) == templates_defs(),
{
    let mut v = no_templates();
    push_template(&mut v, msvc());
    push_template(&mut v, clang_cl());
    push_template(&mut v, masm());
    v
}

} // verus!
