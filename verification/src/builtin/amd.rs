//! AMD ROCm compiler templates.

use vstd::prelude::*;
use crate::builtin::{empty_strs, no_templates};
use crate::template::{CompilerTemplate, DefView, LinkingParams, LinkingView, ToolchainDef, defs, empty_def, push_link, push_str, push_template};
use crate::text::owned;

verus! {

pub open spec fn hipcc_def() -> DefView {
    DefView {
        name: "hipcc"@,
        binary: "hipcc"@,
        family: ""@,
        version_arg: "--version"@,
        version_regex: r"HIP version: (\d+\.\d+\.\d+)"@,
        extensions: Seq::<Seq<char>>::empty().push(".hip"@),
        supported_archs: Seq::<Seq<char>>::empty().push("x86_64"@),
        supported_os: Seq::<Seq<char>>::empty().push("linux"@),
        required_tools: Seq::<Seq<char>>::empty().push("hipconfig"@),
        requires_toolchain: Seq::<Seq<char>>::empty().push("cpp"@),
        sanitizer_options: Seq::<Seq<char>>::empty().push("address"@).push("undefined"@),
        flags_debug: "-g -ggdb"@,
        flags_lto: "-flto"@,
        sanitize: "-fsanitize={values}"@,
        flags_opt: map![
            "0"@ => "-O0"@,
            "1"@ => "-O1"@,
            "2"@ => "-O2"@,
            "3"@ => "-O3"@,
            "s"@ => "-Os"@,
            "z"@ => "-Oz"@,
        ],
        flags_warnings: map![
            "none"@ => ""@,
            "default"@ => "-Wall"@,
            "all"@ => "-Wall -Wextra"@,
            "error"@ => "-Wall -Wextra -Werror"@,
        ],
        standards: map![
            "c++14"@ => "-std=c++14"@,
            "c++17"@ => "-std=c++17"@,
            "c++20"@ => "-std=c++20"@,
        ],
        structure: map![
            "include_dir"@ => "-I{path}"@,
            "define"@ => "-D{name}"@,
            "define_value"@ => "-D{name}={value}"@,
            "output"@ => "-o {path}"@,
            "compile_only"@ => "-c"@,
            "dep_file"@ => "-MMD -MF {path}"@,
            "target"@ => "--target={triple}"@,
            "sysroot"@ => "--sysroot={path}"@,
        ],
        toolset: map![
            "ld"@ => "hipcc"@,
        ],
        linking: Seq::empty()
            .push(("hip"@, LinkingView {
                abi: "hip"@,
                compatible: Seq::<Seq<char>>::empty().push("c++"@).push("c"@).push("fortran"@),
                linker: "c++"@,
                extensions: Seq::<Seq<char>>::empty().push(".hip"@),
                compile_binary: None,
            })),
        ..empty_def()
    }
}

/// The definitions of this family's templates, in order.
pub open spec fn templates_defs() -> Seq<DefView> {
    Seq::<DefView>::empty().push(hipcc_def())
}

pub fn hipcc() -> (r: CompilerTemplate)
    ensures
        r.def@ == hipcc_def(),
{
    let mut d = ToolchainDef::empty();
    d.name = owned("hipcc");
    d.binary = owned("hipcc");
    d.family = owned("");
    d.version_arg = owned("--version");
    d.version_regex = owned(r"HIP version: (\d+\.\d+\.\d+)");
    d.extensions = empty_strs();
    push_str(&mut d.extensions, ".hip");
    d.supported_archs = empty_strs();
    push_str(&mut d.supported_archs, "x86_64");
    d.supported_os = empty_strs();
    push_str(&mut d.supported_os, "linux");
    d.required_tools = empty_strs();
    push_str(&mut d.required_tools, "hipconfig");
    d.requires_toolchain = empty_strs();
    push_str(&mut d.requires_toolchain, "cpp");
    d.sanitizer_options = empty_strs();
    push_str(&mut d.sanitizer_options, "address");
    push_str(&mut d.sanitizer_options, "undefined");
    d.flags_debug = owned("-g -ggdb");
    d.flags_lto = owned("-flto");
    d.sanitize = owned("-fsanitize={values}");
    d.flags_opt.put("0", "-O0");
    d.flags_opt.put("1", "-O1");
    d.flags_opt.put("2", "-O2");
    d.flags_opt.put("3", "-O3");
    d.flags_opt.put("s", "-Os");
    d.flags_opt.put("z", "-Oz");
    d.flags_warnings.put("none", "");
    d.flags_warnings.put("default", "-Wall");
    d.flags_warnings.put("all", "-Wall -Wextra");
    d.flags_warnings.put("error", "-Wall -Wextra -Werror");
    d.standards.put("c++14", "-std=c++14");
    d.standards.put("c++17", "-std=c++17");
    d.standards.put("c++20", "-std=c++20");
    d.structure.put("include_dir", "-I{path}");
    d.structure.put("define", "-D{name}");
    d.structure.put("define_value", "-D{name}={value}");
    d.structure.put("output", "-o {path}");
    d.structure.put("compile_only", "-c");
    d.structure.put("dep_file", "-MMD -MF {path}");
    d.structure.put("target", "--target={triple}");
    d.structure.put("sysroot", "--sysroot={path}");
    d.toolset.put("ld", "hipcc");
    {
        let mut compatible = empty_strs();
        push_str(&mut compatible, "c++");
        push_str(&mut compatible, "c");
        push_str(&mut compatible, "fortran");
        let mut extensions = empty_strs();
        push_str(&mut extensions, ".hip");
        push_link(&mut d.linking, "hip", LinkingParams {
            abi: owned("hip"),
            compatible,
            linker: owned("c++"),
            extensions,
            compile_binary: None,
        });
    }
    proof {
        reveal_strlit("hipcc");
    }
    CompilerTemplate::from_def(d).unwrap()
}

/// The templates of this family, in order.
pub fn templates() -> (r: Vec<CompilerTemplate>)
    ensures
        defs(r@) == templates_defs(),
{
    let mut v = no_templates();
    push_template(&mut v, hipcc());
    v
}

} // verus!
