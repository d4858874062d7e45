//! Zig-as-C/C++-compiler templates.

use vstd::prelude::*;
use crate::builtin::{empty_strs, no_templates};
use crate::template::{CompilerTemplate, DefView, LinkingParams, LinkingView, ToolchainDef, defs, empty_def, push_link, push_str, push_template};
use crate::text::owned;

verus! {

pub open spec fn zig_base_def(name: Seq<char>, subcommand: Seq<char>) -> DefView {
    DefView {
        name: name,
        binary: "zig"@,
        family: ""@,
        version_arg: "version"@,
        version_regex: r"(\d+\.\d+\.\d+)"@,
        subcommand: Some(subcommand),
        flags_debug: "-g"@,
        flags_lto: "-flto"@,
        sanitize: "-fsanitize={values}"@,
        sanitizer_options: Seq::<Seq<char>>::empty().push("address"@).push("undefined"@).push("thread"@),
        flags_opt: map![
            "0"@ => "-O0"@,
            "1"@ => "-O1"@,
            "2"@ => "-O2"@,
            "3"@ => "-O3"@,
            "s"@ => "-Os"@,
            "z"@ => "-Oz"@,
        ],
        flags_warnings: map![
            "none"@ => ""@,
            "default"@ => "-Wall"@,
            "all"@ => "-Wall -Wextra -Wpedantic"@,
            "error"@ => "-Wall -Wextra -Wpedantic -Werror"@,
        ],
        flags_stdlib: map![
            "libc++"@ => "-stdlib=libc++"@,
            "libstdc++"@ => "-stdlib=libstdc++"@,
            "none"@ => "-nostdlib"@,
        ],
        structure: map![
            "include_dir"@ => "-I{path}"@,
            "define"@ => "-D{name}"@,
            "define_value"@ => "-D{name}={value}"@,
            "output"@ => "-o {path}"@,
            "compile_only"@ => "-c"@,
            "dep_file"@ => "-MMD -MF {path}"@,
            "target"@ => "--target={triple}"@,
        ],
        toolset: map![
            "ar"@ => "zig ar"@,
            "strip"@ => "strip"@,
        ],
        ..empty_def()
    }
}

/// `zig cc` — Zig's bundled Clang used as a drop-in C compiler. Excellent for cross-compilation: a single `zig` binary can target any triple.
pub open spec fn zig_c_def() -> DefView {
    let b = zig_base_def("zig-c"@, "cc"@);
    DefView {
        extensions: Seq::<Seq<char>>::empty().push(".c"@).push(".s"@).push(".S"@),
        defaults: b.defaults
            .insert("std"@, "c11"@),
        standards: b.standards
            .insert("c11"@, "-std=c11"@)
            .insert("c17"@, "-std=c17"@)
            .insert("c23"@, "-std=c23"@),
        toolset: b.toolset
            .insert("cc"@, "zig cc"@)
            .insert("cxx"@, "zig c++"@)
            .insert("ld"@, "zig c++"@),
        linking: b.linking
            .push(("c"@, LinkingView {
                abi: "c"@,
                compatible: Seq::<Seq<char>>::empty().push("asm"@),
                linker: ""@,
                extensions: Seq::<Seq<char>>::empty().push(".c"@).push(".s"@).push(".S"@),
                compile_binary: None,
            })),
        ..b
    }
}

/// `zig c++` — Zig's bundled Clang used as a drop-in C++ compiler.
pub open spec fn zig_cxx_def() -> DefView {
    let b = zig_base_def("zig-c++"@, "c++"@);
    DefView {
        extensions: Seq::<Seq<char>>::empty().push(".cpp"@).push(".cc"@).push(".cxx"@).push(".c++"@),
        defaults: b.defaults
            .insert("std"@, "c++17"@),
        standards: b.standards
            .insert("c++17"@, "-std=c++17"@)
            .insert("c++20"@, "-std=c++20"@)
            .insert("c++23"@, "-std=c++23"@),
        toolset: b.toolset
            .insert("cc"@, "zig cc"@)
            .insert("cxx"@, "zig c++"@)
            .insert("ld"@, "zig c++"@),
        linking: b.linking
            .push(("cpp"@, LinkingView {
                abi: "c++"@,
                compatible: Seq::<Seq<char>>::empty().push("c"@),
                linker: ""@,
                extensions: Seq::<Seq<char>>::empty().push(".cpp"@).push(".cc"@).push(".cxx"@).push(".c++"@),
                compile_binary: None,
            })),
        ..b
    }
}

/// The definitions of this family's templates, in order.
pub open spec fn templates_defs() -> Seq<DefView> {
    Seq::<DefView>::empty().push(zig_c_def()).push(zig_cxx_def())
}

fn zig_base(name: &str, subcommand: &str) -> (r: ToolchainDef)
    ensures
        r@ == zig_base_def(name@, subcommand@),
{
    let mut d = ToolchainDef::empty();
    d.name = owned(name);
    d.binary = owned("zig");
    d.family = owned("");
    d.version_arg = owned("version");
    d.version_regex = owned(r"(\d+\.\d+\.\d+)");
    d.subcommand = Some(owned(subcommand));
    d.flags_debug = owned("-g");
    d.flags_lto = owned("-flto");
    d.sanitize = owned("-fsanitize={values}");
    d.sanitizer_options = empty_strs();
    push_str(&mut d.sanitizer_options, "address");
    push_str(&mut d.sanitizer_options, "undefined");
    push_str(&mut d.sanitizer_options, "thread");
    d.flags_opt.put("0", "-O0");
    d.flags_opt.put("1", "-O1");
    d.flags_opt.put("2", "-O2");
    d.flags_opt.put("3", "-O3");
    d.flags_opt.put("s", "-Os");
    d.flags_opt.put("z", "-Oz");
    d.flags_warnings.put("none", "");
    d.flags_warnings.put("default", "-Wall");
    d.flags_warnings.put("all", "-Wall -Wextra -Wpedantic");
    d.flags_warnings.put("error", "-Wall -Wextra -Wpedantic -Werror");
    d.flags_stdlib.put("libc++", "-stdlib=libc++");
    d.flags_stdlib.put("libstdc++", "-stdlib=libstdc++");
    d.flags_stdlib.put("none", "-nostdlib");
    d.structure.put("include_dir", "-I{path}");
    d.structure.put("define", "-D{name}");
    d.structure.put("define_value", "-D{name}={value}");
    d.structure.put("output", "-o {path}");
    d.structure.put("compile_only", "-c");
    d.structure.put("dep_file", "-MMD -MF {path}");
    d.structure.put("target", "--target={triple}");
    d.toolset.put("ar", "zig ar");
    d.toolset.put("strip", "strip");
    d
}

/// `zig cc` — Zig's bundled Clang used as a drop-in C compiler. Excellent for cross-compilation: a single `zig` binary can target any triple.
pub fn zig_c() -> (r: CompilerTemplate)
    ensures
        r.def@ == zig_c_def(),
{
    let mut d = zig_base("zig-c", "cc");
    d.extensions = empty_strs();
    push_str(&mut d.extensions, ".c");
    push_str(&mut d.extensions, ".s");
    push_str(&mut d.extensions, ".S");
    d.defaults.put("std", "c11");
    d.standards.put("c11", "-std=c11");
    d.standards.put("c17", "-std=c17");
    d.standards.put("c23", "-std=c23");
    d.toolset.put("cc", "zig cc");
    d.toolset.put("cxx", "zig c++");
    d.toolset.put("ld", "zig c++");
    {
        let mut compatible = empty_strs();
        push_str(&mut compatible, "asm");
        let mut extensions = empty_strs();
        push_str(&mut extensions, ".c");
        push_str(&mut extensions, ".s");
        push_str(&mut extensions, ".S");
        push_link(&mut d.linking, "c", LinkingParams {
            abi: owned("c"),
            compatible,
            linker: owned(""),
            extensions,
            compile_binary: None,
        });
    }
    proof {
        reveal_strlit("zig-c");
    }
    CompilerTemplate::from_def(d).unwrap()
}

/// `zig c++` — Zig's bundled Clang used as a drop-in C++ compiler.
pub fn zig_cxx() -> (r: CompilerTemplate)
    ensures
        r.def@ == zig_cxx_def(),
{
    let mut d = zig_base("zig-c++", "c++");
    d.extensions = empty_strs();
    push_str(&mut d.extensions, ".cpp");
    push_str(&mut d.extensions, ".cc");
    push_str(&mut d.extensions, ".cxx");
    push_str(&mut d.extensions, ".c++");
    d.defaults.put("std", "c++17");
    d.standards.put("c++17", "-std=c++17");
    d.standards.put("c++20", "-std=c++20");
    d.standards.put("c++23", "-std=c++23");
    d.toolset.put("cc", "zig cc");
    d.toolset.put("cxx", "zig c++");
    d.toolset.put("ld", "zig c++");
    {
        let mut compatible = empty_strs();
        push_str(&mut compatible, "c");
        let mut extensions = empty_strs();
        push_str(&mut extensions, ".cpp");
        push_str(&mut extensions, ".cc");
        push_str(&mut extensions, ".cxx");
        push_str(&mut extensions, ".c++");
        push_link(&mut d.linking, "cpp", LinkingParams {
            abi: owned("c++"),
            compatible,
            linker: owned(""),
            extensions,
            compile_binary: None,
        });
    }
    proof {
        reveal_strlit("zig-c++");
    }
    CompilerTemplate::from_def(d).unwrap()
}

/// The templates of this family, in order.
pub fn templates() -> (r: Vec<CompilerTemplate>)
    ensures
        defs(r@) == templates_defs(),
{
    let mut v = no_templates();
    push_template(&mut v, zig_c());
    push_template(&mut v, zig_cxx());
    v
}

} // verus!
