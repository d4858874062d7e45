//! WebAssembly compiler templates (Emscripten, wasi-sdk).

use vstd::prelude::*;
use crate::builtin::{empty_strs, no_templates};
use crate::template::{CompilerTemplate, DefView, LinkingParams, LinkingView, ToolchainDef, defs, empty_def, push_link, push_str, push_template};
use crate::text::owned;

verus! {

pub open spec fn emcc_base_def(name: Seq<char>, binary: Seq<char>) -> DefView {
    DefView {
        name: name,
        binary: binary,
        family: ""@,
        version_arg: "--version"@,
        version_regex: r"emcc.*?(\d+\.\d+\.\d+)"@,
        flags_debug: "-g"@,
        flags_lto: "-flto"@,
        supported_archs: Seq::<Seq<char>>::empty().push("x86_64"@).push("aarch64"@),
        flags_opt: map![
            "0"@ => "-O0"@,
            "1"@ => "-O1"@,
            "2"@ => "-O2"@,
            "3"@ => "-O3"@,
            "s"@ => "-Os"@,
            "z"@ => "-Oz"@,
        ],
        flags_warnings: map![
            "none"@ => ""@,
            "default"@ => "-Wall"@,
            "all"@ => "-Wall -Wextra"@,
            "error"@ => "-Wall -Wextra -Werror"@,
        ],
        structure: map![
            "include_dir"@ => "-I{path}"@,
            "define"@ => "-D{name}"@,
            "define_value"@ => "-D{name}={value}"@,
            "output"@ => "-o {path}"@,
            "compile_only"@ => "-c"@,
            "dep_file"@ => "-MMD -MF {path}"@,
        ],
        toolset: map![
            "ar"@ => "emar"@,
        ],
        ..empty_def()
    }
}

/// `emcc` — Emscripten C compiler targeting WebAssembly/JavaScript.
pub open spec fn emcc_def() -> DefView {
    let b = emcc_base_def("emcc"@, "emcc"@);
    DefView {
        extensions: Seq::<Seq<char>>::empty().push(".c"@).push(".s"@),
        defaults: b.defaults
            .insert("std"@, "c11"@),
        standards: b.standards
            .insert("c99"@, "-std=c99"@)
            .insert("c11"@, "-std=c11"@)
            .insert("c17"@, "-std=c17"@),
        toolset: b.toolset
            .insert("ld"@, "emcc"@),
        linking: b.linking
            .push(("c"@, LinkingView {
                abi: "c"@,
                compatible: Seq::<Seq<char>>::empty(),
                linker: ""@,
                extensions: Seq::<Seq<char>>::empty().push(".c"@),
                compile_binary: Some("emcc"@),
            })),
        ..b
    }
}

/// `em++` — Emscripten C++ compiler targeting WebAssembly/JavaScript.
pub open spec fn empp_def() -> DefView {
    let b = emcc_base_def("em++"@, "em++"@);
    DefView {
        version_regex: r"em\+\+.*?(\d+\.\d+\.\d+)"@,
        extensions: Seq::<Seq<char>>::empty().push(".cpp"@).push(".cc"@).push(".cxx"@).push(".c++"@),
        defaults: b.defaults
            .insert("std"@, "c++17"@),
        standards: b.standards
            .insert("c++17"@, "-std=c++17"@)
            .insert("c++20"@, "-std=c++20"@)
            .insert("c++23"@, "-std=c++23"@),
        toolset: b.toolset
            .insert("ld"@, "em++"@),
        linking: b.linking
            .push(("cpp"@, LinkingView {
                abi: "c++"@,
                compatible: Seq::<Seq<char>>::empty().push("c"@),
                linker: ""@,
                extensions: Seq::<Seq<char>>::empty().push(".cpp"@).push(".cc"@).push(".cxx"@).push(".c++"@),
                compile_binary: None,
            })),
        ..b
    }
}

/// wasi-sdk — LLVM/Clang cross-compiler targeting `wasm32-wasi` for WASI runtimes (Wasmtime, WasmEdge). Typically installed at `/opt/wasi-sdk/bin/clang`.
pub open spec fn wasi_clang_def() -> DefView {
    DefView {
        name: "wasi-clang"@,
        binary: "wasi-clang"@,
        alias: Some("wasi-clang++"@),
        family: "llvm"@,
        version_arg: "--version"@,
        version_regex: r"\b(\d+\.\d+\.\d+)\b"@,
        extensions: Seq::<Seq<char>>::empty().push(".c"@).push(".cpp"@).push(".cc"@).push(".cxx"@),
        always_flags: Seq::<Seq<char>>::empty().push("--target=wasm32-wasi"@),
        flags_debug: "-g"@,
        flags_lto: "-flto"@,
        flags_opt: map![
            "0"@ => "-O0"@,
            "1"@ => "-O1"@,
            "2"@ => "-O2"@,
            "3"@ => "-O3"@,
            "s"@ => "-Os"@,
            "z"@ => "-Oz"@,
        ],
        flags_warnings: map![
            "none"@ => ""@,
            "default"@ => "-Wall"@,
            "all"@ => "-Wall -Wextra"@,
            "error"@ => "-Wall -Wextra -Werror"@,
        ],
        standards: map![
            "c11"@ => "-std=c11"@,
            "c17"@ => "-std=c17"@,
            "c++17"@ => "-std=c++17"@,
            "c++20"@ => "-std=c++20"@,
        ],
        structure: map![
            "include_dir"@ => "-I{path}"@,
            "define"@ => "-D{name}"@,
            "define_value"@ => "-D{name}={value}"@,
            "output"@ => "-o {path}"@,
            "compile_only"@ => "-c"@,
            "dep_file"@ => "-MMD -MF {path}"@,
        ],
        toolset: map![
            "ar"@ => "wasi-ar"@,
        ],
        linking: Seq::empty()
            .push(("c"@, LinkingView {
                abi: "c"@,
                compatible: Seq::<Seq<char>>::empty(),
                linker: ""@,
                extensions: Seq::<Seq<char>>::empty().push(".c"@),
                compile_binary: Some("wasi-clang"@),
            }))
            .push(("cpp"@, LinkingView {
                abi: "c++"@,
                compatible: Seq::<Seq<char>>::empty().push("c"@),
                linker: ""@,
                extensions: Seq::<Seq<char>>::empty().push(".cpp"@).push(".cc"@).push(".cxx"@),
                compile_binary: None,
            })),
        ..empty_def()
    }
}

/// The definitions of this family's templates, in order.
pub open spec fn templates_defs() -> Seq<DefView> {
    Seq::<DefView>::empty().push(emcc_def()).push(empp_def()).push(wasi_clang_def())
}

fn emcc_base(name: &str, binary: &str) -> (r: ToolchainDef)
    ensures
        r@ == emcc_base_def(name@, binary@),
{
    let mut d = ToolchainDef::empty();
    d.name = owned(name);
    d.binary = owned(binary);
    d.family = owned("");
    d.version_arg = owned("--version");
    d.version_regex = owned(r"emcc.*?(\d+\.\d+\.\d+)");
    d.flags_debug = owned("-g");
    d.flags_lto = owned("-flto");
    d.supported_archs = empty_strs();
    push_str(&mut d.supported_archs, "x86_64");
    push_str(&mut d.supported_archs, "aarch64");
    d.flags_opt.put("0", "-O0");
    d.flags_opt.put("1", "-O1");
    d.flags_opt.put("2", "-O2");
    d.flags_opt.put("3", "-O3");
    d.flags_opt.put("s", "-Os");
    d.flags_opt.put("z", "-Oz");
    d.flags_warnings.put("none", "");
    d.flags_warnings.put("default", "-Wall");
    d.flags_warnings.put("all", "-Wall -Wextra");
    d.flags_warnings.put("error", "-Wall -Wextra -Werror");
    d.structure.put("include_dir", "-I{path}");
    d.structure.put("define", "-D{name}");
    d.structure.put("define_value", "-D{name}={value}");
    d.structure.put("output", "-o {path}");
    d.structure.put("compile_only", "-c");
    d.structure.put("dep_file", "-MMD -MF {path}");
    d.toolset.put("ar", "emar");
    d
}

/// `emcc` — Emscripten C compiler targeting WebAssembly/JavaScript.
pub fn emcc() -> (r: CompilerTemplate)
    ensures
        r.def@ == emcc_def(),
{
    let mut d = emcc_base("emcc", "emcc");
    d.extensions = empty_strs();
    push_str(&mut d.extensions, ".c");
    push_str(&mut d.extensions, ".s");
    d.defaults.put("std", "c11");
    d.standards.put("c99", "-std=c99");
    d.standards.put("c11", "-std=c11");
    d.standards.put("c17", "-std=c17");
    d.toolset.put("ld", "emcc");
    {
        let mut compatible = empty_strs();
        let mut extensions = empty_strs();
        push_str(&mut extensions, ".c");
        push_link(&mut d.linking, "c", LinkingParams {
            abi: owned("c"),
            compatible,
            linker: owned(""),
            extensions,
            compile_binary: Some(owned("emcc")),
        });
    }
    proof {
        reveal_strlit("emcc");
    }
    CompilerTemplate::from_def(d).unwrap()
}

/// `em++` — Emscripten C++ compiler targeting WebAssembly/JavaScript.
pub fn empp() -> (r: CompilerTemplate)
    ensures
        r.def@ == empp_def(),
{
    let mut d = emcc_base("em++", "em++");
    d.version_regex = owned(r"em\+\+.*?(\d+\.\d+\.\d+)");
    d.extensions = empty_strs();
    push_str(&mut d.extensions, ".cpp");
    push_str(&mut d.extensions, ".cc");
    push_str(&mut d.extensions, ".cxx");
    push_str(&mut d.extensions, ".c++");
    d.defaults.put("std", "c++17");
    d.standards.put("c++17", "-std=c++17");
    d.standards.put("c++20", "-std=c++20");
    d.standards.put("c++23", "-std=c++23");
    d.toolset.put("ld", "em++");
    {
        let mut compatible = empty_strs();
        push_str(&mut compatible, "c");
        let mut extensions = empty_strs();
        push_str(&mut extensions, ".cpp");
        push_str(&mut extensions, ".cc");
        push_str(&mut extensions, ".cxx");
        push_str(&mut extensions, ".c++");
        push_link(&mut d.linking, "cpp", LinkingParams {
            abi: owned("c++"),
            compatible,
            linker: owned(""),
            extensions,
            compile_binary: None,
        });
    }
    proof {
        reveal_strlit("em++");
    }
    CompilerTemplate::from_def(d).unwrap()
}

/// wasi-sdk — LLVM/Clang cross-compiler targeting `wasm32-wasi` for WASI runtimes (Wasmtime, WasmEdge). Typically installed at `/opt/wasi-sdk/bin/clang`.
pub fn wasi_clang() -> (r: CompilerTemplate)
    ensures
        r.def@ == wasi_clang_def(),
{
    let mut d = ToolchainDef::empty();
    d.name = owned("wasi-clang");
    d.binary = owned("wasi-clang");
    d.alias = Some(owned("wasi-clang++"));
    d.family = owned("llvm");
    d.version_arg = owned("--version");
    d.version_regex = owned(r"\b(\d+\.\d+\.\d+)\b");
    d.extensions = empty_strs();
    push_str(&mut d.extensions, ".c");
    push_str(&mut d.extensions, ".cpp");
    push_str(&mut d.extensions, ".cc");
    push_str(&mut d.extensions, ".cxx");
    d.always_flags = empty_strs();
    push_str(&mut d.always_flags, "--target=wasm32-wasi");
    d.flags_debug = owned("-g");
    d.flags_lto = owned("-flto");
    d.flags_opt.put("0", "-O0");
    d.flags_opt.put("1", "-O1");
    d.flags_opt.put("2", "-O2");
    d.flags_opt.put("3", "-O3");
    d.flags_opt.put("s", "-Os");
    d.flags_opt.put("z", "-Oz");
    d.flags_warnings.put("none", "");
    d.flags_warnings.put("default", "-Wall");
    d.flags_warnings.put("all", "-Wall -Wextra");
    d.flags_warnings.put("error", "-Wall -Wextra -Werror");
    d.standards.put("c11", "-std=c11");
    d.standards.put("c17", "-std=c17");
    d.standards.put("c++17", "-std=c++17");
    d.standards.put("c++20", "-std=c++20");
    d.structure.put("include_dir", "-I{path}");
    d.structure.put("define", "-D{name}");
    d.structure.put("define_value", "-D{name}={value}");
    d.structure.put("output", "-o {path}");
    d.structure.put("compile_only", "-c");
    d.structure.put("dep_file", "-MMD -MF {path}");
    d.toolset.put("ar", "wasi-ar");
    {
        let mut compatible = empty_strs();
        let mut extensions = empty_strs();
        push_str(&mut extensions, ".c");
        push_link(&mut d.linking, "c", LinkingParams {
            abi: owned("c"),
            compatible,
            linker: owned(""),
            extensions,
            compile_binary: Some(owned("wasi-clang")),
        });
    }
    {
        let mut compatible = empty_strs();
        push_str(&mut compatible, "c");
        let mut extensions = empty_strs();
        push_str(&mut extensions, ".cpp");
        push_str(&mut extensions, ".cc");
        push_str(&mut extensions, ".cxx");
        push_link(&mut d.linking, "cpp", LinkingParams {
            abi: owned("c++"),
            compatible,
            linker: owned(""),
            extensions,
            compile_binary: None,
        });
    }
    proof {
        reveal_strlit("wasi-clang");
    }
    CompilerTemplate::from_def(d).unwrap()
}

/// The templates of this family, in order.
pub fn templates() -> (r: Vec<CompilerTemplate>)
    ensures
        defs(r@) == templates_defs(),
{
    let mut v = no_templates();
    push_template(&mut v, emcc());
    push_template(&mut v, empp());
    push_template(&mut v, wasi_clang());
    v
}

} // verus!
