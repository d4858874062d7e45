//! LLVM compiler templates.

use vstd::prelude::*;
use crate::builtin::{empty_strs, no_templates};
use crate::template::{CompilerTemplate, DefView, HandlerFn, HandlerView, LinkingParams, LinkingView, OptionHandler, ToolchainDef, defs, empty_def, push_link, push_str, push_template};
use crate::text::owned;

verus! {

pub open spec fn llvm_base_def(name: Seq<char>, binary: Seq<char>) -> DefView {
    DefView {
        name: name,
        binary: binary,
        family: "llvm"@,
        version_arg: "--version"@,
        version_regex: r"\b(\d+\.\d+\.\d+)\b"@,
        flags_debug: "-g"@,
        flags_lto: "-flto"@,
        sanitize: "-fsanitize={values}"@,
        cpu_ext: "-m{name}"@,
        flags_opt: map![
            "0"@ => "-O0"@,
            "1"@ => "-O1"@,
            "2"@ => "-O2"@,
            "3"@ => "-O3"@,
            "s"@ => "-Os"@,
            "z"@ => "-Oz"@,
        ],
        flags_warnings: map![
            "none"@ => ""@,
            "default"@ => "-Wall"@,
            "all"@ => "-Wall -Wextra -Wpedantic"@,
            "error"@ => "-Wall -Wextra -Wpedantic -Werror"@,
        ],
        flags_stdlib: map![
            "libc++"@ => "-stdlib=libc++"@,
            "libstdc++"@ => "-stdlib=libstdc++"@,
            "none"@ => "-nostdlib"@,
        ],
        structure: map![
            "include_dir"@ => "-I{path}"@,
            "define"@ => "-D{name}"@,
            "define_value"@ => "-D{name}={value}"@,
            "output"@ => "-o {path}"@,
            "compile_only"@ => "-c"@,
            "dep_file"@ => "-MMD -MF {path}"@,
            "target"@ => "--target={triple}"@,
            "sysroot"@ => "--sysroot={path}"@,
        ],
        toolset: map![
            "ar"@ => "ar"@,
            "strip"@ => "strip"@,
        ],
        ..empty_def()
    }
}

pub open spec fn clangpp_def() -> DefView {
    let b = llvm_base_def("clang++"@, "clang++"@);
    DefView {
        alias: Some("clang"@),
        extensions: Seq::<Seq<char>>::empty().push(".cpp"@).push(".cppm"@).push(".ixx"@).push(".mpp"@).push(".cc"@).push(".cxx"@).push(".c++"@),
        defaults: b.defaults
            .insert("std"@, "c++17"@),
        standards: b.standards
            .insert("c++17"@, "-std=c++17"@)
            .insert("c++20"@, "-std=c++20"@)
            .insert("c++23"@, "-std=c++23"@),
        sanitizer_options: Seq::<Seq<char>>::empty().push("address"@).push("undefined"@).push("thread"@).push("memory"@).push("leak"@).push("hwaddress"@).push("dataflow"@).push("cfi"@).push("safestack"@),
        toolset: b.toolset
            .insert("cc"@, "clang"@)
            .insert("cxx"@, "clang++"@)
            .insert("ld"@, "clang++"@),
        module_style: "clang"@,
        module_params: b.module_params
            .insert("precompile"@, "--precompile"@)
            .insert("import_module"@, "-fmodule-file={name}={pcm_path}"@)
            .insert("header_unit"@, "-x c++-header"@),
        pch: b.pch
            .insert("compile"@, "-x c++-header"@)
            .insert("use"@, "-include-pch {pch_path}"@)
            .insert("extension"@, ".pch"@)
            .insert("clangd_flag"@, "-include {header_path}"@),
        linking: b.linking
            .push(("cpp"@, LinkingView {
                abi: "c++"@,
                compatible: Seq::<Seq<char>>::empty().push("c"@).push("fortran"@),
                linker: ""@,
                extensions: Seq::<Seq<char>>::empty().push(".cpp"@).push(".cppm"@).push(".ixx"@).push(".mpp"@).push(".cc"@).push(".cxx"@).push(".c++"@),
                compile_binary: None,
            }))
            .push(("objcpp"@, LinkingView {
                abi: "c++"@,
                compatible: Seq::<Seq<char>>::empty().push("c"@).push("objc"@),
                linker: ""@,
                extensions: Seq::<Seq<char>>::empty().push(".mm"@),
                compile_binary: None,
            })),
        compiler_option_handlers: b.compiler_option_handlers
            .insert("lto_mode"@, HandlerView { default_value: None, callback: HandlerFn::LtoMode }),
        ..b
    }
}

pub open spec fn clang_def() -> DefView {
    let b = llvm_base_def("clang"@, "clang"@);
    DefView {
        extensions: Seq::<Seq<char>>::empty().push(".c"@).push(".s"@).push(".S"@),
        defaults: b.defaults
            .insert("std"@, "c11"@),
        standards: b.standards
            .insert("c11"@, "-std=c11"@)
            .insert("c17"@, "-std=c17"@)
            .insert("c23"@, "-std=c23"@),
        sanitizer_options: Seq::<Seq<char>>::empty().push("address"@).push("undefined"@).push("thread"@).push("memory"@).push("leak"@).push("hwaddress"@).push("dataflow"@).push("cfi"@).push("safestack"@),
        toolset: b.toolset
            .insert("cc"@, "clang"@)
            .insert("cxx"@, "clang++"@)
            .insert("ld"@, "clang++"@),
        linking: b.linking
            .push(("c"@, LinkingView {
                abi: "c"@,
                compatible: Seq::<Seq<char>>::empty().push("fortran"@).push("asm"@),
                linker: ""@,
                extensions: Seq::<Seq<char>>::empty().push(".c"@).push(".s"@).push(".S"@),
                compile_binary: Some("clang"@),
            }))
            .push(("objc"@, LinkingView {
                abi: "objc"@,
                compatible: Seq::<Seq<char>>::empty().push("c"@),
                linker: ""@,
                extensions: Seq::<Seq<char>>::empty().push(".m"@),
                compile_binary: Some("clang"@),
            })),
        ..b
    }
}

pub open spec fn flang_def() -> DefView {
    let b = llvm_base_def("flang"@, "flang"@);
    DefView {
        version_regex: r"flang(?:-new)? version (\d+\.\d+\.\d+)"@,
        extensions: Seq::<Seq<char>>::empty().push(".f90"@).push(".f95"@).push(".f03"@).push(".f08"@).push(".f"@).push(".F90"@),
        defaults: b.defaults
            .insert("std"@, "f2018"@),
        standards: b.standards
            .insert("f95"@, "-std=f95"@)
            .insert("f2003"@, "-std=f2003"@)
            .insert("f2008"@, "-std=f2008"@)
            .insert("f2018"@, "-std=f2018"@),
        flags_stdlib: Map::empty(),
        sanitizer_options: Seq::<Seq<char>>::empty().push("address"@).push("undefined"@),
        flags_opt: b.flags_opt
            .insert("s"@, "-O2"@)
            .insert("z"@, "-O2"@),
        flags_warnings: b.flags_warnings
            .insert("all"@, "-Wall -Wextra"@)
            .insert("error"@, "-Wall -Wextra -Werror"@),
        toolset: b.toolset
            .insert("ld"@, "flang"@),
        linking: b.linking
            .push(("fortran"@, LinkingView {
                abi: "fortran"@,
                compatible: Seq::<Seq<char>>::empty().push("c"@),
                linker: ""@,
                extensions: Seq::<Seq<char>>::empty().push(".f90"@).push(".f95"@).push(".f03"@).push(".f08"@).push(".f"@).push(".F90"@),
                compile_binary: None,
            })),
        ..b
    }
}

pub open spec fn ldc2_def() -> DefView {
    let b = llvm_base_def("ldc2"@, "ldc2"@);
    DefView {
        extensions: Seq::<Seq<char>>::empty().push(".d"@),
        sanitizer_options: Seq::<Seq<char>>::empty().push("address"@).push("thread"@).push("memory"@).push("undefined"@),
        flags_warnings: b.flags_warnings
            .insert("none"@, ""@)
            .insert("default"@, ""@)
            .insert("all"@, "-wi"@)
            .insert("error"@, "-w"@),
        flags_lto: "-flto=full"@,
        structure: b.structure
            .insert("include_dir"@, "-I{path}"@)
            .insert("define"@, "-d-version={name}"@)
            .insert("define_value"@, "-d-version={name}"@)
            .insert("output"@, "-of={path}"@)
            .insert("compile_only"@, "-c"@)
            .insert("dep_file"@, ""@)
            .insert("dep_file_mode"@, "none"@)
            .insert("system_lib"@, "-L-l{name}"@)
            .insert("target"@, "-mtriple={triple}"@)
            .insert("sysroot"@, ""@),
        toolset: b.toolset
            .insert("ld"@, "ldc2"@),
        linking: b.linking
            .push(("d"@, LinkingView {
                abi: "d"@,
                compatible: Seq::<Seq<char>>::empty().push("c"@),
                linker: ""@,
                extensions: Seq::<Seq<char>>::empty().push(".d"@),
                compile_binary: None,
            })),
        compiler_option_handlers: b.compiler_option_handlers
            .insert("dip1000"@, HandlerView { default_value: Some("false"@), callback: HandlerFn::Dip1000 }),
        ..b
    }
}

/// The definitions of this family's templates, in order.
pub open spec fn templates_defs() -> Seq<DefView> {
    Seq::<DefView>::empty().push(clangpp_def()).push(clang_def()).push(flang_def()).push(ldc2_def())
}

fn llvm_base(name: &str, binary: &str) -> (r: ToolchainDef)
    ensures
        r@ == llvm_base_def(name@, binary@),
{
    let mut d = ToolchainDef::empty();
    d.name = owned(name);
    d.binary = owned(binary);
    d.family = owned("llvm");
    d.version_arg = owned("--version");
    d.version_regex = owned(r"\b(\d+\.\d+\.\d+)\b");
    d.flags_debug = owned("-g");
    d.flags_lto = owned("-flto");
    d.sanitize = owned("-fsanitize={values}");
    d.cpu_ext = owned("-m{name}");
    d.flags_opt.put("0", "-O0");
    d.flags_opt.put("1", "-O1");
    d.flags_opt.put("2", "-O2");
    d.flags_opt.put("3", "-O3");
    d.flags_opt.put("s", "-Os");
    d.flags_opt.put("z", "-Oz");
    d.flags_warnings.put("none", "");
    d.flags_warnings.put("default", "-Wall");
    d.flags_warnings.put("all", "-Wall -Wextra -Wpedantic");
    d.flags_warnings.put("error", "-Wall -Wextra -Wpedantic -Werror");
    d.flags_stdlib.put("libc++", "-stdlib=libc++");
    d.flags_stdlib.put("libstdc++", "-stdlib=libstdc++");
    d.flags_stdlib.put("none", "-nostdlib");
    d.structure.put("include_dir", "-I{path}");
    d.structure.put("define", "-D{name}");
    d.structure.put("define_value", "-D{name}={value}");
    d.structure.put("output", "-o {path}");
    d.structure.put("compile_only", "-c");
    d.structure.put("dep_file", "-MMD -MF {path}");
    d.structure.put("target", "--target={triple}");
    d.structure.put("sysroot", "--sysroot={path}");
    d.toolset.put("ar", "ar");
    d.toolset.put("strip", "strip");
    d
}

pub fn clangpp() -> (r: CompilerTemplate)
    ensures
        r.def@ == clangpp_def(),
{
    let mut d = llvm_base("clang++", "clang++");
    d.alias = Some(owned("clang"));
    d.extensions = empty_strs();
    push_str(&mut d.extensions, ".cpp");
    push_str(&mut d.extensions, ".cppm");
    push_str(&mut d.extensions, ".ixx");
    push_str(&mut d.extensions, ".mpp");
    push_str(&mut d.extensions, ".cc");
    push_str(&mut d.extensions, ".cxx");
    push_str(&mut d.extensions, ".c++");
    d.defaults.put("std", "c++17");
    d.standards.put("c++17", "-std=c++17");
    d.standards.put("c++20", "-std=c++20");
    d.standards.put("c++23", "-std=c++23");
    d.sanitizer_options = empty_strs();
    push_str(&mut d.sanitizer_options, "address");
    push_str(&mut d.sanitizer_options, "undefined");
    push_str(&mut d.sanitizer_options, "thread");
    push_str(&mut d.sanitizer_options, "memory");
    push_str(&mut d.sanitizer_options, "leak");
    push_str(&mut d.sanitizer_options, "hwaddress");
    push_str(&mut d.sanitizer_options, "dataflow");
    push_str(&mut d.sanitizer_options, "cfi");
    push_str(&mut d.sanitizer_options, "safestack");
    d.toolset.put("cc", "clang");
    d.toolset.put("cxx", "clang++");
    d.toolset.put("ld", "clang++");
    d.module_style = owned("clang");
    d.module_params.put("precompile", "--precompile");
    d.module_params.put("import_module", "-fmodule-file={name}={pcm_path}");
    d.module_params.put("header_unit", "-x c++-header");
    d.pch.put("compile", "-x c++-header");
    d.pch.put("use", "-include-pch {pch_path}");
    d.pch.put("extension", ".pch");
    d.pch.put("clangd_flag", "-include {header_path}");
    {
        let mut compatible = empty_strs();
        push_str(&mut compatible, "c");
        push_str(&mut compatible, "fortran");
        let mut extensions = empty_strs();
        push_str(&mut extensions, ".cpp");
        push_str(&mut extensions, ".cppm");
        push_str(&mut extensions, ".ixx");
        push_str(&mut extensions, ".mpp");
        push_str(&mut extensions, ".cc");
        push_str(&mut extensions, ".cxx");
        push_str(&mut extensions, ".c++");
        push_link(&mut d.linking, "cpp", LinkingParams {
            abi: owned("c++"),
            compatible,
            linker: owned(""),
            extensions,
            compile_binary: None,
        });
    }
    {
        let mut compatible = empty_strs();
        push_str(&mut compatible, "c");
        push_str(&mut compatible, "objc");
        let mut extensions = empty_strs();
        push_str(&mut extensions, ".mm");
        push_link(&mut d.linking, "objcpp", LinkingParams {
            abi: owned("c++"),
            compatible,
            linker: owned(""),
            extensions,
            compile_binary: None,
        });
    }
    d.compiler_option_handlers.insert(owned("lto_mode"), OptionHandler { default_value: None, callback: HandlerFn::LtoMode });
    proof {
        reveal_strlit("clang++");
    }
    CompilerTemplate::from_def(d).unwrap()
}

pub fn clang() -> (r: CompilerTemplate)
    ensures
        r.def@ == clang_def(),
{
    let mut d = llvm_base("clang", "clang");
    d.extensions = empty_strs();
    push_str(&mut d.extensions, ".c");
    push_str(&mut d.extensions, ".s");
    push_str(&mut d.extensions, ".S");
    d.defaults.put("std", "c11");
    d.standards.put("c11", "-std=c11");
    d.standards.put("c17", "-std=c17");
    d.standards.put("c23", "-std=c23");
    d.sanitizer_options = empty_strs();
    push_str(&mut d.sanitizer_options, "address");
    push_str(&mut d.sanitizer_options, "undefined");
    push_str(&mut d.sanitizer_options, "thread");
    push_str(&mut d.sanitizer_options, "memory");
    push_str(&mut d.sanitizer_options, "leak");
    push_str(&mut d.sanitizer_options, "hwaddress");
    push_str(&mut d.sanitizer_options, "dataflow");
    push_str(&mut d.sanitizer_options, "cfi");
    push_str(&mut d.sanitizer_options, "safestack");
    d.toolset.put("cc", "clang");
    d.toolset.put("cxx", "clang++");
    d.toolset.put("ld", "clang++");
    {
        let mut compatible = empty_strs();
        push_str(&mut compatible, "fortran");
        push_str(&mut compatible, "asm");
        let mut extensions = empty_strs();
        push_str(&mut extensions, ".c");
        push_str(&mut extensions, ".s");
        push_str(&mut extensions, ".S");
        push_link(&mut d.linking, "c", LinkingParams {
            abi: owned("c"),
            compatible,
            linker: owned(""),
            extensions,
            compile_binary: Some(owned("clang")),
        });
    }
    {
        let mut compatible = empty_strs();
        push_str(&mut compatible, "c");
        let mut extensions = empty_strs();
        push_str(&mut extensions, ".m");
        push_link(&mut d.linking, "objc", LinkingParams {
            abi: owned("objc"),
            compatible,
            linker: owned(""),
            extensions,
            compile_binary: Some(owned("clang")),
        });
    }
    proof {
        reveal_strlit("clang");
    }
    CompilerTemplate::from_def(d).unwrap()
}

pub fn flang() -> (r: CompilerTemplate)
    ensures
        r.def@ == flang_def(),
{
    let mut d = llvm_base("flang", "flang");
    d.version_regex = owned(r"flang(?:-new)? version (\d+\.\d+\.\d+)");
    d.extensions = empty_strs();
    push_str(&mut d.extensions, ".f90");
    push_str(&mut d.extensions, ".f95");
    push_str(&mut d.extensions, ".f03");
    push_str(&mut d.extensions, ".f08");
    push_str(&mut d.extensions, ".f");
    push_str(&mut d.extensions, ".F90");
    d.defaults.put("std", "f2018");
    d.standards.put("f95", "-std=f95");
    d.standards.put("f2003", "-std=f2003");
    d.standards.put("f2008", "-std=f2008");
    d.standards.put("f2018", "-std=f2018");
    d.flags_stdlib.clear();
    d.sanitizer_options = empty_strs();
    push_str(&mut d.sanitizer_options, "address");
    push_str(&mut d.sanitizer_options, "undefined");
    d.flags_opt.put("s", "-O2");
    d.flags_opt.put("z", "-O2");
    d.flags_warnings.put("all", "-Wall -Wextra");
    d.flags_warnings.put("error", "-Wall -Wextra -Werror");
    d.toolset.put("ld", "flang");
    {
        let mut compatible = empty_strs();
        push_str(&mut compatible, "c");
        let mut extensions = empty_strs();
        push_str(&mut extensions, ".f90");
        push_str(&mut extensions, ".f95");
        push_str(&mut extensions, ".f03");
        push_str(&mut extensions, ".f08");
        push_str(&mut extensions, ".f");
        push_str(&mut extensions, ".F90");
        push_link(&mut d.linking, "fortran", LinkingParams {
            abi: owned("fortran"),
            compatible,
            linker: owned(""),
            extensions,
            compile_binary: None,
        });
    }
    proof {
        reveal_strlit("flang");
    }
    CompilerTemplate::from_def(d).unwrap()
}

pub fn ldc2() -> (r: CompilerTemplate)
    ensures
        r.def@ == ldc2_def(),
{
    let mut d = llvm_base("ldc2", "ldc2");
    d.extensions = empty_strs();
    push_str(&mut d.extensions, ".d");
    d.sanitizer_options = empty_strs();
    push_str(&mut d.sanitizer_options, "address");
    push_str(&mut d.sanitizer_options, "thread");
    push_str(&mut d.sanitizer_options, "memory");
    push_str(&mut d.sanitizer_options, "undefined");
    d.flags_warnings.put("none", "");
    d.flags_warnings.put("default", "");
    d.flags_warnings.put("all", "-wi");
    d.flags_warnings.put("error", "-w");
    d.flags_lto = owned("-flto=full");
    d.structure.put("include_dir", "-I{path}");
    d.structure.put("define", "-d-version={name}");
    d.structure.put("define_value", "-d-version={name}");
    d.structure.put("output", "-of={path}");
    d.structure.put("compile_only", "-c");
    d.structure.put("dep_file", "");
    d.structure.put("dep_file_mode", "none");
    d.structure.put("system_lib", "-L-l{name}");
    d.structure.put("target", "-mtriple={triple}");
    d.structure.put("sysroot", "");
    d.toolset.put("ld", "ldc2");
    {
        let mut compatible = empty_strs();
        push_str(&mut compatible, "c");
        let mut extensions = empty_strs();
        push_str(&mut extensions, ".d");
        push_link(&mut d.linking, "d", LinkingParams {
            abi: owned("d"),
            compatible,
            linker: owned(""),
            extensions,
            compile_binary: None,
        });
    }
    d.compiler_option_handlers.insert(owned("dip1000"), OptionHandler { default_value: Some(owned("false")), callback: HandlerFn::Dip1000 });
    proof {
        reveal_strlit("ldc2");
    }
    CompilerTemplate::from_def(d).unwrap()
}

/// The templates of this family, in order.
pub fn templates() -> (r: Vec<CompilerTemplate>)
    ensures
        defs(r@) == templates_defs(),
{
    let mut v = no_templates();
    push_template(&mut v, clangpp());
    push_template(&mut v, clang());
    push_template(&mut v, flang());
    push_template(&mut v, ldc2());
    v
}

} // verus!
