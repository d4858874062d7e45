//! GNU compiler collection templates.

use vstd::prelude::*;
use crate::builtin::{empty_strs, no_templates};
use crate::template::{CompilerTemplate, DefView, LinkingParams, LinkingView, ToolchainDef, defs, empty_def, push_link, push_str, push_template};
use crate::text::owned;

verus! {

pub open spec fn gnu_base_def(name: Seq<char>, binary: Seq<char>) -> DefView {
    DefView {
        name: name,
        binary: binary,
        family: "gnu"@,
        version_arg: "--version"@,
        version_regex: r"\b(\d+\.\d+\.\d+)\b"@,
        flags_debug: "-g"@,
        flags_lto: "-flto"@,
        sanitize: "-fsanitize={values}"@,
        cpu_ext: "-m{name}"@,
        sanitizer_options: Seq::<Seq<char>>::empty().push("address"@).push("undefined"@).push("thread"@).push("leak"@),
        flags_opt: map![
            "0"@ => "-O0"@,
            "1"@ => "-O1"@,
            "2"@ => "-O2"@,
            "3"@ => "-O3"@,
            "s"@ => "-Os"@,
            "z"@ => "-Oz"@,
        ],
        flags_warnings: map![
            "none"@ => ""@,
            "default"@ => "-Wall"@,
            "all"@ => "-Wall -Wextra -Wpedantic"@,
            "error"@ => "-Wall -Wextra -Wpedantic -Werror"@,
        ],
        flags_stdlib: map![
            "libstdc++"@ => ""@,
            "none"@ => "-nostdlib"@,
        ],
        structure: map![
            "include_dir"@ => "-I{path}"@,
            "define"@ => "-D{name}"@,
            "define_value"@ => "-D{name}={value}"@,
            "output"@ => "-o {path}"@,
            "compile_only"@ => "-c"@,
            "dep_file"@ => "-MMD -MF {path}"@,
            "sysroot"@ => "--sysroot={path}"@,
        ],
        toolset: map![
            "ar"@ => "ar"@,
            "strip"@ => "strip"@,
        ],
        ..empty_def()
    }
}

pub open spec fn gpp_def() -> DefView {
    let b = gnu_base_def("g++"@, "g++"@);
    DefView {
        alias: Some("gcc"@),
        extensions: Seq::<Seq<char>>::empty().push(".cpp"@).push(".cppm"@).push(".ixx"@).push(".mpp"@).push(".cc"@).push(".cxx"@).push(".c++"@),
        defaults: b.defaults
            .insert("std"@, "c++17"@),
        standards: b.standards
            .insert("c++17"@, "-std=c++17"@)
            .insert("c++20"@, "-std=c++20"@)
            .insert("c++23"@, "-std=c++23"@),
        toolset: b.toolset
            .insert("cc"@, "gcc"@)
            .insert("cxx"@, "g++"@)
            .insert("ld"@, "g++"@),
        module_style: "gcc"@,
        module_params: b.module_params
            .insert("enable_flag"@, "-fmodules-ts"@)
            .insert("compile_miu"@, "-fmodule-output={pcm_path}"@)
            .insert("import_module"@, "-fmodule-file={name}={pcm_path}"@)
            .insert("header_unit"@, "-fmodule-header"@),
        pch: b.pch
            .insert("compile"@, "-x c++-header"@)
            .insert("use"@, "-include {header_path}"@)
            .insert("extension"@, ".gch"@)
            .insert("clangd_flag"@, "-include {header_path}"@),
        linking: b.linking
            .push(("cpp"@, LinkingView {
                abi: "c++"@,
                compatible: Seq::<Seq<char>>::empty().push("c"@).push("fortran"@),
                linker: ""@,
                extensions: Seq::<Seq<char>>::empty().push(".cpp"@).push(".cppm"@).push(".ixx"@).push(".mpp"@).push(".cc"@).push(".cxx"@).push(".c++"@),
                compile_binary: None,
            })),
        ..b
    }
}

pub open spec fn gcc_def() -> DefView {
    let b = gnu_base_def("gcc"@, "gcc"@);
    DefView {
        extensions: Seq::<Seq<char>>::empty().push(".c"@).push(".s"@).push(".S"@),
        defaults: b.defaults
            .insert("std"@, "c11"@),
        standards: b.standards
            .insert("c11"@, "-std=c11"@)
            .insert("c17"@, "-std=c17"@)
            .insert("c23"@, "-std=c23"@),
        toolset: b.toolset
            .insert("cc"@, "gcc"@)
            .insert("cxx"@, "g++"@)
            .insert("ld"@, "g++"@),
        linking: b.linking
            .push(("c"@, LinkingView {
                abi: "c"@,
                compatible: Seq::<Seq<char>>::empty().push("fortran"@).push("asm"@),
                linker: ""@,
                extensions: Seq::<Seq<char>>::empty().push(".c"@).push(".s"@).push(".S"@),
                compile_binary: Some("gcc"@),
            })),
        ..b
    }
}

pub open spec fn gfortran_def() -> DefView {
    let b = gnu_base_def("gfortran"@, "gfortran"@);
    DefView {
        extensions: Seq::<Seq<char>>::empty().push(".f90"@).push(".f95"@).push(".f03"@).push(".f08"@).push(".f"@).push(".F90"@),
        defaults: b.defaults
            .insert("std"@, "f2018"@),
        standards: b.standards
            .insert("f95"@, "-std=f95"@)
            .insert("f2003"@, "-std=f2003"@)
            .insert("f2008"@, "-std=f2008"@)
            .insert("f2018"@, "-std=f2018"@),
        flags_stdlib: Map::empty(),
        sanitizer_options: Seq::<Seq<char>>::empty().push("address"@).push("undefined"@),
        cpu_ext: ""@,
        structure: b.structure
            .insert("dep_file"@, "-cpp -MMD -MF {path}"@),
        toolset: b.toolset
            .insert("ld"@, "gfortran"@),
        linking: b.linking
            .push(("fortran"@, LinkingView {
                abi: "fortran"@,
                compatible: Seq::<Seq<char>>::empty().push("c"@),
                linker: ""@,
                extensions: Seq::<Seq<char>>::empty().push(".f90"@).push(".f95"@).push(".f03"@).push(".f08"@).push(".f"@).push(".F90"@),
                compile_binary: None,
            })),
        ..b
    }
}

pub open spec fn gdc_def() -> DefView {
    let b = gnu_base_def("gdc"@, "gdc"@);
    DefView {
        extensions: Seq::<Seq<char>>::empty().push(".d"@),
        flags_warnings: b.flags_warnings
            .insert("none"@, ""@)
            .insert("default"@, ""@)
            .insert("all"@, "-Wall"@)
            .insert("error"@, "-Wall -Werror"@),
        structure: b.structure
            .insert("include_dir"@, "-I{path}"@)
            .insert("define"@, "-fversion={name}"@)
            .insert("define_value"@, "-fversion={name}"@),
        toolset: b.toolset
            .insert("ld"@, "gdc"@),
        linking: b.linking
            .push(("d"@, LinkingView {
                abi: "d"@,
                compatible: Seq::<Seq<char>>::empty().push("c"@),
                linker: ""@,
                extensions: Seq::<Seq<char>>::empty().push(".d"@),
                compile_binary: None,
            })),
        ..b
    }
}

pub open spec fn gas_def() -> DefView {
    DefView {
        name: "gas"@,
        binary: "as"@,
        family: ""@,
        version_arg: "--version"@,
        version_regex: r"GNU assembler (?:\([^)]+\) )?(\d+\.\d+(?:\.\d+)?)"@,
        extensions: Seq::<Seq<char>>::empty().push(".s"@).push(".S"@),
        requires_toolchain: Seq::<Seq<char>>::empty().push("c"@),
        flags_debug: "--gdwarf-2"@,
        flags_lto: ""@,
        flags_opt: map![
            "0"@ => ""@,
            "1"@ => ""@,
            "2"@ => ""@,
            "3"@ => ""@,
            "s"@ => ""@,
            "z"@ => ""@,
        ],
        flags_warnings: map![
            "none"@ => "--no-warn"@,
            "default"@ => ""@,
            "all"@ => "--warn"@,
            "error"@ => "--warn --fatal-warnings"@,
        ],
        structure: map![
            "include_dir"@ => "-I{path}"@,
            "define"@ => "--defsym {name}=1"@,
            "define_value"@ => "--defsym {name}={value}"@,
            "output"@ => "-o {path}"@,
            "compile_only"@ => ""@,
        ],
        arch_flags: map![
            "x86"@ => "--32"@,
        ],
        linking: Seq::empty()
            .push(("gas"@, LinkingView {
                abi: "c"@,
                compatible: Seq::<Seq<char>>::empty().push("c"@).push("cpp"@),
                linker: ""@,
                extensions: Seq::<Seq<char>>::empty().push(".s"@).push(".S"@),
                compile_binary: None,
            })),
        ..empty_def()
    }
}

/// The definitions of this family's templates, in order.
pub open spec fn templates_defs() -> Seq<DefView> {
    Seq::<DefView>::empty().push(gpp_def()).push(gcc_def()).push(gfortran_def()).push(gdc_def()).push(gas_def())
}

fn gnu_base(name: &str, binary: &str) -> (r: ToolchainDef)
    ensures
        r@ == gnu_base_def(name@, binary@),
{
    let mut d = ToolchainDef::empty();
    d.name = owned(name);
    d.binary = owned(binary);
    d.family = owned("gnu");
    d.version_arg = owned("--version");
    d.version_regex = owned(r"\b(\d+\.\d+\.\d+)\b");
    d.flags_debug = owned("-g");
    d.flags_lto = owned("-flto");
    d.sanitize = owned("-fsanitize={values}");
    d.cpu_ext = owned("-m{name}");
    d.sanitizer_options = empty_strs();
    push_str(&mut d.sanitizer_options, "address");
    push_str(&mut d.sanitizer_options, "undefined");
    push_str(&mut d.sanitizer_options, "thread");
    push_str(&mut d.sanitizer_options, "leak");
    d.flags_opt.put("0", "-O0");
    d.flags_opt.put("1", "-O1");
    d.flags_opt.put("2", "-O2");
    d.flags_opt.put("3", "-O3");
    d.flags_opt.put("s", "-Os");
    d.flags_opt.put("z", "-Oz");
    d.flags_warnings.put("none", "");
    d.flags_warnings.put("default", "-Wall");
    d.flags_warnings.put("all", "-Wall -Wextra -Wpedantic");
    d.flags_warnings.put("error", "-Wall -Wextra -Wpedantic -Werror");
    d.flags_stdlib.put("libstdc++", "");
    d.flags_stdlib.put("none", "-nostdlib");
    d.structure.put("include_dir", "-I{path}");
    d.structure.put("define", "-D{name}");
    d.structure.put("define_value", "-D{name}={value}");
    d.structure.put("output", "-o {path}");
    d.structure.put("compile_only", "-c");
    d.structure.put("dep_file", "-MMD -MF {path}");
    d.structure.put("sysroot", "--sysroot={path}");
    d.toolset.put("ar", "ar");
    d.toolset.put("strip", "strip");
    d
}

pub fn gpp() -> (r: CompilerTemplate)
    ensures
        r.def@ == gpp_def(),
{
    let mut d = gnu_base("g++", "g++");
    d.alias = Some(owned("gcc"));
    d.extensions = empty_strs();
    push_str(&mut d.extensions, ".cpp");
    push_str(&mut d.extensions, ".cppm");
    push_str(&mut d.extensions, ".ixx");
    push_str(&mut d.extensions, ".mpp");
    push_str(&mut d.extensions, ".cc");
    push_str(&mut d.extensions, ".cxx");
    push_str(&mut d.extensions, ".c++");
    d.defaults.put("std", "c++17");
    d.standards.put("c++17", "-std=c++17");
    d.standards.put("c++20", "-std=c++20");
    d.standards.put("c++23", "-std=c++23");
    d.toolset.put("cc", "gcc");
    d.toolset.put("cxx", "g++");
    d.toolset.put("ld", "g++");
    d.module_style = owned("gcc");
    d.module_params.put("enable_flag", "-fmodules-ts");
    d.module_params.put("compile_miu", "-fmodule-output={pcm_path}");
    d.module_params.put("import_module", "-fmodule-file={name}={pcm_path}");
    d.module_params.put("header_unit", "-fmodule-header");
    d.pch.put("compile", "-x c++-header");
    d.pch.put("use", "-include {header_path}");
    d.pch.put("extension", ".gch");
    d.pch.put("clangd_flag", "-include {header_path}");
    {
        let mut compatible = empty_strs();
        push_str(&mut compatible, "c");
        push_str(&mut compatible, "fortran");
        let mut extensions = empty_strs();
        push_str(&mut extensions, ".cpp");
        push_str(&mut extensions, ".cppm");
        push_str(&mut extensions, ".ixx");
        push_str(&mut extensions, ".mpp");
        push_str(&mut extensions, ".cc");
        push_str(&mut extensions, ".cxx");
        push_str(&mut extensions, ".c++");
        push_link(&mut d.linking, "cpp", LinkingParams {
            abi: owned("c++"),
            compatible,
            linker: owned(""),
            extensions,
            compile_binary: None,
        });
    }
    proof {
        reveal_strlit("g++");
    }
    CompilerTemplate::from_def(d).unwrap()
}

pub fn gcc() -> (r: CompilerTemplate)
    ensures
        r.def@ == gcc_def(),
{
    let mut d = gnu_base("gcc", "gcc");
    d.extensions = empty_strs();
    push_str(&mut d.extensions, ".c");
    push_str(&mut d.extensions, ".s");
    push_str(&mut d.extensions, ".S");
    d.defaults.put("std", "c11");
    d.standards.put("c11", "-std=c11");
    d.standards.put("c17", "-std=c17");
    d.standards.put("c23", "-std=c23");
    d.toolset.put("cc", "gcc");
    d.toolset.put("cxx", "g++");
    d.toolset.put("ld", "g++");
    {
        let mut compatible = empty_strs();
        push_str(&mut compatible, "fortran");
        push_str(&mut compatible, "asm");
        let mut extensions = empty_strs();
        push_str(&mut extensions, ".c");
        push_str(&mut extensions, ".s");
        push_str(&mut extensions, ".S");
        push_link(&mut d.linking, "c", LinkingParams {
            abi: owned("c"),
            compatible,
            linker: owned(""),
            extensions,
            compile_binary: Some(owned("gcc")),
        });
    }
    proof {
        reveal_strlit("gcc");
    }
    CompilerTemplate::from_def(d).unwrap()
}

pub fn gfortran() -> (r: CompilerTemplate)
    ensures
        r.def@ == gfortran_def(),
{
    let mut d = gnu_base("gfortran", "gfortran");
    d.extensions = empty_strs();
    push_str(&mut d.extensions, ".f90");
    push_str(&mut d.extensions, ".f95");
    push_str(&mut d.extensions, ".f03");
    push_str(&mut d.extensions, ".f08");
    push_str(&mut d.extensions, ".f");
    push_str(&mut d.extensions, ".F90");
    d.defaults.put("std", "f2018");
    d.standards.put("f95", "-std=f95");
    d.standards.put("f2003", "-std=f2003");
    d.standards.put("f2008", "-std=f2008");
    d.standards.put("f2018", "-std=f2018");
    d.flags_stdlib.clear();
    d.sanitizer_options = empty_strs();
    push_str(&mut d.sanitizer_options, "address");
    push_str(&mut d.sanitizer_options, "undefined");
    d.cpu_ext = owned("");
    d.structure.put("dep_file", "-cpp -MMD -MF {path}");
    d.toolset.put("ld", "gfortran");
    {
        let mut compatible = empty_strs();
        push_str(&mut compatible, "c");
        let mut extensions = empty_strs();
        push_str(&mut extensions, ".f90");
        push_str(&mut extensions, ".f95");
        push_str(&mut extensions, ".f03");
        push_str(&mut extensions, ".f08");
        push_str(&mut extensions, ".f");
        push_str(&mut extensions, ".F90");
        push_link(&mut d.linking, "fortran", LinkingParams {
            abi: owned("fortran"),
            compatible,
            linker: owned(""),
            extensions,
            compile_binary: None,
        });
    }
    proof {
        reveal_strlit("gfortran");
    }
    CompilerTemplate::from_def(d).unwrap()
}

pub fn gdc() -> (r: CompilerTemplate)
    ensures
        r.def@ == gdc_def(),
{
    let mut d = gnu_base("gdc", "gdc");
    d.extensions = empty_strs();
    push_str(&mut d.extensions, ".d");
    d.flags_warnings.put("none", "");
    d.flags_warnings.put("default", "");
    d.flags_warnings.put("all", "-Wall");
    d.flags_warnings.put("error", "-Wall -Werror");
    d.structure.put("include_dir", "-I{path}");
    d.structure.put("define", "-fversion={name}");
    d.structure.put("define_value", "-fversion={name}");
    d.toolset.put("ld", "gdc");
    {
        let mut compatible = empty_strs();
        push_str(&mut compatible, "c");
        let mut extensions = empty_strs();
        push_str(&mut extensions, ".d");
        push_link(&mut d.linking, "d", LinkingParams {
            abi: owned("d"),
            compatible,
            linker: owned(""),
            extensions,
            compile_binary: None,
        });
    }
    proof {
        reveal_strlit("gdc");
    }
    CompilerTemplate::from_def(d).unwrap()
}

pub fn gas() -> (r: CompilerTemplate)
    ensures
        r.def@ == gas_def(),
{
    let mut d = ToolchainDef::empty();
    d.name = owned("gas");
    d.binary = owned("as");
    d.family = owned("");
    d.version_arg = owned("--version");
    d.version_regex = owned(r"GNU assembler (?:\([^)]+\) )?(\d+\.\d+(?:\.\d+)?)");
    d.extensions = empty_strs();
    push_str(&mut d.extensions, ".s");
    push_str(&mut d.extensions, ".S");
    d.requires_toolchain = empty_strs();
    push_str(&mut d.requires_toolchain, "c");
    d.flags_debug = owned("--gdwarf-2");
    d.flags_lto = owned("");
    d.flags_opt.put("0", "");
    d.flags_opt.put("1", "");
    d.flags_opt.put("2", "");
    d.flags_opt.put("3", "");
    d.flags_opt.put("s", "");
    d.flags_opt.put("z", "");
    d.flags_warnings.put("none", "--no-warn");
    d.flags_warnings.put("default", "");
    d.flags_warnings.put("all", "--warn");
    d.flags_warnings.put("error", "--warn --fatal-warnings");
    d.structure.put("include_dir", "-I{path}");
    d.structure.put("define", "--defsym {name}=1");
    d.structure.put("define_value", "--defsym {name}={value}");
    d.structure.put("output", "-o {path}");
    d.structure.put("compile_only", "");
    d.arch_flags.put("x86", "--32");
    {
        let mut compatible = empty_strs();
        push_str(&mut compatible, "c");
        push_str(&mut compatible, "cpp");
        let mut extensions = empty_strs();
        push_str(&mut extensions, ".s");
        push_str(&mut extensions, ".S");
        push_link(&mut d.linking, "gas", LinkingParams {
            abi: owned("c"),
            compatible,
            linker: owned(""),
            extensions,
            compile_binary: None,
        });
    }
    proof {
        reveal_strlit("gas");
    }
    CompilerTemplate::from_def(d).unwrap()
}

/// The templates of this family, in order.
pub fn templates() -> (r: Vec<CompilerTemplate>)
    ensures
        defs(r@) == templates_defs(),
{
    let mut v = no_templates();
    push_template(&mut v, gpp());
    push_template(&mut v, gcc());
    push_template(&mut v, gfortran());
    push_template(&mut v, gdc());
    push_template(&mut v, gas());
    v
}

} // verus!
