use freight::handler_script::{handler_from_script, handler_script_exec, make_map_handler, option_handlers_given};
use freight::error::FreightError;
use freight::expr::EvalCtx;
use freight::toml_def::{
    base_list, build_def, debugger_template, evaluate_toolchain, resolve_bases, tool_template,
};
use freight::toml_doc::{
    merge, TomlBase, TomlDap, TomlLinking, TomlStructure, TomlToolchain, TomlVersion,
};
use indexmap::IndexMap;

fn map(pairs: &[(&str, &str)]) -> IndexMap<String, String> {
    pairs.iter().map(|(k, v)| (k.to_string(), v.to_string())).collect()
}

fn strs(v: &[&str]) -> Vec<String> {
    v.iter().map(|s| s.to_string()).collect()
}

fn named(name: &str) -> TomlToolchain {
    let mut t = TomlToolchain::empty();
    t.name = Some(name.to_string());
    t.binary = Some(name.to_string());
    t
}

#[test]
fn merge_maps_overlay_wins() {
    let mut base = TomlToolchain::empty();
    base.optimization = Some(map(&[("2", "-O2"), ("0", "-O0")]));
    base.warnings = Some(map(&[("normal", "-Wall")]));
    let mut overlay = TomlToolchain::empty();
    overlay.optimization = Some(map(&[("2", "-O3"), ("s", "-Os")]));
    let merged = merge(base, overlay);
    let opt = merged.optimization.unwrap();
    assert_eq!(opt.get("2").map(String::as_str), Some("-O3"));
    assert_eq!(opt.get("0").map(String::as_str), Some("-O0"));
    assert_eq!(opt.get("s").map(String::as_str), Some("-Os"));
    assert!(merged.warnings.is_some());
}

#[test]
fn merge_keeps_base_order_and_overlay_scalars() {
    let mut base = named("base");
    base.optimization = Some(map(&[("2", "-O2"), ("0", "-O0")]));
    base.family = Some("gnu".to_string());
    let mut overlay = TomlToolchain::empty();
    overlay.name = Some("top".to_string());
    overlay.optimization = Some(map(&[("s", "-Os"), ("2", "-O3")]));
    let merged = merge(base, overlay);
    assert_eq!(merged.name.as_deref(), Some("top"));
    assert_eq!(merged.family.as_deref(), Some("gnu"));
    let keys: Vec<&str> = merged.optimization.as_ref().unwrap().keys().map(String::as_str).collect();
    assert_eq!(keys, vec!["2", "0", "s"]);
}

#[test]
fn merge_onto_empty_gives_overlay_back() {
    let mut overlay = named("cc");
    overlay.family = Some("gnu".to_string());
    overlay.optimization = Some(map(&[("2", "-O2"), ("0", "-O0")]));
    let mut lang = IndexMap::new();
    lang.insert("std".to_string(), map(&[("c17", "-std=c17"), ("c11", "-std=c11")]));
    overlay.language = Some(lang);
    let merged = merge(TomlToolchain::empty(), overlay);
    assert_eq!(merged.name.as_deref(), Some("cc"));
    assert_eq!(merged.family.as_deref(), Some("gnu"));
    assert_eq!(merged.binary.as_deref(), Some("cc"));
    assert!(merged.warnings.is_none() && merged.base.is_none());
    let opt: Vec<(&str, &str)> =
        merged.optimization.as_ref().unwrap().iter().map(|(k, v)| (k.as_str(), v.as_str())).collect();
    assert_eq!(opt, vec![("2", "-O2"), ("0", "-O0")]);
    let std: Vec<&str> = merged.language.as_ref().unwrap()["std"].keys().map(String::as_str).collect();
    assert_eq!(std, vec!["c17", "c11"]);
}

#[test]
fn parse_simple_toml_toolchain() {
    let mut t = named("testcc");
    t.kind = Some("compiler".to_string());
    t.extensions = Some(strs(&[".c"]));
    t.lto = Some("-flto".to_string());
    t.debug = Some("-g".to_string());
    t.version = Some(TomlVersion { argument: Some("--version".to_string()), regex: Some("(\\d+\\.\\d+)".to_string()) });
    t.structure = Some(TomlStructure {
        include_dir: Some("-I{path}".to_string()),
        define: Some("-D{name}".to_string()),
        define_value: Some("-D{name}={value}".to_string()),
        output: Some("-o {path}".to_string()),
        output_obj: None,
        output_bin: None,
        compile_only: Some("-c".to_string()),
        dep_file: Some("-MMD -MF {path}".to_string()),
        dep_file_mode: None,
        system_lib: None,
        target: Some(String::new()),
        sysroot: Some(String::new()),
    });
    t.optimization = Some(map(&[("2", "-O2"), ("0", "-O0")]));
    t.warnings = Some(map(&[("normal", "-Wall"), ("none", "")]));
    let result = evaluate_toolchain(t, "x86_64", "linux", &[]).unwrap();
    assert_eq!(result.def.name, "testcc");
    assert_eq!(result.def.flags_lto, "-flto");
    assert_eq!(result.def.flags_debug, "-g");
    assert!(result.def.flags_opt.contains_key("2"));
    assert_eq!(result.def.version_arg, "--version");
    assert_eq!(result.def.kind, "compiler");
    assert_eq!(result.def.structure.get("output_obj").map(String::as_str), Some(""));
}

#[test]
fn toml_toolchain_name_required() {
    let mut t = TomlToolchain::empty();
    t.binary = Some("testcc".to_string());
    t.extensions = Some(strs(&[".c"]));
    t.version = Some(TomlVersion { argument: Some("--version".to_string()), regex: Some("(\\d+)".to_string()) });
    let err = evaluate_toolchain(t, "x86_64", "linux", &[]).err().unwrap();
    assert!(matches!(err, FreightError::TemplateError(m) if m == "TOML toolchain must set `name = \"...\"`"));
}

#[test]
fn load_toml_always_flags_filters_empty() {
    let mut t = named("testcc");
    t.extensions = Some(strs(&[".c"]));
    t.always_flags = Some(strs(&["$(arch == 'x86_64' ? '-m64' : arch == 'x86' ? '-m32' : '')"]));
    let result = evaluate_toolchain(t, "aarch64", "linux", &[]).unwrap();
    for f in &result.def.always_flags {
        assert!(!f.is_empty());
    }
    assert!(result.def.always_flags.is_empty());
    let mut t = named("testcc");
    t.always_flags = Some(strs(&["$(arch == 'x86_64' ? '-m64' : '')", "-pipe"]));
    let result = evaluate_toolchain(t, "x86_64", "linux", &[]).unwrap();
    assert_eq!(result.def.always_flags, strs(&["-m64", "-pipe"]));
}

#[test]
fn load_toml_compiler_option_map() {
    let mut t = named("testcc");
    t.extensions = Some(strs(&[".c"]));
    let mut comp = IndexMap::new();
    comp.insert("lto_mode".to_string(), map(&[("thin", "-flto=thin"), ("full", "-flto=full")]));
    t.compiler = Some(comp);
    let result = evaluate_toolchain(t, "x86_64", "linux", &[]).unwrap();
    assert!(result.compiler_option_handlers.iter().any(|(k, _)| k == "lto_mode"));
    let (_, h) = &result.compiler_option_handlers[0];
    assert_eq!(h.default_value.as_deref(), Some("thin"));
    assert_eq!(
        h.script,
        "fn handler(ctx) {\n    let v = ctx.value;\n    let flag = \"\";\n    if v == \"thin\" { flag = \"-flto=thin\"; }\n    if v == \"full\" { flag = \"-flto=full\"; }\n    if flag != \"\" { add_flag(flag); }\n}\n"
    );
}

#[test]
fn stdlib_and_std_tables_are_not_handlers() {
    let mut t = named("testcc");
    let mut comp = IndexMap::new();
    comp.insert("stdlib".to_string(), map(&[("libc++", "-stdlib=libc++")]));
    t.compiler = Some(comp);
    let mut lang = IndexMap::new();
    lang.insert("std".to_string(), map(&[("c++17", "-std=c++17")]));
    lang.insert("exceptions".to_string(), map(&[("off", "-fno-exceptions")]));
    t.language = Some(lang);
    let result = evaluate_toolchain(t, "x86_64", "linux", &[]).unwrap();
    assert!(result.compiler_option_handlers.is_empty());
    assert_eq!(result.language_option_handlers.len(), 1);
    assert_eq!(result.language_option_handlers[0].0, "exceptions");
    assert_eq!(result.def.flags_stdlib.get("libc++").map(String::as_str), Some("-stdlib=libc++"));
}

#[test]
fn value_and_deferred_handler_scripts() {
    let ctx = EvalCtx { arch: "x86_64", os: "linux", binary: "nvcc", ..Default::default() };
    let value = vec![("value".to_string(), "--gpu-architecture=$(value)".to_string())];
    assert_eq!(
        handler_script_exec(&value, &ctx).unwrap(),
        "\n            fn handler(ctx) {\n                let flag = \"--gpu-architecture=\" + ctx.value;\n                if flag != \"\" { add_flag(flag); }\n            }\n        "
    );
    let deferred = vec![("thin".to_string(), "$(version >= '3.9' ? '-flto=thin' : '-flto')".to_string())];
    let script = handler_script_exec(&deferred, &ctx).unwrap();
    assert!(script.contains("if v == \"thin\" { flag = (if version_gte(ctx.version, \"3.9\") { \"-flto=thin\" } else { \"-flto\" }); }\n"));
    let evaluated = vec![("a\"b".to_string(), "$(binary)".to_string())];
    let script = handler_script_exec(&evaluated, &ctx).unwrap();
    assert!(script.contains("    if v == \"a\\\"b\" { flag = \"nvcc\"; }\n"));
    assert!(make_map_handler(&value, &ctx).is_some());
    let lone = vec![("value".to_string(), "$(')".to_string())];
    assert!(handler_script_exec(&lone, &ctx).is_none());
}

#[test]
fn load_toml_language_std_sets_default() {
    let mut t = named("testcc");
    t.extensions = Some(strs(&[".cpp"]));
    let mut lang = IndexMap::new();
    lang.insert("std".to_string(), map(&[("c++17", "-std=c++17"), ("c++20", "-std=c++20"), ("c++23", "-std=c++23")]));
    t.language = Some(lang);
    let result = evaluate_toolchain(t, "x86_64", "linux", &[]).unwrap();
    assert_eq!(result.def.standards.get("c++17").map(String::as_str), Some("-std=c++17"));
    assert_eq!(result.def.defaults.get("std").map(String::as_str), Some("c++17"));
}

#[test]
fn load_toml_optimization_first_is_default() {
    let mut t = named("testcc");
    t.extensions = Some(strs(&[".c"]));
    t.optimization = Some(map(&[("2", "-O2"), ("0", "-O0"), ("3", "-O3")]));
    let result = evaluate_toolchain(t, "x86_64", "linux", &[]).unwrap();
    assert_eq!(result.def.defaults.get("opt_level").map(String::as_str), Some("2"));
}

#[test]
fn load_toml_stdlib_explicit_empty() {
    let mut t = named("testcc");
    t.extensions = Some(strs(&[".f90"]));
    let result = evaluate_toolchain(t, "x86_64", "linux", &[]).unwrap();
    assert!(result.def.flags_stdlib.is_empty());
}

#[test]
fn load_toml_structure_fields() {
    let mut t = named("msvctest");
    t.binary = Some("cl.exe".to_string());
    t.extensions = Some(strs(&[".cpp"]));
    t.structure = Some(TomlStructure {
        include_dir: Some("/I{path}".to_string()),
        define: Some("/D{name}".to_string()),
        define_value: Some("/D{name}={value}".to_string()),
        output: None,
        output_obj: Some("/Fo{path}".to_string()),
        output_bin: Some("/Fe{path}".to_string()),
        compile_only: Some("/c".to_string()),
        dep_file: Some("/showIncludes".to_string()),
        dep_file_mode: Some("stdout".to_string()),
        system_lib: None,
        target: None,
        sysroot: None,
    });
    let result = evaluate_toolchain(t, "x86_64", "windows", &[]).unwrap();
    assert_eq!(result.def.structure.get("include_dir").map(String::as_str), Some("/I{path}"));
    assert_eq!(result.def.structure.get("dep_file_mode").map(String::as_str), Some("stdout"));
    assert_eq!(result.def.structure.get("output_obj").map(String::as_str), Some("/Fo{path}"));
    assert_eq!(result.def.binary, "cl.exe");
}

#[test]
fn load_toml_linking_fields() {
    let mut t = named("testcc");
    t.extensions = Some(strs(&[".cpp"]));
    let mut links = IndexMap::new();
    links.insert("cpp".to_string(), TomlLinking {
        abi: "c++".to_string(),
        compatible: strs(&["c", "fortran"]),
        linker: String::new(),
        extensions: strs(&[".cpp", ".cc"]),
        compile_binary: None,
    });
    t.linking = Some(links);
    let result = evaluate_toolchain(t, "x86_64", "linux", &[]).unwrap();
    let cpp_link = result.def.linking.iter().find(|(k, _)| k == "cpp");
    assert!(cpp_link.is_some());
    let (_, lp) = cpp_link.unwrap();
    assert_eq!(lp.abi, "c++");
    assert!(lp.compatible.contains(&"c".to_string()));
}

#[test]
fn extensions_derived_from_linking_sorted_without_duplicates() {
    let mut t = named("multi");
    let mut links = IndexMap::new();
    links.insert("cpp".to_string(), TomlLinking {
        abi: "c++".to_string(),
        compatible: Vec::new(),
        linker: String::new(),
        extensions: strs(&[".cpp", ".cc", ".c"]),
        compile_binary: Some("$(binary)++".to_string()),
    });
    links.insert("c".to_string(), TomlLinking {
        abi: "c".to_string(),
        compatible: Vec::new(),
        linker: String::new(),
        extensions: strs(&[".c", ".h"]),
        compile_binary: Some("$('')".to_string()),
    });
    t.linking = Some(links);
    let result = evaluate_toolchain(t, "x86_64", "linux", &[]).unwrap();
    assert_eq!(result.def.extensions, strs(&[".c", ".cc", ".cpp", ".h"]));
    assert_eq!(result.def.linking[0].1.compile_binary.as_deref(), Some("multi++"));
    assert_eq!(result.def.linking[1].1.compile_binary, None);
}

#[test]
fn module_and_pch_tables() {
    let mut t = named("cc");
    let mut lang = IndexMap::new();
    lang.insert("modules".to_string(), map(&[("style", "$(arch)"), ("flag", "-fmodules-$(arch)")]));
    lang.insert("pch".to_string(), map(&[("create", "-x $(os)")]));
    t.language = Some(lang);
    let result = evaluate_toolchain(t, "arm", "linux", &[]).unwrap();
    assert_eq!(result.def.module_style, "$(arch)");
    assert_eq!(result.def.module_params.get("flag").map(String::as_str), Some("-fmodules-arm"));
    assert!(!result.def.module_params.contains_key("style"));
    assert_eq!(result.def.pch.get("create").map(String::as_str), Some("-x linux"));
}

#[test]
fn environment_and_binary_in_context() {
    let mut t = TomlToolchain::empty();
    t.name = Some("gcc".to_string());
    t.cpu_ext = Some("$(env.CFLAGS_EXTRA)-$(binary)".to_string());
    let env = vec![("CFLAGS_EXTRA".to_string(), "-mavx".to_string())];
    let result = evaluate_toolchain(t, "x86_64", "linux", &env).unwrap();
    assert_eq!(result.def.cpu_ext, "-mavx-gcc");
    assert_eq!(result.def.binary, "gcc");
}

#[test]
fn build_def_returns_option_tables() {
    let mut t = named("cc");
    let mut comp = IndexMap::new();
    comp.insert("pic".to_string(), map(&[("on", "-fPIC")]));
    t.compiler = Some(comp);
    let ctx = EvalCtx::default();
    let dm = build_def(t, "cc", &ctx).ok().unwrap();
    assert_eq!(dm.compiler.len(), 1);
    assert_eq!(dm.compiler[0].0, "pic");
    assert_eq!(dm.compiler[0].1, vec![("on".to_string(), "-fPIC".to_string())]);
    assert!(dm.language.is_empty());
}

#[test]
fn bases_are_merged_in_order() {
    let mut current = TomlToolchain::empty();
    current.name = Some("child".to_string());
    current.base = Some(TomlBase::Multiple(strs(&["a", "b"])));
    assert_eq!(base_list(&current), strs(&["a", "b"]));
    let mut a = named("a");
    a.debug = Some("-g".to_string());
    a.lto = Some("-flto".to_string());
    let mut b = TomlToolchain::empty();
    b.debug = Some("-g3".to_string());
    let resolved = resolve_bases(current, vec![a, b]);
    assert_eq!(resolved.name.as_deref(), Some("child"));
    assert_eq!(resolved.binary.as_deref(), Some("a"));
    assert_eq!(resolved.debug.as_deref(), Some("-g3"));
    assert_eq!(resolved.lto.as_deref(), Some("-flto"));
    assert!(resolved.base.is_none());
    let mut single = TomlToolchain::empty();
    single.base = Some(TomlBase::Single("gcc".to_string()));
    assert_eq!(base_list(&single), strs(&["gcc"]));
    let plain = named("plain");
    let same = resolve_bases(plain, vec![named("ignored")]);
    assert_eq!(same.name.as_deref(), Some("plain"));
}

#[test]
fn load_debugger_toml_gdb() {
    let mut t = TomlToolchain::empty();
    t.kind = Some("debugger".to_string());
    t.name = Some("gdb".to_string());
    t.binary = Some("gdb".to_string());
    t.launch = Some(map(&[("separator", "--args")]));
    t.dap = Some(TomlDap { binaries: Vec::new(), vscode_type: "cppdbg".to_string(), mi_mode: "gdb".to_string() });
    t.settings = Some(map(&[("tui", "--tui"), ("quiet", "-q")]));
    let result = debugger_template(t, "x86_64", "linux", &[]).ok().unwrap();
    assert_eq!(result.name, "gdb");
    assert_eq!(result.launch.separator, "--args");
    assert_eq!(result.dap.vscode_type, "cppdbg");
    assert_eq!(result.settings.get("tui").map(String::as_str), Some("--tui"));
}

#[test]
fn debugger_template_requires_debugger_kind() {
    let t = named("gcc");
    let err = debugger_template(t, "x86_64", "linux", &[]).err().unwrap();
    assert!(matches!(err, FreightError::TemplateError(m) if m == "not a debugger template"));
}

#[test]
fn load_tool_toml_formatter() {
    let mut t = TomlToolchain::empty();
    t.kind = Some("formatter".to_string());
    t.name = Some("clang-format".to_string());
    t.family = Some("llvm".to_string());
    t.binary = Some("clang-format".to_string());
    t.extensions = Some(strs(&[".cpp", ".c", ".h"]));
    t.run = Some(map(&[("fix", "-i"), ("check", "--dry-run --Werror")]));
    t.settings = Some(map(&[("style", "--style={value}"), ("config", "--style=file:{value}")]));
    let mut values = IndexMap::new();
    values.insert("style".to_string(), strs(&["Google", "LLVM", "Mozilla"]));
    t.values = Some(values);
    let result = tool_template(t, "x86_64", "linux", &[]);
    assert_eq!(result.name, "clang-format");
    assert_eq!(result.kind, "formatter");
    assert_eq!(result.run.get("fix").map(String::as_str), Some("-i"));
    assert_eq!(result.run.get("check").map(String::as_str), Some("--dry-run --Werror"));
    assert!(result.values.iter().any(|(k, v)| k == "style" && v.contains(&"Google".to_string())));
}

#[test]
fn load_tool_toml_linter() {
    let mut t = TomlToolchain::empty();
    t.kind = Some("linter".to_string());
    t.name = Some("cppcheck".to_string());
    t.binary = Some("cppcheck".to_string());
    t.extensions = Some(strs(&[".cpp", ".c"]));
    t.run = Some(map(&[("check", "--error-exitcode=1"), ("fix", "--error-exitcode=1")]));
    t.settings = Some(map(&[("enable", "--enable={value}")]));
    let result = tool_template(t, "x86_64", "linux", &[]);
    assert_eq!(result.name, "cppcheck");
    assert_eq!(result.kind, "linter");
    assert_eq!(result.run.get("check").map(String::as_str), Some("--error-exitcode=1"));
    let unnamed = tool_template(TomlToolchain::empty(), "x86_64", "linux", &[]);
    assert_eq!(unnamed.kind, "formatter");
}

#[test]
fn handlers_follow_what_rhai_answered() {
    let table = vec![("thin".to_string(), "-flto=thin".to_string()), ("full".to_string(), "-flto".to_string())];
    let h = handler_from_script(&table, "fn handler(ctx) {}".to_string(), true).unwrap();
    assert_eq!(h.default_value.as_deref(), Some("thin"));
    assert_eq!(h.script, "fn handler(ctx) {}");
    assert!(handler_from_script(&table, "fn handler(".to_string(), false).is_none());
    let ctx = EvalCtx::default();
    let tables = vec![
        ("lto_mode".to_string(), table.clone()),
        ("stdlib".to_string(), vec![("libc++".to_string(), "-stdlib=libc++".to_string())]),
        ("pic".to_string(), vec![("on".to_string(), "-fPIC".to_string())]),
    ];
    let hs = option_handlers_given(&tables, false, &ctx, &vec![true, true, false]);
    assert_eq!(hs.len(), 1);
    assert_eq!(hs[0].0, "lto_mode");
    assert!(hs[0].1.script.contains("if v == \"full\" { flag = \"-flto\"; }"));
    let hs = option_handlers_given(&tables, false, &ctx, &vec![false, true, true]);
    assert_eq!(hs.len(), 1);
    assert_eq!(hs[0].0, "pic");
}
