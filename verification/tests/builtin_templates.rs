use freight::builtin::{all_compiler_templates, assembler, gnu, llvm, misc};
use freight::template::{CompilerTemplate, HandlerFn, ToolchainDef};

#[test]
fn all_templates_have_names() {
    let all = all_compiler_templates();
    assert_eq!(all.len(), 30);
    assert!(all.iter().all(|t| !t.def.name.is_empty()));
    assert_eq!(all[0].def.name, "g++");
    assert_eq!(all[1].def.name, "gcc");
}

#[test]
fn gnu_flags() {
    let gcc = gnu::gcc();
    assert_eq!(gcc.def.binary, "gcc");
    assert_eq!(gcc.def.family, "gnu");
    assert_eq!(gcc.def.flags_opt.get("2").map(String::as_str), Some("-O2"));
    assert_eq!(gcc.def.flags_warnings.get("all").map(String::as_str), Some("-Wall -Wextra -Wpedantic"));
    let gpp = gnu::gpp();
    assert_eq!(gpp.def.alias.as_deref(), Some("gcc"));
    assert_eq!(gpp.def.defaults.get("std").map(String::as_str), Some("c++17"));
    assert_eq!(gpp.def.linking[0].0, "cpp");
}

#[test]
fn clang_lto_mode_handler() {
    let t = llvm::clangpp();
    let h = t.def.compiler_option_handlers.get("lto_mode").unwrap();
    assert!(h.callback == HandlerFn::LtoMode);
    assert_eq!(h.callback.call("thin", "3.9.1", "x86_64", "linux", "clang++"), Ok(vec!["-flto=thin".to_string()]));
    assert_eq!(h.callback.call("thin", "3.8", "x86_64", "linux", "clang++"), Ok(Vec::new()));
    assert_eq!(h.callback.call("thin", "17", "x86_64", "linux", "clang++"), Ok(vec!["-flto=thin".to_string()]));
    assert_eq!(h.callback.call("full", "", "x86_64", "linux", "clang++"), Ok(vec!["-flto=full".to_string()]));
    assert_eq!(h.callback.call("other", "18.0", "x86_64", "linux", "clang++"), Ok(Vec::new()));
}

#[test]
fn assembler_arch_check() {
    let nasm = assembler::nasm();
    let h = nasm.def.language_option_handlers.get("arch").unwrap();
    assert_eq!(h.callback.call("x86_64", "", "x86_64", "linux", "nasm"), Ok(Vec::new()));
    assert_eq!(h.callback.call("", "", "aarch64", "linux", "nasm"), Ok(Vec::new()));
    assert_eq!(
        h.callback.call("x86", "", "x86_64", "linux", "nasm"),
        Err("assembler 'nasm' requires arch 'x86' but the effective target is 'x86_64'".to_string())
    );
}

#[test]
fn dmd_dip1000_handler() {
    let dmd = misc::dmd();
    let h = dmd.def.compiler_option_handlers.get("dip1000").unwrap();
    assert_eq!(h.callback.call("true", "", "", "", "dmd"), Ok(vec!["-preview=dip1000".to_string()]));
    assert_eq!(h.callback.call("false", "", "", "", "dmd"), Ok(Vec::new()));
}

#[test]
fn template_requires_a_name() {
    let d = ToolchainDef::empty();
    assert_eq!(CompilerTemplate::from_def(d).err().unwrap(), "toolchain definition must set a name");
    let mut d = ToolchainDef::empty();
    d.name = "x".to_string();
    assert!(CompilerTemplate::from_def(d).is_ok());
}
