//! Stand-alone assembler templates (NASM, YASM).

use vstd::prelude::*;
use crate::builtin::{empty_strs, no_templates};
use crate::template::{CompilerTemplate, DefView, HandlerFn, HandlerView, LinkingParams, LinkingView, OptionHandler, ToolchainDef, defs, empty_def, push_link, push_str, push_template};
use crate::text::owned;

verus! {

pub open spec fn asm_base_def(name: Seq<char>, binary: Seq<char>, version_regex: Seq<char>) -> DefView {
    DefView {
        name: name,
        binary: binary,
        family: ""@,
        version_arg: "--version"@,
        version_regex: version_regex,
        extensions: Seq::<Seq<char>>::empty().push(".asm"@).push(".nasm"@),
        supported_archs: Seq::<Seq<char>>::empty().push("x86"@).push("x86_64"@),
        requires_toolchain: Seq::<Seq<char>>::empty().push("c"@),
        flags_debug: ""@,
        flags_lto: ""@,
        flags_opt: map![
            "0"@ => ""@,
            "1"@ => ""@,
            "2"@ => ""@,
            "3"@ => ""@,
            "s"@ => ""@,
            "z"@ => ""@,
        ],
        flags_warnings: map![
            "none"@ => ""@,
            "default"@ => ""@,
            "all"@ => "-w+all"@,
        ],
        structure: map![
            "include_dir"@ => "-I{path}"@,
            "define"@ => "-D{name}"@,
            "define_value"@ => "-D{name}={value}"@,
            "output"@ => "-o {path}"@,
            "compile_only"@ => ""@,
        ],
        arch_flags: map![
            "x86_64.linux"@ => "-f elf64"@,
            "x86_64.macos"@ => "-f macho64"@,
            "x86_64.windows"@ => "-f win64"@,
            "x86.linux"@ => "-f elf32"@,
            "x86.macos"@ => "-f macho32"@,
            "x86.windows"@ => "-f win32"@,
        ],
        linking: Seq::empty()
            .push(("asm"@, LinkingView {
                abi: "c"@,
                compatible: Seq::<Seq<char>>::empty().push("c"@).push("cpp"@),
                linker: ""@,
                extensions: Seq::<Seq<char>>::empty().push(".asm"@).push(".nasm"@),
                compile_binary: None,
            })),
        ..empty_def()
    }
}

pub open spec fn nasm_def() -> DefView {
    let b = asm_base_def("nasm"@, "nasm"@, r"NASM version (\d+\.\d+(?:\.\d+)?)"@);
    DefView {
        flags_debug: "-g -F dwarf"@,
        flags_warnings: b.flags_warnings
            .insert("error"@, "-w+all -w+error"@),
        toolset: b.toolset
            .insert("as"@, "nasm"@),
        language_option_handlers: b.language_option_handlers
            .insert("arch"@, HandlerView { default_value: None, callback: HandlerFn::ArchCheck }),
        ..b
    }
}

pub open spec fn yasm_def() -> DefView {
    let b = asm_base_def("yasm"@, "yasm"@, r"yasm (\d+\.\d+\.\d+)"@);
    DefView {
        flags_debug: "-g dwarf2"@,
        flags_warnings: b.flags_warnings
            .insert("error"@, "-w+all -Werror"@),
        toolset: b.toolset
            .insert("as"@, "yasm"@),
        language_option_handlers: b.language_option_handlers
            .insert("arch"@, HandlerView { default_value: None, callback: HandlerFn::ArchCheck }),
        ..b
    }
}

/// The definitions of this family's templates, in order.
pub open spec fn templates_defs() -> Seq<DefView> {
    Seq::<DefView>::empty().push(nasm_def()).push(yasm_def())
}

fn asm_base(name: &str, binary: &str, version_regex: &str) -> (r: ToolchainDef)
    ensures
        r@ == asm_base_def(name@, binary@, version_regex@),
{
    let mut d = ToolchainDef::empty();
    d.name = owned(name);
    d.binary = owned(binary);
    d.family = owned("");
    d.version_arg = owned("--version");
    d.version_regex = owned(version_regex);
    d.extensions = empty_strs();
    push_str(&mut d.extensions, ".asm");
    push_str(&mut d.extensions, ".nasm");
    d.supported_archs = empty_strs();
    push_str(&mut d.supported_archs, "x86");
    push_str(&mut d.supported_archs, "x86_64");
    d.requires_toolchain = empty_strs();
    push_str(&mut d.requires_toolchain, "c");
    d.flags_debug = owned("");
    d.flags_lto = owned("");
    d.flags_opt.put("0", "");
    d.flags_opt.put("1", "");
    d.flags_opt.put("2", "");
    d.flags_opt.put("3", "");
    d.flags_opt.put("s", "");
    d.flags_opt.put("z", "");
    d.flags_warnings.put("none", "");
    d.flags_warnings.put("default", "");
    d.flags_warnings.put("all", "-w+all");
    d.structure.put("include_dir", "-I{path}");
    d.structure.put("define", "-D{name}");
    d.structure.put("define_value", "-D{name}={value}");
    d.structure.put("output", "-o {path}");
    d.structure.put("compile_only", "");
    d.arch_flags.put("x86_64.linux", "-f elf64");
    d.arch_flags.put("x86_64.macos", "-f macho64");
    d.arch_flags.put("x86_64.windows", "-f win64");
    d.arch_flags.put("x86.linux", "-f elf32");
    d.arch_flags.put("x86.macos", "-f macho32");
    d.arch_flags.put("x86.windows", "-f win32");
    {
        let mut compatible = empty_strs();
        push_str(&mut compatible, "c");
        push_str(&mut compatible, "cpp");
        let mut extensions = empty_strs();
        push_str(&mut extensions, ".asm");
        push_str(&mut extensions, ".nasm");
        push_link(&mut d.linking, "asm", LinkingParams {
            abi: owned("c"),
            compatible,
            linker: owned(""),
            extensions,
            compile_binary: None,
        });
    }
    d
}

pub fn nasm() -> (r: CompilerTemplate)
    ensures
        r.def@ == nasm_def(),
{
    let mut d = asm_base("nasm", "nasm", r"NASM version (\d+\.\d+(?:\.\d+)?)");
    d.flags_debug = owned("-g -F dwarf");
    d.flags_warnings.put("error", "-w+all -w+error");
    d.toolset.put("as", "nasm");
    d.language_option_handlers.insert(owned("arch"), OptionHandler { default_value: None, callback: HandlerFn::ArchCheck });
    proof {
        reveal_strlit("nasm");
    }
    CompilerTemplate::from_def(d).unwrap()
}

pub fn yasm() -> (r: CompilerTemplate)
    ensures
        r.def@ == yasm_def(),
{
    let mut d = asm_base("yasm", "yasm", r"yasm (\d+\.\d+\.\d+)");
    d.flags_debug = owned("-g dwarf2");
    d.flags_warnings.put("error", "-w+all -Werror");
    d.toolset.put("as", "yasm");
    d.language_option_handlers.insert(owned("arch"), OptionHandler { default_value: None, callback: HandlerFn::ArchCheck });
    proof {
        reveal_strlit("yasm");
    }
    CompilerTemplate::from_def(d).unwrap()
}

/// The templates of this family, in order.
pub fn templates() -> (r: Vec<CompilerTemplate>)
    ensures
        defs(r@) == templates_defs(),
{
    let mut v = no_templates();
    push_template(&mut v, nasm());
    push_template(&mut v, yasm());
    v
}

} // verus!
