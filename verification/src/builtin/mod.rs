//! The compiler templates that ship with freight.

pub mod amd;
pub mod assembler;
pub mod classic;
pub mod emscripten;
pub mod gnu;
pub mod intel;
pub mod llvm;
pub mod misc;
pub mod windows;
pub mod zig;

use vstd::prelude::*;
use crate::template::{append_templates, defs, str_views, CompilerTemplate, DefView};

verus! {

/// An empty list of strings.
pub fn empty_strs() -> (r: Vec<String>)
    ensures
        str_views(r@) == Seq::<Seq<char>>::empty(),
{
    let r: Vec<String> = Vec::new();
    assert(str_views(r@) =~= Seq::<Seq<char>>::empty());
    r
}

/// An empty list of templates.
pub fn no_templates() -> (r: Vec<CompilerTemplate>)
    ensures
        defs(r@) == Seq::<DefView>::empty(),
{
    let r: Vec<CompilerTemplate> = Vec::new();
    assert(defs(r@) =~= Seq::<DefView>::empty());
    r
}

/// The definitions of every built-in template, family by family.
pub open spec fn all_templates_defs() -> Seq<DefView> {
    gnu::templates_defs() + llvm::templates_defs() + intel::templates_defs()
        + amd::templates_defs() + assembler::templates_defs() + windows::templates_defs()
        + zig::templates_defs() + emscripten::templates_defs() + misc::templates_defs()
}

/// Every built-in compiler template: GNU, LLVM, Intel, AMD, assemblers,
/// Microsoft, Zig, WebAssembly, then the miscellaneous compilers.
pub fn all_compiler_templates() -> (r: Vec<CompilerTemplate>)
    ensures
        defs(r@) == all_templates_defs(),
{
    let mut v = no_templates();
    append_templates(&mut v, gnu::templates());
    append_templates(&mut v, llvm::templates());
    append_templates(&mut v, intel::templates());
    append_templates(&mut v, amd::templates());
    append_templates(&mut v, assembler::templates());
    append_templates(&mut v, windows::templates());
    append_templates(&mut v, zig::templates());
    append_templates(&mut v, emscripten::templates());
    append_templates(&mut v, misc::templates());
    assert(defs(v@) =~= all_templates_defs());
    v
}

} // verus!
