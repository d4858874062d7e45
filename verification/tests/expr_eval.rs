use freight::expr::{eval_expr, try_eval_expr, EvalCtx};
use freight::quick_kind::quick_kind_toml;

#[test]
fn eval_expr_no_expansion() {
    let ctx = EvalCtx::default();
    assert_eq!(eval_expr("-Wall", &ctx), "-Wall");
    assert_eq!(eval_expr("", &ctx), "");
}

#[test]
fn eval_expr_arch_variable() {
    let ctx = EvalCtx { arch: "x86_64", os: "linux", ..Default::default() };
    let result = eval_expr("$(arch == 'x86_64' ? '-m64' : arch == 'x86' ? '-m32' : '')", &ctx);
    assert_eq!(result, "-m64");
}

#[test]
fn eval_expr_arch_x86() {
    let ctx = EvalCtx { arch: "x86", os: "linux", ..Default::default() };
    let result = eval_expr("$(arch == 'x86_64' ? '-m64' : arch == 'x86' ? '-m32' : '')", &ctx);
    assert_eq!(result, "-m32");
}

#[test]
fn eval_expr_arch_other() {
    let ctx = EvalCtx { arch: "aarch64", os: "linux", ..Default::default() };
    let result = eval_expr("$(arch == 'x86_64' ? '-m64' : arch == 'x86' ? '-m32' : '')", &ctx);
    assert_eq!(result, "");
}

#[test]
fn eval_expr_binary_replace() {
    let ctx = EvalCtx { binary: "clang++", ..Default::default() };
    let result = eval_expr("$(binary.replace('clang++', 'clang'))", &ctx);
    assert_eq!(result, "clang");
}

#[test]
fn eval_expr_version_comparison() {
    let ctx = EvalCtx { version: "4.0.0", ..Default::default() };
    let result = eval_expr("$(version >= '3.9' ? '-flto=thin' : '-flto')", &ctx);
    assert_eq!(result, "-flto=thin");
}

#[test]
fn eval_expr_version_comparison_old() {
    let ctx = EvalCtx { version: "3.8", ..Default::default() };
    let result = eval_expr("$(version >= '3.9' ? '-flto=thin' : '-flto')", &ctx);
    assert_eq!(result, "-flto");
}

#[test]
fn quick_kind_toml_compiler() {
    assert_eq!(quick_kind_toml("name = \"gcc\""), "compiler");
    assert_eq!(quick_kind_toml("kind = \"compiler\"\nname = \"gcc\""), "compiler");
}

#[test]
fn quick_kind_toml_debugger() {
    assert_eq!(quick_kind_toml("kind = \"debugger\"\nbinary = \"gdb\""), "debugger");
}

#[test]
fn quick_kind_toml_formatter() {
    assert_eq!(quick_kind_toml("kind = \"formatter\""), "formatter");
}

#[test]
fn eval_expr_value_interpolation() {
    let ctx = EvalCtx { value: "sm_80", ..Default::default() };
    let result = eval_expr("--gpu-architecture=$(value)", &ctx);
    assert_eq!(result, "--gpu-architecture=sm_80");
}

#[test]
fn eval_expr_string_concat() {
    let ctx = EvalCtx { binary: "clang++", ..Default::default() };
    let result = eval_expr("$('a' + 'b' + 'c')", &ctx);
    assert_eq!(result, "abc");
}

#[test]
fn eval_expr_concat_with_variable() {
    let ctx = EvalCtx { arch: "x86_64", ..Default::default() };
    let result = eval_expr("$('-m' + arch)", &ctx);
    assert_eq!(result, "-mx86_64");
}

#[test]
fn eval_expr_negation() {
    let ctx = EvalCtx { arch: "x86_64", ..Default::default() };
    assert_eq!(eval_expr("$(!(arch == 'x86_64'))", &ctx), "false");
    let ctx2 = EvalCtx { arch: "aarch64", ..Default::default() };
    assert_eq!(eval_expr("$(!(arch == 'x86_64'))", &ctx2), "true");
}

#[test]
fn eval_expr_logical_and() {
    let ctx = EvalCtx { arch: "x86_64", os: "linux", ..Default::default() };
    let r = eval_expr("$(arch == 'x86_64' && os == 'linux' ? '-m64' : '')", &ctx);
    assert_eq!(r, "-m64");
    let ctx2 = EvalCtx { arch: "x86_64", os: "windows", ..Default::default() };
    let r2 = eval_expr("$(arch == 'x86_64' && os == 'linux' ? '-m64' : '')", &ctx2);
    assert_eq!(r2, "");
}

#[test]
fn eval_expr_logical_or() {
    let ctx = EvalCtx { arch: "x86", ..Default::default() };
    let r = eval_expr("$(arch == 'x86_64' || arch == 'x86' ? 'yes' : 'no')", &ctx);
    assert_eq!(r, "yes");
    let ctx2 = EvalCtx { arch: "aarch64", ..Default::default() };
    let r2 = eval_expr("$(arch == 'x86_64' || arch == 'x86' ? 'yes' : 'no')", &ctx2);
    assert_eq!(r2, "no");
}

#[test]
fn eval_expr_not_equal() {
    let ctx = EvalCtx { arch: "aarch64", ..Default::default() };
    let r = eval_expr("$(arch != 'x86_64' ? '-marm' : '')", &ctx);
    assert_eq!(r, "-marm");
}

#[test]
fn eval_expr_multiple_expansions() {
    let ctx = EvalCtx { arch: "x86_64", os: "linux", ..Default::default() };
    let r = eval_expr("$(arch)-$(os)", &ctx);
    assert_eq!(r, "x86_64-linux");
}

#[test]
fn eval_expr_version_less_than() {
    let ctx = EvalCtx { version: "3.5.0", ..Default::default() };
    assert_eq!(eval_expr("$(version < '3.9' ? 'old' : 'new')", &ctx), "old");
    let ctx2 = EvalCtx { version: "10.0.0", ..Default::default() };
    assert_eq!(eval_expr("$(version < '3.9' ? 'old' : 'new')", &ctx2), "new");
}

#[test]
fn eval_expr_paren_grouping() {
    let ctx = EvalCtx { arch: "x86_64", os: "linux", ..Default::default() };
    let r = eval_expr("$((arch == 'x86_64' || arch == 'x86') && os == 'linux' ? 'yes' : 'no')", &ctx);
    assert_eq!(r, "yes");
}

// ── further cases ────────────────────────────────────────────────────────────

#[test]
fn eval_expr_env_variable() {
    let env = vec![("CC_FLAGS".to_string(), "-O2".to_string())];
    let ctx = EvalCtx { env: &env, ..Default::default() };
    assert_eq!(eval_expr("[$(env.CC_FLAGS)][$(env.MISSING)]", &ctx), "[-O2][]");
}

#[test]
fn eval_expr_unclosed_group_kept() {
    let ctx = EvalCtx { arch: "x86_64", ..Default::default() };
    assert_eq!(eval_expr("a$(arch)b$(arch", &ctx), "ax86_64b$(arch");
}

#[test]
fn eval_expr_or_returns_left_value() {
    let ctx = EvalCtx { os: "linux", ..Default::default() };
    assert_eq!(eval_expr("$(os || 'none')", &ctx), "linux");
    assert_eq!(eval_expr("$('' || 'none')", &ctx), "none");
}

#[test]
fn eval_expr_zero_is_false_in_ternary() {
    let ctx = EvalCtx::default();
    assert_eq!(eval_expr("$('0' ? 'y' : 'n')", &ctx), "n");
    assert_eq!(eval_expr("$('1' ? 'y' : 'n')", &ctx), "y");
}

#[test]
fn eval_expr_lexical_comparison_when_not_versions() {
    let ctx = EvalCtx { version: "beta", ..Default::default() };
    assert_eq!(eval_expr("$(version < 'gamma')", &ctx), "true");
    let ctx2 = EvalCtx { version: "10.0", ..Default::default() };
    // both sides are versions: 10.0 > 9.1 numerically, though "10.0" < "9.1" lexically
    assert_eq!(eval_expr("$(version > '9.1')", &ctx2), "true");
}

#[test]
fn eval_expr_replace_with_empty_pattern() {
    let ctx = EvalCtx { binary: "ab", ..Default::default() };
    assert_eq!(eval_expr("$(binary.replace('', '-'))", &ctx), "-a-b-");
}

#[test]
fn try_eval_expr_rejects_lone_quote_argument() {
    let ctx = EvalCtx { binary: "ab", ..Default::default() };
    assert_eq!(try_eval_expr("$(binary.replace(x, '))", &ctx), None);
    assert_eq!(try_eval_expr("$(binary.replace(', x))", &ctx), Some("ab".to_string()));
    assert_eq!(try_eval_expr("$(binary)", &ctx), Some("ab".to_string()));
}

#[test]
fn quick_kind_skips_comments_and_crlf() {
    assert_eq!(quick_kind_toml("# kind = \"nope\"\r\nkind = 'linter'\r\n"), "linter");
    assert_eq!(quick_kind_toml("kind = \"\"\nkind = \"debugger\""), "debugger");
    assert_eq!(quick_kind_toml(""), "compiler");
}

#[test]
fn eval_expr_splits_over_concatenation() {
    let ctx = EvalCtx { arch: "x86_64", os: "linux", binary: "gcc", ..Default::default() };
    let a = "-m$(arch == 'x86_64' ? '64' : '32') ";
    let b = "--sysroot=/$(os)/$(binary.replace('g', 'x'))";
    let joined = format!("{a}{b}");
    assert_eq!(eval_expr(&joined, &ctx), format!("{}{}", eval_expr(a, &ctx), eval_expr(b, &ctx)));
    assert_eq!(eval_expr(&joined, &ctx), "-m64 --sysroot=/linux/xcc");
}
