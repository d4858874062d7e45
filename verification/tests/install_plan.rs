use freight::install::{
    default_prefix, executable_name, file_name_of_exec, install_root, plan_install, InstallOp, InstallOptions,
    InstallRequest, InstalledItem, InstalledKind, LibSpec, LibType,
};

fn strs(v: &[&str]) -> Vec<String> {
    v.iter().map(|s| s.to_string()).collect()
}

fn copy(src: &str, dst: &str) -> InstallOp {
    InstallOp::Copy { src: src.to_string(), dst: dst.to_string() }
}

fn mode(path: &str, mode: u32) -> InstallOp {
    InstallOp::SetMode { path: path.to_string(), mode }
}

fn dir(path: &str) -> InstallOp {
    InstallOp::CreateDir(path.to_string())
}

fn item(dst: &str, kind: InstalledKind) -> InstalledItem {
    InstalledItem { dst: dst.to_string(), kind }
}

fn request(bins: &[&str], lib: Option<LibSpec>, os: &str, profile: &str, staged: bool) -> InstallRequest {
    InstallRequest {
        project_dir: "/p".to_string(),
        package_name: "foo".to_string(),
        package_version: "1.2.3".to_string(),
        bins: strs(bins),
        lib,
        profile: profile.to_string(),
        root: "/usr/local".to_string(),
        prefix: "/usr/local".to_string(),
        target_os: os.to_string(),
        staged,
    }
}

#[test]
fn installed_kind_labels() {
    assert_eq!(InstalledKind::Binary.label(), "binary");
    assert_eq!(InstalledKind::StaticLib.label(), "static-lib");
    assert_eq!(InstalledKind::SharedLib.label(), "shared-lib");
    assert_eq!(InstalledKind::Header.label(), "header");
    assert_eq!(InstalledKind::Symlink.label(), "symlink");
}

#[test]
fn install_roots() {
    assert_eq!(install_root("/usr/local", None), "/usr/local");
    assert_eq!(install_root("/usr/local", Some("/tmp/stage")), "/tmp/stage/usr/local");
    assert_eq!(install_root("/opt", Some("stage/")), "stage/opt");
    assert_eq!(install_root("rel", Some("/d")), "/d/rel");
}

#[test]
fn executable_names() {
    assert_eq!(executable_name("app", "windows"), "app.exe");
    assert_eq!(executable_name("app.exe", "windows"), "app.exe");
    assert_eq!(executable_name("app", "linux"), "app");
}

#[test]
fn default_options() {
    assert_eq!(default_prefix(false), "/usr/local");
    assert_eq!(default_prefix(true), "C:\\Program Files");
    let o = InstallOptions::defaults(false);
    assert_eq!(o.prefix, "/usr/local");
    assert!(o.destdir.is_none() && o.release && !o.no_build && o.target.is_none());
}

#[test]
fn linux_install_with_shared_lib_and_headers() {
    let lib = LibSpec { lib_type: LibType::Shared, prebuilt: false, hdrs: strs(&["include/foo.h", "missing.h"]) };
    let r = request(&["app"], Some(lib), "linux", "release", false);
    let exists = strs(&["/p/target/release/app", "/p/target/release/libfoo.so"]);
    let files = strs(&["/p/include/foo.h"]);
    let plan = plan_install(&r, &exists, &files);
    assert_eq!(
        plan.ops,
        vec![
            dir("/usr/local/bin"),
            copy("/p/target/release/app", "/usr/local/bin/app"),
            mode("/usr/local/bin/app", 0o755),
            dir("/usr/local/lib"),
            copy("/p/target/release/libfoo.so", "/usr/local/lib/libfoo.so.1.2.3"),
            mode("/usr/local/lib/libfoo.so.1.2.3", 0o755),
            InstallOp::Symlink {
                dir: "/usr/local/lib".to_string(),
                link_name: "libfoo.so.1".to_string(),
                target: "libfoo.so.1.2.3".to_string(),
            },
            InstallOp::Symlink {
                dir: "/usr/local/lib".to_string(),
                link_name: "libfoo.so".to_string(),
                target: "libfoo.so.1".to_string(),
            },
            dir("/usr/local/include/foo"),
            copy("/p/include/foo.h", "/usr/local/include/foo/foo.h"),
            InstallOp::Ldconfig("/usr/local/lib".to_string()),
        ]
    );
    assert_eq!(
        plan.items,
        vec![
            item("/usr/local/bin/app", InstalledKind::Binary),
            item("/usr/local/lib/libfoo.so.1.2.3", InstalledKind::SharedLib),
            item("/usr/local/lib/libfoo.so.1", InstalledKind::Symlink),
            item("/usr/local/lib/libfoo.so", InstalledKind::Symlink),
            item("/usr/local/include/foo/foo.h", InstalledKind::Header),
        ]
    );
}

#[test]
fn staged_install_skips_ldconfig() {
    let lib = LibSpec { lib_type: LibType::Shared, prebuilt: false, hdrs: Vec::new() };
    let r = request(&[], Some(lib), "linux", "release", true);
    let plan = plan_install(&r, &strs(&["/p/target/release/libfoo.so"]), &Vec::new());
    assert!(!plan.ops.iter().any(|o| matches!(o, InstallOp::Ldconfig(_))));
    assert_eq!(plan.items.len(), 3);
}

#[test]
fn missing_binary_stops_installation() {
    let r = request(&["a", "b", "c"], None, "linux", "dev", false);
    let plan = plan_install(&r, &strs(&["/p/target/dev/a", "/p/target/dev/c"]), &Vec::new());
    assert_eq!(
        plan.ops,
        vec![
            dir("/usr/local/bin"),
            copy("/p/target/dev/a", "/usr/local/bin/a"),
            mode("/usr/local/bin/a", 0o755),
            InstallOp::Fail("binary 'b' not found in target/dev/ \u{2014} run `freight build` first".to_string()),
        ]
    );
    assert_eq!(plan.items, vec![item("/usr/local/bin/a", InstalledKind::Binary)]);
}

#[test]
fn windows_dll_and_import_library() {
    let lib = LibSpec { lib_type: LibType::Shared, prebuilt: false, hdrs: Vec::new() };
    let r = request(&["app"], Some(lib), "windows", "release", false);
    let exists = strs(&["/p/target/release/app.exe", "/p/target/release/foo.dll", "/p/target/release/foo.lib"]);
    let plan = plan_install(&r, &exists, &Vec::new());
    assert_eq!(
        plan.ops,
        vec![
            dir("/usr/local/bin"),
            copy("/p/target/release/app.exe", "/usr/local/bin/app.exe"),
            mode("/usr/local/bin/app.exe", 0o755),
            dir("/usr/local/lib"),
            dir("/usr/local/bin"),
            copy("/p/target/release/foo.dll", "/usr/local/bin/foo.dll"),
            copy("/p/target/release/foo.lib", "/usr/local/lib/foo.lib"),
        ]
    );
    assert_eq!(
        plan.items,
        vec![
            item("/usr/local/bin/app.exe", InstalledKind::Binary),
            item("/usr/local/bin/foo.dll", InstalledKind::SharedLib),
            item("/usr/local/lib/foo.lib", InstalledKind::StaticLib),
        ]
    );
}

#[test]
fn macos_dylib_gets_install_name() {
    let lib = LibSpec { lib_type: LibType::Shared, prebuilt: false, hdrs: Vec::new() };
    let r = request(&[], Some(lib), "macos", "release", false);
    let plan = plan_install(&r, &strs(&["/p/target/release/libfoo.dylib"]), &Vec::new());
    assert_eq!(
        plan.ops,
        vec![
            dir("/usr/local/lib"),
            copy("/p/target/release/libfoo.dylib", "/usr/local/lib/libfoo.dylib"),
            mode("/usr/local/lib/libfoo.dylib", 0o755),
            InstallOp::SetInstallName {
                install_name: "/usr/local/lib/libfoo.dylib".to_string(),
                path: "/usr/local/lib/libfoo.dylib".to_string(),
            },
        ]
    );
}

#[test]
fn static_prebuilt_and_header_only_libraries() {
    let st = LibSpec { lib_type: LibType::Static, prebuilt: false, hdrs: Vec::new() };
    let plan = plan_install(&request(&[], Some(st), "linux", "release", false), &strs(&["/p/target/release/libfoo.a"]), &Vec::new());
    assert_eq!(
        plan.ops,
        vec![
            dir("/usr/local/lib"),
            copy("/p/target/release/libfoo.a", "/usr/local/lib/libfoo.a"),
            mode("/usr/local/lib/libfoo.a", 0o644),
        ]
    );
    let pre = LibSpec { lib_type: LibType::Static, prebuilt: true, hdrs: Vec::new() };
    let plan = plan_install(&request(&[], Some(pre), "linux", "release", false), &strs(&["/p/target/release/libfoo.a"]), &Vec::new());
    assert_eq!(plan.ops, vec![dir("/usr/local/lib")]);
    let hdr = LibSpec { lib_type: LibType::Header, prebuilt: false, hdrs: Vec::new() };
    let plan = plan_install(&request(&[], Some(hdr), "linux", "release", false), &Vec::new(), &Vec::new());
    assert_eq!(plan.ops, vec![dir("/usr/local/lib")]);
    assert!(plan.items.is_empty());
}

#[test]
fn file_names_follow_path_components() {
    assert_eq!(file_name_of_exec("/a/b/"), "b");
    assert_eq!(file_name_of_exec("/a/b/."), "b");
    assert_eq!(file_name_of_exec("/a/.."), "");
    assert_eq!(file_name_of_exec("/"), "");
    assert_eq!(file_name_of_exec("lib.so"), "lib.so");
    assert_eq!(file_name_of_exec("include//x.h"), "x.h");
}
