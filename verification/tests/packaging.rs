use freight::package::{
    archive_name, crc32, dep_destination, dumpbin_candidates, entry_name, is_system_lib,
    launcher_script, ldd_candidates, otool_candidates, package_dir, package_stem,
    rpath_name_exec, select_deps, tar_args, zip_archive,
};

fn strs(v: &[&str]) -> Vec<String> {
    v.iter().map(|s| s.to_string()).collect()
}

#[test]
fn crc32_known_values() {
    assert_eq!(crc32(b""), 0);
    assert_eq!(crc32(b"123456789"), 0xCBF4_3926);
    assert_eq!(crc32(b"a"), 0xE8B7_BE43);
    assert_eq!(crc32(b"hi"), 0xD893_2AAC);
}

#[test]
fn zip_archive_layout_and_order() {
    let entries = vec![
        (b"b.txt".to_vec(), b"hi".to_vec()),
        (b"a/x".to_vec(), Vec::new()),
    ];
    let expected: Vec<u8> = vec![
        80, 75, 3, 4, 20, 0, 0, 0, 0, 0, 0, 0, 0, 0, 0, 0, 0, 0, 0, 0, 0, 0, 0, 0,
        0, 0, 3, 0, 0, 0, 97, 47, 120, 80, 75, 3, 4, 20, 0, 0, 0, 0, 0, 0, 0, 0, 0, 172,
        42, 147, 216, 2, 0, 0, 0, 2, 0, 0, 0, 5, 0, 0, 0, 98, 46, 116, 120, 116, 104, 105, 80, 75,
        1, 2, 20, 0, 20, 0, 0, 0, 0, 0, 0, 0, 0, 0, 0, 0, 0, 0, 0, 0, 0, 0, 0, 0,
        0, 0, 3, 0, 0, 0, 0, 0, 0, 0, 0, 0, 0, 0, 0, 0, 0, 0, 0, 0, 97, 47, 120, 80,
        75, 1, 2, 20, 0, 20, 0, 0, 0, 0, 0, 0, 0, 0, 0, 172, 42, 147, 216, 2, 0, 0, 0, 2,
        0, 0, 0, 5, 0, 0, 0, 0, 0, 0, 0, 0, 0, 0, 0, 0, 0, 33, 0, 0, 0, 98, 46, 116,
        120, 116, 80, 75, 5, 6, 0, 0, 0, 0, 2, 0, 2, 0, 100, 0, 0, 0, 70, 0, 0, 0, 0, 0,
    ];
    assert_eq!(zip_archive(entries), expected);
}

#[test]
fn zip_archive_empty() {
    assert_eq!(zip_archive(Vec::new()), vec![80, 75, 5, 6, 0, 0, 0, 0, 0, 0, 0, 0, 0, 0, 0, 0, 0, 0, 0, 0, 0, 0]);
}

#[test]
fn package_and_archive_names() {
    let stem = package_stem("app", "1.0", "x86_64", "linux", false);
    assert_eq!(stem, "app-1.0-x86_64-linux");
    assert_eq!(package_stem("app", "1.0", "aarch64", "macos", true), "app-1.0-aarch64-macos-installer");
    assert_eq!(archive_name(&stem, "linux"), "app-1.0-x86_64-linux.tar.gz");
    assert_eq!(archive_name("app-1.0-x86_64-windows", "windows"), "app-1.0-x86_64-windows.zip");
    assert_eq!(package_dir("/proj"), "/proj/target/package");
    assert_eq!(tar_args("a.tar.gz", "/p", "s"), strs(&["-czf", "a.tar.gz", "-C", "/p", "s"]));
}

#[test]
fn zip_entry_names() {
    assert_eq!(entry_name("stem", &strs(&["bin", "app.exe"])), "stem/bin/app.exe");
    assert_eq!(entry_name("stem", &strs(&["a"])), "stem/a");
}

#[test]
fn launcher_script_text() {
    let (path, text) = launcher_script("stage", "app", "linux");
    assert_eq!(path, "stage/app");
    assert_eq!(
        text,
        "#!/bin/sh\nDIR=\"$(cd \"$(dirname \"$0\")\" && pwd)\"\nexport LD_LIBRARY_PATH=\"$DIR/lib${LD_LIBRARY_PATH:+:${LD_LIBRARY_PATH}}\"\nexec \"$DIR/bin/app\" \"$@\"\n"
    );
    let (path, text) = launcher_script("stage/", "tool.exe.exe", "macos");
    assert_eq!(path, "stage/tool");
    assert!(text.contains("export DYLD_LIBRARY_PATH=\"$DIR/lib${DYLD_LIBRARY_PATH:+:${DYLD_LIBRARY_PATH}}\""));
    assert!(text.contains("exec \"$DIR/bin/tool.exe.exe\""));
}

#[test]
fn system_libraries() {
    assert!(is_system_lib("/lib/x86_64-linux-gnu/libc.so.6", "linux"));
    assert!(is_system_lib("/lib64/ld-linux-x86-64.so.2", "linux"));
    assert!(is_system_lib("/lib/LIBNSS_files.so.2", "linux"));
    assert!(!is_system_lib("/usr/lib/libfoo.so.1", "linux"));
    assert!(is_system_lib("/usr/lib/libSystem.B.dylib", "macos"));
    assert!(is_system_lib("/System/Library/Frameworks/Foundation", "macos"));
    assert!(!is_system_lib("/usr/libx/libfoo.dylib", "macos"));
    assert!(is_system_lib("/c/Windows/System32/KERNEL32.dll", "windows"));
    assert!(is_system_lib("/c/x/vcruntime140.dll", "windows"));
    assert!(!is_system_lib("/c/x/foo.dll", "windows"));
    assert!(!is_system_lib("/lib/libc.so.6", "freebsd"));
}

#[test]
fn ldd_output_parsing() {
    let out = "\tlinux-vdso.so.1 (0x00007ffd)\n\tlibfoo.so.1 => /usr/lib/libfoo.so.1 (0x00007f00)\n\tlibbar.so => not found\n\t/lib64/ld-linux-x86-64.so.2 (0x00007f11)\n";
    assert_eq!(ldd_candidates(out), strs(&["/usr/lib/libfoo.so.1", "/lib64/ld-linux-x86-64.so.2"]));
    assert!(ldd_candidates("").is_empty());
}

#[test]
fn otool_output_parsing() {
    let out = "bin:\n\t/usr/lib/libSystem.B.dylib (compatibility version 1.0.0)\n\t@rpath/libx.dylib (x)\n\t/usr/local/lib/libfoo.1.dylib (y)\n";
    assert_eq!(
        otool_candidates(out),
        strs(&["/usr/lib/libSystem.B.dylib", "/usr/local/lib/libfoo.1.dylib"])
    );
    assert!(otool_candidates("").is_empty());
}

#[test]
fn dumpbin_output_parsing() {
    let out = "Dump of file app.exe\n  Image has the following dependencies:\n    foo.dll\n    KERNEL32.DLL\n    bar.txt\n\n    baz.dll\n";
    assert_eq!(dumpbin_candidates(out), strs(&["foo.dll", "KERNEL32.DLL"]));
    assert!(dumpbin_candidates("    foo.dll\n").is_empty());
}

#[test]
fn dependency_selection_and_placement() {
    let cands = strs(&["/usr/lib/libfoo.so.1", "/lib64/ld-linux-x86-64.so.2", "/missing.so"]);
    let present = strs(&["/usr/lib/libfoo.so.1", "/lib64/ld-linux-x86-64.so.2"]);
    assert_eq!(select_deps(&cands, &present, "linux"), strs(&["/usr/lib/libfoo.so.1"]));
    assert_eq!(dep_destination("s/bin", "s/lib", "windows", "/x/foo.dll"), "s/bin/foo.dll");
    assert_eq!(dep_destination("s/bin", "s/lib", "linux", "/x/libfoo.so.1"), "s/lib/libfoo.so.1");
}

#[test]
fn macos_bundled_names() {
    assert_eq!(
        rpath_name_exec("/usr/local/lib/libfoo.1.dylib"),
        Some("@executable_path/../lib/libfoo.1.dylib".to_string())
    );
    assert_eq!(rpath_name_exec("/x/libfoo.so"), None);
    assert_eq!(rpath_name_exec("/x/.dylib"), None);
}

#[test]
fn macos_system_paths_compare_by_component() {
    assert!(is_system_lib("//usr//lib/libz.1.dylib", "macos"));
    assert!(is_system_lib("/usr/./lib/libz.1.dylib", "macos"));
    assert!(!is_system_lib("/usr/lib\\foo", "macos"));
    assert!(!is_system_lib("usr/lib/libz.dylib", "macos"));
    assert!(!is_system_lib("/Systemx/Library/Foo", "macos"));
    assert!(is_system_lib("/Library/Apple/usr/lib/libfoo.dylib", "macos"));
}
