use freight::meta::{
    autotools_bootstrap, autotools_build, cmake_steps, cmake_system_from_triple, decimal_string,
    parse_cmake_version, BuildStep, ToolCommand,
};
use freight::migration::sanitize_name;
use freight::vcpkg::{
    default_triplet, installed_root, package_has_triplet, resolve_vcpkg_dep, select_libs,
    sentinel_path, vcpkg_install_args,
};

fn strs(v: &[&str]) -> Vec<String> {
    v.iter().map(|s| s.to_string()).collect()
}

fn cmd(program: &str, args: &[&str], label: &str) -> ToolCommand {
    ToolCommand { program: program.to_string(), args: strs(args), label: label.to_string() }
}

#[test]
fn detects_package_triplet_suffix() {
    assert!(package_has_triplet("zlib:x64-linux"));
    assert!(package_has_triplet("openssl[core]:x64-windows"));
    assert!(!package_has_triplet("zlib"));
    assert!(!package_has_triplet("zlib:"));
}

#[test]
fn default_triplet_is_not_empty() {
    assert!(!default_triplet(None, "linux", "x86_64").is_empty());
}

#[test]
fn default_triplets_by_host() {
    assert_eq!(default_triplet(None, "windows", "x86_64"), "x64-windows");
    assert_eq!(default_triplet(None, "windows", "x86"), "x86-windows");
    assert_eq!(default_triplet(None, "windows", "aarch64"), "arm64-windows");
    assert_eq!(default_triplet(None, "macos", "aarch64"), "arm64-osx");
    assert_eq!(default_triplet(None, "macos", "x86_64"), "x64-osx");
    assert_eq!(default_triplet(None, "linux", "aarch64"), "arm64-linux");
    assert_eq!(default_triplet(None, "linux", "riscv64"), "x64-linux");
    assert_eq!(default_triplet(None, "freebsd", "aarch64"), "arm64-linux");
    assert_eq!(default_triplet(None, "freebsd", "x86_64"), "x64-linux");
    assert_eq!(default_triplet(Some("  x64-mingw  "), "linux", "x86_64"), "x64-mingw");
    assert_eq!(default_triplet(Some("   "), "macos", "aarch64"), "arm64-osx");
}

#[test]
fn vcpkg_paths_and_arguments() {
    assert_eq!(installed_root("/proj"), "/proj/.deps/vcpkg_installed");
    assert_eq!(sentinel_path("/r", "zlib", "x64-linux"), "/r/.freight/zlib.x64-linux.fetched");
    assert_eq!(
        vcpkg_install_args("zlib", "x64-linux", "/r"),
        strs(&["install", "zlib", "--triplet", "x64-linux", "--x-install-root", "/r"])
    );
    assert_eq!(
        vcpkg_install_args("zlib:arm64-osx", "x64-linux", "/r"),
        strs(&["install", "zlib:arm64-osx", "--x-install-root", "/r"])
    );
}

#[test]
fn library_selection() {
    let files = strs(&["d/b.so", "d/a.a", "d/readme.txt", "d/.so", "d/c.dylib", "d/x.lib", "d/noext"]);
    assert_eq!(select_libs(&files), strs(&["d/a.a", "d/b.so", "d/c.dylib", "d/x.lib"]));
}

#[test]
fn resolution_falls_back_to_debug_libs() {
    let r = resolve_vcpkg_dep("/t", true, true, Vec::new(), strs(&["/t/debug/lib/a.a"]));
    assert_eq!(r.include_dirs, strs(&["/t/include"]));
    assert_eq!(r.libs, strs(&["/t/debug/lib/a.a"]));
    assert_eq!(r.raw_link_flags, strs(&["-L/t/lib"]));
    let r = resolve_vcpkg_dep("/t", false, false, strs(&["/t/lib/z.a"]), strs(&["/t/debug/lib/a.a"]));
    assert!(r.include_dirs.is_empty());
    assert_eq!(r.libs, strs(&["/t/lib/z.a"]));
    assert!(r.raw_link_flags.is_empty());
}

#[test]
fn cmake_systems_for_triples() {
    assert_eq!(cmake_system_from_triple("aarch64-linux-gnu"), Some(("Linux", "aarch64")));
    assert_eq!(cmake_system_from_triple("armv7-unknown-linux-gnueabihf"), Some(("Linux", "arm")));
    assert_eq!(cmake_system_from_triple("riscv64gc-unknown-linux-gnu"), Some(("Linux", "riscv64")));
    assert_eq!(cmake_system_from_triple("i686-unknown-linux-gnu"), Some(("Linux", "x86")));
    assert_eq!(cmake_system_from_triple("x86_64-apple-darwin"), Some(("Darwin", "x86_64")));
    assert_eq!(cmake_system_from_triple("aarch64-apple-ios"), Some(("Darwin", "arm64")));
    assert_eq!(cmake_system_from_triple("i686-pc-windows-msvc"), Some(("Windows", "X86")));
    assert_eq!(cmake_system_from_triple("aarch64-pc-windows-msvc"), Some(("Windows", "ARM64")));
    assert_eq!(cmake_system_from_triple("x86_64-pc-windows-gnu"), Some(("Windows", "AMD64")));
    assert_eq!(cmake_system_from_triple("wasm32-unknown-emscripten"), Some(("Emscripten", "asm.js")));
    assert_eq!(cmake_system_from_triple("aarch64-linux-android"), Some(("Linux", "aarch64")));
    assert_eq!(cmake_system_from_triple("armv7-none-androideabi"), Some(("Android", "arm")));
    assert_eq!(cmake_system_from_triple("thumbv7em-none-eabi"), None);
}

#[test]
fn cmake_version_output() {
    assert_eq!(parse_cmake_version("cmake version 3.27.4\n\nCMake suite maintained by Kitware\n"), Some((3, 27)));
    assert_eq!(parse_cmake_version("cmake version  3.10\n"), Some((3, 10)));
    assert_eq!(parse_cmake_version("cmake version 3\n"), None);
    assert_eq!(parse_cmake_version("ninja 1.11\n"), None);
    assert_eq!(parse_cmake_version(""), None);
}

#[test]
fn cmake_build_commands() {
    let steps = cmake_steps("dep", "build", "release", &strs(&["-DX=1"]), Some("aarch64-linux-gnu"), true, Some((3, 28)), 8);
    assert_eq!(
        steps,
        vec![
            cmd(
                "cmake",
                &[
                    "-S", "dep", "-B", "build", "-DCMAKE_BUILD_TYPE=Release",
                    "-DCMAKE_INSTALL_PREFIX=build/install", "-G", "Ninja",
                    "-DCMAKE_SYSTEM_NAME=Linux", "-DCMAKE_SYSTEM_PROCESSOR=aarch64", "-DX=1",
                ],
                "cmake configure",
            ),
            cmd("cmake", &["--build", "build", "--parallel", "8"], "cmake build"),
            cmd("cmake", &["--install", "build", "--prefix", "build/install"], "cmake install"),
        ]
    );
    let old = cmake_steps("dep", "build", "dev", &Vec::new(), None, false, Some((3, 10)), 2);
    assert_eq!(
        old,
        vec![
            cmd("cmake", &["-S", "dep", "-B", "build", "-DCMAKE_BUILD_TYPE=Debug", "-DCMAKE_INSTALL_PREFIX=build/install"], "cmake configure"),
            cmd("cmake", &["--build", "build"], "cmake build"),
            cmd("cmake", &["--build", "build", "--target", "install"], "cmake install"),
        ]
    );
    let mid = cmake_steps("dep", "build", "dev", &Vec::new(), None, false, Some((3, 12)), 2);
    assert_eq!(mid[1], cmd("cmake", &["--build", "build", "--parallel", "2"], "cmake build"));
    assert_eq!(mid[2], cmd("cmake", &["--build", "build", "--target", "install"], "cmake install"));
}

#[test]
fn autotools_commands() {
    assert_eq!(autotools_bootstrap(None, true, true), None);
    assert_eq!(autotools_bootstrap(None, false, true), Some(cmd("sh", &["autogen.sh"], "autogen.sh")));
    assert_eq!(
        autotools_bootstrap(Some("wasm32-unknown-emscripten"), false, true),
        Some(cmd("emconfigure", &["autogen.sh"], "autogen.sh"))
    );
    assert_eq!(autotools_bootstrap(None, false, false), Some(cmd("autoreconf", &["-fi"], "autoreconf")));
    let steps = autotools_build("dep", "b", Some("arm-linux-gnueabihf"), false, 4);
    assert_eq!(
        steps,
        vec![
            BuildStep::CreateDir("b/install".to_string()),
            BuildStep::Run(cmd("dep/configure", &["--prefix=b/install", "--enable-static", "--disable-shared", "--host=arm-linux-gnueabihf"], "configure")),
            BuildStep::Run(cmd("make", &["-j", "4"], "make")),
            BuildStep::Run(cmd("make", &["install"], "make install")),
        ]
    );
    let em = autotools_build("dep", "b", Some("wasm32-unknown-emscripten"), false, 2);
    assert_eq!(
        em[1],
        BuildStep::Run(cmd("emconfigure", &["dep/configure", "--prefix=b/install", "--enable-static", "--disable-shared", "--host=wasm32-unknown-emscripten"], "configure"))
    );
    assert_eq!(em[2], BuildStep::Run(cmd("emmake", &["make", "-j", "2"], "make")));
    assert_eq!(em[3], BuildStep::Run(cmd("emmake", &["make", "install"], "make install")));
    let fresh = autotools_build("dep", "b", None, true, 1);
    assert_eq!(fresh.len(), 3);
}

#[test]
fn decimal_strings() {
    assert_eq!(decimal_string(0), "0");
    assert_eq!(decimal_string(7), "7");
    assert_eq!(decimal_string(1234), "1234");
}

#[test]
fn sanitized_package_names() {
    assert_eq!(sanitize_name("  my lib!! "), "my-lib");
    assert_eq!(sanitize_name("--foo_bar.baz--"), "foo_bar-baz");
    assert_eq!(sanitize_name("libz"), "libz");
    assert_eq!(sanitize_name("!!"), "");
    assert_eq!(sanitize_name(""), "");
    assert_eq!(sanitize_name("a\u{e9}b"), "a-b");
}
