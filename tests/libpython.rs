use pyoxidizer::config_c::make_config_c;
use pyoxidizer::libpython::{
    join_path_text, libpython_info, link_directives, plan_build, BuildContext, LinkError,
    PlatformContext,
};
use pyoxidizer::platform::{
    clang_rt_search_dir, config_lib_filename, is_apple_target, is_macos_target,
    is_windows_target, libpython_filename, split_piece,
};
use pyoxidizer::text::{contains_text, ends_with_text, text_eq};

fn pairs(items: &[(&str, &str)]) -> Vec<(String, String)> {
    items
        .iter()
        .map(|(a, b)| (a.to_string(), b.to_string()))
        .collect()
}

fn strings(items: &[&str]) -> Vec<String> {
    items.iter().map(|s| s.to_string()).collect()
}

fn empty_context() -> BuildContext {
    BuildContext {
        init_functions: Vec::new(),
        inittab_cflags: None,
        frameworks: Vec::new(),
        system_libraries: Vec::new(),
        dynamic_libraries: Vec::new(),
        static_libraries: Vec::new(),
        library_search_paths: Vec::new(),
    }
}

fn platform(target: &str, sdk: Option<&str>) -> PlatformContext {
    PlatformContext {
        host_triple: "x86_64-unknown-linux-gnu".to_string(),
        target_triple: target.to_string(),
        opt_level: "3".to_string(),
        apple_sdk_path: sdk.map(|s| s.to_string()),
    }
}

#[test]
fn config_c_lists_entries_in_order() {
    let source = make_config_c(&pairs(&[("_abc", "PyInit__abc"), ("_io", "PyInit__io")]));
    assert_eq!(
        source,
        "#include \"Python.h\"\n\
         extern PyObject* PyInit__abc(void);\n\
         extern PyObject* PyInit__io(void);\n\
         struct _inittab _PyImport_Inittab[] = {\n\
         {\"_abc\", PyInit__abc},\n\
         {\"_io\", PyInit__io},\n\
         {0, 0}\n\
         };"
    );
}

#[test]
fn config_c_counts_declarations_and_rows() {
    let source = make_config_c(&pairs(&[
        ("a", "PyInit_a"),
        ("marshal", "NULL"),
        ("b", "PyInit_b"),
        ("builtins", "NULL"),
    ]));
    let lines: Vec<&str> = source.lines().collect();
    assert_eq!(lines.iter().filter(|l| l.starts_with("extern ")).count(), 2);
    assert_eq!(lines.iter().filter(|l| l.starts_with("{\"")).count(), 4);
    assert_eq!(lines.iter().filter(|l| **l == "{0, 0}").count(), 1);
    assert_eq!(lines[1], "extern PyObject* PyInit_a(void);");
    assert_eq!(lines[2], "extern PyObject* PyInit_b(void);");
    assert_eq!(lines[4], "{\"a\", PyInit_a},");
    assert_eq!(lines[5], "{\"marshal\", NULL},");
    assert_eq!(lines[6], "{\"b\", PyInit_b},");
    assert_eq!(lines[7], "{\"builtins\", NULL},");
    assert_eq!(lines[8], "{0, 0}");
}

#[test]
fn config_c_empty_has_only_sentinel() {
    let source = make_config_c(&[]);
    assert_eq!(
        source,
        "#include \"Python.h\"\nstruct _inittab _PyImport_Inittab[] = {\n{0, 0}\n};"
    );
    assert!(!source.contains("extern"));
}

#[test]
fn config_c_is_deterministic() {
    let input = pairs(&[("zlib", "PyInit_zlib"), ("_sre", "NULL"), ("_ssl", "PyInit__ssl")]);
    assert_eq!(make_config_c(&input), make_config_c(&input));
}

#[test]
fn config_c_never_declares_null() {
    let source = make_config_c(&pairs(&[("x", "NULL"), ("y", "NULL"), ("NULL", "NULL")]));
    assert!(!source.contains("extern PyObject* NULL"));
    assert!(!source.contains("extern"));
    assert!(source.contains("{\"NULL\", NULL},"));
    assert_eq!(source.matches("NULL},").count(), 3);
}

#[test]
fn windows_targets_use_lib_names() {
    assert!(is_windows_target("x86_64-pc-windows-msvc"));
    assert!(is_windows_target("i686-pc-windows-gnu"));
    assert_eq!(libpython_filename("x86_64-pc-windows-msvc"), "pythonXY.lib");
    assert_eq!(config_lib_filename("i686-pc-windows-msvc"), "pyembeddedconfig.lib");
}

#[test]
fn other_targets_use_archive_names() {
    for target in ["x86_64-unknown-linux-gnu", "aarch64-apple-darwin", "x86_64-pc-windows-msvcx"] {
        assert!(!is_windows_target(target));
        assert_eq!(libpython_filename(target), "libpythonXY.a");
        assert_eq!(config_lib_filename(target), "libpyembeddedconfig.a");
    }
}

#[test]
fn apple_and_macos_targets() {
    assert!(is_apple_target("aarch64-apple-ios"));
    assert!(!is_macos_target("aarch64-apple-ios"));
    assert!(is_macos_target("x86_64-apple-darwin"));
    assert!(!is_apple_target("x86_64-unknown-linux-gnu"));
}

#[test]
fn apple_target_without_sdk_is_refused() {
    let result = plan_build(&empty_context(), &platform("aarch64-apple-darwin", None));
    assert!(matches!(result, Err(LinkError::MissingAppleSdk)));
    let result = plan_build(&empty_context(), &platform("aarch64-apple-ios", None));
    assert!(matches!(result, Err(LinkError::MissingAppleSdk)));
}

#[test]
fn apple_sdk_goes_to_both_passes() {
    let mut ctx = empty_context();
    ctx.inittab_cflags = Some(strings(&["-DPy_BUILD_CORE", "-O2"]));
    ctx.init_functions = pairs(&[("_io", "PyInit__io")]);
    let plan = match plan_build(&ctx, &platform("x86_64-apple-darwin", Some("/sdk/MacOSX.sdk"))) {
        Ok(plan) => plan,
        Err(_) => panic!("an Apple target with an SDK must plan"),
    };
    assert_eq!(
        plan.config_pass.flags,
        strings(&["-DPy_BUILD_CORE", "-O2", "-isysroot", "/sdk/MacOSX.sdk"])
    );
    assert_eq!(plan.libpython_pass.flags, strings(&["-isysroot", "/sdk/MacOSX.sdk"]));
    assert_eq!(plan.config_pass.library_name, "pyembeddedconfig");
    assert_eq!(plan.libpython_pass.library_name, "pythonXY");
    assert_eq!(plan.config_pass.target_triple, "x86_64-apple-darwin");
    assert_eq!(plan.libpython_pass.opt_level, "3");
    assert_eq!(plan.config_c_source, make_config_c(&ctx.init_functions));
    assert_eq!(plan.libpython_filename, "libpythonXY.a");
}

#[test]
fn other_targets_get_no_sysroot() {
    let plan = match plan_build(&empty_context(), &platform("x86_64-pc-windows-msvc", Some("/sdk"))) {
        Ok(plan) => plan,
        Err(_) => panic!("a Windows target needs no SDK"),
    };
    assert!(plan.config_pass.flags.is_empty());
    assert!(plan.libpython_pass.flags.is_empty());
    assert_eq!(plan.libpython_filename, "pythonXY.lib");
    assert_eq!(plan.config_lib_filename, "pyembeddedconfig.lib");
    assert_eq!(plan.config_pass.host_triple, "x86_64-unknown-linux-gnu");
}

#[test]
fn directives_follow_category_order() {
    let mut ctx = empty_context();
    ctx.frameworks = strings(&["F"]);
    ctx.system_libraries = strings(&["S"]);
    ctx.static_libraries = strings(&["T"]);
    ctx.library_search_paths = strings(&["P1", "P2"]);
    let directives = link_directives(&ctx, "x86_64-unknown-linux-gnu", None, "/out");
    assert_eq!(
        directives,
        strings(&[
            "cargo:rustc-link-lib=static=pyembeddedconfig",
            "cargo:rustc-link-lib=framework=F",
            "cargo:rustc-link-lib=S",
            "cargo:rustc-link-lib=static=T",
            "cargo:rustc-link-lib=static=pythonXY",
            "cargo:rustc-link-search=native=/out",
            "cargo:rustc-link-search=native=P1",
            "cargo:rustc-link-search=native=P2",
        ])
    );
}

#[test]
fn dynamic_libraries_follow_system_libraries() {
    let mut ctx = empty_context();
    ctx.system_libraries = strings(&["m", "dl"]);
    ctx.dynamic_libraries = strings(&["ssl"]);
    let directives = link_directives(&ctx, "x86_64-unknown-linux-gnu", None, "o");
    assert_eq!(directives[1], "cargo:rustc-link-lib=m");
    assert_eq!(directives[2], "cargo:rustc-link-lib=dl");
    assert_eq!(directives[3], "cargo:rustc-link-lib=ssl");
    assert_eq!(directives.len(), 6);
}

#[test]
fn macos_probe_failure_still_links_runtime() {
    assert_eq!(clang_rt_search_dir(false, "libraries: =/x"), None);
    let directives = link_directives(&empty_context(), "x86_64-apple-darwin", None, "/out");
    assert_eq!(
        directives,
        strings(&[
            "cargo:rustc-link-lib=static=pyembeddedconfig",
            "cargo:rustc-link-lib=clang_rt.osx",
            "cargo:rustc-link-lib=static=pythonXY",
            "cargo:rustc-link-search=native=/out",
        ])
    );
}

#[test]
fn macos_probe_success_adds_search_path() {
    let dir = clang_rt_search_dir(true, "libraries: =/clang/12");
    assert_eq!(dir, Some("/clang/12/lib/darwin".to_string()));
    let directives = link_directives(&empty_context(), "aarch64-apple-darwin", dir, "/out");
    assert_eq!(directives[1], "cargo:rustc-link-search=/clang/12/lib/darwin");
    assert_eq!(directives[2], "cargo:rustc-link-lib=clang_rt.osx");
    assert_eq!(directives.len(), 5);
}

#[test]
fn non_macos_apple_target_has_no_runtime() {
    let directives = link_directives(&empty_context(), "aarch64-apple-ios", Some("/x".to_string()), "/out");
    assert!(!directives.iter().any(|d| d.contains("clang_rt")));
}

#[test]
fn clang_output_is_parsed() {
    let output = "programs: =/usr/bin:/usr/local/bin\r\n\
                  libraries: =/Library/Developer/CommandLineTools/usr/lib/clang/12.0.0\r\n";
    assert_eq!(
        clang_rt_search_dir(true, output),
        Some("/Library/Developer/CommandLineTools/usr/lib/clang/12.0.0/lib/darwin".to_string())
    );
    assert_eq!(clang_rt_search_dir(true, "libraries: =/a:/b=c\nlibraries: =/z"), Some("/a:/b/lib/darwin".to_string()));
    assert_eq!(clang_rt_search_dir(true, "programs: =/usr/bin\n"), None);
    assert_eq!(clang_rt_search_dir(true, ""), None);
}

#[test]
fn paths_join_output_directory() {
    assert_eq!(join_path_text("/out", "/", "libpythonXY.a"), "/out/libpythonXY.a");
    assert_eq!(join_path_text("/out/", "/", "libpythonXY.a"), "/out/libpythonXY.a");
    assert_eq!(join_path_text("", "/", "x"), "x");
}

#[test]
fn build_result_holds_paths_and_directives() {
    let info = libpython_info(&empty_context(), &platform("x86_64-pc-windows-msvc", None), "C:\\out", "\\", None);
    assert_eq!(info.libpython_path, "C:\\out\\pythonXY.lib");
    assert_eq!(info.libpyembeddedconfig_path, "C:\\out\\pyembeddedconfig.lib");
    assert_eq!(info.cargo_metadata.len(), 3);
    assert_eq!(info.cargo_metadata[2], "cargo:rustc-link-search=native=C:\\out");
}

#[test]
fn text_helpers() {
    assert!(text_eq("abc", "abc"));
    assert!(!text_eq("abc", "abd"));
    assert!(!text_eq("abc", "ab"));
    assert!(contains_text("x86_64-apple-darwin", "-apple-"));
    assert!(contains_text("abc", ""));
    assert!(!contains_text("ab", "abc"));
    assert!(ends_with_text("x-apple-darwin", "-apple-darwin"));
    assert!(!ends_with_text("darwin", "-apple-darwin"));
    assert_eq!(split_piece("a=b=c", '=', 1), Some("b"));
    assert_eq!(split_piece("a=b=c", '=', 2), Some("c"));
    assert_eq!(split_piece("a=b=c", '=', 3), None);
    assert_eq!(split_piece("abc", '=', 0), Some("abc"));
}
