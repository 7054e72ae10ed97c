//! The build of a static libpython: the plan of both toolchain passes and the
//! linker directives that the final link of the executable must apply.
use vstd::prelude::*;
use crate::config_c::{config_c_text, entries_view, make_config_c};
use crate::text::{ends_with_text, has_suffix};
use crate::platform::{
    config_lib_file_name, config_lib_filename, is_apple_target, is_apple_triple,
    is_macos_target, is_macos_triple, libpython_file_name, libpython_filename,
};

verus! {

/// The text of each string of a sequence.
pub open spec fn texts(v: Seq<String>) -> Seq<Seq<char>> {
    v.map_values(|s: String| s@)
}

/// What the pipeline is told to build and link.
pub struct BuildContext {
    /// (module name, init symbol) of each built-in extension, in order.
    pub init_functions: Vec<(String, String)>,
    /// Extra compiler flags for the extension table source.
    pub inittab_cflags: Option<Vec<String>>,
    pub frameworks: Vec<String>,
    pub system_libraries: Vec<String>,
    pub dynamic_libraries: Vec<String>,
    pub static_libraries: Vec<String>,
    pub library_search_paths: Vec<String>,
}

/// Directive that links the library `name`.
pub open spec fn lib_directive(name: Seq<char>) -> Seq<char> {
    "cargo:rustc-link-lib="@ + name
}

/// Directive that links the static library `name`.
pub open spec fn static_lib_directive(name: Seq<char>) -> Seq<char> {
    "cargo:rustc-link-lib=static="@ + name
}

/// Directive that links the Apple framework `name`.
pub open spec fn framework_directive(name: Seq<char>) -> Seq<char> {
    "cargo:rustc-link-lib=framework="@ + name
}

/// Directive that adds `dir` to the library search path.
pub open spec fn search_directive(dir: Seq<char>) -> Seq<char> {
    "cargo:rustc-link-search="@ + dir
}

/// Directive that adds `dir` to the native library search path.
pub open spec fn native_search_directive(dir: Seq<char>) -> Seq<char> {
    "cargo:rustc-link-search=native="@ + dir
}

/// The directive that links the compiler runtime library on macOS.
pub open spec fn clang_rt_lib_directive() -> Seq<char> {
    lib_directive("clang_rt.osx"@)
}

/// Directives for the macOS compiler runtime: its directory where it was
/// found, then the library itself; none off macOS.
pub open spec fn clang_rt_directives(target: Seq<char>, clang_rt_dir: Option<Seq<char>>) -> Seq<
    Seq<char>,
> {
    if is_macos_triple(target) {
        match clang_rt_dir {
            Some(d) => seq![search_directive(d), clang_rt_lib_directive()],
            None => seq![clang_rt_lib_directive()],
        }
    } else {
        Seq::empty()
    }
}

/// Every name of `names` turned into a directive by prepending `prefix`.
pub open spec fn prefixed(prefix: Seq<char>, names: Seq<Seq<char>>) -> Seq<Seq<char>> {
    names.map_values(|n: Seq<char>| prefix + n)
}

/// The directives before the compiler runtime ones.
pub open spec fn library_directives(ctx: BuildContext) -> Seq<Seq<char>> {
    seq![static_lib_directive("pyembeddedconfig"@)] + prefixed(
        "cargo:rustc-link-lib=framework="@,
        texts(ctx.frameworks@),
    ) + prefixed("cargo:rustc-link-lib="@, texts(ctx.system_libraries@)) + prefixed(
        "cargo:rustc-link-lib="@,
        texts(ctx.dynamic_libraries@),
    ) + prefixed("cargo:rustc-link-lib=static="@, texts(ctx.static_libraries@))
}

/// The directives after the compiler runtime ones.
pub open spec fn search_path_directives(ctx: BuildContext, out_dir: Seq<char>) -> Seq<Seq<char>> {
    seq![static_lib_directive("pythonXY"@), native_search_directive(out_dir)] + prefixed(
        "cargo:rustc-link-search=native="@,
        texts(ctx.library_search_paths@),
    )
}

/// All linker directives, in the order the final link must apply them.
pub open spec fn link_directives_of(
    ctx: BuildContext,
    target: Seq<char>,
    clang_rt_dir: Option<Seq<char>>,
    out_dir: Seq<char>,
) -> Seq<Seq<char>> {
    library_directives(ctx) + clang_rt_directives(target, clang_rt_dir) + search_path_directives(
        ctx,
        out_dir,
    )
}

/// A string made of `prefix` followed by `name`.
fn prefixed_text(prefix: &str, name: &str) -> (r: String)
    ensures
        r@ == prefix@ + name@,
{
    let mut r = String::from_str(prefix);
    r.append(name);
    r
}

/// Pushes `prefix` followed by each name of `names` onto `out`, in order.
fn push_prefixed(out: &mut Vec<String>, prefix: &str, names: &Vec<String>)
    ensures
        texts(final(out)@) == texts(old(out)@) + prefixed(prefix@, texts(names@)),
{
    let mut i: usize = 0;
    while i < names.len()
        invariant
            i <= names@.len(),
            texts(out@) == texts(old(out)@) + prefixed(prefix@, texts(names@.take(i as int))),
        decreases names@.len() - i,
    {
        let d = prefixed_text(prefix, names[i].as_str());
        push_text(out, d);
        assert(texts(names@.take(i + 1)) =~= texts(names@.take(i as int)).push(names@[i as int]@));
        assert(prefixed(prefix@, texts(names@.take(i + 1))) =~= prefixed(
            prefix@,
            texts(names@.take(i as int)),
        ).push(prefix@ + names@[i as int]@));
        i = i + 1;
        assert(texts(out@) =~= texts(old(out)@) + prefixed(
            prefix@,
            texts(names@.take(i as int)),
        ));
    }
    assert(names@.take(i as int) =~= names@);
}

/// Pushes `line` onto `out`.
fn push_text(out: &mut Vec<String>, line: String)
    ensures
        texts(final(out)@) == texts(old(out)@).push(line@),
{
    out.push(line);
    assert(texts(out@) =~= texts(old(out)@).push(line@));
}

/// The linker directives for the libraries built from `ctx` for
/// `target_triple` into `out_dir`. `clang_rt_dir` is where the macOS compiler
/// runtime library was found, if it was.
pub fn link_directives(
    ctx: &BuildContext,
    target_triple: &str,
    clang_rt_dir: Option<String>,
    out_dir: &str,
) -> (r: Vec<String>)
    ensures
        texts(r@) == link_directives_of(
            *ctx,
            target_triple@,
            match clang_rt_dir {
                Some(d) => Some(d@),
                None => None,
            },
            out_dir@,
        ),
{
    let mut out: Vec<String> = Vec::new();
    push_text(&mut out, prefixed_text("cargo:rustc-link-lib=static=", "pyembeddedconfig"));
    push_prefixed(&mut out, "cargo:rustc-link-lib=framework=", &ctx.frameworks);
    push_prefixed(&mut out, "cargo:rustc-link-lib=", &ctx.system_libraries);
    push_prefixed(&mut out, "cargo:rustc-link-lib=", &ctx.dynamic_libraries);
    push_prefixed(&mut out, "cargo:rustc-link-lib=static=", &ctx.static_libraries);
    assert(texts(out@) =~= library_directives(*ctx));
    let ghost before_rt = texts(out@);
    if is_macos_target(target_triple) {
        match &clang_rt_dir {
            Some(d) => push_text(&mut out, prefixed_text("cargo:rustc-link-search=", d.as_str())),
            None => {},
        }
        push_text(&mut out, prefixed_text("cargo:rustc-link-lib=", "clang_rt.osx"));
    }
    let ghost dir_view = match clang_rt_dir {
        Some(d) => Some(d@),
        None => None::<Seq<char>>,
    };
    assert(texts(out@) =~= before_rt + clang_rt_directives(target_triple@, dir_view));
    let ghost before_search = texts(out@);
    push_text(&mut out, prefixed_text("cargo:rustc-link-lib=static=", "pythonXY"));
    push_text(&mut out, prefixed_text("cargo:rustc-link-search=native=", out_dir));
    push_prefixed(&mut out, "cargo:rustc-link-search=native=", &ctx.library_search_paths);
    assert(texts(out@) =~= before_search + search_path_directives(*ctx, out_dir@));
    out
}

/// Target and toolchain settings of one build.
pub struct PlatformContext {
    pub host_triple: String,
    pub target_triple: String,
    pub opt_level: String,
    /// Root of the Apple SDK to compile against; required for Apple targets.
    pub apple_sdk_path: Option<String>,
}

/// Why a build cannot start.
#[derive(Debug, PartialEq, Eq, Structural)]
pub enum LinkError {
    /// The target is an Apple platform and no SDK was given.
    MissingAppleSdk,
}

/// The settings of one toolchain pass: what it compiles is given apart.
pub struct CompilePass {
    pub host_triple: String,
    pub target_triple: String,
    pub opt_level: String,
    /// Extra compiler flags, in order.
    pub flags: Vec<String>,
    /// Name of the static library the pass produces.
    pub library_name: String,
}

/// Everything the toolchain passes need, decided before any of them runs.
pub struct BuildPlan {
    /// Source of the extension table.
    pub config_c_source: String,
    /// Compiles the extension table into its own library.
    pub config_pass: CompilePass,
    /// Builds the Python library from the object files.
    pub libpython_pass: CompilePass,
    /// File name of the extension table library.
    pub config_lib_filename: String,
    /// File name of the Python library.
    pub libpython_filename: String,
}

/// The SDK root flags handed to the compiler for this platform.
pub open spec fn sysroot_flags(platform: PlatformContext) -> Seq<Seq<char>> {
    if is_apple_triple(platform.target_triple@) && platform.apple_sdk_path.is_some() {
        seq!["-isysroot"@, platform.apple_sdk_path.unwrap()@]
    } else {
        Seq::empty()
    }
}

/// The build cannot start: an Apple target without an SDK.
pub open spec fn misses_apple_sdk(platform: PlatformContext) -> bool {
    is_apple_triple(platform.target_triple@) && platform.apple_sdk_path.is_none()
}

/// The flags of the pass that compiles the extension table.
pub open spec fn config_pass_flags(ctx: BuildContext, platform: PlatformContext) -> Seq<
    Seq<char>,
> {
    let extra = match ctx.inittab_cflags {
        Some(f) => texts(f@),
        None => Seq::empty(),
    };
    extra + sysroot_flags(platform)
}

/// `pass` targets the platform, with the given flags, and produces `library`.
pub open spec fn pass_is(
    pass: CompilePass,
    platform: PlatformContext,
    flags: Seq<Seq<char>>,
    library: Seq<char>,
) -> bool {
    &&& pass.host_triple@ == platform.host_triple@
    &&& pass.target_triple@ == platform.target_triple@
    &&& pass.opt_level@ == platform.opt_level@
    &&& texts(pass.flags@) == flags
    &&& pass.library_name@ == library
}

/// Pushes a copy of each string of `items` onto `out`.
fn push_all(out: &mut Vec<String>, items: &Vec<String>)
    ensures
        texts(final(out)@) == texts(old(out)@) + texts(items@),
{
    let mut i: usize = 0;
    while i < items.len()
        invariant
            i <= items@.len(),
            texts(out@) == texts(old(out)@) + texts(items@.take(i as int)),
        decreases items@.len() - i,
    {
        push_text(out, items[i].clone());
        assert(texts(items@.take(i + 1)) =~= texts(items@.take(i as int)).push(items@[i as int]@));
        i = i + 1;
    }
    assert(items@.take(i as int) =~= items@);
}

/// The SDK root flags for `platform`.
fn sysroot_flag_list(platform: &PlatformContext) -> (r: Vec<String>)
    ensures
        texts(r@) == sysroot_flags(*platform),
{
    let mut r: Vec<String> = Vec::new();
    assert(texts(r@) =~= Seq::empty());
    if is_apple_target(platform.target_triple.as_str()) {
        match &platform.apple_sdk_path {
            Some(p) => {
                push_text(&mut r, String::from_str("-isysroot"));
                push_text(&mut r, p.clone());
                assert(texts(r@) =~= seq!["-isysroot"@, p@]);
            },
            None => {},
        }
    }
    r
}

fn make_pass(platform: &PlatformContext, flags: Vec<String>, library: &str) -> (r: CompilePass)
    ensures
        pass_is(r, *platform, texts(flags@), library@),
{
    CompilePass {
        host_triple: platform.host_triple.clone(),
        target_triple: platform.target_triple.clone(),
        opt_level: platform.opt_level.clone(),
        flags,
        library_name: String::from_str(library),
    }
}

/// Decides everything the two toolchain passes need. Fails, before anything
/// is compiled, when the target is an Apple platform and no SDK was given.
pub fn plan_build(ctx: &BuildContext, platform: &PlatformContext) -> (r: Result<
    BuildPlan,
    LinkError,
>)
    ensures
        r is Err <==> misses_apple_sdk(*platform),
        r matches Err(e) ==> e == LinkError::MissingAppleSdk,
        r matches Ok(plan) ==> {
            &&& plan.config_c_source@ == config_c_text(entries_view(ctx.init_functions@))
            &&& pass_is(
                plan.config_pass,
                *platform,
                config_pass_flags(*ctx, *platform),
                "pyembeddedconfig"@,
            )
            &&& pass_is(plan.libpython_pass, *platform, sysroot_flags(*platform), "pythonXY"@)
            &&& plan.config_lib_filename@ == config_lib_file_name(platform.target_triple@)
            &&& plan.libpython_filename@ == libpython_file_name(platform.target_triple@)
        },
{
    let target = platform.target_triple.as_str();
    if is_apple_target(target) && platform.apple_sdk_path.is_none() {
        return Err(LinkError::MissingAppleSdk);
    }
    let config_c_source = make_config_c(ctx.init_functions.as_slice());
    let mut config_flags: Vec<String> = Vec::new();
    assert(texts(config_flags@) =~= Seq::empty());
    match &ctx.inittab_cflags {
        Some(f) => push_all(&mut config_flags, f),
        None => {},
    }
    let sysroot = sysroot_flag_list(platform);
    push_all(&mut config_flags, &sysroot);
    assert(texts(config_flags@) =~= config_pass_flags(*ctx, *platform));
    let config_pass = make_pass(platform, config_flags, "pyembeddedconfig");
    let libpython_pass = make_pass(platform, sysroot, "pythonXY");
    Ok(BuildPlan {
        config_c_source,
        config_pass,
        libpython_pass,
        config_lib_filename: config_lib_filename(target),
        libpython_filename: libpython_filename(target),
    })
}

/// What a finished build hands to the final link.
pub struct LibpythonInfo {
    /// Path of the Python static library.
    pub libpython_path: String,
    /// Path of the extension table library.
    pub libpyembeddedconfig_path: String,
    /// Linker directives, in the order they must be applied.
    pub cargo_metadata: Vec<String>,
}

/// `name` inside directory `dir`, with `sep` between them unless `dir` is
/// empty or already ends with it.
pub open spec fn join_path(dir: Seq<char>, sep: Seq<char>, name: Seq<char>) -> Seq<char> {
    if dir.len() == 0 || has_suffix(dir, sep) {
        dir + name
    } else {
        dir + sep + name
    }
}

/// `name` inside directory `dir`.
pub fn join_path_text(dir: &str, sep: &str, name: &str) -> (r: String)
    ensures
        r@ == join_path(dir@, sep@, name@),
{
    let mut r = String::from_str(dir);
    if !(dir.unicode_len() == 0 || ends_with_text(dir, sep)) {
        r.append(sep);
    }
    r.append(name);
    r
}

/// The result of a build of `ctx` for `platform` into `out_dir`, whose path
/// separator is `separator`; `clang_rt_dir` is where the macOS compiler
/// runtime library was found, if it was.
pub fn libpython_info(
    ctx: &BuildContext,
    platform: &PlatformContext,
    out_dir: &str,
    separator: &str,
    clang_rt_dir: Option<String>,
) -> (r: LibpythonInfo)
    ensures
        r.libpython_path@ == join_path(
            out_dir@,
            separator@,
            libpython_file_name(platform.target_triple@),
        ),
        r.libpyembeddedconfig_path@ == join_path(
            out_dir@,
            separator@,
            config_lib_file_name(platform.target_triple@),
        ),
        texts(r.cargo_metadata@) == link_directives_of(
            *ctx,
            platform.target_triple@,
            match clang_rt_dir {
                Some(d) => Some(d@),
                None => None,
            },
            out_dir@,
        ),
{
    let target = platform.target_triple.as_str();
    let lib_name = libpython_filename(target);
    let config_name = config_lib_filename(target);
    LibpythonInfo {
        libpython_path: join_path_text(out_dir, separator, lib_name.as_str()),
        libpyembeddedconfig_path: join_path_text(out_dir, separator, config_name.as_str()),
        cargo_metadata: link_directives(ctx, target, clang_rt_dir, out_dir),
    }
}

/// On a macOS target the compiler runtime library is linked whether or not
/// its directory was found: a failed search drops only the search directive
/// that would stand right before it, and leaves every other directive as is.
pub proof fn lemma_clang_rt_always_linked(
    ctx: BuildContext,
    target: Seq<char>,
    out_dir: Seq<char>,
    found: Seq<char>,
)
    requires
        is_macos_triple(target),
    ensures
        link_directives_of(ctx, target, None, out_dir) == library_directives(ctx) + seq![
            clang_rt_lib_directive(),
        ] + search_path_directives(ctx, out_dir),
        link_directives_of(ctx, target, Some(found), out_dir) == library_directives(ctx) + seq![
            search_directive(found),
            clang_rt_lib_directive(),
        ] + search_path_directives(ctx, out_dir),
{
}

} // verus!
