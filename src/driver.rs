//! The compiler's command line and the tool's exit status.
use vstd::prelude::*;
use crate::args::CargoNxBuild;
use crate::resolve::PackagingDirective;

verus! {

/// The target triple used where none is given.
pub const DEFAULT_TARGET_TRIPLE: &'static str = "aarch64-nintendo-switch-freestanding";

/// The flag that makes the compiler report one JSON message per line.
pub const MESSAGE_FORMAT_FLAG: &'static str = "--message-format=json-diagnostic-rendered-ansi";

/// The exit code of a run whose status is unknown or whose packaging failed.
pub const FAILURE_EXIT_CODE: i32 = 1;

/// The triple to build for: the one requested, or the default.
pub open spec fn target_spec(target: Option<String>) -> Seq<char> {
    match target {
        Some(t) => t@,
        None => DEFAULT_TARGET_TRIPLE@,
    }
}

/// The arguments of the compiler's build command.
pub open spec fn compiler_args_spec(args: CargoNxBuild) -> Seq<Seq<char>> {
    seq!["build"@, "--target="@ + target_spec(args.target), MESSAGE_FORMAT_FLAG@] + (if args.release {
        seq!["--release"@]
    } else {
        Seq::empty()
    }) + match args.package {
        Some(p) => seq!["--package"@, p@],
        None => Seq::empty(),
    }
}

/// The strings of a vector, as sequences of characters.
pub open spec fn strings_view(v: Seq<String>) -> Seq<Seq<char>> {
    v.map_values(|s: String| s@)
}

/// The target triple to build for.
pub fn target_triple(args: &CargoNxBuild) -> (r: String)
    ensures
        r@ == target_spec(args.target),
{
    match &args.target {
        Some(t) => t.clone(),
        None => String::from_str(DEFAULT_TARGET_TRIPLE),
    }
}

/// The arguments of the compiler's build command: the target, the message
/// format, and where asked for the release profile and the package.
pub fn compiler_args(args: &CargoNxBuild) -> (r: Vec<String>)
    ensures
        strings_view(r@) == compiler_args_spec(*args),
{
    let mut v: Vec<String> = Vec::new();
    v.push(String::from_str("build"));
    let target = target_triple(args);
    v.push(String::from_str("--target=").concat(target.as_str()));
    v.push(String::from_str(MESSAGE_FORMAT_FLAG));
    if args.release {
        v.push(String::from_str("--release"));
    }
    match &args.package {
        Some(p) => {
            v.push(String::from_str("--package"));
            v.push(p.clone());
        },
        None => {},
    }
    proof {
        assert(strings_view(v@) =~= compiler_args_spec(*args));
    }
    v
}

/// Where the compiler looks for target definitions: the path already set in
/// the environment, or else the workspace root.
pub fn target_search_path(from_env: Option<String>, workspace_root: String) -> (r: String)
    ensures
        r@ == match from_env {
            Some(p) => p@,
            None => workspace_root@,
        },
{
    match from_env {
        Some(p) => p,
        None => workspace_root,
    }
}

/// The tool's exit code: the compiler's, or the failure code where it is
/// unknown.
pub fn exit_code(status: Option<i32>) -> (r: i32)
    ensures
        r == match status {
            Some(c) => c,
            None => FAILURE_EXIT_CODE,
        },
{
    match status {
        Some(c) => c,
        None => FAILURE_EXIT_CODE,
    }
}

/// The line announcing what a build produces.
pub fn build_banner(directive: &PackagingDirective) -> (r: &'static str)
    ensures
        r@ == match directive {
            PackagingDirective::Plain => "Building..."@,
            PackagingDirective::Nro(_) => "Building and generating NRO..."@,
            PackagingDirective::Nsp(_) => "Building and generating NSP..."@,
        },
{
    match directive {
        PackagingDirective::Plain => "Building...",
        PackagingDirective::Nro(_) => "Building and generating NRO...",
        PackagingDirective::Nsp(_) => "Building and generating NSP...",
    }
}

} // verus!
