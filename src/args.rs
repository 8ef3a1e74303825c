//! The command-line model of the tool, as plain data.
use vstd::prelude::*;

verus! {

/// The Rust editions that a new project may use.
pub open spec fn supported_edition(e: Seq<char>) -> bool {
    e == "2015"@ || e == "2018"@ || e == "2021"@
}

/// Which Rust edition a new project uses by default.
pub const DEFAULT_EDITION: &'static str = "2021";

/// Which package type a new project builds by default.
pub const DEFAULT_PACKAGE_TYPE: &'static str = "nro";

/// Top-level command: the tool runs as the `cargo nx` subcommand.
pub enum Cargo {
    Nx(CargoNxArgs),
}

/// Arguments of `cargo nx`.
pub struct CargoNxArgs {
    pub subcommand: CargoNxSubcommand,
}

/// The subcommands of `cargo nx`.
pub enum CargoNxSubcommand {
    New(CargoNxNew),
    Build(CargoNxBuild),
}

/// Arguments of `cargo nx new`: create a new project.
pub struct CargoNxNew {
    /// The package type that the project builds.
    pub kind: PackageKind,
    /// The Rust edition to use.
    pub edition: String,
    /// The package name; the directory name when absent.
    pub name: Option<String>,
    /// Where the project is created.
    pub path: String,
}

/// Arguments of `cargo nx build`.
pub struct CargoNxBuild {
    /// Build with the release profile.
    pub release: bool,
    /// The directory of the project to build.
    pub path: String,
    /// A target triple that overrides the default one.
    pub target: Option<String>,
    /// The package to build, where the project holds several.
    pub package: Option<String>,
    /// Print extra information while building.
    pub verbose: bool,
}

/// The kinds of package that a project can build.
#[derive(Debug, Clone, Copy, PartialEq, Eq, Structural)]
pub enum PackageKind {
    Lib,
    Nro,
    Nsp,
}

impl PackageKind {
    /// The lower-case name of the kind.
    pub open spec fn spec_name(self) -> Seq<char> {
        match self {
            PackageKind::Lib => "lib"@,
            PackageKind::Nro => "nro"@,
            PackageKind::Nsp => "nsp"@,
        }
    }

    /// The lower-case name of the kind, as shown to users.
    pub fn name(&self) -> (r: &'static str)
        ensures
            r@ == self.spec_name(),
    {
        match self {
            PackageKind::Lib => "lib",
            PackageKind::Nro => "nro",
            PackageKind::Nsp => "nsp",
        }
    }

    /// The lower-case name of the kind, as an owned string.
    pub fn to_string(&self) -> (r: String)
        ensures
            r@ == self.spec_name(),
    {
        String::from_str(self.name())
    }

    /// The kind whose name is `s`, if any.
    pub fn from_name(s: &str) -> (r: Option<PackageKind>)
        ensures
            r matches Some(k) ==> k.spec_name() == s@,
            r is None ==> forall|k: PackageKind| k.spec_name() != s@,
    {
        proof {
            reveal_strlit("lib");
            reveal_strlit("nro");
            reveal_strlit("nsp");
        }
        if str_eq(s, "lib") {
            Some(PackageKind::Lib)
        } else if str_eq(s, "nro") {
            Some(PackageKind::Nro)
        } else if str_eq(s, "nsp") {
            Some(PackageKind::Nsp)
        } else {
            proof {
                assert forall|k: PackageKind| k.spec_name() != s@ by {
                    match k {
                        PackageKind::Lib => {},
                        PackageKind::Nro => {},
                        PackageKind::Nsp => {},
                    }
                }
            }
            None
        }
    }
}

/// Whether two strings hold the same characters.
pub fn str_eq(a: &str, b: &str) -> (r: bool)
    ensures
        r == (a@ == b@),
{
    let n = a.unicode_len();
    if n != b.unicode_len() {
        return false;
    }
    let mut i: usize = 0;
    while i < n
        invariant
            n == a@.len(),
            n == b@.len(),
            i <= n,
            forall|j: int| 0 <= j < i ==> a@[j] == b@[j],
        decreases n - i,
    {
        if a.get_char(i) != b.get_char(i) {
            return false;
        }
        i = i + 1;
    }
    proof {
        assert(a@ =~= b@);
    }
    true
}

/// Whether `e` names a Rust edition that a new project may use.
pub fn is_supported_edition(e: &str) -> (r: bool)
    ensures
        r == supported_edition(e@),
{
    str_eq(e, "2015") || str_eq(e, "2018") || str_eq(e, "2021")
}

} // verus!
