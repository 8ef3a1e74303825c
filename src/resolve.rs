//! Selecting the package to build and reading its packaging directive.
use vstd::prelude::*;

verus! {

/// Why the project's configuration cannot be built.
#[derive(Debug, Clone, Copy, PartialEq, Eq, Structural)]
pub enum ConfigError {
    /// The requested package is not in the project.
    PackageNotFound,
    /// The project holds several packages and none was requested.
    AmbiguousPackage,
    /// The project holds no package.
    NoPackage,
    /// The package asks for both an NRO and an NSP.
    ConflictingFormats,
    /// An NSP is asked for without a process-metadata descriptor.
    NoProcessMetadata,
}

/// What the `nx.nro` table of a package asks for.
pub struct NroSpec {
    /// A directory to pack as the RomFS image, relative to the package.
    pub romfs: Option<String>,
    /// An icon file, relative to the package.
    pub icon: Option<String>,
}

/// What the `nx.nsp` table of a package asks for.
pub struct NspSpec {
    /// A file holding the process-metadata descriptor as JSON, relative to
    /// the package.
    pub npdm_json: Option<String>,
    /// Whether the table holds the descriptor by value.
    pub has_npdm: bool,
}

/// How the executables of a package are packaged.
pub enum PackagingDirective {
    /// The compiler's output is the result.
    Plain,
    Nro(NroSpec),
    Nsp(NspSpec),
}

/// A package of the project, as the metadata describes it.
pub struct PackageEntry {
    pub name: String,
    /// The directory of the package's manifest.
    pub manifest_dir: String,
    /// The `nx.nro` table, where present.
    pub nro: Option<NroSpec>,
    /// The `nx.nsp` table, where present.
    pub nsp: Option<NspSpec>,
}

/// The package chosen for the build.
pub struct Selection {
    /// Its position among the project's packages.
    pub index: usize,
    /// The directory of its manifest.
    pub manifest_dir: String,
    pub directive: PackagingDirective,
}

/// The directive of a package with the given tables: at most one may be
/// present.
pub open spec fn directive_spec(nro: Option<NroSpec>, nsp: Option<NspSpec>) -> Result<
    PackagingDirective,
    ConfigError,
> {
    match (nro, nsp) {
        (Some(_), Some(_)) => Err(ConfigError::ConflictingFormats),
        (Some(n), None) => Ok(PackagingDirective::Nro(n)),
        (None, Some(p)) => Ok(PackagingDirective::Nsp(p)),
        (None, None) => Ok(PackagingDirective::Plain),
    }
}

/// Whether `i` is the first position of a package named `name`.
pub open spec fn first_named(packages: Seq<PackageEntry>, name: Seq<char>, i: int) -> bool {
    &&& 0 <= i < packages.len()
    &&& packages[i].name@ == name
    &&& forall|j: int| 0 <= j < i ==> packages[j].name@ != name
}

/// Whether `r` is the outcome of selecting a package: the first one named
/// as requested, or the only one where no name is requested.
pub open spec fn selects(
    packages: Seq<PackageEntry>,
    requested: Option<Seq<char>>,
    r: Result<int, ConfigError>,
) -> bool {
    match requested {
        Some(name) => match r {
            Ok(i) => first_named(packages, name, i),
            Err(e) => e == ConfigError::PackageNotFound && forall|j: int|
                0 <= j < packages.len() ==> packages[j].name@ != name,
        },
        None => r == if packages.len() == 1 {
            Ok(0int)
        } else if packages.len() == 0 {
            Err(ConfigError::NoPackage)
        } else {
            Err(ConfigError::AmbiguousPackage)
        },
    }
}

/// The requested name, as a sequence of characters.
pub open spec fn requested_view(requested: Option<String>) -> Option<Seq<char>> {
    match requested {
        Some(s) => Some(s@),
        None => None,
    }
}

impl PackagingDirective {
    /// Whether the compiler's output is the result, with no packaging.
    pub fn is_plain(&self) -> (r: bool)
        ensures
            r == self is Plain,
    {
        match self {
            PackagingDirective::Plain => true,
            _ => false,
        }
    }

    /// The directive of a package from its `nx.nro` and `nx.nsp` tables.
    pub fn from_tables(nro: Option<NroSpec>, nsp: Option<NspSpec>) -> (r: Result<
        PackagingDirective,
        ConfigError,
    >)
        ensures
            r == directive_spec(nro, nsp),
    {
        match (nro, nsp) {
            (Some(_), Some(_)) => Err(ConfigError::ConflictingFormats),
            (Some(n), None) => Ok(PackagingDirective::Nro(n)),
            (None, Some(p)) => Ok(PackagingDirective::Nsp(p)),
            (None, None) => Ok(PackagingDirective::Plain),
        }
    }
}

/// The position of the first package named `name`, if any.
pub fn find_package(packages: &Vec<PackageEntry>, name: &String) -> (r: Option<usize>)
    ensures
        r matches Some(i) ==> first_named(packages@, name@, i as int),
        r is None ==> forall|j: int| 0 <= j < packages@.len() ==> packages@[j].name@ != name@,
{
    let mut i: usize = 0;
    while i < packages.len()
        invariant
            i <= packages@.len(),
            forall|j: int| 0 <= j < i ==> packages@[j].name@ != name@,
        decreases packages@.len() - i,
    {
        if packages[i].name == *name {
            return Some(i);
        }
        i = i + 1;
    }
    None
}

/// The position of the package to build: the one named `requested`, or the
/// only one where none is requested.
pub fn select_package(packages: &Vec<PackageEntry>, requested: &Option<String>) -> (r: Result<
    usize,
    ConfigError,
>)
    ensures
        selects(
            packages@,
            requested_view(*requested),
            match r {
                Ok(i) => Ok(i as int),
                Err(e) => Err(e),
            },
        ),
{
    match requested {
        Some(name) => match find_package(packages, name) {
            Some(i) => {
                Ok(i)
            },
            None => Err(ConfigError::PackageNotFound),
        },
        None => if packages.len() == 1 {
            Ok(0)
        } else if packages.len() == 0 {
            Err(ConfigError::NoPackage)
        } else {
            Err(ConfigError::AmbiguousPackage)
        },
    }
}

/// Whether `r` is the outcome of resolving the package to build: the
/// selected package with its directive, or why there is none.
pub open spec fn resolution(
    packages: Seq<PackageEntry>,
    requested: Option<Seq<char>>,
    r: Result<Selection, ConfigError>,
) -> bool {
    match r {
        Ok(s) => {
            let i = s.index as int;
            &&& selects(packages, requested, Ok(i))
            &&& directive_spec(packages[i].nro, packages[i].nsp) == Ok::<
                PackagingDirective,
                ConfigError,
            >(s.directive)
            &&& s.manifest_dir == packages[i].manifest_dir
        },
        Err(e) => selects(packages, requested, Err(e)) || exists|i: int|
            selects(packages, requested, Ok(i)) && directive_spec(packages[i].nro, packages[i].nsp)
                == Err::<PackagingDirective, ConfigError>(e),
    }
}

/// Selects the package to build and reads its packaging directive. Nothing
/// is built when this fails.
pub fn resolve(packages: Vec<PackageEntry>, requested: &Option<String>) -> (r: Result<
    Selection,
    ConfigError,
>)
    ensures
        resolution(packages@, requested_view(*requested), r),
{
    let mut packages = packages;
    let i = match select_package(&packages, requested) {
        Ok(i) => i,
        Err(e) => return Err(e),
    };
    let entry = packages.remove(i);
    match PackagingDirective::from_tables(entry.nro, entry.nsp) {
        Ok(d) => Ok(Selection { index: i, manifest_dir: entry.manifest_dir, directive: d }),
        Err(e) => Err(e),
    }
}

/// At most one package is selected, and never both one and an error.
pub proof fn lemma_selection_unique(
    packages: Seq<PackageEntry>,
    requested: Option<Seq<char>>,
    i: int,
    r: Result<int, ConfigError>,
)
    requires
        selects(packages, requested, Ok(i)),
        selects(packages, requested, r),
    ensures
        r == Ok::<int, ConfigError>(i),
{
    if let Some(name) = requested {
        if let Ok(k) = r {
            if k < i {
                assert(packages[k].name@ != name);
            }
            if i < k {
                assert(packages[i].name@ != name);
            }
        } else {
            assert(packages[i].name@ != name);
        }
    }
}

/// A package whose metadata asks for both an NRO and an NSP is refused as a
/// conflict, before anything is built.
pub proof fn lemma_conflicting_formats_rejected(
    packages: Seq<PackageEntry>,
    requested: Option<Seq<char>>,
    i: int,
    r: Result<Selection, ConfigError>,
)
    requires
        selects(packages, requested, Ok(i)),
        packages[i].nro is Some,
        packages[i].nsp is Some,
        resolution(packages, requested, r),
    ensures
        r == Err::<Selection, ConfigError>(ConfigError::ConflictingFormats),
{
    match r {
        Ok(s) => {
            lemma_selection_unique(packages, requested, i, Ok(s.index as int));
        },
        Err(e) => {
            if selects(packages, requested, Err(e)) {
                lemma_selection_unique(packages, requested, i, Err(e));
            } else {
                let k = choose|k: int|
                    selects(packages, requested, Ok(k)) && directive_spec(
                        packages[k].nro,
                        packages[k].nsp,
                    ) == Err::<PackagingDirective, ConfigError>(e);
                lemma_selection_unique(packages, requested, i, Ok(k));
            }
        },
    }
}

/// With several packages and none requested, resolution fails: the choice
/// is never made for the user.
pub proof fn lemma_ambiguous_selection_rejected(
    packages: Seq<PackageEntry>,
    r: Result<Selection, ConfigError>,
)
    requires
        packages.len() > 1,
        resolution(packages, None, r),
    ensures
        r == Err::<Selection, ConfigError>(ConfigError::AmbiguousPackage),
{
    if let Err(e) = r {
        if !selects(packages, None, Err(e)) {
            let k = choose|k: int|
                selects(packages, None, Ok(k)) && directive_spec(packages[k].nro, packages[k].nsp)
                    == Err::<PackagingDirective, ConfigError>(e);
        }
    }
}

} // verus!
