//! The compiler's event stream: decoding each line and deciding what it asks
//! of the tool.
use vstd::prelude::*;
use crate::driver::strings_view;
use crate::paths::{joined, parent_of, plain_extension, with_extension_of, join, parent, set_extension};
use crate::resolve::{ConfigError, NroSpec, NspSpec, PackagingDirective};
use crate::args::str_eq;

verus! {

/// A message of the compiler's event stream, as far as the tool reads it.
pub enum BuildEvent {
    /// An artifact was produced: the kinds of its target and its files.
    Artifact { kinds: Vec<String>, filenames: Vec<String> },
    /// A diagnostic: its rendered text where given, and a description of the
    /// raw message for when it is not.
    Diagnostic { rendered: Option<String>, fallback: String },
    /// Any other message.
    Other,
}

/// A message of the event stream, as values.
pub enum EventModel {
    Artifact { kinds: Seq<Seq<char>>, filenames: Seq<Seq<char>> },
    Diagnostic { rendered: Option<Seq<char>>, fallback: Seq<char> },
    Other,
}

impl View for BuildEvent {
    type V = EventModel;

    open spec fn view(&self) -> EventModel {
        match self {
            BuildEvent::Artifact { kinds, filenames } => EventModel::Artifact {
                kinds: strings_view(kinds@),
                filenames: strings_view(filenames@),
            },
            BuildEvent::Diagnostic { rendered, fallback } => EventModel::Diagnostic {
                rendered: match rendered {
                    Some(t) => Some(t@),
                    None => None,
                },
                fallback: fallback@,
            },
            BuildEvent::Other => EventModel::Other,
        }
    }
}

/// The message that a line of the event stream holds; `None` where the line
/// is no message of a known kind.
pub uninterp spec fn decoded_line(line: Seq<char>) -> Option<EventModel>;

/// Relies on `cargo_metadata::Message`'s JSON decoding (through
/// `serde_json::from_str`): it decodes a line, or fails where the line is no
/// message of a known kind. Only the fields that the tool reads are kept.
#[verifier::external_body]
fn decode_line(line: &str) -> (r: Option<BuildEvent>)
    ensures
        r is Some <==> decoded_line(line@) is Some,
        r matches Some(e) ==> decoded_line(line@) == Some(e@),
{
    match serde_json::from_str::<cargo_metadata::Message>(line) {
        Ok(cargo_metadata::Message::CompilerArtifact(a)) => Some(BuildEvent::Artifact {
            kinds: a.target.kind,
            filenames: a.filenames.into_iter().map(|p| p.into_string()).collect(),
        }),
        Ok(cargo_metadata::Message::CompilerMessage(m)) => Some(BuildEvent::Diagnostic {
            rendered: m.message.rendered.clone(),
            fallback: format!("{:?}", m),
        }),
        Ok(_) => Some(BuildEvent::Other),
        Err(_) => None,
    }
}

/// Why a build run stops.
#[derive(Debug, Clone, PartialEq, Eq)]
pub enum BuildError {
    /// The configuration cannot be built.
    Config(ConfigError),
    /// A line of the event stream could not be decoded.
    MalformedMessage,
    /// An artifact to package declares no output file.
    NoOutputFile,
    /// An artifact's path has no file name or no parent directory.
    BadArtifactPath,
}

/// The packaging of an executable as an NRO.
pub struct NroPlan {
    /// The linked executable.
    pub elf: String,
    /// The package to write.
    pub output: String,
    /// The directory to pack as the RomFS image, if any.
    pub romfs_dir: Option<String>,
    /// The icon to embed.
    pub icon: String,
    /// Whether the default icon is first to be written at `icon`.
    pub write_default_icon: bool,
}

/// Where the process-metadata descriptor of an NSP comes from.
pub enum NpdmSource {
    /// A JSON file at this path.
    File(String),
    /// The descriptor given by value in the package's metadata.
    Inline,
}

/// The packaging of an executable as an NSP.
pub struct NspPlan {
    /// The linked executable.
    pub elf: String,
    /// The staging directory, emptied and made anew.
    pub staging_dir: String,
    /// Where the encoded descriptor is written.
    pub npdm_out: String,
    /// Where the converted executable is written.
    pub exe_out: String,
    /// The package to write.
    pub output: String,
    pub npdm: NpdmSource,
}

/// What one message of the event stream asks of the tool.
pub enum Action {
    /// Nothing.
    Nothing,
    /// Print this text.
    Print(String),
    /// Package an executable as an NRO.
    BuildNro(NroPlan),
    /// Package an executable as an NSP.
    BuildNsp(NspPlan),
}

/// Whether an artifact of these target kinds is packaged: an executable or
/// a dynamic library.
pub open spec fn qualifies(kinds: Seq<Seq<char>>) -> bool {
    kinds.contains("bin"@) || kinds.contains("cdylib"@)
}

/// The paths of an NRO packaging can be derived from the executable's path.
pub open spec fn nro_plannable(elf: Seq<char>, spec: NroSpec) -> bool {
    &&& with_extension_of(elf, "nro"@) is Some
    &&& spec.icon is None ==> with_extension_of(elf, "jpg"@) is Some
}

/// `p` packages the executable `elf` of the package at `root` as `spec` asks:
/// next to the executable, with the icon asked for, or else with the default
/// icon written next to it.
pub open spec fn nro_plan_of(root: Seq<char>, elf: Seq<char>, spec: NroSpec, p: NroPlan) -> bool {
    &&& p.elf@ == elf
    &&& with_extension_of(elf, "nro"@) == Some(p.output@)
    &&& match spec.romfs {
        Some(d) => p.romfs_dir matches Some(r) && r@ == joined(root, d@),
        None => p.romfs_dir is None,
    }
    &&& match spec.icon {
        Some(i) => !p.write_default_icon && p.icon@ == joined(root, i@),
        None => p.write_default_icon && with_extension_of(elf, "jpg"@) == Some(p.icon@),
    }
}

/// The paths of an NSP packaging can be derived from the executable's path.
pub open spec fn nsp_plannable(elf: Seq<char>) -> bool {
    &&& parent_of(elf) is Some
    &&& with_extension_of(elf, "nsp"@) is Some
}

/// `p` packages the executable `elf` of the package at `root` as `spec` asks:
/// staged in a directory `exefs` beside the executable, with the descriptor
/// read from the file where one is named, and else the one given by value.
pub open spec fn nsp_plan_of(root: Seq<char>, elf: Seq<char>, spec: NspSpec, p: NspPlan) -> bool {
    &&& p.elf@ == elf
    &&& parent_of(elf) matches Some(dir) && p.staging_dir@ == joined(dir, "exefs"@)
    &&& p.npdm_out@ == joined(p.staging_dir@, "main.npdm"@)
    &&& p.exe_out@ == joined(p.staging_dir@, "main"@)
    &&& with_extension_of(elf, "nsp"@) == Some(p.output@)
    &&& match spec.npdm_json {
        Some(j) => p.npdm matches NpdmSource::File(f) && f@ == joined(root, j@),
        None => spec.has_npdm && p.npdm is Inline,
    }
}

/// Whether `r` is what an artifact with output `elf` asks for under
/// `directive`.
pub open spec fn packages_as(
    root: Seq<char>,
    elf: Seq<char>,
    directive: PackagingDirective,
    r: Result<Action, BuildError>,
) -> bool {
    match directive {
        PackagingDirective::Plain => r matches Ok(Action::Nothing),
        PackagingDirective::Nro(s) => if nro_plannable(elf, s) {
            r matches Ok(Action::BuildNro(p)) && nro_plan_of(root, elf, s, p)
        } else {
            r == Err::<Action, BuildError>(BuildError::BadArtifactPath)
        },
        PackagingDirective::Nsp(s) => if s.npdm_json is None && !s.has_npdm {
            r == Err::<Action, BuildError>(BuildError::Config(ConfigError::NoProcessMetadata))
        } else if nsp_plannable(elf) {
            r matches Ok(Action::BuildNsp(p)) && nsp_plan_of(root, elf, s, p)
        } else {
            r == Err::<Action, BuildError>(BuildError::BadArtifactPath)
        },
    }
}

/// Whether `r` is what the message `e` asks for, in a build of the package
/// at `root` under `directive`.
pub open spec fn dispatches(
    root: Seq<char>,
    directive: PackagingDirective,
    e: EventModel,
    r: Result<Action, BuildError>,
) -> bool {
    match e {
        EventModel::Artifact { kinds, filenames } => if !qualifies(kinds) || directive is Plain {
            r matches Ok(Action::Nothing)
        } else if filenames.len() == 0 {
            r == Err::<Action, BuildError>(BuildError::NoOutputFile)
        } else {
            packages_as(root, filenames[0], directive, r)
        },
        EventModel::Diagnostic { rendered, fallback } => r matches Ok(Action::Print(t)) && t@
            == match rendered {
            Some(s) => s,
            None => fallback,
        },
        EventModel::Other => r matches Ok(Action::Nothing),
    }
}

/// Whether `r` is what the line `line` of the event stream asks for: a line
/// that holds no known message stops the run.
pub open spec fn handles(
    root: Seq<char>,
    directive: PackagingDirective,
    line: Seq<char>,
    r: Result<Action, BuildError>,
) -> bool {
    match decoded_line(line) {
        None => r == Err::<Action, BuildError>(BuildError::MalformedMessage),
        Some(e) => dispatches(root, directive, e, r),
    }
}

/// Whether the target kinds name an executable or a dynamic library.
pub fn is_qualifying(kinds: &Vec<String>) -> (r: bool)
    ensures
        r == qualifies(strings_view(kinds@)),
{
    let mut i: usize = 0;
    while i < kinds.len()
        invariant
            i <= kinds@.len(),
            forall|j: int| 0 <= j < i ==> kinds@[j]@ != "bin"@ && kinds@[j]@ != "cdylib"@,
        decreases kinds@.len() - i,
    {
        if str_eq(kinds[i].as_str(), "bin") || str_eq(kinds[i].as_str(), "cdylib") {
            proof {
                assert(strings_view(kinds@)[i as int] == kinds@[i as int]@);
            }
            return true;
        }
        i = i + 1;
    }
    proof {
        let v = strings_view(kinds@);
        assert(!v.contains("bin"@)) by {
            if v.contains("bin"@) {
                let k = choose|k: int| 0 <= k < v.len() && v[k] == "bin"@;
                assert(kinds@[k]@ == v[k]);
            }
        }
        assert(!v.contains("cdylib"@)) by {
            if v.contains("cdylib"@) {
                let k = choose|k: int| 0 <= k < v.len() && v[k] == "cdylib"@;
                assert(kinds@[k]@ == v[k]);
            }
        }
    }
    false
}

/// The NRO packaging of the executable `elf` of the package at `root`.
pub fn plan_nro(root: &str, elf: &str, spec: &NroSpec) -> (r: Result<NroPlan, BuildError>)
    ensures
        r is Ok <==> nro_plannable(elf@, *spec),
        r matches Ok(p) ==> nro_plan_of(root@, elf@, *spec, p),
        r matches Err(e) ==> e == BuildError::BadArtifactPath,
{
    proof {
        reveal_strlit("nro");
        reveal_strlit("jpg");
    }
    let output = match set_extension(elf, "nro") {
        Some(o) => o,
        None => return Err(BuildError::BadArtifactPath),
    };
    let romfs_dir = match &spec.romfs {
        Some(d) => Some(join(root, d.as_str())),
        None => None,
    };
    let (icon, write_default_icon) = match &spec.icon {
        Some(i) => (join(root, i.as_str()), false),
        None => match set_extension(elf, "jpg") {
            Some(t) => (t, true),
            None => return Err(BuildError::BadArtifactPath),
        },
    };
    Ok(NroPlan { elf: String::from_str(elf), output, romfs_dir, icon, write_default_icon })
}

/// The NSP packaging of the executable `elf` of the package at `root`. A
/// descriptor named by file wins over one given by value; with neither, it
/// fails before any path is derived.
pub fn plan_nsp(root: &str, elf: &str, spec: &NspSpec) -> (r: Result<NspPlan, BuildError>)
    ensures
        spec.npdm_json is None && !spec.has_npdm ==> r == Err::<NspPlan, BuildError>(
            BuildError::Config(ConfigError::NoProcessMetadata),
        ),
        spec.npdm_json is Some || spec.has_npdm ==> {
            &&& r is Ok <==> nsp_plannable(elf@)
            &&& r matches Ok(p) ==> nsp_plan_of(root@, elf@, *spec, p)
            &&& r matches Err(e) ==> e == BuildError::BadArtifactPath
        },
{
    proof {
        reveal_strlit("nsp");
    }
    let npdm = match &spec.npdm_json {
        Some(j) => NpdmSource::File(join(root, j.as_str())),
        None => if spec.has_npdm {
            NpdmSource::Inline
        } else {
            return Err(BuildError::Config(ConfigError::NoProcessMetadata));
        },
    };
    let dir = match parent(elf) {
        Some(d) => d,
        None => return Err(BuildError::BadArtifactPath),
    };
    let output = match set_extension(elf, "nsp") {
        Some(o) => o,
        None => return Err(BuildError::BadArtifactPath),
    };
    let staging_dir = join(dir.as_str(), "exefs");
    let npdm_out = join(staging_dir.as_str(), "main.npdm");
    let exe_out = join(staging_dir.as_str(), "main");
    Ok(NspPlan { elf: String::from_str(elf), staging_dir, npdm_out, exe_out, output, npdm })
}

/// What the packaging directive asks for an artifact whose output is `elf`.
pub fn package_artifact(root: &str, elf: &str, directive: &PackagingDirective) -> (r: Result<
    Action,
    BuildError,
>)
    ensures
        packages_as(root@, elf@, *directive, r),
{
    match directive {
        PackagingDirective::Plain => Ok(Action::Nothing),
        PackagingDirective::Nro(s) => match plan_nro(root, elf, s) {
            Ok(p) => Ok(Action::BuildNro(p)),
            Err(e) => Err(e),
        },
        PackagingDirective::Nsp(s) => match plan_nsp(root, elf, s) {
            Ok(p) => Ok(Action::BuildNsp(p)),
            Err(e) => Err(e),
        },
    }
}

/// What a message of the event stream asks of the tool: a qualifying
/// artifact is packaged as the directive says, a diagnostic is printed, and
/// anything else is passed over.
pub fn dispatch(root: &str, directive: &PackagingDirective, event: BuildEvent) -> (r: Result<
    Action,
    BuildError,
>)
    ensures
        dispatches(root@, *directive, event@, r),
{
    match event {
        BuildEvent::Artifact { kinds, filenames } => {
            if !is_qualifying(&kinds) || directive.is_plain() {
                Ok(Action::Nothing)
            } else if filenames.len() == 0 {
                Err(BuildError::NoOutputFile)
            } else {
                proof {
                    assert(strings_view(filenames@)[0] == filenames@[0]@);
                }
                package_artifact(root, filenames[0].as_str(), directive)
            }
        },
        BuildEvent::Diagnostic { rendered, fallback } => match rendered {
            Some(t) => Ok(Action::Print(t)),
            None => Ok(Action::Print(fallback)),
        },
        BuildEvent::Other => Ok(Action::Nothing),
    }
}

/// What a line of the event stream asks of the tool, in a build of the
/// package at `root` under `directive`. A line that holds no known message
/// stops the run.
pub fn handle_line(root: &str, directive: &PackagingDirective, line: &str) -> (r: Result<
    Action,
    BuildError,
>)
    ensures
        handles(root@, *directive, line@, r),
{
    match decode_line(line) {
        Some(e) => dispatch(root, directive, e),
        None => Err(BuildError::MalformedMessage),
    }
}

/// An artifact packaged as an NRO with no icon asked for embeds the
/// default icon, first written beside the executable with the extension
/// `jpg`.
pub proof fn lemma_nro_default_icon(
    root: Seq<char>,
    spec: NroSpec,
    kinds: Seq<Seq<char>>,
    filenames: Seq<Seq<char>>,
    r: Result<Action, BuildError>,
)
    requires
        spec.icon is None,
        qualifies(kinds),
        filenames.len() > 0,
        nro_plannable(filenames[0], spec),
        dispatches(
            root,
            PackagingDirective::Nro(spec),
            EventModel::Artifact { kinds, filenames },
            r,
        ),
    ensures
        r matches Ok(Action::BuildNro(p)) && p.write_default_icon && with_extension_of(
            filenames[0],
            "jpg"@,
        ) == Some(p.icon@),
{
}

/// An artifact packaged as an NRO with an icon asked for embeds that icon,
/// and no default icon is written.
pub proof fn lemma_nro_given_icon(
    root: Seq<char>,
    spec: NroSpec,
    kinds: Seq<Seq<char>>,
    filenames: Seq<Seq<char>>,
    r: Result<Action, BuildError>,
)
    requires
        spec.icon is Some,
        qualifies(kinds),
        filenames.len() > 0,
        nro_plannable(filenames[0], spec),
        dispatches(
            root,
            PackagingDirective::Nro(spec),
            EventModel::Artifact { kinds, filenames },
            r,
        ),
    ensures
        r matches Ok(Action::BuildNro(p)) && !p.write_default_icon && p.icon@ == joined(
            root,
            spec.icon->Some_0@,
        ),
{
}

/// Where an NSP's descriptor is named by file, that file is read, whether or
/// not one is also given by value.
pub proof fn lemma_nsp_file_descriptor_wins(
    root: Seq<char>,
    spec: NspSpec,
    kinds: Seq<Seq<char>>,
    filenames: Seq<Seq<char>>,
    r: Result<Action, BuildError>,
)
    requires
        spec.npdm_json is Some,
        qualifies(kinds),
        filenames.len() > 0,
        nsp_plannable(filenames[0]),
        dispatches(
            root,
            PackagingDirective::Nsp(spec),
            EventModel::Artifact { kinds, filenames },
            r,
        ),
    ensures
        r matches Ok(Action::BuildNsp(p)) && p.npdm matches NpdmSource::File(f) && f@ == joined(
            root,
            spec.npdm_json->Some_0@,
        ),
{
}

/// An NSP with no process-metadata descriptor fails, and nothing is packaged.
pub proof fn lemma_nsp_without_descriptor_fails(
    root: Seq<char>,
    spec: NspSpec,
    kinds: Seq<Seq<char>>,
    filenames: Seq<Seq<char>>,
    r: Result<Action, BuildError>,
)
    requires
        spec.npdm_json is None,
        !spec.has_npdm,
        qualifies(kinds),
        filenames.len() > 0,
        dispatches(
            root,
            PackagingDirective::Nsp(spec),
            EventModel::Artifact { kinds, filenames },
            r,
        ),
    ensures
        r == Err::<Action, BuildError>(BuildError::Config(ConfigError::NoProcessMetadata)),
{
}

/// Under a directive with no packaging, no line that decodes stops the run
/// or asks for packaging: the run ends with the compiler's own exit code.
pub proof fn lemma_plain_never_packages(
    root: Seq<char>,
    line: Seq<char>,
    r: Result<Action, BuildError>,
)
    requires
        decoded_line(line) is Some,
        handles(root, PackagingDirective::Plain, line, r),
    ensures
        r matches Ok(a) && !(a is BuildNro) && !(a is BuildNsp),
{
}

/// A line that holds no known message stops the run, and nothing is
/// packaged for it.
pub proof fn lemma_malformed_line_aborts(
    root: Seq<char>,
    directive: PackagingDirective,
    line: Seq<char>,
    r: Result<Action, BuildError>,
)
    requires
        decoded_line(line) is None,
        handles(root, directive, line, r),
    ensures
        r == Err::<Action, BuildError>(BuildError::MalformedMessage),
{
}

} // verus!
