//! Path computations, carried out by `std::path`.
use vstd::prelude::*;

verus! {

/// The path `p` with its extension replaced by `ext`; `None` where `p` has no
/// file name.
pub uninterp spec fn with_extension_of(p: Seq<char>, ext: Seq<char>) -> Option<Seq<char>>;

/// The path `rel` taken relative to `base` (`rel` itself where it is absolute).
pub uninterp spec fn joined(base: Seq<char>, rel: Seq<char>) -> Seq<char>;

/// The directory that holds `p`; `None` where `p` is a root or empty.
pub uninterp spec fn parent_of(p: Seq<char>) -> Option<Seq<char>>;

/// An extension holds no path separator.
pub open spec fn plain_extension(ext: Seq<char>) -> bool {
    forall|i: int| 0 <= i < ext.len() ==> ext[i] != '/' && ext[i] != '\\'
}

/// Relies on `PathBuf::set_extension`: it replaces the extension, and reports
/// `false`, changing nothing, where the path has no file name. It panics on an
/// extension that holds a separator, which `requires` leaves out.
#[verifier::external_body]
pub(crate) fn set_extension(p: &str, ext: &str) -> (r: Option<String>)
    requires
        plain_extension(ext@),
    ensures
        r is Some <==> with_extension_of(p@, ext@) is Some,
        r matches Some(s) ==> with_extension_of(p@, ext@) == Some(s@),
{
    let mut b = std::path::PathBuf::from(p);
    match b.set_extension(ext) {
        true => Some(b.to_string_lossy().into_owned()),
        false => None,
    }
}

/// Relies on `Path::join`: `rel` appended to `base` as a path.
#[verifier::external_body]
pub(crate) fn join(base: &str, rel: &str) -> (r: String)
    ensures
        r@ == joined(base@, rel@),
{
    std::path::Path::new(base).join(rel).to_string_lossy().into_owned()
}

/// Relies on `Path::parent`: the path without its last component.
#[verifier::external_body]
pub(crate) fn parent(p: &str) -> (r: Option<String>)
    ensures
        r is Some <==> parent_of(p@) is Some,
        r matches Some(s) ==> parent_of(p@) == Some(s@),
{
    match std::path::Path::new(p).parent() {
        Some(q) => Some(q.to_string_lossy().into_owned()),
        None => None,
    }
}

} // verus!
