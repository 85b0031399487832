//! The parts of a path string that classification and templating read.
//! Each comes from `std::path`; its result is named here, since the
//! platform's path grammar takes pages to state.
use vstd::prelude::*;

verus! {

/// The last component of a path (`Path::file_name`), empty where there is none.
pub uninterp spec fn path_file_name(p: Seq<char>) -> Seq<char>;

/// The path without its last component (`Path::parent`), empty where there is none.
pub uninterp spec fn path_parent(p: Seq<char>) -> Seq<char>;

/// The last component without its extension (`Path::file_stem`), empty where there is none.
pub uninterp spec fn path_file_stem(p: Seq<char>) -> Seq<char>;

/// The extension of the last component (`Path::extension`), empty where there is none.
pub uninterp spec fn path_extension(p: Seq<char>) -> Seq<char>;

/// The path with the extension of its last component removed
/// (`Path::with_extension("")`).
pub uninterp spec fn path_without_extension(p: Seq<char>) -> Seq<char>;

/// `part` appended to `base` as a further component (`Path::join`).
pub uninterp spec fn path_joined(base: Seq<char>, part: Seq<char>) -> Seq<char>;

/// Relies on `std::path::Path::join`: `part` appended to `base` after a
/// separator, or `part` alone where it is absolute.
#[verifier::external_body]
pub(crate) fn join(base: &str, part: &str) -> (r: String)
    ensures
        r@ == path_joined(base@, part@),
{
    std::path::Path::new(base).join(part).to_string_lossy().into_owned()
}

/// Relies on `std::path::Path::file_name`: the final component of the path,
/// `None` (here the empty string) where the path ends in `..` or is a root.
#[verifier::external_body]
pub(crate) fn file_name(p: &str) -> (r: String)
    ensures
        r@ == path_file_name(p@),
{
    match std::path::Path::new(p).file_name() {
        Some(n) => n.to_string_lossy().into_owned(),
        None => String::new(),
    }
}

/// Relies on `std::path::Path::parent`: the path without its final
/// component, `None` (here the empty string) for a root or an empty path.
#[verifier::external_body]
pub(crate) fn parent(p: &str) -> (r: String)
    ensures
        r@ == path_parent(p@),
{
    match std::path::Path::new(p).parent() {
        Some(d) => d.to_string_lossy().into_owned(),
        None => String::new(),
    }
}

/// Relies on `std::path::Path::file_stem`: the final component without the
/// text from its last dot on, `None` (here the empty string) where there is
/// no final component.
#[verifier::external_body]
pub(crate) fn file_stem(p: &str) -> (r: String)
    ensures
        r@ == path_file_stem(p@),
{
    match std::path::Path::new(p).file_stem() {
        Some(s) => s.to_string_lossy().into_owned(),
        None => String::new(),
    }
}

/// Relies on `std::path::Path::extension`: the text after the last dot of
/// the final component, `None` (here the empty string) where there is none.
#[verifier::external_body]
pub(crate) fn extension(p: &str) -> (r: String)
    ensures
        r@ == path_extension(p@),
{
    match std::path::Path::new(p).extension() {
        Some(e) => e.to_string_lossy().into_owned(),
        None => String::new(),
    }
}

/// Relies on `std::path::Path::with_extension` with an empty extension: the
/// path with the extension of its final component removed.
#[verifier::external_body]
pub(crate) fn without_extension(p: &str) -> (r: String)
    ensures
        r@ == path_without_extension(p@),
{
    std::path::Path::new(p).with_extension("").to_string_lossy().into_owned()
}

} // verus!
