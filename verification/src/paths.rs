//! Path queries answered by `std::path`, under the path rules of the
//! platform the crate is built for (separators differ between platforms).

use vstd::prelude::*;

verus! {

/// The file stem of `path` as `std::path::Path::file_stem` reports it.
pub uninterp spec fn path_file_stem(path: Seq<char>) -> Option<Seq<char>>;

/// The extension of `path` as `std::path::Path::extension` reports it.
pub uninterp spec fn path_extension(path: Seq<char>) -> Option<Seq<char>>;

/// How many components `std::path::Path::components` yields for `path`.
pub uninterp spec fn path_component_count(path: Seq<char>) -> nat;

/// The path `std::path::Path::join` makes of `base` and `name`.
pub uninterp spec fn path_join(base: Seq<char>, name: Seq<char>) -> Seq<char>;

/// The path `std::path::Path::with_extension` makes of `path` and `ext`.
pub uninterp spec fn path_with_extension(path: Seq<char>, ext: Seq<char>) -> Seq<char>;

/// Calls `std::path::Path::file_stem` on `path`. Claimed: the result is the
/// stem that function reports, as text; it depends on `path` alone, for the build's platform.
#[verifier::external_body]
pub(crate) fn file_stem(path: &str) -> (stem: Option<String>)
    ensures
        stem.deep_view() == path_file_stem(path@),
{
    std::path::Path::new(path).file_stem().map(|s| s.to_string_lossy().into_owned())
}

/// Calls `std::path::Path::extension` on `path`. Claimed: the result is the
/// extension that function reports, as text; it depends on `path` alone, for the build's platform.
#[verifier::external_body]
pub(crate) fn extension(path: &str) -> (ext: Option<String>)
    ensures
        ext.deep_view() == path_extension(path@),
{
    std::path::Path::new(path).extension().map(|e| e.to_string_lossy().into_owned())
}

/// Calls `std::path::Path::components` and counts them. Claimed: the count
/// depends on `path` alone, for the build's platform.
#[verifier::external_body]
pub(crate) fn component_count(path: &str) -> (n: usize)
    ensures
        n == path_component_count(path@),
{
    std::path::Path::new(path).components().count()
}

/// Calls `std::path::Path::join`. Claimed: the joined path, as text,
/// depends on `base` and `name` alone, for the build's platform.
#[verifier::external_body]
pub(crate) fn join(base: &str, name: &str) -> (p: String)
    ensures
        p@ == path_join(base@, name@),
{
    std::path::Path::new(base).join(name).to_string_lossy().into_owned()
}

/// Whether `s` holds a character that is a path separator on some platform
/// (`/`, and `\\` on Windows).
pub open spec fn has_path_separator(s: Seq<char>) -> bool {
    exists|i: int| 0 <= i < s.len() && (s[i] == '/' || s[i] == '\\')
}

/// Calls `std::path::Path::with_extension`. Claimed: the resulting path, as
/// text, depends on `path` and `ext` alone, for the build's platform. The
/// function panics on an extension holding a path separator, so such an
/// extension is ruled out.
#[verifier::external_body]
pub(crate) fn with_extension(path: &str, ext: &str) -> (p: String)
    requires
        !has_path_separator(ext@),
    ensures
        p@ == path_with_extension(path@, ext@),
{
    std::path::Path::new(path).with_extension(ext).to_string_lossy().into_owned()
}

} // verus!
