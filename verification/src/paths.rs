//! Trusted items for the path operations of camino that the library calls.
//!
//! camino's `Utf8Path` methods delegate to those of `std::path::Path`, so
//! their results follow the path rules of the platform the crate is built
//! for. Each result is named by a spec function of the characters involved;
//! beyond the few facts that the documentation gives (which characters can
//! separate components, what an extension is), no clause states those rules.
use vstd::prelude::*;

verus! {

/// What `Utf8Path::extension` returns for a path of these characters.
pub uninterp spec fn path_extension_of(path: Seq<char>) -> Option<Seq<char>>;

/// What `Utf8Path::file_name` returns for a path of these characters.
pub uninterp spec fn path_file_name_of(path: Seq<char>) -> Option<Seq<char>>;

/// What `Utf8Path::join` returns, as a string, for these two paths.
pub uninterp spec fn path_join_of(base: Seq<char>, rel: Seq<char>) -> Seq<char>;

/// What `Utf8Path::parent` returns for a path of these characters.
pub uninterp spec fn path_parent_of(path: Seq<char>) -> Option<Seq<char>>;

/// What `Utf8Path::is_absolute` returns for a path of these characters.
pub uninterp spec fn path_is_absolute_of(path: Seq<char>) -> bool;

/// What `std::path::is_separator` returns for this character: whether it
/// separates path components on the platform the crate is built for.
pub uninterp spec fn path_separator_char(c: char) -> bool;

/// The extension of a file name as camino documents it: none when the name
/// has no `.`, or begins with `.` and has no other; otherwise what follows
/// the last `.`.
pub open spec fn extension_of_file_name(name: Seq<char>) -> Option<Seq<char>> {
    if exists|k: int| is_last_dot(name, k) {
        let k = choose|k: int| is_last_dot(name, k);
        if k == 0 {
            None
        } else {
            Some(name.skip(k + 1))
        }
    } else {
        None
    }
}

/// Position `k` of `name` holds its last `.`.
pub open spec fn is_last_dot(name: Seq<char>, k: int) -> bool {
    &&& 0 <= k < name.len()
    &&& name[k] == '.'
    &&& forall|j: int| k < j < name.len() ==> name[j] != '.'
}

/// The extension found in the file name of a path, if it has one.
pub open spec fn extension_in_file_name(file_name: Option<Seq<char>>) -> Option<Seq<char>> {
    match file_name {
        Some(n) => extension_of_file_name(n),
        None => None,
    }
}

/// The view of an optional string slice.
pub open spec fn opt_str_view(o: Option<&str>) -> Option<Seq<char>> {
    match o {
        Some(s) => Some(s@),
        None => None,
    }
}

/// The view of an optional string.
pub open spec fn opt_string_view(o: Option<String>) -> Option<Seq<char>> {
    match o {
        Some(s) => Some(s@),
        None => None,
    }
}

/// Calls camino's `Utf8Path::extension` on `path`. The contract claims that
/// the result is the named value for these characters and, as camino's
/// documentation says, the extension of the path's file name (the named
/// value of `Utf8Path::file_name`).
#[verifier::external_body]
pub(crate) fn path_extension(path: &str) -> (r: Option<&str>)
    ensures
        opt_str_view(r) == path_extension_of(path@),
        opt_str_view(r) == extension_in_file_name(path_file_name_of(path@)),
{
    camino::Utf8Path::new(path).extension()
}

/// A character that separates path components: a slash, or a backslash
/// where the platform counts it as a separator.
pub open spec fn separates_components(c: char) -> bool {
    c == '/' || (c == '\\' && path_separator_char(c))
}

/// Calls `std::path::is_separator`. The contract names the result and, as
/// its documentation shows, says that `/` is a separator on every platform
/// and that no character but a slash or a backslash is one on any.
#[verifier::external_body]
pub(crate) fn is_path_separator(c: char) -> (r: bool)
    ensures
        r == path_separator_char(c),
        c == '/' ==> r,
        r ==> (c == '/' || c == '\\'),
{
    std::path::is_separator(c)
}

/// Calls camino's `Utf8Path::file_name` on `path`. The contract claims only
/// that the result is the named value for these characters.
#[verifier::external_body]
pub(crate) fn path_file_name(path: &str) -> (r: Option<&str>)
    ensures
        opt_str_view(r) == path_file_name_of(path@),
{
    camino::Utf8Path::new(path).file_name()
}

/// Calls camino's `Utf8Path::parent` on `path`. The contract claims only
/// that the result is the named value for these characters.
#[verifier::external_body]
pub(crate) fn path_parent(path: &str) -> (r: Option<&str>)
    ensures
        opt_str_view(r) == path_parent_of(path@),
{
    camino::Utf8Path::new(path).parent().map(|p| p.as_str())
}

/// Calls camino's `Utf8Path::join` and returns the joined path as a string.
/// The contract claims only that the result is the named value for these
/// two paths.
#[verifier::external_body]
pub(crate) fn path_join(base: &str, rel: &str) -> (r: String)
    ensures
        r@ == path_join_of(base@, rel@),
{
    camino::Utf8Path::new(base).join(rel).into_string()
}

/// Calls camino's `Utf8Path::is_absolute` on `path`. The contract claims only
/// that the result is the named value for these characters.
#[verifier::external_body]
pub(crate) fn path_is_absolute(path: &str) -> (r: bool)
    ensures
        r == path_is_absolute_of(path@),
{
    camino::Utf8Path::new(path).is_absolute()
}

} // verus!
