//! Checks that a path stays inside an allowed base directory.
use vstd::prelude::*;

use crate::paths::{is_path_separator, separates_components};
use crate::text::{chars_of, has_double_dot, has_double_dot_from, starts_with_chars};

verus! {

/// Why a path was refused.
#[derive(Debug)]
pub enum PathError {
    /// The path does not begin with the base directory as whole components.
    OutsideBase { path: String, base: String },
    /// After the base directory the path holds `..`.
    Traversal { path: String },
}

/// Where `base` stops inside `path`, a component ends: the base is empty,
/// is the whole path, ends with a separator, or is followed by one.
pub open spec fn ends_at_component(path: Seq<char>, base: Seq<char>) -> bool {
    ||| base.len() == 0
    ||| path.len() == base.len()
    ||| separates_components(base.last())
    ||| (base.len() < path.len() && separates_components(path[base.len() as int]))
}

/// The path begins with the base directory as whole components.
pub open spec fn starts_with_base(path: Seq<char>, base: Seq<char>) -> bool {
    base.is_prefix_of(path) && ends_at_component(path, base)
}

/// A path is accepted against a base directory when it begins with the
/// base as whole components and the part after the base holds no `..`.
pub open spec fn path_within_base(path: Seq<char>, base: Seq<char>) -> bool {
    starts_with_base(path, base) && !has_double_dot(path.skip(base.len() as int))
}

/// Law: a path made of the base directory, a separator, and any text
/// without a `.` lies within the base.
pub proof fn lemma_dot_free_suffix_within_base(base: Seq<char>, suffix: Seq<char>)
    requires
        suffix.len() > 0,
        separates_components(suffix[0]),
        forall|i: int| 0 <= i < suffix.len() ==> suffix[i] != '.',
    ensures
        path_within_base(base + suffix, base),
{
    assert((base + suffix).subrange(0, base.len() as int) =~= base);
    assert((base + suffix).skip(base.len() as int) =~= suffix);
    assert((base + suffix)[base.len() as int] == suffix[0]);
}

/// Law: a sibling whose name merely extends the base's last name lies
/// outside the base: after a non-empty base that does not end with a
/// separator, a character that is not a separator puts the path outside.
pub proof fn lemma_longer_name_outside_base(base: Seq<char>, c: char, rest: Seq<char>)
    requires
        base.len() > 0,
        !separates_components(base.last()),
        !separates_components(c),
    ensures
        !path_within_base(base.push(c) + rest, base),
{
    assert((base.push(c) + rest)[base.len() as int] == c);
}

impl PathError {
    /// The message that describes the refusal.
    pub fn message(&self) -> (m: String)
        ensures
            m@ == match self {
                PathError::OutsideBase { path, base } => "Path '"@ + path@
                    + "' is outside the allowed base directory '"@ + base@ + "'"@,
                PathError::Traversal { path } => "Path '"@ + path@
                    + "' contains path traversal which is not allowed"@,
            },
    {
        match self {
            PathError::OutsideBase { path, base } => {
                let mut m = String::from_str("Path '");
                m.append(path.as_str());
                m.append("' is outside the allowed base directory '");
                m.append(base.as_str());
                m.append("'");
                m
            },
            PathError::Traversal { path } => {
                let mut m = String::from_str("Path '");
                m.append(path.as_str());
                m.append("' contains path traversal which is not allowed");
                m
            },
        }
    }
}

/// Whether the characters `p` begin with the characters `b` as whole
/// components.
fn begins_with_base(p: &Vec<char>, b: &Vec<char>) -> (r: bool)
    ensures
        r == starts_with_base(p@, b@),
{
    let at_component = b.len() == 0 || p.len() == b.len() || (p.len() > b.len() && (
    is_path_separator(b[b.len() - 1]) || is_path_separator(p[b.len()])));
    starts_with_chars(p, b) && at_component
}

/// Validates that `path` lies within `base_dir`: it must begin with the
/// base directory as whole components, and the rest of it must hold no `..`.
pub fn validate_path_within_base(path: &str, base_dir: &str) -> (r: Result<String, PathError>)
    ensures
        match r {
            Ok(p) => p@ == path@ && path_within_base(path@, base_dir@),
            Err(PathError::OutsideBase { path: p, base: b }) => p@ == path@ && b@ == base_dir@
                && !starts_with_base(path@, base_dir@),
            Err(PathError::Traversal { path: p }) => p@ == path@ && starts_with_base(
                path@,
                base_dir@,
            ) && has_double_dot(path@.skip(base_dir@.len() as int)),
        },
        r is Ok <==> path_within_base(path@, base_dir@),
{
    let p = chars_of(path);
    let b = chars_of(base_dir);
    if !begins_with_base(&p, &b) {
        return Err(PathError::OutsideBase { path: path.to_owned(), base: base_dir.to_owned() });
    }
    if has_double_dot_from(&p, b.len()) {
        return Err(PathError::Traversal { path: path.to_owned() });
    }
    Ok(path.to_owned())
}

/// Whether a move's destination lies outside the Downloads directory, that
/// is, does not begin with it as whole components; such a move is allowed,
/// with a warning.
pub fn destination_outside(destination_path: &str, downloads_dir: &str) -> (b: bool)
    ensures
        b == !starts_with_base(destination_path@, downloads_dir@),
{
    let p = chars_of(destination_path);
    let d = chars_of(downloads_dir);
    !begins_with_base(&p, &d)
}

/// Validates a move before it is made: the source must lie within the
/// Downloads directory. The destination may lie anywhere; whether it lies
/// outside Downloads, and so deserves a warning, is `destination_outside`.
pub fn validate_destination_path(
    source_path: &str,
    destination_path: &str,
    downloads_dir: &str,
) -> (r: Result<(), PathError>)
    ensures
        r is Ok <==> path_within_base(source_path@, downloads_dir@),
        match r {
            Ok(_) => true,
            Err(PathError::OutsideBase { path: p, base: b }) => p@ == source_path@ && b@
                == downloads_dir@ && !starts_with_base(source_path@, downloads_dir@),
            Err(PathError::Traversal { path: p }) => p@ == source_path@ && starts_with_base(
                source_path@,
                downloads_dir@,
            ) && has_double_dot(
                source_path@.skip(downloads_dir@.len() as int),
            ),
        },
{
    match validate_path_within_base(source_path, downloads_dir) {
        Ok(_) => Ok(()),
        Err(e) => Err(e),
    }
}

} // verus!
