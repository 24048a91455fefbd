//! Paths as text: what std's `Path` reads from them, and names built on it.

use crate::file::error::FileError;
use crate::text::{
    texts,contains, contains_text, decimal, decimal_string, starts_with_char};
use vstd::prelude::*;
use vstd::string::*;

verus! {

/// The extension that std's `Path` reads from a path, if it reads one.
pub uninterp spec fn path_extension(path: Seq<char>) -> Option<Seq<char>>;

/// The file stem that std's `Path` reads from a path, if it reads one.
pub uninterp spec fn path_file_stem(path: Seq<char>) -> Option<Seq<char>>;

/// The file name that std's `Path` reads from a path, if it reads one.
pub uninterp spec fn path_file_name(path: Seq<char>) -> Option<Seq<char>>;

/// The parent that std's `Path` reads from a path, if it reads one.
pub uninterp spec fn path_parent(path: Seq<char>) -> Option<Seq<char>>;

/// The path that std's `Path` makes by joining a second path to a first.
pub uninterp spec fn path_joined(base: Seq<char>, relative: Seq<char>) -> Seq<char>;

/// The components that std's `Path` reads from a path, in order.
pub uninterp spec fn path_components(path: Seq<char>) -> Seq<Seq<char>>;

/// Whether std's `Path` reads a path as absolute.
pub uninterp spec fn path_is_absolute(path: Seq<char>) -> bool;

/// Whether std's `Path` reads a second path as a prefix of a first, whole
/// components only.
pub uninterp spec fn path_starts_with(path: Seq<char>, base: Seq<char>) -> bool;

/// Calls `Path::is_absolute` of std on the text of a path. The result is
/// only given the name `path_is_absolute`.
#[verifier::external_body]
pub(crate) fn is_absolute(path: &str) -> (r: bool)
    ensures
        r == path_is_absolute(path@),
{
    std::path::Path::new(path).is_absolute()
}

/// Calls `Path::starts_with` of std on the texts of two paths. The result
/// is only given the name `path_starts_with`.
#[verifier::external_body]
pub(crate) fn is_within(path: &str, base: &str) -> (r: bool)
    ensures
        r == path_starts_with(path@, base@),
{
    std::path::Path::new(path).starts_with(base)
}

/// Calls `Path::extension` of std on the text of a path. The rules by which
/// std splits a path are not spelled out here: the result is only given the
/// name `path_extension`.
#[verifier::external_body]
pub(crate) fn extension_of(path: &str) -> (r: Option<String>)
    ensures
        r is Some == path_extension(path@) is Some,
        r matches Some(extension) ==> path_extension(path@) == Some(extension@),
{
    std::path::Path::new(path).extension().and_then(|e| e.to_str()).map(|e| e.to_string())
}

/// Calls `Path::file_stem` of std on the text of a path. The result is only
/// given the name `path_file_stem`.
#[verifier::external_body]
pub(crate) fn file_stem_of(path: &str) -> (r: Option<String>)
    ensures
        r is Some == path_file_stem(path@) is Some,
        r matches Some(stem) ==> path_file_stem(path@) == Some(stem@),
{
    std::path::Path::new(path).file_stem().and_then(|s| s.to_str()).map(|s| s.to_string())
}

/// Calls `Path::file_name` of std on the text of a path. The result is only
/// given the name `path_file_name`.
#[verifier::external_body]
pub(crate) fn file_name_of(path: &str) -> (r: Option<String>)
    ensures
        r is Some == path_file_name(path@) is Some,
        r matches Some(name) ==> path_file_name(path@) == Some(name@),
{
    std::path::Path::new(path).file_name().and_then(|n| n.to_str()).map(|n| n.to_string())
}

/// Calls `Path::parent` of std on the text of a path. The result is only
/// given the name `path_parent`.
#[verifier::external_body]
pub(crate) fn parent_of(path: &str) -> (r: Option<String>)
    ensures
        r is Some == path_parent(path@) is Some,
        r matches Some(parent) ==> path_parent(path@) == Some(parent@),
{
    std::path::Path::new(path).parent().and_then(|p| p.to_str()).map(|p| p.to_string())
}

/// Calls `Path::join` of std on the texts of two paths. The result is only
/// given the name `path_joined`.
#[verifier::external_body]
pub(crate) fn join_paths(base: &str, relative: &str) -> (r: String)
    ensures
        r@ == path_joined(base@, relative@),
{
    std::path::Path::new(base).join(relative).to_string_lossy().to_string()
}

/// Calls `Path::components` of std on the text of a path and hands each
/// component out as text. The result is only given the name
/// `path_components`.
#[verifier::external_body]
pub(crate) fn components_of(path: &str) -> (r: Vec<String>)
    ensures
        texts(r@) == path_components(path@),
{
    std::path::Path::new(path).components().map(
        |c| c.as_os_str().to_string_lossy().to_string(),
    ).collect()
}

/// Path utilities.
pub struct PathUtils;

/// The name that a path gets with a new extension: the file stem ("file"
/// where the path has none), then the extension behind a dot, unless the
/// extension is empty.
pub open spec fn renamed(path: Seq<char>, new_extension: Seq<char>) -> Seq<char> {
    let stem = match path_file_stem(path) {
        Some(stem) => stem,
        None => "file"@,
    };
    if new_extension.len() == 0 {
        stem
    } else if new_extension[0] == '.' {
        stem + new_extension
    } else {
        stem + "."@ + new_extension
    }
}

/// The directory in which a path's file lies: its parent, or "." where it
/// has none.
pub open spec fn directory_of(path: Seq<char>) -> Seq<char> {
    match path_parent(path) {
        Some(parent) => parent,
        None => "."@,
    }
}

/// Whether a path lies within one of the given directories.
pub open spec fn within_any(path: Seq<char>, roots: Seq<String>) -> bool {
    exists|i: int| 0 <= i < roots.len() && path_starts_with(path, #[trigger] roots[i]@)
}

/// Whether a path may be used: it does not hold "..", and if it is absolute
/// it lies within one of the allowed directories.
pub open spec fn is_safe_within(path: Seq<char>, allowed_roots: Seq<String>) -> bool {
    !contains_text(path, ".."@) && (path_is_absolute(path) ==> within_any(path, allowed_roots))
}

impl PathUtils {
    /// Validates that a path is safe, given the directories that absolute
    /// paths may lie in: fails with `SecurityViolation` exactly when the
    /// path holds "..", or is absolute and lies in none of them.
    pub fn validate_safe_path(path: &str, allowed_roots: &Vec<String>) -> (r: Result<
        (),
        FileError,
    >)
        ensures
            r is Ok == is_safe_within(path@, allowed_roots@),
            r matches Err(e) ==> e is SecurityViolation,
    {
        if contains(path, "..") {
            return Err(FileError::SecurityViolation(String::from_str("Path traversal detected")));
        }
        if is_absolute(path) {
            let mut i: usize = 0;
            while i < allowed_roots.len()
                invariant
                    i <= allowed_roots@.len(),
                    !contains_text(path@, ".."@),
                    forall|j: int|
                        0 <= j < i ==> !path_starts_with(path@, #[trigger] allowed_roots@[j]@),
                decreases allowed_roots@.len() - i,
            {
                if is_within(path, allowed_roots[i].as_str()) {
                    assert(path_starts_with(path@, allowed_roots@[i as int]@));
                    return Ok(());
                }
                i += 1;
            }
            return Err(
                FileError::SecurityViolation(String::from_str("Absolute paths not allowed")),
            );
        }
        Ok(())
    }

    /// Gets the parent directory of a path; fails with `InvalidPath`
    /// exactly when the path has none.
    pub fn get_parent_dir(path: &str) -> (r: Result<String, FileError>)
        ensures
            r is Ok == path_parent(path@) is Some,
            r matches Ok(parent) ==> path_parent(path@) == Some(parent@),
            r matches Err(e) ==> e is InvalidPath,
    {
        match parent_of(path) {
            Some(parent) => Ok(parent),
            None => Err(FileError::InvalidPath(String::from_str("No parent directory"))),
        }
    }

    /// Gets the file name without extension; fails with `InvalidPath`
    /// exactly when the path has none.
    pub fn get_file_stem(path: &str) -> (r: Result<String, FileError>)
        ensures
            r is Ok == path_file_stem(path@) is Some,
            r matches Ok(stem) ==> path_file_stem(path@) == Some(stem@),
            r matches Err(e) ==> e is InvalidPath,
    {
        match file_stem_of(path) {
            Some(stem) => Ok(stem),
            None => Err(FileError::InvalidPath(String::from_str("Cannot extract file stem"))),
        }
    }

    /// Joins a relative path to a base, after validating the relative path
    /// as `validate_safe_path` does.
    pub fn safe_join(base: &str, relative: &str, allowed_roots: &Vec<String>) -> (r: Result<
        String,
        FileError,
    >)
        ensures
            !is_safe_within(relative@, allowed_roots@) ==> (r matches Err(
                FileError::SecurityViolation(_),
            )),
            is_safe_within(relative@, allowed_roots@) ==> (r matches Ok(joined) && joined@
                == path_joined(base@, relative@)),
    {
        match Self::validate_safe_path(relative, allowed_roots) {
            Ok(()) => Ok(join_paths(base, relative)),
            Err(e) => Err(e),
        }
    }

    /// Changes the extension of a file: the new name in the directory of
    /// the old one.
    pub fn change_extension(path: &str, new_extension: &str) -> (r: String)
        ensures
            r@ == path_joined(directory_of(path@), renamed(path@, new_extension@)),
    {
        let stem = match file_stem_of(path) {
            Some(stem) => stem,
            None => String::from_str("file"),
        };
        let parent = match parent_of(path) {
            Some(parent) => parent,
            None => String::from_str("."),
        };
        if new_extension.unicode_len() == 0 {
            join_paths(parent.as_str(), stem.as_str())
        } else {
            let name = if starts_with_char(new_extension, '.') {
                stem.concat(new_extension)
            } else {
                stem.concat(".").concat(new_extension)
            };
            join_paths(parent.as_str(), name.as_str())
        }
    }
}

/// The name of the output file for an input path: the file stem, then the
/// extension behind a dot.
pub open spec fn output_name(stem: Seq<char>, extension: Seq<char>) -> Seq<char> {
    if extension.len() > 0 && extension[0] == '.' {
        stem + extension
    } else {
        stem + "."@ + extension
    }
}

/// Generates the output path for a compressed file: the input's file stem
/// with the output extension, in the output directory if one is given, else
/// beside the input. Fails with `InvalidPath` where no directory is given
/// and the input has no parent, or where the input has no file stem.
pub fn generate_output_path(input_path: &str, output_extension: &str, output_dir: Option<&str>)
    -> (r: Result<String, FileError>)
    ensures
        match (output_dir, path_parent(input_path@), path_file_stem(input_path@)) {
            (Some(dir), _, Some(stem)) => r matches Ok(path) && path@ == path_joined(
                dir@,
                output_name(stem, output_extension@),
            ),
            (None, Some(parent), Some(stem)) => r matches Ok(path) && path@ == path_joined(
                parent,
                output_name(stem, output_extension@),
            ),
            _ => r matches Err(FileError::InvalidPath(_)),
        },
{
    let base_dir = match output_dir {
        Some(dir) => String::from_str(dir),
        None => match PathUtils::get_parent_dir(input_path) {
            Ok(parent) => parent,
            Err(e) => {
                return Err(e);
            },
        },
    };
    let stem = match PathUtils::get_file_stem(input_path) {
        Ok(stem) => stem,
        Err(e) => {
            return Err(e);
        },
    };
    let name = if starts_with_char(output_extension, '.') {
        stem.concat(output_extension)
    } else {
        stem.concat(".").concat(output_extension)
    };
    Ok(join_paths(base_dir.as_str(), name.as_str()))
}

/// The `n`-th name to try for a file whose name is taken: the file stem
/// ("file" where the path has none), the number in brackets, and the
/// extension, if any, behind a dot.
pub open spec fn numbered_name(path: Seq<char>, n: u32) -> Seq<char> {
    let stem = match path_file_stem(path) {
        Some(stem) => stem,
        None => "file"@,
    };
    let numbered = stem + " ("@ + decimal(n as nat) + ")"@;
    match path_extension(path) {
        Some(extension) => numbered + "."@ + extension,
        None => numbered,
    }
}

/// The `n`-th path to try for a file whose name is taken.
pub fn numbered_candidate(path: &str, n: u32) -> (r: String)
    ensures
        r@ == path_joined(directory_of(path@), numbered_name(path@, n)),
{
    let stem = match file_stem_of(path) {
        Some(stem) => stem,
        None => String::from_str("file"),
    };
    let parent = match parent_of(path) {
        Some(parent) => parent,
        None => String::from_str("."),
    };
    let number = decimal_string(n as u64);
    let numbered = stem.concat(" (").concat(number.as_str()).concat(")");
    let name = match extension_of(path) {
        Some(extension) => numbered.concat(".").concat(extension.as_str()),
        None => numbered,
    };
    join_paths(parent.as_str(), name.as_str())
}

} // verus!
