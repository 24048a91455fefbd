//! What a file operation did, and the names that operations give to files.

use crate::file::error::FileError;
use crate::file::path::{
    directory_of, extension_of, file_name_of, file_stem_of, join_paths, numbered_candidate,
    numbered_name, parent_of, path_extension, path_file_name, path_file_stem, path_joined,
    path_parent, PathUtils,
};
use crate::shared::strings::formatted_now;
use crate::text::{contains, contains_text, str_eq};
use vstd::prelude::*;
use vstd::string::*;

verus! {

/// Kind of a file operation.
#[derive(Debug, Clone, Copy, PartialEq, Eq, Structural)]
pub enum OperationType {
    Read,
    Write,
    Copy,
    Move,
    Delete,
}

/// File operation result.
#[derive(Debug, Clone)]
pub struct FileOperation {
    pub source_path: String,
    pub target_path: String,
    pub operation_type: OperationType,
    pub bytes_processed: u64,
    pub success: bool,
}

impl FileOperation {
    /// The record of a write of bytes to a path.
    pub fn written(target_path: &str, bytes: u64) -> (op: FileOperation)
        ensures
            op.source_path@.len() == 0,
            op.target_path@ == target_path@,
            op.operation_type == OperationType::Write,
            op.bytes_processed == bytes,
            op.success,
    {
        FileOperation {
            source_path: String::new(),
            target_path: String::from_str(target_path),
            operation_type: OperationType::Write,
            bytes_processed: bytes,
            success: true,
        }
    }

    /// The record of a copy or a move of bytes from one path to another.
    pub fn transferred(kind: OperationType, source_path: &str, target_path: &str, bytes: u64) -> (op:
        FileOperation)
        ensures
            op.source_path@ == source_path@,
            op.target_path@ == target_path@,
            op.operation_type == kind,
            op.bytes_processed == bytes,
            op.success,
    {
        FileOperation {
            source_path: String::from_str(source_path),
            target_path: String::from_str(target_path),
            operation_type: kind,
            bytes_processed: bytes,
            success: true,
        }
    }

    /// The record of the deletion of a file of some size.
    pub fn deleted(source_path: &str, bytes: u64) -> (op: FileOperation)
        ensures
            op.source_path@ == source_path@,
            op.target_path@.len() == 0,
            op.operation_type == OperationType::Delete,
            op.bytes_processed == bytes,
            op.success,
    {
        FileOperation {
            source_path: String::from_str(source_path),
            target_path: String::new(),
            operation_type: OperationType::Delete,
            bytes_processed: bytes,
            success: true,
        }
    }
}

/// The name of the backup of a file at a time: the file stem, "_backup_",
/// the time stamp, and the extension, if any, behind a dot.
pub open spec fn backup_name(stem: Seq<char>, stamp: Seq<char>, extension: Option<Seq<char>>)
    -> Seq<char> {
    let base = stem + "_backup_"@ + stamp;
    match extension {
        Some(extension) => base + "."@ + extension,
        None => base,
    }
}

/// The path of the backup of a file at a time, beside the file. Fails with
/// `InvalidPath` exactly when the path has no file stem or no parent.
pub fn backup_path_at(path: &str, stamp: &str) -> (r: Result<String, FileError>)
    ensures
        match (path_file_stem(path@), path_parent(path@)) {
            (Some(stem), Some(parent)) => r matches Ok(backup) && backup@ == path_joined(
                parent,
                backup_name(stem, stamp@, path_extension(path@)),
            ),
            _ => r matches Err(FileError::InvalidPath(_)),
        },
{
    let stem = match file_stem_of(path) {
        Some(stem) => stem,
        None => {
            return Err(FileError::InvalidPath(String::from_str("Cannot extract file stem")));
        },
    };
    let base = stem.concat("_backup_").concat(stamp);
    let name = match extension_of(path) {
        Some(extension) => base.concat(".").concat(extension.as_str()),
        None => base,
    };
    match parent_of(path) {
        Some(parent) => Ok(join_paths(parent.as_str(), name.as_str())),
        None => Err(FileError::InvalidPath(String::from_str("No parent directory"))),
    }
}

/// The path of the backup of a file, stamped with the current time to the
/// second: the path that `backup_path_at` gives for some stamp.
pub fn generate_backup_path(path: &str) -> (r: Result<String, FileError>)
    ensures
        r is Ok == (path_file_stem(path@) is Some && path_parent(path@) is Some),
        r matches Ok(backup) ==> exists|stamp: Seq<char>|
            backup@ == path_joined(
                path_parent(path@)->Some_0,
                #[trigger] backup_name(path_file_stem(path@)->Some_0, stamp, path_extension(path@)),
            ),
        r matches Err(e) ==> e is InvalidPath,
{
    let stamp = formatted_now("%Y%m%d_%H%M%S");
    let r = backup_path_at(path, stamp.as_str());
    proof {
        if r is Ok {
            assert(r->Ok_0@ == path_joined(
                path_parent(path@)->Some_0,
                backup_name(path_file_stem(path@)->Some_0, stamp@, path_extension(path@)),
            ));
        }
    }
    r
}

/// Where a file goes when it is copied into a directory: under its own
/// name. Fails with `InvalidPath` exactly when the path has no file name.
pub fn copy_target(file: &str, target_dir: &str) -> (r: Result<String, FileError>)
    ensures
        match path_file_name(file@) {
            Some(name) => r matches Ok(target) && target@ == path_joined(target_dir@, name),
            None => r matches Err(FileError::InvalidPath(_)),
        },
{
    match file_name_of(file) {
        Some(name) => Ok(join_paths(target_dir, name.as_str())),
        None => Err(FileError::InvalidPath(String::from_str("Invalid file name"))),
    }
}

/// Whether a file name matches a cleanup pattern: the pattern stands
/// somewhere in it.
pub fn matches_cleanup_pattern(name: &str, pattern: &str) -> (b: bool)
    ensures
        b == contains_text(name@, pattern@),
{
    contains(name, pattern)
}

/// Whether one of the paths is the given one, letter for letter.
pub open spec fn is_taken(taken: Seq<String>, path: Seq<char>) -> bool {
    exists|i: int| 0 <= i < taken.len() && #[trigger] taken[i]@ == path
}

/// Tests `is_taken`.
pub fn taken_contains(taken: &Vec<String>, path: &str) -> (b: bool)
    ensures
        b == is_taken(taken@, path@),
{
    let mut i: usize = 0;
    while i < taken.len()
        invariant
            i <= taken@.len(),
            forall|j: int| 0 <= j < i ==> #[trigger] taken@[j]@ != path@,
        decreases taken@.len() - i,
    {
        if str_eq(taken[i].as_str(), path) {
            assert(taken@[i as int]@ == path@);
            return true;
        }
        i += 1;
    }
    false
}

/// Highest number that is tried for a name that is taken.
pub const LAST_NUMBERED_NAME: u32 = 9999;

/// Whether `chosen` is the free name for a path among paths that are
/// taken: the path itself where it is free; else its first numbered name,
/// from 1 to 9999, that is free.
pub open spec fn is_first_free(path: Seq<char>, taken: Seq<String>, chosen: Seq<char>) -> bool {
    if !is_taken(taken, path) {
        chosen == path
    } else {
        exists|n: u32|
            #![auto]
            1 <= n <= LAST_NUMBERED_NAME && chosen == path_joined(
                directory_of(path),
                numbered_name(path, n),
            ) && !is_taken(taken, chosen) && (forall|m: u32|
                #![auto]
                1 <= m < n ==> is_taken(
                    taken,
                    path_joined(directory_of(path), numbered_name(path, m)),
                ))
    }
}

/// Chooses a name for a file among paths that are taken: the path itself
/// where it is free, else its first numbered name that is free. Where all
/// of them are taken there is none.
pub fn first_free_name(path: &str, taken: &Vec<String>) -> (r: Option<String>)
    ensures
        r matches Some(chosen) ==> is_first_free(path@, taken@, chosen@),
        r is None <==> all_names_taken(path@, taken@),
{
    if !taken_contains(taken, path) {
        return Some(String::from_str(path));
    }
    let mut n: u32 = 1;
    while n <= LAST_NUMBERED_NAME
        invariant
            1 <= n <= LAST_NUMBERED_NAME + 1,
            is_taken(taken@, path@),
            forall|m: u32|
                #![auto]
                1 <= m < n ==> is_taken(
                    taken@,
                    path_joined(directory_of(path@), numbered_name(path@, m)),
                ),
        decreases LAST_NUMBERED_NAME + 1 - n,
    {
        let candidate = numbered_candidate(path, n);
        if !taken_contains(taken, candidate.as_str()) {
            assert(is_first_free(path@, taken@, candidate@));
            return Some(candidate);
        }
        n += 1;
    }
    None
}

/// The name of last resort for a file whose numbered names are all taken:
/// the file stem ("file" where the path has none), the time stamp, and the
/// extension behind a dot, joined by underscores.
pub open spec fn stamped(path: Seq<char>, stamp: Seq<char>) -> Seq<char> {
    path_joined(
        directory_of(path),
        (match path_file_stem(path) {
            Some(stem) => stem,
            None => "file"@,
        }) + "_"@ + stamp + "_"@ + (match path_extension(path) {
            Some(extension) => "."@ + extension,
            None => Seq::<char>::empty(),
        }),
    )
}

/// Whether a path and all its numbered names are taken.
pub open spec fn all_names_taken(path: Seq<char>, taken: Seq<String>) -> bool {
    is_taken(taken, path) && (forall|m: u32|
        #![auto]
        1 <= m <= LAST_NUMBERED_NAME ==> is_taken(
            taken,
            path_joined(directory_of(path), numbered_name(path, m)),
        ))
}

/// Builds the name of last resort for a file.
pub fn stamped_name(path: &str, stamp: &str) -> (r: String)
    ensures
        r@ == stamped(path@, stamp@),
{
    let stem = match file_stem_of(path) {
        Some(stem) => stem,
        None => String::from_str("file"),
    };
    let parent = match parent_of(path) {
        Some(parent) => parent,
        None => String::from_str("."),
    };
    let extension = match extension_of(path) {
        Some(extension) => String::from_str(".").concat(extension.as_str()),
        None => String::new(),
    };
    let name = stem.concat("_").concat(stamp).concat("_").concat(extension.as_str());
    join_paths(parent.as_str(), name.as_str())
}

impl PathUtils {
    /// Makes a file name unique among paths that are taken: the first free
    /// name, or, where every numbered name is taken, a name stamped with
    /// the current time.
    pub fn make_unique_filename(path: &str, taken: &Vec<String>) -> (r: String)
        ensures
            !is_taken(taken@, path@) ==> r@ == path@,
            !all_names_taken(path@, taken@) ==> is_first_free(path@, taken@, r@),
            all_names_taken(path@, taken@) ==> exists|stamp: Seq<char>|
                r@ == #[trigger] stamped(path@, stamp),
    {
        match first_free_name(path, taken) {
            Some(chosen) => chosen,
            None => {
                let stamp = formatted_now("%Y%m%d_%H%M%S");
                let r = stamped_name(path, stamp.as_str());
                assert(r@ == stamped(path@, stamp@));
                r
            },
        }
    }
}

/// The name of a temporary file: prefix, stamp and extension as they are
/// given, joined by an underscore and a dot.
pub open spec fn temp_file_name(prefix: Seq<char>, stamp: Seq<char>, extension: Seq<char>)
    -> Seq<char> {
    prefix + "_"@ + stamp + "."@ + extension
}

/// Builds the name of a temporary file from a prefix, a time stamp and an
/// extension, each as it is given.
pub fn temp_file_name_at(prefix: &str, stamp: &str, extension: &str) -> (r: String)
    ensures
        r@ == temp_file_name(prefix@, stamp@, extension@),
{
    String::from_str(prefix).concat("_").concat(stamp).concat(".").concat(extension)
}

/// Generates the name of a temporary file, stamped with the current time to
/// the millisecond, from a prefix and an extension as they are given.
pub fn generate_temp_file_name(prefix: &str, extension: &str) -> (r: String)
    ensures
        exists|stamp: Seq<char>| r@ == temp_file_name(prefix@, stamp, extension@),
{
    let stamp = formatted_now("%Y%m%d_%H%M%S_%3f");
    let r = temp_file_name_at(prefix, stamp.as_str(), extension);
    assert(r@ == temp_file_name(prefix@, stamp@, extension@));
    r
}

} // verus!
