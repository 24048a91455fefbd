//! Checks on paths and extensions.

use crate::file::path::{
    components_of, extension_of, file_stem_of, path_components, path_extension, path_file_stem,
};
use crate::shared::error::DomainError;
use crate::text::{
    chars_of, contains, contains_text, decimal_string, has_prefix, join2, lowercase, starts_with,
    str_eq, to_lowercase,
};
use vstd::prelude::*;
use vstd::string::*;

verus! {

/// A text without the dots it begins with.
pub open spec fn without_leading_dots(text: Seq<char>) -> Seq<char>
    decreases text.len(),
{
    if text.len() > 0 && text[0] == '.' {
        without_leading_dots(text.drop_first())
    } else {
        text
    }
}

/// An extension in its normal form: lowercase, without leading dots.
pub open spec fn normalized_extension(extension: Seq<char>) -> Seq<char> {
    without_leading_dots(lowercase(extension))
}

/// Removes the dots that a text begins with.
pub fn strip_leading_dots(text: &str) -> (r: String)
    ensures
        r@ == without_leading_dots(text@),
{
    let chars = chars_of(text);
    let mut start: usize = 0;
    assert(chars@.subrange(0, chars@.len() as int) =~= chars@);
    while start < chars.len() && chars[start] == '.'
        invariant
            start <= chars@.len(),
            without_leading_dots(chars@) == without_leading_dots(
                chars@.subrange(start as int, chars@.len() as int),
            ),
        decreases chars@.len() - start,
    {
        proof {
            let rest = chars@.subrange(start as int, chars@.len() as int);
            assert(rest[0] == chars@[start as int]);
            assert(rest.drop_first() =~= chars@.subrange(start + 1, chars@.len() as int));
        }
        start += 1;
    }
    proof {
        assert(chars@.subrange(0, chars@.len() as int) =~= chars@);
        let rest = chars@.subrange(start as int, chars@.len() as int);
        if rest.len() > 0 {
            assert(rest[0] == chars@[start as int]);
        }
    }
    String::from_str(text.substring_char(start, chars.len()))
}

/// Normalizes a file extension: lowercase, without leading dots.
pub fn normalize_extension(ext: &str) -> (r: String)
    ensures
        r@ == normalized_extension(ext@),
{
    let lower = to_lowercase(ext);
    strip_leading_dots(lower.as_str())
}

/// Whether a path is free of what marks an attack: it holds neither ".."
/// nor "~" nor a NUL character, and does not begin with one of the system
/// directories "/etc", "/proc", "/sys", "/dev".
pub open spec fn safe_path(path: Seq<char>) -> bool {
    &&& !contains_text(path, ".."@)
    &&& !contains_text(path, "~"@)
    &&& !contains_text(path, "\0"@)
    &&& !has_prefix(path, "/etc"@)
    &&& !has_prefix(path, "/proc"@)
    &&& !has_prefix(path, "/sys"@)
    &&& !has_prefix(path, "/dev"@)
}

/// Checks if a path is safe.
pub fn is_safe_path(path: &str) -> (b: bool)
    ensures
        b == safe_path(path@),
{
    if contains(path, "..") || contains(path, "~") {
        return false;
    }
    if contains(path, "\0") {
        return false;
    }
    if starts_with(path, "/etc") || starts_with(path, "/proc") || starts_with(path, "/sys")
        || starts_with(path, "/dev") {
        return false;
    }
    true
}

/// Validates the depth of a path: fails with `InvalidInput` exactly when
/// the path has more components than allowed.
pub fn validate_path_depth(path: &str, max_depth: u32) -> (r: Result<(), DomainError>)
    ensures
        r is Ok == (path_components(path@).len() <= max_depth),
        r matches Err(e) ==> e is InvalidInput,
{
    let depth = components_of(path).len();
    if depth as u64 > max_depth as u64 {
        let d = decimal_string(depth as u64);
        let m = decimal_string(max_depth as u64);
        let msg = join2("Path depth ", d.as_str()).concat(" exceeds maximum allowed depth ").concat(
            m.as_str(),
        );
        return Err(DomainError::InvalidInput(msg));
    }
    Ok(())
}

/// The normalized extension of a path, if the path has an extension.
pub open spec fn spec_get_extension(path: Seq<char>) -> Option<Seq<char>> {
    match path_extension(path) {
        Some(extension) => Some(normalized_extension(extension)),
        None => None,
    }
}

/// Gets the extension of a path in its normal form.
pub fn get_extension(path: &str) -> (r: Option<String>)
    ensures
        r is Some == spec_get_extension(path@) is Some,
        r matches Some(extension) ==> spec_get_extension(path@) == Some(extension@),
{
    match extension_of(path) {
        Some(extension) => Some(normalize_extension(extension.as_str())),
        None => None,
    }
}

/// Whether one of the listed formats, in lowercase, is the given token.
pub open spec fn lists_format(supported: Seq<String>, token: Seq<char>) -> bool {
    exists|i: int| 0 <= i < supported.len() && lowercase(#[trigger] supported[i]@) == token
}

/// Tests whether one of the listed formats, in lowercase, is the token.
pub fn format_listed(supported: &Vec<String>, token: &str) -> (b: bool)
    ensures
        b == lists_format(supported@, token@),
{
    let mut i: usize = 0;
    while i < supported.len()
        invariant
            i <= supported@.len(),
            forall|j: int| 0 <= j < i ==> lowercase(#[trigger] supported@[j]@) != token@,
        decreases supported@.len() - i,
    {
        let lower = to_lowercase(supported[i].as_str());
        if str_eq(lower.as_str(), token) {
            assert(lowercase(supported@[i as int]@) == token@);
            return true;
        }
        i += 1;
    }
    false
}

/// Whether a path has one of the allowed extensions, ignoring letter case.
pub open spec fn allowed_extension(path: Seq<char>, allowed: Seq<String>) -> bool {
    match spec_get_extension(path) {
        Some(extension) => lists_format(allowed, extension),
        None => false,
    }
}

/// Checks if a path has an allowed extension.
pub fn has_allowed_extension(path: &str, allowed_extensions: &Vec<String>) -> (b: bool)
    ensures
        b == allowed_extension(path@, allowed_extensions@),
{
    match get_extension(path) {
        Some(extension) => format_listed(allowed_extensions, extension.as_str()),
        None => false,
    }
}

/// Extracts the file name of a path without its extension.
pub fn get_base_filename(path: &str) -> (r: Option<String>)
    ensures
        r is Some == path_file_stem(path@) is Some,
        r matches Some(stem) ==> path_file_stem(path@) == Some(stem@),
{
    file_stem_of(path)
}

} // verus!
