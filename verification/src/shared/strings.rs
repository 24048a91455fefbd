//! File names made safe, and texts cut to length.

use crate::shared::paths::{normalize_extension, normalized_extension};
use crate::text::{chars_of, trim, trimmed};
use vstd::prelude::*;
use vstd::string::*;
use vstd::utf8::{encode_utf8, is_char_boundary};

verus! {

/// Whether a character is a control code: one of the code points up to
/// U+001F, or from U+007F to U+009F.
pub open spec fn is_control(c: char) -> bool {
    (c as u32) <= 0x1F || (0x7F <= (c as u32) && (c as u32) <= 0x9F)
}

/// Whether a character has a meaning to a file system or a shell.
pub open spec fn is_reserved(c: char) -> bool {
    c == '<' || c == '>' || c == ':' || c == '"' || c == '/' || c == '\\' || c == '|' || c == '?'
        || c == '*'
}

/// A character made safe for a file name: reserved characters and control
/// codes become underscores.
pub open spec fn safe_char(c: char) -> char {
    if is_reserved(c) || is_control(c) {
        '_'
    } else {
        c
    }
}

/// A text with every character made safe.
pub open spec fn safe_chars(text: Seq<char>) -> Seq<char> {
    text.map_values(|c: char| safe_char(c))
}

fn is_safe(c: char) -> (b: bool)
    ensures
        b == (safe_char(c) == c),
{
    let code = c as u32;
    if c == '_' {
        true
    } else if c == '<' || c == '>' || c == ':' || c == '"' || c == '/' || c == '\\' || c == '|'
        || c == '?' || c == '*' {
        false
    } else if code <= 0x1F || (0x7F <= code && code <= 0x9F) {
        false
    } else {
        true
    }
}

/// Sanitizes a file name: every reserved character and control code
/// becomes an underscore, and whitespace at the ends is trimmed off.
pub fn sanitize_filename(filename: &str) -> (r: String)
    ensures
        r@ == trimmed(safe_chars(filename@)),
{
    let chars = chars_of(filename);
    let mut replaced = String::new();
    let mut i: usize = 0;
    while i < chars.len()
        invariant
            i <= chars@.len(),
            chars@ == filename@,
            replaced@ == safe_chars(filename@.subrange(0, i as int)),
        decreases chars@.len() - i,
    {
        if is_safe(chars[i]) {
            replaced.append(filename.substring_char(i, i + 1));
        } else {
            replaced.append("_");
        }
        proof {
            reveal_strlit("_");
            assert(replaced@ =~= safe_chars(filename@.subrange(0, i + 1)));
        }
        i += 1;
    }
    assert(filename@.subrange(0, chars@.len() as int) =~= filename@);
    trim(replaced.as_str())
}

/// Whether `r` is `s` cut to at most `max_len` bytes: `s` itself where it
/// fits; three dots where there is room for no more; else the first
/// `max_len - 3` bytes of `s`, followed by three dots.
pub open spec fn is_truncation(r: Seq<char>, s: &str, max_len: usize) -> bool {
    if s.spec_bytes().len() <= max_len {
        r == s@
    } else if max_len <= 3 {
        r == "..."@
    } else {
        exists|head: Seq<char>|
            #![auto]
            encode_utf8(head) == s.spec_bytes().subrange(0, max_len - 3) && r == head + "..."@
    }
}

/// Truncates a string to a maximum length in bytes, with an ellipsis. The
/// cut must not fall inside a character.
pub fn truncate_with_ellipsis(s: &str, max_len: usize) -> (r: String)
    requires
        s.spec_bytes().len() > max_len && max_len > 3 ==> is_char_boundary(
            s.spec_bytes(),
            max_len - 3,
        ),
    ensures
        is_truncation(r@, s, max_len),
{
    let length = s.as_bytes().len();
    if length <= max_len {
        String::from_str(s)
    } else if max_len <= 3 {
        String::from_str("...")
    } else {
        let (head, _) = s.split_at(max_len - 3);
        let r = String::from_str(head).concat("...");
        assert(encode_utf8(head@) == s.spec_bytes().subrange(0, max_len - 3) && r@ == head@
            + "..."@);
        r
    }
}

/// The name of a temporary file for a prefix, a time stamp and an
/// extension: the prefix sanitized, the stamp, and the extension in its
/// normal form.
pub open spec fn temp_filename(prefix: Seq<char>, stamp: Seq<char>, extension: Seq<char>) -> Seq<
    char,
> {
    trimmed(safe_chars(prefix)) + "_"@ + stamp + "."@ + normalized_extension(extension)
}

/// Builds the name of a temporary file from a prefix, a time stamp and an
/// extension.
pub fn temp_filename_at(prefix: &str, stamp: &str, extension: &str) -> (r: String)
    ensures
        r@ == temp_filename(prefix@, stamp@, extension@),
{
    let sanitized_prefix = sanitize_filename(prefix);
    let sanitized_ext = normalize_extension(extension);
    sanitized_prefix.concat("_").concat(stamp).concat(".").concat(sanitized_ext.as_str())
}

/// Whether a pattern is one of those that the library stamps names with.
pub open spec fn is_stamp_pattern(pattern: Seq<char>) -> bool {
    pattern == "%Y%m%d_%H%M%S"@ || pattern == "%Y%m%d_%H%M%S_%3f"@ || pattern == "%s_%f"@
}

/// Calls `chrono::Utc::now` and `format` with a pattern. Writing out a time
/// under a pattern that chrono cannot read panics, so only the library's
/// own patterns are taken. Depends on the clock: nothing is claimed of the
/// result.
#[verifier::external_body]
pub(crate) fn formatted_now(pattern: &str) -> String
    requires
        is_stamp_pattern(pattern@),
{
    ::chrono::Utc::now().format(pattern).to_string()
}

/// Generates the name of a temporary file, stamped with the current time to
/// the millisecond.
pub fn generate_temp_filename(prefix: &str, extension: &str) -> (r: String)
    ensures
        exists|stamp: Seq<char>| r@ == temp_filename(prefix@, stamp, extension@),
{
    let stamp = formatted_now("%Y%m%d_%H%M%S_%3f");
    let r = temp_filename_at(prefix, stamp.as_str(), extension);
    assert(r@ == temp_filename(prefix@, stamp@, extension@));
    r
}

} // verus!
