//! The structural attack detector: separators, dot sequences, platform
//! constructs, schemes and system paths in the raw text.
//!
//! Every rule is a substring or prefix test. Each detector reports the first
//! rule, in its own order, that the text breaks.

use vstd::prelude::*;
use crate::error::{Finding, Reason, ValidationError};
use crate::patterns::{
    dangerous_schemes, dangerous_schemes_table, doubled_separators, doubled_separators_table,
    file_schemes, file_schemes_table, hex_escape_tokens, hex_escape_tokens_table, http_schemes,
    http_schemes_table, nested_traversal_patterns, nested_traversal_patterns_table,
    suspicious_tokens, suspicious_tokens_table, system_paths, system_paths_table,
    traversal_patterns, traversal_patterns_table, unusual_separators, unusual_separators_table,
};
use crate::report::{
    check_prefix_table, check_table, check_token, or_else, prefix_finding, reports, table_finding,
    token_finding,
};
use crate::text::{
    chars_of, ends_with_char, find, lemma_first_hit, lemma_first_occurrence, occurs, scan_table,
    skip_chars, table_view,
};
use crate::unicode::{unicode_lowercase, unicode_uppercase};

verus! {

/// An ASCII letter.
pub open spec fn is_ascii_letter(c: char) -> bool {
    ('a' <= c && c <= 'z') || ('A' <= c && c <= 'Z')
}

/// The text starts like a drive: a letter, then a colon.
pub open spec fn starts_with_drive(s: Seq<char>) -> bool {
    s.len() >= 2 && is_ascii_letter(s[0]) && s[1] == ':'
}

/// A colon outside the drive position: any colon where the text does not
/// start like a drive, and a colon after the drive where it does.
pub open spec fn colon_finding(s: Seq<char>) -> Option<Finding> {
    if !starts_with_drive(s) {
        token_finding(s, ":"@, Reason::StrayColon)
    } else {
        match token_finding(s.skip(2), ":"@, Reason::AlternateDataStream) {
            Some(f) => Some(
                Finding { reason: f.reason, pattern: f.pattern, position: f.position + 2 },
            ),
            None => None,
        }
    }
}

/// A slash or a backslash.
pub open spec fn is_separator(c: char) -> bool {
    c == '/' || c == '\\'
}

/// `i` is where the last component of `s` starts: behind the last separator,
/// or at the start of a text without one.
pub open spec fn is_last_component_start(s: Seq<char>, i: int) -> bool {
    &&& 0 <= i <= s.len()
    &&& i == 0 || is_separator(s[i - 1])
    &&& forall|j: int| i <= j < s.len() ==> !is_separator(s[j])
}

/// What follows the last separator of `s`; all of `s` where it has none.
pub open spec fn last_component(s: Seq<char>) -> Seq<char> {
    s.skip(choose|i: int| is_last_component_start(s, i))
}

/// A dot or a space at the end of the last component. The components `.` and
/// `..` end with a dot and are not meant.
pub open spec fn trailing_finding(s: Seq<char>) -> Option<Finding> {
    let last = last_component(s);
    if ends_with_char(last, '.') && last != "."@ && last != ".."@ {
        Some(Finding { reason: Reason::TrailingDot, pattern: "."@, position: s.len() - 1 })
    } else if ends_with_char(last, ' ') {
        Some(Finding { reason: Reason::TrailingSpace, pattern: " "@, position: s.len() - 1 })
    } else {
        None
    }
}

/// Platform constructs, in order: a colon outside the drive position, a UNC
/// prefix, the device token in any case, a dot or space at the end. The
/// position of the device token counts characters of the upper-case form.
pub open spec fn windows_finding(s: Seq<char>) -> Option<Finding> {
    or_else(
        colon_finding(s),
        or_else(
            prefix_finding(s, doubled_separators(), Reason::UncPath),
            or_else(
                token_finding(unicode_uppercase(s), "\\DEVICE\\"@, Reason::DevicePath),
                trailing_finding(s),
            ),
        ),
    )
}

/// A doubled separator that begins behind the first character of the text. A
/// pair at the very start is a UNC prefix and is left to the platform check;
/// every other pair is found here, also in a text that starts with one.
pub open spec fn inner_doubled_finding(s: Seq<char>) -> Option<Finding> {
    if s.len() == 0 {
        None
    } else {
        match table_finding(s.skip(1), doubled_separators(), Reason::RepeatedSeparators) {
            Some(f) => Some(
                Finding { reason: f.reason, pattern: f.pattern, position: f.position + 1 },
            ),
            None => None,
        }
    }
}

/// Separator misuse, in order: a doubled separator behind the first
/// character, both kinds of separator, an unusual separator.
pub open spec fn separator_finding(s: Seq<char>) -> Option<Finding> {
    or_else(
        inner_doubled_finding(s),
        or_else(
            if occurs(s, "/"@) {
                token_finding(s, "\\"@, Reason::MixedSeparators)
            } else {
                None
            },
            table_finding(s, unusual_separators(), Reason::UnusualSeparator),
        ),
    )
}

/// Traversal sequences, in order: dot sequences, dot sequences joined to
/// separators, hex escapes.
pub open spec fn traversal_finding(s: Seq<char>) -> Option<Finding> {
    or_else(
        table_finding(s, traversal_patterns(), Reason::TraversalPattern),
        or_else(
            table_finding(s, nested_traversal_patterns(), Reason::NestedTraversal),
            table_finding(s, hex_escape_tokens(), Reason::HexEscape),
        ),
    )
}

/// A system path at the start of the lower-case form of the text.
pub open spec fn special_path_finding(s: Seq<char>) -> Option<Finding> {
    prefix_finding(unicode_lowercase(s), system_paths(), Reason::SensitivePath)
}

/// A scheme at the start of the lower-case form of the text: the file scheme,
/// then the web schemes, then the others.
pub open spec fn scheme_finding(s: Seq<char>) -> Option<Finding> {
    let lower = unicode_lowercase(s);
    or_else(
        prefix_finding(lower, file_schemes(), Reason::FileScheme),
        or_else(
            prefix_finding(lower, http_schemes(), Reason::HttpScheme),
            prefix_finding(lower, dangerous_schemes(), Reason::DangerousScheme),
        ),
    )
}

/// Home and variable expansion, NUL and the backslash.
pub open spec fn suspicious_finding(s: Seq<char>) -> Option<Finding> {
    table_finding(s, suspicious_tokens(), Reason::SuspiciousToken)
}

/// A slash at the start: the path is absolute.
pub open spec fn absolute_finding(s: Seq<char>) -> Option<Finding> {
    if s.len() > 0 && s[0] == '/' {
        Some(Finding { reason: Reason::AbsolutePath, pattern: "/"@, position: 0 })
    } else {
        None
    }
}

/// There is only one start of the last component.
pub proof fn lemma_last_component(s: Seq<char>, i: int)
    requires
        is_last_component_start(s, i),
    ensures
        last_component(s) == s.skip(i),
{
    let j = choose|j: int| is_last_component_start(s, j);
    assert(is_last_component_start(s, j));
    if j < i {
        assert(is_separator(s[i - 1]));
    } else if i < j {
        assert(is_separator(s[j - 1]));
    }
}

/// Whether a character is an ASCII letter.
pub fn ascii_letter(c: char) -> (r: bool)
    ensures
        r == is_ascii_letter(c),
{
    ('a' <= c && c <= 'z') || ('A' <= c && c <= 'Z')
}

/// Whether a character is a slash or a backslash.
pub fn separator(c: char) -> (r: bool)
    ensures
        r == is_separator(c),
{
    c == '/' || c == '\\'
}

fn check_colon(path: &str, chars: &Vec<char>) -> (r: Result<(), ValidationError>)
    requires
        chars@ == path@,
    ensures
        reports(r, path@, colon_finding(path@)),
{
    let drive = chars.len() >= 2 && ascii_letter(chars[0]) && chars[1] == ':';
    if !drive {
        check_token(path, chars, ":", Reason::StrayColon)
    } else {
        let rest = skip_chars(chars, 2);
        let colon = chars_of(":");
        match find(&rest, &colon) {
            Some(at) => {
                proof {
                    lemma_first_occurrence(rest@, ":"@, at as int);
                }
                Err(ValidationError::new(Reason::AlternateDataStream, ":", at + 2, path))
            },
            None => Ok(()),
        }
    }
}

fn check_trailing(path: &str, chars: &Vec<char>) -> (r: Result<(), ValidationError>)
    requires
        chars@ == path@,
    ensures
        reports(r, path@, trailing_finding(path@)),
{
    let n: usize = chars.len();
    let mut start: usize = n;
    while start > 0 && !separator(chars[start - 1])
        invariant
            start <= n,
            n == chars.len(),
            forall|j: int| start <= j < n ==> !is_separator(chars@[j]),
        decreases start,
    {
        start -= 1;
    }
    proof {
        lemma_last_component(chars@, start as int);
        reveal_strlit(".");
        reveal_strlit("..");
        let last = chars@.skip(start as int);
        if last.len() == 1 && last[0] == '.' {
            assert(last =~= "."@);
        }
        if last.len() == 2 && last[0] == '.' && last[1] == '.' {
            assert(last =~= ".."@);
        }
    }
    if start == n {
        return Ok(());
    }
    let end = chars[n - 1];
    let len: usize = n - start;
    let dot_name = (len == 1 && chars[start] == '.') || (len == 2 && chars[start] == '.'
        && chars[start + 1] == '.');
    if end == '.' && !dot_name {
        return Err(ValidationError::new(Reason::TrailingDot, ".", n - 1, path));
    }
    if end == ' ' {
        return Err(ValidationError::new(Reason::TrailingSpace, " ", n - 1, path));
    }
    Ok(())
}

/// Detects platform constructs: a colon outside the drive position, a UNC
/// prefix, the device token, and a dot or space at the end of the last
/// component.
pub fn detect_windows_attacks(path: &str) -> (r: Result<(), ValidationError>)
    ensures
        reports(r, path@, windows_finding(path@)),
{
    let chars = chars_of(path);
    check_colon(path, &chars)?;
    let doubled = doubled_separators_table();
    check_prefix_table(path, &chars, &doubled, Reason::UncPath)?;
    let upper = path.to_uppercase();
    let upper_chars = chars_of(upper.as_str());
    check_token(path, &upper_chars, "\\DEVICE\\", Reason::DevicePath)?;
    check_trailing(path, &chars)
}

fn check_inner_doubled(path: &str, chars: &Vec<char>) -> (r: Result<(), ValidationError>)
    requires
        chars@ == path@,
    ensures
        reports(r, path@, inner_doubled_finding(path@)),
{
    if chars.len() == 0 {
        return Ok(());
    }
    let rest = skip_chars(chars, 1);
    let doubled = doubled_separators_table();
    match scan_table(&rest, &doubled) {
        Some((k, at)) => {
            proof {
                lemma_first_hit(rest@, table_view(doubled@), k as int);
                lemma_first_occurrence(rest@, doubled@[k as int]@, at as int);
            }
            Err(ValidationError::new(Reason::RepeatedSeparators, doubled[k], at + 1, path))
        },
        None => Ok(()),
    }
}

/// Detects separator misuse: a doubled separator behind the first character
/// of the text, slashes mixed with backslashes, and the unusual separators.
pub fn detect_separator_manipulation(path: &str) -> (r: Result<(), ValidationError>)
    ensures
        reports(r, path@, separator_finding(path@)),
{
    let chars = chars_of(path);
    check_inner_doubled(path, &chars)?;
    let slash = chars_of("/");
    if find(&chars, &slash).is_some() {
        check_token(path, &chars, "\\", Reason::MixedSeparators)?;
    }
    let unusual = unusual_separators_table();
    check_table(path, &chars, &unusual, Reason::UnusualSeparator)
}

/// Detects traversal sequences: dot sequences, their forms joined to
/// separators, and hex escapes of the dot and the separators.
pub fn detect_advanced_traversal(path: &str) -> (r: Result<(), ValidationError>)
    ensures
        reports(r, path@, traversal_finding(path@)),
{
    let chars = chars_of(path);
    let plain = traversal_patterns_table();
    check_table(path, &chars, &plain, Reason::TraversalPattern)?;
    let nested = nested_traversal_patterns_table();
    check_table(path, &chars, &nested, Reason::NestedTraversal)?;
    let hex = hex_escape_tokens_table();
    check_table(path, &chars, &hex, Reason::HexEscape)
}

/// Rejects a text that starts, in any case, with a system path.
pub fn validate_special_paths(path: &str) -> (r: Result<(), ValidationError>)
    ensures
        reports(r, path@, special_path_finding(path@)),
{
    let lower = path.to_lowercase();
    let chars = chars_of(lower.as_str());
    let table = system_paths_table();
    check_prefix_table(path, &chars, &table, Reason::SensitivePath)
}

/// Detects a scheme at the start of the text, in any case.
pub fn detect_protocol_schemes(path: &str) -> (r: Result<(), ValidationError>)
    ensures
        reports(r, path@, scheme_finding(path@)),
{
    let lower = path.to_lowercase();
    let chars = chars_of(lower.as_str());
    let file = file_schemes_table();
    check_prefix_table(path, &chars, &file, Reason::FileScheme)?;
    let http = http_schemes_table();
    check_prefix_table(path, &chars, &http, Reason::HttpScheme)?;
    let other = dangerous_schemes_table();
    check_prefix_table(path, &chars, &other, Reason::DangerousScheme)
}

/// Detects the tokens of home and variable expansion, NUL and the backslash.
pub fn detect_suspicious_patterns(path: &str) -> (r: Result<(), ValidationError>)
    ensures
        reports(r, path@, suspicious_finding(path@)),
{
    let chars = chars_of(path);
    let table = suspicious_tokens_table();
    check_table(path, &chars, &table, Reason::SuspiciousToken)
}

/// Rejects an absolute path: one that starts with a slash.
pub fn detect_absolute_path(path: &str) -> (r: Result<(), ValidationError>)
    ensures
        reports(r, path@, absolute_finding(path@)),
{
    let chars = chars_of(path);
    if chars.len() > 0 && chars[0] == '/' {
        return Err(ValidationError::new(Reason::AbsolutePath, "/", 0, path));
    }
    Ok(())
}

} // verus!
