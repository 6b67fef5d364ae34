//! The name validators: rules for project names and for bare file names.
//!
//! Both classify a text and hand it back unchanged. Nothing is resolved
//! against a directory and nothing is rewritten.

use vstd::prelude::*;
use vstd::utf8::encode_utf8;
use crate::attacks::{ascii_letter, detect_windows_attacks, is_ascii_letter, windows_finding};
use crate::encoding::{
    dangerous_unicode_finding, detect_dangerous_unicode, detect_overlong_utf8,
    detect_unicode_encoding, detect_url_encoding, normalize_and_check, overlong_utf8_finding,
    unicode_encoding_finding, url_encoding_finding, whitespace_finding,
};
use crate::error::{Finding, Reason, ValidationError};
use crate::patterns::{
    reserved_names, reserved_names_table, MAX_FILENAME_LENGTH, MAX_PROJECT_NAME_LENGTH,
};
use crate::report::{check_token, or_else, reports, token_finding, validates};
use crate::text::{byte_length, char_string, chars_of, table_view};

verus! {

/// A character that a project name may hold: an ASCII letter or digit, a
/// hyphen or an underscore.
pub open spec fn is_name_char(c: char) -> bool {
    is_ascii_letter(c) || ('0' <= c && c <= '9') || c == '-' || c == '_'
}

/// `i` is the least index of `s` that holds a character outside the project
/// name alphabet.
pub open spec fn is_first_invalid(s: Seq<char>, i: int) -> bool {
    &&& 0 <= i < s.len()
    &&& !is_name_char(s[i])
    &&& forall|j: int| 0 <= j < i ==> is_name_char(#[trigger] s[j])
}

/// `s` holds a character outside the project name alphabet.
pub open spec fn has_invalid(s: Seq<char>) -> bool {
    exists|i: int| 0 <= i < s.len() && !is_name_char(#[trigger] s[i])
}

/// A hyphen or an underscore.
pub open spec fn is_edge_mark(c: char) -> bool {
    c == '-' || c == '_'
}

/// The code of a character with ASCII lower-case letters taken as upper case.
pub open spec fn upper_code(c: char) -> int {
    if 'a' <= c && c <= 'z' {
        c as int - 32
    } else {
        c as int
    }
}

/// Two texts are the same but for the case of their ASCII letters.
pub open spec fn same_ignoring_case(a: Seq<char>, b: Seq<char>) -> bool {
    &&& a.len() == b.len()
    &&& forall|i: int| 0 <= i < a.len() ==> upper_code(#[trigger] a[i]) == upper_code(b[i])
}

/// Entry `k` of the reserved names is `s` in some case, and none before it is.
pub open spec fn is_first_reserved(s: Seq<char>, k: int) -> bool {
    &&& 0 <= k < reserved_names().len()
    &&& same_ignoring_case(s, reserved_names()[k])
    &&& forall|j: int| 0 <= j < k ==> !same_ignoring_case(s, #[trigger] reserved_names()[j])
}

/// `s` is a reserved device name in some case.
pub open spec fn is_reserved(s: Seq<char>) -> bool {
    exists|k: int|
        0 <= k < reserved_names().len() && same_ignoring_case(s, #[trigger] reserved_names()[k])
}

/// A control character: a code below 32, or from 127 to 159.
pub open spec fn is_control(c: char) -> bool {
    c <= '\u{1F}' || ('\u{7F}' <= c && c <= '\u{9F}')
}

/// `i` is the least index of `s` that holds a control character.
pub open spec fn is_first_control(s: Seq<char>, i: int) -> bool {
    &&& 0 <= i < s.len()
    &&& is_control(s[i])
    &&& forall|j: int| 0 <= j < i ==> !is_control(#[trigger] s[j])
}

/// `s` holds a control character.
pub open spec fn has_control(s: Seq<char>) -> bool {
    exists|i: int| 0 <= i < s.len() && is_control(#[trigger] s[i])
}

/// The first control character of a text.
pub open spec fn control_finding(s: Seq<char>) -> Option<Finding> {
    if has_control(s) {
        let i = choose|i: int| is_first_control(s, i);
        Some(Finding { reason: Reason::ControlCharacter, pattern: seq![s[i]], position: i })
    } else {
        None
    }
}

/// What a project name breaks, in order: it is empty; it is longer than the
/// limit, in bytes; it holds a character outside the alphabet; it starts or
/// ends with a hyphen or an underscore; it is a reserved device name.
pub open spec fn project_name_finding(s: Seq<char>) -> Option<Finding> {
    if s.len() == 0 {
        Some(Finding { reason: Reason::EmptyName, pattern: Seq::empty(), position: 0 })
    } else if encode_utf8(s).len() > MAX_PROJECT_NAME_LENGTH {
        Some(Finding { reason: Reason::NameTooLong, pattern: Seq::empty(), position: 0 })
    } else if has_invalid(s) {
        let i = choose|i: int| is_first_invalid(s, i);
        Some(Finding { reason: Reason::InvalidNameCharacter, pattern: seq![s[i]], position: i })
    } else if is_edge_mark(s[0]) {
        Some(Finding { reason: Reason::NameEdgePunctuation, pattern: seq![s[0]], position: 0 })
    } else if is_edge_mark(s.last()) {
        Some(
            Finding {
                reason: Reason::NameEdgePunctuation,
                pattern: seq![s.last()],
                position: s.len() - 1,
            },
        )
    } else if is_reserved(s) {
        let k = choose|k: int| is_first_reserved(s, k);
        Some(Finding { reason: Reason::ReservedName, pattern: reserved_names()[k], position: 0 })
    } else {
        None
    }
}

/// The name is `.` or `..`.
pub open spec fn dot_name_finding(s: Seq<char>) -> Option<Finding> {
    if s == seq!['.'] || s == seq!['.', '.'] {
        Some(Finding { reason: Reason::DotName, pattern: s, position: 0 })
    } else {
        None
    }
}

/// The name ends with a dot or a space.
pub open spec fn name_end_finding(s: Seq<char>) -> Option<Finding> {
    if s.len() > 0 && s.last() == '.' {
        Some(Finding { reason: Reason::TrailingDot, pattern: seq!['.'], position: s.len() - 1 })
    } else if s.len() > 0 && s.last() == ' ' {
        Some(Finding { reason: Reason::TrailingSpace, pattern: seq![' '], position: s.len() - 1 })
    } else {
        None
    }
}

/// The rules that hold of a file name alone, in order: no separator, not `.`
/// or `..`, no NUL, no control character, no dot or space at the end, no
/// colon.
pub open spec fn name_shape_finding(s: Seq<char>) -> Option<Finding> {
    or_else(
        token_finding(s, "/"@, Reason::SeparatorInName),
        or_else(
            token_finding(s, "\\"@, Reason::SeparatorInName),
            or_else(
                dot_name_finding(s),
                or_else(
                    token_finding(s, "\0"@, Reason::NulCharacter),
                    or_else(
                        control_finding(s),
                        or_else(
                            name_end_finding(s),
                            token_finding(s, ":"@, Reason::ColonInName),
                        ),
                    ),
                ),
            ),
        ),
    )
}

/// The detectors that a file name is put through, in order.
pub open spec fn name_attack_finding(s: Seq<char>) -> Option<Finding> {
    or_else(
        whitespace_finding(s),
        or_else(
            url_encoding_finding(s),
            or_else(
                overlong_utf8_finding(s),
                or_else(
                    unicode_encoding_finding(s),
                    or_else(dangerous_unicode_finding(s), windows_finding(s)),
                ),
            ),
        ),
    )
}

/// What a file name breaks, in order: it is empty; it is longer than the
/// limit, in bytes; a detector finds an attack; it has not the shape of a
/// name.
pub open spec fn filename_finding(s: Seq<char>) -> Option<Finding> {
    if s.len() == 0 {
        Some(Finding { reason: Reason::EmptyName, pattern: Seq::empty(), position: 0 })
    } else if encode_utf8(s).len() > MAX_FILENAME_LENGTH {
        Some(Finding { reason: Reason::NameTooLong, pattern: Seq::empty(), position: 0 })
    } else {
        or_else(name_attack_finding(s), name_shape_finding(s))
    }
}

/// There is only one first character outside the alphabet.
pub proof fn lemma_first_invalid(s: Seq<char>, i: int)
    requires
        is_first_invalid(s, i),
    ensures
        has_invalid(s),
        (choose|j: int| is_first_invalid(s, j)) == i,
{
    let j = choose|j: int| is_first_invalid(s, j);
    assert(is_first_invalid(s, j));
    if j < i {
        assert(is_name_char(s[j]));
    } else if i < j {
        assert(is_name_char(s[i]));
    }
}

/// There is only one first control character.
pub proof fn lemma_first_control(s: Seq<char>, i: int)
    requires
        is_first_control(s, i),
    ensures
        control_finding(s) == Some(
            Finding { reason: Reason::ControlCharacter, pattern: seq![s[i]], position: i },
        ),
{
    let j = choose|j: int| is_first_control(s, j);
    assert(is_first_control(s, j));
    if j < i {
        assert(!is_control(s[j]));
    } else if i < j {
        assert(!is_control(s[i]));
    }
}

/// There is only one first reserved name that matches.
pub proof fn lemma_first_reserved(s: Seq<char>, k: int)
    requires
        is_first_reserved(s, k),
    ensures
        is_reserved(s),
        (choose|j: int| is_first_reserved(s, j)) == k,
{
    let j = choose|j: int| is_first_reserved(s, j);
    assert(is_first_reserved(s, j));
    if j < k {
        assert(!same_ignoring_case(s, reserved_names()[j]));
    } else if k < j {
        assert(!same_ignoring_case(s, reserved_names()[k]));
    }
}

/// Whether a project name may hold a character.
pub fn name_char(c: char) -> (r: bool)
    ensures
        r == is_name_char(c),
{
    ascii_letter(c) || ('0' <= c && c <= '9') || c == '-' || c == '_'
}

/// Whether a character is a control character.
pub fn control_char(c: char) -> (r: bool)
    ensures
        r == is_control(c),
{
    c <= '\u{1F}' || ('\u{7F}' <= c && c <= '\u{9F}')
}

/// The code of a character with ASCII lower-case letters taken as upper case.
pub fn upper_code_of(c: char) -> (r: u32)
    ensures
        r == upper_code(c),
{
    let code: u32 = c as u32;
    if 'a' <= c && c <= 'z' {
        code - 32
    } else {
        code
    }
}

/// Whether two texts are the same but for the case of their ASCII letters.
pub fn equal_ignoring_case(a: &Vec<char>, b: &Vec<char>) -> (r: bool)
    ensures
        r == same_ignoring_case(a@, b@),
{
    if a.len() != b.len() {
        return false;
    }
    let mut i: usize = 0;
    while i < a.len()
        invariant
            i <= a.len(),
            a.len() == b.len(),
            forall|j: int| 0 <= j < i ==> upper_code(#[trigger] a@[j]) == upper_code(b@[j]),
        decreases a.len() - i,
    {
        if upper_code_of(a[i]) != upper_code_of(b[i]) {
            return false;
        }
        i += 1;
    }
    true
}

/// The index of the first reserved name that is `name` in some case.
fn find_reserved(name: &Vec<char>, table: &Vec<&'static str>) -> (r: Option<usize>)
    requires
        table_view(table@) == reserved_names(),
    ensures
        match r {
            Some(k) => is_first_reserved(name@, k as int),
            None => !is_reserved(name@),
        },
{
    let mut k: usize = 0;
    while k < table.len()
        invariant
            k <= table@.len(),
            table_view(table@) == reserved_names(),
            forall|j: int|
                0 <= j < k ==> !same_ignoring_case(name@, #[trigger] reserved_names()[j]),
        decreases table@.len() - k,
    {
        let entry = chars_of(table[k]);
        assert(reserved_names()[k as int] == entry@);
        if equal_ignoring_case(name, &entry) {
            return Some(k);
        }
        k += 1;
    }
    None
}

/// Validates a project name: not empty, at most 64 bytes, made of ASCII
/// letters, digits, hyphens and underscores, neither starting nor ending with
/// a hyphen or an underscore, and not a reserved device name in any case.
/// Returns the name unchanged.
#[verifier::loop_isolation(false)]
pub fn validate_project_name(name: &str) -> (r: Result<String, ValidationError>)
    ensures
        validates(r, name@, project_name_finding(name@)),
{
    if name.is_empty() {
        return Err(ValidationError::plain(Reason::EmptyName, name));
    }
    if byte_length(name) > MAX_PROJECT_NAME_LENGTH {
        return Err(ValidationError::plain(Reason::NameTooLong, name));
    }
    let chars = chars_of(name);
    let n: usize = chars.len();
    let mut i: usize = 0;
    while i < n
        invariant
            i <= n,
            n == chars.len(),
            chars@ == name@,
            forall|j: int| 0 <= j < i ==> is_name_char(#[trigger] chars@[j]),
        decreases n - i,
    {
        let c = chars[i];
        if !name_char(c) {
            proof {
                lemma_first_invalid(name@, i as int);
            }
            let token = char_string(c);
            return Err(
                ValidationError::new(Reason::InvalidNameCharacter, token.as_str(), i, name),
            );
        }
        i += 1;
    }
    let first = chars[0];
    if first == '-' || first == '_' {
        let token = char_string(first);
        return Err(ValidationError::new(Reason::NameEdgePunctuation, token.as_str(), 0, name));
    }
    let last = chars[n - 1];
    if last == '-' || last == '_' {
        let token = char_string(last);
        return Err(
            ValidationError::new(Reason::NameEdgePunctuation, token.as_str(), n - 1, name),
        );
    }
    let table = reserved_names_table();
    match find_reserved(&chars, &table) {
        Some(k) => {
            proof {
                lemma_first_reserved(name@, k as int);
                assert(table_view(table@)[k as int] == table@[k as int]@);
            }
            Err(ValidationError::new(Reason::ReservedName, table[k], 0, name))
        },
        None => Ok(name.to_owned()),
    }
}

#[verifier::loop_isolation(false)]
fn check_name_shape(name: &str, chars: &Vec<char>) -> (r: Result<(), ValidationError>)
    requires
        chars@ == name@,
    ensures
        reports(r, name@, name_shape_finding(name@)),
{
    check_token(name, chars, "/", Reason::SeparatorInName)?;
    check_token(name, chars, "\\", Reason::SeparatorInName)?;
    let n: usize = chars.len();
    if (n == 1 && chars[0] == '.') || (n == 2 && chars[0] == '.' && chars[1] == '.') {
        proof {
            if n == 1 {
                assert(name@ =~= seq!['.']);
            } else {
                assert(name@ =~= seq!['.', '.']);
            }
        }
        return Err(ValidationError::new(Reason::DotName, name, 0, name));
    }
    proof {
        if name@ == seq!['.'] {
            assert(name@.len() == 1 && name@[0] == '.');
        }
        if name@ == seq!['.', '.'] {
            assert(name@.len() == 2 && name@[0] == '.' && name@[1] == '.');
        }
    }
    check_token(name, chars, "\0", Reason::NulCharacter)?;
    let mut i: usize = 0;
    while i < n
        invariant
            i <= n,
            n == chars.len(),
            chars@ == name@,
            forall|j: int| 0 <= j < i ==> !is_control(#[trigger] chars@[j]),
        decreases n - i,
    {
        let c = chars[i];
        if control_char(c) {
            proof {
                lemma_first_control(name@, i as int);
            }
            let token = char_string(c);
            return Err(ValidationError::new(Reason::ControlCharacter, token.as_str(), i, name));
        }
        i += 1;
    }
    proof {
        reveal_strlit(".");
        reveal_strlit(" ");
        assert("."@ =~= seq!['.']);
        assert(" "@ =~= seq![' ']);
    }
    if n > 0 && chars[n - 1] == '.' {
        return Err(ValidationError::new(Reason::TrailingDot, ".", n - 1, name));
    }
    if n > 0 && chars[n - 1] == ' ' {
        return Err(ValidationError::new(Reason::TrailingSpace, " ", n - 1, name));
    }
    check_token(name, chars, ":", Reason::ColonInName)
}

/// Validates a bare file name: not empty, at most 255 bytes, free of every
/// encoded or platform-specific attack that the detectors know, and of the
/// shape of a name. Returns the name unchanged.
pub fn validate_filename(filename: &str) -> (r: Result<String, ValidationError>)
    ensures
        validates(r, filename@, filename_finding(filename@)),
{
    if filename.is_empty() {
        return Err(ValidationError::plain(Reason::EmptyName, filename));
    }
    if byte_length(filename) > MAX_FILENAME_LENGTH {
        return Err(ValidationError::plain(Reason::NameTooLong, filename));
    }
    let _ = normalize_and_check(filename)?;
    detect_url_encoding(filename)?;
    detect_overlong_utf8(filename)?;
    detect_unicode_encoding(filename)?;
    detect_dangerous_unicode(filename)?;
    detect_windows_attacks(filename)?;
    let chars = chars_of(filename);
    check_name_shape(filename, &chars)?;
    Ok(filename.to_owned())
}

} // verus!
