//! The encoding attack detector: encoded or disguised forms of path
//! characters, and the whitespace check that comes before every other rule.
//!
//! Detection goes by signature. A text without a finding holds none of the
//! cataloged forms; forms outside the catalog are not seen.

use vstd::prelude::*;
use vstd::utf8::encode_utf8;
use crate::error::{Finding, Reason, ValidationError};
use crate::patterns::{
    overlong_utf8_patterns, overlong_utf8_patterns_table, url_encoded_tokens,
    url_encoded_tokens_table, ZERO_PAIR_DIVISOR,
};
use crate::report::{check_table, check_token, or_else, reports, table_finding, token_finding};
use crate::text::{char_string, chars_of, find, occurs};
use crate::unicode::unicode_lowercase;

verus! {

/// Percent-encoded tokens, then the mark of a second encoding.
pub open spec fn url_encoding_finding(s: Seq<char>) -> Option<Finding> {
    or_else(
        table_finding(s, url_encoded_tokens(), Reason::UrlEncodedToken),
        token_finding(s, "%25"@, Reason::DoubleUrlEncoding),
    )
}

/// Overlong UTF-8 forms, sought in the lower-case form of the text. The
/// position counts characters of that lower-case form.
pub open spec fn overlong_utf8_finding(s: Seq<char>) -> Option<Finding> {
    table_finding(unicode_lowercase(s), overlong_utf8_patterns(), Reason::OverlongUtf8)
}

/// `%u` escapes, then numeric character references.
pub open spec fn unicode_encoding_finding(s: Seq<char>) -> Option<Finding> {
    or_else(
        token_finding(s, "%u"@, Reason::PercentUEscape),
        token_finding(s, "&#"@, Reason::HtmlEntity),
    )
}

/// The rule that a single character breaks, if it breaks one.
pub open spec fn dangerous_class(c: char) -> Option<Reason> {
    if c == '\u{200B}' || c == '\u{200C}' || c == '\u{200D}' || c == '\u{FEFF}' {
        Some(Reason::ZeroWidthCharacter)
    } else if c == '\u{202E}' {
        Some(Reason::RightToLeftOverride)
    } else if c == '\u{2024}' || c == '\u{2025}' || c == '\u{2026}' {
        Some(Reason::DotHomoglyph)
    } else if c == '\u{2044}' || c == '\u{2215}' || c == '\u{2571}' || c == '\u{29F8}' || c
        == '\u{FF0F}' {
        Some(Reason::SlashHomoglyph)
    } else if c == '\u{2216}' || c == '\u{FF3C}' {
        Some(Reason::BackslashHomoglyph)
    } else if c == '\u{00A5}' || c == '\u{20A9}' || c == '\u{00B4}' {
        Some(Reason::CodePageHomoglyph)
    } else if '\u{FF01}' <= c && c <= '\u{FF5E}' {
        Some(Reason::FullWidthCharacter)
    } else if c == '?' || c == '*' {
        Some(Reason::WildcardCharacter)
    } else {
        None
    }
}

/// `i` is the least index of `s` that holds a dangerous character.
pub open spec fn is_first_dangerous(s: Seq<char>, i: int) -> bool {
    &&& 0 <= i < s.len()
    &&& dangerous_class(s[i]) is Some
    &&& forall|j: int| 0 <= j < i ==> dangerous_class(#[trigger] s[j]) is None
}

/// `s` holds a dangerous character.
pub open spec fn has_dangerous(s: Seq<char>) -> bool {
    exists|i: int| 0 <= i < s.len() && dangerous_class(#[trigger] s[i]) is Some
}

/// The first dangerous character of the text, with the rule it breaks.
pub open spec fn dangerous_unicode_finding(s: Seq<char>) -> Option<Finding> {
    if has_dangerous(s) {
        let i = choose|i: int| is_first_dangerous(s, i);
        Some(Finding { reason: dangerous_class(s[i])->0, pattern: seq![s[i]], position: i })
    } else {
        None
    }
}

/// The character has the Unicode property White_Space: the controls from
/// the tab to the carriage return, the space, the next-line control and the
/// no-break space, and the space and line separators of the general
/// punctuation block and beside it. These are the characters that trimming a
/// text takes from its ends.
pub open spec fn is_white_space(c: char) -> bool {
    ||| '\u{0009}' <= c && c <= '\u{000D}'
    ||| c == '\u{0020}'
    ||| c == '\u{0085}'
    ||| c == '\u{00A0}'
    ||| c == '\u{1680}'
    ||| '\u{2000}' <= c && c <= '\u{200A}'
    ||| c == '\u{2028}'
    ||| c == '\u{2029}'
    ||| c == '\u{202F}'
    ||| c == '\u{205F}'
    ||| c == '\u{3000}'
}

/// Two spaces in a row, at their first occurrence.
pub open spec fn doubled_whitespace_finding(s: Seq<char>) -> Option<Finding> {
    token_finding(s, "  "@, Reason::DoubledWhitespace)
}

/// White space at either end, then two spaces in a row.
pub open spec fn whitespace_finding(s: Seq<char>) -> Option<Finding> {
    if s.len() > 0 && is_white_space(s[0]) {
        Some(Finding { reason: Reason::SurroundingWhitespace, pattern: seq![s[0]], position: 0 })
    } else if s.len() > 0 && is_white_space(s.last()) {
        Some(
            Finding {
                reason: Reason::SurroundingWhitespace,
                pattern: seq![s.last()],
                position: s.len() - 1,
            },
        )
    } else {
        doubled_whitespace_finding(s)
    }
}

/// The number of even offsets below `n` that are followed, inside `b`, by a
/// zero byte.
pub open spec fn zero_pairs_below(b: Seq<u8>, n: int) -> int
    decreases n,
{
    if n <= 0 {
        0
    } else {
        zero_pairs_below(b, n - 1) + if (n - 1) % 2 == 0 && n < b.len() && b[n] == 0 {
            1int
        } else {
            0int
        }
    }
}

/// The number of even offsets of a text of `n` bytes.
pub open spec fn even_offsets(n: nat) -> nat {
    (n + 1) / 2
}

/// The bytes look like UTF-16: more than one in eight of their even offsets
/// are followed by a zero byte.
pub open spec fn looks_like_utf16(b: Seq<u8>) -> bool {
    ZERO_PAIR_DIVISOR * zero_pairs_below(b, b.len() as int) > even_offsets(b.len())
}

/// The text mixes encodings: it starts with a byte-order mark, holds a numeric
/// character reference, or its UTF-8 bytes look like UTF-16.
pub open spec fn mixed_encoding(s: Seq<char>) -> bool {
    ||| s.len() > 0 && (s[0] == '\u{FEFF}' || s[0] == '\u{FFFE}')
    ||| occurs(s, "&#"@)
    ||| looks_like_utf16(encode_utf8(s))
}

/// There is only one first dangerous character.
pub proof fn lemma_first_dangerous(s: Seq<char>, i: int)
    requires
        is_first_dangerous(s, i),
    ensures
        dangerous_unicode_finding(s) == Some(
            Finding { reason: dangerous_class(s[i])->0, pattern: seq![s[i]], position: i },
        ),
{
    let j = choose|j: int| is_first_dangerous(s, j);
    assert(is_first_dangerous(s, j));
    if j < i {
        assert(dangerous_class(s[j]) is None);
    } else if i < j {
        assert(dangerous_class(s[i]) is None);
    }
}

/// Detects percent-encoded dots, separators, NUL and line breaks, and the
/// mark `%25` of a second encoding.
pub fn detect_url_encoding(path: &str) -> (r: Result<(), ValidationError>)
    ensures
        reports(r, path@, url_encoding_finding(path@)),
{
    let chars = chars_of(path);
    let table = url_encoded_tokens_table();
    check_table(path, &chars, &table, Reason::UrlEncodedToken)?;
    check_token(path, &chars, "%25", Reason::DoubleUrlEncoding)
}

/// Detects percent-encoded overlong UTF-8 forms of `.`, `/` and `\`, in
/// either case.
pub fn detect_overlong_utf8(path: &str) -> (r: Result<(), ValidationError>)
    ensures
        reports(r, path@, overlong_utf8_finding(path@)),
{
    let lower = path.to_lowercase();
    let chars = chars_of(lower.as_str());
    let table = overlong_utf8_patterns_table();
    check_table(path, &chars, &table, Reason::OverlongUtf8)
}

/// Detects `%u` escapes and numeric character references.
pub fn detect_unicode_encoding(path: &str) -> (r: Result<(), ValidationError>)
    ensures
        reports(r, path@, unicode_encoding_finding(path@)),
{
    let chars = chars_of(path);
    check_token(path, &chars, "%u", Reason::PercentUEscape)?;
    check_token(path, &chars, "&#", Reason::HtmlEntity)
}

/// The rule that a single character breaks, if it breaks one.
pub fn classify_char(c: char) -> (r: Option<Reason>)
    ensures
        r == dangerous_class(c),
{
    if c == '\u{200B}' || c == '\u{200C}' || c == '\u{200D}' || c == '\u{FEFF}' {
        Some(Reason::ZeroWidthCharacter)
    } else if c == '\u{202E}' {
        Some(Reason::RightToLeftOverride)
    } else if c == '\u{2024}' || c == '\u{2025}' || c == '\u{2026}' {
        Some(Reason::DotHomoglyph)
    } else if c == '\u{2044}' || c == '\u{2215}' || c == '\u{2571}' || c == '\u{29F8}' || c
        == '\u{FF0F}' {
        Some(Reason::SlashHomoglyph)
    } else if c == '\u{2216}' || c == '\u{FF3C}' {
        Some(Reason::BackslashHomoglyph)
    } else if c == '\u{00A5}' || c == '\u{20A9}' || c == '\u{00B4}' {
        Some(Reason::CodePageHomoglyph)
    } else if '\u{FF01}' <= c && c <= '\u{FF5E}' {
        Some(Reason::FullWidthCharacter)
    } else if c == '?' || c == '*' {
        Some(Reason::WildcardCharacter)
    } else {
        None
    }
}

/// Detects zero-width characters, the right-to-left override, look-alikes of
/// the dot and the separators, full-width forms and wildcards. The first such
/// character of the text is reported.
pub fn detect_dangerous_unicode(path: &str) -> (r: Result<(), ValidationError>)
    ensures
        reports(r, path@, dangerous_unicode_finding(path@)),
{
    let chars = chars_of(path);
    let mut i: usize = 0;
    while i < chars.len()
        invariant
            i <= chars.len(),
            chars@ == path@,
            forall|j: int| 0 <= j < i ==> dangerous_class(#[trigger] chars@[j]) is None,
        decreases chars.len() - i,
    {
        let c = chars[i];
        match classify_char(c) {
            Some(reason) => {
                proof {
                    lemma_first_dangerous(path@, i as int);
                }
                let token = char_string(c);
                return Err(ValidationError::new(reason, token.as_str(), i, path));
            },
            None => {},
        }
        i += 1;
    }
    Ok(())
}

/// Counts the even offsets of `bytes` that are followed by a zero byte.
pub fn count_zero_pairs(bytes: &[u8]) -> (n: usize)
    ensures
        n == zero_pairs_below(bytes@, bytes@.len() as int),
{
    let len: usize = bytes.len();
    let mut n: usize = 0;
    let mut i: usize = 0;
    while i < len
        invariant
            i <= len,
            len == bytes@.len(),
            n <= i,
            n == zero_pairs_below(bytes@, i as int),
        decreases len - i,
    {
        if i % 2 == 0 && i + 1 < len && bytes[i + 1] == 0 {
            n += 1;
        }
        i += 1;
    }
    n
}

/// Whether a text mixes encodings: a byte-order mark at its start, a numeric
/// character reference, or UTF-8 bytes that look like UTF-16.
pub fn detect_mixed_encoding(path: &str) -> (r: bool)
    ensures
        r == mixed_encoding(path@),
{
    let chars = chars_of(path);
    if chars.len() > 0 && (chars[0] == '\u{FEFF}' || chars[0] == '\u{FFFE}') {
        return true;
    }
    let marker = chars_of("&#");
    if find(&chars, &marker).is_some() {
        return true;
    }
    let bytes = path.as_bytes();
    let evens: usize = bytes.len() / 2 + bytes.len() % 2;
    count_zero_pairs(bytes) > evens / ZERO_PAIR_DIVISOR
}

/// Whether a character has the Unicode property White_Space.
pub fn white_space(c: char) -> (r: bool)
    ensures
        r == is_white_space(c),
{
    ('\u{0009}' <= c && c <= '\u{000D}') || c == '\u{0020}' || c == '\u{0085}' || c == '\u{00A0}'
        || c == '\u{1680}' || ('\u{2000}' <= c && c <= '\u{200A}') || c == '\u{2028}' || c
        == '\u{2029}' || c == '\u{202F}' || c == '\u{205F}' || c == '\u{3000}'
}

/// Checks a text for white space at either end and for two spaces in a row,
/// and returns it unchanged. White space is a signal: it is never removed.
pub fn normalize_and_check(path: &str) -> (r: Result<String, ValidationError>)
    ensures
        match r {
            Ok(normalized) => whitespace_finding(path@) is None && normalized@ == path@,
            Err(e) => whitespace_finding(path@) == Some(e.finding()) && e.input@ == path@,
        },
{
    let chars = chars_of(path);
    let n: usize = chars.len();
    if n > 0 {
        let first = chars[0];
        if white_space(first) {
            let token = char_string(first);
            return Err(
                ValidationError::new(Reason::SurroundingWhitespace, token.as_str(), 0, path),
            );
        }
        let last = chars[n - 1];
        if white_space(last) {
            let token = char_string(last);
            return Err(
                ValidationError::new(Reason::SurroundingWhitespace, token.as_str(), n - 1, path),
            );
        }
    }
    check_token(path, &chars, "  ", Reason::DoubledWhitespace)?;
    Ok(path.to_owned())
}

} // verus!
