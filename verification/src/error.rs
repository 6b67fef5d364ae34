//! What a failed validation reports: the kind of failure, the rule that was
//! broken, the token that broke it and where it stands, and the input.

use vstd::prelude::*;

verus! {

/// The classes of failure.
#[derive(Clone, Copy, Debug, PartialEq, Eq, Structural)]
pub enum ErrorKind {
    /// The input is empty, too long, or has misplaced whitespace.
    MalformedInput,
    /// An encoded or disguised form of a path character.
    EncodingAttack,
    /// Separators, traversal sequences or reserved tokens in the raw text.
    StructuralAttack,
    /// A construct that one platform gives a special meaning.
    PlatformAttack,
    /// A URI scheme at the start of the input.
    SchemeAttack,
    /// An absolute path into a system directory.
    SensitivePathAttack,
    /// A symbolic link chain that repeats or is too long.
    SymlinkAttack,
    /// The resolved location lies outside the base directory.
    ConfinementViolation,
    /// The environment could not answer; no statement about the input.
    FilesystemError,
}

/// The rule that an input broke.
#[derive(Clone, Copy, Debug, PartialEq, Eq, Structural)]
pub enum Reason {
    EmptyPath,
    EmptyName,
    NameTooLong,
    InvalidNameCharacter,
    NameEdgePunctuation,
    SurroundingWhitespace,
    DoubledWhitespace,
    PathTooLong,
    UrlEncodedToken,
    DoubleUrlEncoding,
    OverlongUtf8,
    PercentUEscape,
    HtmlEntity,
    ZeroWidthCharacter,
    RightToLeftOverride,
    DotHomoglyph,
    SlashHomoglyph,
    BackslashHomoglyph,
    CodePageHomoglyph,
    FullWidthCharacter,
    WildcardCharacter,
    MixedEncoding,
    AbsolutePath,
    RepeatedSeparators,
    MixedSeparators,
    UnusualSeparator,
    TraversalPattern,
    NestedTraversal,
    HexEscape,
    SuspiciousToken,
    SeparatorInName,
    DotName,
    NulCharacter,
    ControlCharacter,
    StrayColon,
    AlternateDataStream,
    UncPath,
    DevicePath,
    TrailingDot,
    TrailingSpace,
    ColonInName,
    ReservedName,
    FileScheme,
    HttpScheme,
    DangerousScheme,
    SensitivePath,
    SymlinkLoop,
    SymlinkChainTooLong,
    EscapesBase,
    BaseUnresolvable,
    LinkUnreadable,
    PathUnresolvable,
    ParentUnresolvable,
    NoParent,
    NoFinalSegment,
    UnexpectedAnswer,
}

/// The class that a rule belongs to.
pub open spec fn kind_of(reason: Reason) -> ErrorKind {
    match reason {
        Reason::EmptyPath
        | Reason::EmptyName
        | Reason::NameTooLong
        | Reason::InvalidNameCharacter
        | Reason::NameEdgePunctuation
        | Reason::SurroundingWhitespace
        | Reason::DoubledWhitespace
        | Reason::PathTooLong => ErrorKind::MalformedInput,
        Reason::UrlEncodedToken
        | Reason::DoubleUrlEncoding
        | Reason::OverlongUtf8
        | Reason::PercentUEscape
        | Reason::HtmlEntity
        | Reason::ZeroWidthCharacter
        | Reason::RightToLeftOverride
        | Reason::DotHomoglyph
        | Reason::SlashHomoglyph
        | Reason::BackslashHomoglyph
        | Reason::CodePageHomoglyph
        | Reason::FullWidthCharacter
        | Reason::WildcardCharacter
        | Reason::MixedEncoding => ErrorKind::EncodingAttack,
        Reason::AbsolutePath
        | Reason::RepeatedSeparators
        | Reason::MixedSeparators
        | Reason::UnusualSeparator
        | Reason::TraversalPattern
        | Reason::NestedTraversal
        | Reason::HexEscape
        | Reason::SuspiciousToken
        | Reason::SeparatorInName
        | Reason::DotName
        | Reason::NulCharacter
        | Reason::ControlCharacter => ErrorKind::StructuralAttack,
        Reason::StrayColon
        | Reason::AlternateDataStream
        | Reason::UncPath
        | Reason::DevicePath
        | Reason::TrailingDot
        | Reason::TrailingSpace
        | Reason::ColonInName
        | Reason::ReservedName => ErrorKind::PlatformAttack,
        Reason::FileScheme
        | Reason::HttpScheme
        | Reason::DangerousScheme => ErrorKind::SchemeAttack,
        Reason::SensitivePath => ErrorKind::SensitivePathAttack,
        Reason::SymlinkLoop | Reason::SymlinkChainTooLong => ErrorKind::SymlinkAttack,
        Reason::EscapesBase => ErrorKind::ConfinementViolation,
        Reason::BaseUnresolvable
        | Reason::LinkUnreadable
        | Reason::PathUnresolvable
        | Reason::ParentUnresolvable
        | Reason::NoParent
        | Reason::NoFinalSegment
        | Reason::UnexpectedAnswer => ErrorKind::FilesystemError,
    }
}

/// The sentence that describes a broken rule.
pub open spec fn reason_text(reason: Reason) -> Seq<char> {
    match reason {
        Reason::EmptyPath => "Path cannot be empty"@,
        Reason::EmptyName => "Name cannot be empty"@,
        Reason::NameTooLong => "Name too long"@,
        Reason::InvalidNameCharacter => "Project name contains invalid characters"@,
        Reason::NameEdgePunctuation => "Project name cannot start or end with '-' or '_'"@,
        Reason::SurroundingWhitespace => "Leading or trailing whitespace detected in path"@,
        Reason::DoubledWhitespace => "Multiple consecutive spaces detected in path"@,
        Reason::PathTooLong => "Path too long"@,
        Reason::UrlEncodedToken => "URL-encoded characters detected in path"@,
        Reason::DoubleUrlEncoding => "Double URL encoding detected in path"@,
        Reason::OverlongUtf8 => "UTF-8 overlong encoding detected"@,
        Reason::PercentUEscape => "Unicode percent encoding (%u) detected in path"@,
        Reason::HtmlEntity => "HTML entity encoding detected in path"@,
        Reason::ZeroWidthCharacter => "Zero-width Unicode character detected in path"@,
        Reason::RightToLeftOverride => "Right-to-left override character detected in path"@,
        Reason::DotHomoglyph => "Unicode dot homoglyph detected in path"@,
        Reason::SlashHomoglyph => "Unicode slash homoglyph detected in path"@,
        Reason::BackslashHomoglyph => "Unicode backslash homoglyph detected in path"@,
        Reason::CodePageHomoglyph => "Code page specific separator homoglyph detected in path"@,
        Reason::FullWidthCharacter => "Full-width Unicode character detected in path"@,
        Reason::WildcardCharacter => "Wildcard character detected in path"@,
        Reason::MixedEncoding => "Mixed encoding attack detected in path"@,
        Reason::AbsolutePath => "Absolute paths are not allowed"@,
        Reason::RepeatedSeparators => "Multiple consecutive path separators detected"@,
        Reason::MixedSeparators => "Mixed path separators detected (possible evasion)"@,
        Reason::UnusualSeparator => "Unusual separator character detected in path"@,
        Reason::TraversalPattern => "Directory traversal pattern detected"@,
        Reason::NestedTraversal => "Nested traversal pattern detected"@,
        Reason::HexEscape => "Hex-encoded path characters detected"@,
        Reason::SuspiciousToken => "Suspicious pattern detected in path"@,
        Reason::SeparatorInName => "Filename cannot contain path separators"@,
        Reason::DotName => "Invalid filename"@,
        Reason::NulCharacter => "Null byte detected"@,
        Reason::ControlCharacter => "Filename contains control characters"@,
        Reason::StrayColon => "Colon detected in path (possible NTFS stream or device)"@,
        Reason::AlternateDataStream => "NTFS alternate data stream syntax detected"@,
        Reason::UncPath => "UNC path detected"@,
        Reason::DevicePath => "Windows device path detected"@,
        Reason::TrailingDot => "Trailing dot detected in path component (Windows exploit)"@,
        Reason::TrailingSpace => "Trailing space detected in path component (Windows exploit)"@,
        Reason::ColonInName => "Filename cannot contain colon (NTFS stream syntax)"@,
        Reason::ReservedName => "Project name is a reserved system name"@,
        Reason::FileScheme => "File protocol scheme detected in path"@,
        Reason::HttpScheme => "HTTP protocol scheme detected in path (possible SSRF)"@,
        Reason::DangerousScheme => "Dangerous protocol scheme detected"@,
        Reason::SensitivePath => "Access to sensitive system path denied"@,
        Reason::SymlinkLoop => "Recursive symlink detected"@,
        Reason::SymlinkChainTooLong => "Symlink chain too long, possible recursive symlink"@,
        Reason::EscapesBase => "Path traversal detected: path resolves outside base directory"@,
        Reason::BaseUnresolvable => "Failed to canonicalize base directory"@,
        Reason::LinkUnreadable => "Failed to read symlink"@,
        Reason::PathUnresolvable => "Failed to canonicalize existing path"@,
        Reason::ParentUnresolvable => "Failed to validate parent directory"@,
        Reason::NoParent => "Path has no parent directory"@,
        Reason::NoFinalSegment => "Path has no final segment"@,
        Reason::UnexpectedAnswer => "Answer does not match the pending request"@,
    }
}

/// What a detector found: the rule, the token that broke it (empty where the
/// rule names none) and the place of the token. The place is an index, in
/// characters, into the text that was searched: the input, or its lower-case
/// or upper-case form where a rule is matched in any case. For a zero byte in
/// a joined path it is the offset in bytes.
pub struct Finding {
    pub reason: Reason,
    pub pattern: Seq<char>,
    pub position: int,
}

/// The text of a finding: the rule's sentence, then the token after a colon.
pub open spec fn finding_message(f: Finding) -> Seq<char> {
    if f.pattern.len() == 0 {
        reason_text(f.reason)
    } else {
        reason_text(f.reason) + ": "@ + f.pattern
    }
}

/// A failed validation.
#[derive(Clone, Debug)]
pub struct ValidationError {
    /// The rule that was broken.
    pub reason: Reason,
    /// The token that broke it; empty where the rule names none.
    pub pattern: String,
    /// The place of the token in the text that was searched.
    pub position: usize,
    /// The input as it was given.
    pub input: String,
}

impl Reason {
    /// The class that this rule belongs to.
    pub fn kind(&self) -> (k: ErrorKind)
        ensures
            k == kind_of(*self),
    {
        match self {
            Reason::EmptyPath
            | Reason::EmptyName
            | Reason::NameTooLong
            | Reason::InvalidNameCharacter
            | Reason::NameEdgePunctuation
            | Reason::SurroundingWhitespace
            | Reason::DoubledWhitespace
            | Reason::PathTooLong => ErrorKind::MalformedInput,
            Reason::UrlEncodedToken
            | Reason::DoubleUrlEncoding
            | Reason::OverlongUtf8
            | Reason::PercentUEscape
            | Reason::HtmlEntity
            | Reason::ZeroWidthCharacter
            | Reason::RightToLeftOverride
            | Reason::DotHomoglyph
            | Reason::SlashHomoglyph
            | Reason::BackslashHomoglyph
            | Reason::CodePageHomoglyph
            | Reason::FullWidthCharacter
            | Reason::WildcardCharacter
            | Reason::MixedEncoding => ErrorKind::EncodingAttack,
            Reason::AbsolutePath
            | Reason::RepeatedSeparators
            | Reason::MixedSeparators
            | Reason::UnusualSeparator
            | Reason::TraversalPattern
            | Reason::NestedTraversal
            | Reason::HexEscape
            | Reason::SuspiciousToken
            | Reason::SeparatorInName
            | Reason::DotName
            | Reason::NulCharacter
            | Reason::ControlCharacter => ErrorKind::StructuralAttack,
            Reason::StrayColon
            | Reason::AlternateDataStream
            | Reason::UncPath
            | Reason::DevicePath
            | Reason::TrailingDot
            | Reason::TrailingSpace
            | Reason::ColonInName
            | Reason::ReservedName => ErrorKind::PlatformAttack,
            Reason::FileScheme
        | Reason::HttpScheme
        | Reason::DangerousScheme => ErrorKind::SchemeAttack,
            Reason::SensitivePath => ErrorKind::SensitivePathAttack,
            Reason::SymlinkLoop | Reason::SymlinkChainTooLong => ErrorKind::SymlinkAttack,
            Reason::EscapesBase => ErrorKind::ConfinementViolation,
            Reason::BaseUnresolvable
            | Reason::LinkUnreadable
            | Reason::PathUnresolvable
            | Reason::ParentUnresolvable
            | Reason::NoParent
            | Reason::NoFinalSegment
            | Reason::UnexpectedAnswer => ErrorKind::FilesystemError,
        }
    }

    /// The sentence that describes this rule.
    pub fn text(&self) -> (t: &'static str)
        ensures
            t@ == reason_text(*self),
    {
        match self {
            Reason::EmptyPath => "Path cannot be empty",
            Reason::EmptyName => "Name cannot be empty",
            Reason::NameTooLong => "Name too long",
            Reason::InvalidNameCharacter => "Project name contains invalid characters",
            Reason::NameEdgePunctuation => "Project name cannot start or end with '-' or '_'",
            Reason::SurroundingWhitespace => "Leading or trailing whitespace detected in path",
            Reason::DoubledWhitespace => "Multiple consecutive spaces detected in path",
            Reason::PathTooLong => "Path too long",
            Reason::UrlEncodedToken => "URL-encoded characters detected in path",
            Reason::DoubleUrlEncoding => "Double URL encoding detected in path",
            Reason::OverlongUtf8 => "UTF-8 overlong encoding detected",
            Reason::PercentUEscape => "Unicode percent encoding (%u) detected in path",
            Reason::HtmlEntity => "HTML entity encoding detected in path",
            Reason::ZeroWidthCharacter => "Zero-width Unicode character detected in path",
            Reason::RightToLeftOverride => "Right-to-left override character detected in path",
            Reason::DotHomoglyph => "Unicode dot homoglyph detected in path",
            Reason::SlashHomoglyph => "Unicode slash homoglyph detected in path",
            Reason::BackslashHomoglyph => "Unicode backslash homoglyph detected in path",
            Reason::CodePageHomoglyph => "Code page specific separator homoglyph detected in path",
            Reason::FullWidthCharacter => "Full-width Unicode character detected in path",
            Reason::WildcardCharacter => "Wildcard character detected in path",
            Reason::MixedEncoding => "Mixed encoding attack detected in path",
            Reason::AbsolutePath => "Absolute paths are not allowed",
            Reason::RepeatedSeparators => "Multiple consecutive path separators detected",
            Reason::MixedSeparators => "Mixed path separators detected (possible evasion)",
            Reason::UnusualSeparator => "Unusual separator character detected in path",
            Reason::TraversalPattern => "Directory traversal pattern detected",
            Reason::NestedTraversal => "Nested traversal pattern detected",
            Reason::HexEscape => "Hex-encoded path characters detected",
            Reason::SuspiciousToken => "Suspicious pattern detected in path",
            Reason::SeparatorInName => "Filename cannot contain path separators",
            Reason::DotName => "Invalid filename",
            Reason::NulCharacter => "Null byte detected",
            Reason::ControlCharacter => "Filename contains control characters",
            Reason::StrayColon => "Colon detected in path (possible NTFS stream or device)",
            Reason::AlternateDataStream => "NTFS alternate data stream syntax detected",
            Reason::UncPath => "UNC path detected",
            Reason::DevicePath => "Windows device path detected",
            Reason::TrailingDot => "Trailing dot detected in path component (Windows exploit)",
            Reason::TrailingSpace => "Trailing space detected in path component (Windows exploit)",
            Reason::ColonInName => "Filename cannot contain colon (NTFS stream syntax)",
            Reason::ReservedName => "Project name is a reserved system name",
            Reason::FileScheme => "File protocol scheme detected in path",
            Reason::HttpScheme => "HTTP protocol scheme detected in path (possible SSRF)",
            Reason::DangerousScheme => "Dangerous protocol scheme detected",
            Reason::SensitivePath => "Access to sensitive system path denied",
            Reason::SymlinkLoop => "Recursive symlink detected",
            Reason::SymlinkChainTooLong => "Symlink chain too long, possible recursive symlink",
            Reason::EscapesBase => "Path traversal detected: path resolves outside base directory",
            Reason::BaseUnresolvable => "Failed to canonicalize base directory",
            Reason::LinkUnreadable => "Failed to read symlink",
            Reason::PathUnresolvable => "Failed to canonicalize existing path",
            Reason::ParentUnresolvable => "Failed to validate parent directory",
            Reason::NoParent => "Path has no parent directory",
            Reason::NoFinalSegment => "Path has no final segment",
            Reason::UnexpectedAnswer => "Answer does not match the pending request",
        }
    }
}

impl ValidationError {
    /// What this error reports, without the echoed input.
    pub open spec fn finding(&self) -> Finding {
        Finding { reason: self.reason, pattern: self.pattern@, position: self.position as int }
    }

    /// An error for a rule broken by the token `pattern` at `position` of `input`.
    pub fn new(reason: Reason, pattern: &str, position: usize, input: &str) -> (e: ValidationError)
        ensures
            e.finding() == (Finding { reason, pattern: pattern@, position: position as int }),
            e.input@ == input@,
    {
        ValidationError {
            reason,
            pattern: pattern.to_owned(),
            position,
            input: input.to_owned(),
        }
    }

    /// An error for a rule that names no token.
    pub fn plain(reason: Reason, input: &str) -> (e: ValidationError)
        ensures
            e.finding() == (Finding { reason, pattern: Seq::empty(), position: 0 }),
            e.input@ == input@,
    {
        proof {
            reveal_strlit("");
            assert(""@ =~= Seq::<char>::empty());
        }
        ValidationError::new(reason, "", 0, input)
    }

    /// The class of this failure.
    pub fn kind(&self) -> (k: ErrorKind)
        ensures
            k == kind_of(self.reason),
    {
        self.reason.kind()
    }

    /// The text of this failure: the rule's sentence, then the token after a
    /// colon where there is one.
    pub fn message(&self) -> (m: String)
        ensures
            m@ == finding_message(self.finding()),
    {
        let mut m: String = self.reason.text().to_owned();
        if !self.pattern.as_str().is_empty() {
            m.append(": ");
            m.append(self.pattern.as_str());
        }
        m
    }
}

} // verus!
