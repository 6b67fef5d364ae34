//! The pattern tables: limits and the catalogs of forbidden substrings,
//! prefixes and names. Each catalog is stated once as a sequence of character
//! sequences and once as the table that the detectors walk.

use vstd::prelude::*;
use crate::text::table_view;

verus! {

/// Longest accepted joined path, in bytes.
pub const MAX_PATH_LENGTH: usize = 4096;

/// Longest accepted file name, in bytes.
pub const MAX_FILENAME_LENGTH: usize = 255;

/// Longest accepted project name, in bytes.
pub const MAX_PROJECT_NAME_LENGTH: usize = 64;

/// Most symbolic links that one walk follows.
pub const MAX_SYMLINK_CHAIN_LENGTH: usize = 100;

/// A text is taken for UTF-16 when more than one in this many of its even
/// offsets are followed by a zero byte.
pub const ZERO_PAIR_DIVISOR: usize = 8;

/// Percent-encoded dots, separators, NUL and line breaks, in both cases.
pub open spec fn url_encoded_tokens() -> Seq<Seq<char>> {
    seq![
        "%2e"@,
        "%2E"@,
        "%2f"@,
        "%2F"@,
        "%5c"@,
        "%5C"@,
        "%00"@,
        "%0a"@,
        "%0A"@,
        "%0d"@,
        "%0D"@,
    ]
}

/// The table of `url_encoded_tokens`.
pub fn url_encoded_tokens_table() -> (t: Vec<&'static str>)
    ensures
        table_view(t@) == url_encoded_tokens(),
{
    let t = vec![
        "%2e",
        "%2E",
        "%2f",
        "%2F",
        "%5c",
        "%5C",
        "%00",
        "%0a",
        "%0A",
        "%0d",
        "%0D",
    ];
    proof {
        assert(table_view(t@) =~= url_encoded_tokens());
    }
    t
}

/// Percent-encoded overlong UTF-8 forms of `.`, `/` and `\`, in lower case.
pub open spec fn overlong_utf8_patterns() -> Seq<Seq<char>> {
    seq![
        "%c0%ae"@,
        "%c0%af"@,
        "%c1%9c"@,
        "%c0%2e"@,
        "%e0%80%ae"@,
    ]
}

/// The table of `overlong_utf8_patterns`.
pub fn overlong_utf8_patterns_table() -> (t: Vec<&'static str>)
    ensures
        table_view(t@) == overlong_utf8_patterns(),
{
    let t = vec![
        "%c0%ae",
        "%c0%af",
        "%c1%9c",
        "%c0%2e",
        "%e0%80%ae",
    ];
    proof {
        assert(table_view(t@) =~= overlong_utf8_patterns());
    }
    t
}

/// Dot sequences that stand for, or hide, a step to the parent directory.
pub open spec fn traversal_patterns() -> Seq<Seq<char>> {
    seq![
        ".."@,
        "..."@,
        "...."@,
        ". ."@,
        ". . "@,
        ".\t."@,
        ".|."@,
    ]
}

/// The table of `traversal_patterns`.
pub fn traversal_patterns_table() -> (t: Vec<&'static str>)
    ensures
        table_view(t@) == traversal_patterns(),
{
    let t = vec![
        "..",
        "...",
        "....",
        ". .",
        ". . ",
        ".\t.",
        ".|.",
    ];
    proof {
        assert(table_view(t@) =~= traversal_patterns());
    }
    t
}

/// Dot sequences joined to separators.
pub open spec fn nested_traversal_patterns() -> Seq<Seq<char>> {
    seq![
        "....//"@,
        "....\\/"@,
        "..../"@,
        "....\\\\"@,
        ".|./"@,
        ".|\\/"@,
    ]
}

/// The table of `nested_traversal_patterns`.
pub fn nested_traversal_patterns_table() -> (t: Vec<&'static str>)
    ensures
        table_view(t@) == nested_traversal_patterns(),
{
    let t = vec![
        "....//",
        "....\\/",
        "..../",
        "....\\\\",
        ".|./",
        ".|\\/",
    ];
    proof {
        assert(table_view(t@) =~= nested_traversal_patterns());
    }
    t
}

/// Literal hex escapes of `.`, `/` and `\`.
pub open spec fn hex_escape_tokens() -> Seq<Seq<char>> {
    seq![
        "\\x2e"@,
        "\\x2f"@,
        "\\x5c"@,
    ]
}

/// The table of `hex_escape_tokens`.
pub fn hex_escape_tokens_table() -> (t: Vec<&'static str>)
    ensures
        table_view(t@) == hex_escape_tokens(),
{
    let t = vec![
        "\\x2e",
        "\\x2f",
        "\\x5c",
    ];
    proof {
        assert(table_view(t@) =~= hex_escape_tokens());
    }
    t
}

/// A separator written twice; at the start of a path, a UNC prefix.
pub open spec fn doubled_separators() -> Seq<Seq<char>> {
    seq![
        "//"@,
        "\\\\"@,
    ]
}

/// The table of `doubled_separators`.
pub fn doubled_separators_table() -> (t: Vec<&'static str>)
    ensures
        table_view(t@) == doubled_separators(),
{
    let t = vec![
        "//",
        "\\\\",
    ];
    proof {
        assert(table_view(t@) =~= doubled_separators());
    }
    t
}

/// Characters that some consumers take for separators.
pub open spec fn unusual_separators() -> Seq<Seq<char>> {
    seq![
        ";"@,
        "\t"@,
        "\n"@,
        "\r"@,
    ]
}

/// The table of `unusual_separators`.
pub fn unusual_separators_table() -> (t: Vec<&'static str>)
    ensures
        table_view(t@) == unusual_separators(),
{
    let t = vec![
        ";",
        "\t",
        "\n",
        "\r",
    ];
    proof {
        assert(table_view(t@) =~= unusual_separators());
    }
    t
}

/// Home and variable expansion, NUL, and the backslash.
pub open spec fn suspicious_tokens() -> Seq<Seq<char>> {
    seq![
        "~"@,
        "$"@,
        "\0"@,
        "\\"@,
    ]
}

/// The table of `suspicious_tokens`.
pub fn suspicious_tokens_table() -> (t: Vec<&'static str>)
    ensures
        table_view(t@) == suspicious_tokens(),
{
    let t = vec![
        "~",
        "$",
        "\0",
        "\\",
    ];
    proof {
        assert(table_view(t@) =~= suspicious_tokens());
    }
    t
}

/// The file scheme, with one slash or two.
pub open spec fn file_schemes() -> Seq<Seq<char>> {
    seq![
        "file://"@,
        "file:/"@,
    ]
}

/// The table of `file_schemes`.
pub fn file_schemes_table() -> (t: Vec<&'static str>)
    ensures
        table_view(t@) == file_schemes(),
{
    let t = vec![
        "file://",
        "file:/",
    ];
    proof {
        assert(table_view(t@) =~= file_schemes());
    }
    t
}

/// The web schemes.
pub open spec fn http_schemes() -> Seq<Seq<char>> {
    seq![
        "http://"@,
        "https://"@,
    ]
}

/// The table of `http_schemes`.
pub fn http_schemes_table() -> (t: Vec<&'static str>)
    ensures
        table_view(t@) == http_schemes(),
{
    let t = vec![
        "http://",
        "https://",
    ];
    proof {
        assert(table_view(t@) =~= http_schemes());
    }
    t
}

/// Other schemes that reach outside the file system.
pub open spec fn dangerous_schemes() -> Seq<Seq<char>> {
    seq![
        "ftp://"@,
        "ftps://"@,
        "sftp://"@,
        "gopher://"@,
        "data:"@,
        "javascript:"@,
        "vbscript:"@,
        "jar:"@,
        "php://"@,
    ]
}

/// The table of `dangerous_schemes`.
pub fn dangerous_schemes_table() -> (t: Vec<&'static str>)
    ensures
        table_view(t@) == dangerous_schemes(),
{
    let t = vec![
        "ftp://",
        "ftps://",
        "sftp://",
        "gopher://",
        "data:",
        "javascript:",
        "vbscript:",
        "jar:",
        "php://",
    ];
    proof {
        assert(table_view(t@) =~= dangerous_schemes());
    }
    t
}

/// Absolute paths into system directories, in lower case.
pub open spec fn system_paths() -> Seq<Seq<char>> {
    seq![
        "/proc/"@,
        "/sys/"@,
        "/dev/"@,
        "c:\\windows\\system32"@,
        "c:\\windows\\temp"@,
        "/tmp/"@,
        "/var/tmp/"@,
        "/etc/"@,
        "/boot/"@,
    ]
}

/// The table of `system_paths`.
pub fn system_paths_table() -> (t: Vec<&'static str>)
    ensures
        table_view(t@) == system_paths(),
{
    let t = vec![
        "/proc/",
        "/sys/",
        "/dev/",
        "c:\\windows\\system32",
        "c:\\windows\\temp",
        "/tmp/",
        "/var/tmp/",
        "/etc/",
        "/boot/",
    ];
    proof {
        assert(table_view(t@) =~= system_paths());
    }
    t
}

/// Device names that some platforms reserve, in upper case.
pub open spec fn reserved_names() -> Seq<Seq<char>> {
    seq![
        "CON"@,
        "PRN"@,
        "AUX"@,
        "NUL"@,
        "COM1"@,
        "COM2"@,
        "COM3"@,
        "COM4"@,
        "COM5"@,
        "COM6"@,
        "COM7"@,
        "COM8"@,
        "COM9"@,
        "LPT1"@,
        "LPT2"@,
        "LPT3"@,
        "LPT4"@,
        "LPT5"@,
        "LPT6"@,
        "LPT7"@,
        "LPT8"@,
        "LPT9"@,
    ]
}

/// The table of `reserved_names`.
pub fn reserved_names_table() -> (t: Vec<&'static str>)
    ensures
        table_view(t@) == reserved_names(),
{
    let t = vec![
        "CON",
        "PRN",
        "AUX",
        "NUL",
        "COM1",
        "COM2",
        "COM3",
        "COM4",
        "COM5",
        "COM6",
        "COM7",
        "COM8",
        "COM9",
        "LPT1",
        "LPT2",
        "LPT3",
        "LPT4",
        "LPT5",
        "LPT6",
        "LPT7",
        "LPT8",
        "LPT9",
    ];
    proof {
        assert(table_view(t@) =~= reserved_names());
    }
    t
}

} // verus!
