use path_security::{
    validate_filename, validate_path, FsAnswer, FsQuery, QueryKind, ValidationError,
};
use std::io::Write;
use std::path::{Path, PathBuf};
use tempfile::TempDir;

/// Answers a question of the engine from the file system of this machine.
fn disk(query: FsQuery) -> FsAnswer {
    let path = Path::new(&query.path);
    match query.kind {
        QueryKind::Canonicalize => {
            FsAnswer::Path(path.canonicalize().ok().map(|p| p.to_string_lossy().to_string()))
        }
        QueryKind::IsSymlink => FsAnswer::Flag(path.is_symlink()),
        QueryKind::ReadLink => {
            FsAnswer::Path(path.read_link().ok().map(|p| p.to_string_lossy().to_string()))
        }
        QueryKind::Exists => FsAnswer::Flag(path.exists()),
    }
}

/// Creates a directory of the given name in `parent`; it is removed when the
/// handle goes.
fn named_dir_in(parent: &Path, name: &str) -> TempDir {
    tempfile::Builder::new().prefix(name).rand_bytes(0).tempdir_in(parent).unwrap()
}

/// Creates a file of the given name in `parent`; it is removed when the handle
/// goes.
fn named_file_in(parent: &Path, name: &str) -> tempfile::NamedTempFile {
    tempfile::Builder::new().prefix(name).rand_bytes(0).tempfile_in(parent).unwrap()
}

/// Validates a path against a directory on this machine.
fn validate_on_disk(path: &Path, base_dir: &Path) -> Result<PathBuf, ValidationError> {
    validate_path(&path.to_string_lossy(), &base_dir.to_string_lossy(), &disk).map(PathBuf::from)
}

#[test]
fn test_validate_path_blocks_traversal() {
    let temp_dir = TempDir::new().unwrap();
    let base_path = temp_dir.path();

    // Test ".." traversal
    let bad_path = Path::new("../etc/passwd");
    assert!(validate_on_disk(bad_path, base_path).is_err());

    // Test complex traversal
    let bad_path = Path::new("foo/../../etc/passwd");
    assert!(validate_on_disk(bad_path, base_path).is_err());
}

#[test]
fn test_validate_path_blocks_absolute() {
    let temp_dir = TempDir::new().unwrap();
    let base_path = temp_dir.path();

    let absolute_path = Path::new("/etc/passwd");
    assert!(validate_on_disk(absolute_path, base_path).is_err());
}

#[test]
fn test_validate_path_blocks_suspicious_patterns() {
    let temp_dir = TempDir::new().unwrap();
    let base_path = temp_dir.path();

    // Home directory expansion
    assert!(validate_on_disk(Path::new("~/file"), base_path).is_err());

    // Environment variables
    assert!(validate_on_disk(Path::new("$HOME/file"), base_path).is_err());
    assert!(validate_on_disk(Path::new("%USERPROFILE%/file"), base_path).is_err());

    // Null byte injection
    assert!(validate_on_disk(Path::new("file\0.txt"), base_path).is_err());
}

#[test]
fn test_url_encoding_attacks() {
    let temp_dir = TempDir::new().unwrap();
    let base_path = temp_dir.path();

    // URL encoded dots and slashes
    assert!(validate_on_disk(Path::new("%2e%2e%2f"), base_path).is_err());
    assert!(validate_on_disk(Path::new("%2e%2e/"), base_path).is_err());
    assert!(validate_on_disk(Path::new(".%2e/"), base_path).is_err());
    assert!(validate_on_disk(Path::new("%2e./"), base_path).is_err());

    // Uppercase variants
    assert!(validate_on_disk(Path::new("%2E%2E%2F"), base_path).is_err());
    assert!(validate_on_disk(Path::new("%5C"), base_path).is_err());

    // Null byte encoding
    assert!(validate_on_disk(Path::new("file%00.txt"), base_path).is_err());

    // Newline/carriage return encoding
    assert!(validate_on_disk(Path::new("file%0a.txt"), base_path).is_err());
    assert!(validate_on_disk(Path::new("file%0d.txt"), base_path).is_err());
}

#[test]
fn test_double_url_encoding() {
    let temp_dir = TempDir::new().unwrap();
    let base_path = temp_dir.path();

    // Double encoded (% = %25)
    assert!(validate_on_disk(Path::new("%252e%252e%252f"), base_path).is_err());
    assert!(validate_on_disk(Path::new("%252e%252e/"), base_path).is_err());
}

#[test]
fn test_utf8_overlong_encoding() {
    let temp_dir = TempDir::new().unwrap();
    let base_path = temp_dir.path();

    // Overlong UTF-8 sequences
    assert!(validate_on_disk(Path::new("%c0%ae%c0%ae%c0%af"), base_path).is_err());
    assert!(validate_on_disk(Path::new("%c0%ae%c0%ae/"), base_path).is_err());
    assert!(validate_on_disk(Path::new("%c1%9c"), base_path).is_err());
    assert!(validate_on_disk(Path::new("%e0%80%ae"), base_path).is_err());
}

#[test]
fn test_unicode_encoding_attacks() {
    let temp_dir = TempDir::new().unwrap();
    let base_path = temp_dir.path();

    // Unicode percent encoding
    assert!(validate_on_disk(Path::new("%u002e%u002e%u002f"), base_path).is_err());

    // HTML entity encoding
    assert!(validate_on_disk(Path::new("&#46;&#46;&#47;"), base_path).is_err());
}

#[test]
fn test_dangerous_unicode_characters() {
    let temp_dir = TempDir::new().unwrap();
    let base_path = temp_dir.path();

    // Zero-width characters
    assert!(validate_on_disk(Path::new("file\u{200B}.txt"), base_path).is_err());
    assert!(validate_on_disk(Path::new("file\u{200C}.txt"), base_path).is_err());
    assert!(validate_on_disk(Path::new("file\u{FEFF}.txt"), base_path).is_err());

    // Right-to-left override
    assert!(validate_on_disk(Path::new("file\u{202E}.txt"), base_path).is_err());

    // Unicode homoglyphs for dots
    assert!(validate_on_disk(Path::new("\u{2024}\u{2024}/"), base_path).is_err());
    assert!(validate_on_disk(Path::new("\u{2026}/"), base_path).is_err());

    // Unicode slash homoglyphs
    assert!(validate_on_disk(Path::new("dir\u{2044}file"), base_path).is_err());
    assert!(validate_on_disk(Path::new("dir\u{2215}file"), base_path).is_err());
    assert!(validate_on_disk(Path::new("dir\u{FF0F}file"), base_path).is_err());

    // Full-width characters
    assert!(validate_on_disk(Path::new("\u{FF0E}\u{FF0E}\u{FF0F}"), base_path).is_err());
}

#[test]
fn test_windows_ntfs_streams() {
    let temp_dir = TempDir::new().unwrap();
    let base_path = temp_dir.path();

    // NTFS alternate data streams
    assert!(validate_on_disk(Path::new("file.txt::$DATA"), base_path).is_err());
    assert!(validate_on_disk(Path::new("file.txt:stream:$DATA"), base_path).is_err());
    assert!(validate_on_disk(Path::new("file.txt:ads"), base_path).is_err());
}

#[test]
fn test_windows_unc_paths() {
    let temp_dir = TempDir::new().unwrap();
    let base_path = temp_dir.path();

    // UNC paths
    assert!(validate_on_disk(Path::new("\\\\server\\share"), base_path).is_err());
    assert!(validate_on_disk(Path::new("//server/share"), base_path).is_err());

    // Extended-length path prefix
    assert!(validate_on_disk(Path::new("\\\\?\\C:\\"), base_path).is_err());
    assert!(validate_on_disk(Path::new("\\\\.\\C:\\"), base_path).is_err());
}

#[test]
fn test_windows_trailing_dots_spaces() {
    let temp_dir = TempDir::new().unwrap();
    let base_path = temp_dir.path();

    // Trailing dots (Windows ignores these)
    assert!(validate_on_disk(Path::new("file.txt."), base_path).is_err());
    assert!(validate_on_disk(Path::new("file.txt..."), base_path).is_err());

    // Trailing spaces
    assert!(validate_on_disk(Path::new("file.txt "), base_path).is_err());
    assert!(validate_on_disk(Path::new("file.txt   "), base_path).is_err());

    // Test with filename validation too
    assert!(validate_filename("file.txt.").is_err());
    assert!(validate_filename("file.txt ").is_err());
}

#[test]
fn test_whitespace_exploitation() {
    let temp_dir = TempDir::new().unwrap();
    let base_path = temp_dir.path();

    // Leading whitespace
    assert!(validate_on_disk(Path::new("   ../"), base_path).is_err());

    // Trailing whitespace
    assert!(validate_on_disk(Path::new("../   "), base_path).is_err());

    // Multiple consecutive spaces
    assert!(validate_on_disk(Path::new("file  .txt"), base_path).is_err());

    // Tab characters
    assert!(validate_on_disk(Path::new("file\t.txt"), base_path).is_err());
}

#[test]
fn test_advanced_traversal_sequences() {
    let temp_dir = TempDir::new().unwrap();
    let base_path = temp_dir.path();

    // Triple dots
    assert!(validate_on_disk(Path::new("..."), base_path).is_err());

    // Spaces between dots
    assert!(validate_on_disk(Path::new(". ."), base_path).is_err());
    assert!(validate_on_disk(Path::new(". . "), base_path).is_err());

    // Tab between dots
    assert!(validate_on_disk(Path::new(".\t."), base_path).is_err());

    // Hex encoding
    assert!(validate_on_disk(Path::new("\\x2e\\x2e\\x2f"), base_path).is_err());
}

#[test]
fn test_special_system_paths() {
    let temp_dir = TempDir::new().unwrap();
    let base_path = temp_dir.path();

    // Unix special paths
    assert!(validate_on_disk(Path::new("/proc/self/"), base_path).is_err());
    assert!(validate_on_disk(Path::new("/sys/"), base_path).is_err());
    assert!(validate_on_disk(Path::new("/dev/"), base_path).is_err());
    assert!(validate_on_disk(Path::new("/etc/"), base_path).is_err());
    assert!(validate_on_disk(Path::new("/tmp/"), base_path).is_err());
}

#[test]
fn test_combined_attack_vectors() {
    let temp_dir = TempDir::new().unwrap();
    let base_path = temp_dir.path();

    // URL encoding mixed with traversal
    assert!(validate_on_disk(Path::new("%2e%2e/safe/../"), base_path).is_err());

    // Multiple techniques combined
    assert!(validate_on_disk(Path::new("safe//..%2f.."), base_path).is_err());
}

#[test]
fn test_codepage_homoglyphs() {
    let temp_dir = TempDir::new().unwrap();
    let base_path = temp_dir.path();

    // Japanese CP932 - Yen sign (¥) maps to backslash
    assert!(validate_on_disk(Path::new("dir¥file"), base_path).is_err());

    // Korean CP949 - Won sign (₩) maps to backslash
    assert!(validate_on_disk(Path::new("dir₩file"), base_path).is_err());

    // Greek CP1253 - Acute accent (´) maps to forward slash
    assert!(validate_on_disk(Path::new("dir´file"), base_path).is_err());

    // Unicode backslash homoglyphs
    assert!(validate_on_disk(Path::new("dir∖file"), base_path).is_err());  // U+2216
    assert!(validate_on_disk(Path::new("dir＼file"), base_path).is_err());  // U+FF3C
}

#[test]
fn test_wildcard_characters() {
    let temp_dir = TempDir::new().unwrap();
    let base_path = temp_dir.path();

    // Question mark wildcard
    assert!(validate_on_disk(Path::new("dir?/file"), base_path).is_err());
    assert!(validate_on_disk(Path::new("file?.txt"), base_path).is_err());

    // Asterisk wildcard
    assert!(validate_on_disk(Path::new("dir*/file"), base_path).is_err());
    assert!(validate_on_disk(Path::new("file*.txt"), base_path).is_err());
}

#[test]
fn test_nested_traversal_patterns() {
    let temp_dir = TempDir::new().unwrap();
    let base_path = temp_dir.path();

    // Quad dot patterns
    assert!(validate_on_disk(Path::new("....//"), base_path).is_err());
    assert!(validate_on_disk(Path::new(r"....\/"), base_path).is_err());
    assert!(validate_on_disk(Path::new("..../"), base_path).is_err());
    assert!(validate_on_disk(Path::new(r"....\\"), base_path).is_err());

    // Pipe patterns
    assert!(validate_on_disk(Path::new(".|./"), base_path).is_err());
    assert!(validate_on_disk(Path::new(".|."), base_path).is_err());

    // Quad dots
    assert!(validate_on_disk(Path::new("...."), base_path).is_err());
}

#[test]
fn test_file_protocol_schemes() {
    let temp_dir = TempDir::new().unwrap();
    let base_path = temp_dir.path();

    // File protocol
    assert!(validate_on_disk(Path::new("file:///etc/passwd"), base_path).is_err());
    assert!(validate_on_disk(Path::new("file://etc/passwd"), base_path).is_err());
    assert!(validate_on_disk(Path::new("file:/etc/passwd"), base_path).is_err());

    // HTTP protocols (SSRF)
    assert!(validate_on_disk(Path::new("http://localhost:8080"), base_path).is_err());
    assert!(validate_on_disk(Path::new("https://192.168.0.2:9080"), base_path).is_err());

    // Other dangerous protocols
    assert!(validate_on_disk(Path::new("ftp://server/file"), base_path).is_err());
    assert!(validate_on_disk(Path::new("php://filter/resource=file"), base_path).is_err());
    assert!(validate_on_disk(Path::new("data:text/plain,content"), base_path).is_err());
    assert!(validate_on_disk(Path::new("javascript:alert(1)"), base_path).is_err());
}

#[test]
fn test_null_byte_extension_bypass() {
    let temp_dir = TempDir::new().unwrap();
    let base_path = temp_dir.path();

    // Null byte to bypass extension checks (classic PHP vulnerability)
    assert!(validate_on_disk(Path::new("../../../etc/passwd%00.png"), base_path).is_err());
    assert!(validate_on_disk(Path::new("../../../etc/passwd.ANY%00.png"), base_path).is_err());

    // Null byte in filename
    assert!(validate_filename("file%00.txt").is_err());
    assert!(validate_filename("file.txt%00.png").is_err());
}

#[test]
fn test_comprehensive_unicode_homoglyphs() {
    let temp_dir = TempDir::new().unwrap();
    let base_path = temp_dir.path();

    // All code page homoglyphs should be blocked
    let homoglyphs = [
        "test¥file",     // U+00A5 - CP932 (Japanese)
        "test₩file",     // U+20A9 - CP949 (Korean)
        "test´file",     // U+00B4 - CP1253 (Greek)
        "test⁄file",     // U+2044 - fraction slash
        "test∕file",     // U+2215 - division slash
        "test∖file",     // U+2216 - set minus
        "test／file",    // U+FF0F - fullwidth solidus
        "test＼file",    // U+FF3C - fullwidth reverse solidus
    ];

    for homoglyph in homoglyphs.iter() {
        assert!(validate_on_disk(Path::new(homoglyph), base_path).is_err(),
               "Should block homoglyph: {}", homoglyph);
    }
}

#[test]
fn test_enhanced_null_byte_detection() {
    let temp_dir = TempDir::new().unwrap();
    let base_path = temp_dir.path();

    // Test null byte at the beginning
    assert!(validate_on_disk(Path::new("\0file.txt"), base_path).is_err());

    // Test null byte in the middle
    assert!(validate_on_disk(Path::new("file\0name.txt"), base_path).is_err());

    // Test null byte at the end
    assert!(validate_on_disk(Path::new("file.txt\0"), base_path).is_err());

    // Test multiple null bytes
    assert!(validate_on_disk(Path::new("file\0\0name.txt"), base_path).is_err());

    // Test null byte with traversal
    assert!(validate_on_disk(Path::new("..\0/../etc/passwd"), base_path).is_err());
}

#[test]
fn test_mixed_encoding_detection() {
    let temp_dir = TempDir::new().unwrap();
    let base_path = temp_dir.path();

    // Test UTF-16 BOM detection
    let utf16_bom = "\u{FEFF}file.txt";
    assert!(validate_on_disk(Path::new(utf16_bom), base_path).is_err());

    // Test HTML entity encoding
    assert!(validate_on_disk(Path::new("file&#x2e;&#x2e;.txt"), base_path).is_err());
    assert!(validate_on_disk(Path::new("file&#46;&#46;.txt"), base_path).is_err());

    // Test mixed encoding patterns
    let mixed_path = "file\u{0000}\u{0000}name.txt"; // UTF-16-like pattern
    assert!(validate_on_disk(Path::new(mixed_path), base_path).is_err());

    // Normal UTF-8 should still work
    assert!(validate_on_disk(Path::new("file.txt"), base_path).is_ok());
    assert!(validate_on_disk(Path::new("файл.txt"), base_path).is_ok()); // Cyrillic
}

#[test]
fn test_path_length_attacks() {
    let temp_dir = TempDir::new().unwrap();
    let base_path = temp_dir.path();

    // Create an extremely long path
    let long_path = "a".repeat(5000);
    let long_path_with_traversal = format!("{}/../../etc/passwd", long_path);

    // This should be blocked due to length
    assert!(validate_on_disk(Path::new(&long_path), base_path).is_err());
    assert!(validate_on_disk(Path::new(&long_path_with_traversal), base_path).is_err());

    // Normal length paths should still work
    let normal_dir = named_dir_in(base_path, "normal");
    let normal_path = "normal/file.txt";
    assert!(validate_on_disk(Path::new(normal_path), base_path).is_ok());
    assert_eq!(
        validate_on_disk(Path::new(normal_path), base_path).unwrap(),
        normal_dir.path().canonicalize().unwrap().join("file.txt")
    );
}

#[test]
fn test_edge_cases_security_improvements() {
    let temp_dir = TempDir::new().unwrap();
    let base_path = temp_dir.path();

    // Test empty path
    assert!(validate_on_disk(Path::new(""), base_path).is_err());

    // Test path with only dots
    assert!(validate_on_disk(Path::new("..."), base_path).is_err());

    // Test path with only separators
    assert!(validate_on_disk(Path::new("///"), base_path).is_err());

    // Test path with only null bytes
    assert!(validate_on_disk(Path::new("\0\0\0"), base_path).is_err());
}

#[test]
fn paths_that_only_the_file_system_decides() {
    let temp_dir = TempDir::new().unwrap();
    let base_path = temp_dir.path();
    let canonical_base = base_path.canonicalize().unwrap();

    // The dot is the base directory itself.
    assert_eq!(validate_on_disk(Path::new("."), base_path).unwrap(), canonical_base);

    // The limit is on the joined path. A long name below an existing parent
    // is a path that is not there yet.
    let long_component = "a".repeat(1000);
    assert_eq!(
        validate_on_disk(Path::new(&long_component), base_path).unwrap(),
        canonical_base.join(&long_component)
    );

    // Only the immediate parent may be missing.
    let err = validate_on_disk(Path::new("normal/file.txt"), base_path).unwrap_err();
    assert_eq!(err.kind(), path_security::ErrorKind::FilesystemError);
    assert_eq!(err.reason, path_security::Reason::ParentUnresolvable);
    assert_eq!(
        validate_on_disk(Path::new("file.txt"), base_path).unwrap(),
        canonical_base.join("file.txt")
    );
}

#[test]
fn test_validate_path_allows_safe_paths() {
    let temp_dir = TempDir::new().unwrap();
    let base_path = temp_dir.path();

    // Create a test subdirectory
    let _sub_dir = named_dir_in(base_path, "test");

    // Test safe relative path
    let safe_path = Path::new("test/file.txt");
    assert!(validate_on_disk(safe_path, base_path).is_ok());
}

#[test]
fn test_path_separator_manipulation() {
    let temp_dir = TempDir::new().unwrap();
    let base_path = temp_dir.path();

    // Multiple consecutive slashes
    let _sub_dir = named_dir_in(base_path, "test");
    assert!(validate_on_disk(Path::new("test//file"), base_path).is_err());
    assert!(validate_on_disk(Path::new("test///file"), base_path).is_err());

    // Mixed separators
    assert!(validate_on_disk(Path::new("test/\\file"), base_path).is_err());
    assert!(validate_on_disk(Path::new("test\\/file"), base_path).is_err());

    // Alternative separators
    assert!(validate_on_disk(Path::new("test;file"), base_path).is_err());
}

#[test]
fn test_safe_paths_still_work() {
    let temp_dir = TempDir::new().unwrap();
    let base_path = temp_dir.path();

    // Create test directory
    let _sub_dir = named_dir_in(base_path, "safe");

    // These should all pass
    assert!(validate_on_disk(Path::new("safe/file.txt"), base_path).is_ok());
    assert!(validate_on_disk(Path::new("safe/document.pdf"), base_path).is_ok());

    // Valid filenames
    assert!(validate_filename("normal-file_123.txt").is_ok());
    assert!(validate_filename("report.pdf").is_ok());

    // Valid project names
    assert!(path_security::validate_project_name("my-project").is_ok());
    assert!(path_security::validate_project_name("project_name").is_ok());
}

#[test]
fn test_toctou_prevention() {
    let temp_dir = TempDir::new().unwrap();
    let base_path = temp_dir.path();

    // Create a test file
    let mut test_file = named_file_in(base_path, "test.txt");
    test_file.write_all(b"test content").unwrap();

    // This should work normally
    assert!(validate_on_disk(Path::new("test.txt"), base_path).is_ok());

    // Test that the atomic validation works
    let result = validate_on_disk(Path::new("test.txt"), base_path);
    assert!(result.is_ok());

    // Verify the returned path is canonical
    let canonical_path = result.unwrap();
    assert!(canonical_path.is_absolute());
}

#[test]
fn test_security_improvements_integration() {
    let temp_dir = TempDir::new().unwrap();
    let base_path = temp_dir.path();

    // Create a test directory structure
    let _sub_dir = named_dir_in(base_path, "test");

    // Test that all security improvements work together
    let safe_path = "test/file.txt";
    let result = validate_on_disk(Path::new(safe_path), base_path);
    assert!(result.is_ok());

    // Verify the result is a canonical path
    let canonical_path = result.unwrap();
    assert!(canonical_path.is_absolute());
    assert!(canonical_path.starts_with(base_path.canonicalize().unwrap()));
}
