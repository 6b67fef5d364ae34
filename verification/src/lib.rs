//! Validation of untrusted relative paths, file names and project names
//! against a base directory.
//!
//! Three operations are offered. `validate_project_name` and
//! `validate_filename` classify a name and return it unchanged.
//! `validate_path` puts a relative path through the detectors and then
//! resolves it against a base directory; the result is the canonical base
//! directory or lies below it. The library reads no file system: the caller
//! lends one, as a function from a question to an answer.

pub mod attacks;
pub mod encoding;
pub mod error;
pub mod laws;
pub mod names;
pub mod paths;
pub mod patterns;
pub mod report;
pub mod resolve;
pub mod text;
pub mod unicode;
pub mod validation;

pub use attacks::{
    detect_absolute_path, detect_advanced_traversal, detect_protocol_schemes,
    detect_separator_manipulation, detect_suspicious_patterns, detect_windows_attacks,
    validate_special_paths,
};
pub use encoding::{
    detect_dangerous_unicode, detect_mixed_encoding, detect_overlong_utf8,
    detect_unicode_encoding, detect_url_encoding, normalize_and_check,
};
pub use error::{ErrorKind, Reason, ValidationError};
pub use names::{validate_filename, validate_project_name};
pub use patterns::{
    MAX_FILENAME_LENGTH, MAX_PATH_LENGTH, MAX_PROJECT_NAME_LENGTH, MAX_SYMLINK_CHAIN_LENGTH,
};
pub use resolve::{FsAnswer, FsQuery, Progress, QueryKind, Resolver};
pub use validation::{check_path, validate_path, validate_path_atomic};
