use path_security::{
    validate_filename, validate_path, validate_path_atomic, validate_project_name, ErrorKind,
    FsAnswer, FsQuery, Progress, QueryKind, Reason, Resolver, ValidationError,
    MAX_PATH_LENGTH, MAX_SYMLINK_CHAIN_LENGTH,
};
use std::cell::RefCell;

/// What a path of the simulated file system holds.
#[derive(Clone)]
enum Entry {
    Dir,
    File,
    Link(String),
}

/// A file system in memory: absolute paths and what they hold. Relative
/// paths are taken from the working directory.
struct Tree {
    cwd: String,
    entries: Vec<(String, Entry)>,
}

impl Tree {
    fn new(cwd: &str) -> Tree {
        Tree { cwd: cwd.to_string(), entries: vec![("/".to_string(), Entry::Dir)] }
    }

    fn dir(mut self, path: &str) -> Tree {
        self.entries.push((path.to_string(), Entry::Dir));
        self
    }

    fn file(mut self, path: &str) -> Tree {
        self.entries.push((path.to_string(), Entry::File));
        self
    }

    fn link(mut self, path: &str, target: &str) -> Tree {
        self.entries.push((path.to_string(), Entry::Link(target.to_string())));
        self
    }

    fn get(&self, path: &str) -> Option<Entry> {
        self.entries.iter().find(|(p, _)| p == path).map(|(_, e)| e.clone())
    }

    fn absolute(&self, path: &str) -> String {
        if path.starts_with('/') {
            path.to_string()
        } else {
            format!("{}/{}", self.cwd, path)
        }
    }

    fn render(parts: &[String]) -> String {
        format!("/{}", parts.join("/"))
    }

    /// Walks a path name by name, following links, as a kernel would.
    fn walk(&self, path: &str, follow_last: bool, depth: usize) -> Option<String> {
        let path = self.absolute(path);
        let names: Vec<&str> = path.split('/').filter(|n| !n.is_empty() && *n != ".").collect();
        let mut at: Vec<String> = Vec::new();
        for (i, name) in names.iter().enumerate() {
            if *name == ".." {
                at.pop();
                continue;
            }
            at.push(name.to_string());
            let here = Tree::render(&at);
            match self.get(&here)? {
                Entry::Link(target) => {
                    if i + 1 == names.len() && !follow_last {
                        continue;
                    }
                    if depth == 0 {
                        return None;
                    }
                    at.pop();
                    let from = if target.starts_with('/') {
                        target
                    } else {
                        format!("{}/{}", Tree::render(&at), target)
                    };
                    let resolved = self.walk(&from, true, depth - 1)?;
                    at = resolved.split('/').filter(|n| !n.is_empty()).map(String::from).collect();
                }
                Entry::File => {
                    if i + 1 != names.len() {
                        return None;
                    }
                }
                Entry::Dir => {}
            }
        }
        Some(Tree::render(&at))
    }

    fn answer(&self, query: FsQuery) -> FsAnswer {
        match query.kind {
            QueryKind::Canonicalize => FsAnswer::Path(self.walk(&query.path, true, 40)),
            QueryKind::Exists => FsAnswer::Flag(self.walk(&query.path, true, 40).is_some()),
            QueryKind::IsSymlink => FsAnswer::Flag(
                self.walk(&query.path, false, 40)
                    .map_or(false, |p| matches!(self.get(&p), Some(Entry::Link(_)))),
            ),
            QueryKind::ReadLink => FsAnswer::Path(
                self.walk(&query.path, false, 40).and_then(|p| match self.get(&p) {
                    Some(Entry::Link(target)) => Some(target),
                    _ => None,
                }),
            ),
        }
    }

    fn validate(&self, path: &str, base_dir: &str) -> Result<String, ValidationError> {
        validate_path(path, base_dir, &|q| self.answer(q))
    }
}

// This test needs symbolic links. It runs against the file system in memory,
// with the same layout.

#[test]
fn test_recursive_symlink_detection() {
    let base_path = "/tmp/base";
    // Create a symlink that points to itself (recursive)
    let tree = Tree::new("/")
        .dir("/tmp")
        .dir(base_path)
        .link("/tmp/base/recursive_link", "recursive_link")
        .link("/tmp/base/link1", "link2")
        .link("/tmp/base/link2", "link1");

    // This should be detected and blocked
    assert!(tree.validate("recursive_link", base_path).is_err());

    // This should be detected as a recursive chain
    assert!(tree.validate("link1", base_path).is_err());
}

#[test]
fn base_directory_behind_a_link_is_resolved() {
    let tree = Tree::new("/")
        .dir("/tmp")
        .dir("/data")
        .dir("/data/base")
        .dir("/data/base/test")
        .link("/tmp/link", "/data/base");
    let found = tree.validate("test/file.txt", "/tmp/link").unwrap();
    assert_eq!(found, "/data/base/test/file.txt");
}

#[test]
fn safe_path_resolves_below_the_canonical_base() {
    let tree = Tree::new("/").dir("/srv").dir("/srv/base").dir("/srv/base/safe");
    assert_eq!(tree.validate("safe/file.txt", "/srv/base").unwrap(), "/srv/base/safe/file.txt");
    // An existing file is canonicalized itself.
    let tree = tree.file("/srv/base/safe/here.txt");
    assert_eq!(tree.validate("safe/./here.txt", "/srv/base").unwrap(), "/srv/base/safe/here.txt");
    // The dot is the base directory.
    assert_eq!(tree.validate(".", "/srv/base/").unwrap(), "/srv/base");
    assert_eq!(tree.validate("./safe/.", "/srv/base").unwrap(), "/srv/base/safe");
}

#[test]
fn empty_path_is_malformed() {
    let asked = RefCell::new(0usize);
    let fs = |_q: FsQuery| {
        *asked.borrow_mut() += 1;
        FsAnswer::Flag(false)
    };
    let err = validate_path("", "/srv/base", &fs).unwrap_err();
    assert_eq!(err.reason, Reason::EmptyPath);
    assert_eq!(err.kind(), ErrorKind::MalformedInput);
    assert_eq!(err.pattern, "");
    assert_eq!(err.position, 0);
    assert_eq!(err.input, "");
    assert_eq!(err.message(), "Path cannot be empty");
    assert_eq!(path_security::check_path("").unwrap_err().reason, Reason::EmptyPath);
    assert_eq!(*asked.borrow(), 0);

    // The engine has no such rule: the base directory joined with nothing is
    // the base directory.
    let tree = Tree::new("/").dir("/srv").dir("/srv/base");
    let found = validate_path_atomic("", "/srv/base", &|q| tree.answer(q)).unwrap();
    assert_eq!(found, "/srv/base");
}

#[test]
fn traversal_is_rejected_before_any_read() {
    let asked = RefCell::new(0usize);
    let fs = |_q: FsQuery| {
        *asked.borrow_mut() += 1;
        FsAnswer::Flag(false)
    };
    let err = validate_path("../../etc/passwd", "/srv/base", &fs).unwrap_err();
    assert_eq!(err.kind(), ErrorKind::StructuralAttack);
    assert_eq!(err.reason, Reason::TraversalPattern);
    assert_eq!(err.pattern, "..");
    assert_eq!(err.position, 0);
    assert_eq!(err.input, "../../etc/passwd");

    let err = validate_path("%2e%2e%2f", "/srv/base", &fs).unwrap_err();
    assert_eq!(err.kind(), ErrorKind::EncodingAttack);

    for text in ["safe/../x", "a/..b", "..%2f"] {
        assert!(validate_path(text, "/srv/base", &fs).is_err());
    }
    assert_eq!(*asked.borrow(), 0);
}

#[test]
fn detectors_run_in_their_order() {
    let fs = |_q: FsQuery| FsAnswer::Flag(false);
    let reason = |text: &str| validate_path(text, "/b", &fs).unwrap_err().reason;
    // Whitespace comes before everything else.
    assert_eq!(reason(" file://%2e"), Reason::SurroundingWhitespace);
    // Schemes come before encodings.
    assert_eq!(reason("file://%2e"), Reason::FileScheme);
    // Encodings come before the absolute path check.
    assert_eq!(reason("/%2e"), Reason::UrlEncodedToken);
    assert_eq!(reason("/%c0%ae"), Reason::OverlongUtf8);
    assert_eq!(reason("/&#"), Reason::HtmlEntity);
    assert_eq!(reason("/?"), Reason::WildcardCharacter);
    // The absolute path check comes before separators and system paths.
    assert_eq!(reason("/etc//x"), Reason::AbsolutePath);
    // Separators come before traversal.
    assert_eq!(reason("a//.."), Reason::RepeatedSeparators);
    // Traversal comes before the platform check.
    assert_eq!(reason("..:"), Reason::TraversalPattern);
    // The platform check comes before the suspicious tokens.
    assert_eq!(reason("~:"), Reason::StrayColon);
    assert_eq!(reason("\\\\x"), Reason::UncPath);
    assert_eq!(reason("~"), Reason::SuspiciousToken);
    // A drive letter before a name passes every detector and reaches the
    // engine.
    let honest = |q: FsQuery| match q.kind {
        QueryKind::Canonicalize => FsAnswer::Path(Some(q.path)),
        QueryKind::IsSymlink => FsAnswer::Flag(false),
        QueryKind::ReadLink => FsAnswer::Path(None),
        QueryKind::Exists => FsAnswer::Flag(true),
    };
    assert_eq!(validate_path("C:file", "/b", &honest).unwrap(), "/b/C:file");
}

#[test]
fn symlink_cycle_is_a_symlink_attack() {
    let tree = Tree::new("/")
        .dir("/srv")
        .dir("/srv/base")
        .link("/srv/base/a", "/srv/base/b")
        .link("/srv/base/b", "/srv/base/a");
    let err = tree.validate("a", "/srv/base").unwrap_err();
    assert_eq!(err.kind(), ErrorKind::SymlinkAttack);
    assert_eq!(err.reason, Reason::SymlinkLoop);
    assert_eq!(err.pattern, "/srv/base/a");
    assert_eq!(err.input, "a");
    assert_eq!(err.message(), "Recursive symlink detected: /srv/base/a");
}

#[test]
fn relative_targets_are_taken_from_the_directory_of_the_link() {
    let tree = Tree::new("/elsewhere")
        .dir("/elsewhere")
        .dir("/srv")
        .dir("/srv/base")
        .dir("/srv/base/sub")
        .dir("/srv/other")
        .link("/srv/base/sub/a", "b")
        .link("/srv/base/sub/b", "a")
        .link("/srv/base/sub/c", "../d")
        .link("/srv/base/d", "sub/c")
        .link("/srv/base/up", "../other")
        .link("/srv/base/here", "sub");

    let err = tree.validate("sub/a", "/srv/base").unwrap_err();
    assert_eq!(err.reason, Reason::SymlinkLoop);
    assert_eq!(err.kind(), ErrorKind::SymlinkAttack);
    assert_eq!(err.pattern, "/srv/base/sub/a");

    let err = tree.validate("up", "/srv/base").unwrap_err();
    assert_eq!(err.reason, Reason::EscapesBase);
    assert_eq!(err.pattern, "/srv/other");

    assert_eq!(tree.validate("here", "/srv/base").unwrap(), "/srv/base/sub");

    // The questions name the link's directory, whatever the working directory.
    let asked: RefCell<Vec<(QueryKind, String)>> = RefCell::new(Vec::new());
    let fs = |q: FsQuery| {
        asked.borrow_mut().push((q.kind, q.path.clone()));
        tree.answer(q)
    };
    assert!(validate_path("sub/a", "/srv/base", &fs).is_err());
    assert_eq!(
        *asked.borrow(),
        vec![
            (QueryKind::Canonicalize, "/srv/base".to_string()),
            (QueryKind::IsSymlink, "/srv/base/sub/a".to_string()),
            (QueryKind::ReadLink, "/srv/base/sub/a".to_string()),
            (QueryKind::IsSymlink, "/srv/base/sub/b".to_string()),
            (QueryKind::ReadLink, "/srv/base/sub/b".to_string()),
            (QueryKind::IsSymlink, "/srv/base/sub/a".to_string()),
        ]
    );

    // Paths are compared as text. A cycle that goes through `..` never comes
    // back to the same text, and is cut off by the limit on the chain.
    let err = tree.validate("sub/c", "/srv/base").unwrap_err();
    assert_eq!(err.reason, Reason::SymlinkChainTooLong);
    assert_eq!(err.kind(), ErrorKind::SymlinkAttack);
}

/// A cycle of `n` links below `/b`, and the number of questions that the
/// engine asks before it fails.
fn questions_for_cycle(n: usize) -> (ValidationError, usize) {
    let asked = RefCell::new(0usize);
    let fs = |q: FsQuery| {
        *asked.borrow_mut() += 1;
        match q.kind {
            QueryKind::Canonicalize => FsAnswer::Path(Some(q.path)),
            QueryKind::IsSymlink => FsAnswer::Flag(true),
            QueryKind::ReadLink => {
                let k: usize = q.path[4..].parse().unwrap();
                FsAnswer::Path(Some(format!("/b/l{}", (k + 1) % n)))
            }
            QueryKind::Exists => FsAnswer::Flag(false),
        }
    };
    let err = validate_path("l0", "/b", &fs).unwrap_err();
    let count = *asked.borrow();
    (err, count)
}

#[test]
fn cycle_of_n_links_fails_after_two_reads_for_each_link() {
    for n in [1usize, 2, 3, 17, MAX_SYMLINK_CHAIN_LENGTH] {
        let (err, asked) = questions_for_cycle(n);
        assert_eq!(err.reason, Reason::SymlinkLoop);
        assert_eq!(err.pattern, "/b/l0");
        assert_eq!(asked, 2 * n + 2);
    }
}

#[test]
fn chain_beyond_the_limit_fails() {
    // One link more than the limit: the chain is cut, the cycle is not reached.
    let (err, asked) = questions_for_cycle(MAX_SYMLINK_CHAIN_LENGTH + 1);
    assert_eq!(err.reason, Reason::SymlinkChainTooLong);
    assert_eq!(err.kind(), ErrorKind::SymlinkAttack);
    assert_eq!(asked, 2 * (MAX_SYMLINK_CHAIN_LENGTH + 1) + 1);

    // A file system that never stops handing out links is cut off as well.
    let (err, asked) = questions_for_cycle(usize::MAX);
    assert_eq!(err.reason, Reason::SymlinkChainTooLong);
    assert_eq!(asked, 203);
}

#[test]
fn chain_of_as_many_links_as_the_limit_is_followed() {
    let mut tree = Tree::new("/").dir("/b").file("/b/end");
    for k in 0..MAX_SYMLINK_CHAIN_LENGTH {
        let target = if k + 1 == MAX_SYMLINK_CHAIN_LENGTH {
            "/b/end".to_string()
        } else {
            format!("/b/l{}", k + 1)
        };
        tree = tree.link(&format!("/b/l{}", k), &target);
    }
    // The walk ends at a file; the kernel of the model follows at most 40
    // links, so the path does not exist and its parent is canonicalized.
    assert_eq!(tree.validate("l0", "/b").unwrap(), "/b/l0");
}

#[test]
fn result_outside_the_base_is_a_confinement_violation() {
    let tree = Tree::new("/")
        .dir("/etc")
        .dir("/srv")
        .dir("/srv/base")
        .dir("/srv/base2")
        .link("/srv/base/out", "/etc")
        .link("/srv/base/side", "/srv/base2")
        .link("/srv/base/in", "/srv/base");

    let err = tree.validate("out", "/srv/base").unwrap_err();
    assert_eq!(err.kind(), ErrorKind::ConfinementViolation);
    assert_eq!(err.reason, Reason::EscapesBase);
    assert_eq!(err.pattern, "/etc");

    // A path that is not there yet, below a link that leaves the base.
    let err = tree.validate("out/new.txt", "/srv/base").unwrap_err();
    assert_eq!(err.reason, Reason::EscapesBase);
    assert_eq!(err.pattern, "/etc/new.txt");

    // The prefix is taken by components: `/srv/base2` is not below `/srv/base`.
    let err = tree.validate("side/new.txt", "/srv/base").unwrap_err();
    assert_eq!(err.reason, Reason::EscapesBase);
    assert_eq!(err.pattern, "/srv/base2/new.txt");

    // A link that stays inside is fine.
    assert_eq!(tree.validate("in/new.txt", "/srv/base").unwrap(), "/srv/base/new.txt");
    assert_eq!(tree.validate("in", "/srv/base").unwrap(), "/srv/base");
}

#[test]
fn failures_of_the_file_system_are_filesystem_errors() {
    let tree = Tree::new("/").dir("/srv").dir("/srv/base");

    let err = tree.validate("file.txt", "/srv/missing").unwrap_err();
    assert_eq!(err.kind(), ErrorKind::FilesystemError);
    assert_eq!(err.reason, Reason::BaseUnresolvable);
    assert_eq!(err.pattern, "");
    assert_eq!(err.message(), "Failed to canonicalize base directory");

    // Only the immediate parent may be missing.
    let err = tree.validate("normal/file.txt", "/srv/base").unwrap_err();
    assert_eq!(err.kind(), ErrorKind::FilesystemError);
    assert_eq!(err.reason, Reason::ParentUnresolvable);

    let unreadable = |q: FsQuery| match q.kind {
        QueryKind::Canonicalize => FsAnswer::Path(Some(q.path)),
        QueryKind::IsSymlink => FsAnswer::Flag(true),
        QueryKind::ReadLink => FsAnswer::Path(None),
        QueryKind::Exists => FsAnswer::Flag(true),
    };
    let err = validate_path("a", "/b", &unreadable).unwrap_err();
    assert_eq!(err.reason, Reason::LinkUnreadable);
    assert_eq!(err.kind(), ErrorKind::FilesystemError);
    assert_eq!(err.pattern, "/b/a");

    let vanishing = |q: FsQuery| match q.kind {
        QueryKind::Canonicalize => {
            if q.path == "/b" { FsAnswer::Path(Some(q.path)) } else { FsAnswer::Path(None) }
        }
        QueryKind::IsSymlink => FsAnswer::Flag(false),
        QueryKind::ReadLink => FsAnswer::Path(None),
        QueryKind::Exists => FsAnswer::Flag(true),
    };
    let err = validate_path("a", "/b", &vanishing).unwrap_err();
    assert_eq!(err.reason, Reason::PathUnresolvable);
    assert_eq!(err.kind(), ErrorKind::FilesystemError);
}

#[test]
fn answer_of_the_wrong_form_ends_the_resolution() {
    let err = validate_path("a", "/b", &|_q| FsAnswer::Flag(true)).unwrap_err();
    assert_eq!(err.reason, Reason::UnexpectedAnswer);
    assert_eq!(err.kind(), ErrorKind::FilesystemError);
    let err = validate_path("a", "/b", &|q: FsQuery| FsAnswer::Path(Some(q.path))).unwrap_err();
    assert_eq!(err.reason, Reason::UnexpectedAnswer);
}

#[test]
fn parent_is_rebuilt_below_the_canonical_base() {
    let asked: RefCell<Vec<(QueryKind, String)>> = RefCell::new(Vec::new());
    let fs = |q: FsQuery| {
        asked.borrow_mut().push((q.kind, q.path.clone()));
        match q.kind {
            QueryKind::Canonicalize => match q.path.as_str() {
                "/mnt/link/" => FsAnswer::Path(Some("/data/base".to_string())),
                "/data/base/sub/dir" => FsAnswer::Path(Some("/data/base/sub/dir".to_string())),
                _ => FsAnswer::Path(None),
            },
            QueryKind::IsSymlink => FsAnswer::Flag(false),
            QueryKind::ReadLink => FsAnswer::Path(None),
            QueryKind::Exists => FsAnswer::Flag(false),
        }
    };
    let found = validate_path("sub//dir/./new.txt", "/mnt/link", &fs);
    assert!(found.is_err());
    let found = validate_path_atomic("sub//dir/./new.txt", "/mnt/link/", &fs).unwrap();
    assert_eq!(found, "/data/base/sub/dir/new.txt");
    assert_eq!(
        *asked.borrow(),
        vec![
            (QueryKind::Canonicalize, "/mnt/link/".to_string()),
            (QueryKind::IsSymlink, "/mnt/link/sub//dir/./new.txt".to_string()),
            (QueryKind::Exists, "/mnt/link/sub//dir/./new.txt".to_string()),
            (QueryKind::Canonicalize, "/mnt/link/sub/dir".to_string()),
            (QueryKind::Canonicalize, "/data/base/sub/dir".to_string()),
        ]
    );
}

#[test]
fn joined_path_is_checked_after_the_walk() {
    let plain = |q: FsQuery| match q.kind {
        QueryKind::Canonicalize => FsAnswer::Path(Some("/b".to_string())),
        QueryKind::IsSymlink => FsAnswer::Flag(false),
        QueryKind::ReadLink => FsAnswer::Path(None),
        QueryKind::Exists => FsAnswer::Flag(false),
    };
    // The joined path `/b/aaa...` may have as many bytes as the limit.
    let fits = "a".repeat(MAX_PATH_LENGTH - 3);
    assert_eq!(validate_path_atomic(&fits, "/b", &plain).unwrap().len(), MAX_PATH_LENGTH);
    let long = "a".repeat(MAX_PATH_LENGTH - 2);
    let err = validate_path_atomic(&long, "/b", &plain).unwrap_err();
    assert_eq!(err.reason, Reason::PathTooLong);
    assert_eq!(err.kind(), ErrorKind::MalformedInput);
    assert_eq!(err.input, long);
    // Bytes count, not characters.
    let wide = "é".repeat(MAX_PATH_LENGTH / 2 - 1);
    let err = validate_path_atomic(&wide, "/b", &plain).unwrap_err();
    assert_eq!(err.reason, Reason::PathTooLong);

    // The offset of a zero byte counts bytes of the joined path.
    let err = validate_path_atomic("é\0x", "/b", &plain).unwrap_err();
    assert_eq!(err.reason, Reason::NulCharacter);
    assert_eq!(err.kind(), ErrorKind::StructuralAttack);
    assert_eq!(err.pattern, "\0");
    assert_eq!(err.position, 5);

    let err = validate_path_atomic("a&#b", "/b", &plain).unwrap_err();
    assert_eq!(err.reason, Reason::MixedEncoding);
    assert_eq!(err.kind(), ErrorKind::EncodingAttack);
}

#[test]
fn path_without_a_name_to_append() {
    let missing = |q: FsQuery| match q.kind {
        QueryKind::Canonicalize => FsAnswer::Path(Some("/b".to_string())),
        QueryKind::IsSymlink => FsAnswer::Flag(false),
        QueryKind::ReadLink => FsAnswer::Path(None),
        QueryKind::Exists => FsAnswer::Flag(false),
    };
    let err = validate_path_atomic("", "/", &missing).unwrap_err();
    assert_eq!(err.reason, Reason::NoParent);
    assert_eq!(err.kind(), ErrorKind::FilesystemError);
    let err = validate_path_atomic("a/..", "/b", &missing).unwrap_err();
    assert_eq!(err.reason, Reason::NoFinalSegment);
    assert_eq!(err.kind(), ErrorKind::FilesystemError);
    // An absolute path takes the place of the base directory, and is then
    // found outside it.
    let honest = |q: FsQuery| match q.kind {
        QueryKind::Canonicalize => FsAnswer::Path(Some(q.path)),
        QueryKind::IsSymlink => FsAnswer::Flag(false),
        QueryKind::ReadLink => FsAnswer::Path(None),
        QueryKind::Exists => FsAnswer::Flag(false),
    };
    let err = validate_path_atomic("/etc/passwd", "/b", &honest).unwrap_err();
    assert_eq!(err.reason, Reason::EscapesBase);
    assert_eq!(err.pattern, "/etc/passwd");
}

#[test]
fn engine_asks_one_question_at_a_time() {
    let machine = Resolver::start("docs/new.txt", "/srv/base");
    let q = machine.query();
    assert_eq!((q.kind, q.path.as_str()), (QueryKind::Canonicalize, "/srv/base"));

    let machine = match machine.advance(FsAnswer::Path(Some("/data/base".to_string()))) {
        Progress::Pending(next) => next,
        _ => panic!("the walk follows"),
    };
    let q = machine.query();
    assert_eq!((q.kind, q.path.as_str()), (QueryKind::IsSymlink, "/srv/base/docs/new.txt"));

    let machine = match machine.advance(FsAnswer::Flag(false)) {
        Progress::Pending(next) => next,
        _ => panic!("the existence check follows"),
    };
    let q = machine.query();
    assert_eq!((q.kind, q.path.as_str()), (QueryKind::Exists, "/srv/base/docs/new.txt"));

    let machine = match machine.advance(FsAnswer::Flag(false)) {
        Progress::Pending(next) => next,
        _ => panic!("the parent follows"),
    };
    let q = machine.query();
    assert_eq!((q.kind, q.path.as_str()), (QueryKind::Canonicalize, "/srv/base/docs"));

    match machine.advance(FsAnswer::Path(Some("/data/base/docs".to_string()))) {
        Progress::Accepted(found) => assert_eq!(found, "/data/base/docs/new.txt"),
        _ => panic!("the path lies in the base directory"),
    }
}

#[test]
fn validating_a_valid_filename_again_returns_it() {
    for name in ["file.txt", "my-file_123.sol", "файл.txt", "a b.c", "C"] {
        let once = validate_filename(name).unwrap();
        assert_eq!(once, name);
        let twice = validate_filename(&once).unwrap();
        assert_eq!(twice, name);
    }
}

#[test]
fn shared_rules_reject_a_text_as_file_name_and_as_project_name() {
    let long = "a".repeat(256);
    for text in ["", long.as_str(), "a\0b", "a\u{1}b", "a\u{7f}", "\u{85}a", "a\u{9f}b"] {
        assert!(validate_filename(text).is_err());
        assert!(validate_project_name(text).is_err());
    }
}
