//! The canonicalization engine: from a relative path and a base directory to
//! the canonical location inside the base, or a failure.
//!
//! The engine never touches a file system. It is a machine that asks one
//! question at a time of whoever runs it (canonicalize this path, is this
//! path a symbolic link, where does this link point, does this path exist)
//! and decides from the answer what to ask next or how to end. Every decision
//! is stated by `step`; the caller performs the reads.
//!
//! The order of work: canonicalize the base directory; walk the chain of
//! symbolic links that starts at the joined path, taking a relative target
//! from the directory of its link, and failing on a repeat or on a chain that
//! is too long; check the joined path's length, look for a NUL byte
//! and for mixed encodings; canonicalize the joined path where it exists and
//! its parent where it does not; accept the result only if it lies in the
//! canonical base directory.

use vstd::prelude::*;
use vstd::utf8::encode_utf8;
use crate::encoding::{detect_mixed_encoding, mixed_encoding};
use crate::error::{Finding, Reason, ValidationError};
use crate::paths::{
    copy_chars, final_name, join, join_paths, last_name, names, parent, parent_path,
    path_starts_with, rows, same_chars, split_names, starts_with_path, strip_base, strip_prefix,
};
use crate::patterns::{MAX_PATH_LENGTH, MAX_SYMLINK_CHAIN_LENGTH};
use crate::report::reports;
use crate::text::{byte_length, chars_of, string_of};

verus! {

/// What the engine can ask.
#[derive(Clone, Copy, Debug, PartialEq, Eq, Structural)]
pub enum QueryKind {
    /// The absolute path, free of symbolic links, of an existing location.
    Canonicalize,
    /// Whether the path itself is a symbolic link.
    IsSymlink,
    /// The target that a symbolic link holds.
    ReadLink,
    /// Whether the path, with links followed, leads to something.
    Exists,
}

/// One question, about one path.
#[derive(Clone, Debug)]
pub struct FsQuery {
    pub kind: QueryKind,
    pub path: String,
}

/// One answer: a path, or none where the read failed, for `Canonicalize` and
/// `ReadLink`; a flag for `IsSymlink` and `Exists`.
#[derive(Clone, Debug)]
pub enum FsAnswer {
    Path(Option<String>),
    Flag(bool),
}

/// A question as a value of the model.
pub struct Query {
    pub kind: QueryKind,
    pub path: Seq<char>,
}

/// An answer as a value of the model.
pub enum Answer {
    Path(Option<Seq<char>>),
    Flag(bool),
}

impl View for FsQuery {
    type V = Query;

    open spec fn view(&self) -> Query {
        Query { kind: self.kind, path: self.path@ }
    }
}

impl View for FsAnswer {
    type V = Answer;

    open spec fn view(&self) -> Answer {
        match self {
            FsAnswer::Path(Some(p)) => Answer::Path(Some(p@)),
            FsAnswer::Path(None) => Answer::Path(None),
            FsAnswer::Flag(b) => Answer::Flag(*b),
        }
    }
}

/// Where the engine stands: the question it waits on.
#[derive(Clone, Copy, Debug, PartialEq, Eq, Structural)]
pub enum Phase {
    /// The canonical form of the base directory.
    AwaitBase,
    /// Whether the current path of the walk is a symbolic link.
    AwaitLinkStatus,
    /// The target of the current path of the walk.
    AwaitLinkTarget,
    /// Whether the joined path exists.
    AwaitExists,
    /// The canonical form of the joined path.
    AwaitCanonicalPath,
    /// The canonical form of the joined path's parent.
    AwaitCanonicalParent,
    /// The canonical form of the parent, rebuilt from the canonical base.
    AwaitRebuiltParent,
}

/// The state of the engine.
pub struct State {
    pub phase: Phase,
    /// The relative path as it was given.
    pub input: Seq<char>,
    /// The base directory as it was given.
    pub base_dir: Seq<char>,
    /// The relative path joined to the base directory.
    pub full_path: Seq<char>,
    /// The canonical base directory, once it is known.
    pub canonical_base: Seq<char>,
    /// The path that the walk has reached.
    pub current: Seq<char>,
    /// The links that the walk has followed, in order.
    pub visited: Seq<Seq<char>>,
}

/// What a step leads to.
pub enum Outcome {
    /// The engine waits on another answer.
    Pending(State),
    /// The canonical path, inside the base directory.
    Accepted(Seq<char>),
    /// The failure.
    Rejected(Finding),
}

/// The state in which a resolution starts.
pub open spec fn initial(path: Seq<char>, base_dir: Seq<char>) -> State {
    State {
        phase: Phase::AwaitBase,
        input: path,
        base_dir,
        full_path: join(base_dir, path),
        canonical_base: Seq::empty(),
        current: join(base_dir, path),
        visited: Seq::empty(),
    }
}

/// The question that a state waits on.
pub open spec fn pending_query(s: State) -> Query {
    match s.phase {
        Phase::AwaitBase => Query { kind: QueryKind::Canonicalize, path: s.base_dir },
        Phase::AwaitLinkStatus => Query { kind: QueryKind::IsSymlink, path: s.current },
        Phase::AwaitLinkTarget => Query { kind: QueryKind::ReadLink, path: s.current },
        Phase::AwaitExists => Query { kind: QueryKind::Exists, path: s.full_path },
        Phase::AwaitCanonicalPath => Query { kind: QueryKind::Canonicalize, path: s.full_path },
        Phase::AwaitCanonicalParent => Query {
            kind: QueryKind::Canonicalize,
            path: parent(s.full_path),
        },
        Phase::AwaitRebuiltParent => Query {
            kind: QueryKind::Canonicalize,
            path: rebuilt_parent(s),
        },
    }
}

/// The parent of the joined path, rebuilt below the canonical base: what the
/// parent has after the base directory, appended to the canonical base. Where
/// the parent does not lie in the base directory, the canonical base itself.
pub open spec fn rebuilt_parent(s: State) -> Seq<char> {
    if path_starts_with(parent(s.full_path), s.base_dir) {
        join(s.canonical_base, strip_base(parent(s.full_path), s.base_dir))
    } else {
        s.canonical_base
    }
}

/// A failure that names no token.
pub open spec fn plain(reason: Reason) -> Outcome {
    Outcome::Rejected(Finding { reason, pattern: Seq::empty(), position: 0 })
}

/// A failure that names a path.
pub open spec fn naming(reason: Reason, path: Seq<char>) -> Outcome {
    Outcome::Rejected(Finding { reason, pattern: path, position: 0 })
}

/// `i` is the least offset of `b` that holds a zero byte.
pub open spec fn is_first_zero(b: Seq<u8>, i: int) -> bool {
    &&& 0 <= i < b.len()
    &&& b[i] == 0
    &&& forall|j: int| 0 <= j < i ==> b[j] != 0
}

/// `b` holds a zero byte.
pub open spec fn has_zero(b: Seq<u8>) -> bool {
    exists|i: int| 0 <= i < b.len() && b[i] == 0
}

/// What the text of the joined path breaks, in order: it is longer than the
/// limit, in bytes; one of its bytes is zero; it mixes encodings. The
/// position of a zero byte is its offset in bytes.
pub open spec fn joined_path_finding(full_path: Seq<char>) -> Option<Finding> {
    let bytes = encode_utf8(full_path);
    if bytes.len() > MAX_PATH_LENGTH {
        Some(Finding { reason: Reason::PathTooLong, pattern: Seq::empty(), position: 0 })
    } else if has_zero(bytes) {
        Some(
            Finding {
                reason: Reason::NulCharacter,
                pattern: "\0"@,
                position: choose|i: int| is_first_zero(bytes, i),
            },
        )
    } else if mixed_encoding(full_path) {
        Some(Finding { reason: Reason::MixedEncoding, pattern: Seq::empty(), position: 0 })
    } else {
        None
    }
}

/// The path that a link points to: its target, taken from the directory of
/// the link where the target is relative.
pub open spec fn link_target(link: Seq<char>, target: Seq<char>) -> Seq<char> {
    join(parent(link), target)
}

/// The end of the walk: the joined path's text is checked, and the engine
/// goes on to ask whether the path exists.
pub open spec fn after_walk(s: State) -> Outcome {
    match joined_path_finding(s.full_path) {
        Some(f) => Outcome::Rejected(f),
        None => Outcome::Pending(State { phase: Phase::AwaitExists, ..s }),
    }
}

/// The confinement check: a candidate is accepted only if it is the canonical
/// base directory or lies below it.
pub open spec fn confine(s: State, candidate: Seq<char>) -> Outcome {
    if path_starts_with(candidate, s.canonical_base) {
        Outcome::Accepted(candidate)
    } else {
        naming(Reason::EscapesBase, candidate)
    }
}

/// The candidate for a path that does not exist yet: its last name appended
/// to the canonical form of its parent.
pub open spec fn confine_below(s: State, canonical_parent: Seq<char>) -> Outcome {
    match final_name(s.full_path) {
        Some(name) => confine(s, join(canonical_parent, name)),
        None => plain(Reason::NoFinalSegment),
    }
}

/// One step of the engine: what follows from an answer in a state.
pub open spec fn step(s: State, a: Answer) -> Outcome {
    match s.phase {
        Phase::AwaitBase => match a {
            Answer::Path(Some(canonical)) => Outcome::Pending(
                State { phase: Phase::AwaitLinkStatus, canonical_base: canonical, ..s },
            ),
            Answer::Path(None) => plain(Reason::BaseUnresolvable),
            Answer::Flag(_) => plain(Reason::UnexpectedAnswer),
        },
        Phase::AwaitLinkStatus => match a {
            Answer::Flag(true) => if s.visited.contains(s.current) {
                naming(Reason::SymlinkLoop, s.current)
            } else {
                Outcome::Pending(
                    State {
                        phase: Phase::AwaitLinkTarget,
                        visited: s.visited.push(s.current),
                        ..s
                    },
                )
            },
            Answer::Flag(false) => after_walk(s),
            Answer::Path(_) => plain(Reason::UnexpectedAnswer),
        },
        Phase::AwaitLinkTarget => match a {
            Answer::Path(Some(target)) => if s.visited.len() > MAX_SYMLINK_CHAIN_LENGTH {
                plain(Reason::SymlinkChainTooLong)
            } else {
                Outcome::Pending(
                    State {
                        phase: Phase::AwaitLinkStatus,
                        current: link_target(s.current, target),
                        ..s
                    },
                )
            },
            Answer::Path(None) => naming(Reason::LinkUnreadable, s.current),
            Answer::Flag(_) => plain(Reason::UnexpectedAnswer),
        },
        Phase::AwaitExists => match a {
            Answer::Flag(true) => Outcome::Pending(
                State { phase: Phase::AwaitCanonicalPath, ..s },
            ),
            Answer::Flag(false) => if names(s.full_path).len() == 0 {
                plain(Reason::NoParent)
            } else if final_name(s.full_path) is None {
                plain(Reason::NoFinalSegment)
            } else {
                Outcome::Pending(State { phase: Phase::AwaitCanonicalParent, ..s })
            },
            Answer::Path(_) => plain(Reason::UnexpectedAnswer),
        },
        Phase::AwaitCanonicalPath => match a {
            Answer::Path(Some(canonical)) => confine(s, canonical),
            Answer::Path(None) => plain(Reason::PathUnresolvable),
            Answer::Flag(_) => plain(Reason::UnexpectedAnswer),
        },
        Phase::AwaitCanonicalParent => match a {
            Answer::Path(Some(canonical)) => confine_below(s, canonical),
            Answer::Path(None) => if path_starts_with(parent(s.full_path), s.base_dir) {
                Outcome::Pending(State { phase: Phase::AwaitRebuiltParent, ..s })
            } else {
                plain(Reason::ParentUnresolvable)
            },
            Answer::Flag(_) => plain(Reason::UnexpectedAnswer),
        },
        Phase::AwaitRebuiltParent => match a {
            Answer::Path(Some(canonical)) => confine_below(s, canonical),
            Answer::Path(None) => plain(Reason::ParentUnresolvable),
            Answer::Flag(_) => plain(Reason::UnexpectedAnswer),
        },
    }
}

/// The outcome of the engine after a sequence of answers: each answer is
/// taken by the state that the answers before it led to, and an outcome that
/// ends the resolution stays.
pub open spec fn run(start: State, answers: Seq<Answer>) -> Outcome
    decreases answers.len(),
{
    if answers.len() == 0 {
        Outcome::Pending(start)
    } else {
        match run(start, answers.drop_last()) {
            Outcome::Pending(s) => step(s, answers.last()),
            ended => ended,
        }
    }
}

/// The states that a resolution can reach: the walk has followed at most as
/// many links as the limit allows, and no link twice.
pub open spec fn reachable(s: State) -> bool {
    &&& s.visited.no_duplicates()
    &&& match s.phase {
        Phase::AwaitBase => s.visited.len() == 0,
        Phase::AwaitLinkTarget => 1 <= s.visited.len() <= MAX_SYMLINK_CHAIN_LENGTH + 1,
        _ => s.visited.len() <= MAX_SYMLINK_CHAIN_LENGTH,
    }
}

/// An upper bound on the answers that a state can still take before the
/// resolution ends.
pub open spec fn budget(s: State) -> nat {
    match s.phase {
        Phase::AwaitBase => 2 * (MAX_SYMLINK_CHAIN_LENGTH as nat) + 8,
        Phase::AwaitLinkStatus => (2 * (MAX_SYMLINK_CHAIN_LENGTH + 1 - s.visited.len()) + 5) as nat,
        Phase::AwaitLinkTarget => (2 * (MAX_SYMLINK_CHAIN_LENGTH + 1 - s.visited.len()) + 6) as nat,
        Phase::AwaitExists => 4,
        Phase::AwaitCanonicalParent => 2,
        Phase::AwaitCanonicalPath => 1,
        Phase::AwaitRebuiltParent => 1,
    }
}

/// A resolution in progress.
#[derive(Debug)]
pub struct Resolver {
    phase: Phase,
    input: String,
    base_dir: Vec<char>,
    full_path: Vec<char>,
    canonical_base: Vec<char>,
    current: Vec<char>,
    visited: Vec<Vec<char>>,
}

/// What an answer leads to.
#[derive(Debug)]
pub enum Progress {
    /// The engine waits on another answer.
    Pending(Resolver),
    /// The canonical path, inside the base directory.
    Accepted(String),
    /// The failure.
    Rejected(ValidationError),
}

impl View for Resolver {
    type V = State;

    closed spec fn view(&self) -> State {
        State {
            phase: self.phase,
            input: self.input@,
            base_dir: self.base_dir@,
            full_path: self.full_path@,
            canonical_base: self.canonical_base@,
            current: self.current@,
            visited: rows(self.visited@),
        }
    }
}

impl View for Progress {
    type V = Outcome;

    open spec fn view(&self) -> Outcome {
        match self {
            Progress::Pending(r) => Outcome::Pending(r@),
            Progress::Accepted(p) => Outcome::Accepted(p@),
            Progress::Rejected(e) => Outcome::Rejected(e.finding()),
        }
    }
}

impl Progress {
    /// A failure echoes the input of the resolution.
    pub open spec fn echoes(&self, input: Seq<char>) -> bool {
        match self {
            Progress::Rejected(e) => e.input@ == input,
            _ => true,
        }
    }
}

/// There is only one first zero byte.
pub proof fn lemma_first_zero(b: Seq<u8>, i: int)
    requires
        is_first_zero(b, i),
    ensures
        has_zero(b),
        (choose|j: int| is_first_zero(b, j)) == i,
{
    let j = choose|j: int| is_first_zero(b, j);
    assert(is_first_zero(b, j));
    if j < i {
        assert(b[j] != 0);
    } else if i < j {
        assert(b[i] != 0);
    }
}

/// The offset of the first zero byte, if there is one.
pub fn find_zero(bytes: &[u8]) -> (r: Option<usize>)
    ensures
        match r {
            Some(i) => is_first_zero(bytes@, i as int),
            None => !has_zero(bytes@),
        },
{
    let mut i: usize = 0;
    while i < bytes.len()
        invariant
            i <= bytes.len(),
            forall|j: int| 0 <= j < i ==> bytes@[j] != 0,
        decreases bytes.len() - i,
    {
        if bytes[i] == 0 {
            return Some(i);
        }
        i += 1;
    }
    None
}

/// Whether a table holds a row with the given characters.
pub fn holds_row(table: &Vec<Vec<char>>, row: &Vec<char>) -> (r: bool)
    ensures
        r == rows(table@).contains(row@),
{
    let mut i: usize = 0;
    while i < table.len()
        invariant
            i <= table.len(),
            forall|j: int| 0 <= j < i ==> rows(table@)[j] != row@,
        decreases table.len() - i,
    {
        if same_chars(&table[i], row) {
            proof {
                assert(rows(table@)[i as int] == row@);
            }
            return true;
        }
        i += 1;
    }
    false
}

/// Checks the text of a joined path: its length, its bytes, its encoding.
pub fn check_joined_path(input: &str, full_path: &str) -> (r: Result<(), ValidationError>)
    ensures
        reports(r, input@, joined_path_finding(full_path@)),
{
    if byte_length(full_path) > MAX_PATH_LENGTH {
        return Err(ValidationError::plain(Reason::PathTooLong, input));
    }
    match find_zero(full_path.as_bytes()) {
        Some(at) => {
            proof {
                lemma_first_zero(encode_utf8(full_path@), at as int);
            }
            return Err(ValidationError::new(Reason::NulCharacter, "\0", at, input));
        },
        None => {},
    }
    if detect_mixed_encoding(full_path) {
        return Err(ValidationError::plain(Reason::MixedEncoding, input));
    }
    Ok(())
}

impl Resolver {
    /// Starts the resolution of `path` against `base_dir`. The first
    /// question asks for the canonical form of the base directory.
    pub fn start(path: &str, base_dir: &str) -> (r: Resolver)
        ensures
            r@ == initial(path@, base_dir@),
            reachable(r@),
    {
        let base = chars_of(base_dir);
        let rel = chars_of(path);
        let full = join_paths(&base, &rel);
        let current = copy_chars(&full);
        let r = Resolver {
            phase: Phase::AwaitBase,
            input: path.to_owned(),
            base_dir: base,
            full_path: full,
            canonical_base: Vec::new(),
            current,
            visited: Vec::new(),
        };
        proof {
            assert(rows(r.visited@) =~= Seq::<Seq<char>>::empty());
            assert(r.canonical_base@ =~= Seq::<char>::empty());
        }
        r
    }

    /// The question that the engine waits on.
    pub fn query(&self) -> (q: FsQuery)
        ensures
            q@ == pending_query(self@),
    {
        match self.phase {
            Phase::AwaitBase => FsQuery {
                kind: QueryKind::Canonicalize,
                path: string_of(&self.base_dir),
            },
            Phase::AwaitLinkStatus => FsQuery {
                kind: QueryKind::IsSymlink,
                path: string_of(&self.current),
            },
            Phase::AwaitLinkTarget => FsQuery {
                kind: QueryKind::ReadLink,
                path: string_of(&self.current),
            },
            Phase::AwaitExists => FsQuery {
                kind: QueryKind::Exists,
                path: string_of(&self.full_path),
            },
            Phase::AwaitCanonicalPath => FsQuery {
                kind: QueryKind::Canonicalize,
                path: string_of(&self.full_path),
            },
            Phase::AwaitCanonicalParent => {
                let up = parent_path(&self.full_path);
                FsQuery { kind: QueryKind::Canonicalize, path: string_of(&up) }
            },
            Phase::AwaitRebuiltParent => {
                let up = parent_path(&self.full_path);
                let rebuilt = match strip_prefix(&up, &self.base_dir) {
                    Some(rest) => join_paths(&self.canonical_base, &rest),
                    None => copy_chars(&self.canonical_base),
                };
                FsQuery { kind: QueryKind::Canonicalize, path: string_of(&rebuilt) }
            },
        }
    }

    fn reject(self, reason: Reason) -> (p: Progress)
        ensures
            p@ == plain(reason),
            p.echoes(self@.input),
    {
        Progress::Rejected(ValidationError::plain(reason, self.input.as_str()))
    }

    fn reject_naming(self, reason: Reason, path: &Vec<char>) -> (p: Progress)
        ensures
            p@ == naming(reason, path@),
            p.echoes(self@.input),
    {
        let token = string_of(path);
        Progress::Rejected(ValidationError::new(reason, token.as_str(), 0, self.input.as_str()))
    }

    fn confine(self, candidate: Vec<char>) -> (p: Progress)
        ensures
            p@ == confine(self@, candidate@),
            p.echoes(self@.input),
    {
        if starts_with_path(&candidate, &self.canonical_base) {
            Progress::Accepted(string_of(&candidate))
        } else {
            self.reject_naming(Reason::EscapesBase, &candidate)
        }
    }

    fn confine_below(self, canonical_parent: &Vec<char>) -> (p: Progress)
        ensures
            p@ == confine_below(self@, canonical_parent@),
            p.echoes(self@.input),
    {
        match last_name(&self.full_path) {
            Some(name) => {
                let candidate = join_paths(canonical_parent, &name);
                self.confine(candidate)
            },
            None => self.reject(Reason::NoFinalSegment),
        }
    }

    fn end_walk(self) -> (p: Progress)
        ensures
            p@ == after_walk(self@),
            p.echoes(self@.input),
    {
        let text = string_of(&self.full_path);
        match check_joined_path(self.input.as_str(), text.as_str()) {
            Err(e) => Progress::Rejected(e),
            Ok(_) => {
                let mut next = self;
                next.phase = Phase::AwaitExists;
                Progress::Pending(next)
            },
        }
    }

    fn on_link_status(self, is_link: bool) -> (p: Progress)
        requires
            self@.phase == Phase::AwaitLinkStatus,
        ensures
            p@ == step(self@, Answer::Flag(is_link)),
            p.echoes(self@.input),
    {
        if !is_link {
            return self.end_walk();
        }
        if holds_row(&self.visited, &self.current) {
            let repeated = copy_chars(&self.current);
            return self.reject_naming(Reason::SymlinkLoop, &repeated);
        }
        let mut next = self;
        let ghost before = rows(next.visited@);
        let link = copy_chars(&next.current);
        next.visited.push(link);
        next.phase = Phase::AwaitLinkTarget;
        proof {
            assert(rows(next.visited@) =~= before.push(next.current@));
        }
        Progress::Pending(next)
    }

    fn on_link_target(self, target: Option<String>) -> (p: Progress)
        requires
            self@.phase == Phase::AwaitLinkTarget,
        ensures
            p@ == step(self@, FsAnswer::Path(target)@),
            p.echoes(self@.input),
    {
        match target {
            None => {
                let unread = copy_chars(&self.current);
                self.reject_naming(Reason::LinkUnreadable, &unread)
            },
            Some(t) => {
                if self.visited.len() > MAX_SYMLINK_CHAIN_LENGTH {
                    return self.reject(Reason::SymlinkChainTooLong);
                }
                let target = chars_of(t.as_str());
                let directory = parent_path(&self.current);
                let mut next = self;
                next.current = join_paths(&directory, &target);
                next.phase = Phase::AwaitLinkStatus;
                Progress::Pending(next)
            },
        }
    }

    fn on_exists(self, exists: bool) -> (p: Progress)
        requires
            self@.phase == Phase::AwaitExists,
        ensures
            p@ == step(self@, Answer::Flag(exists)),
            p.echoes(self@.input),
    {
        if exists {
            let mut next = self;
            next.phase = Phase::AwaitCanonicalPath;
            return Progress::Pending(next);
        }
        let found = split_names(&self.full_path);
        if found.len() == 0 {
            return self.reject(Reason::NoParent);
        }
        if last_name(&self.full_path).is_none() {
            return self.reject(Reason::NoFinalSegment);
        }
        let mut next = self;
        next.phase = Phase::AwaitCanonicalParent;
        Progress::Pending(next)
    }

    fn on_canonical_parent(self, canonical: Option<String>) -> (p: Progress)
        requires
            self@.phase == Phase::AwaitCanonicalParent,
        ensures
            p@ == step(self@, FsAnswer::Path(canonical)@),
            p.echoes(self@.input),
    {
        match canonical {
            Some(c) => {
                let above = chars_of(c.as_str());
                self.confine_below(&above)
            },
            None => {
                let up = parent_path(&self.full_path);
                if starts_with_path(&up, &self.base_dir) {
                    let mut next = self;
                    next.phase = Phase::AwaitRebuiltParent;
                    Progress::Pending(next)
                } else {
                    self.reject(Reason::ParentUnresolvable)
                }
            },
        }
    }

    /// Takes the answer to the pending question and decides what follows:
    /// another question, the canonical path, or a failure. An answer of the
    /// wrong form ends the resolution with a failure.
    pub fn advance(self, answer: FsAnswer) -> (p: Progress)
        ensures
            p@ == step(self@, answer@),
            p.echoes(self@.input),
            reachable(self@) ==> (p matches Progress::Pending(next) ==> reachable(next@) && budget(
                next@,
            ) < budget(self@)),
    {
        proof {
            if reachable(self@) {
                lemma_step_keeps_reachable(self@, answer@);
            }
        }
        match self.phase {
            Phase::AwaitBase => match answer {
                FsAnswer::Path(Some(c)) => {
                    let mut next = self;
                    next.canonical_base = chars_of(c.as_str());
                    next.phase = Phase::AwaitLinkStatus;
                    Progress::Pending(next)
                },
                FsAnswer::Path(None) => self.reject(Reason::BaseUnresolvable),
                FsAnswer::Flag(_) => self.reject(Reason::UnexpectedAnswer),
            },
            Phase::AwaitLinkStatus => match answer {
                FsAnswer::Flag(is_link) => self.on_link_status(is_link),
                FsAnswer::Path(_) => self.reject(Reason::UnexpectedAnswer),
            },
            Phase::AwaitLinkTarget => match answer {
                FsAnswer::Path(target) => self.on_link_target(target),
                FsAnswer::Flag(_) => self.reject(Reason::UnexpectedAnswer),
            },
            Phase::AwaitExists => match answer {
                FsAnswer::Flag(exists) => self.on_exists(exists),
                FsAnswer::Path(_) => self.reject(Reason::UnexpectedAnswer),
            },
            Phase::AwaitCanonicalPath => match answer {
                FsAnswer::Path(Some(c)) => {
                    let candidate = chars_of(c.as_str());
                    self.confine(candidate)
                },
                FsAnswer::Path(None) => self.reject(Reason::PathUnresolvable),
                FsAnswer::Flag(_) => self.reject(Reason::UnexpectedAnswer),
            },
            Phase::AwaitCanonicalParent => match answer {
                FsAnswer::Path(canonical) => self.on_canonical_parent(canonical),
                FsAnswer::Flag(_) => self.reject(Reason::UnexpectedAnswer),
            },
            Phase::AwaitRebuiltParent => match answer {
                FsAnswer::Path(Some(c)) => {
                    let above = chars_of(c.as_str());
                    self.confine_below(&above)
                },
                FsAnswer::Path(None) => self.reject(Reason::ParentUnresolvable),
                FsAnswer::Flag(_) => self.reject(Reason::UnexpectedAnswer),
            },
        }
    }
}

/// A step never changes the input, the base directory or the joined path.
pub proof fn lemma_step_keeps_input(s: State, a: Answer)
    ensures
        step(s, a) matches Outcome::Pending(t) ==> t.input == s.input && t.base_dir == s.base_dir
            && t.full_path == s.full_path,
{
}

/// A step from a reachable state leads to a reachable state with a smaller
/// budget, or ends the resolution.
pub proof fn lemma_step_keeps_reachable(s: State, a: Answer)
    requires
        reachable(s),
    ensures
        step(s, a) matches Outcome::Pending(t) ==> reachable(t) && budget(t) < budget(s),
{
    if let Outcome::Pending(t) = step(s, a) {
        if s.phase == Phase::AwaitLinkStatus && a == Answer::Flag(true) {
            assert(!s.visited.contains(s.current));
            assert(t.visited == s.visited.push(s.current));
            assert forall|i: int, j: int|
                0 <= i < t.visited.len() && 0 <= j < t.visited.len() && i != j implies t.visited[i]
                != t.visited[j] by {
                if i < s.visited.len() && j < s.visited.len() {
                    assert(s.visited[i] != s.visited[j]);
                } else if i < s.visited.len() {
                    assert(s.visited.contains(s.visited[i]));
                } else {
                    assert(s.visited.contains(s.visited[j]));
                }
            }
        }
    }
}

} // verus!
