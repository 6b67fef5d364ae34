//! The validation orchestrator: the detectors in their order, then the
//! canonicalization engine run against a file system that the caller lends.
//!
//! The file system is a function from a question to an answer. The library
//! asks and decides; it reads nothing itself.

use vstd::prelude::*;
use crate::attacks::{
    absolute_finding, detect_absolute_path, detect_advanced_traversal, detect_protocol_schemes,
    detect_separator_manipulation, detect_suspicious_patterns, detect_windows_attacks,
    scheme_finding, separator_finding, special_path_finding, suspicious_finding,
    traversal_finding, validate_special_paths, windows_finding,
};
use crate::encoding::{
    dangerous_unicode_finding, detect_dangerous_unicode, detect_overlong_utf8,
    detect_unicode_encoding, detect_url_encoding, normalize_and_check, overlong_utf8_finding,
    unicode_encoding_finding, url_encoding_finding, whitespace_finding,
};
use crate::error::{Finding, Reason, ValidationError};
use crate::report::{or_else, reports};
use crate::resolve::{
    budget, initial, lemma_step_keeps_input, pending_query, reachable, run, step, Answer,
    FsAnswer, FsQuery, Outcome, Progress, Query, Resolver, State,
};

verus! {

/// What the text of a relative path breaks: it is empty, or a detector has a
/// finding.
pub open spec fn path_finding(s: Seq<char>) -> Option<Finding> {
    if s.len() == 0 {
        Some(Finding { reason: Reason::EmptyPath, pattern: Seq::empty(), position: 0 })
    } else {
        detector_finding(s)
    }
}

/// What the detectors find in the text of a relative path, in their order:
/// whitespace, schemes, encodings, absolute paths, separators, traversal,
/// platform constructs, suspicious tokens, system paths.
pub open spec fn detector_finding(s: Seq<char>) -> Option<Finding> {
    or_else(
        whitespace_finding(s),
        or_else(
            scheme_finding(s),
            or_else(
                url_encoding_finding(s),
                or_else(
                    overlong_utf8_finding(s),
                    or_else(
                        unicode_encoding_finding(s),
                        or_else(
                            dangerous_unicode_finding(s),
                            or_else(
                                absolute_finding(s),
                                or_else(
                                    separator_finding(s),
                                    or_else(
                                        traversal_finding(s),
                                        or_else(
                                            windows_finding(s),
                                            or_else(
                                                suspicious_finding(s),
                                                special_path_finding(s),
                                            ),
                                        ),
                                    ),
                                ),
                            ),
                        ),
                    ),
                ),
            ),
        ),
    )
}

/// The file system may give this answer to this question.
pub open spec fn may_answer<F: Fn(FsQuery) -> FsAnswer>(
    fs: &F,
    query: Query,
    answer: Answer,
) -> bool {
    exists|q: FsQuery, a: FsAnswer| q@ == query && a@ == answer && #[trigger] fs.ensures((q,), a)
}

/// Each answer of the sequence is one that the file system may give to the
/// question that the engine asks at that point.
pub open spec fn answers_of<F: Fn(FsQuery) -> FsAnswer>(
    fs: &F,
    start: State,
    answers: Seq<Answer>,
) -> bool {
    forall|i: int|
        0 <= i < answers.len() ==> match #[trigger] run(start, answers.take(i)) {
            Outcome::Pending(s) => may_answer(fs, pending_query(s), answers[i]),
            _ => false,
        }
}

/// A result as an outcome of the engine.
pub open spec fn outcome_of(r: Result<String, ValidationError>) -> Outcome {
    match r {
        Ok(p) => Outcome::Accepted(p@),
        Err(e) => Outcome::Rejected(e.finding()),
    }
}

/// The result of a resolution against a file system: the outcome of the
/// engine on some sequence of answers that the file system gave to the
/// engine's questions, with the input echoed where it fails. The answers are
/// the reads that were made, and there are no more of them than the budget of
/// the start allows: two for each link within the limit, and eight more.
pub open spec fn resolved_by<F: Fn(FsQuery) -> FsAnswer>(
    r: Result<String, ValidationError>,
    path: Seq<char>,
    base_dir: Seq<char>,
    fs: &F,
) -> bool {
    &&& exists|answers: Seq<Answer>|
        #![trigger run(initial(path, base_dir), answers)]
        {
            &&& answers_of(fs, initial(path, base_dir), answers)
            &&& outcome_of(r) == run(initial(path, base_dir), answers)
            &&& answers.len() <= budget(initial(path, base_dir))
        }
    &&& r matches Err(e) ==> e.input@ == path
}

/// Rejects an empty path, puts the text of any other through the detectors,
/// in their order, and reports the first finding.
pub fn check_path(path: &str) -> (r: Result<(), ValidationError>)
    ensures
        reports(r, path@, path_finding(path@)),
{
    if path.is_empty() {
        return Err(ValidationError::plain(Reason::EmptyPath, path));
    }
    let _ = normalize_and_check(path)?;
    detect_protocol_schemes(path)?;
    detect_url_encoding(path)?;
    detect_overlong_utf8(path)?;
    detect_unicode_encoding(path)?;
    detect_dangerous_unicode(path)?;
    detect_absolute_path(path)?;
    detect_separator_manipulation(path)?;
    detect_advanced_traversal(path)?;
    detect_windows_attacks(path)?;
    detect_suspicious_patterns(path)?;
    validate_special_paths(path)
}

/// Resolves a relative path against a base directory: joins the two, has the
/// base directory canonicalized, walks the chain of symbolic links at the
/// joined path, checks the joined path's text, has the path or its parent
/// canonicalized, and accepts the result only inside the canonical base
/// directory. Every read goes through `fs`; the number of reads is bounded.
pub fn validate_path_atomic<F: Fn(FsQuery) -> FsAnswer>(path: &str, base_dir: &str, fs: &F) -> (r:
    Result<String, ValidationError>)
    requires
        forall|q: FsQuery| fs.requires((q,)),
    ensures
        resolved_by(r, path@, base_dir@, fs),
{
    let mut machine = Resolver::start(path, base_dir);
    let ghost start = initial(path@, base_dir@);
    let ghost mut trace: Seq<Answer> = Seq::empty();
    loop
        invariant
            forall|q: FsQuery| fs.requires((q,)),
            start == initial(path@, base_dir@),
            reachable(machine@),
            machine@.input == path@,
            answers_of(fs, start, trace),
            run(start, trace) == Outcome::Pending(machine@),
            trace.len() + budget(machine@) <= budget(start),
        decreases budget(machine@),
    {
        let question = machine.query();
        let ghost asked = machine@;
        let answer = fs(question);
        let ghost longer = trace.push(answer@);
        proof {
            assert(longer.drop_last() =~= trace);
            assert(run(start, longer) == step(asked, answer@));
            assert(may_answer(fs, pending_query(asked), answer@));
            assert forall|i: int| 0 <= i < longer.len() implies match #[trigger] run(
                start,
                longer.take(i),
            ) {
                Outcome::Pending(s) => may_answer(fs, pending_query(s), longer[i]),
                _ => false,
            } by {
                if i < trace.len() {
                    assert(longer.take(i) =~= trace.take(i));
                } else {
                    assert(longer.take(i) =~= trace);
                }
            }
            trace = longer;
        }
        match machine.advance(answer) {
            Progress::Pending(next) => {
                proof {
                    lemma_step_keeps_input(asked, answer@);
                }
                machine = next;
            },
            Progress::Accepted(found) => {
                return Ok(found);
            },
            Progress::Rejected(e) => {
                return Err(e);
            },
        }
    }
}

/// Validates a relative path against a base directory. The text of the path
/// is put through the detectors first; a path without a finding is resolved
/// by the canonicalization engine, with every read going through `fs`.
/// Returns the canonical path, which is the canonical base directory or lies
/// below it. An empty path is malformed; the base directory itself is named
/// by `.`.
pub fn validate_path<F: Fn(FsQuery) -> FsAnswer>(path: &str, base_dir: &str, fs: &F) -> (r: Result<
    String,
    ValidationError,
>)
    requires
        forall|q: FsQuery| fs.requires((q,)),
    ensures
        match path_finding(path@) {
            Some(f) => r matches Err(e) && e.finding() == f && e.input@ == path@,
            None => resolved_by(r, path@, base_dir@, fs),
        },
{
    check_path(path)?;
    validate_path_atomic(path, base_dir, fs)
}

} // verus!
