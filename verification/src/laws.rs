//! What holds of the library as a whole: statements that relate several
//! functions, or that hold of every run of the engine, each with its proof.

use vstd::prelude::*;
use vstd::utf8::encode_utf8;
use crate::attacks::{
    absolute_finding, inner_doubled_finding, scheme_finding, separator_finding,
    special_path_finding, suspicious_finding, traversal_finding, windows_finding,
};
use crate::encoding::{
    dangerous_unicode_finding, has_dangerous, overlong_utf8_finding, unicode_encoding_finding,
    url_encoding_finding,
};
use crate::error::{Reason, ValidationError};
use crate::names::{
    control_finding, filename_finding, has_control, has_invalid, is_control, is_name_char,
    name_shape_finding, project_name_finding,
};
use crate::paths::{join, path_starts_with};
use crate::patterns::{
    dangerous_schemes, doubled_separators, file_schemes, hex_escape_tokens, http_schemes,
    nested_traversal_patterns, overlong_utf8_patterns, suspicious_tokens, system_paths,
    traversal_patterns, unusual_separators, url_encoded_tokens, MAX_FILENAME_LENGTH,
    MAX_SYMLINK_CHAIN_LENGTH,
};
use crate::report::{prefix_finding, table_finding, token_finding, validates};
use crate::resolve::{
    budget, initial, lemma_step_keeps_reachable, link_target, naming, pending_query, reachable,
    run, step, Answer, FsAnswer, FsQuery, Outcome, Phase, Query, QueryKind, State,
};
use crate::text::{
    any_hit, any_prefix_hit, first_hit, lemma_any_hit_has_first, occurs, occurs_at,
};
use crate::unicode::{unicode_lowercase, unicode_uppercase};
use crate::validation::{answers_of, may_answer, outcome_of, path_finding, resolved_by};

verus! {

/// Idempotence of file name validation: where validation accepts a name, it
/// returns that name, and validating what it returned accepts and returns it
/// again.
pub proof fn law_filename_idempotence(
    name: Seq<char>,
    first: Result<String, ValidationError>,
    second: Result<String, ValidationError>,
)
    requires
        validates(first, name, filename_finding(name)),
        first matches Ok(valid) && validates(second, valid@, filename_finding(valid@)),
    ensures
        first matches Ok(valid) && valid@ == name,
        second matches Ok(again) && again@ == name,
{
}

/// The engine has its canonical base directory from the first answer: in
/// every state that a run reaches after the start, the canonical base is the
/// path that the first answer gave.
proof fn lemma_run_anchored(path: Seq<char>, base_dir: Seq<char>, answers: Seq<Answer>)
    requires
        answers.len() > 0,
    ensures
        run(initial(path, base_dir), answers) matches Outcome::Pending(s) ==> s.phase
            != Phase::AwaitBase && answers[0] == Answer::Path(Some(s.canonical_base)),
        run(initial(path, base_dir), answers) matches Outcome::Accepted(p) ==> (
        answers[0] matches Answer::Path(Some(canonical)) && path_starts_with(p, canonical)),
    decreases answers.len(),
{
    let start = initial(path, base_dir);
    let before = answers.drop_last();
    if before.len() > 0 {
        lemma_run_anchored(path, base_dir, before);
        assert(before[0] == answers[0]);
    } else {
        assert(run(start, before) == Outcome::Pending(start));
        assert(answers.last() == answers[0]);
    }
    match run(start, before) {
        Outcome::Pending(s) => {
            assert(run(start, answers) == step(s, answers.last()));
        },
        ended => {
            assert(run(start, answers) == ended);
        },
    }
}

/// Confinement of the engine: whatever the answers, a path that a run accepts
/// is the canonical base directory, as the first answer gave it, or lies
/// below it component by component.
pub proof fn law_run_confined(path: Seq<char>, base_dir: Seq<char>, answers: Seq<Answer>)
    requires
        run(initial(path, base_dir), answers) is Accepted,
    ensures
        answers.len() > 0,
        answers[0] matches Answer::Path(Some(canonical)) && path_starts_with(
            run(initial(path, base_dir), answers)->Accepted_0,
            canonical,
        ),
{
    if answers.len() > 0 {
        lemma_run_anchored(path, base_dir, answers);
    }
}

/// Confinement of path validation: a path that `validate_path` or
/// `validate_path_atomic` returns is the canonical base directory or lies
/// below it, where the canonical base directory is an answer that the file
/// system gave when it was asked to canonicalize the base directory.
pub proof fn law_confinement<F: Fn(FsQuery) -> FsAnswer>(
    r: Result<String, ValidationError>,
    path: Seq<char>,
    base_dir: Seq<char>,
    fs: &F,
)
    requires
        resolved_by(r, path, base_dir, fs),
        r is Ok,
    ensures
        exists|canonical: Seq<char>|
            #![trigger path_starts_with(r->Ok_0@, canonical)]
            may_answer(
                fs,
                Query { kind: QueryKind::Canonicalize, path: base_dir },
                Answer::Path(Some(canonical)),
            ) && path_starts_with(r->Ok_0@, canonical),
{
    let start = initial(path, base_dir);
    let answers = choose|answers: Seq<Answer>|
        #![trigger run(initial(path, base_dir), answers)]
        answers_of(fs, start, answers) && outcome_of(r) == run(start, answers) && answers.len()
            <= budget(start);
    law_run_confined(path, base_dir, answers);
    let canonical = answers[0]->Path_0->Some_0;
    assert(answers.take(0) =~= Seq::<Answer>::empty());
    assert(run(start, answers.take(0)) == Outcome::Pending(start));
    assert(may_answer(fs, pending_query(start), answers[0]));
    assert(path_starts_with(r->Ok_0@, canonical));
}

/// The text holds something that the tables forbid in a relative path: a
/// token, a character, or a prefix of one of the catalogs.
pub open spec fn holds_forbidden(s: Seq<char>) -> bool {
    ||| any_hit(s, url_encoded_tokens())
    ||| occurs(s, "%25"@)
    ||| any_hit(unicode_lowercase(s), overlong_utf8_patterns())
    ||| occurs(s, "%u"@)
    ||| occurs(s, "&#"@)
    ||| has_dangerous(s)
    ||| any_prefix_hit(unicode_lowercase(s), file_schemes())
    ||| any_prefix_hit(unicode_lowercase(s), http_schemes())
    ||| any_prefix_hit(unicode_lowercase(s), dangerous_schemes())
    ||| any_prefix_hit(unicode_lowercase(s), system_paths())
    ||| s.len() > 0 && s[0] == '/'
    ||| any_hit(s, doubled_separators())
    ||| any_hit(s, unusual_separators())
    ||| any_hit(s, traversal_patterns())
    ||| any_hit(s, nested_traversal_patterns())
    ||| any_hit(s, hex_escape_tokens())
    ||| occurs(unicode_uppercase(s), "\\DEVICE\\"@)
    ||| any_hit(s, suspicious_tokens())
}

/// Monotonic rejection: a relative path that holds a forbidden token,
/// character or prefix has a finding, whatever stands around it. Tokens and
/// prefixes that are matched in any case are sought in the lower-case or
/// upper-case form of the path.
pub proof fn law_forbidden_rejected(s: Seq<char>)
    requires
        holds_forbidden(s),
    ensures
        path_finding(s) is Some,
{
    let lower = unicode_lowercase(s);
    if s.len() == 0 {
    } else if any_hit(s, url_encoded_tokens()) {
        lemma_any_hit_has_first(s, url_encoded_tokens());
        assert(url_encoding_finding(s) is Some);
    } else if occurs(s, "%25"@) {
        assert(url_encoding_finding(s) is Some);
    } else if any_hit(lower, overlong_utf8_patterns()) {
        lemma_any_hit_has_first(lower, overlong_utf8_patterns());
        assert(overlong_utf8_finding(s) is Some);
    } else if occurs(s, "%u"@) || occurs(s, "&#"@) {
        assert(unicode_encoding_finding(s) is Some);
    } else if has_dangerous(s) {
        assert(dangerous_unicode_finding(s) is Some);
    } else if any_prefix_hit(lower, file_schemes()) || any_prefix_hit(lower, http_schemes())
        || any_prefix_hit(lower, dangerous_schemes()) {
        assert(scheme_finding(s) is Some);
    } else if any_prefix_hit(lower, system_paths()) {
        assert(special_path_finding(s) is Some);
    } else if s.len() > 0 && s[0] == '/' {
        assert(absolute_finding(s) is Some);
    } else if any_hit(s, doubled_separators()) {
        let k = choose|k: int|
            0 <= k < doubled_separators().len() && occurs(s, #[trigger] doubled_separators()[k]);
        let pair = doubled_separators()[k];
        let i = choose|i: int| occurs_at(s, pair, i);
        if i == 0 {
            assert(prefix_finding(s, doubled_separators(), Reason::UncPath) is Some);
            assert(windows_finding(s) is Some);
        } else {
            assert(s.skip(1).subrange(i - 1, i - 1 + pair.len()) =~= s.subrange(i, i + pair.len()));
            assert(occurs_at(s.skip(1), pair, i - 1));
            lemma_any_hit_has_first(s.skip(1), doubled_separators());
            assert(inner_doubled_finding(s) is Some);
            assert(separator_finding(s) is Some);
        }
    } else if any_hit(s, unusual_separators()) {
        lemma_any_hit_has_first(s, unusual_separators());
        assert(table_finding(s, unusual_separators(), Reason::UnusualSeparator) is Some);
        assert(separator_finding(s) is Some);
    } else if any_hit(s, traversal_patterns()) {
        lemma_any_hit_has_first(s, traversal_patterns());
        assert(traversal_finding(s) is Some);
    } else if any_hit(s, nested_traversal_patterns()) {
        lemma_any_hit_has_first(s, nested_traversal_patterns());
        assert(table_finding(s, nested_traversal_patterns(), Reason::NestedTraversal) is Some);
        assert(traversal_finding(s) is Some);
    } else if any_hit(s, hex_escape_tokens()) {
        lemma_any_hit_has_first(s, hex_escape_tokens());
        assert(table_finding(s, hex_escape_tokens(), Reason::HexEscape) is Some);
        assert(traversal_finding(s) is Some);
    } else if occurs(unicode_uppercase(s), "\\DEVICE\\"@) {
        assert(token_finding(unicode_uppercase(s), "\\DEVICE\\"@, Reason::DevicePath) is Some);
        assert(windows_finding(s) is Some);
    } else {
        lemma_any_hit_has_first(s, suspicious_tokens());
        assert(suspicious_finding(s) is Some);
    }
}

/// The text holds something that the tables forbid in a file name.
pub open spec fn holds_forbidden_in_name(s: Seq<char>) -> bool {
    ||| any_hit(s, url_encoded_tokens())
    ||| occurs(s, "%25"@)
    ||| any_hit(unicode_lowercase(s), overlong_utf8_patterns())
    ||| occurs(s, "%u"@)
    ||| occurs(s, "&#"@)
    ||| has_dangerous(s)
    ||| occurs(unicode_uppercase(s), "\\DEVICE\\"@)
    ||| occurs(s, "/"@)
    ||| occurs(s, "\\"@)
    ||| occurs(s, ":"@)
    ||| has_control(s)
}

/// Monotonic rejection for file names: a file name that holds a forbidden
/// token or character has a finding, whatever stands around it.
pub proof fn law_forbidden_name_rejected(s: Seq<char>)
    requires
        holds_forbidden_in_name(s),
    ensures
        filename_finding(s) is Some,
{
    let lower = unicode_lowercase(s);
    if s.len() == 0 || encode_utf8(s).len() > MAX_FILENAME_LENGTH {
    } else if any_hit(s, url_encoded_tokens()) {
        lemma_any_hit_has_first(s, url_encoded_tokens());
        assert(url_encoding_finding(s) is Some);
    } else if occurs(s, "%25"@) {
        assert(url_encoding_finding(s) is Some);
    } else if any_hit(lower, overlong_utf8_patterns()) {
        lemma_any_hit_has_first(lower, overlong_utf8_patterns());
        assert(overlong_utf8_finding(s) is Some);
    } else if occurs(s, "%u"@) || occurs(s, "&#"@) {
        assert(unicode_encoding_finding(s) is Some);
    } else if has_dangerous(s) {
        assert(dangerous_unicode_finding(s) is Some);
    } else if occurs(unicode_uppercase(s), "\\DEVICE\\"@) {
        assert(token_finding(unicode_uppercase(s), "\\DEVICE\\"@, Reason::DevicePath) is Some);
        assert(windows_finding(s) is Some);
    } else if occurs(s, "/"@) || occurs(s, "\\"@) {
        assert(name_shape_finding(s) is Some);
    } else if has_control(s) {
        assert(control_finding(s) is Some);
        assert(name_shape_finding(s) is Some);
    } else {
        assert(token_finding(s, ":"@, Reason::ColonInName) is Some);
        assert(name_shape_finding(s) is Some);
    }
}

/// The text breaks a rule that file names and project names share: it is
/// empty, it is longer in bytes than the longer of the two limits, or it
/// holds a control character, of which NUL is one.
pub open spec fn breaks_shared_rule(s: Seq<char>) -> bool {
    ||| s.len() == 0
    ||| encode_utf8(s).len() > MAX_FILENAME_LENGTH
    ||| has_control(s)
    ||| s.contains('\0')
}

/// Name-rule symmetry: a text that breaks a shared rule is rejected as a file
/// name and as a project name.
pub proof fn law_name_rule_symmetry(s: Seq<char>)
    requires
        breaks_shared_rule(s),
    ensures
        filename_finding(s) is Some,
        project_name_finding(s) is Some,
{
    if s.len() == 0 || encode_utf8(s).len() > MAX_FILENAME_LENGTH {
    } else {
        if s.contains('\0') {
            let i = choose|i: int| 0 <= i < s.len() && s[i] == '\0';
            assert(is_control(s[i]));
        }
        let i = choose|i: int| 0 <= i < s.len() && is_control(#[trigger] s[i]);
        assert(!is_name_char(s[i]));
        assert(has_invalid(s));
        assert(control_finding(s) is Some);
        assert(name_shape_finding(s) is Some);
    }
}

/// A run that has not ended has used up part of the budget of its start.
proof fn lemma_run_within_budget(start: State, answers: Seq<Answer>)
    requires
        reachable(start),
    ensures
        run(start, answers) matches Outcome::Pending(s) ==> reachable(s) && budget(s)
            + answers.len() <= budget(start),
    decreases answers.len(),
{
    if answers.len() > 0 {
        lemma_run_within_budget(start, answers.drop_last());
        if let Outcome::Pending(s) = run(start, answers.drop_last()) {
            lemma_step_keeps_reachable(s, answers.last());
        }
    }
}

/// Termination: whatever the file system answers, a resolution has ended
/// after at most two answers for each link that the limit allows and eight
/// more. No sequence of answers keeps the engine waiting beyond that.
pub proof fn law_resolution_ends(path: Seq<char>, base_dir: Seq<char>, answers: Seq<Answer>)
    requires
        answers.len() >= 2 * MAX_SYMLINK_CHAIN_LENGTH + 8,
    ensures
        !(run(initial(path, base_dir), answers) is Pending),
{
    lemma_run_within_budget(initial(path, base_dir), answers);
}

/// The path that a walk has reached after following `k` links from `from`,
/// where `links` gives each link its target.
pub open spec fn hop(links: Map<Seq<char>, Seq<char>>, from: Seq<char>, k: nat) -> Seq<char>
    decreases k,
{
    if k == 0 {
        from
    } else {
        let link = hop(links, from, (k - 1) as nat);
        link_target(link, links[link])
    }
}

/// The answers of a file system to a walk over `n` links from `from`: for each
/// link, that it is a link, and its target.
pub open spec fn walk_answers(links: Map<Seq<char>, Seq<char>>, from: Seq<char>, n: nat) -> Seq<
    Answer,
>
    decreases n,
{
    if n == 0 {
        Seq::empty()
    } else {
        walk_answers(links, from, (n - 1) as nat).push(Answer::Flag(true)).push(
            Answer::Path(Some(links[hop(links, from, (n - 1) as nat)])),
        )
    }
}

/// The links from `from` close a cycle after `n` hops: the first `n` paths of
/// the walk differ from each other, and the next one is one of them.
pub open spec fn closes_after(links: Map<Seq<char>, Seq<char>>, from: Seq<char>, n: nat) -> bool {
    &&& forall|i: nat, j: nat| i < j < n ==> hop(links, from, i) != hop(links, from, j)
    &&& exists|j: nat| j < n && hop(links, from, n) == hop(links, from, j)
}

/// The state of a walk that has followed `k` links.
pub open spec fn walking(
    path: Seq<char>,
    base_dir: Seq<char>,
    canonical: Seq<char>,
    links: Map<Seq<char>, Seq<char>>,
    k: nat,
) -> State {
    State {
        phase: Phase::AwaitLinkStatus,
        canonical_base: canonical,
        current: hop(links, join(base_dir, path), k),
        visited: Seq::new(k, |i: int| hop(links, join(base_dir, path), i as nat)),
        ..initial(path, base_dir)
    }
}

/// The answers to a resolution whose walk follows `n` links: the canonical
/// base directory, then the answers of the walk.
pub open spec fn answers_to_walk(
    canonical: Seq<char>,
    links: Map<Seq<char>, Seq<char>>,
    from: Seq<char>,
    n: nat,
) -> Seq<Answer> {
    seq![Answer::Path(Some(canonical))] + walk_answers(links, from, n)
}

/// After the answers to a walk over `k` links that differ from each other, the
/// engine asks whether the next path is a link, with those `k` links behind
/// it.
proof fn lemma_walk(
    path: Seq<char>,
    base_dir: Seq<char>,
    canonical: Seq<char>,
    links: Map<Seq<char>, Seq<char>>,
    n: nat,
    k: nat,
)
    requires
        k <= n <= MAX_SYMLINK_CHAIN_LENGTH,
        forall|i: nat, j: nat|
            i < j < n ==> hop(links, join(base_dir, path), i) != hop(
                links,
                join(base_dir, path),
                j,
            ),
    ensures
        run(initial(path, base_dir), answers_to_walk(canonical, links, join(base_dir, path), k))
            == Outcome::Pending(walking(path, base_dir, canonical, links, k)),
    decreases k,
{
    let from = join(base_dir, path);
    let start = initial(path, base_dir);
    let all = answers_to_walk(canonical, links, from, k);
    if k == 0 {
        assert(all =~= seq![Answer::Path(Some(canonical))]);
        assert(all.drop_last() =~= Seq::<Answer>::empty());
        assert(run(start, all.drop_last()) == Outcome::Pending(start));
        assert(walking(path, base_dir, canonical, links, 0).visited =~= start.visited);
    } else {
        let before = (k - 1) as nat;
        lemma_walk(path, base_dir, canonical, links, n, before);
        let earlier = answers_to_walk(canonical, links, from, before);
        let asked = earlier.push(Answer::Flag(true));
        assert(all =~= asked.push(Answer::Path(Some(links[hop(links, from, before)]))));
        assert(all.drop_last() =~= asked);
        assert(asked.drop_last() =~= earlier);
        let s = walking(path, base_dir, canonical, links, before);
        assert(run(start, earlier) == Outcome::Pending(s));
        assert(!s.visited.contains(s.current)) by {
            if s.visited.contains(s.current) {
                let i = choose|i: int| 0 <= i < s.visited.len() && s.visited[i] == s.current;
                assert(hop(links, from, i as nat) != hop(links, from, before));
            }
        }
        let t = State {
            phase: Phase::AwaitLinkTarget,
            visited: s.visited.push(s.current),
            ..s
        };
        assert(run(start, asked) == Outcome::Pending(t));
        assert(t.visited =~= walking(path, base_dir, canonical, links, k).visited);
        assert(t.visited.len() <= MAX_SYMLINK_CHAIN_LENGTH);
    }
}

/// Symbolic link cycles end: where the links from the joined path close a
/// cycle after `n` hops, with `n` within the limit, the resolution fails as a
/// recursive chain on answer `2 * n + 2`: one answer for the base directory,
/// two for each link, and one for the path that repeats.
pub proof fn law_symlink_cycle_fails(
    path: Seq<char>,
    base_dir: Seq<char>,
    canonical: Seq<char>,
    links: Map<Seq<char>, Seq<char>>,
    n: nat,
)
    requires
        n <= MAX_SYMLINK_CHAIN_LENGTH,
        closes_after(links, join(base_dir, path), n),
    ensures
        answers_to_walk(canonical, links, join(base_dir, path), n).len() == 2 * n + 1,
        run(
            initial(path, base_dir),
            answers_to_walk(canonical, links, join(base_dir, path), n).push(Answer::Flag(true)),
        ) == naming(Reason::SymlinkLoop, hop(links, join(base_dir, path), n)),
{
    let from = join(base_dir, path);
    let walk = answers_to_walk(canonical, links, from, n);
    lemma_walk(path, base_dir, canonical, links, n, n);
    lemma_walk_length(links, from, n);
    let s = walking(path, base_dir, canonical, links, n);
    let j = choose|j: nat| j < n && hop(links, from, n) == hop(links, from, j);
    assert(s.visited[j as int] == s.current);
    assert(walk.push(Answer::Flag(true)).drop_last() =~= walk);
}

/// A walk over `n` links takes two answers for each link.
proof fn lemma_walk_length(links: Map<Seq<char>, Seq<char>>, from: Seq<char>, n: nat)
    ensures
        walk_answers(links, from, n).len() == 2 * n,
    decreases n,
{
    if n > 0 {
        lemma_walk_length(links, from, (n - 1) as nat);
    }
}

/// The answers of a file system on which a walk never leaves the links: the
/// canonical base directory, then in turn that the path is a link, and the
/// target of the link.
pub open spec fn only_links(answers: Seq<Answer>) -> bool {
    &&& answers.len() > 0
    &&& answers[0] matches Answer::Path(Some(_))
    &&& forall|i: int|
        1 <= i < answers.len() ==> if i % 2 == 1 {
            #[trigger] answers[i] == Answer::Flag(true)
        } else {
            answers[i] matches Answer::Path(Some(_))
        }
}

/// A failure of the walk: a link that repeats, or a chain beyond the limit.
pub open spec fn is_symlink_attack(o: Outcome) -> bool {
    o matches Outcome::Rejected(f) && (f.reason == Reason::SymlinkLoop || f.reason
        == Reason::SymlinkChainTooLong)
}

/// On answers that never leave the links, the engine is either still in the
/// walk, with one link behind it for every two answers, or has failed as a
/// symbolic link attack.
proof fn lemma_walk_of_links(path: Seq<char>, base_dir: Seq<char>, answers: Seq<Answer>)
    requires
        only_links(answers),
    ensures
        match run(initial(path, base_dir), answers) {
            Outcome::Pending(s) => {
                &&& reachable(s)
                &&& s.visited.len() == answers.len() / 2
                &&& s.phase == if answers.len() % 2 == 1 {
                    Phase::AwaitLinkStatus
                } else {
                    Phase::AwaitLinkTarget
                }
            },
            ended => is_symlink_attack(ended),
        },
    decreases answers.len(),
{
    let start = initial(path, base_dir);
    let before = answers.drop_last();
    if before.len() == 0 {
        assert(run(start, before) == Outcome::Pending(start));
        assert(answers.last() == answers[0]);
    } else {
        assert(before[0] == answers[0]);
        assert forall|i: int| 1 <= i < before.len() implies if i % 2 == 1 {
            #[trigger] before[i] == Answer::Flag(true)
        } else {
            before[i] matches Answer::Path(Some(_))
        } by {
            assert(before[i] == answers[i]);
        }
        lemma_walk_of_links(path, base_dir, before);
        let last = answers.len() - 1;
        assert(answers.last() == answers[last]);
        if let Outcome::Pending(s) = run(start, before) {
            lemma_step_keeps_reachable(s, answers.last());
        }
    }
}

/// Walks that never leave the links end: whatever the targets are, and
/// however long the chain is, a resolution that is told of every path that it
/// is a link fails as a symbolic link attack, on the answer for the link
/// beyond the limit at the latest.
pub proof fn law_walk_of_links_fails(path: Seq<char>, base_dir: Seq<char>, answers: Seq<Answer>)
    requires
        only_links(answers),
        answers.len() >= 2 * MAX_SYMLINK_CHAIN_LENGTH + 3,
    ensures
        is_symlink_attack(run(initial(path, base_dir), answers)),
{
    lemma_walk_of_links(path, base_dir, answers);
}

/// The answers to a walk are answers that never leave the links.
proof fn lemma_walk_answers_are_links(
    canonical: Seq<char>,
    links: Map<Seq<char>, Seq<char>>,
    from: Seq<char>,
    n: nat,
)
    ensures
        only_links(answers_to_walk(canonical, links, from, n)),
        answers_to_walk(canonical, links, from, n).len() == 2 * n + 1,
    decreases n,
{
    let all = answers_to_walk(canonical, links, from, n);
    lemma_walk_length(links, from, n);
    if n > 0 {
        let before = (n - 1) as nat;
        lemma_walk_answers_are_links(canonical, links, from, before);
        let earlier = answers_to_walk(canonical, links, from, before);
        assert(all =~= earlier.push(Answer::Flag(true)).push(
            Answer::Path(Some(links[hop(links, from, before)])),
        ));
        assert forall|i: int| 1 <= i < all.len() implies if i % 2 == 1 {
            #[trigger] all[i] == Answer::Flag(true)
        } else {
            all[i] matches Answer::Path(Some(_))
        } by {
            if i < earlier.len() {
                assert(all[i] == earlier[i]);
            }
        }
    }
}

/// Symbolic link chains of any length end: where the links from the joined
/// path close a cycle after `n` hops, the resolution fails as a symbolic link
/// attack. Within the limit the repeat is found; beyond it the chain is cut.
pub proof fn law_symlink_chain_fails(
    path: Seq<char>,
    base_dir: Seq<char>,
    canonical: Seq<char>,
    links: Map<Seq<char>, Seq<char>>,
    n: nat,
)
    requires
        closes_after(links, join(base_dir, path), n),
    ensures
        is_symlink_attack(
            run(
                initial(path, base_dir),
                answers_to_walk(canonical, links, join(base_dir, path), n).push(
                    Answer::Flag(true),
                ),
            ),
        ),
{
    let from = join(base_dir, path);
    if n <= MAX_SYMLINK_CHAIN_LENGTH {
        law_symlink_cycle_fails(path, base_dir, canonical, links, n);
    } else {
        let walk = answers_to_walk(canonical, links, from, n);
        let all = walk.push(Answer::Flag(true));
        lemma_walk_answers_are_links(canonical, links, from, n);
        assert forall|i: int| 1 <= i < all.len() implies if i % 2 == 1 {
            #[trigger] all[i] == Answer::Flag(true)
        } else {
            all[i] matches Answer::Path(Some(_))
        } by {
            if i < walk.len() {
                assert(all[i] == walk[i]);
            }
        }
        assert(all[0] == walk[0]);
        law_walk_of_links_fails(path, base_dir, all);
    }
}

/// `s` holds a doubled separator that begins behind its first character.
pub open spec fn has_inner_doubled(s: Seq<char>) -> bool {
    exists|i: int, k: int|
        #![trigger occurs_at(s, doubled_separators()[k], i)]
        0 < i && 0 <= k < doubled_separators().len() && occurs_at(s, doubled_separators()[k], i)
}

/// What the separator detector rejects, and nothing else: a doubled separator
/// that begins behind the first character, a slash together with a
/// backslash, or an unusual separator. Only a pair at the very start of the
/// text is left to the platform check.
pub proof fn law_separator_misuse(s: Seq<char>)
    ensures
        separator_finding(s) is Some <==> {
            ||| has_inner_doubled(s)
            ||| occurs(s, "/"@) && occurs(s, "\\"@)
            ||| any_hit(s, unusual_separators())
        },
{
    let table = doubled_separators();
    if has_inner_doubled(s) {
        let (i, k) = choose|i: int, k: int|
            #![trigger occurs_at(s, doubled_separators()[k], i)]
            0 < i && 0 <= k < doubled_separators().len() && occurs_at(
                s,
                doubled_separators()[k],
                i,
            );
        let pair = table[k];
        assert(s.skip(1).subrange(i - 1, i - 1 + pair.len()) =~= s.subrange(i, i + pair.len()));
        assert(occurs_at(s.skip(1), pair, i - 1));
        lemma_any_hit_has_first(s.skip(1), table);
        assert(inner_doubled_finding(s) is Some);
    }
    if inner_doubled_finding(s) is Some {
        let rest = s.skip(1);
        lemma_any_hit_has_first(rest, table);
        let k = first_hit(rest, table);
        let pair = table[k];
        let i = choose|i: int| occurs_at(rest, pair, i);
        assert(s.subrange(i + 1, i + 1 + pair.len()) =~= rest.subrange(i, i + pair.len()));
        assert(occurs_at(s, table[k], i + 1));
    }
    if any_hit(s, unusual_separators()) {
        lemma_any_hit_has_first(s, unusual_separators());
    }
}

} // verus!
