//! From a search to a finding: what a table, a prefix table or a single token
//! reports of a text, and the checks that compute it.

use vstd::prelude::*;
use crate::error::{Finding, Reason, ValidationError};
use crate::text::{
    any_hit, any_prefix_hit, chars_of, find, first_hit, first_occurrence, first_prefix_hit,
    lemma_first_hit, lemma_first_occurrence, lemma_first_prefix_hit, occurs, scan_prefix_table,
    scan_table, table_view,
};

verus! {

/// The first of two findings.
pub open spec fn or_else(a: Option<Finding>, b: Option<Finding>) -> Option<Finding> {
    if a is Some {
        a
    } else {
        b
    }
}

/// The finding for a token that occurs in `s`: the token at its first
/// occurrence.
pub open spec fn token_finding(s: Seq<char>, token: Seq<char>, reason: Reason) -> Option<Finding> {
    if occurs(s, token) {
        Some(Finding { reason, pattern: token, position: first_occurrence(s, token) })
    } else {
        None
    }
}

/// The finding for a table of tokens: the first token of the table that
/// occurs in `s`, at its first occurrence.
pub open spec fn table_finding(s: Seq<char>, table: Seq<Seq<char>>, reason: Reason) -> Option<
    Finding,
> {
    if any_hit(s, table) {
        token_finding(s, table[first_hit(s, table)], reason)
    } else {
        None
    }
}

/// The finding for a table of prefixes: the first prefix of the table that
/// `s` begins with.
pub open spec fn prefix_finding(s: Seq<char>, table: Seq<Seq<char>>, reason: Reason) -> Option<
    Finding,
> {
    if any_prefix_hit(s, table) {
        Some(Finding { reason, pattern: table[first_prefix_hit(s, table)], position: 0 })
    } else {
        None
    }
}

/// A check reports a finding: it fails exactly where there is one, with that
/// finding and the input.
pub open spec fn reports(
    r: Result<(), ValidationError>,
    input: Seq<char>,
    finding: Option<Finding>,
) -> bool {
    match r {
        Ok(_) => finding is None,
        Err(e) => finding == Some(e.finding()) && e.input@ == input,
    }
}

/// A validator hands its input back where there is no finding, and fails with
/// the finding and the input where there is one.
pub open spec fn validates(
    r: Result<String, ValidationError>,
    input: Seq<char>,
    finding: Option<Finding>,
) -> bool {
    match r {
        Ok(name) => finding is None && name@ == input,
        Err(e) => finding == Some(e.finding()) && e.input@ == input,
    }
}

/// Looks for one token in `hay`.
pub fn check_token(input: &str, hay: &Vec<char>, token: &'static str, reason: Reason) -> (r:
    Result<(), ValidationError>)
    ensures
        reports(r, input@, token_finding(hay@, token@, reason)),
{
    let needle = chars_of(token);
    match find(hay, &needle) {
        Some(at) => {
            proof {
                lemma_first_occurrence(hay@, token@, at as int);
            }
            Err(ValidationError::new(reason, token, at, input))
        },
        None => Ok(()),
    }
}

/// Looks for the tokens of a table in `hay`, in the table's order.
pub fn check_table(input: &str, hay: &Vec<char>, table: &Vec<&'static str>, reason: Reason) -> (r:
    Result<(), ValidationError>)
    ensures
        reports(r, input@, table_finding(hay@, table_view(table@), reason)),
{
    match scan_table(hay, table) {
        Some((k, at)) => {
            proof {
                lemma_first_hit(hay@, table_view(table@), k as int);
                lemma_first_occurrence(hay@, table@[k as int]@, at as int);
            }
            Err(ValidationError::new(reason, table[k], at, input))
        },
        None => Ok(()),
    }
}

/// Looks for the prefixes of a table at the start of `hay`, in the table's
/// order.
pub fn check_prefix_table(
    input: &str,
    hay: &Vec<char>,
    table: &Vec<&'static str>,
    reason: Reason,
) -> (r: Result<(), ValidationError>)
    ensures
        reports(r, input@, prefix_finding(hay@, table_view(table@), reason)),
{
    match scan_prefix_table(hay, table) {
        Some(k) => {
            proof {
                lemma_first_prefix_hit(hay@, table_view(table@), k as int);
            }
            Err(ValidationError::new(reason, table[k], 0, input))
        },
        None => Ok(()),
    }
}

} // verus!
