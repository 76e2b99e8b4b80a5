//! How the Services and Processes cards report what the action boundary decided, and which
//! processes a search lets through.

use crate::text::{append_decimal, contains_text, decimal, decimal_text, lowercase, lowercased, occurs_in, same_text};
use vstd::prelude::*;

verus! {

/// Whether a verdict lets the action go ahead.
pub open spec fn is_granted(verdict: Seq<char>) -> bool {
    verdict == "granted-on-confirmation"@ || verdict == "granted"@
}

/// The sentence reporting what the boundary decided about an action on `subject`.
///
/// A granted action reports what the attempt said, or that it is authorized and waiting when no
/// attempt was made yet. Anything else is a refusal, reported in the boundary's own words when it
/// gave any.
pub open spec fn outcome_text(
    subject: Seq<char>,
    verdict: Seq<char>,
    attempt_report: Option<Seq<char>>,
    reason: Option<Seq<char>>,
) -> Seq<char> {
    if is_granted(verdict) {
        match attempt_report {
            Some(report) => subject + ": "@ + report + "."@,
            None => subject + ": authorized, waiting to be carried out."@,
        }
    } else {
        match reason {
            Some(r) => r,
            None => subject + ": refused, and no reason was given."@,
        }
    }
}

/// An optional text, as the contracts see it.
pub open spec fn text_view(t: Option<&str>) -> Option<Seq<char>> {
    match t {
        Some(s) => Some(s@),
        None => None,
    }
}

/// The sentence reporting what the boundary decided about an action on `subject`.
pub fn action_outcome(
    subject: &str,
    verdict: &str,
    attempt_report: Option<&str>,
    reason: Option<&str>,
) -> (r: String)
    ensures
        r@ == outcome_text(subject@, verdict@, text_view(attempt_report), text_view(reason)),
{
    if same_text(verdict, "granted-on-confirmation") || same_text(verdict, "granted") {
        let mut s = String::from_str(subject);
        match attempt_report {
            Some(report) => {
                s.append(": ");
                s.append(report);
                s.append(".");
            },
            None => {
                s.append(": authorized, waiting to be carried out.");
            },
        }
        s
    } else {
        match reason {
            Some(r) => String::from_str(r),
            None => {
                let mut s = String::from_str(subject);
                s.append(": refused, and no reason was given.");
                s
            },
        }
    }
}

/// How the Processes card names a process in its reports.
pub fn process_subject(pid: u32) -> (r: String)
    ensures
        r@ == "Process "@ + decimal_text(pid as nat),
{
    let mut s = String::from_str("Process ");
    append_decimal(&mut s, pid as u64);
    s
}

/// Whether a process passes the search: an empty search passes everything, otherwise the
/// lowercased search must occur in the lowercased name, the lowercased user, or the process id.
pub open spec fn process_shown(name: Seq<char>, user: Seq<char>, pid: u32, search: Seq<char>) -> bool {
    let q = lowercase(search);
    q.len() == 0 || occurs_in(q, lowercase(name)) || occurs_in(q, lowercase(user)) || occurs_in(
        q,
        decimal_text(pid as nat),
    )
}

/// Whether a process passes the search.
pub fn process_matches(name: &str, user: &str, pid: u32, search: &str) -> (r: bool)
    ensures
        r == process_shown(name@, user@, pid, search@),
{
    let q = lowercased(search);
    if q.as_str().is_empty() {
        return true;
    }
    contains_text(lowercased(name).as_str(), q.as_str()) || contains_text(
        lowercased(user).as_str(),
        q.as_str(),
    ) || contains_text(decimal(pid as u64).as_str(), q.as_str())
}

/// A refusal is a record too: when the boundary gave a reason, the report is that reason, word
/// for word, and a granted action never reads as a refusal.
pub proof fn lemma_refusals_keep_the_boundary_words(
    subject: Seq<char>,
    verdict: Seq<char>,
    attempt_report: Option<Seq<char>>,
    reason: Seq<char>,
)
    requires
        !is_granted(verdict),
    ensures
        outcome_text(subject, verdict, attempt_report, Some(reason)) == reason,
{
}

} // verus!
