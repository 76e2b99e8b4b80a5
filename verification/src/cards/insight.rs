//! What the System Insight card says about where the host stands.

use crate::text::{append_decimal, decimal_text, same_text};
use vstd::prelude::*;

verus! {

/// What the headline of the insight card reads from the host's projection.
#[derive(Clone, Copy, Debug, Eq, PartialEq, Structural)]
pub struct InsightSummary {
    /// Whether the telemetry organ could be read at all.
    pub answered: bool,
    /// Whether it has watched long enough to have a notion of ordinary.
    pub watched_enough: bool,
    /// How many findings need attention.
    pub findings: u64,
}

/// One line saying where this host stands.
///
/// Four states, deliberately distinguished: the surface could not be asked; the organ could not be
/// read; it has not watched long enough; and it has an answer.
pub open spec fn headline_text(insight: Option<InsightSummary>) -> Seq<char> {
    match insight {
        None => "Not read"@,
        Some(state) => if !state.answered {
            "Telemetry did not answer"@
        } else if !state.watched_enough {
            "Not watching long enough yet"@
        } else if state.findings == 0 {
            "Nothing needs attention"@
        } else if state.findings == 1 {
            "1 thing needs attention"@
        } else {
            decimal_text(state.findings as nat) + " things need attention"@
        },
    }
}

/// One line saying where this host stands.
pub fn headline(insight: Option<InsightSummary>) -> (r: String)
    ensures
        r@ == headline_text(insight),
{
    match insight {
        None => String::from_str("Not read"),
        Some(state) => if !state.answered {
            String::from_str("Telemetry did not answer")
        } else if !state.watched_enough {
            String::from_str("Not watching long enough yet")
        } else if state.findings == 0 {
            String::from_str("Nothing needs attention")
        } else if state.findings == 1 {
            String::from_str("1 thing needs attention")
        } else {
            let mut s = String::new();
            append_decimal(&mut s, state.findings);
            s.append(" things need attention");
            s
        },
    }
}

/// How a gate verdict reads to the person who would have to answer it.
pub open spec fn verdict_label(verdict: Seq<char>) -> Seq<char> {
    if verdict == "granted"@ {
        "pre-authorized"@
    } else if verdict == "requires-confirmation"@ {
        "would ask you"@
    } else if verdict == "denied"@ {
        "refused"@
    } else {
        "verdict not recognised"@
    }
}

/// How a gate verdict reads to the person who would have to answer it.
pub fn verdict_text(verdict: &str) -> (r: &'static str)
    ensures
        r@ == verdict_label(verdict@),
{
    if same_text(verdict, "granted") {
        "pre-authorized"
    } else if same_text(verdict, "requires-confirmation") {
        "would ask you"
    } else if same_text(verdict, "denied") {
        "refused"
    } else {
        "verdict not recognised"
    }
}

/// None of the three ways of not knowing reads as an answer, nor as one another: the surface that
/// was not read, the organ that did not answer, and the watcher that has not watched long enough
/// each have a line of their own, and every answer is a line about attention.
pub proof fn lemma_not_knowing_never_reads_as_an_answer(a: InsightSummary, b: InsightSummary)
    requires
        !a.answered,
        b.answered && !b.watched_enough,
    ensures
        forall|c: InsightSummary|
            c.answered && c.watched_enough ==> {
                let answer = #[trigger] headline_text(Some(c));
                &&& answer != headline_text(None)
                &&& answer != headline_text(Some(a))
                &&& answer != headline_text(Some(b))
            },
        headline_text(None) != headline_text(Some(a)),
        headline_text(None) != headline_text(Some(b)),
        headline_text(Some(a)) != headline_text(Some(b)),
{
    reveal_strlit("Not read");
    reveal_strlit("Telemetry did not answer");
    reveal_strlit("Not watching long enough yet");
    reveal_strlit("Nothing needs attention");
    reveal_strlit("1 thing needs attention");
    reveal_strlit(" things need attention");
    assert("Not read"@.len() == 8 && "Not read"@[7] == 'd');
    assert("Telemetry did not answer"@.len() == 24 && "Telemetry did not answer"@[23] == 'r');
    assert("Not watching long enough yet"@.len() == 28 && "Not watching long enough yet"@[27]
        == 't');
    assert("Nothing needs attention"@.len() == 23 && "Nothing needs attention"@[22] == 'n');
    assert("1 thing needs attention"@.len() == 23 && "1 thing needs attention"@[22] == 'n');
    assert(" things need attention"@.len() == 22 && " things need attention"@[21] == 'n');
    assert forall|c: InsightSummary| c.answered && c.watched_enough implies {
        let answer = #[trigger] headline_text(Some(c));
        &&& answer != headline_text(None)
        &&& answer != headline_text(Some(a))
        &&& answer != headline_text(Some(b))
    } by {
        let answer = headline_text(Some(c));
        if c.findings > 1 {
            let d = decimal_text(c.findings as nat);
            assert(answer[answer.len() - 1] == " things need attention"@[21]);
        }
        assert(answer[answer.len() - 1] == 'n');
    }
}

/// What is known of the remedy action taken for a finding.
#[derive(Debug)]
pub struct RemedyRecord {
    /// The finding the action was taken for, if it names one.
    pub cause_id: Option<u128>,
    /// Whether execution started or an attempt was recorded.
    pub started: bool,
    /// How the condition stood afterwards, when an outcome was recorded.
    pub relief: Option<String>,
}

/// Where the remedy for one finding stands.
#[derive(Clone, Copy, Debug, Eq, PartialEq, Structural)]
pub struct RemedyState {
    /// The remedy was carried out, or is being.
    pub executed: bool,
    /// The condition was relieved.
    pub relieved: bool,
    /// The remedy ran, but the condition is still present.
    pub still_present: bool,
    /// Whether the condition was relieved could not be established.
    pub unestablished: bool,
}

/// Nothing known of any remedy.
pub open spec fn no_remedy() -> RemedyState {
    RemedyState { executed: false, relieved: false, still_present: false, unestablished: false }
}

/// What one record says of its remedy.
pub open spec fn remedy_of(started: bool, relief: Option<Seq<char>>) -> RemedyState {
    RemedyState {
        executed: started,
        relieved: relief == Some("relieved"@),
        still_present: relief == Some("still-present"@),
        unestablished: relief == Some("not-established"@),
    }
}

/// What the first record from position `i` on that names `finding` says of its remedy.
pub open spec fn remedy_from(records: Seq<RemedyRecord>, finding: u128, i: int) -> RemedyState
    decreases records.len() - i,
{
    if i < 0 || i >= records.len() {
        no_remedy()
    } else if records[i].cause_id == Some(finding) {
        remedy_of(
            records[i].started,
            match records[i].relief {
                Some(r) => Some(r@),
                None => None,
            },
        )
    } else {
        remedy_from(records, finding, i + 1)
    }
}

/// Where the remedy for a finding stands: read from the first action record caused by that
/// finding, and nothing known when the finding has no identity or no record names it.
pub open spec fn remedy_state_for(finding: Option<u128>, records: Seq<RemedyRecord>) -> RemedyState {
    match finding {
        Some(id) => remedy_from(records, id, 0),
        None => no_remedy(),
    }
}

/// Where the remedy for a finding stands.
pub fn remedy_state(finding: Option<u128>, records: &Vec<RemedyRecord>) -> (r: RemedyState)
    ensures
        r == remedy_state_for(finding, records@),
{
    let id = match finding {
        Some(id) => id,
        None => {
            return RemedyState { executed: false, relieved: false, still_present: false, unestablished: false };
        },
    };
    let mut i: usize = 0;
    while i < records.len()
        invariant
            finding == Some(id),
            i <= records.len(),
            remedy_from(records@, id, i as int) == remedy_from(records@, id, 0),
        decreases records.len() - i,
    {
        let record = &records[i];
        if record.cause_id == Some(id) {
            let (relieved, still_present, unestablished) = match &record.relief {
                Some(relief) => (
                    same_text(relief.as_str(), "relieved"),
                    same_text(relief.as_str(), "still-present"),
                    same_text(relief.as_str(), "not-established"),
                ),
                None => (false, false, false),
            };
            return RemedyState { executed: record.started, relieved, still_present, unestablished };
        }
        i = i + 1;
    }
    RemedyState { executed: false, relieved: false, still_present: false, unestablished: false }
}

/// How an offered remedy's reversibility reads.
pub fn undo_text(reversible: bool) -> (r: &'static str)
    ensures
        r@ == (if reversible { "reversible"@ } else { "cannot be undone"@ }),
{
    if reversible {
        "reversible"
    } else {
        "cannot be undone"
    }
}

/// The class a timeline stage is drawn with: completed wins over active, anything else is pending.
pub fn stage_class(completed: bool, active: bool) -> (r: &'static str)
    ensures
        r@ == (if completed {
            "stage-completed"@
        } else if active {
            "stage-active"@
        } else {
            "stage-pending"@
        }),
{
    if completed {
        "stage-completed"
    } else if active {
        "stage-active"
    } else {
        "stage-pending"
    }
}

} // verus!
