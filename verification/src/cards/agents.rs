//! What the Agents card says about what is running in a capsule, on whose say-so, and with what
//! left to spend.

use crate::text::{append_decimal, decimal_text, is_digit, lemma_decimal_text, text_views};
use vstd::prelude::*;

verus! {

/// Where one agent session stands.
#[derive(Clone, Copy, Debug, Eq, PartialEq, Structural)]
pub enum Standing {
    /// Being admitted and started.
    Launching,
    /// Running inside its capsule.
    Running,
    /// Asked to stop and winding down.
    Ending,
    /// Over.
    Ended,
}

/// What a session was granted for money, and what had been charged when last observed.
#[derive(Clone, Copy, Debug, Eq, PartialEq, Structural)]
pub enum SpendView {
    /// A ceiling was granted.
    Capped {
        /// The ceiling.
        limit: u64,
        /// What had been spent, when a ledger was read.
        spent: Option<u64>,
    },
    /// Only routes declared free were granted.
    ZeroCost {
        /// What had been charged anyway, when a ledger was read.
        spent: Option<u64>,
    },
}

/// How a standing reads to a person.
pub open spec fn standing_label(standing: Standing) -> Seq<char> {
    match standing {
        Standing::Launching => "starting"@,
        Standing::Running => "running"@,
        Standing::Ending => "ending"@,
        Standing::Ended => "ended"@,
    }
}

/// How a standing reads to a person.
pub fn standing_text(standing: Standing) -> (r: &'static str)
    ensures
        r@ == standing_label(standing),
{
    match standing {
        Standing::Launching => "starting",
        Standing::Running => "running",
        Standing::Ending => "ending",
        Standing::Ended => "ended",
    }
}

/// How many of the sessions are live.
pub open spec fn live_count(live: Seq<bool>) -> nat
    decreases live.len(),
{
    if live.len() == 0 {
        0
    } else {
        live_count(live.drop_last()) + if live.last() {
            1nat
        } else {
            0nat
        }
    }
}

/// The one line that says where this host stands on agents, given for each session whether it is
/// live, or nothing when the runtime could not be asked.
///
/// Nobody answering is not nothing running, and sessions that all ended are not nothing either.
pub open spec fn headline_text(live: Option<Seq<bool>>) -> Seq<char> {
    match live {
        None => "Runtime did not answer"@,
        Some(sessions) => {
            let running = live_count(sessions);
            if running == 0 && sessions.len() == 0 {
                "Nothing running"@
            } else if running == 0 {
                decimal_text(sessions.len()) + " finished"@
            } else if running == 1 {
                "1 running"@
            } else {
                decimal_text(running) + " running"@
            }
        },
    }
}

/// The liveness flags of an optional list of sessions, as the contracts see them.
pub open spec fn live_view(live: Option<&Vec<bool>>) -> Option<Seq<bool>> {
    match live {
        Some(v) => Some(v@),
        None => None,
    }
}

/// One line saying where this host stands on agents.
///
/// `live` holds, for each session the runtime reported, whether that session is live; it is
/// nothing when the runtime could not be asked at all.
pub fn headline(live: Option<&Vec<bool>>) -> (r: String)
    ensures
        r@ == headline_text(live_view(live)),
{
    match live {
        None => String::from_str("Runtime did not answer"),
        Some(sessions) => {
            let mut running: usize = 0;
            let mut i: usize = 0;
            while i < sessions.len()
                invariant
                    i <= sessions.len(),
                    running == live_count(sessions@.subrange(0, i as int)),
                    running <= i,
                decreases sessions.len() - i,
            {
                assert(sessions@.subrange(0, i as int + 1).drop_last() =~= sessions@.subrange(
                    0,
                    i as int,
                ));
                if sessions[i] {
                    running = running + 1;
                }
                i = i + 1;
            }
            assert(sessions@.subrange(0, sessions.len() as int) =~= sessions@);
            if running == 0 && sessions.len() == 0 {
                String::from_str("Nothing running")
            } else if running == 0 {
                let mut s = String::new();
                append_decimal(&mut s, sessions.len() as u64);
                s.append(" finished");
                s
            } else if running == 1 {
                String::from_str("1 running")
            } else {
                let mut s = String::new();
                append_decimal(&mut s, running as u64);
                s.append(" running");
                s
            }
        },
    }
}

/// The suffix saying when a figure was seen: " as of" and the instant, or nothing.
pub open spec fn seen_suffix(observed: Option<Seq<char>>) -> Seq<char> {
    match observed {
        Some(at) => " as of "@ + at,
        None => Seq::empty(),
    }
}

/// What was granted for money and what had been charged when somebody last looked.
///
/// An unknown figure stays unknown: no ledger read is said as such, with no figure at all, so
/// that nothing on the line can be read as nought.
pub open spec fn spend_text(spend: Option<SpendView>, observed: Option<Seq<char>>) -> Option<
    Seq<char>,
> {
    match spend {
        None => None,
        Some(SpendView::Capped { limit, spent }) => Some(
            match spent {
                Some(s) => "spent "@ + decimal_text(s as nat) + " of "@ + decimal_text(limit as nat)
                    + seen_suffix(observed),
                None => "ceiling granted, spending not read"@,
            },
        ),
        Some(SpendView::ZeroCost { spent }) => Some(
            match spent {
                Some(s) => if s > 0 {
                    "zero-cost only, yet "@ + decimal_text(s as nat) + " was charged"@
                        + seen_suffix(observed)
                } else {
                    "zero-cost only, nothing charged"@ + seen_suffix(observed)
                },
                None => "zero-cost only, spending not read"@,
            },
        ),
    }
}

/// The observation instant, as the contracts see it.
pub open spec fn observed_view(observed: Option<&str>) -> Option<Seq<char>> {
    match observed {
        Some(t) => Some(t@),
        None => None,
    }
}

/// Appends " as of" and the instant when there is one.
fn append_seen(s: &mut String, observed: Option<&str>)
    ensures
        final(s)@ == old(s)@ + seen_suffix(observed_view(observed)),
{
    match observed {
        Some(at) => {
            s.append(" as of ");
            s.append(at);
            assert(final(s)@ =~= old(s)@ + seen_suffix(observed_view(observed)));
        },
        None => {
            assert(final(s)@ =~= old(s)@ + seen_suffix(observed_view(observed)));
        },
    }
}

/// What was granted for money and what had been charged when somebody last looked.
///
/// `observed` is the instant the spending was read, already written out for a person.
pub fn spend_line(spend: Option<SpendView>, observed: Option<&str>) -> (r: Option<String>)
    ensures
        match r {
            Some(line) => spend_text(spend, observed_view(observed)) == Some(line@),
            None => spend_text(spend, observed_view(observed)) is None,
        },
{
    match spend {
        None => None,
        Some(SpendView::Capped { limit, spent }) => {
            let mut s = String::new();
            match spent {
                Some(amount) => {
                    s.append("spent ");
                    append_decimal(&mut s, amount);
                    s.append(" of ");
                    append_decimal(&mut s, limit);
                    append_seen(&mut s, observed);
                },
                None => {
                    s.append("ceiling granted, spending not read");
                },
            }
            assert(Some(s@) == spend_text(spend, observed_view(observed)));
            Some(s)
        },
        Some(SpendView::ZeroCost { spent }) => {
            let mut s = String::new();
            match spent {
                Some(amount) => {
                    if amount > 0 {
                        s.append("zero-cost only, yet ");
                        append_decimal(&mut s, amount);
                        s.append(" was charged");
                    } else {
                        s.append("zero-cost only, nothing charged");
                    }
                    append_seen(&mut s, observed);
                },
                None => {
                    s.append("zero-cost only, spending not read");
                },
            }
            assert(Some(s@) == spend_text(spend, observed_view(observed)));
            Some(s)
        },
    }
}

/// A runtime that could not be asked never reads as one with nothing running, nor as any other
/// answer: the unanswered line ends in a letter no answered line ends in.
pub proof fn lemma_unanswered_is_not_an_answer(live: Seq<bool>)
    ensures
        headline_text(None) != headline_text(Some(live)),
{
    reveal_strlit("Runtime did not answer");
    reveal_strlit("Nothing running");
    reveal_strlit(" finished");
    reveal_strlit("1 running");
    reveal_strlit(" running");
    let none = headline_text(None);
    let some = headline_text(Some(live));
    assert(none.len() == 22);
    assert(none[21] == 'r');
    let running = live_count(live);
    if running == 0 && live.len() == 0 {
        assert(some.len() == 15);
        assert(some[14] == 'g');
    } else if running == 0 {
        let d = decimal_text(live.len());
        assert(" finished"@.len() == 9);
        assert(" finished"@[8] == 'd');
        assert(some[some.len() - 1] == " finished"@[8]);
    } else if running == 1 {
        assert(some.len() == 9);
        assert(some[8] == 'g');
    } else {
        assert(" running"@.len() == 8);
        assert(" running"@[7] == 'g');
        assert(some[some.len() - 1] == " running"@[7]);
    }
}

/// Sessions that were reported never read as nothing running, even when every one has finished.
pub proof fn lemma_reported_sessions_are_not_nothing_running(live: Seq<bool>)
    requires
        live.len() > 0,
    ensures
        headline_text(Some(live)) != "Nothing running"@,
{
    reveal_strlit("Nothing running");
    reveal_strlit(" finished");
    reveal_strlit("1 running");
    reveal_strlit(" running");
    let some = headline_text(Some(live));
    assert("Nothing running"@.len() == 15);
    assert("Nothing running"@[0] == 'N');
    assert("Nothing running"@[14] == 'g');
    let running = live_count(live);
    if running == 0 {
        assert(" finished"@.len() == 9);
        assert(" finished"@[8] == 'd');
        assert(some[some.len() - 1] == " finished"@[8]);
    } else if running == 1 {
        assert("1 running"@.len() == 9);
    } else {
        lemma_decimal_text(running);
        assert(is_digit(decimal_text(running)[0]));
        assert(some[0] == decimal_text(running)[0]);
    }
}

/// A ledger that was not read shows no figure: its line holds no digit at all, so nothing on it
/// can be taken for nought.
pub proof fn lemma_unread_spending_shows_no_figure(spend: SpendView, observed: Option<Seq<char>>)
    requires
        match spend {
            SpendView::Capped { spent, .. } => spent is None,
            SpendView::ZeroCost { spent } => spent is None,
        },
    ensures
        spend_text(Some(spend), observed) matches Some(line) && line.len() > 0 && forall|i: int|
            0 <= i < line.len() ==> !is_digit(#[trigger] line[i]),
{
    reveal_strlit("ceiling granted, spending not read");
    reveal_strlit("zero-cost only, spending not read");
}

/// The ceilings a lease granted, as one line: memory, processors and tasks.
pub open spec fn ceilings_text(memory_mib: u64, cpus: u64, tasks_max: u64) -> Seq<char> {
    decimal_text(memory_mib as nat) + " MiB · "@ + decimal_text(cpus as nat) + " cpu · "@
        + decimal_text(tasks_max as nat) + " tasks"@
}

/// The ceilings a lease granted, as one line.
pub fn ceilings_line(memory_mib: u64, cpus: u64, tasks_max: u64) -> (r: String)
    ensures
        r@ == ceilings_text(memory_mib, cpus, tasks_max),
{
    let mut s = String::new();
    append_decimal(&mut s, memory_mib);
    s.append(" MiB · ");
    append_decimal(&mut s, cpus);
    s.append(" cpu · ");
    append_decimal(&mut s, tasks_max);
    s.append(" tasks");
    s
}

/// The hosts joined with ", ", in order.
pub open spec fn joined_hosts(hosts: Seq<Seq<char>>) -> Seq<char>
    decreases hosts.len(),
{
    if hosts.len() == 0 {
        Seq::empty()
    } else if hosts.len() == 1 {
        hosts[0]
    } else {
        joined_hosts(hosts.drop_last()) + ", "@ + hosts.last()
    }
}

/// Exactly which hosts a session may reach, enumerated; a session that may reach none says so.
pub open spec fn reach_text(hosts: Seq<Seq<char>>) -> Seq<char> {
    if hosts.len() == 0 {
        "reaches nothing"@
    } else {
        joined_hosts(hosts)
    }
}

/// Exactly which hosts a session may reach.
pub fn reach_line(hosts: &Vec<String>) -> (r: String)
    ensures
        r@ == reach_text(text_views(hosts@)),
{
    if hosts.len() == 0 {
        return String::from_str("reaches nothing");
    }
    let ghost all = text_views(hosts@);
    let mut s = hosts[0].clone();
    let mut i: usize = 1;
    assert(all.take(1).drop_last() =~= Seq::<Seq<char>>::empty());
    assert(joined_hosts(all.take(1)) == all[0]);
    while i < hosts.len()
        invariant
            all == text_views(hosts@),
            1 <= i <= hosts.len(),
            s@ == joined_hosts(all.take(i as int)),
        decreases hosts.len() - i,
    {
        s.append(", ");
        s.append(hosts[i].as_str());
        assert(all.take(i as int + 1).drop_last() =~= all.take(i as int));
        i = i + 1;
    }
    assert(all.take(hosts.len() as int) =~= all);
    s
}

/// The model class a session was granted, or that none was.
pub open spec fn model_text(model_class: Option<Seq<char>>) -> Seq<char> {
    match model_class {
        Some(m) => m,
        None => "no model granted"@,
    }
}

/// The model class a session was granted, or that none was.
pub fn model_line(model_class: Option<&str>) -> (r: String)
    ensures
        r@ == model_text(match model_class {
            Some(m) => Some(m@),
            None => None,
        }),
{
    match model_class {
        Some(m) => String::from_str(m),
        None => String::from_str("no model granted"),
    }
}

/// The clock of a session: when it started, then when it ended, or, while it has not, until when
/// its lease runs. The instants come already written.
pub open spec fn clock_text(started: Seq<char>, expires: Seq<char>, ended: Option<Seq<char>>) -> (
    Seq<char>,
    Seq<char>,
) {
    (
        "started "@ + started,
        match ended {
            Some(at) => "ended "@ + at,
            None => "lease until "@ + expires,
        },
    )
}

/// The clock of a session, as two lines.
pub fn clock_lines(started: &str, expires: &str, ended: Option<&str>) -> (r: (String, String))
    ensures
        (r.0@, r.1@) == clock_text(
            started@,
            expires@,
            match ended {
                Some(at) => Some(at@),
                None => None,
            },
        ),
{
    let mut first = String::from_str("started ");
    first.append(started);
    let second = match ended {
        Some(at) => {
            let mut s = String::from_str("ended ");
            s.append(at);
            s
        },
        None => {
            let mut s = String::from_str("lease until ");
            s.append(expires);
            s
        },
    };
    (first, second)
}

/// What the Agents card does once the runtime has answered a request to stop a session.
#[derive(Clone, Copy, Debug, Eq, PartialEq, Structural)]
pub enum AfterStop {
    /// The card is gone: nothing more is done.
    Nothing,
    /// The session stopped: the sessions are read again.
    ReadSessions,
    /// The stop failed: the runtime's reason is shown.
    ShowError,
}

/// What the card does once a stop request was answered; `mounted` says whether the card is still
/// on the desktop, `stopped` whether the runtime stopped the session.
pub fn after_stop(mounted: bool, stopped: bool) -> (r: AfterStop)
    ensures
        !mounted ==> r == AfterStop::Nothing,
        mounted && stopped ==> r == AfterStop::ReadSessions,
        mounted && !stopped ==> r == AfterStop::ShowError,
{
    if !mounted {
        AfterStop::Nothing
    } else if stopped {
        AfterStop::ReadSessions
    } else {
        AfterStop::ShowError
    }
}

/// What becomes of the card's session list when the sessions were read again after a stop.
#[derive(Clone, Copy, Debug, Eq, PartialEq, Structural)]
pub enum AfterRead {
    /// The card is gone: the list is left alone.
    Keep,
    /// The fresh sessions replace the list.
    Replace,
    /// The read failed: the list is forgotten, so that it no longer claims to be current, and the
    /// reason is shown.
    ForgetAndShowError,
}

/// What becomes of the list after the re-read; `read` says whether the sessions could be read.
/// A failed read is acted on whether or not the card is still mounted.
pub fn after_read(mounted: bool, read: bool) -> (r: AfterRead)
    ensures
        !read ==> r == AfterRead::ForgetAndShowError,
        read && mounted ==> r == AfterRead::Replace,
        read && !mounted ==> r == AfterRead::Keep,
{
    if !read {
        AfterRead::ForgetAndShowError
    } else if mounted {
        AfterRead::Replace
    } else {
        AfterRead::Keep
    }
}

} // verus!
