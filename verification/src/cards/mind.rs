//! The count lines of the Mind cards: how many beliefs, open commitments, active concepts and
//! available capabilities an owner reported, and what is said when it was not read.

use crate::text::{append_decimal, decimal_text, is_digit, lemma_decimal_text};
use vstd::prelude::*;

verus! {

/// What a Mind panel read of one owner: whether the owner says it knows, and how many items it
/// reported.
#[derive(Clone, Copy, Debug, Eq, PartialEq, Structural)]
pub struct PanelReading {
    /// Whether the owner reported its knowledge as known.
    pub known: bool,
    /// How many items it reported.
    pub count: u64,
}

/// What the Commitments panel read of its owner: whether the owner says it knows, and the open
/// count it reported, if it reported one.
#[derive(Clone, Copy, Debug, Eq, PartialEq, Structural)]
pub struct CommitmentsReading {
    /// Whether the owner reported its knowledge as known.
    pub known: bool,
    /// The open count, when the owner gave one.
    pub open_count: Option<u64>,
}

/// A count line: the unread text when there is no count, and otherwise the text for none, for
/// one, or the number followed by the plural.
pub open spec fn count_text(
    count: Option<nat>,
    unread: Seq<char>,
    nothing: Seq<char>,
    one: Seq<char>,
    many: Seq<char>,
) -> Seq<char> {
    match count {
        None => unread,
        Some(n) => if n == 0 {
            nothing
        } else if n == 1 {
            one
        } else {
            decimal_text(n) + many
        },
    }
}

/// The count a panel may show: only a reading whose owner knows gives one.
pub open spec fn known_count(reading: Option<PanelReading>) -> Option<nat> {
    match reading {
        Some(r) => if r.known {
            Some(r.count as nat)
        } else {
            None
        },
        None => None,
    }
}

/// The open count the Commitments panel may show: only a reading whose owner knows gives one,
/// and a known reading without a count is taken as none open.
pub open spec fn known_open_count(reading: Option<CommitmentsReading>) -> Option<nat> {
    match reading {
        Some(r) => if r.known {
            match r.open_count {
                Some(n) => Some(n as nat),
                None => Some(0),
            }
        } else {
            None
        },
        None => None,
    }
}

/// The Beliefs line.
pub open spec fn beliefs_text(reading: Option<PanelReading>) -> Seq<char> {
    count_text(
        known_count(reading),
        "Epistemic1 not read"@,
        "Believes nothing yet"@,
        "1 belief"@,
        " beliefs"@,
    )
}

/// The Commitments line.
pub open spec fn commitments_text(reading: Option<CommitmentsReading>) -> Seq<char> {
    count_text(
        known_open_count(reading),
        "Intention1 not read"@,
        "No open commitments"@,
        "1 open commitment"@,
        " open commitments"@,
    )
}

/// The Context line.
pub open spec fn context_text(reading: Option<PanelReading>) -> Seq<char> {
    count_text(
        known_count(reading),
        "Context1 not read"@,
        "Nothing activated yet"@,
        "1 active concept"@,
        " active concepts"@,
    )
}

/// Writes a count line.
fn count_label(count: Option<u64>, unread: &str, nothing: &str, one: &str, many: &str) -> (r:
    String)
    ensures
        r@ == count_text(
            match count {
                Some(n) => Some(n as nat),
                None => None,
            },
            unread@,
            nothing@,
            one@,
            many@,
        ),
{
    match count {
        None => String::from_str(unread),
        Some(n) => if n == 0 {
            String::from_str(nothing)
        } else if n == 1 {
            String::from_str(one)
        } else {
            let mut s = String::new();
            append_decimal(&mut s, n);
            s.append(many);
            s
        },
    }
}

/// The count a reading gives, as the exec code holds it.
fn count_of(reading: Option<PanelReading>) -> (r: Option<u64>)
    ensures
        known_count(reading) == (match r {
            Some(n) => Some(n as nat),
            None => None,
        }),
{
    match reading {
        Some(p) => if p.known {
            Some(p.count)
        } else {
            None
        },
        None => None,
    }
}

/// How many beliefs the Beliefs panel says its owner holds, or that it was not read: a panel
/// that was not read, or whose owner does not know, says so rather than "nothing".
pub fn beliefs_label(reading: Option<PanelReading>) -> (r: String)
    ensures
        r@ == beliefs_text(reading),
{
    count_label(count_of(reading), "Epistemic1 not read", "Believes nothing yet", "1 belief", " beliefs")
}

/// How many commitments are open, or that the Commitments panel was not read.
pub fn commitments_label(reading: Option<CommitmentsReading>) -> (r: String)
    ensures
        r@ == commitments_text(reading),
{
    let count = match reading {
        Some(c) => if c.known {
            match c.open_count {
                Some(n) => Some(n),
                None => Some(0),
            }
        } else {
            None
        },
        None => None,
    };
    count_label(count, "Intention1 not read", "No open commitments", "1 open commitment", " open commitments")
}

/// How many concepts are active, or that the Context panel was not read.
pub fn context_label(reading: Option<PanelReading>) -> (r: String)
    ensures
        r@ == context_text(reading),
{
    count_label(count_of(reading), "Context1 not read", "Nothing activated yet", "1 active concept", " active concepts")
}

/// Where the connection to the system snapshot stands, with the availability of each capability
/// the snapshot lists once it is ready.
pub enum SnapshotReading {
    /// Still connecting.
    Loading,
    /// Nobody is signed in.
    SignInRequired,
    /// A snapshot arrived; one flag per capability, set when it is available.
    Ready(Vec<bool>),
    /// The gateway could not be reached.
    Error,
}

/// How many of the flags are set.
pub open spec fn available_count(available: Seq<bool>) -> nat
    decreases available.len(),
{
    if available.len() == 0 {
        0
    } else {
        available_count(available.drop_last()) + if available.last() {
            1nat
        } else {
            0nat
        }
    }
}

/// The Capabilities heading: what the connection is doing, or how many of the listed
/// capabilities are available out of how many there are.
pub open spec fn capabilities_text(reading: &SnapshotReading) -> Seq<char> {
    match reading {
        SnapshotReading::Loading => "Connecting…"@,
        SnapshotReading::SignInRequired => "Not signed in"@,
        SnapshotReading::Ready(available) => decimal_text(available_count(available@)) + "/"@
            + decimal_text(available@.len()) + " capabilities"@,
        SnapshotReading::Error => "Gateway unavailable"@,
    }
}

proof fn lemma_available_count_bounded(available: Seq<bool>)
    ensures
        available_count(available) <= available.len(),
    decreases available.len(),
{
    if available.len() > 0 {
        lemma_available_count_bounded(available.drop_last());
    }
}

/// The Capabilities heading.
pub fn capabilities_label(reading: &SnapshotReading) -> (r: String)
    ensures
        r@ == capabilities_text(reading),
{
    match reading {
        SnapshotReading::Loading => String::from_str("Connecting…"),
        SnapshotReading::SignInRequired => String::from_str("Not signed in"),
        SnapshotReading::Error => String::from_str("Gateway unavailable"),
        SnapshotReading::Ready(available) => {
            let mut count: usize = 0;
            let mut i: usize = 0;
            while i < available.len()
                invariant
                    i <= available.len(),
                    count == available_count(available@.take(i as int)),
                    count <= i,
                decreases available.len() - i,
            {
                assert(available@.take(i as int + 1).drop_last() =~= available@.take(i as int));
                if available[i] {
                    count = count + 1;
                }
                i = i + 1;
            }
            assert(available@.take(available.len() as int) =~= available@);
            let mut s = String::new();
            append_decimal(&mut s, count as u64);
            s.append("/");
            append_decimal(&mut s, available.len() as u64);
            s.append(" capabilities");
            s
        },
    }
}

/// A count line whose unread text ends in a letter that none of its counted texts ends in
/// never reads the same unread as counted.
proof fn lemma_unread_differs(
    n: nat,
    unread: Seq<char>,
    nothing: Seq<char>,
    one: Seq<char>,
    many: Seq<char>,
)
    requires
        unread.len() > 0,
        nothing.len() > 0,
        one.len() > 0,
        many.len() > 0,
        unread.last() != nothing.last(),
        unread.last() != one.last(),
        unread.last() != many.last(),
    ensures
        count_text(None, unread, nothing, one, many) != count_text(Some(n), unread, nothing, one, many),
{
    if n > 1 {
        let t = decimal_text(n) + many;
        assert(t[t.len() - 1] == many.last());
    }
}

/// A Beliefs panel that was not read, or whose owner does not know, never reads as any count of
/// beliefs, not even as believing nothing.
pub proof fn lemma_unread_beliefs_are_never_a_count(unread: Option<PanelReading>, read: PanelReading)
    requires
        known_count(unread) is None,
        read.known,
    ensures
        beliefs_text(unread) != beliefs_text(Some(read)),
{
    reveal_strlit("Epistemic1 not read");
    reveal_strlit("Believes nothing yet");
    reveal_strlit("1 belief");
    reveal_strlit(" beliefs");
    lemma_unread_differs(
        read.count as nat,
        "Epistemic1 not read"@,
        "Believes nothing yet"@,
        "1 belief"@,
        " beliefs"@,
    );
}

/// A Commitments panel that was not read, or whose owner does not know, never reads as any
/// number of open commitments, not even as none open.
pub proof fn lemma_unread_commitments_are_never_a_count(
    unread: Option<CommitmentsReading>,
    read: CommitmentsReading,
)
    requires
        known_open_count(unread) is None,
        read.known,
    ensures
        commitments_text(unread) != commitments_text(Some(read)),
{
    reveal_strlit("Intention1 not read");
    reveal_strlit("No open commitments");
    reveal_strlit("1 open commitment");
    reveal_strlit(" open commitments");
    lemma_unread_differs(
        known_open_count(Some(read)).unwrap(),
        "Intention1 not read"@,
        "No open commitments"@,
        "1 open commitment"@,
        " open commitments"@,
    );
}

/// A Context panel that was not read, or whose owner does not know, never reads as any number
/// of active concepts, not even as nothing activated.
pub proof fn lemma_unread_context_is_never_a_count(unread: Option<PanelReading>, read: PanelReading)
    requires
        known_count(unread) is None,
        read.known,
    ensures
        context_text(unread) != context_text(Some(read)),
{
    reveal_strlit("Context1 not read");
    reveal_strlit("Nothing activated yet");
    reveal_strlit("1 active concept");
    reveal_strlit(" active concepts");
    lemma_unread_differs(
        read.count as nat,
        "Context1 not read"@,
        "Nothing activated yet"@,
        "1 active concept"@,
        " active concepts"@,
    );
}

/// Only a snapshot that arrived shows a count, and it never counts more capabilities available
/// than it lists: the heading starts with the available count, which is at most the total.
pub proof fn lemma_only_a_snapshot_shows_a_count(reading: &SnapshotReading)
    ensures
        is_digit(capabilities_text(reading)[0]) <==> reading is Ready,
        reading matches SnapshotReading::Ready(available) ==> available_count(available@)
            <= available@.len(),
{
    reveal_strlit("Connecting…");
    reveal_strlit("Not signed in");
    reveal_strlit("Gateway unavailable");
    match reading {
        SnapshotReading::Ready(available) => {
            lemma_decimal_text(available_count(available@));
            lemma_available_count_bounded(available@);
            let d = decimal_text(available_count(available@));
            assert(capabilities_text(reading)[0] == d[0]);
        },
        _ => {},
    }
}

} // verus!
