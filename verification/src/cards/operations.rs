//! What the Operations card decides: which operation stays selected when the owner's list is read
//! again, which operations a status filter lists, and how an operation's state and short
//! identifier are written.

use crate::text::{chars_of, push_char, same_text};
use vstd::prelude::*;

verus! {

/// Keeps a selection only while the owner still lists the operation it names.
pub fn retained_selection(selected: Option<u128>, operations: &[u128]) -> (r: Option<u128>)
    ensures
        r == (match selected {
            Some(id) => if operations@.contains(id) {
                Some(id)
            } else {
                None
            },
            None => None,
        }),
{
    match selected {
        None => None,
        Some(id) => {
            let mut i: usize = 0;
            while i < operations.len()
                invariant
                    i <= operations.len(),
                    selected == Some(id),
                    forall|j: int| 0 <= j < i ==> operations@[j] != id,
                decreases operations.len() - i,
            {
                if operations[i] == id {
                    assert(operations@[i as int] == id);
                    assert(operations@.contains(id));
                    return Some(id);
                }
                i = i + 1;
            }
            None
        },
    }
}

/// Where an operation stands, as the owner reports it.
#[derive(Clone, Copy, Debug, Eq, PartialEq, Structural)]
pub enum OperationState {
    /// Waiting to start.
    Queued,
    /// Under way.
    Running,
    /// Done.
    Completed,
    /// It ran and failed.
    Failed,
    /// Stopped on request.
    Cancelled,
    /// Nothing ran: the owner refused it.
    Refused,
}

/// The status filter a choice names: running, completed or failed, and everything otherwise.
#[derive(Clone, Copy, Debug, Eq, PartialEq, Structural)]
pub enum StatusFilter {
    /// No filter.
    All,
    /// Queued or running.
    Active,
    /// Completed.
    Completed,
    /// Failed, cancelled or refused.
    Unsuccessful,
}

/// The filter a choice names.
pub open spec fn filter_named(choice: Option<Seq<char>>) -> StatusFilter {
    match choice {
        Some(c) => if c == "running"@ {
            StatusFilter::Active
        } else if c == "completed"@ {
            StatusFilter::Completed
        } else if c == "failed"@ {
            StatusFilter::Unsuccessful
        } else {
            StatusFilter::All
        },
        None => StatusFilter::All,
    }
}

/// The filter a choice names.
pub fn status_filter(choice: Option<&str>) -> (r: StatusFilter)
    ensures
        r == filter_named(match choice {
            Some(c) => Some(c@),
            None => None,
        }),
{
    match choice {
        Some(c) => if same_text(c, "running") {
            StatusFilter::Active
        } else if same_text(c, "completed") {
            StatusFilter::Completed
        } else if same_text(c, "failed") {
            StatusFilter::Unsuccessful
        } else {
            StatusFilter::All
        },
        None => StatusFilter::All,
    }
}

/// Whether a filter lists an operation in a given state.
pub open spec fn listed_by(filter: StatusFilter, state: OperationState) -> bool {
    match filter {
        StatusFilter::All => true,
        StatusFilter::Active => state == OperationState::Queued || state == OperationState::Running,
        StatusFilter::Completed => state == OperationState::Completed,
        StatusFilter::Unsuccessful => state == OperationState::Failed || state
            == OperationState::Cancelled || state == OperationState::Refused,
    }
}

/// Whether a filter lists an operation in a given state.
pub fn lists(filter: StatusFilter, state: OperationState) -> (r: bool)
    ensures
        r == listed_by(filter, state),
{
    match filter {
        StatusFilter::All => true,
        StatusFilter::Active => matches!(state, OperationState::Queued | OperationState::Running),
        StatusFilter::Completed => matches!(state, OperationState::Completed),
        StatusFilter::Unsuccessful => matches!(
            state,
            OperationState::Failed | OperationState::Cancelled | OperationState::Refused
        ),
    }
}

/// The three status filters split the operations between them: every operation is listed by
/// exactly one of running, completed and failed; the completed filter lists exactly the completed
/// ones, the running filter exactly those queued or under way, and no filter leaves out anything
/// the unfiltered view shows.
pub proof fn lemma_status_filters_partition(state: OperationState)
    ensures
        listed_by(StatusFilter::Completed, state) <==> state == OperationState::Completed,
        listed_by(StatusFilter::Active, state) <==> (state == OperationState::Queued || state
            == OperationState::Running),
        listed_by(StatusFilter::Unsuccessful, state) <==> !(listed_by(StatusFilter::Active, state)
            || listed_by(StatusFilter::Completed, state)),
        !(listed_by(StatusFilter::Active, state) && listed_by(StatusFilter::Completed, state)),
        !(listed_by(StatusFilter::Completed, state) && listed_by(StatusFilter::Unsuccessful, state)),
        !(listed_by(StatusFilter::Active, state) && listed_by(StatusFilter::Unsuccessful, state)),
        listed_by(StatusFilter::All, state),
{
}

/// A position is listed exactly when the state there passes the filter, and positions come in
/// the owner's order.
pub proof fn lemma_listed_positions_are_exact(filter: StatusFilter, states: Seq<OperationState>, i: int)
    requires
        0 <= i < states.len(),
    ensures
        listed_positions(filter, states).contains(i) <==> listed_by(filter, states[i]),
        forall|k: int|
            0 <= k < listed_positions(filter, states).len() ==> 0 <= #[trigger] listed_positions(
                filter,
                states,
            )[k] < states.len(),
        forall|k: int, m: int|
            0 <= k < m < listed_positions(filter, states).len() ==> listed_positions(filter, states)[k]
                < listed_positions(filter, states)[m],
    decreases states.len(),
{
    let before = listed_positions(filter, states.drop_last());
    let last = states.len() - 1;
    lemma_listed_positions_bounded(filter, states.drop_last());
    if i < last {
        lemma_listed_positions_are_exact(filter, states.drop_last(), i);
        assert(states.drop_last()[i] == states[i]);
        if listed_by(filter, states.last()) {
            assert(listed_positions(filter, states) == before.push(last));
            if before.push(last).contains(i) {
                let k = choose|k: int| 0 <= k < before.push(last).len() && before.push(last)[k] == i;
                if k < before.len() {
                    assert(before.contains(i));
                }
            }
            if before.contains(i) {
                let k = choose|k: int| 0 <= k < before.len() && before[k] == i;
                assert(before.push(last)[k] == i);
            }
        }
    } else {
        if listed_by(filter, states.last()) {
            assert(listed_positions(filter, states) == before.push(last));
            assert(before.push(last)[before.len() as int] == last);
        } else {
            if before.contains(i) {
                let k = choose|k: int| 0 <= k < before.len() && before[k] == i;
                assert(before[k] < states.drop_last().len());
            }
        }
    }
}

/// Every listed position lies inside the list, in increasing order.
proof fn lemma_listed_positions_bounded(filter: StatusFilter, states: Seq<OperationState>)
    ensures
        forall|k: int|
            0 <= k < listed_positions(filter, states).len() ==> 0 <= #[trigger] listed_positions(
                filter,
                states,
            )[k] < states.len(),
        forall|k: int, m: int|
            0 <= k < m < listed_positions(filter, states).len() ==> listed_positions(filter, states)[k]
                < listed_positions(filter, states)[m],
    decreases states.len(),
{
    if states.len() > 0 {
        let before = listed_positions(filter, states.drop_last());
        lemma_listed_positions_bounded(filter, states.drop_last());
        if listed_by(filter, states.last()) {
            let after = before.push(states.len() - 1);
            assert(listed_positions(filter, states) == after);
            assert forall|k: int| 0 <= k < after.len() implies 0 <= #[trigger] after[k] < states.len() by {
                if k < before.len() {
                    assert(after[k] == before[k]);
                }
            }
            assert forall|k: int, m: int| 0 <= k < m < after.len() implies after[k] < after[m] by {
                assert(after[k] == before[k]);
                if m < before.len() {
                    assert(after[m] == before[m]);
                }
            }
        }
    }
}


/// The positions of the states a filter lists, in order.
pub open spec fn listed_positions(filter: StatusFilter, states: Seq<OperationState>) -> Seq<int>
    decreases states.len(),
{
    if states.len() == 0 {
        Seq::empty()
    } else {
        let before = listed_positions(filter, states.drop_last());
        if listed_by(filter, states.last()) {
            before.push(states.len() - 1)
        } else {
            before
        }
    }
}

/// The positions, in the owner's order, of the operations a filter lists.
pub fn filtered_positions(filter: StatusFilter, states: &Vec<OperationState>) -> (r: Vec<usize>)
    ensures
        r@.map_values(|i: usize| i as int) == listed_positions(filter, states@),
{
    let mut r: Vec<usize> = Vec::new();
    let mut i: usize = 0;
    while i < states.len()
        invariant
            i <= states.len(),
            r@.map_values(|k: usize| k as int) == listed_positions(filter, states@.take(i as int)),
        decreases states.len() - i,
    {
        assert(states@.take(i as int + 1).drop_last() =~= states@.take(i as int));
        let ghost before = r@.map_values(|k: usize| k as int);
        if lists(filter, states[i]) {
            r.push(i);
            assert(r@.map_values(|k: usize| k as int) =~= before.push(i as int));
        }
        i = i + 1;
    }
    assert(states@.take(states.len() as int) =~= states@);
    r
}

/// The badge an operation wears: a running operation whose cancellation was asked for reads as
/// cancelling, a refused one as refused rather than failed.
pub open spec fn badge_label(state: OperationState, cancellation_requested: bool) -> Seq<char> {
    match state {
        OperationState::Running => if cancellation_requested {
            "Cancelling"@
        } else {
            "Running"@
        },
        OperationState::Queued => "Queued"@,
        OperationState::Completed => "Completed"@,
        OperationState::Failed => "Failed"@,
        OperationState::Cancelled => "Cancelled"@,
        OperationState::Refused => "Refused"@,
    }
}

/// A badge names the state the operation is in: each state has its own badge, a refused
/// operation never reads as failed, and an operation reads as cancelling exactly while it runs
/// after its cancellation was asked for.
pub proof fn lemma_badges_tell_states_apart(a: OperationState, b: OperationState, ra: bool, rb: bool)
    ensures
        badge_label(a, ra) == badge_label(b, rb) ==> a == b,
        badge_label(OperationState::Refused, ra) != badge_label(OperationState::Failed, rb),
        badge_label(a, ra) == "Cancelling"@ <==> (a == OperationState::Running && ra),
{
    reveal_strlit("Cancelling");
    reveal_strlit("Running");
    reveal_strlit("Queued");
    reveal_strlit("Completed");
    reveal_strlit("Failed");
    reveal_strlit("Cancelled");
    reveal_strlit("Refused");
    assert("Cancelling"@.len() == 10 && "Running"@.len() == 7 && "Queued"@.len() == 6);
    assert("Completed"@.len() == 9 && "Failed"@.len() == 6 && "Cancelled"@.len() == 9);
    assert("Refused"@.len() == 7);
    assert("Running"@[1] != "Refused"@[1]);
    assert("Queued"@[0] != "Failed"@[0]);
    assert("Completed"@[1] != "Cancelled"@[1]);
}

/// The badge an operation wears.
pub fn badge_text(state: OperationState, cancellation_requested: bool) -> (r: &'static str)
    ensures
        r@ == badge_label(state, cancellation_requested),
{
    match state {
        OperationState::Running => if cancellation_requested {
            "Cancelling"
        } else {
            "Running"
        },
        OperationState::Queued => "Queued",
        OperationState::Completed => "Completed",
        OperationState::Failed => "Failed",
        OperationState::Cancelled => "Cancelled",
        OperationState::Refused => "Refused",
    }
}

/// Whether the owner can still see the work.
#[derive(Clone, Copy, Debug, Eq, PartialEq, Structural)]
pub enum ObservationState {
    /// Confirmed in the last reconciliation.
    Known,
    /// Not confirmed in the last reconciliation.
    Stale,
    /// No longer established by the executing authority.
    Detached,
    /// The executing authority cannot be read.
    Unavailable,
}

/// The observation line: nothing while the work is known, and otherwise why it is not.
pub open spec fn observation_label(observation: ObservationState) -> Seq<char> {
    match observation {
        ObservationState::Known => Seq::empty(),
        ObservationState::Stale => "Not confirmed by the executing authority in the last reconciliation"@,
        ObservationState::Detached => "Detached: the executing authority no longer establishes this operation"@,
        ObservationState::Unavailable => "The executing authority cannot be read right now"@,
    }
}

/// The observation line.
pub fn observation_text(observation: ObservationState) -> (r: &'static str)
    ensures
        r@ == observation_label(observation),
{
    match observation {
        ObservationState::Known => {
            proof {
                reveal_strlit("");
            }
            ""
        },
        ObservationState::Stale => "Not confirmed by the executing authority in the last reconciliation",
        ObservationState::Detached => "Detached: the executing authority no longer establishes this operation",
        ObservationState::Unavailable => "The executing authority cannot be read right now",
    }
}

/// The character for a hexadecimal digit, lowercase.
pub open spec fn hex_digit(d: nat) -> char {
    if d < 10 {
        ((d + 48) as u32) as char
    } else {
        ((d + 87) as u32) as char
    }
}

/// The lowest `n` hexadecimal digits of `v`, most significant first, zeros included.
pub open spec fn hex_text(v: nat, n: nat) -> Seq<char>
    decreases n,
{
    if n == 0 {
        Seq::empty()
    } else {
        hex_text(v / 16, (n - 1) as nat).push(hex_digit(v % 16))
    }
}

/// The hyphenated lowercase form of a UUID given as its 128-bit value: its 32 hexadecimal digits
/// in groups of eight, four, four, four and twelve.
pub open spec fn uuid_text(id: u128) -> Seq<char> {
    let h = hex_text(id as nat, 32);
    h.subrange(0, 8) + "-"@ + h.subrange(8, 12) + "-"@ + h.subrange(12, 16) + "-"@ + h.subrange(16, 20)
        + "-"@ + h.subrange(20, 32)
}

proof fn lemma_hex_text_len(v: nat, n: nat)
    ensures
        hex_text(v, n).len() == n,
    decreases n,
{
    if n > 0 {
        lemma_hex_text_len(v / 16, (n - 1) as nat);
    }
}

/// Sixteen to the power `m`.
pub open spec fn sixteen_to(m: nat) -> nat
    decreases m,
{
    if m == 0 {
        1
    } else {
        16 * sixteen_to((m - 1) as nat)
    }
}

proof fn lemma_sixteen_to_positive(m: nat)
    ensures
        sixteen_to(m) > 0,
    decreases m,
{
    if m > 0 {
        lemma_sixteen_to_positive((m - 1) as nat);
    }
}

/// The leading `n` of the lowest `n + m` hexadecimal digits of `v` are the lowest `n` digits of
/// `v` with its `m` lowest digits dropped.
proof fn lemma_hex_text_prefix(v: nat, n: nat, m: nat)
    ensures
        hex_text(v, n + m).take(n as int) == hex_text(v / sixteen_to(m), n),
    decreases m,
{
    if m == 0 {
        lemma_hex_text_len(v, n);
        assert(hex_text(v, n).take(n as int) =~= hex_text(v, n));
        assert(v / 1 == v);
    } else {
        let k = (m - 1) as nat;
        lemma_hex_text_prefix(v / 16, n, k);
        lemma_sixteen_to_positive(k);
        vstd::arithmetic::div_mod::lemma_div_denominator(v as int, 16, sixteen_to(k) as int);
        lemma_hex_text_len(v / 16, n + k);
        assert((n + m - 1) as nat == n + k);
        assert(hex_text(v, n + m) == hex_text(v / 16, n + k).push(hex_digit(v % 16)));
        assert(hex_text(v, n + m).take(n as int) =~= hex_text(v / 16, n + k).take(n as int));
    }
}

/// An operation's short identifier shows the eight most significant hexadecimal digits of the
/// identifier: those of the identifier with its low 96 bits dropped.
pub proof fn lemma_short_id_is_the_top_eight_digits(id: u128)
    ensures
        uuid_text(id).take(8) == hex_text(id as nat / 0x1_0000_0000_0000_0000_0000_0000, 8),
{
    reveal_strlit("-");
    lemma_hex_text_len(id as nat, 32);
    lemma_hex_text_prefix(id as nat, 8, 24);
    assert(sixteen_to(24) == 0x1_0000_0000_0000_0000_0000_0000) by {
        reveal_with_fuel(sixteen_to, 25);
    }
    let h = hex_text(id as nat, 32);
    assert(uuid_text(id).take(8) =~= h.take(8));
}

/// The text of a UUID, as `uuid::Uuid::from_u128` and its `Display` write it: the hyphenated
/// lowercase form of the value, most significant digit first.
#[verifier::external_body]
fn uuid_string(id: u128) -> (r: String)
    ensures
        r@ == uuid_text(id),
{
    uuid::Uuid::from_u128(id).to_string()
}

/// How an operation's identifier is shown under its logs: "id: " and the first eight characters of
/// its UUID.
pub fn short_operation_id(id: u128) -> (r: String)
    ensures
        r@ == "id: "@ + uuid_text(id).take(8),
{
    let full = chars_of(uuid_string(id).as_str());
    proof {
        reveal_strlit("-");
        lemma_hex_text_len(id as nat, 32);
    }
    let mut s = String::from_str("id: ");
    let ghost start = s@;
    let mut i: usize = 0;
    while i < 8
        invariant
            full@ == uuid_text(id),
            full@.len() == 36,
            start == "id: "@,
            i <= 8,
            s@ == start + uuid_text(id).take(i as int),
        decreases 8 - i,
    {
        push_char(&mut s, full[i]);
        i = i + 1;
        assert(s@ =~= start + uuid_text(id).take(i as int));
    }
    s
}

} // verus!
