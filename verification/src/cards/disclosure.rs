//! What the Disclosure card says about what this reader was supplied, and what was kept from them.

use crate::text::{append_decimal, decimal_text, same_text};
use vstd::prelude::*;

verus! {

/// What the disclosure headline reads from the reader's disclosure record.
#[derive(Clone, Copy, Debug, Eq, PartialEq, Structural)]
pub struct DisclosureSummary {
    /// Whether any delivery was recorded for this consumer.
    pub delivered: bool,
    /// How many items were supplied.
    pub supplied: u64,
}

/// One line saying what this consumer stands in relation to the record: the surface could not be
/// asked, nothing has been supplied yet, or something was supplied.
pub open spec fn headline_text(disclosure: Option<DisclosureSummary>) -> Seq<char> {
    match disclosure {
        None => "Disclosure record not read"@,
        Some(record) => if !record.delivered {
            "Nothing supplied to you yet"@
        } else if record.supplied == 0 {
            "An empty delivery was recorded"@
        } else if record.supplied == 1 {
            "1 item supplied to you"@
        } else {
            decimal_text(record.supplied as nat) + " items supplied to you"@
        },
    }
}

/// One line saying what this consumer stands in relation to the record.
pub fn headline(disclosure: Option<DisclosureSummary>) -> (r: String)
    ensures
        r@ == headline_text(disclosure),
{
    match disclosure {
        None => String::from_str("Disclosure record not read"),
        Some(record) => if !record.delivered {
            String::from_str("Nothing supplied to you yet")
        } else if record.supplied == 0 {
            String::from_str("An empty delivery was recorded")
        } else if record.supplied == 1 {
            String::from_str("1 item supplied to you")
        } else {
            let mut s = String::new();
            append_decimal(&mut s, record.supplied);
            s.append(" items supplied to you");
            s
        },
    }
}

/// What a reason code means in the words a person would use to ask about it; a code this build
/// cannot name is shown as unnameable rather than guessed at.
pub open spec fn reason_label(because: Seq<char>) -> Seq<char> {
    if because == "aboveConsumerTrust"@ {
        "above your trust"@
    } else if because == "belongsToThePerson"@ {
        "yours by construction"@
    } else {
        "reason not recognised"@
    }
}

/// What a reason code means in the words a person would use to ask about it.
pub fn reason_text(because: &str) -> (r: &'static str)
    ensures
        r@ == reason_label(because@),
{
    if same_text(because, "aboveConsumerTrust") {
        "above your trust"
    } else if same_text(because, "belongsToThePerson") {
        "yours by construction"
    } else {
        "reason not recognised"
    }
}

/// "Not asked" never reads as "nothing happened", and neither reads as a delivery.
pub proof fn lemma_not_asked_is_not_nothing_supplied(undelivered: DisclosureSummary, delivered: DisclosureSummary)
    requires
        !undelivered.delivered,
        delivered.delivered,
    ensures
        headline_text(None) != headline_text(Some(undelivered)),
        headline_text(None) != headline_text(Some(delivered)),
        headline_text(Some(undelivered)) != headline_text(Some(delivered)),
{
    reveal_strlit("Disclosure record not read");
    reveal_strlit("Nothing supplied to you yet");
    reveal_strlit("An empty delivery was recorded");
    reveal_strlit("1 item supplied to you");
    reveal_strlit(" items supplied to you");
    let none = headline_text(None);
    let nothing = headline_text(Some(undelivered));
    let some = headline_text(Some(delivered));
    assert(none.len() == 26 && none[25] == 'd' && none[0] == 'D');
    assert(nothing.len() == 27 && nothing[26] == 't');
    assert("An empty delivery was recorded"@.len() == 30);
    assert("An empty delivery was recorded"@[29] == 'd');
    assert("An empty delivery was recorded"@[0] == 'A');
    assert("1 item supplied to you"@.len() == 22 && "1 item supplied to you"@[21] == 'u');
    assert(" items supplied to you"@.len() == 22 && " items supplied to you"@[21] == 'u');
    if delivered.supplied > 1 {
        let d = decimal_text(delivered.supplied as nat);
        assert(some[some.len() - 1] == " items supplied to you"@[21]);
    }
    if delivered.supplied == 0 {
        assert(some[0] == 'A');
    }
}

} // verus!
