//! What the Canvas Outline lists: which cards a filter lets through, and how a composed deck is
//! named in the tree.

use crate::card::CardId;
use crate::cards::listings::{search_lets_through, search_matches};
use vstd::prelude::*;
use vstd::string::StringSliceAdditionalSpecFns;
use vstd::utf8::{decode_utf8, encode_utf8, encode_utf8_decode_utf8, is_char_boundary};

verus! {

/// Whether the Outline lists a card under a filter: the filter must let its title or its key
/// through.
pub open spec fn card_listed_by(card: CardId, filter: Seq<char>) -> bool {
    search_lets_through(filter, card.title_text(), card.key_text())
}

/// Whether the Outline lists a card under a filter.
pub fn card_listed(card: CardId, filter: &str) -> (r: bool)
    ensures
        r == card_listed_by(card, filter@),
{
    search_matches(filter, card.title(), card.key())
}

/// How many bytes of a deck's identifier its tree entry shows: six, or all of a shorter one.
pub open spec fn shown_id_bytes(id: Seq<char>) -> int {
    let n = encode_utf8(id).len() as int;
    if n < 6 {
        n
    } else {
        6
    }
}

/// A deck's tree entry: its title, then the characters of the first bytes of its identifier in
/// brackets.
pub open spec fn deck_label_text(title: Seq<char>, id: Seq<char>) -> Seq<char> {
    title + " ["@ + decode_utf8(encode_utf8(id).take(shown_id_bytes(id))) + "]"@
}

/// A deck's tree entry.
///
/// The identifier is cut after its sixth byte, which must fall between two characters.
pub fn deck_label(title: &str, id: &str) -> (r: String)
    requires
        encode_utf8(id@).len() <= usize::MAX,
        is_char_boundary(encode_utf8(id@), shown_id_bytes(id@)),
    ensures
        r@ == deck_label_text(title@, id@),
{
    broadcast use vstd::utf8::encode_utf8_valid_utf8;

    let n = if id.len() < 6 {
        id.len()
    } else {
        6
    };
    let (head, _) = id.split_at(n);
    proof {
        assert(n as int == shown_id_bytes(id@));
        assert(head.spec_bytes() =~= encode_utf8(id@).take(n as int));
        encode_utf8_decode_utf8(head@);
    }
    let mut s = String::from_str(title);
    s.append(" [");
    s.append(head);
    s.append("]");
    s
}

} // verus!
