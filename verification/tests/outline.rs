use living_canvas::card::CardId;
use living_canvas::cards::outline::{card_listed, deck_label};

#[test]
fn the_outline_filter_reads_titles_and_keys() {
    assert!(card_listed(CardId::Agents, ""));
    assert!(card_listed(CardId::Agents, "AGENT"));
    assert!(!card_listed(CardId::Agents, "zzz-no-such-card"));
}

#[test]
fn a_deck_shows_six_bytes_of_its_identifier() {
    assert_eq!(deck_label("Review", "0123456789"), "Review [012345]");
    assert_eq!(deck_label("Review", "abc"), "Review [abc]");
    assert_eq!(deck_label("", ""), " []");
}
