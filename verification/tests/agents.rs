use living_canvas::cards::agents::{after_read, after_stop, AfterRead, AfterStop};
use living_canvas::cards::agents::{ceilings_line, clock_lines, model_line, reach_line};
use living_canvas::cards::agents::{headline, spend_line, standing_text, SpendView, Standing};

#[test]
fn nobody_answering_is_not_nothing_running() {
    assert_eq!(headline(None), "Runtime did not answer");
    assert_eq!(headline(Some(&Vec::new())), "Nothing running");
}

#[test]
fn a_finished_session_is_not_counted_as_running() {
    // One session that ended, then one that is running.
    assert_eq!(headline(Some(&vec![false])), "1 finished");
    assert_eq!(headline(Some(&vec![true])), "1 running");
}

#[test]
fn an_unread_ledger_says_so_rather_than_nought() {
    let line = spend_line(
        Some(SpendView::Capped { limit: 100, spent: None }),
        Some("2026-08-13 18:15:20 UTC"),
    )
    .expect("a ceiling was granted");
    assert!(line.contains("not read"), "{line}");
    assert!(!line.contains('0'), "{line}");
}

#[test]
fn a_free_route_that_billed_is_shown_rather_than_summarised_away() {
    let line = spend_line(
        Some(SpendView::ZeroCost { spent: Some(7) }),
        Some("2026-08-13 18:15:20 UTC"),
    )
    .expect("a policy was granted");
    assert!(line.contains('7'), "{line}");
}

#[test]
fn a_figure_carries_when_it_was_seen() {
    let line = spend_line(
        Some(SpendView::Capped { limit: 100, spent: Some(42) }),
        Some("2026-08-13 18:15:20 UTC"),
    )
    .expect("a ceiling was granted");
    assert!(line.contains("as of"), "{line}");
}

#[test]
fn headline_counts_live_sessions_only() {
    assert_eq!(headline(Some(&vec![false, false, false])), "3 finished");
    assert_eq!(headline(Some(&vec![true, false, true])), "2 running");
    assert_eq!(headline(Some(&vec![true; 12])), "12 running");
}

#[test]
fn spend_lines_read_exactly() {
    assert_eq!(
        spend_line(Some(SpendView::Capped { limit: 100, spent: Some(42) }), Some("then")).unwrap(),
        "spent 42 of 100 as of then"
    );
    assert_eq!(
        spend_line(Some(SpendView::Capped { limit: 100, spent: Some(42) }), None).unwrap(),
        "spent 42 of 100"
    );
    let unread = spend_line(Some(SpendView::Capped { limit: 100, spent: None }), Some("then")).unwrap();
    assert_eq!(unread, "ceiling granted, spending not read");
    assert!(unread.contains("not read"));
    assert!(!unread.contains("spent"));
    assert_eq!(
        spend_line(Some(SpendView::ZeroCost { spent: Some(0) }), Some("then")).unwrap(),
        "zero-cost only, nothing charged as of then"
    );
    assert_eq!(
        spend_line(Some(SpendView::ZeroCost { spent: Some(7) }), None).unwrap(),
        "zero-cost only, yet 7 was charged"
    );
    assert_eq!(
        spend_line(Some(SpendView::ZeroCost { spent: None }), Some("then")).unwrap(),
        "zero-cost only, spending not read"
    );
    assert_eq!(spend_line(None, Some("then")), None);
}

#[test]
fn standings_read_as_words() {
    assert_eq!(standing_text(Standing::Launching), "starting");
    assert_eq!(standing_text(Standing::Running), "running");
    assert_eq!(standing_text(Standing::Ending), "ending");
    assert_eq!(standing_text(Standing::Ended), "ended");
}

#[test]
fn a_session_line_names_its_ceilings_reach_and_model() {
    assert_eq!(ceilings_line(4096, 2, 512), "4096 MiB · 2 cpu · 512 tasks");
    assert_eq!(reach_line(&vec![]), "reaches nothing");
    assert_eq!(reach_line(&vec!["github.com".to_string()]), "github.com");
    assert_eq!(
        reach_line(&vec!["github.com".to_string(), "crates.io".to_string(), "pypi.org".to_string()]),
        "github.com, crates.io, pypi.org"
    );
    assert_eq!(model_line(Some("Strong")), "Strong");
    assert_eq!(model_line(None), "no model granted");
}

#[test]
fn a_session_clock_reads_its_lease_until_it_ends() {
    assert_eq!(
        clock_lines("09:00", "10:00", None),
        ("started 09:00".to_owned(), "lease until 10:00".to_owned())
    );
    assert_eq!(
        clock_lines("09:00", "10:00", Some("09:30")),
        ("started 09:00".to_owned(), "ended 09:30".to_owned())
    );
}

#[test]
fn a_stopped_session_is_read_again_only_while_the_card_is_open() {
    assert_eq!(after_stop(true, true), AfterStop::ReadSessions);
    assert_eq!(after_stop(true, false), AfterStop::ShowError);
    assert_eq!(after_stop(false, true), AfterStop::Nothing);
    assert_eq!(after_stop(false, false), AfterStop::Nothing);
    assert_eq!(after_read(true, true), AfterRead::Replace);
    assert_eq!(after_read(false, true), AfterRead::Keep);
    assert_eq!(after_read(true, false), AfterRead::ForgetAndShowError);
    assert_eq!(after_read(false, false), AfterRead::ForgetAndShowError);
}
