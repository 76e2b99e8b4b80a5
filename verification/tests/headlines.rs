use living_canvas::cards::insight::{remedy_state, stage_class, undo_text, RemedyRecord, RemedyState};
use living_canvas::cards::attention::{subject_label, SubjectReading};
use living_canvas::cards::disclosure::{self, reason_text, DisclosureSummary};
use living_canvas::cards::insight::{self, verdict_text, InsightSummary};
use living_canvas::cards::operations::retained_selection;

#[test]
fn insight_headline_keeps_four_states_apart() {
    assert_eq!(insight::headline(None), "Not read");
    let base = InsightSummary { answered: true, watched_enough: true, findings: 0 };
    assert_eq!(
        insight::headline(Some(InsightSummary { answered: false, ..base })),
        "Telemetry did not answer"
    );
    assert_eq!(
        insight::headline(Some(InsightSummary { watched_enough: false, ..base })),
        "Not watching long enough yet"
    );
    assert_eq!(insight::headline(Some(base)), "Nothing needs attention");
    assert_eq!(
        insight::headline(Some(InsightSummary { findings: 1, ..base })),
        "1 thing needs attention"
    );
    assert_eq!(
        insight::headline(Some(InsightSummary { findings: 5, ..base })),
        "5 things need attention"
    );
}

#[test]
fn verdicts_read_as_the_person_would_answer_them() {
    assert_eq!(verdict_text("granted"), "pre-authorized");
    assert_eq!(verdict_text("requires-confirmation"), "would ask you");
    assert_eq!(verdict_text("denied"), "refused");
    assert_eq!(verdict_text("Granted"), "verdict not recognised");
    assert_eq!(verdict_text(""), "verdict not recognised");
}

#[test]
fn disclosure_headline_keeps_not_asked_apart_from_nothing_supplied() {
    assert_eq!(disclosure::headline(None), "Disclosure record not read");
    assert_eq!(
        disclosure::headline(Some(DisclosureSummary { delivered: false, supplied: 3 })),
        "Nothing supplied to you yet"
    );
    assert_eq!(
        disclosure::headline(Some(DisclosureSummary { delivered: true, supplied: 0 })),
        "An empty delivery was recorded"
    );
    assert_eq!(
        disclosure::headline(Some(DisclosureSummary { delivered: true, supplied: 1 })),
        "1 item supplied to you"
    );
    assert_eq!(
        disclosure::headline(Some(DisclosureSummary { delivered: true, supplied: 12 })),
        "12 items supplied to you"
    );
}

#[test]
fn reasons_are_named_or_said_to_be_unnameable() {
    assert_eq!(reason_text("aboveConsumerTrust"), "above your trust");
    assert_eq!(reason_text("belongsToThePerson"), "yours by construction");
    assert_eq!(reason_text("policy"), "reason not recognised");
}

#[test]
fn subject_readings_stay_three_lines() {
    let classified = SubjectReading::Classified {
        kind_name: "Service".to_string(),
        identifier: "nginx.service".to_string(),
    };
    assert_eq!(
        subject_label(&classified, "query"),
        ("Service".to_string(), "nginx.service".to_string())
    );
    assert_eq!(
        subject_label(&SubjectReading::Uninterpreted("k-17".to_string()), "query"),
        ("Subject".to_string(), "k-17".to_string())
    );
    assert_eq!(
        subject_label(&SubjectReading::Unread, "query"),
        ("query".to_string(), "payload not read".to_string())
    );
}

#[test]
fn reconnect_keeps_only_a_selection_the_owner_still_has() {
    let selected: u128 = 0x5f0e_44a1_9c2b_4d7e_8a1f_0b3c_6d2e_9f10;
    assert_eq!(retained_selection(Some(selected), &[selected]), Some(selected));
    assert_eq!(retained_selection(Some(selected), &[]), None);
    assert_eq!(retained_selection(None, &[selected]), None);
}

#[test]
fn a_selection_survives_among_other_operations() {
    assert_eq!(retained_selection(Some(9), &[1, 2, 9, 4]), Some(9));
    assert_eq!(retained_selection(Some(9), &[1, 2, 4]), None);
}

#[test]
fn a_remedy_is_read_from_the_first_record_caused_by_the_finding() {
    let records = vec![
        RemedyRecord { cause_id: Some(1), started: true, relief: Some("relieved".to_string()) },
        RemedyRecord { cause_id: Some(2), started: true, relief: Some("still-present".to_string()) },
        RemedyRecord { cause_id: Some(2), started: false, relief: None },
        RemedyRecord { cause_id: None, started: true, relief: Some("not-established".to_string()) },
        RemedyRecord { cause_id: Some(4), started: false, relief: Some("not-established".to_string()) },
    ];
    let none = RemedyState { executed: false, relieved: false, still_present: false, unestablished: false };
    assert_eq!(
        remedy_state(Some(1), &records),
        RemedyState { executed: true, relieved: true, still_present: false, unestablished: false }
    );
    assert_eq!(
        remedy_state(Some(2), &records),
        RemedyState { executed: true, relieved: false, still_present: true, unestablished: false }
    );
    assert_eq!(
        remedy_state(Some(4), &records),
        RemedyState { executed: false, relieved: false, still_present: false, unestablished: true }
    );
    assert_eq!(remedy_state(Some(3), &records), none);
    assert_eq!(remedy_state(None, &records), none);
    assert_eq!(undo_text(true), "reversible");
    assert_eq!(undo_text(false), "cannot be undone");
    assert_eq!(stage_class(true, true), "stage-completed");
    assert_eq!(stage_class(false, true), "stage-active");
    assert_eq!(stage_class(false, false), "stage-pending");
}
