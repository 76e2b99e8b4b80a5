use living_canvas::cards::editor::{
    accept_reviewed_base, active_after_discard, conflict_comparison, use_server_version, created_message, edit, merge_recovered_drafts,
    record_save_as, save_as_refusal, save_button, saved_name,
};
use living_canvas::card::CardId;
use living_canvas::cards::editor::{
    needs_card_close_confirmation, needs_close_confirmation, record_conflict, record_save,
    recovery_message, save_message, save_refusal_message, save_route, Buffer, SaveRoute,
};

fn buffer(content: &str, dirty: bool, sha: Option<&str>) -> Buffer {
    Buffer {
        content: content.to_string(),
        original_content: String::new(),
        dirty,
        expected_sha256: sha.map(|s| s.to_string()),
        conflict: None,
        recovered_unsaved: true,
    }
}

#[test]
fn only_lost_work_asks_before_closing() {
    assert!(!needs_close_confirmation(&buffer("x", false, None)));
    assert!(needs_close_confirmation(&buffer("x", true, None)));
    let mut conflicted = buffer("x", false, None);
    record_conflict(&mut conflicted, "y".to_string(), "sha-y".to_string());
    assert!(needs_close_confirmation(&conflicted));
}

#[test]
fn only_an_editor_card_with_lost_work_asks_before_closing() {
    assert!(needs_card_close_confirmation(CardId::Editor(0), &vec![(false, false), (true, false)]));
    assert!(needs_card_close_confirmation(CardId::Editor(2), &vec![(false, true)]));
    assert!(!needs_card_close_confirmation(CardId::Editor(0), &vec![(false, false)]));
    assert!(!needs_card_close_confirmation(CardId::Editor(0), &vec![]));
    assert!(!needs_card_close_confirmation(CardId::Diff(0), &vec![(true, true)]));
}

#[test]
fn saves_go_where_the_location_allows() {
    let with_version = buffer("text", true, Some("sha-1"));
    assert!(matches!(save_route(true, true, &with_version), SaveRoute::Propose));
    match save_route(false, true, &with_version) {
        SaveRoute::Write { expected_sha256, text } => {
            assert_eq!(expected_sha256, "sha-1");
            assert_eq!(text, "text");
        }
        other => panic!("expected a write, got {other:?}"),
    }
    let without = buffer("text", true, None);
    let refused = save_route(false, true, &without);
    assert!(matches!(refused, SaveRoute::Refused));
    assert_eq!(
        save_refusal_message(&refused),
        Some("Save refused — this buffer has no server-established content version.")
    );
    let elsewhere = save_route(false, false, &with_version);
    assert!(matches!(elsewhere, SaveRoute::Unavailable));
    assert_eq!(
        save_refusal_message(&elsewhere),
        Some("Save unavailable for this location domain. Changes remain only in this open editor buffer.")
    );
    assert_eq!(save_refusal_message(&SaveRoute::Propose), None);
}

#[test]
fn a_verified_save_settles_the_buffer() {
    let mut b = buffer("new", true, Some("old-sha"));
    record_conflict(&mut b, "server".to_string(), "server-sha".to_string());
    let changed = record_save(&mut b, "new", "new-sha".to_string());
    assert!(!changed);
    assert!(!b.dirty);
    assert!(b.conflict.is_none());
    assert!(!b.recovered_unsaved);
    assert_eq!(b.original_content, "new");
    assert_eq!(b.expected_sha256.as_deref(), Some("new-sha"));
    assert!(!needs_close_confirmation(&b));
}

#[test]
fn edits_made_during_a_save_stay_unsaved() {
    let mut b = buffer("newer", true, Some("old-sha"));
    let changed = record_save(&mut b, "new", "new-sha".to_string());
    assert!(changed);
    assert!(b.dirty);
    assert_eq!(b.content, "newer");
    assert_eq!(save_message(3, changed), "Saved and verified (3 bytes); newer buffer changes remain unsaved.");
    assert_eq!(save_message(1024, false), "Saved and verified (1024 bytes).");
}

#[test]
fn recovery_reports_conflicts_by_number() {
    assert_eq!(recovery_message(0), "Recovered durable editor drafts with current authority.");
    assert_eq!(
        recovery_message(2),
        "Recovered durable editor drafts; 2 changed on the server and require conflict review."
    );
}

#[test]
fn a_conflict_opens_a_read_only_comparison() {
    let mut b = buffer("mine", true, Some("sha"));
    assert!(conflict_comparison("/srv/a.conf", &b).is_none());
    record_conflict(&mut b, "theirs".to_string(), "sha-2".to_string());
    let cmp = conflict_comparison("/srv/a.conf", &b).expect("a conflict to compare");
    assert_eq!(cmp.title, "Concurrent changes — /srv/a.conf");
    assert_eq!(cmp.original_label, "Current server version");
    assert_eq!(cmp.proposed_label, "Unsaved editor buffer");
    assert_eq!(cmp.original_content, "theirs");
    assert_eq!(cmp.proposed_content, "mine");
    assert_eq!(
        cmp.status,
        "Read-only comparison. Resolve the conflict explicitly in the editor; no file has been changed."
    );
}

#[test]
fn editing_marks_the_buffer_dirty_only_when_it_differs() {
    let mut b = buffer("", false, Some("sha"));
    b.recovered_unsaved = false;
    b.original_content = "hello".to_string();
    edit(&mut b, "hello!".to_string());
    assert!(b.dirty);
    edit(&mut b, "hello".to_string());
    assert!(!b.dirty);
    b.recovered_unsaved = true;
    edit(&mut b, "hello".to_string());
    assert!(b.dirty);
}

#[test]
fn save_as_names_the_buffer_after_the_path() {
    assert_eq!(saved_name("notes/today.md"), "today.md");
    assert_eq!(saved_name("today.md"), "today.md");
    assert_eq!(saved_name("notes/"), "");
    let mut b = buffer("draft", true, None);
    let name = record_save_as(&mut b, "a/b/plan.md", "draft", "sha-new".to_string());
    assert_eq!(name, "plan.md");
    assert_eq!(b.original_content, "draft");
    assert!(!b.dirty);
    assert!(!b.recovered_unsaved);
    assert_eq!(b.expected_sha256.as_deref(), Some("sha-new"));
    let mut edited = buffer("draft, edited meanwhile", true, None);
    record_save_as(&mut edited, "plan.md", "draft", "sha-new".to_string());
    assert!(edited.dirty);
}

#[test]
fn save_as_needs_a_path() {
    assert_eq!(save_as_refusal("  "), Some("Save As requires a relative jail path."));
    assert_eq!(save_as_refusal("notes/plan.md"), None);
    assert_eq!(created_message(42), "Created and verified (42 bytes).");
}

#[test]
fn discarding_a_tab_keeps_a_sensible_tab_active() {
    // The last tab is replaced, so the only tab is active.
    assert_eq!(active_after_discard(1, 0, 0), 0);
    // A tab before the active one: the active tab moves down by one.
    assert_eq!(active_after_discard(4, 0, 2), 1);
    // The active tab itself: its right neighbour takes its place, or the new last tab.
    assert_eq!(active_after_discard(4, 1, 1), 1);
    assert_eq!(active_after_discard(4, 3, 3), 2);
    // A tab after the active one: nothing moves.
    assert_eq!(active_after_discard(4, 3, 1), 1);
}

#[test]
fn only_unsaved_work_without_a_conflict_can_be_saved() {
    assert_eq!(save_button(true, false, false), (true, "Save"));
    assert_eq!(save_button(true, false, true), (true, "Save As"));
    assert_eq!(save_button(false, false, false), (false, "Save"));
    assert_eq!(save_button(true, true, false), (false, "Save"));
}

#[test]
fn recovered_drafts_are_added_once() {
    let ids = |v: &[&str]| v.iter().map(|s| s.to_string()).collect::<Vec<String>>();
    let m = merge_recovered_drafts(&ids(&["d1"]), false, &ids(&["d1", "d2", "d3"]));
    assert_eq!(m.added, vec![1, 2]);
    assert!(!m.replace);
    let m = merge_recovered_drafts(&ids(&["draft-0"]), true, &ids(&["d2"]));
    assert_eq!(m.added, vec![0]);
    assert!(m.replace);
    let m = merge_recovered_drafts(&ids(&["d2"]), true, &ids(&["d2"]));
    assert!(m.added.is_empty());
    assert!(!m.replace);
}

#[test]
fn a_reviewed_base_keeps_the_buffer_and_settles_the_conflict() {
    let mut b = buffer("mine", false, Some("sha-old"));
    record_conflict(&mut b, "theirs".to_string(), "sha-theirs".to_string());
    let said = accept_reviewed_base(&mut b);
    assert!(said.starts_with("Reviewed server version accepted"));
    assert_eq!(b.content, "mine");
    assert!(b.conflict.is_none());
    assert_eq!(b.expected_sha256.as_deref(), Some("sha-theirs"));
    assert!(b.dirty);
    let mut same = buffer("theirs", true, Some("sha-old"));
    record_conflict(&mut same, "theirs".to_string(), "sha-theirs".to_string());
    accept_reviewed_base(&mut same);
    assert!(!same.dirty);
}

#[test]
fn using_the_server_version_discards_the_buffer() {
    let mut b = buffer("mine", true, Some("sha-old"));
    record_conflict(&mut b, "theirs".to_string(), "sha-theirs".to_string());
    let said = use_server_version(&mut b);
    assert_eq!(
        said,
        "Verified server version loaded; local unsaved changes were discarded by explicit confirmation."
    );
    assert_eq!(b.content, "theirs");
    assert_eq!(b.original_content, "theirs");
    assert_eq!(b.expected_sha256.as_deref(), Some("sha-theirs"));
    assert!(!b.dirty);
    assert!(b.conflict.is_none());
}
