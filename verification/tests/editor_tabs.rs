use living_canvas::cards::editor::{fresh_draft, Buffer, EditorTab, EditorTabs};

fn tab(content: &str, dirty: bool) -> EditorTab {
    EditorTab {
        draft: None,
        buffer: Buffer {
            content: content.to_string(),
            original_content: content.to_string(),
            dirty,
            expected_sha256: Some("sha".to_string()),
            conflict: None,
            recovered_unsaved: false,
        },
    }
}

fn strip(contents: &[&str], active: usize) -> EditorTabs {
    EditorTabs {
        tabs: contents.iter().map(|c| tab(c, false)).collect(),
        active,
        next_draft: 3,
        pending_close: None,
    }
}

fn contents(t: &EditorTabs) -> Vec<&str> {
    t.tabs.iter().map(|t| t.buffer.content.as_str()).collect()
}

#[test]
fn discarding_another_tab_keeps_the_active_one() {
    let mut t = strip(&["a", "b", "c", "d"], 2);
    t.pending_close = Some(0);
    t.discard_tab(0);
    assert_eq!(contents(&t), vec!["b", "c", "d"]);
    assert_eq!(t.active, 1);
    assert_eq!(t.tabs[t.active].buffer.content, "c");
    assert_eq!(t.pending_close, None);
    assert_eq!(t.next_draft, 3);
}

#[test]
fn discarding_the_active_tab_moves_to_its_neighbour() {
    let mut t = strip(&["a", "b", "c"], 2);
    t.discard_tab(2);
    assert_eq!(contents(&t), vec!["a", "b"]);
    assert_eq!(t.active, 1);
}

#[test]
fn discarding_the_last_tab_opens_a_fresh_draft() {
    let mut t = strip(&["only"], 0);
    t.discard_tab(0);
    assert_eq!(t.tabs.len(), 1);
    assert_eq!(t.tabs[0].draft, Some(3));
    assert_eq!(t.tabs[0].buffer.content, "");
    assert!(!t.tabs[0].buffer.dirty);
    assert_eq!(t.next_draft, 4);
    assert_eq!(t.active, 0);
}

#[test]
fn closing_unsaved_work_waits_for_confirmation() {
    let mut t = strip(&["a", "b"], 0);
    t.tabs[1].buffer.dirty = true;
    t.close_tab(1);
    assert_eq!(t.pending_close, Some(1));
    assert_eq!(contents(&t), vec!["a", "b"]);
    t.close_tab(0);
    assert_eq!(contents(&t), vec!["b"]);
    assert_eq!(t.pending_close, None);
}

#[test]
fn a_new_tab_is_a_numbered_fresh_draft() {
    let mut t = strip(&["a"], 0);
    t.add_tab();
    assert_eq!(t.tabs.len(), 2);
    assert_eq!(t.tabs[1].draft, Some(3));
    assert_eq!(t.active, 1);
    assert_eq!(t.next_draft, 4);
    assert_eq!(fresh_draft(9).draft, Some(9));
}
