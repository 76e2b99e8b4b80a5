use living_canvas::cards::journal_feed::{
    inspector_text, projection_error_state, PresenceFeed, StreamState, FEED_CAPACITY,
};

fn snapshot(feed: &mut PresenceFeed, n: usize) {
    feed.on_snapshot(format!("12:00:{n:02}"), format!("{{\"seq\":{n}}}"));
}

#[test]
fn a_new_feed_is_connecting_and_empty() {
    let feed = PresenceFeed::new();
    assert_eq!(feed.stream(), StreamState::Connecting);
    assert!(feed.events().is_empty());
    assert!(!feed.paused());
    assert_eq!(feed.status_label(), "◌ Connecting");
    assert_eq!(feed.count_label(), "0 events");
}

#[test]
fn snapshots_are_kept_newest_last_and_the_oldest_drops_past_capacity() {
    let mut feed = PresenceFeed::new();
    for n in 0..FEED_CAPACITY + 5 {
        snapshot(&mut feed, n);
    }
    assert_eq!(feed.events().len(), FEED_CAPACITY);
    assert_eq!(feed.events()[0].payload, "{\"seq\":5}");
    assert_eq!(feed.events()[FEED_CAPACITY - 1].payload, format!("{{\"seq\":{}}}", FEED_CAPACITY + 4));
    assert_eq!(feed.events()[0].topic, "snapshot.update");
    assert_eq!(feed.events()[0].description, "Mind state projection update");
    assert_eq!(feed.stream(), StreamState::Live);
    assert_eq!(feed.count_label(), "100 events");
}

#[test]
fn pausing_keeps_nothing_new_but_the_state_still_follows_the_source() {
    let mut feed = PresenceFeed::new();
    snapshot(&mut feed, 1);
    feed.toggle_pause();
    assert_eq!(feed.status_label(), "⏸ Paused");
    snapshot(&mut feed, 2);
    feed.on_projection_error("12:00:03".to_string(), "{\"retryable\":true}".to_string());
    assert_eq!(feed.events().len(), 1);
    assert_eq!(feed.stream(), StreamState::Stale);
    feed.toggle_pause();
    assert_eq!(feed.status_label(), "◐ Stale");
    feed.on_projection_error("12:00:04".to_string(), "not json".to_string());
    assert_eq!(feed.stream(), StreamState::Unavailable);
    assert_eq!(feed.events().len(), 2);
    assert_eq!(feed.events()[1].topic, "projection.error");
    assert_eq!(feed.events()[1].description, "Presence projection unavailable");
    feed.clear();
    assert!(feed.events().is_empty());
    assert_eq!(feed.stream(), StreamState::Unavailable);
}

#[test]
fn only_an_explicit_retryable_true_makes_the_stream_stale() {
    assert_eq!(projection_error_state("{\"retryable\":true}"), StreamState::Stale);
    assert_eq!(projection_error_state("{\"retryable\":false}"), StreamState::Unavailable);
    assert_eq!(projection_error_state("{\"retryable\":\"yes\"}"), StreamState::Unavailable);
    assert_eq!(projection_error_state("{}"), StreamState::Unavailable);
    assert_eq!(projection_error_state("retryable"), StreamState::Unavailable);
}

#[test]
fn opening_and_failing_set_the_state() {
    let mut feed = PresenceFeed::new();
    feed.on_open();
    assert_eq!(feed.status_label(), "● Live");
    feed.on_unavailable();
    assert_eq!(feed.status_label(), "○ Unavailable");
}

#[test]
fn filter_and_search_let_through_matching_events_in_order() {
    let mut feed = PresenceFeed::new();
    feed.on_snapshot("12:00:01".to_string(), "{\"host\":\"Alpha\"}".to_string());
    feed.on_projection_error("12:00:02".to_string(), "{\"retryable\":false}".to_string());
    feed.on_snapshot("12:00:03".to_string(), "{\"host\":\"beta\"}".to_string());
    assert_eq!(feed.visible_events("all", "").len(), 3);
    let snaps = feed.visible_events("snapshot", "");
    assert_eq!(snaps.len(), 2);
    assert_eq!(snaps[0].time, "12:00:01");
    assert_eq!(snaps[1].time, "12:00:03");
    assert_eq!(feed.visible_events("projection.error", "").len(), 1);
    let alpha = feed.visible_events("all", "ALPHA");
    assert_eq!(alpha.len(), 1);
    assert_eq!(alpha[0].time, "12:00:01");
    assert_eq!(feed.visible_events("snapshot", "retryable").len(), 0);
    assert_eq!(feed.visible_events("all", "12:00:0").len(), 3);
    assert_eq!(feed.visible_events("Snapshot", "unavailable").len(), 0);
}

#[test]
fn the_inspector_lays_out_json_and_shows_anything_else_as_it_came() {
    assert_eq!(inspector_text("{\"a\":1}"), "{\n  \"a\": 1\n}");
    assert_eq!(inspector_text("not json"), "not json");
}
