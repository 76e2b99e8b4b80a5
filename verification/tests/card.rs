use living_canvas::card::{CardId, CardKind, CardPresentation, PanelRepresentation};

#[test]
fn every_system_card_survives_a_round_trip_through_its_key() {
    for card_id in CardId::ALL_SYSTEM_CARDS {
        assert_eq!(
            CardId::from_key(card_id.key()),
            Some(card_id),
            "{} did not survive its key",
            card_id.title()
        );
        assert!(card_id.is_system(), "{} is not a system card", card_id.key());
    }
}

#[test]
fn card_spec_defaults_and_keys() {
    for card_id in CardId::ALL_SYSTEM_CARDS {
        let spec = card_id.spec();
        assert_eq!(spec.kind, CardKind::System);
        assert!(spec.singleton);
        assert!(spec.movable);
        assert!(spec.resizable);
        assert!(spec.collapsible);
        assert!(!spec.closable);
        assert!(spec.deckable);

        assert!(spec.default_size.0 >= spec.min_size.0);
        assert!(spec.default_size.1 >= spec.min_size.1);
        assert!(spec.default_size.0 <= spec.max_size.0);
        assert!(spec.default_size.1 <= spec.max_size.1);

        let key = card_id.key();
        assert_eq!(CardId::from_key(key), Some(card_id));
    }
}

#[test]
fn dynamic_card_instance_keys_do_not_alias() {
    assert_eq!(CardId::Editor(7).instance_key(), "editor:7");
    assert_ne!(
        CardId::Editor(7).instance_key(),
        CardId::Editor(8).instance_key()
    );
    assert_ne!(
        CardId::FileManager(7).instance_key(),
        CardId::Editor(7).instance_key()
    );
    assert_eq!(CardId::UserSettings(2).instance_key(), "user-settings:2");
    assert_eq!(CardId::Security(3).instance_key(), "security:3");
    assert_eq!(CardId::Backup(4).instance_key(), "backup:4");
    assert_eq!(CardId::Mail(5).instance_key(), "mail:5");
    assert_eq!(CardId::Calendar(6).instance_key(), "calendar:6");
    assert_eq!(CardId::Notes(7).instance_key(), "notes:7");
    assert_eq!(CardId::Contacts(8).instance_key(), "contacts:8");
    assert_eq!(CardId::CognitiveGraph(9).instance_key(), "cognitive-graph:9");
    assert_eq!(CardId::EventJournal(10).instance_key(), "event-journal:10");
    assert_eq!(CardId::Identity.instance_key(), "identity");
}

#[test]
fn instance_keys_write_large_and_zero_instances() {
    assert_eq!(CardId::Shell(0).instance_key(), "shell:0");
    assert_eq!(CardId::FileManager(4294967295).instance_key(), "files:4294967295");
    assert_eq!(CardId::Outline.instance_key(), "outline");
    assert_eq!(CardId::SelfModel.instance_key(), "self");
}

#[test]
fn every_card_type_round_trips_to_its_first_instance() {
    let samples = [
        CardId::Identity, CardId::Session, CardId::Capabilities, CardId::Journal,
        CardId::Lifecycle, CardId::Commitments, CardId::SelfModel, CardId::Attention,
        CardId::Beliefs, CardId::Perception, CardId::Context, CardId::Disclosure,
        CardId::Insight, CardId::Agents, CardId::Shell(3), CardId::FileManager(3),
        CardId::JournalFeed(3), CardId::Editor(3), CardId::Diff(3), CardId::Inspector(3),
        CardId::Operations(3), CardId::Notifications(3), CardId::Services(3),
        CardId::Processes(3), CardId::Monitor(3), CardId::SystemLogs(3), CardId::Storage(3),
        CardId::Network(3), CardId::Packages(3), CardId::Updates(3), CardId::UserSettings(3),
        CardId::Security(3), CardId::Backup(3), CardId::Mail(3), CardId::Calendar(3),
        CardId::Notes(3), CardId::Contacts(3), CardId::CognitiveGraph(3),
        CardId::EventJournal(3), CardId::Meaning(3), CardId::Learning(3), CardId::Outline,
    ];
    for card in samples {
        let back = CardId::from_key(card.key()).expect("every key resolves");
        assert_eq!(back.key(), card.key());
        assert!(!card.title().is_empty());
        assert_eq!(card.is_system(), card.spec().kind == CardKind::System);
    }
}

#[test]
fn legacy_aliases_resolve_and_unknown_keys_do_not() {
    assert_eq!(CardId::from_key("users"), Some(CardId::UserSettings(0)));
    assert_eq!(CardId::from_key("cognitive"), Some(CardId::CognitiveGraph(0)));
    assert_eq!(CardId::from_key("assistant"), Some(CardId::Meaning(0)));
    assert_eq!(CardId::from_key("dialogue"), Some(CardId::Meaning(0)));
    assert_eq!(CardId::from_key("skills"), Some(CardId::Learning(0)));
    assert_eq!(CardId::from_key("adaptation"), Some(CardId::Learning(0)));
    assert_eq!(CardId::from_key("self"), Some(CardId::SelfModel));
    assert_eq!(CardId::from_key("files"), Some(CardId::FileManager(0)));
    assert_eq!(CardId::from_key("terminal"), None);
    assert_eq!(CardId::from_key(""), None);
    assert_eq!(CardId::from_key("Identity"), None);
    assert_eq!(CardId::from_key("editor:7"), None);
}

#[test]
fn a_persisted_key_names_its_instance_and_a_type_key_names_every_instance() {
    assert!(CardId::Editor(7).matches_persisted_key("editor:7"));
    assert!(!CardId::Editor(8).matches_persisted_key("editor:7"));
    assert!(!CardId::FileManager(7).matches_persisted_key("editor:7"));
    assert!(CardId::Editor(8).matches_persisted_key("editor"));
    assert!(CardId::Editor(0).matches_persisted_key("editor"));
    assert!(!CardId::Diff(0).matches_persisted_key("editor"));
    assert!(CardId::Identity.matches_persisted_key("identity"));
    assert!(!CardId::Identity.matches_persisted_key("identity:0"));
    assert!(!CardId::Identity.matches_persisted_key("session"));
}

#[test]
fn titles_read_as_a_person_would() {
    assert_eq!(CardId::SelfModel.title(), "Self-assessment");
    assert_eq!(CardId::Insight.title(), "System Insight");
    assert_eq!(CardId::JournalFeed(2).title(), "Presence Stream");
    assert_eq!(CardId::Storage(0).title(), "Storage & Snapshots");
    assert_eq!(CardId::Outline.title(), "Canvas Outline");
}

#[test]
fn tool_card_bounds_are_those_of_their_type() {
    let editor = CardId::Editor(9).spec();
    assert_eq!(editor.kind, CardKind::Tool);
    assert!(!editor.singleton);
    assert!(editor.closable);
    assert_eq!(editor.default_size, (560, 420));
    assert_eq!(editor.min_size, (360, 240));
    assert_eq!(editor.max_size, (1400, 1000));
    let feed = CardId::JournalFeed(0).spec();
    assert!(!feed.deckable);
    let outline = CardId::Outline.spec();
    assert!(outline.singleton);
    assert_eq!(outline.kind, CardKind::Tool);
    assert_eq!(CardId::Identity.spec().default_size, (220, 188));
}

#[test]
fn representation_cycles_through_all_three_tiers() {
    let start = PanelRepresentation::Standard;
    assert_eq!(start.cycle(), PanelRepresentation::Expanded);
    assert_eq!(start.cycle().cycle(), PanelRepresentation::Glance);
    assert_eq!(start.cycle().cycle().cycle(), start);
    assert_eq!(PanelRepresentation::Glance.label(), "Glance");
    assert_eq!(PanelRepresentation::default(), PanelRepresentation::Standard);
}

#[test]
fn the_card_menu_names_what_each_toggle_would_do() {
    let plain = CardPresentation {
        collapsed: false,
        pinned: false,
        representation: PanelRepresentation::Standard,
    };
    assert_eq!(plain.pin_action(), "Pin position");
    assert_eq!(plain.collapse_action(), "Collapse");
    let folded = CardPresentation { collapsed: true, pinned: true, ..plain };
    assert_eq!(folded.pin_action(), "Unpin position");
    assert_eq!(folded.collapse_action(), "Expand");
}

#[test]
fn only_closable_cards_show_a_close_button() {
    assert!(!CardId::Agents.shows_close_button());
    assert!(!CardId::Identity.shows_close_button());
    assert!(CardId::Editor(0).shows_close_button());
    assert!(CardId::Outline.shows_close_button());
}
