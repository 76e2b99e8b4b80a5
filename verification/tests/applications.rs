use living_canvas::applications::{all_applications, applications_in, dock_applications, LauncherCategory};
use living_canvas::card::CardId;

#[test]
fn every_application_names_a_card_that_can_actually_be_drawn_and_restored() {
    for application in all_applications() {
        let card = application.card;
        assert_eq!(
            CardId::from_key(card.key()),
            Some(card),
            "{card:?} is filed in the launcher under a key that does not resolve back to it"
        );
        assert!(
            !card.title().is_empty(),
            "{card:?} would appear in the launcher as a blank row"
        );
    }
}

#[test]
fn nothing_is_filed_twice() {
    let mut seen: Vec<CardId> = Vec::new();
    for application in all_applications() {
        assert!(
            !seen.contains(&application.card),
            "{:?} appears in the launcher more than once",
            application.card
        );
        seen.push(application.card);
    }
}

#[test]
fn everything_in_the_dock_is_also_in_the_launcher() {
    for card in dock_applications() {
        assert!(
            all_applications()
                .iter()
                .any(|application| application.card == card),
            "{card:?} is in the dock and nowhere else"
        );
    }
}

#[test]
fn every_mind_card_is_reachable_from_the_launcher() {
    for card in CardId::ALL_SYSTEM_CARDS {
        assert!(
            all_applications()
                .iter()
                .any(|application| application.card == card),
            "{card:?} exists, opens on no first visit, and is in no launcher"
        );
    }
}

#[test]
fn every_category_has_something_in_it() {
    for category in LauncherCategory::ALL {
        assert!(
            !applications_in(category).is_empty(),
            "{category:?} would render as an empty heading"
        );
    }
}

#[test]
fn categories_are_listed_in_launcher_order_with_their_headings() {
    let titles: Vec<&str> = LauncherCategory::ALL.iter().map(|c| c.title()).collect();
    assert_eq!(titles, vec!["Server", "Work", "CYBOU", "Personal", "Mind"]);
}

#[test]
fn a_heading_lists_its_applications_in_catalogue_order() {
    let work: Vec<CardId> = applications_in(LauncherCategory::Work).iter().map(|a| a.card).collect();
    assert_eq!(
        work,
        vec![
            CardId::FileManager(0),
            CardId::Editor(0),
            CardId::Diff(0),
            CardId::Shell(0),
            CardId::Inspector(0)
        ]
    );
    let total: usize = LauncherCategory::ALL.iter().map(|c| applications_in(*c).len()).sum();
    assert_eq!(total, all_applications().len());
    assert_eq!(all_applications().len(), 42);
}

#[test]
fn the_dock_holds_the_five_everyday_tools() {
    assert_eq!(
        dock_applications(),
        vec![
            CardId::FileManager(0),
            CardId::Shell(0),
            CardId::Services(0),
            CardId::SystemLogs(0),
            CardId::Monitor(0)
        ]
    );
}
