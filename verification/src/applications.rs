//! What this desktop can open, and which few of those keep a permanent place in the dock.
//!
//! The dock answers "what do I reach for constantly"; the launcher answers "what exists", grouped
//! behind one button. Both are data, so that a card cannot be added to one and forgotten in the
//! other.

use crate::card::{lemma_key_round_trip, lemma_title_is_not_empty, CardId};
use vstd::prelude::*;

verus! {

/// Where an application belongs in the launcher, in the order the launcher shows the headings.
#[derive(Clone, Copy, Debug, Eq, Ord, PartialEq, PartialOrd, Structural)]
pub enum LauncherCategory {
    /// Managing the machine itself.
    Server,
    /// Working on what is on it.
    Work,
    /// What CYBOU is and what it is doing on somebody's behalf.
    Cybou,
    /// This person's own mail, time and notes.
    Personal,
    /// What Mind holds, for a reader who wants to look.
    Mind,
}

impl LauncherCategory {
    /// Every category, in the order the launcher lists them.
    pub const ALL: [LauncherCategory; 5] = [
        LauncherCategory::Server,
        LauncherCategory::Work,
        LauncherCategory::Cybou,
        LauncherCategory::Personal,
        LauncherCategory::Mind,
    ];

    /// The heading this category is shown under.
    pub open spec fn title_text(self) -> Seq<char> {
        match self {
            LauncherCategory::Server => "Server"@,
            LauncherCategory::Work => "Work"@,
            LauncherCategory::Cybou => "CYBOU"@,
            LauncherCategory::Personal => "Personal"@,
            LauncherCategory::Mind => "Mind"@,
        }
    }

    /// The heading this category is shown under.
    pub fn title(self) -> (r: &'static str)
        ensures
            r@ == self.title_text(),
    {
        match self {
            LauncherCategory::Server => "Server",
            LauncherCategory::Work => "Work",
            LauncherCategory::Cybou => "CYBOU",
            LauncherCategory::Personal => "Personal",
            LauncherCategory::Mind => "Mind",
        }
    }
}

/// One thing a person can open, and where it is filed.
#[derive(Clone, Copy, Debug, Eq, PartialEq, Structural)]
pub struct Application {
    /// The card this opens.
    pub card: CardId,
    /// Where the launcher files it.
    pub category: LauncherCategory,
}

/// The cards that keep a permanent place in the dock: files, a shell, what is running, what it is
/// saying, and how the machine is doing.
pub open spec fn dock_cards() -> Seq<CardId> {
    seq![CardId::FileManager(0), CardId::Shell(0), CardId::Services(0), CardId::SystemLogs(0), CardId::Monitor(0)]
}

/// Everything this desktop can open, grouped for the launcher, in catalogue order.
pub open spec fn catalogue() -> Seq<Application> {
    seq![
        // The machine.
        Application { card: CardId::Services(0), category: LauncherCategory::Server },
        Application { card: CardId::Processes(0), category: LauncherCategory::Server },
        Application { card: CardId::Monitor(0), category: LauncherCategory::Server },
        Application { card: CardId::SystemLogs(0), category: LauncherCategory::Server },
        Application { card: CardId::Storage(0), category: LauncherCategory::Server },
        Application { card: CardId::Network(0), category: LauncherCategory::Server },
        Application { card: CardId::Packages(0), category: LauncherCategory::Server },
        Application { card: CardId::Updates(0), category: LauncherCategory::Server },
        Application { card: CardId::UserSettings(0), category: LauncherCategory::Server },
        Application { card: CardId::Security(0), category: LauncherCategory::Server },
        Application { card: CardId::Backup(0), category: LauncherCategory::Server },
        // The work done on it.
        Application { card: CardId::FileManager(0), category: LauncherCategory::Work },
        Application { card: CardId::Editor(0), category: LauncherCategory::Work },
        Application { card: CardId::Diff(0), category: LauncherCategory::Work },
        Application { card: CardId::Shell(0), category: LauncherCategory::Work },
        Application { card: CardId::Inspector(0), category: LauncherCategory::Work },
        // What CYBOU is doing, and what it makes of the host.
        Application { card: CardId::Insight, category: LauncherCategory::Cybou },
        Application { card: CardId::Operations(0), category: LauncherCategory::Cybou },
        Application { card: CardId::Notifications(0), category: LauncherCategory::Cybou },
        Application { card: CardId::Agents, category: LauncherCategory::Cybou },
        Application { card: CardId::Meaning(0), category: LauncherCategory::Cybou },
        Application { card: CardId::Outline, category: LauncherCategory::Cybou },
        // This person's own things.
        Application { card: CardId::Mail(0), category: LauncherCategory::Personal },
        Application { card: CardId::Calendar(0), category: LauncherCategory::Personal },
        Application { card: CardId::Notes(0), category: LauncherCategory::Personal },
        Application { card: CardId::Contacts(0), category: LauncherCategory::Personal },
        // What Mind holds: reachable, and behind the work rather than in front of it.
        Application { card: CardId::Identity, category: LauncherCategory::Mind },
        Application { card: CardId::Session, category: LauncherCategory::Mind },
        Application { card: CardId::Capabilities, category: LauncherCategory::Mind },
        Application { card: CardId::Journal, category: LauncherCategory::Mind },
        Application { card: CardId::Lifecycle, category: LauncherCategory::Mind },
        Application { card: CardId::Commitments, category: LauncherCategory::Mind },
        Application { card: CardId::SelfModel, category: LauncherCategory::Mind },
        Application { card: CardId::Attention, category: LauncherCategory::Mind },
        Application { card: CardId::Beliefs, category: LauncherCategory::Mind },
        Application { card: CardId::Perception, category: LauncherCategory::Mind },
        Application { card: CardId::Context, category: LauncherCategory::Mind },
        Application { card: CardId::Disclosure, category: LauncherCategory::Mind },
        Application { card: CardId::CognitiveGraph(0), category: LauncherCategory::Mind },
        Application { card: CardId::EventJournal(0), category: LauncherCategory::Mind },
        Application { card: CardId::JournalFeed(0), category: LauncherCategory::Mind },
        Application { card: CardId::Learning(0), category: LauncherCategory::Mind },
    ]
}

/// The cards that keep a permanent place in the dock.
pub fn dock_applications() -> (r: Vec<CardId>)
    ensures
        r@ == dock_cards(),
{
    let mut r: Vec<CardId> = Vec::new();
    r.push(CardId::FileManager(0));
    r.push(CardId::Shell(0));
    r.push(CardId::Services(0));
    r.push(CardId::SystemLogs(0));
    r.push(CardId::Monitor(0));
    assert(r@ =~= dock_cards());
    r
}

/// One catalogue entry.
fn app(card: CardId, category: LauncherCategory) -> (r: Application)
    ensures
        r == (Application { card, category }),
{
    Application { card, category }
}

/// Everything this desktop can open, grouped for the launcher.
pub fn all_applications() -> (r: Vec<Application>)
    ensures
        r@ == catalogue(),
{
    let mut r: Vec<Application> = Vec::new();
    // The machine.
    r.push(app(CardId::Services(0), LauncherCategory::Server));
    r.push(app(CardId::Processes(0), LauncherCategory::Server));
    r.push(app(CardId::Monitor(0), LauncherCategory::Server));
    r.push(app(CardId::SystemLogs(0), LauncherCategory::Server));
    r.push(app(CardId::Storage(0), LauncherCategory::Server));
    r.push(app(CardId::Network(0), LauncherCategory::Server));
    r.push(app(CardId::Packages(0), LauncherCategory::Server));
    r.push(app(CardId::Updates(0), LauncherCategory::Server));
    r.push(app(CardId::UserSettings(0), LauncherCategory::Server));
    r.push(app(CardId::Security(0), LauncherCategory::Server));
    r.push(app(CardId::Backup(0), LauncherCategory::Server));
    // The work done on it.
    r.push(app(CardId::FileManager(0), LauncherCategory::Work));
    r.push(app(CardId::Editor(0), LauncherCategory::Work));
    r.push(app(CardId::Diff(0), LauncherCategory::Work));
    r.push(app(CardId::Shell(0), LauncherCategory::Work));
    r.push(app(CardId::Inspector(0), LauncherCategory::Work));
    // What CYBOU is doing, and what it makes of the host.
    r.push(app(CardId::Insight, LauncherCategory::Cybou));
    r.push(app(CardId::Operations(0), LauncherCategory::Cybou));
    r.push(app(CardId::Notifications(0), LauncherCategory::Cybou));
    r.push(app(CardId::Agents, LauncherCategory::Cybou));
    r.push(app(CardId::Meaning(0), LauncherCategory::Cybou));
    r.push(app(CardId::Outline, LauncherCategory::Cybou));
    // This person's own things.
    r.push(app(CardId::Mail(0), LauncherCategory::Personal));
    r.push(app(CardId::Calendar(0), LauncherCategory::Personal));
    r.push(app(CardId::Notes(0), LauncherCategory::Personal));
    r.push(app(CardId::Contacts(0), LauncherCategory::Personal));
    // What Mind holds: reachable, and behind the work rather than in front of it.
    r.push(app(CardId::Identity, LauncherCategory::Mind));
    r.push(app(CardId::Session, LauncherCategory::Mind));
    r.push(app(CardId::Capabilities, LauncherCategory::Mind));
    r.push(app(CardId::Journal, LauncherCategory::Mind));
    r.push(app(CardId::Lifecycle, LauncherCategory::Mind));
    r.push(app(CardId::Commitments, LauncherCategory::Mind));
    r.push(app(CardId::SelfModel, LauncherCategory::Mind));
    r.push(app(CardId::Attention, LauncherCategory::Mind));
    r.push(app(CardId::Beliefs, LauncherCategory::Mind));
    r.push(app(CardId::Perception, LauncherCategory::Mind));
    r.push(app(CardId::Context, LauncherCategory::Mind));
    r.push(app(CardId::Disclosure, LauncherCategory::Mind));
    r.push(app(CardId::CognitiveGraph(0), LauncherCategory::Mind));
    r.push(app(CardId::EventJournal(0), LauncherCategory::Mind));
    r.push(app(CardId::JournalFeed(0), LauncherCategory::Mind));
    r.push(app(CardId::Learning(0), LauncherCategory::Mind));
    assert(r@ =~= catalogue());
    r
}

/// One catalogue entry.
pub open spec fn is_filed_under(category: LauncherCategory) -> spec_fn(Application) -> bool {
    |a: Application| a.category == category
}

/// Whether the launcher lists `card` anywhere.
pub open spec fn in_launcher(card: CardId) -> bool {
    exists|i: int| 0 <= i < catalogue().len() && #[trigger] catalogue()[i].card == card
}

/// What the launcher shows under one heading, in catalogue order.
pub fn applications_in(category: LauncherCategory) -> (r: Vec<Application>)
    ensures
        r@ == catalogue().filter(is_filed_under(category)),
{
    let catalogue_now = all_applications();
    let mut r: Vec<Application> = Vec::new();
    let mut i: usize = 0;
    let ghost all = catalogue();
    assert(all.take(0) =~= Seq::<Application>::empty());
    while i < 42
        invariant
            all == catalogue(),
            catalogue_now@ == all,
            all.len() == 42,
            i <= 42,
            r@ == all.take(i as int).filter(is_filed_under(category)),
        decreases 42 - i,
    {
        let a = catalogue_now[i];
        proof {
            reveal(Seq::filter);
            assert(all.take(i as int + 1).drop_last() =~= all.take(i as int));
            assert(all.take(i as int + 1).last() == a);
        }
        if a.category == category {
            r.push(a);
        }
        i = i + 1;
    }
    assert(all.take(42) =~= all);
    r
}

/// The catalogue entry at each position.
proof fn lemma_catalogue_entries()
    ensures
        catalogue().len() == 42,
        catalogue()[0] == (Application { card: CardId::Services(0), category: LauncherCategory::Server }),
        catalogue()[1] == (Application { card: CardId::Processes(0), category: LauncherCategory::Server }),
        catalogue()[2] == (Application { card: CardId::Monitor(0), category: LauncherCategory::Server }),
        catalogue()[3] == (Application { card: CardId::SystemLogs(0), category: LauncherCategory::Server }),
        catalogue()[4] == (Application { card: CardId::Storage(0), category: LauncherCategory::Server }),
        catalogue()[5] == (Application { card: CardId::Network(0), category: LauncherCategory::Server }),
        catalogue()[6] == (Application { card: CardId::Packages(0), category: LauncherCategory::Server }),
        catalogue()[7] == (Application { card: CardId::Updates(0), category: LauncherCategory::Server }),
        catalogue()[8] == (Application { card: CardId::UserSettings(0), category: LauncherCategory::Server }),
        catalogue()[9] == (Application { card: CardId::Security(0), category: LauncherCategory::Server }),
        catalogue()[10] == (Application { card: CardId::Backup(0), category: LauncherCategory::Server }),
        catalogue()[11] == (Application { card: CardId::FileManager(0), category: LauncherCategory::Work }),
        catalogue()[12] == (Application { card: CardId::Editor(0), category: LauncherCategory::Work }),
        catalogue()[13] == (Application { card: CardId::Diff(0), category: LauncherCategory::Work }),
        catalogue()[14] == (Application { card: CardId::Shell(0), category: LauncherCategory::Work }),
        catalogue()[15] == (Application { card: CardId::Inspector(0), category: LauncherCategory::Work }),
        catalogue()[16] == (Application { card: CardId::Insight, category: LauncherCategory::Cybou }),
        catalogue()[17] == (Application { card: CardId::Operations(0), category: LauncherCategory::Cybou }),
        catalogue()[18] == (Application { card: CardId::Notifications(0), category: LauncherCategory::Cybou }),
        catalogue()[19] == (Application { card: CardId::Agents, category: LauncherCategory::Cybou }),
        catalogue()[20] == (Application { card: CardId::Meaning(0), category: LauncherCategory::Cybou }),
        catalogue()[21] == (Application { card: CardId::Outline, category: LauncherCategory::Cybou }),
        catalogue()[22] == (Application { card: CardId::Mail(0), category: LauncherCategory::Personal }),
        catalogue()[23] == (Application { card: CardId::Calendar(0), category: LauncherCategory::Personal }),
        catalogue()[24] == (Application { card: CardId::Notes(0), category: LauncherCategory::Personal }),
        catalogue()[25] == (Application { card: CardId::Contacts(0), category: LauncherCategory::Personal }),
        catalogue()[26] == (Application { card: CardId::Identity, category: LauncherCategory::Mind }),
        catalogue()[27] == (Application { card: CardId::Session, category: LauncherCategory::Mind }),
        catalogue()[28] == (Application { card: CardId::Capabilities, category: LauncherCategory::Mind }),
        catalogue()[29] == (Application { card: CardId::Journal, category: LauncherCategory::Mind }),
        catalogue()[30] == (Application { card: CardId::Lifecycle, category: LauncherCategory::Mind }),
        catalogue()[31] == (Application { card: CardId::Commitments, category: LauncherCategory::Mind }),
        catalogue()[32] == (Application { card: CardId::SelfModel, category: LauncherCategory::Mind }),
        catalogue()[33] == (Application { card: CardId::Attention, category: LauncherCategory::Mind }),
        catalogue()[34] == (Application { card: CardId::Beliefs, category: LauncherCategory::Mind }),
        catalogue()[35] == (Application { card: CardId::Perception, category: LauncherCategory::Mind }),
        catalogue()[36] == (Application { card: CardId::Context, category: LauncherCategory::Mind }),
        catalogue()[37] == (Application { card: CardId::Disclosure, category: LauncherCategory::Mind }),
        catalogue()[38] == (Application { card: CardId::CognitiveGraph(0), category: LauncherCategory::Mind }),
        catalogue()[39] == (Application { card: CardId::EventJournal(0), category: LauncherCategory::Mind }),
        catalogue()[40] == (Application { card: CardId::JournalFeed(0), category: LauncherCategory::Mind }),
        catalogue()[41] == (Application { card: CardId::Learning(0), category: LauncherCategory::Mind }),
{
}

/// Where a card is filed in the catalogue, or -1 when it is not there.
spec fn catalogue_position(card: CardId) -> int {
    match card {
        CardId::Services(0) => 0,
        CardId::Processes(0) => 1,
        CardId::Monitor(0) => 2,
        CardId::SystemLogs(0) => 3,
        CardId::Storage(0) => 4,
        CardId::Network(0) => 5,
        CardId::Packages(0) => 6,
        CardId::Updates(0) => 7,
        CardId::UserSettings(0) => 8,
        CardId::Security(0) => 9,
        CardId::Backup(0) => 10,
        CardId::FileManager(0) => 11,
        CardId::Editor(0) => 12,
        CardId::Diff(0) => 13,
        CardId::Shell(0) => 14,
        CardId::Inspector(0) => 15,
        CardId::Insight => 16,
        CardId::Operations(0) => 17,
        CardId::Notifications(0) => 18,
        CardId::Agents => 19,
        CardId::Meaning(0) => 20,
        CardId::Outline => 21,
        CardId::Mail(0) => 22,
        CardId::Calendar(0) => 23,
        CardId::Notes(0) => 24,
        CardId::Contacts(0) => 25,
        CardId::Identity => 26,
        CardId::Session => 27,
        CardId::Capabilities => 28,
        CardId::Journal => 29,
        CardId::Lifecycle => 30,
        CardId::Commitments => 31,
        CardId::SelfModel => 32,
        CardId::Attention => 33,
        CardId::Beliefs => 34,
        CardId::Perception => 35,
        CardId::Context => 36,
        CardId::Disclosure => 37,
        CardId::CognitiveGraph(0) => 38,
        CardId::EventJournal(0) => 39,
        CardId::JournalFeed(0) => 40,
        CardId::Learning(0) => 41,
        _ => -1,
    }
}

/// Each entry sits at its own position.
proof fn lemma_positions()
    ensures
        forall|i: int|
            0 <= i < 42 ==> catalogue_position(#[trigger] catalogue()[i].card) == i,
{
    lemma_catalogue_entries();
    assert forall|i: int| 0 <= i < 42 implies catalogue_position(
        #[trigger] catalogue()[i].card,
    ) == i by {
        assert(i == 0 || i == 1 || i == 2 || i == 3 || i == 4 || i == 5 || i == 6 || i == 7 || i == 8 || i == 9 || i == 10 || i == 11 || i == 12 || i == 13 || i == 14 || i == 15 || i == 16 || i == 17 || i == 18 || i == 19 || i == 20 || i == 21 || i == 22 || i == 23 || i == 24 || i == 25 || i == 26 || i == 27 || i == 28 || i == 29 || i == 30 || i == 31 || i == 32 || i == 33 || i == 34 || i == 35 || i == 36 || i == 37 || i == 38 || i == 39 || i == 40 || i == 41);
    }
}

/// A card with a catalogue position is in the launcher at that position.
proof fn lemma_positioned_card_is_in_launcher(card: CardId)
    requires
        0 <= catalogue_position(card),
    ensures
        in_launcher(card),
        catalogue()[catalogue_position(card)].card == card,
{
    lemma_catalogue_entries();
    let p = catalogue_position(card);
    assert(catalogue()[p].card == card);
}

/// Nothing is filed twice in the launcher.
pub proof fn lemma_nothing_is_filed_twice(i: int, j: int)
    requires
        0 <= i < catalogue().len(),
        0 <= j < catalogue().len(),
        i != j,
    ensures
        catalogue()[i].card != catalogue()[j].card,
{
    lemma_positions();
}

/// The dock is a shortcut, never the only way to something: everything in it is also in the
/// launcher.
pub proof fn lemma_dock_is_in_launcher(k: int)
    requires
        0 <= k < dock_cards().len(),
    ensures
        in_launcher(dock_cards()[k]),
{
    let dock = dock_cards();
    assert(dock[0] == CardId::FileManager(0));
    assert(dock[1] == CardId::Shell(0));
    assert(dock[2] == CardId::Services(0));
    assert(dock[3] == CardId::SystemLogs(0));
    assert(dock[4] == CardId::Monitor(0));
    lemma_positioned_card_is_in_launcher(dock[k]);
}

/// Every system card is one click away in the launcher.
pub proof fn lemma_system_cards_are_in_launcher(card: CardId)
    requires
        card.is_system_card(),
    ensures
        in_launcher(card),
{
    lemma_positioned_card_is_in_launcher(card);
}

/// Every application names a card that can be drawn and restored: its key resolves back to it and
/// it has a title to show.
pub proof fn lemma_applications_restore_through_their_keys(i: int)
    requires
        0 <= i < catalogue().len(),
    ensures
        CardId::card_for_key(catalogue()[i].card.key_text()) == Some(catalogue()[i].card),
        catalogue()[i].card.title_text().len() > 0,
{
    lemma_catalogue_entries();
    let card = catalogue()[i].card;
    lemma_key_round_trip(card);
    lemma_title_is_not_empty(card);
    assert(i == 0 || i == 1 || i == 2 || i == 3 || i == 4 || i == 5 || i == 6 || i == 7 || i == 8 || i == 9 || i == 10 || i == 11 || i == 12 || i == 13 || i == 14 || i == 15 || i == 16 || i == 17 || i == 18 || i == 19 || i == 20 || i == 21 || i == 22 || i == 23 || i == 24 || i == 25 || i == 26 || i == 27 || i == 28 || i == 29 || i == 30 || i == 31 || i == 32 || i == 33 || i == 34 || i == 35 || i == 36 || i == 37 || i == 38 || i == 39 || i == 40 || i == 41);
}

/// No launcher heading is empty.
pub proof fn lemma_every_category_has_something(category: LauncherCategory)
    ensures
        catalogue().filter(is_filed_under(category)).len() > 0,
{
    lemma_catalogue_entries();
    let i: int = match category {
        LauncherCategory::Server => 0,
        LauncherCategory::Work => 11,
        LauncherCategory::Cybou => 16,
        LauncherCategory::Personal => 22,
        LauncherCategory::Mind => 26,
    };
    assert(is_filed_under(category)(catalogue()[i]));
    catalogue().lemma_filter_contains(is_filed_under(category), i);
}

} // verus!
