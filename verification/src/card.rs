//! The card model: which surfaces the desktop can show, how each is named in saved layouts and
//! routes, what it is called on screen, and the static bounds of each card type.

use crate::text::{append_decimal, decimal_text, has_char, lemma_decimal_text, lemma_decimal_text_injective, push_char, same_text};
use vstd::prelude::*;

verus! {

/// Stable identifier for a card instance on the desktop.
///
/// System cards exist once; tool cards carry an instance number so that several of one type can be
/// open side by side.
#[derive(Clone, Copy, Debug, PartialEq, Eq, Structural, Hash, PartialOrd, Ord)]
pub enum CardId {
    /// Identity1 subject continuity projection.
    Identity,
    /// Established trust and gateway session mode.
    Session,
    /// Health1 capability dependency and health projection.
    Capabilities,
    /// Event1 canonical Journal feed and integrity.
    Journal,
    /// Lifecycle1 sleep/wake and consolidation state.
    Lifecycle,
    /// Intention1 open obligations and commitments.
    Commitments,
    /// Self1 autobiographical assessment and narration.
    SelfModel,
    /// Workspace1 Global Workspace Theory attention focus.
    Attention,
    /// Epistemic1 derived beliefs and validity.
    Beliefs,
    /// Perception1 host observations.
    Perception,
    /// Context1 associative context graph.
    Context,
    /// What this reader was supplied, and what was kept from them.
    Disclosure,
    /// Telemetry1: what this host makes of itself, and what it would offer to do.
    Insight,
    /// Agent1: what is running in a capsule, on whose say-so, and with what left to spend.
    Agents,
    /// Dynamic bounded CYBOU Shell instance.
    Shell(u32),
    /// Dynamic bounded File Manager instance.
    FileManager(u32),
    /// Real-time Journal event stream.
    JournalFeed(u32),
    /// Text, code, and configuration editor instance.
    Editor(u32),
    /// Universal diff inspector and review panel.
    Diff(u32),
    /// Universal contextual entity inspector panel.
    Inspector(u32),
    /// Server-owned background operations and tasks monitor.
    Operations(u32),
    /// Real-time attention, evidence, system, and agent notifications center.
    Notifications(u32),
    /// System services and daemons manager.
    Services(u32),
    /// Operating system processes manager.
    Processes(u32),
    /// Hardware telemetry and resource monitor.
    Monitor(u32),
    /// System and journald log viewer.
    SystemLogs(u32),
    /// Btrfs storage subvolumes and point-in-time snapshots manager.
    Storage(u32),
    /// Network interfaces, Wi-Fi, and VPN tunnels manager.
    Network(u32),
    /// Software package repository search and installation manager.
    Packages(u32),
    /// Governed system and kernel updates manager.
    Updates(u32),
    /// User accounts, PAM profile, and SSH authorized keys settings.
    UserSettings(u32),
    /// System sandboxing policy and security audit log.
    Security(u32),
    /// Automated Borg deduplicating backups and snapshot archives.
    Backup(u32),
    /// Personal electronic mail client.
    Mail(u32),
    /// Personal calendar and cognitive event scheduler.
    Calendar(u32),
    /// Personal Markdown knowledge notes with cognitive subject links.
    Notes(u32),
    /// Personal address book and subject contacts directory.
    Contacts(u32),
    /// Deep unified Cognitive Graph and causal DAG explorer.
    CognitiveGraph(u32),
    /// Canonical Event1 chronological journal viewer.
    EventJournal(u32),
    /// Deterministic Meaning1 natural language interpreter and qualified dialogue assistant.
    Meaning(u32),
    /// Lifelong learning candidate evaluation, artifact lineages, and capability governance.
    Learning(u32),
    /// Canvas Outline non-spatial accessibility tree view.
    Outline,
}

/// Architectural class of a card.
#[derive(Clone, Copy, Debug, PartialEq, Eq, Structural)]
pub enum CardKind {
    /// Persistent Mind and cognitive projection surfaces.
    System,
    /// Interactive capabilities and tools.
    Tool,
    /// Ephemeral preview, search result, or inspection card.
    Ephemeral,
}

/// Static capabilities and bounds of a card type, with sizes in whole pixels.
#[derive(Clone, Copy, Debug, PartialEq, Eq)]
pub struct CardSpec {
    /// The architectural category of this card.
    pub kind: CardKind,
    /// Only one instance may exist if true.
    pub singleton: bool,
    /// Can be repositioned spatially.
    pub movable: bool,
    /// Can be resized by the user.
    pub resizable: bool,
    /// Can be collapsed into a compact header pill.
    pub collapsible: bool,
    /// Can be closed without destroying canonical state.
    pub closable: bool,
    /// Can be grouped into tabbed decks.
    pub deckable: bool,
    /// Default width and height.
    pub default_size: (u32, u32),
    /// Minimum width and height.
    pub min_size: (u32, u32),
    /// Maximum width and height.
    pub max_size: (u32, u32),
}

impl CardId {
    /// All fourteen canonical system cards.
    pub const ALL_SYSTEM_CARDS: [CardId; 14] = [
        CardId::Identity,
        CardId::Session,
        CardId::Capabilities,
        CardId::Journal,
        CardId::Lifecycle,
        CardId::Commitments,
        CardId::SelfModel,
        CardId::Attention,
        CardId::Beliefs,
        CardId::Perception,
        CardId::Context,
        CardId::Disclosure,
        CardId::Insight,
        CardId::Agents,
    ];

    /// The instance number of a tool card; system cards and the outline have none.
    pub open spec fn instance_number(self) -> Option<u32> {
        match self {
            CardId::Shell(i) => Some(i),
            CardId::FileManager(i) => Some(i),
            CardId::JournalFeed(i) => Some(i),
            CardId::Editor(i) => Some(i),
            CardId::Diff(i) => Some(i),
            CardId::Inspector(i) => Some(i),
            CardId::Operations(i) => Some(i),
            CardId::Notifications(i) => Some(i),
            CardId::Services(i) => Some(i),
            CardId::Processes(i) => Some(i),
            CardId::Monitor(i) => Some(i),
            CardId::SystemLogs(i) => Some(i),
            CardId::Storage(i) => Some(i),
            CardId::Network(i) => Some(i),
            CardId::Packages(i) => Some(i),
            CardId::Updates(i) => Some(i),
            CardId::UserSettings(i) => Some(i),
            CardId::Security(i) => Some(i),
            CardId::Backup(i) => Some(i),
            CardId::Mail(i) => Some(i),
            CardId::Calendar(i) => Some(i),
            CardId::Notes(i) => Some(i),
            CardId::Contacts(i) => Some(i),
            CardId::CognitiveGraph(i) => Some(i),
            CardId::EventJournal(i) => Some(i),
            CardId::Meaning(i) => Some(i),
            CardId::Learning(i) => Some(i),
            _ => None,
        }
    }

    /// The first instance of this card's type: the card itself when it has no instance number.
    pub open spec fn type_default(self) -> CardId {
        match self {
            CardId::Shell(_) => CardId::Shell(0),
            CardId::FileManager(_) => CardId::FileManager(0),
            CardId::JournalFeed(_) => CardId::JournalFeed(0),
            CardId::Editor(_) => CardId::Editor(0),
            CardId::Diff(_) => CardId::Diff(0),
            CardId::Inspector(_) => CardId::Inspector(0),
            CardId::Operations(_) => CardId::Operations(0),
            CardId::Notifications(_) => CardId::Notifications(0),
            CardId::Services(_) => CardId::Services(0),
            CardId::Processes(_) => CardId::Processes(0),
            CardId::Monitor(_) => CardId::Monitor(0),
            CardId::SystemLogs(_) => CardId::SystemLogs(0),
            CardId::Storage(_) => CardId::Storage(0),
            CardId::Network(_) => CardId::Network(0),
            CardId::Packages(_) => CardId::Packages(0),
            CardId::Updates(_) => CardId::Updates(0),
            CardId::UserSettings(_) => CardId::UserSettings(0),
            CardId::Security(_) => CardId::Security(0),
            CardId::Backup(_) => CardId::Backup(0),
            CardId::Mail(_) => CardId::Mail(0),
            CardId::Calendar(_) => CardId::Calendar(0),
            CardId::Notes(_) => CardId::Notes(0),
            CardId::Contacts(_) => CardId::Contacts(0),
            CardId::CognitiveGraph(_) => CardId::CognitiveGraph(0),
            CardId::EventJournal(_) => CardId::EventJournal(0),
            CardId::Meaning(_) => CardId::Meaning(0),
            CardId::Learning(_) => CardId::Learning(0),
            _ => self,
        }
    }

    /// The canonical type key.
    pub open spec fn key_text(self) -> Seq<char> {
        match self {
            CardId::Identity => "identity"@,
            CardId::Session => "session"@,
            CardId::Capabilities => "capabilities"@,
            CardId::Journal => "journal"@,
            CardId::Lifecycle => "lifecycle"@,
            CardId::Commitments => "commitments"@,
            CardId::SelfModel => "self"@,
            CardId::Attention => "attention"@,
            CardId::Beliefs => "beliefs"@,
            CardId::Perception => "perception"@,
            CardId::Context => "context"@,
            CardId::Disclosure => "disclosure"@,
            CardId::Insight => "insight"@,
            CardId::Agents => "agents"@,
            CardId::Shell(_) => "shell"@,
            CardId::FileManager(_) => "files"@,
            CardId::JournalFeed(_) => "journal-feed"@,
            CardId::Editor(_) => "editor"@,
            CardId::Diff(_) => "diff"@,
            CardId::Inspector(_) => "inspector"@,
            CardId::Operations(_) => "operations"@,
            CardId::Notifications(_) => "notifications"@,
            CardId::Services(_) => "services"@,
            CardId::Processes(_) => "processes"@,
            CardId::Monitor(_) => "monitor"@,
            CardId::SystemLogs(_) => "system-logs"@,
            CardId::Storage(_) => "storage"@,
            CardId::Network(_) => "network"@,
            CardId::Packages(_) => "packages"@,
            CardId::Updates(_) => "updates"@,
            CardId::UserSettings(_) => "user-settings"@,
            CardId::Security(_) => "security"@,
            CardId::Backup(_) => "backup"@,
            CardId::Mail(_) => "mail"@,
            CardId::Calendar(_) => "calendar"@,
            CardId::Notes(_) => "notes"@,
            CardId::Contacts(_) => "contacts"@,
            CardId::CognitiveGraph(_) => "cognitive-graph"@,
            CardId::EventJournal(_) => "event-journal"@,
            CardId::Meaning(_) => "meaning"@,
            CardId::Learning(_) => "learning"@,
            CardId::Outline => "outline"@,
        }
    }

    /// The key of this exact instance: the type key, a colon and the instance number for tool
    /// cards; the type key alone otherwise.
    pub open spec fn instance_key_text(self) -> Seq<char> {
        match self.instance_number() {
            Some(i) => self.key_text().push(':') + decimal_text(i as nat),
            None => self.key_text(),
        }
    }

    /// Whether a persisted identity names this exact instance: its instance key, or a type key
    /// without any colon, as layouts wrote before instance keys existed.
    pub open spec fn persisted_key_matches(self, persisted: Seq<char>) -> bool {
        persisted == self.instance_key_text() || (!persisted.contains(':') && persisted
            == self.key_text())
    }

    /// The human-readable title.
    pub open spec fn title_text(self) -> Seq<char> {
        match self {
            CardId::Identity => "Identity"@,
            CardId::Session => "Session"@,
            CardId::Capabilities => "Capabilities"@,
            CardId::Journal => "Journal"@,
            CardId::Lifecycle => "Lifecycle"@,
            CardId::Commitments => "Commitments"@,
            CardId::SelfModel => "Self-assessment"@,
            CardId::Attention => "Attention"@,
            CardId::Beliefs => "Beliefs"@,
            CardId::Perception => "Perception"@,
            CardId::Context => "Context"@,
            CardId::Disclosure => "Disclosure"@,
            CardId::Insight => "System Insight"@,
            CardId::Agents => "Agents"@,
            CardId::Shell(_) => "Shell"@,
            CardId::FileManager(_) => "File Manager"@,
            CardId::JournalFeed(_) => "Presence Stream"@,
            CardId::Editor(_) => "Text Editor"@,
            CardId::Diff(_) => "Diff Viewer"@,
            CardId::Inspector(_) => "Universal Inspector"@,
            CardId::Operations(_) => "Operations"@,
            CardId::Notifications(_) => "Notifications"@,
            CardId::Services(_) => "Services"@,
            CardId::Processes(_) => "Processes"@,
            CardId::Monitor(_) => "System Monitor"@,
            CardId::SystemLogs(_) => "System Logs"@,
            CardId::Storage(_) => "Storage & Snapshots"@,
            CardId::Network(_) => "Network Connections"@,
            CardId::Packages(_) => "Package Manager"@,
            CardId::Updates(_) => "System Updates"@,
            CardId::UserSettings(_) => "Users & SSH Keys"@,
            CardId::Security(_) => "Security & Sandboxing"@,
            CardId::Backup(_) => "Backup & Vault"@,
            CardId::Mail(_) => "Mail & Messages"@,
            CardId::Calendar(_) => "Calendar & Schedule"@,
            CardId::Notes(_) => "Notes & Ideas"@,
            CardId::Contacts(_) => "Contacts Directory"@,
            CardId::CognitiveGraph(_) => "Cognitive Graph & Causal DAG"@,
            CardId::EventJournal(_) => "Canonical Event1 Journal"@,
            CardId::Meaning(_) => "Meaning & Dialogue Assistant"@,
            CardId::Learning(_) => "Lifelong Learning & Governance"@,
            CardId::Outline => "Canvas Outline"@,
        }
    }

    /// The card a key resolves to: the first instance of its type, or nothing for an unknown key.
    pub open spec fn card_for_key(key: Seq<char>) -> Option<CardId> {
        if key == "identity"@ {
            Some(CardId::Identity)
        }
        else if key == "session"@ {
            Some(CardId::Session)
        }
        else if key == "capabilities"@ {
            Some(CardId::Capabilities)
        }
        else if key == "journal"@ {
            Some(CardId::Journal)
        }
        else if key == "lifecycle"@ {
            Some(CardId::Lifecycle)
        }
        else if key == "commitments"@ {
            Some(CardId::Commitments)
        }
        else if key == "self"@ {
            Some(CardId::SelfModel)
        }
        else if key == "attention"@ {
            Some(CardId::Attention)
        }
        else if key == "beliefs"@ {
            Some(CardId::Beliefs)
        }
        else if key == "perception"@ {
            Some(CardId::Perception)
        }
        else if key == "context"@ {
            Some(CardId::Context)
        }
        else if key == "disclosure"@ {
            Some(CardId::Disclosure)
        }
        else if key == "insight"@ {
            Some(CardId::Insight)
        }
        else if key == "agents"@ {
            Some(CardId::Agents)
        }
        else if key == "shell"@ {
            Some(CardId::Shell(0))
        }
        else if key == "files"@ {
            Some(CardId::FileManager(0))
        }
        else if key == "journal-feed"@ {
            Some(CardId::JournalFeed(0))
        }
        else if key == "editor"@ {
            Some(CardId::Editor(0))
        }
        else if key == "diff"@ {
            Some(CardId::Diff(0))
        }
        else if key == "inspector"@ {
            Some(CardId::Inspector(0))
        }
        else if key == "operations"@ {
            Some(CardId::Operations(0))
        }
        else if key == "notifications"@ {
            Some(CardId::Notifications(0))
        }
        else if key == "services"@ {
            Some(CardId::Services(0))
        }
        else if key == "processes"@ {
            Some(CardId::Processes(0))
        }
        else if key == "monitor"@ {
            Some(CardId::Monitor(0))
        }
        else if key == "system-logs"@ {
            Some(CardId::SystemLogs(0))
        }
        else if key == "storage"@ {
            Some(CardId::Storage(0))
        }
        else if key == "network"@ {
            Some(CardId::Network(0))
        }
        else if key == "packages"@ {
            Some(CardId::Packages(0))
        }
        else if key == "updates"@ {
            Some(CardId::Updates(0))
        }
        else if key == "user-settings"@ || key == "users"@ {
            Some(CardId::UserSettings(0))
        }
        else if key == "security"@ {
            Some(CardId::Security(0))
        }
        else if key == "backup"@ {
            Some(CardId::Backup(0))
        }
        else if key == "mail"@ {
            Some(CardId::Mail(0))
        }
        else if key == "calendar"@ {
            Some(CardId::Calendar(0))
        }
        else if key == "notes"@ {
            Some(CardId::Notes(0))
        }
        else if key == "contacts"@ {
            Some(CardId::Contacts(0))
        }
        else if key == "cognitive-graph"@ || key == "cognitive"@ {
            Some(CardId::CognitiveGraph(0))
        }
        else if key == "event-journal"@ {
            Some(CardId::EventJournal(0))
        }
        else if key == "meaning"@ || key == "assistant"@ || key == "dialogue"@ {
            Some(CardId::Meaning(0))
        }
        else if key == "learning"@ || key == "skills"@ || key == "adaptation"@ {
            Some(CardId::Learning(0))
        }
        else if key == "outline"@ {
            Some(CardId::Outline)
        }
        else {
            None
        }
    }

    /// Whether this is one of the permanent system Mind cards.
    pub open spec fn is_system_card(self) -> bool {
        match self {
            CardId::Identity => true,
            CardId::Session => true,
            CardId::Capabilities => true,
            CardId::Journal => true,
            CardId::Lifecycle => true,
            CardId::Commitments => true,
            CardId::SelfModel => true,
            CardId::Attention => true,
            CardId::Beliefs => true,
            CardId::Perception => true,
            CardId::Context => true,
            CardId::Disclosure => true,
            CardId::Insight => true,
            CardId::Agents => true,
            _ => false,
        }
    }

    /// The static capabilities and bounds of this card's type.
    pub open spec fn layout_bounds(self) -> CardSpec {
        match self {
            CardId::Identity => CardSpec { kind: CardKind::System, singleton: true, movable: true, resizable: true, collapsible: true, closable: false, deckable: true, default_size: (220, 188), min_size: (180, 140), max_size: (450, 400) },
            CardId::Session => CardSpec { kind: CardKind::System, singleton: true, movable: true, resizable: true, collapsible: true, closable: false, deckable: true, default_size: (240, 236), min_size: (200, 160), max_size: (450, 450) },
            CardId::Capabilities => CardSpec { kind: CardKind::System, singleton: true, movable: true, resizable: true, collapsible: true, closable: false, deckable: true, default_size: (390, 294), min_size: (280, 200), max_size: (650, 600) },
            CardId::Journal => CardSpec { kind: CardKind::System, singleton: true, movable: true, resizable: true, collapsible: true, closable: false, deckable: true, default_size: (300, 285), min_size: (240, 180), max_size: (600, 600) },
            CardId::Lifecycle => CardSpec { kind: CardKind::System, singleton: true, movable: true, resizable: true, collapsible: true, closable: false, deckable: true, default_size: (335, 252), min_size: (260, 180), max_size: (550, 500) },
            CardId::Commitments => CardSpec { kind: CardKind::System, singleton: true, movable: true, resizable: true, collapsible: true, closable: false, deckable: true, default_size: (310, 184), min_size: (240, 140), max_size: (500, 400) },
            CardId::SelfModel => CardSpec { kind: CardKind::System, singleton: true, movable: true, resizable: true, collapsible: true, closable: false, deckable: true, default_size: (330, 210), min_size: (260, 150), max_size: (550, 450) },
            CardId::Attention => CardSpec { kind: CardKind::System, singleton: true, movable: true, resizable: true, collapsible: true, closable: false, deckable: true, default_size: (320, 170), min_size: (240, 130), max_size: (500, 400) },
            CardId::Beliefs => CardSpec { kind: CardKind::System, singleton: true, movable: true, resizable: true, collapsible: true, closable: false, deckable: true, default_size: (330, 260), min_size: (260, 180), max_size: (550, 550) },
            CardId::Perception => CardSpec { kind: CardKind::System, singleton: true, movable: true, resizable: true, collapsible: true, closable: false, deckable: true, default_size: (330, 170), min_size: (260, 140), max_size: (500, 400) },
            CardId::Context => CardSpec { kind: CardKind::System, singleton: true, movable: true, resizable: true, collapsible: true, closable: false, deckable: true, default_size: (330, 200), min_size: (260, 160), max_size: (550, 500) },
            CardId::Disclosure => CardSpec { kind: CardKind::System, singleton: true, movable: true, resizable: true, collapsible: true, closable: false, deckable: true, default_size: (360, 260), min_size: (280, 180), max_size: (620, 620) },
            CardId::Insight => CardSpec { kind: CardKind::System, singleton: true, movable: true, resizable: true, collapsible: true, closable: false, deckable: true, default_size: (420, 340), min_size: (300, 200), max_size: (720, 720) },
            CardId::Agents => CardSpec { kind: CardKind::System, singleton: true, movable: true, resizable: true, collapsible: true, closable: false, deckable: true, default_size: (420, 320), min_size: (300, 200), max_size: (720, 720) },
            CardId::Shell(_) => CardSpec { kind: CardKind::Tool, singleton: false, movable: true, resizable: true, collapsible: true, closable: true, deckable: true, default_size: (440, 290), min_size: (320, 200), max_size: (800, 600) },
            CardId::FileManager(_) => CardSpec { kind: CardKind::Tool, singleton: false, movable: true, resizable: true, collapsible: true, closable: true, deckable: true, default_size: (560, 380), min_size: (360, 240), max_size: (1200, 800) },
            CardId::JournalFeed(_) => CardSpec { kind: CardKind::Tool, singleton: false, movable: true, resizable: true, collapsible: true, closable: true, deckable: false, default_size: (580, 360), min_size: (360, 240), max_size: (1200, 800) },
            CardId::Editor(_) => CardSpec { kind: CardKind::Tool, singleton: false, movable: true, resizable: true, collapsible: true, closable: true, deckable: true, default_size: (560, 420), min_size: (360, 240), max_size: (1400, 1000) },
            CardId::Diff(_) => CardSpec { kind: CardKind::Tool, singleton: false, movable: true, resizable: true, collapsible: true, closable: true, deckable: true, default_size: (640, 440), min_size: (400, 260), max_size: (1600, 1100) },
            CardId::Inspector(_) => CardSpec { kind: CardKind::Tool, singleton: false, movable: true, resizable: true, collapsible: true, closable: true, deckable: true, default_size: (380, 480), min_size: (280, 320), max_size: (800, 900) },
            CardId::Operations(_) => CardSpec { kind: CardKind::Tool, singleton: false, movable: true, resizable: true, collapsible: true, closable: true, deckable: true, default_size: (560, 420), min_size: (360, 260), max_size: (1200, 900) },
            CardId::Notifications(_) => CardSpec { kind: CardKind::Tool, singleton: false, movable: true, resizable: true, collapsible: true, closable: true, deckable: true, default_size: (520, 440), min_size: (340, 260), max_size: (1000, 900) },
            CardId::Services(_) => CardSpec { kind: CardKind::Tool, singleton: false, movable: true, resizable: true, collapsible: true, closable: true, deckable: true, default_size: (580, 420), min_size: (360, 260), max_size: (1200, 900) },
            CardId::Processes(_) => CardSpec { kind: CardKind::Tool, singleton: false, movable: true, resizable: true, collapsible: true, closable: true, deckable: true, default_size: (600, 440), min_size: (380, 260), max_size: (1400, 1000) },
            CardId::Monitor(_) => CardSpec { kind: CardKind::Tool, singleton: false, movable: true, resizable: true, collapsible: true, closable: true, deckable: true, default_size: (560, 460), min_size: (380, 300), max_size: (1200, 900) },
            CardId::SystemLogs(_) => CardSpec { kind: CardKind::Tool, singleton: false, movable: true, resizable: true, collapsible: true, closable: true, deckable: true, default_size: (600, 420), min_size: (380, 260), max_size: (1400, 1000) },
            CardId::Storage(_) => CardSpec { kind: CardKind::Tool, singleton: false, movable: true, resizable: true, collapsible: true, closable: true, deckable: true, default_size: (580, 440), min_size: (380, 280), max_size: (1200, 900) },
            CardId::Network(_) => CardSpec { kind: CardKind::Tool, singleton: false, movable: true, resizable: true, collapsible: true, closable: true, deckable: true, default_size: (560, 420), min_size: (360, 260), max_size: (1200, 900) },
            CardId::Packages(_) => CardSpec { kind: CardKind::Tool, singleton: false, movable: true, resizable: true, collapsible: true, closable: true, deckable: true, default_size: (600, 460), min_size: (380, 280), max_size: (1400, 1000) },
            CardId::Updates(_) => CardSpec { kind: CardKind::Tool, singleton: false, movable: true, resizable: true, collapsible: true, closable: true, deckable: true, default_size: (560, 420), min_size: (360, 260), max_size: (1200, 900) },
            CardId::UserSettings(_) => CardSpec { kind: CardKind::Tool, singleton: false, movable: true, resizable: true, collapsible: true, closable: true, deckable: true, default_size: (580, 440), min_size: (380, 280), max_size: (1200, 900) },
            CardId::Security(_) => CardSpec { kind: CardKind::Tool, singleton: false, movable: true, resizable: true, collapsible: true, closable: true, deckable: true, default_size: (560, 440), min_size: (360, 280), max_size: (1200, 900) },
            CardId::Backup(_) => CardSpec { kind: CardKind::Tool, singleton: false, movable: true, resizable: true, collapsible: true, closable: true, deckable: true, default_size: (580, 460), min_size: (380, 280), max_size: (1200, 900) },
            CardId::Mail(_) => CardSpec { kind: CardKind::Tool, singleton: false, movable: true, resizable: true, collapsible: true, closable: true, deckable: true, default_size: (640, 480), min_size: (400, 300), max_size: (1400, 1000) },
            CardId::Calendar(_) => CardSpec { kind: CardKind::Tool, singleton: false, movable: true, resizable: true, collapsible: true, closable: true, deckable: true, default_size: (600, 460), min_size: (380, 280), max_size: (1400, 1000) },
            CardId::Notes(_) => CardSpec { kind: CardKind::Tool, singleton: false, movable: true, resizable: true, collapsible: true, closable: true, deckable: true, default_size: (580, 460), min_size: (360, 280), max_size: (1200, 900) },
            CardId::Contacts(_) => CardSpec { kind: CardKind::Tool, singleton: false, movable: true, resizable: true, collapsible: true, closable: true, deckable: true, default_size: (560, 440), min_size: (360, 280), max_size: (1200, 900) },
            CardId::CognitiveGraph(_) => CardSpec { kind: CardKind::Tool, singleton: false, movable: true, resizable: true, collapsible: true, closable: true, deckable: true, default_size: (680, 500), min_size: (420, 320), max_size: (1600, 1200) },
            CardId::EventJournal(_) => CardSpec { kind: CardKind::Tool, singleton: false, movable: true, resizable: true, collapsible: true, closable: true, deckable: true, default_size: (640, 460), min_size: (380, 280), max_size: (1400, 1000) },
            CardId::Meaning(_) => CardSpec { kind: CardKind::Tool, singleton: false, movable: true, resizable: true, collapsible: true, closable: true, deckable: true, default_size: (600, 480), min_size: (380, 280), max_size: (1400, 1000) },
            CardId::Learning(_) => CardSpec { kind: CardKind::Tool, singleton: false, movable: true, resizable: true, collapsible: true, closable: true, deckable: true, default_size: (620, 480), min_size: (380, 280), max_size: (1400, 1000) },
            CardId::Outline => CardSpec { kind: CardKind::Tool, singleton: true, movable: true, resizable: true, collapsible: true, closable: true, deckable: true, default_size: (300, 460), min_size: (220, 300), max_size: (600, 800) },
        }
    }

    /// Canonical string key for selection, routing and legacy mapping.
    pub fn key(self) -> (k: &'static str)
        ensures
            k@ == self.key_text(),
    {
        match self {
            CardId::Identity => "identity",
            CardId::Session => "session",
            CardId::Capabilities => "capabilities",
            CardId::Journal => "journal",
            CardId::Lifecycle => "lifecycle",
            CardId::Commitments => "commitments",
            CardId::SelfModel => "self",
            CardId::Attention => "attention",
            CardId::Beliefs => "beliefs",
            CardId::Perception => "perception",
            CardId::Context => "context",
            CardId::Disclosure => "disclosure",
            CardId::Insight => "insight",
            CardId::Agents => "agents",
            CardId::Shell(_) => "shell",
            CardId::FileManager(_) => "files",
            CardId::JournalFeed(_) => "journal-feed",
            CardId::Editor(_) => "editor",
            CardId::Diff(_) => "diff",
            CardId::Inspector(_) => "inspector",
            CardId::Operations(_) => "operations",
            CardId::Notifications(_) => "notifications",
            CardId::Services(_) => "services",
            CardId::Processes(_) => "processes",
            CardId::Monitor(_) => "monitor",
            CardId::SystemLogs(_) => "system-logs",
            CardId::Storage(_) => "storage",
            CardId::Network(_) => "network",
            CardId::Packages(_) => "packages",
            CardId::Updates(_) => "updates",
            CardId::UserSettings(_) => "user-settings",
            CardId::Security(_) => "security",
            CardId::Backup(_) => "backup",
            CardId::Mail(_) => "mail",
            CardId::Calendar(_) => "calendar",
            CardId::Notes(_) => "notes",
            CardId::Contacts(_) => "contacts",
            CardId::CognitiveGraph(_) => "cognitive-graph",
            CardId::EventJournal(_) => "event-journal",
            CardId::Meaning(_) => "meaning",
            CardId::Learning(_) => "learning",
            CardId::Outline => "outline",
        }
    }

    /// The instance number of a tool card.
    fn instance(self) -> (r: Option<u32>)
        ensures
            r == self.instance_number(),
    {
        match self {
            CardId::Shell(i) => Some(i),
            CardId::FileManager(i) => Some(i),
            CardId::JournalFeed(i) => Some(i),
            CardId::Editor(i) => Some(i),
            CardId::Diff(i) => Some(i),
            CardId::Inspector(i) => Some(i),
            CardId::Operations(i) => Some(i),
            CardId::Notifications(i) => Some(i),
            CardId::Services(i) => Some(i),
            CardId::Processes(i) => Some(i),
            CardId::Monitor(i) => Some(i),
            CardId::SystemLogs(i) => Some(i),
            CardId::Storage(i) => Some(i),
            CardId::Network(i) => Some(i),
            CardId::Packages(i) => Some(i),
            CardId::Updates(i) => Some(i),
            CardId::UserSettings(i) => Some(i),
            CardId::Security(i) => Some(i),
            CardId::Backup(i) => Some(i),
            CardId::Mail(i) => Some(i),
            CardId::Calendar(i) => Some(i),
            CardId::Notes(i) => Some(i),
            CardId::Contacts(i) => Some(i),
            CardId::CognitiveGraph(i) => Some(i),
            CardId::EventJournal(i) => Some(i),
            CardId::Meaning(i) => Some(i),
            CardId::Learning(i) => Some(i),
            _ => None,
        }
    }

    /// Stable key for this exact card instance.
    ///
    /// [`Self::key`] identifies a card type for legacy routes; anything where identity affects
    /// reconciliation, persistence or membership uses this key.
    pub fn instance_key(self) -> (r: String)
        ensures
            r@ == self.instance_key_text(),
    {
        let mut s = String::from_str(self.key());
        match self.instance() {
            Some(i) => {
                push_char(&mut s, ':');
                append_decimal(&mut s, i as u64);
            },
            None => {},
        }
        s
    }

    /// Whether a persisted identity names this exact instance.
    ///
    /// Type-only keys remain readable for layouts created before instance keys existed.
    pub fn matches_persisted_key(self, persisted: &str) -> (r: bool)
        ensures
            r == self.persisted_key_matches(persisted@),
    {
        let own = self.instance_key();
        same_text(persisted, own.as_str()) || (!has_char(persisted, ':') && same_text(
            persisted,
            self.key(),
        ))
    }

    /// Human-readable title of the card.
    pub fn title(self) -> (t: &'static str)
        ensures
            t@ == self.title_text(),
    {
        match self {
            CardId::Identity => "Identity",
            CardId::Session => "Session",
            CardId::Capabilities => "Capabilities",
            CardId::Journal => "Journal",
            CardId::Lifecycle => "Lifecycle",
            CardId::Commitments => "Commitments",
            CardId::SelfModel => "Self-assessment",
            CardId::Attention => "Attention",
            CardId::Beliefs => "Beliefs",
            CardId::Perception => "Perception",
            CardId::Context => "Context",
            CardId::Disclosure => "Disclosure",
            CardId::Insight => "System Insight",
            CardId::Agents => "Agents",
            CardId::Shell(_) => "Shell",
            CardId::FileManager(_) => "File Manager",
            CardId::JournalFeed(_) => "Presence Stream",
            CardId::Editor(_) => "Text Editor",
            CardId::Diff(_) => "Diff Viewer",
            CardId::Inspector(_) => "Universal Inspector",
            CardId::Operations(_) => "Operations",
            CardId::Notifications(_) => "Notifications",
            CardId::Services(_) => "Services",
            CardId::Processes(_) => "Processes",
            CardId::Monitor(_) => "System Monitor",
            CardId::SystemLogs(_) => "System Logs",
            CardId::Storage(_) => "Storage & Snapshots",
            CardId::Network(_) => "Network Connections",
            CardId::Packages(_) => "Package Manager",
            CardId::Updates(_) => "System Updates",
            CardId::UserSettings(_) => "Users & SSH Keys",
            CardId::Security(_) => "Security & Sandboxing",
            CardId::Backup(_) => "Backup & Vault",
            CardId::Mail(_) => "Mail & Messages",
            CardId::Calendar(_) => "Calendar & Schedule",
            CardId::Notes(_) => "Notes & Ideas",
            CardId::Contacts(_) => "Contacts Directory",
            CardId::CognitiveGraph(_) => "Cognitive Graph & Causal DAG",
            CardId::EventJournal(_) => "Canonical Event1 Journal",
            CardId::Meaning(_) => "Meaning & Dialogue Assistant",
            CardId::Learning(_) => "Lifelong Learning & Governance",
            CardId::Outline => "Canvas Outline",
        }
    }

    /// Resolves a key to the first instance of its card type.
    pub fn from_key(key: &str) -> (r: Option<CardId>)
        ensures
            r == CardId::card_for_key(key@),
    {
        if same_text(key, "identity") {
            Some(CardId::Identity)
        } else if same_text(key, "session") {
            Some(CardId::Session)
        } else if same_text(key, "capabilities") {
            Some(CardId::Capabilities)
        } else if same_text(key, "journal") {
            Some(CardId::Journal)
        } else if same_text(key, "lifecycle") {
            Some(CardId::Lifecycle)
        } else if same_text(key, "commitments") {
            Some(CardId::Commitments)
        } else if same_text(key, "self") {
            Some(CardId::SelfModel)
        } else if same_text(key, "attention") {
            Some(CardId::Attention)
        } else if same_text(key, "beliefs") {
            Some(CardId::Beliefs)
        } else if same_text(key, "perception") {
            Some(CardId::Perception)
        } else if same_text(key, "context") {
            Some(CardId::Context)
        } else if same_text(key, "disclosure") {
            Some(CardId::Disclosure)
        } else if same_text(key, "insight") {
            Some(CardId::Insight)
        } else if same_text(key, "agents") {
            Some(CardId::Agents)
        } else if same_text(key, "shell") {
            Some(CardId::Shell(0))
        } else if same_text(key, "files") {
            Some(CardId::FileManager(0))
        } else if same_text(key, "journal-feed") {
            Some(CardId::JournalFeed(0))
        } else if same_text(key, "editor") {
            Some(CardId::Editor(0))
        } else if same_text(key, "diff") {
            Some(CardId::Diff(0))
        } else if same_text(key, "inspector") {
            Some(CardId::Inspector(0))
        } else if same_text(key, "operations") {
            Some(CardId::Operations(0))
        } else if same_text(key, "notifications") {
            Some(CardId::Notifications(0))
        } else if same_text(key, "services") {
            Some(CardId::Services(0))
        } else if same_text(key, "processes") {
            Some(CardId::Processes(0))
        } else if same_text(key, "monitor") {
            Some(CardId::Monitor(0))
        } else if same_text(key, "system-logs") {
            Some(CardId::SystemLogs(0))
        } else if same_text(key, "storage") {
            Some(CardId::Storage(0))
        } else if same_text(key, "network") {
            Some(CardId::Network(0))
        } else if same_text(key, "packages") {
            Some(CardId::Packages(0))
        } else if same_text(key, "updates") {
            Some(CardId::Updates(0))
        } else if same_text(key, "user-settings") || same_text(key, "users") {
            Some(CardId::UserSettings(0))
        } else if same_text(key, "security") {
            Some(CardId::Security(0))
        } else if same_text(key, "backup") {
            Some(CardId::Backup(0))
        } else if same_text(key, "mail") {
            Some(CardId::Mail(0))
        } else if same_text(key, "calendar") {
            Some(CardId::Calendar(0))
        } else if same_text(key, "notes") {
            Some(CardId::Notes(0))
        } else if same_text(key, "contacts") {
            Some(CardId::Contacts(0))
        } else if same_text(key, "cognitive-graph") || same_text(key, "cognitive") {
            Some(CardId::CognitiveGraph(0))
        } else if same_text(key, "event-journal") {
            Some(CardId::EventJournal(0))
        } else if same_text(key, "meaning") || same_text(key, "assistant") || same_text(key, "dialogue") {
            Some(CardId::Meaning(0))
        } else if same_text(key, "learning") || same_text(key, "skills") || same_text(key, "adaptation") {
            Some(CardId::Learning(0))
        } else if same_text(key, "outline") {
            Some(CardId::Outline)
        } else {
            None
        }
    }

    /// Whether this card is a permanent system Mind card.
    pub fn is_system(self) -> (r: bool)
        ensures
            r == self.is_system_card(),
    {
        match self {
            CardId::Identity | CardId::Session | CardId::Capabilities | CardId::Journal | CardId::Lifecycle | CardId::Commitments | CardId::SelfModel | CardId::Attention | CardId::Beliefs | CardId::Perception | CardId::Context | CardId::Disclosure | CardId::Insight | CardId::Agents => true,
            _ => false,
        }
    }

    /// The static capabilities and bounds of this card's type.
    pub fn spec(self) -> (s: CardSpec)
        ensures
            s == self.layout_bounds(),
    {
        match self {
            CardId::Identity => CardSpec { kind: CardKind::System, singleton: true, movable: true, resizable: true, collapsible: true, closable: false, deckable: true, default_size: (220, 188), min_size: (180, 140), max_size: (450, 400) },
            CardId::Session => CardSpec { kind: CardKind::System, singleton: true, movable: true, resizable: true, collapsible: true, closable: false, deckable: true, default_size: (240, 236), min_size: (200, 160), max_size: (450, 450) },
            CardId::Capabilities => CardSpec { kind: CardKind::System, singleton: true, movable: true, resizable: true, collapsible: true, closable: false, deckable: true, default_size: (390, 294), min_size: (280, 200), max_size: (650, 600) },
            CardId::Journal => CardSpec { kind: CardKind::System, singleton: true, movable: true, resizable: true, collapsible: true, closable: false, deckable: true, default_size: (300, 285), min_size: (240, 180), max_size: (600, 600) },
            CardId::Lifecycle => CardSpec { kind: CardKind::System, singleton: true, movable: true, resizable: true, collapsible: true, closable: false, deckable: true, default_size: (335, 252), min_size: (260, 180), max_size: (550, 500) },
            CardId::Commitments => CardSpec { kind: CardKind::System, singleton: true, movable: true, resizable: true, collapsible: true, closable: false, deckable: true, default_size: (310, 184), min_size: (240, 140), max_size: (500, 400) },
            CardId::SelfModel => CardSpec { kind: CardKind::System, singleton: true, movable: true, resizable: true, collapsible: true, closable: false, deckable: true, default_size: (330, 210), min_size: (260, 150), max_size: (550, 450) },
            CardId::Attention => CardSpec { kind: CardKind::System, singleton: true, movable: true, resizable: true, collapsible: true, closable: false, deckable: true, default_size: (320, 170), min_size: (240, 130), max_size: (500, 400) },
            CardId::Beliefs => CardSpec { kind: CardKind::System, singleton: true, movable: true, resizable: true, collapsible: true, closable: false, deckable: true, default_size: (330, 260), min_size: (260, 180), max_size: (550, 550) },
            CardId::Perception => CardSpec { kind: CardKind::System, singleton: true, movable: true, resizable: true, collapsible: true, closable: false, deckable: true, default_size: (330, 170), min_size: (260, 140), max_size: (500, 400) },
            CardId::Context => CardSpec { kind: CardKind::System, singleton: true, movable: true, resizable: true, collapsible: true, closable: false, deckable: true, default_size: (330, 200), min_size: (260, 160), max_size: (550, 500) },
            CardId::Disclosure => CardSpec { kind: CardKind::System, singleton: true, movable: true, resizable: true, collapsible: true, closable: false, deckable: true, default_size: (360, 260), min_size: (280, 180), max_size: (620, 620) },
            CardId::Insight => CardSpec { kind: CardKind::System, singleton: true, movable: true, resizable: true, collapsible: true, closable: false, deckable: true, default_size: (420, 340), min_size: (300, 200), max_size: (720, 720) },
            CardId::Agents => CardSpec { kind: CardKind::System, singleton: true, movable: true, resizable: true, collapsible: true, closable: false, deckable: true, default_size: (420, 320), min_size: (300, 200), max_size: (720, 720) },
            CardId::Shell(_) => CardSpec { kind: CardKind::Tool, singleton: false, movable: true, resizable: true, collapsible: true, closable: true, deckable: true, default_size: (440, 290), min_size: (320, 200), max_size: (800, 600) },
            CardId::FileManager(_) => CardSpec { kind: CardKind::Tool, singleton: false, movable: true, resizable: true, collapsible: true, closable: true, deckable: true, default_size: (560, 380), min_size: (360, 240), max_size: (1200, 800) },
            CardId::JournalFeed(_) => CardSpec { kind: CardKind::Tool, singleton: false, movable: true, resizable: true, collapsible: true, closable: true, deckable: false, default_size: (580, 360), min_size: (360, 240), max_size: (1200, 800) },
            CardId::Editor(_) => CardSpec { kind: CardKind::Tool, singleton: false, movable: true, resizable: true, collapsible: true, closable: true, deckable: true, default_size: (560, 420), min_size: (360, 240), max_size: (1400, 1000) },
            CardId::Diff(_) => CardSpec { kind: CardKind::Tool, singleton: false, movable: true, resizable: true, collapsible: true, closable: true, deckable: true, default_size: (640, 440), min_size: (400, 260), max_size: (1600, 1100) },
            CardId::Inspector(_) => CardSpec { kind: CardKind::Tool, singleton: false, movable: true, resizable: true, collapsible: true, closable: true, deckable: true, default_size: (380, 480), min_size: (280, 320), max_size: (800, 900) },
            CardId::Operations(_) => CardSpec { kind: CardKind::Tool, singleton: false, movable: true, resizable: true, collapsible: true, closable: true, deckable: true, default_size: (560, 420), min_size: (360, 260), max_size: (1200, 900) },
            CardId::Notifications(_) => CardSpec { kind: CardKind::Tool, singleton: false, movable: true, resizable: true, collapsible: true, closable: true, deckable: true, default_size: (520, 440), min_size: (340, 260), max_size: (1000, 900) },
            CardId::Services(_) => CardSpec { kind: CardKind::Tool, singleton: false, movable: true, resizable: true, collapsible: true, closable: true, deckable: true, default_size: (580, 420), min_size: (360, 260), max_size: (1200, 900) },
            CardId::Processes(_) => CardSpec { kind: CardKind::Tool, singleton: false, movable: true, resizable: true, collapsible: true, closable: true, deckable: true, default_size: (600, 440), min_size: (380, 260), max_size: (1400, 1000) },
            CardId::Monitor(_) => CardSpec { kind: CardKind::Tool, singleton: false, movable: true, resizable: true, collapsible: true, closable: true, deckable: true, default_size: (560, 460), min_size: (380, 300), max_size: (1200, 900) },
            CardId::SystemLogs(_) => CardSpec { kind: CardKind::Tool, singleton: false, movable: true, resizable: true, collapsible: true, closable: true, deckable: true, default_size: (600, 420), min_size: (380, 260), max_size: (1400, 1000) },
            CardId::Storage(_) => CardSpec { kind: CardKind::Tool, singleton: false, movable: true, resizable: true, collapsible: true, closable: true, deckable: true, default_size: (580, 440), min_size: (380, 280), max_size: (1200, 900) },
            CardId::Network(_) => CardSpec { kind: CardKind::Tool, singleton: false, movable: true, resizable: true, collapsible: true, closable: true, deckable: true, default_size: (560, 420), min_size: (360, 260), max_size: (1200, 900) },
            CardId::Packages(_) => CardSpec { kind: CardKind::Tool, singleton: false, movable: true, resizable: true, collapsible: true, closable: true, deckable: true, default_size: (600, 460), min_size: (380, 280), max_size: (1400, 1000) },
            CardId::Updates(_) => CardSpec { kind: CardKind::Tool, singleton: false, movable: true, resizable: true, collapsible: true, closable: true, deckable: true, default_size: (560, 420), min_size: (360, 260), max_size: (1200, 900) },
            CardId::UserSettings(_) => CardSpec { kind: CardKind::Tool, singleton: false, movable: true, resizable: true, collapsible: true, closable: true, deckable: true, default_size: (580, 440), min_size: (380, 280), max_size: (1200, 900) },
            CardId::Security(_) => CardSpec { kind: CardKind::Tool, singleton: false, movable: true, resizable: true, collapsible: true, closable: true, deckable: true, default_size: (560, 440), min_size: (360, 280), max_size: (1200, 900) },
            CardId::Backup(_) => CardSpec { kind: CardKind::Tool, singleton: false, movable: true, resizable: true, collapsible: true, closable: true, deckable: true, default_size: (580, 460), min_size: (380, 280), max_size: (1200, 900) },
            CardId::Mail(_) => CardSpec { kind: CardKind::Tool, singleton: false, movable: true, resizable: true, collapsible: true, closable: true, deckable: true, default_size: (640, 480), min_size: (400, 300), max_size: (1400, 1000) },
            CardId::Calendar(_) => CardSpec { kind: CardKind::Tool, singleton: false, movable: true, resizable: true, collapsible: true, closable: true, deckable: true, default_size: (600, 460), min_size: (380, 280), max_size: (1400, 1000) },
            CardId::Notes(_) => CardSpec { kind: CardKind::Tool, singleton: false, movable: true, resizable: true, collapsible: true, closable: true, deckable: true, default_size: (580, 460), min_size: (360, 280), max_size: (1200, 900) },
            CardId::Contacts(_) => CardSpec { kind: CardKind::Tool, singleton: false, movable: true, resizable: true, collapsible: true, closable: true, deckable: true, default_size: (560, 440), min_size: (360, 280), max_size: (1200, 900) },
            CardId::CognitiveGraph(_) => CardSpec { kind: CardKind::Tool, singleton: false, movable: true, resizable: true, collapsible: true, closable: true, deckable: true, default_size: (680, 500), min_size: (420, 320), max_size: (1600, 1200) },
            CardId::EventJournal(_) => CardSpec { kind: CardKind::Tool, singleton: false, movable: true, resizable: true, collapsible: true, closable: true, deckable: true, default_size: (640, 460), min_size: (380, 280), max_size: (1400, 1000) },
            CardId::Meaning(_) => CardSpec { kind: CardKind::Tool, singleton: false, movable: true, resizable: true, collapsible: true, closable: true, deckable: true, default_size: (600, 480), min_size: (380, 280), max_size: (1400, 1000) },
            CardId::Learning(_) => CardSpec { kind: CardKind::Tool, singleton: false, movable: true, resizable: true, collapsible: true, closable: true, deckable: true, default_size: (620, 480), min_size: (380, 280), max_size: (1400, 1000) },
            CardId::Outline => CardSpec { kind: CardKind::Tool, singleton: true, movable: true, resizable: true, collapsible: true, closable: true, deckable: true, default_size: (300, 460), min_size: (220, 300), max_size: (600, 800) },
        }
    }
}

/// What the key literals hold, as far as telling them apart needs: each one's length, and for two
/// of the same length a position where they differ.
proof fn lemma_key_literals()
    ensures
        "identity"@.len() == 8,
        "session"@.len() == 7,
        "capabilities"@.len() == 12,
        "journal"@.len() == 7,
        "lifecycle"@.len() == 9,
        "commitments"@.len() == 11,
        "self"@.len() == 4,
        "attention"@.len() == 9,
        "beliefs"@.len() == 7,
        "perception"@.len() == 10,
        "context"@.len() == 7,
        "disclosure"@.len() == 10,
        "insight"@.len() == 7,
        "agents"@.len() == 6,
        "shell"@.len() == 5,
        "files"@.len() == 5,
        "journal-feed"@.len() == 12,
        "editor"@.len() == 6,
        "diff"@.len() == 4,
        "inspector"@.len() == 9,
        "operations"@.len() == 10,
        "notifications"@.len() == 13,
        "services"@.len() == 8,
        "processes"@.len() == 9,
        "monitor"@.len() == 7,
        "system-logs"@.len() == 11,
        "storage"@.len() == 7,
        "network"@.len() == 7,
        "packages"@.len() == 8,
        "updates"@.len() == 7,
        "user-settings"@.len() == 13,
        "users"@.len() == 5,
        "security"@.len() == 8,
        "backup"@.len() == 6,
        "mail"@.len() == 4,
        "calendar"@.len() == 8,
        "notes"@.len() == 5,
        "contacts"@.len() == 8,
        "cognitive-graph"@.len() == 15,
        "cognitive"@.len() == 9,
        "event-journal"@.len() == 13,
        "meaning"@.len() == 7,
        "assistant"@.len() == 9,
        "dialogue"@.len() == 8,
        "learning"@.len() == 8,
        "skills"@.len() == 6,
        "adaptation"@.len() == 10,
        "outline"@.len() == 7,
        "identity"@[0] != "services"@[0],
        "identity"@[0] != "packages"@[0],
        "identity"@[0] != "security"@[0],
        "identity"@[0] != "calendar"@[0],
        "identity"@[0] != "contacts"@[0],
        "identity"@[0] != "dialogue"@[0],
        "identity"@[0] != "learning"@[0],
        "session"@[0] != "journal"@[0],
        "session"@[0] != "beliefs"@[0],
        "session"@[0] != "context"@[0],
        "session"@[0] != "insight"@[0],
        "session"@[0] != "monitor"@[0],
        "session"@[1] != "storage"@[1],
        "session"@[0] != "network"@[0],
        "session"@[0] != "updates"@[0],
        "session"@[0] != "meaning"@[0],
        "session"@[0] != "outline"@[0],
        "capabilities"@[0] != "journal-feed"@[0],
        "journal"@[0] != "beliefs"@[0],
        "journal"@[0] != "context"@[0],
        "journal"@[0] != "insight"@[0],
        "journal"@[0] != "monitor"@[0],
        "journal"@[0] != "storage"@[0],
        "journal"@[0] != "network"@[0],
        "journal"@[0] != "updates"@[0],
        "journal"@[0] != "meaning"@[0],
        "journal"@[0] != "outline"@[0],
        "lifecycle"@[0] != "attention"@[0],
        "lifecycle"@[0] != "inspector"@[0],
        "lifecycle"@[0] != "processes"@[0],
        "lifecycle"@[0] != "cognitive"@[0],
        "lifecycle"@[0] != "assistant"@[0],
        "commitments"@[0] != "system-logs"@[0],
        "self"@[0] != "diff"@[0],
        "self"@[0] != "mail"@[0],
        "attention"@[0] != "inspector"@[0],
        "attention"@[0] != "processes"@[0],
        "attention"@[0] != "cognitive"@[0],
        "attention"@[1] != "assistant"@[1],
        "beliefs"@[0] != "context"@[0],
        "beliefs"@[0] != "insight"@[0],
        "beliefs"@[0] != "monitor"@[0],
        "beliefs"@[0] != "storage"@[0],
        "beliefs"@[0] != "network"@[0],
        "beliefs"@[0] != "updates"@[0],
        "beliefs"@[0] != "meaning"@[0],
        "beliefs"@[0] != "outline"@[0],
        "perception"@[0] != "disclosure"@[0],
        "perception"@[0] != "operations"@[0],
        "perception"@[0] != "adaptation"@[0],
        "context"@[0] != "insight"@[0],
        "context"@[0] != "monitor"@[0],
        "context"@[0] != "storage"@[0],
        "context"@[0] != "network"@[0],
        "context"@[0] != "updates"@[0],
        "context"@[0] != "meaning"@[0],
        "context"@[0] != "outline"@[0],
        "disclosure"@[0] != "operations"@[0],
        "disclosure"@[0] != "adaptation"@[0],
        "insight"@[0] != "monitor"@[0],
        "insight"@[0] != "storage"@[0],
        "insight"@[0] != "network"@[0],
        "insight"@[0] != "updates"@[0],
        "insight"@[0] != "meaning"@[0],
        "insight"@[0] != "outline"@[0],
        "agents"@[0] != "editor"@[0],
        "agents"@[0] != "backup"@[0],
        "agents"@[0] != "skills"@[0],
        "shell"@[0] != "files"@[0],
        "shell"@[0] != "users"@[0],
        "shell"@[0] != "notes"@[0],
        "files"@[0] != "users"@[0],
        "files"@[0] != "notes"@[0],
        "editor"@[0] != "backup"@[0],
        "editor"@[0] != "skills"@[0],
        "diff"@[0] != "mail"@[0],
        "inspector"@[0] != "processes"@[0],
        "inspector"@[0] != "cognitive"@[0],
        "inspector"@[0] != "assistant"@[0],
        "operations"@[0] != "adaptation"@[0],
        "notifications"@[0] != "user-settings"@[0],
        "notifications"@[0] != "event-journal"@[0],
        "services"@[0] != "packages"@[0],
        "services"@[2] != "security"@[2],
        "services"@[0] != "calendar"@[0],
        "services"@[0] != "contacts"@[0],
        "services"@[0] != "dialogue"@[0],
        "services"@[0] != "learning"@[0],
        "processes"@[0] != "cognitive"@[0],
        "processes"@[0] != "assistant"@[0],
        "monitor"@[0] != "storage"@[0],
        "monitor"@[0] != "network"@[0],
        "monitor"@[0] != "updates"@[0],
        "monitor"@[1] != "meaning"@[1],
        "monitor"@[0] != "outline"@[0],
        "storage"@[0] != "network"@[0],
        "storage"@[0] != "updates"@[0],
        "storage"@[0] != "meaning"@[0],
        "storage"@[0] != "outline"@[0],
        "network"@[0] != "updates"@[0],
        "network"@[0] != "meaning"@[0],
        "network"@[0] != "outline"@[0],
        "packages"@[0] != "security"@[0],
        "packages"@[0] != "calendar"@[0],
        "packages"@[0] != "contacts"@[0],
        "packages"@[0] != "dialogue"@[0],
        "packages"@[0] != "learning"@[0],
        "updates"@[0] != "meaning"@[0],
        "updates"@[0] != "outline"@[0],
        "user-settings"@[0] != "event-journal"@[0],
        "users"@[0] != "notes"@[0],
        "security"@[0] != "calendar"@[0],
        "security"@[0] != "contacts"@[0],
        "security"@[0] != "dialogue"@[0],
        "security"@[0] != "learning"@[0],
        "backup"@[0] != "skills"@[0],
        "calendar"@[1] != "contacts"@[1],
        "calendar"@[0] != "dialogue"@[0],
        "calendar"@[0] != "learning"@[0],
        "contacts"@[0] != "dialogue"@[0],
        "contacts"@[0] != "learning"@[0],
        "cognitive"@[0] != "assistant"@[0],
        "meaning"@[0] != "outline"@[0],
        "dialogue"@[0] != "learning"@[0],
{
    reveal_strlit("identity");
    reveal_strlit("session");
    reveal_strlit("capabilities");
    reveal_strlit("journal");
    reveal_strlit("lifecycle");
    reveal_strlit("commitments");
    reveal_strlit("self");
    reveal_strlit("attention");
    reveal_strlit("beliefs");
    reveal_strlit("perception");
    reveal_strlit("context");
    reveal_strlit("disclosure");
    reveal_strlit("insight");
    reveal_strlit("agents");
    reveal_strlit("shell");
    reveal_strlit("files");
    reveal_strlit("journal-feed");
    reveal_strlit("editor");
    reveal_strlit("diff");
    reveal_strlit("inspector");
    reveal_strlit("operations");
    reveal_strlit("notifications");
    reveal_strlit("services");
    reveal_strlit("processes");
    reveal_strlit("monitor");
    reveal_strlit("system-logs");
    reveal_strlit("storage");
    reveal_strlit("network");
    reveal_strlit("packages");
    reveal_strlit("updates");
    reveal_strlit("user-settings");
    reveal_strlit("users");
    reveal_strlit("security");
    reveal_strlit("backup");
    reveal_strlit("mail");
    reveal_strlit("calendar");
    reveal_strlit("notes");
    reveal_strlit("contacts");
    reveal_strlit("cognitive-graph");
    reveal_strlit("cognitive");
    reveal_strlit("event-journal");
    reveal_strlit("meaning");
    reveal_strlit("assistant");
    reveal_strlit("dialogue");
    reveal_strlit("learning");
    reveal_strlit("skills");
    reveal_strlit("adaptation");
    reveal_strlit("outline");
}

/// Every card's key resolves back to the first instance of that card's type, so a saved layout or a
/// route that names a card by its key finds it again.
pub proof fn lemma_key_round_trip(c: CardId)
    ensures
        CardId::card_for_key(c.key_text()) == Some(c.type_default()),
{
    lemma_key_literals();
}

/// No type key holds a colon, which is what separates a type key from an instance key.
pub proof fn lemma_key_has_no_colon(c: CardId)
    ensures
        !c.key_text().contains(':'),
{
    match c {
        CardId::Identity => {
            reveal_strlit("identity");
            assert forall|i: int| 0 <= i < "identity"@.len() implies "identity"@[i] != ':' by {
                assert(i == 0 || i == 1 || i == 2 || i == 3 || i == 4 || i == 5 || i == 6 || i == 7);
            }
        },
        CardId::Session => {
            reveal_strlit("session");
            assert forall|i: int| 0 <= i < "session"@.len() implies "session"@[i] != ':' by {
                assert(i == 0 || i == 1 || i == 2 || i == 3 || i == 4 || i == 5 || i == 6);
            }
        },
        CardId::Capabilities => {
            reveal_strlit("capabilities");
            assert forall|i: int| 0 <= i < "capabilities"@.len() implies "capabilities"@[i] != ':' by {
                assert(i == 0 || i == 1 || i == 2 || i == 3 || i == 4 || i == 5 || i == 6 || i == 7 || i == 8 || i == 9 || i == 10 || i == 11);
            }
        },
        CardId::Journal => {
            reveal_strlit("journal");
            assert forall|i: int| 0 <= i < "journal"@.len() implies "journal"@[i] != ':' by {
                assert(i == 0 || i == 1 || i == 2 || i == 3 || i == 4 || i == 5 || i == 6);
            }
        },
        CardId::Lifecycle => {
            reveal_strlit("lifecycle");
            assert forall|i: int| 0 <= i < "lifecycle"@.len() implies "lifecycle"@[i] != ':' by {
                assert(i == 0 || i == 1 || i == 2 || i == 3 || i == 4 || i == 5 || i == 6 || i == 7 || i == 8);
            }
        },
        CardId::Commitments => {
            reveal_strlit("commitments");
            assert forall|i: int| 0 <= i < "commitments"@.len() implies "commitments"@[i] != ':' by {
                assert(i == 0 || i == 1 || i == 2 || i == 3 || i == 4 || i == 5 || i == 6 || i == 7 || i == 8 || i == 9 || i == 10);
            }
        },
        CardId::SelfModel => {
            reveal_strlit("self");
            assert forall|i: int| 0 <= i < "self"@.len() implies "self"@[i] != ':' by {
                assert(i == 0 || i == 1 || i == 2 || i == 3);
            }
        },
        CardId::Attention => {
            reveal_strlit("attention");
            assert forall|i: int| 0 <= i < "attention"@.len() implies "attention"@[i] != ':' by {
                assert(i == 0 || i == 1 || i == 2 || i == 3 || i == 4 || i == 5 || i == 6 || i == 7 || i == 8);
            }
        },
        CardId::Beliefs => {
            reveal_strlit("beliefs");
            assert forall|i: int| 0 <= i < "beliefs"@.len() implies "beliefs"@[i] != ':' by {
                assert(i == 0 || i == 1 || i == 2 || i == 3 || i == 4 || i == 5 || i == 6);
            }
        },
        CardId::Perception => {
            reveal_strlit("perception");
            assert forall|i: int| 0 <= i < "perception"@.len() implies "perception"@[i] != ':' by {
                assert(i == 0 || i == 1 || i == 2 || i == 3 || i == 4 || i == 5 || i == 6 || i == 7 || i == 8 || i == 9);
            }
        },
        CardId::Context => {
            reveal_strlit("context");
            assert forall|i: int| 0 <= i < "context"@.len() implies "context"@[i] != ':' by {
                assert(i == 0 || i == 1 || i == 2 || i == 3 || i == 4 || i == 5 || i == 6);
            }
        },
        CardId::Disclosure => {
            reveal_strlit("disclosure");
            assert forall|i: int| 0 <= i < "disclosure"@.len() implies "disclosure"@[i] != ':' by {
                assert(i == 0 || i == 1 || i == 2 || i == 3 || i == 4 || i == 5 || i == 6 || i == 7 || i == 8 || i == 9);
            }
        },
        CardId::Insight => {
            reveal_strlit("insight");
            assert forall|i: int| 0 <= i < "insight"@.len() implies "insight"@[i] != ':' by {
                assert(i == 0 || i == 1 || i == 2 || i == 3 || i == 4 || i == 5 || i == 6);
            }
        },
        CardId::Agents => {
            reveal_strlit("agents");
            assert forall|i: int| 0 <= i < "agents"@.len() implies "agents"@[i] != ':' by {
                assert(i == 0 || i == 1 || i == 2 || i == 3 || i == 4 || i == 5);
            }
        },
        CardId::Shell(_) => {
            reveal_strlit("shell");
            assert forall|i: int| 0 <= i < "shell"@.len() implies "shell"@[i] != ':' by {
                assert(i == 0 || i == 1 || i == 2 || i == 3 || i == 4);
            }
        },
        CardId::FileManager(_) => {
            reveal_strlit("files");
            assert forall|i: int| 0 <= i < "files"@.len() implies "files"@[i] != ':' by {
                assert(i == 0 || i == 1 || i == 2 || i == 3 || i == 4);
            }
        },
        CardId::JournalFeed(_) => {
            reveal_strlit("journal-feed");
            assert forall|i: int| 0 <= i < "journal-feed"@.len() implies "journal-feed"@[i] != ':' by {
                assert(i == 0 || i == 1 || i == 2 || i == 3 || i == 4 || i == 5 || i == 6 || i == 7 || i == 8 || i == 9 || i == 10 || i == 11);
            }
        },
        CardId::Editor(_) => {
            reveal_strlit("editor");
            assert forall|i: int| 0 <= i < "editor"@.len() implies "editor"@[i] != ':' by {
                assert(i == 0 || i == 1 || i == 2 || i == 3 || i == 4 || i == 5);
            }
        },
        CardId::Diff(_) => {
            reveal_strlit("diff");
            assert forall|i: int| 0 <= i < "diff"@.len() implies "diff"@[i] != ':' by {
                assert(i == 0 || i == 1 || i == 2 || i == 3);
            }
        },
        CardId::Inspector(_) => {
            reveal_strlit("inspector");
            assert forall|i: int| 0 <= i < "inspector"@.len() implies "inspector"@[i] != ':' by {
                assert(i == 0 || i == 1 || i == 2 || i == 3 || i == 4 || i == 5 || i == 6 || i == 7 || i == 8);
            }
        },
        CardId::Operations(_) => {
            reveal_strlit("operations");
            assert forall|i: int| 0 <= i < "operations"@.len() implies "operations"@[i] != ':' by {
                assert(i == 0 || i == 1 || i == 2 || i == 3 || i == 4 || i == 5 || i == 6 || i == 7 || i == 8 || i == 9);
            }
        },
        CardId::Notifications(_) => {
            reveal_strlit("notifications");
            assert forall|i: int| 0 <= i < "notifications"@.len() implies "notifications"@[i] != ':' by {
                assert(i == 0 || i == 1 || i == 2 || i == 3 || i == 4 || i == 5 || i == 6 || i == 7 || i == 8 || i == 9 || i == 10 || i == 11 || i == 12);
            }
        },
        CardId::Services(_) => {
            reveal_strlit("services");
            assert forall|i: int| 0 <= i < "services"@.len() implies "services"@[i] != ':' by {
                assert(i == 0 || i == 1 || i == 2 || i == 3 || i == 4 || i == 5 || i == 6 || i == 7);
            }
        },
        CardId::Processes(_) => {
            reveal_strlit("processes");
            assert forall|i: int| 0 <= i < "processes"@.len() implies "processes"@[i] != ':' by {
                assert(i == 0 || i == 1 || i == 2 || i == 3 || i == 4 || i == 5 || i == 6 || i == 7 || i == 8);
            }
        },
        CardId::Monitor(_) => {
            reveal_strlit("monitor");
            assert forall|i: int| 0 <= i < "monitor"@.len() implies "monitor"@[i] != ':' by {
                assert(i == 0 || i == 1 || i == 2 || i == 3 || i == 4 || i == 5 || i == 6);
            }
        },
        CardId::SystemLogs(_) => {
            reveal_strlit("system-logs");
            assert forall|i: int| 0 <= i < "system-logs"@.len() implies "system-logs"@[i] != ':' by {
                assert(i == 0 || i == 1 || i == 2 || i == 3 || i == 4 || i == 5 || i == 6 || i == 7 || i == 8 || i == 9 || i == 10);
            }
        },
        CardId::Storage(_) => {
            reveal_strlit("storage");
            assert forall|i: int| 0 <= i < "storage"@.len() implies "storage"@[i] != ':' by {
                assert(i == 0 || i == 1 || i == 2 || i == 3 || i == 4 || i == 5 || i == 6);
            }
        },
        CardId::Network(_) => {
            reveal_strlit("network");
            assert forall|i: int| 0 <= i < "network"@.len() implies "network"@[i] != ':' by {
                assert(i == 0 || i == 1 || i == 2 || i == 3 || i == 4 || i == 5 || i == 6);
            }
        },
        CardId::Packages(_) => {
            reveal_strlit("packages");
            assert forall|i: int| 0 <= i < "packages"@.len() implies "packages"@[i] != ':' by {
                assert(i == 0 || i == 1 || i == 2 || i == 3 || i == 4 || i == 5 || i == 6 || i == 7);
            }
        },
        CardId::Updates(_) => {
            reveal_strlit("updates");
            assert forall|i: int| 0 <= i < "updates"@.len() implies "updates"@[i] != ':' by {
                assert(i == 0 || i == 1 || i == 2 || i == 3 || i == 4 || i == 5 || i == 6);
            }
        },
        CardId::UserSettings(_) => {
            reveal_strlit("user-settings");
            assert forall|i: int| 0 <= i < "user-settings"@.len() implies "user-settings"@[i] != ':' by {
                assert(i == 0 || i == 1 || i == 2 || i == 3 || i == 4 || i == 5 || i == 6 || i == 7 || i == 8 || i == 9 || i == 10 || i == 11 || i == 12);
            }
        },
        CardId::Security(_) => {
            reveal_strlit("security");
            assert forall|i: int| 0 <= i < "security"@.len() implies "security"@[i] != ':' by {
                assert(i == 0 || i == 1 || i == 2 || i == 3 || i == 4 || i == 5 || i == 6 || i == 7);
            }
        },
        CardId::Backup(_) => {
            reveal_strlit("backup");
            assert forall|i: int| 0 <= i < "backup"@.len() implies "backup"@[i] != ':' by {
                assert(i == 0 || i == 1 || i == 2 || i == 3 || i == 4 || i == 5);
            }
        },
        CardId::Mail(_) => {
            reveal_strlit("mail");
            assert forall|i: int| 0 <= i < "mail"@.len() implies "mail"@[i] != ':' by {
                assert(i == 0 || i == 1 || i == 2 || i == 3);
            }
        },
        CardId::Calendar(_) => {
            reveal_strlit("calendar");
            assert forall|i: int| 0 <= i < "calendar"@.len() implies "calendar"@[i] != ':' by {
                assert(i == 0 || i == 1 || i == 2 || i == 3 || i == 4 || i == 5 || i == 6 || i == 7);
            }
        },
        CardId::Notes(_) => {
            reveal_strlit("notes");
            assert forall|i: int| 0 <= i < "notes"@.len() implies "notes"@[i] != ':' by {
                assert(i == 0 || i == 1 || i == 2 || i == 3 || i == 4);
            }
        },
        CardId::Contacts(_) => {
            reveal_strlit("contacts");
            assert forall|i: int| 0 <= i < "contacts"@.len() implies "contacts"@[i] != ':' by {
                assert(i == 0 || i == 1 || i == 2 || i == 3 || i == 4 || i == 5 || i == 6 || i == 7);
            }
        },
        CardId::CognitiveGraph(_) => {
            reveal_strlit("cognitive-graph");
            assert forall|i: int| 0 <= i < "cognitive-graph"@.len() implies "cognitive-graph"@[i] != ':' by {
                assert(i == 0 || i == 1 || i == 2 || i == 3 || i == 4 || i == 5 || i == 6 || i == 7 || i == 8 || i == 9 || i == 10 || i == 11 || i == 12 || i == 13 || i == 14);
            }
        },
        CardId::EventJournal(_) => {
            reveal_strlit("event-journal");
            assert forall|i: int| 0 <= i < "event-journal"@.len() implies "event-journal"@[i] != ':' by {
                assert(i == 0 || i == 1 || i == 2 || i == 3 || i == 4 || i == 5 || i == 6 || i == 7 || i == 8 || i == 9 || i == 10 || i == 11 || i == 12);
            }
        },
        CardId::Meaning(_) => {
            reveal_strlit("meaning");
            assert forall|i: int| 0 <= i < "meaning"@.len() implies "meaning"@[i] != ':' by {
                assert(i == 0 || i == 1 || i == 2 || i == 3 || i == 4 || i == 5 || i == 6);
            }
        },
        CardId::Learning(_) => {
            reveal_strlit("learning");
            assert forall|i: int| 0 <= i < "learning"@.len() implies "learning"@[i] != ':' by {
                assert(i == 0 || i == 1 || i == 2 || i == 3 || i == 4 || i == 5 || i == 6 || i == 7);
            }
        },
        CardId::Outline => {
            reveal_strlit("outline");
            assert forall|i: int| 0 <= i < "outline"@.len() implies "outline"@[i] != ':' by {
                assert(i == 0 || i == 1 || i == 2 || i == 3 || i == 4 || i == 5 || i == 6);
            }
        },
    }
}

/// Every card has a title to show.
pub proof fn lemma_title_is_not_empty(c: CardId)
    ensures
        c.title_text().len() > 0,
{
    match c {
        CardId::Identity => { reveal_strlit("Identity"); },
        CardId::Session => { reveal_strlit("Session"); },
        CardId::Capabilities => { reveal_strlit("Capabilities"); },
        CardId::Journal => { reveal_strlit("Journal"); },
        CardId::Lifecycle => { reveal_strlit("Lifecycle"); },
        CardId::Commitments => { reveal_strlit("Commitments"); },
        CardId::SelfModel => { reveal_strlit("Self-assessment"); },
        CardId::Attention => { reveal_strlit("Attention"); },
        CardId::Beliefs => { reveal_strlit("Beliefs"); },
        CardId::Perception => { reveal_strlit("Perception"); },
        CardId::Context => { reveal_strlit("Context"); },
        CardId::Disclosure => { reveal_strlit("Disclosure"); },
        CardId::Insight => { reveal_strlit("System Insight"); },
        CardId::Agents => { reveal_strlit("Agents"); },
        CardId::Shell(_) => { reveal_strlit("Shell"); },
        CardId::FileManager(_) => { reveal_strlit("File Manager"); },
        CardId::JournalFeed(_) => { reveal_strlit("Presence Stream"); },
        CardId::Editor(_) => { reveal_strlit("Text Editor"); },
        CardId::Diff(_) => { reveal_strlit("Diff Viewer"); },
        CardId::Inspector(_) => { reveal_strlit("Universal Inspector"); },
        CardId::Operations(_) => { reveal_strlit("Operations"); },
        CardId::Notifications(_) => { reveal_strlit("Notifications"); },
        CardId::Services(_) => { reveal_strlit("Services"); },
        CardId::Processes(_) => { reveal_strlit("Processes"); },
        CardId::Monitor(_) => { reveal_strlit("System Monitor"); },
        CardId::SystemLogs(_) => { reveal_strlit("System Logs"); },
        CardId::Storage(_) => { reveal_strlit("Storage & Snapshots"); },
        CardId::Network(_) => { reveal_strlit("Network Connections"); },
        CardId::Packages(_) => { reveal_strlit("Package Manager"); },
        CardId::Updates(_) => { reveal_strlit("System Updates"); },
        CardId::UserSettings(_) => { reveal_strlit("Users & SSH Keys"); },
        CardId::Security(_) => { reveal_strlit("Security & Sandboxing"); },
        CardId::Backup(_) => { reveal_strlit("Backup & Vault"); },
        CardId::Mail(_) => { reveal_strlit("Mail & Messages"); },
        CardId::Calendar(_) => { reveal_strlit("Calendar & Schedule"); },
        CardId::Notes(_) => { reveal_strlit("Notes & Ideas"); },
        CardId::Contacts(_) => { reveal_strlit("Contacts Directory"); },
        CardId::CognitiveGraph(_) => { reveal_strlit("Cognitive Graph & Causal DAG"); },
        CardId::EventJournal(_) => { reveal_strlit("Canonical Event1 Journal"); },
        CardId::Meaning(_) => { reveal_strlit("Meaning & Dialogue Assistant"); },
        CardId::Learning(_) => { reveal_strlit("Lifelong Learning & Governance"); },
        CardId::Outline => { reveal_strlit("Canvas Outline"); },
    }
}

/// Two cards of one type with the same instance number are the same card.
proof fn lemma_type_and_instance_determine_card(a: CardId, b: CardId)
    requires
        a.type_default() == b.type_default(),
        a.instance_number() == b.instance_number(),
    ensures
        a == b,
{
}

/// An instance key of a tool card holds its colon right after the type key.
proof fn lemma_instance_key_shape(c: CardId)
    ensures
        c.instance_number() is None ==> !c.instance_key_text().contains(':'),
        c.instance_number() is Some ==> c.instance_key_text()[c.key_text().len() as int] == ':',
        c.instance_number() is Some ==> c.instance_key_text().len() > c.key_text().len(),
{
    lemma_key_has_no_colon(c);
    if let Some(i) = c.instance_number() {
        lemma_decimal_text(i as nat);
    }
}

/// Different cards never share an instance key: two editors, or an editor and a file manager with
/// the same number, are always told apart in a saved layout.
pub proof fn lemma_instance_keys_do_not_alias(a: CardId, b: CardId)
    requires
        a.instance_key_text() == b.instance_key_text(),
    ensures
        a == b,
{
    lemma_key_has_no_colon(a);
    lemma_key_has_no_colon(b);
    lemma_instance_key_shape(a);
    lemma_instance_key_shape(b);
    lemma_key_round_trip(a);
    lemma_key_round_trip(b);
    let s = a.instance_key_text();
    match (a.instance_number(), b.instance_number()) {
        (Some(n), Some(m)) => {
            let ka = a.key_text();
            let kb = b.key_text();
            if ka.len() < kb.len() {
                assert(s[ka.len() as int] == kb[ka.len() as int]);
                assert(kb.contains(':'));
            }
            if kb.len() < ka.len() {
                assert(s[kb.len() as int] == ka[kb.len() as int]);
                assert(ka.contains(':'));
            }
            assert(ka.len() == kb.len());
            assert(ka =~= s.subrange(0, ka.len() as int));
            assert(kb =~= s.subrange(0, kb.len() as int));
            assert(decimal_text(n as nat) =~= s.subrange(ka.len() + 1int, s.len() as int));
            assert(decimal_text(m as nat) =~= s.subrange(kb.len() + 1int, s.len() as int));
            lemma_decimal_text_injective(n as nat, m as nat);
            lemma_type_and_instance_determine_card(a, b);
        },
        (None, None) => {
            lemma_type_and_instance_determine_card(a, b);
        },
        (Some(n), None) => {
            assert(s.contains(':'));
        },
        (None, Some(m)) => {
            assert(s.contains(':'));
        },
    }
}

/// A persisted identity written with an instance key names exactly that instance and no other.
pub proof fn lemma_persisted_instance_key_names_only_its_card(a: CardId, b: CardId)
    ensures
        a.persisted_key_matches(b.instance_key_text()) <==> a == b,
{
    if a.persisted_key_matches(b.instance_key_text()) {
        if b.instance_key_text() == a.instance_key_text() {
            lemma_instance_keys_do_not_alias(a, b);
        } else {
            lemma_instance_key_shape(b);
            lemma_key_round_trip(a);
            lemma_key_round_trip(b);
            lemma_type_and_instance_determine_card(a, b);
        }
    }
}

/// A type-only key, as layouts saved before instance keys existed wrote it, still names every
/// instance of that type.
pub proof fn lemma_type_key_names_every_instance(c: CardId)
    ensures
        c.persisted_key_matches(c.key_text()),
{
    lemma_key_has_no_colon(c);
}

/// The system cards are exactly the fourteen listed in [`CardId::ALL_SYSTEM_CARDS`], and each
/// round-trips through its key.
pub proof fn lemma_system_cards_are_listed(c: CardId)
    ensures
        c.is_system_card() <==> CardId::ALL_SYSTEM_CARDS@.contains(c),
        c.is_system_card() ==> CardId::card_for_key(c.key_text()) == Some(c),
{
    lemma_key_round_trip(c);
    if c.is_system_card() {
        let all = CardId::ALL_SYSTEM_CARDS@;
        assert(all[0] == CardId::Identity);
        assert(all[1] == CardId::Session);
        assert(all[2] == CardId::Capabilities);
        assert(all[3] == CardId::Journal);
        assert(all[4] == CardId::Lifecycle);
        assert(all[5] == CardId::Commitments);
        assert(all[6] == CardId::SelfModel);
        assert(all[7] == CardId::Attention);
        assert(all[8] == CardId::Beliefs);
        assert(all[9] == CardId::Perception);
        assert(all[10] == CardId::Context);
        assert(all[11] == CardId::Disclosure);
        assert(all[12] == CardId::Insight);
        assert(all[13] == CardId::Agents);
    }
}

/// Every system card is a permanent, singleton, movable, resizable, collapsible, deckable card
/// that cannot be closed, and the system cards are exactly the cards of the system kind.
pub proof fn lemma_system_card_bounds(c: CardId)
    ensures
        c.is_system_card() <==> c.layout_bounds().kind == CardKind::System,
        c.is_system_card() ==> {
            let s = c.layout_bounds();
            &&& s.singleton
            &&& s.movable
            &&& s.resizable
            &&& s.collapsible
            &&& !s.closable
            &&& s.deckable
        },
{
}

/// Only the permanent Mind cards stay open for good: every other card is a tool that a person can
/// close, and it shows a close button; a system card shows none.
pub proof fn lemma_every_tool_card_can_be_closed(c: CardId)
    ensures
        c.layout_bounds().closable <==> !c.is_system_card(),
        c.layout_bounds().closable <==> c.layout_bounds().kind == CardKind::Tool,
        c.layout_bounds().kind != CardKind::Ephemeral,
{
}

/// Every card type opens at a size inside its own bounds.
pub proof fn lemma_default_size_within_bounds(c: CardId)
    ensures
        c.layout_bounds().min_size.0 <= c.layout_bounds().default_size.0
            <= c.layout_bounds().max_size.0,
        c.layout_bounds().min_size.1 <= c.layout_bounds().default_size.1
            <= c.layout_bounds().max_size.1,
{
}


/// Panel representation tier for a card instance.
#[derive(Clone, Copy, Debug, Default, PartialEq, Eq, Structural)]
pub enum PanelRepresentation {
    /// Standard regular working view.
    #[default]
    Standard,
    /// Highly compact status chip.
    Glance,
    /// Comprehensive forensic and in-depth view.
    Expanded,
}

impl PanelRepresentation {
    /// The label a person reads for this tier.
    pub open spec fn label_text(self) -> Seq<char> {
        match self {
            PanelRepresentation::Standard => "Standard"@,
            PanelRepresentation::Glance => "Glance"@,
            PanelRepresentation::Expanded => "Expanded"@,
        }
    }

    /// The tier a cycle step moves to: standard, then expanded, then glance, then standard again.
    pub open spec fn next_tier(self) -> PanelRepresentation {
        match self {
            PanelRepresentation::Standard => PanelRepresentation::Expanded,
            PanelRepresentation::Expanded => PanelRepresentation::Glance,
            PanelRepresentation::Glance => PanelRepresentation::Standard,
        }
    }

    /// Human-readable label.
    pub fn label(&self) -> (r: &'static str)
        ensures
            r@ == self.label_text(),
    {
        match self {
            PanelRepresentation::Standard => "Standard",
            PanelRepresentation::Glance => "Glance",
            PanelRepresentation::Expanded => "Expanded",
        }
    }

    /// Next representation in the cycle.
    pub fn cycle(&self) -> (r: PanelRepresentation)
        ensures
            r == self.next_tier(),
    {
        match self {
            PanelRepresentation::Standard => PanelRepresentation::Expanded,
            PanelRepresentation::Expanded => PanelRepresentation::Glance,
            PanelRepresentation::Glance => PanelRepresentation::Standard,
        }
    }
}

/// Cycling always changes the tier, and three steps bring every tier back to itself, passing
/// through all three on the way.
pub proof fn lemma_cycle_visits_every_tier(r: PanelRepresentation)
    ensures
        r.next_tier() != r,
        r.next_tier().next_tier() != r,
        r.next_tier().next_tier().next_tier() == r,
{
}

/// Presentation mode of a card instance.
#[derive(Clone, Copy, Debug, Default, PartialEq, Eq, Structural)]
pub struct CardPresentation {
    /// Whether the card is collapsed into a single-line summary pill.
    pub collapsed: bool,
    /// Whether the card is pinned against automatic arrangement.
    pub pinned: bool,
    /// Representation tier.
    pub representation: PanelRepresentation,
}

impl CardPresentation {
    /// The menu item that toggles pinning names what it would do.
    pub open spec fn pin_action_text(self) -> Seq<char> {
        if self.pinned {
            "Unpin position"@
        } else {
            "Pin position"@
        }
    }

    /// The menu item that toggles pinning.
    pub fn pin_action(&self) -> (r: &'static str)
        ensures
            r@ == self.pin_action_text(),
    {
        if self.pinned {
            "Unpin position"
        } else {
            "Pin position"
        }
    }

    /// The menu item that toggles collapsing names what it would do.
    pub open spec fn collapse_action_text(self) -> Seq<char> {
        if self.collapsed {
            "Expand"@
        } else {
            "Collapse"@
        }
    }

    /// The menu item that toggles collapsing.
    pub fn collapse_action(&self) -> (r: &'static str)
        ensures
            r@ == self.collapse_action_text(),
    {
        if self.collapsed {
            "Expand"
        } else {
            "Collapse"
        }
    }
}

impl CardId {
    /// Whether the card's header offers a close button: only a card that can be closed shows one.
    pub fn shows_close_button(self) -> (r: bool)
        ensures
            r == self.layout_bounds().closable,
            self.is_system_card() ==> !r,
    {
        proof {
            lemma_system_card_bounds(self);
        }
        self.spec().closable
    }
}

} // verus!
