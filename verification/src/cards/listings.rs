//! Which rows the Services, Notifications and Packages cards list, and what the package buttons
//! offer.

use crate::text::{contains_text, lowercase, lowercased, occurs_in, same_text};
use vstd::prelude::*;

verus! {

/// Whether a search lets a row through: an empty search lets everything through; otherwise the
/// lowercased search must occur in one of the row's two lowercased texts.
pub open spec fn search_lets_through(search: Seq<char>, first: Seq<char>, second: Seq<char>) -> bool {
    let q = lowercase(search);
    q.len() == 0 || occurs_in(q, lowercase(first)) || occurs_in(q, lowercase(second))
}

/// Whether a search lets a row through.
pub fn search_matches(search: &str, first: &str, second: &str) -> (r: bool)
    ensures
        r == search_lets_through(search@, first@, second@),
{
    let q = lowercased(search);
    q.as_str().is_empty() || contains_text(lowercased(first).as_str(), q.as_str()) || contains_text(
        lowercased(second).as_str(),
        q.as_str(),
    )
}

/// Whether the Event Journal search lets an entry through: an empty search lets everything
/// through; otherwise the lowercased search must occur in the entry's lowercased summary, event
/// type or originating organ.
pub open spec fn journal_search_lets_through(
    search: Seq<char>,
    summary: Seq<char>,
    event_type: Seq<char>,
    origin: Seq<char>,
) -> bool {
    let q = lowercase(search);
    q.len() == 0 || occurs_in(q, lowercase(summary)) || occurs_in(q, lowercase(event_type))
        || occurs_in(q, lowercase(origin))
}

/// Whether the Event Journal search lets an entry through.
pub fn journal_entry_matches(search: &str, summary: &str, event_type: &str, origin: &str) -> (r:
    bool)
    ensures
        r == journal_search_lets_through(search@, summary@, event_type@, origin@),
{
    let q = lowercased(search);
    q.as_str().is_empty() || contains_text(lowercased(summary).as_str(), q.as_str())
        || contains_text(lowercased(event_type).as_str(), q.as_str()) || contains_text(
        lowercased(origin).as_str(),
        q.as_str(),
    )
}

/// What a notification is about.
#[derive(Clone, Copy, Debug, Eq, PartialEq, Structural)]
pub enum NotificationCategory {
    /// Something that needs a person's attention.
    Attention,
    /// New evidence.
    Evidence,
    /// The system itself.
    System,
    /// An agent.
    Agent,
    /// A background operation.
    Operation,
}

/// Whether the notifications list shows a notification: never once dismissed, only of the chosen
/// category when one is chosen, and only when the search lets its title or body through.
pub open spec fn notification_shown(
    dismissed: bool,
    category: NotificationCategory,
    chosen: Option<NotificationCategory>,
    title: Seq<char>,
    body: Seq<char>,
    search: Seq<char>,
) -> bool {
    !dismissed && (match chosen {
        Some(c) => category == c,
        None => true,
    }) && search_lets_through(search, title, body)
}

/// Whether the notifications list shows a notification.
pub fn shows_notification(
    dismissed: bool,
    category: NotificationCategory,
    chosen: Option<NotificationCategory>,
    title: &str,
    body: &str,
    search: &str,
) -> (r: bool)
    ensures
        r == notification_shown(dismissed, category, chosen, title@, body@, search@),
{
    if dismissed {
        return false;
    }
    let by_category = match chosen {
        Some(c) => category == c,
        None => true,
    };
    by_category && search_matches(search, title, body)
}

/// The state of a system service, as far as the Services card tells states apart.
#[derive(Clone, Copy, Debug, Eq, PartialEq, Structural)]
pub enum ServiceState {
    /// Running.
    Active,
    /// Failed.
    Failed,
    /// Stopped.
    Inactive,
    /// Any other state, such as one in transition.
    Other,
}

/// Whether the services list shows a service: only in the chosen state when one is chosen, and
/// only when the search lets its name or description through.
pub open spec fn service_shown(
    state: ServiceState,
    chosen: Option<ServiceState>,
    name: Seq<char>,
    description: Seq<char>,
    search: Seq<char>,
) -> bool {
    (match chosen {
        Some(c) => state == c,
        None => true,
    }) && search_lets_through(search, name, description)
}

/// Whether the services list shows a service.
pub fn shows_service(
    state: ServiceState,
    chosen: Option<ServiceState>,
    name: &str,
    description: &str,
    search: &str,
) -> (r: bool)
    ensures
        r == service_shown(state, chosen, name@, description@, search@),
{
    let by_state = match chosen {
        Some(c) => state == c,
        None => true,
    };
    by_state && search_matches(search, name, description)
}

/// How many of the states are `wanted`.
pub open spec fn count_in_state(states: Seq<ServiceState>, wanted: ServiceState) -> nat
    decreases states.len(),
{
    if states.len() == 0 {
        0
    } else {
        count_in_state(states.drop_last(), wanted) + if states.last() == wanted {
            1nat
        } else {
            0nat
        }
    }
}

/// How many services are active and how many failed, for the card's header.
pub fn active_and_failed(states: &Vec<ServiceState>) -> (r: (usize, usize))
    ensures
        r.0 == count_in_state(states@, ServiceState::Active),
        r.1 == count_in_state(states@, ServiceState::Failed),
{
    let mut active: usize = 0;
    let mut failed: usize = 0;
    let mut i: usize = 0;
    while i < states.len()
        invariant
            i <= states.len(),
            active == count_in_state(states@.take(i as int), ServiceState::Active),
            failed == count_in_state(states@.take(i as int), ServiceState::Failed),
            active <= i,
            failed <= i,
        decreases states.len() - i,
    {
        assert(states@.take(i as int + 1).drop_last() =~= states@.take(i as int));
        match states[i] {
            ServiceState::Active => {
                active = active + 1;
            },
            ServiceState::Failed => {
                failed = failed + 1;
            },
            _ => {},
        }
        i = i + 1;
    }
    assert(states@.take(states.len() as int) =~= states@);
    (active, failed)
}

/// Where a package stands on this host.
#[derive(Clone, Copy, Debug, Eq, PartialEq, Structural)]
pub enum PackageStatus {
    /// Installed and current.
    Installed,
    /// Installed, with a newer version available.
    Upgradable,
    /// Not installed.
    NotInstalled,
}

/// Whether the packages list shows a package under the chosen tab: "installed" shows installed
/// and upgradable packages, "upgradable" only upgradable ones, any other tab everything; and only
/// when the search lets its name or description through.
pub open spec fn package_shown(
    status: PackageStatus,
    tab: Seq<char>,
    name: Seq<char>,
    description: Seq<char>,
    search: Seq<char>,
) -> bool {
    let by_tab = if tab == "installed"@ {
        status == PackageStatus::Installed || status == PackageStatus::Upgradable
    } else if tab == "upgradable"@ {
        status == PackageStatus::Upgradable
    } else {
        true
    };
    by_tab && search_lets_through(search, name, description)
}

/// Whether the packages list shows a package under the chosen tab.
pub fn shows_package(status: PackageStatus, tab: &str, name: &str, description: &str, search: &str) -> (r: bool)
    ensures
        r == package_shown(status, tab@, name@, description@, search@),
{
    let by_tab = if same_text(tab, "installed") {
        status == PackageStatus::Installed || status == PackageStatus::Upgradable
    } else if same_text(tab, "upgradable") {
        status == PackageStatus::Upgradable
    } else {
        true
    };
    by_tab && search_matches(search, name, description)
}

/// What the button beside a package does.
#[derive(Clone, Copy, Debug, Eq, PartialEq, Structural)]
pub enum PackageAction {
    /// Install the newer version.
    Upgrade,
    /// Remove the installed package.
    Remove,
    /// Install the package.
    Install,
}

/// What the button beside a package offers: an upgrade when one is available, removal when it is
/// installed and current, installation otherwise.
pub fn package_action(status: PackageStatus) -> (r: PackageAction)
    ensures
        status == PackageStatus::Upgradable <==> r == PackageAction::Upgrade,
        status == PackageStatus::Installed <==> r == PackageAction::Remove,
        status == PackageStatus::NotInstalled <==> r == PackageAction::Install,
{
    match status {
        PackageStatus::Upgradable => PackageAction::Upgrade,
        PackageStatus::Installed => PackageAction::Remove,
        PackageStatus::NotInstalled => PackageAction::Install,
    }
}

/// The services list answers to its search and its state tab: with no state chosen, a service
/// whose name or description holds the search (case aside) is shown, and so is every service when
/// the search is empty; a service is only ever shown in the state chosen, and only when its name
/// or description holds the search.
pub proof fn lemma_services_search_reads_name_and_description(
    state: ServiceState,
    chosen: Option<ServiceState>,
    name: Seq<char>,
    description: Seq<char>,
    search: Seq<char>,
)
    ensures
        occurs_in(lowercase(search), lowercase(name)) ==> service_shown(state, None, name, description, search),
        occurs_in(lowercase(search), lowercase(description)) ==> service_shown(
            state,
            None,
            name,
            description,
            search,
        ),
        lowercase(search).len() == 0 ==> service_shown(state, None, name, description, search),
        lowercase(search).len() == 0 ==> service_shown(state, Some(state), name, description, search),
        service_shown(state, chosen, name, description, search) ==> (chosen matches Some(c) ==> c
            == state),
        service_shown(state, chosen, name, description, search) ==> (lowercase(search).len() == 0
            || occurs_in(lowercase(search), lowercase(name)) || occurs_in(
            lowercase(search),
            lowercase(description),
        )),
{
}

/// The notifications list never shows a dismissed notification; otherwise, with no category
/// chosen, one whose title or body holds the search (case aside) is shown, and only one of the
/// chosen category is shown when a category is chosen.
pub proof fn lemma_notifications_search_reads_title_and_body(
    dismissed: bool,
    category: NotificationCategory,
    chosen: Option<NotificationCategory>,
    title: Seq<char>,
    body: Seq<char>,
    search: Seq<char>,
)
    ensures
        dismissed ==> !notification_shown(dismissed, category, chosen, title, body, search),
        occurs_in(lowercase(search), lowercase(title)) ==> notification_shown(
            false,
            category,
            None,
            title,
            body,
            search,
        ),
        occurs_in(lowercase(search), lowercase(body)) ==> notification_shown(
            false,
            category,
            None,
            title,
            body,
            search,
        ),
        notification_shown(dismissed, category, chosen, title, body, search) ==> (chosen matches Some(
            c,
        ) ==> c == category),
        notification_shown(dismissed, category, chosen, title, body, search) ==> (lowercase(
            search,
        ).len() == 0 || occurs_in(lowercase(search), lowercase(title)) || occurs_in(
            lowercase(search),
            lowercase(body),
        )),
{
}

/// The packages list under any tab but "installed" and "upgradable" shows every package whose
/// name or description holds the search (case aside); "upgradable" shows only upgradable
/// packages, and "installed" never shows one that is not installed.
pub proof fn lemma_packages_search_reads_name_and_description(
    status: PackageStatus,
    tab: Seq<char>,
    name: Seq<char>,
    description: Seq<char>,
    search: Seq<char>,
)
    ensures
        tab != "installed"@ && tab != "upgradable"@ && (occurs_in(lowercase(search), lowercase(name))
            || occurs_in(lowercase(search), lowercase(description))) ==> package_shown(
            status,
            tab,
            name,
            description,
            search,
        ),
        package_shown(status, "upgradable"@, name, description, search) ==> status
            == PackageStatus::Upgradable,
        package_shown(status, "installed"@, name, description, search) ==> status
            != PackageStatus::NotInstalled,
        package_shown(status, tab, name, description, search) ==> (lowercase(search).len() == 0
            || occurs_in(lowercase(search), lowercase(name)) || occurs_in(
            lowercase(search),
            lowercase(description),
        )),
{
    reveal_strlit("installed");
    reveal_strlit("upgradable");
    assert("upgradable"@.len() == 10);
    assert("installed"@.len() == 9);
    assert("upgradable"@ != "installed"@);
}

/// The Event Journal search reads the summary, the event type and the originating organ: an entry
/// any of which holds the search (case aside) is let through, and no other unless the search is
/// empty.
pub proof fn lemma_journal_search_reads_three_fields(
    search: Seq<char>,
    summary: Seq<char>,
    event_type: Seq<char>,
    origin: Seq<char>,
)
    ensures
        occurs_in(lowercase(search), lowercase(summary)) || occurs_in(
            lowercase(search),
            lowercase(event_type),
        ) || occurs_in(lowercase(search), lowercase(origin)) || lowercase(search).len() == 0
            <==> journal_search_lets_through(search, summary, event_type, origin),
{
}

} // verus!
