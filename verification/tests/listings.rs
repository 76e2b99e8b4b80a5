use living_canvas::cards::listings::{
    active_and_failed, journal_entry_matches, package_action, search_matches, shows_notification, shows_package,
    shows_service, NotificationCategory, PackageAction, PackageStatus, ServiceState,
};

#[test]
fn an_empty_search_lets_everything_through() {
    assert!(search_matches("", "a", "b"));
    assert!(search_matches("NGINX", "nginx.service", "web server"));
    assert!(search_matches("server", "nginx.service", "Web Server"));
    assert!(!search_matches("ssh", "nginx.service", "web server"));
}

#[test]
fn dismissed_notifications_are_never_listed() {
    assert!(shows_notification(false, NotificationCategory::Attention, None, "Disk", "almost full", ""));
    assert!(!shows_notification(true, NotificationCategory::Attention, None, "Disk", "almost full", ""));
    assert!(shows_notification(false, NotificationCategory::Agent, Some(NotificationCategory::Agent), "Run", "finished", "FIN"));
    assert!(!shows_notification(false, NotificationCategory::Agent, Some(NotificationCategory::System), "Run", "finished", ""));
    assert!(!shows_notification(false, NotificationCategory::Operation, None, "Run", "finished", "disk"));
}

#[test]
fn services_are_listed_by_state_and_search_and_counted() {
    assert!(shows_service(ServiceState::Active, None, "sshd", "OpenSSH", ""));
    assert!(shows_service(ServiceState::Failed, Some(ServiceState::Failed), "cron", "daemon", "cro"));
    assert!(!shows_service(ServiceState::Inactive, Some(ServiceState::Active), "cron", "daemon", ""));
    assert_eq!(active_and_failed(&vec![ServiceState::Active, ServiceState::Failed, ServiceState::Active, ServiceState::Inactive, ServiceState::Other]), (2, 1));
    assert_eq!(active_and_failed(&vec![]), (0, 0));
}

#[test]
fn package_tabs_and_buttons() {
    assert!(shows_package(PackageStatus::Installed, "installed", "vim", "editor", ""));
    assert!(shows_package(PackageStatus::Upgradable, "installed", "vim", "editor", ""));
    assert!(!shows_package(PackageStatus::NotInstalled, "installed", "vim", "editor", ""));
    assert!(shows_package(PackageStatus::Upgradable, "upgradable", "vim", "editor", "EDIT"));
    assert!(!shows_package(PackageStatus::Installed, "upgradable", "vim", "editor", ""));
    assert!(shows_package(PackageStatus::NotInstalled, "all", "vim", "editor", ""));
    assert!(!shows_package(PackageStatus::NotInstalled, "all", "vim", "editor", "emacs"));
    assert_eq!(package_action(PackageStatus::Upgradable), PackageAction::Upgrade);
    assert_eq!(package_action(PackageStatus::Installed), PackageAction::Remove);
    assert_eq!(package_action(PackageStatus::NotInstalled), PackageAction::Install);
}

#[test]
fn the_event_journal_search_reads_three_fields() {
    assert!(journal_entry_matches("", "a", "b", "c"));
    assert!(journal_entry_matches("ACTION", "ran", "ActionDone", "actiond"));
    assert!(journal_entry_matches("securityd", "blocked", "policy", "SecurityD"));
    assert!(journal_entry_matches("disk", "Disk full", "alert", "monitord"));
    assert!(!journal_entry_matches("mail", "Disk full", "alert", "monitord"));
}
