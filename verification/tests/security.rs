use living_canvas::cards::security::{state_word, switch_subsystem, SecurityPolicy, Subsystem};

#[test]
fn an_unread_policy_is_taken_as_fully_enforced() {
    let p = switch_subsystem(None, Subsystem::Seccomp);
    assert_eq!(
        p,
        SecurityPolicy {
            landlock_enabled: true,
            bubblewrap_enabled: true,
            apparmor_enforcing: true,
            seccomp_strict: false,
            egress_firewall_strict: true,
        }
    );
}

#[test]
fn switching_twice_asks_for_the_policy_there_was() {
    let start = SecurityPolicy {
        landlock_enabled: false,
        bubblewrap_enabled: true,
        apparmor_enforcing: false,
        seccomp_strict: true,
        egress_firewall_strict: false,
    };
    let once = switch_subsystem(Some(start), Subsystem::Landlock);
    assert!(once.landlock_enabled);
    assert_eq!(once.bubblewrap_enabled, start.bubblewrap_enabled);
    assert_eq!(switch_subsystem(Some(once), Subsystem::Landlock), start);
}

#[test]
fn each_switch_names_its_state() {
    assert_eq!(state_word(Subsystem::Landlock, true), "ENFORCED");
    assert_eq!(state_word(Subsystem::AppArmor, false), "DISABLED");
    assert_eq!(state_word(Subsystem::Seccomp, true), "STRICT");
    assert_eq!(state_word(Subsystem::EgressFirewall, false), "PERMISSIVE");
}
