//! What the Security card asks for when a confinement subsystem is switched, and how each
//! subsystem's state is named.

use vstd::prelude::*;

verus! {

/// The host's confinement policy.
#[derive(Clone, Copy, Debug, Eq, PartialEq, Structural)]
pub struct SecurityPolicy {
    /// Landlock filesystem restriction.
    pub landlock_enabled: bool,
    /// Bubblewrap namespaces.
    pub bubblewrap_enabled: bool,
    /// AppArmor enforcement.
    pub apparmor_enforcing: bool,
    /// Strict seccomp filtering.
    pub seccomp_strict: bool,
    /// Strict egress firewalling.
    pub egress_firewall_strict: bool,
}

/// One confinement subsystem.
#[derive(Clone, Copy, Debug, Eq, PartialEq, Structural)]
pub enum Subsystem {
    /// Landlock.
    Landlock,
    /// Bubblewrap.
    Bubblewrap,
    /// AppArmor.
    AppArmor,
    /// Seccomp.
    Seccomp,
    /// The egress firewall.
    EgressFirewall,
}

/// The policy assumed before one was read: every subsystem on.
pub open spec fn assumed_policy() -> SecurityPolicy {
    SecurityPolicy {
        landlock_enabled: true,
        bubblewrap_enabled: true,
        apparmor_enforcing: true,
        seccomp_strict: true,
        egress_firewall_strict: true,
    }
}

/// Whether a subsystem is on in a policy.
pub open spec fn is_on(policy: SecurityPolicy, subsystem: Subsystem) -> bool {
    match subsystem {
        Subsystem::Landlock => policy.landlock_enabled,
        Subsystem::Bubblewrap => policy.bubblewrap_enabled,
        Subsystem::AppArmor => policy.apparmor_enforcing,
        Subsystem::Seccomp => policy.seccomp_strict,
        Subsystem::EgressFirewall => policy.egress_firewall_strict,
    }
}

/// The policy asked for when a subsystem is switched: the current policy, or every subsystem on
/// when none was read, with that one subsystem switched and the others as they were.
pub open spec fn switched_policy(current: Option<SecurityPolicy>, subsystem: Subsystem) -> SecurityPolicy {
    let p = match current {
        Some(p) => p,
        None => assumed_policy(),
    };
    match subsystem {
        Subsystem::Landlock => SecurityPolicy { landlock_enabled: !p.landlock_enabled, ..p },
        Subsystem::Bubblewrap => SecurityPolicy { bubblewrap_enabled: !p.bubblewrap_enabled, ..p },
        Subsystem::AppArmor => SecurityPolicy { apparmor_enforcing: !p.apparmor_enforcing, ..p },
        Subsystem::Seccomp => SecurityPolicy { seccomp_strict: !p.seccomp_strict, ..p },
        Subsystem::EgressFirewall => SecurityPolicy {
            egress_firewall_strict: !p.egress_firewall_strict,
            ..p
        },
    }
}

/// The policy asked for when a subsystem is switched.
pub fn switch_subsystem(current: Option<SecurityPolicy>, subsystem: Subsystem) -> (r: SecurityPolicy)
    ensures
        r == switched_policy(current, subsystem),
{
    let mut p = match current {
        Some(p) => p,
        None => SecurityPolicy {
            landlock_enabled: true,
            bubblewrap_enabled: true,
            apparmor_enforcing: true,
            seccomp_strict: true,
            egress_firewall_strict: true,
        },
    };
    match subsystem {
        Subsystem::Landlock => p.landlock_enabled = !p.landlock_enabled,
        Subsystem::Bubblewrap => p.bubblewrap_enabled = !p.bubblewrap_enabled,
        Subsystem::AppArmor => p.apparmor_enforcing = !p.apparmor_enforcing,
        Subsystem::Seccomp => p.seccomp_strict = !p.seccomp_strict,
        Subsystem::EgressFirewall => p.egress_firewall_strict = !p.egress_firewall_strict,
    }
    p
}

/// The word a subsystem's switch shows: Landlock, Bubblewrap and AppArmor are enforced or
/// disabled; seccomp and the egress firewall are strict or permissive.
pub open spec fn state_word_text(subsystem: Subsystem, on: bool) -> Seq<char> {
    match subsystem {
        Subsystem::Seccomp | Subsystem::EgressFirewall => if on {
            "STRICT"@
        } else {
            "PERMISSIVE"@
        },
        _ => if on {
            "ENFORCED"@
        } else {
            "DISABLED"@
        },
    }
}

/// The word a subsystem's switch shows.
pub fn state_word(subsystem: Subsystem, on: bool) -> (r: &'static str)
    ensures
        r@ == state_word_text(subsystem, on),
{
    match subsystem {
        Subsystem::Seccomp | Subsystem::EgressFirewall => if on {
            "STRICT"
        } else {
            "PERMISSIVE"
        },
        _ => if on {
            "ENFORCED"
        } else {
            "DISABLED"
        },
    }
}

/// Switching a subsystem changes that subsystem and no other, and switching it again asks for the
/// policy there was.
pub proof fn lemma_switching_touches_one_subsystem(
    current: Option<SecurityPolicy>,
    subsystem: Subsystem,
    other: Subsystem,
)
    ensures
        ({
            let before = match current {
                Some(p) => p,
                None => assumed_policy(),
            };
            let after = switched_policy(current, subsystem);
            &&& is_on(after, subsystem) != is_on(before, subsystem)
            &&& other != subsystem ==> is_on(after, other) == is_on(before, other)
            &&& switched_policy(Some(after), subsystem) == before
        }),
{
}

} // verus!
