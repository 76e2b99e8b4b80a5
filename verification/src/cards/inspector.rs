//! What the Inspector says about the subject it is pointed at: where its facts come from, what
//! was last observed of it, and which subject a typed query names.

use crate::cards::telemetry::mebibytes;
use crate::text::{append_decimal, decimal_text, same_text, trim_text, trimmed};
use vstd::prelude::*;

verus! {

/// What the Inspector found live for its subject, checked in this order: a service the Services
/// card lists, a process the Processes card lists, an agent session the runtime reports; failing
/// those, a file subject, any other subject, or none.
pub enum ObservedSubject {
    /// A listed service.
    Service {
        /// Its main process, when it has one.
        main_pid: Option<u32>,
        /// Its memory in bytes, when known.
        memory_bytes: Option<u64>,
        /// Whether it is enabled.
        enabled: bool,
    },
    /// A listed process.
    Process {
        /// How many threads it runs.
        threads: u64,
        /// The user it runs as.
        user: String,
        /// Its parent process.
        ppid: u32,
    },
    /// A reported agent session.
    Agent {
        /// The day its lease expires, already written.
        expires_on: String,
        /// The model class it was granted, if any.
        model_class: Option<String>,
    },
    /// A file subject.
    File,
    /// Some other subject, not observed live.
    Other,
    /// No subject at all.
    Nothing,
}

/// Where the Inspector's facts about its subject come from.
pub open spec fn basis_text(subject: &ObservedSubject) -> Seq<char> {
    match subject {
        ObservedSubject::Service { .. } => "Host systemd unit via D-Bus / Boundary projection"@,
        ObservedSubject::Process { .. } => "Linux kernel procfs telemetry"@,
        ObservedSubject::Agent { .. } => "Agent1 capsule supervisor with Landlock sandbox bounds"@,
        ObservedSubject::File => "HostFiles1 filesystem boundary"@,
        ObservedSubject::Other => "Authoritative owner boundary"@,
        ObservedSubject::Nothing => "User-supplied subject query"@,
    }
}

/// Where the Inspector's facts about its subject come from.
pub fn epistemic_basis(subject: &ObservedSubject) -> (r: &'static str)
    ensures
        r@ == basis_text(subject),
{
    match subject {
        ObservedSubject::Service { .. } => "Host systemd unit via D-Bus / Boundary projection",
        ObservedSubject::Process { .. } => "Linux kernel procfs telemetry",
        ObservedSubject::Agent { .. } => "Agent1 capsule supervisor with Landlock sandbox bounds",
        ObservedSubject::File => "HostFiles1 filesystem boundary",
        ObservedSubject::Other => "Authoritative owner boundary",
        ObservedSubject::Nothing => "User-supplied subject query",
    }
}

/// The words for a boolean, as Rust writes it.
pub open spec fn bool_text(b: bool) -> Seq<char> {
    if b {
        "true"@
    } else {
        "false"@
    }
}

/// What was last observed of the subject.
pub open spec fn last_observed_text(subject: &ObservedSubject) -> Seq<char> {
    match subject {
        ObservedSubject::Service { main_pid, memory_bytes, enabled } => {
            let pid = match main_pid {
                Some(p) => "PID "@ + decimal_text(*p as nat),
                None => "no pid"@,
            };
            let mem = match memory_bytes {
                Some(b) => decimal_text(mebibytes(*b as nat)) + " MB"@,
                None => "unknown mem"@,
            };
            pid + ", "@ + mem + ", enabled: "@ + bool_text(*enabled)
        },
        ObservedSubject::Process { threads, user, ppid } => "Threads: "@ + decimal_text(
            *threads as nat,
        ) + ", User: "@ + user@ + ", PPID: "@ + decimal_text(*ppid as nat),
        ObservedSubject::Agent { expires_on, model_class } => "Expires: "@ + expires_on@
            + ", Model: "@ + match model_class {
            Some(m) => m@,
            None => "none"@,
        },
        ObservedSubject::File | ObservedSubject::Other => "Observation pending owner stream refresh"@,
        ObservedSubject::Nothing => "Unknown — no observation received"@,
    }
}

/// What was last observed of the subject.
pub fn last_observed(subject: &ObservedSubject) -> (r: String)
    ensures
        r@ == last_observed_text(subject),
{
    match subject {
        ObservedSubject::Service { main_pid, memory_bytes, enabled } => {
            let mut s = String::new();
            match main_pid {
                Some(p) => {
                    s.append("PID ");
                    append_decimal(&mut s, *p as u64);
                },
                None => s.append("no pid"),
            }
            s.append(", ");
            match memory_bytes {
                Some(b) => {
                    append_decimal(&mut s, *b / 1048576);
                    s.append(" MB");
                },
                None => s.append("unknown mem"),
            }
            s.append(", enabled: ");
            s.append(
                if *enabled {
                    "true"
                } else {
                    "false"
                },
            );
            s
        },
        ObservedSubject::Process { threads, user, ppid } => {
            let mut s = String::from_str("Threads: ");
            append_decimal(&mut s, *threads);
            s.append(", User: ");
            s.append(user.as_str());
            s.append(", PPID: ");
            append_decimal(&mut s, *ppid as u64);
            s
        },
        ObservedSubject::Agent { expires_on, model_class } => {
            let mut s = String::from_str("Expires: ");
            s.append(expires_on.as_str());
            s.append(", Model: ");
            match model_class {
                Some(m) => s.append(m.as_str()),
                None => s.append("none"),
            }
            s
        },
        ObservedSubject::File | ObservedSubject::Other => String::from_str(
            "Observation pending owner stream refresh",
        ),
        ObservedSubject::Nothing => String::from_str("Unknown — no observation received"),
    }
}

/// The kinds of subject a query can name.
#[derive(Clone, Copy, Debug, Eq, PartialEq, Structural)]
pub enum QueryKind {
    /// A service.
    Service,
    /// A file.
    File,
    /// An agent.
    Agent,
    /// A package.
    Package,
    /// A spatial anchor.
    Anchor,
}

/// The kind a choice in the custom-subject form names: the five kinds by name, and a service for
/// anything else.
pub open spec fn query_kind_named(choice: Seq<char>) -> QueryKind {
    if choice == "file"@ {
        QueryKind::File
    } else if choice == "agent"@ {
        QueryKind::Agent
    } else if choice == "package"@ {
        QueryKind::Package
    } else if choice == "anchor"@ {
        QueryKind::Anchor
    } else {
        QueryKind::Service
    }
}

/// A subject query typed by a person.
#[derive(Debug)]
pub struct SubjectQuery {
    /// What kind of subject it names.
    pub kind: QueryKind,
    /// The identifier typed, without surrounding white space.
    pub identifier: String,
}

/// The query the custom-subject form records: none while the typed identifier is blank;
/// otherwise the trimmed identifier, of the kind chosen.
pub fn custom_subject(kind: &str, typed: &str) -> (r: Option<SubjectQuery>)
    ensures
        trimmed(typed@).len() == 0 <==> r is None,
        r matches Some(q) ==> q.kind == query_kind_named(kind@) && q.identifier@ == trimmed(typed@),
{
    let identifier = trim_text(typed);
    if identifier.as_str().is_empty() {
        return None;
    }
    let k = if same_text(kind, "file") {
        QueryKind::File
    } else if same_text(kind, "agent") {
        QueryKind::Agent
    } else if same_text(kind, "package") {
        QueryKind::Package
    } else if same_text(kind, "anchor") {
        QueryKind::Anchor
    } else {
        QueryKind::Service
    };
    Some(SubjectQuery { kind: k, identifier })
}

} // verus!
