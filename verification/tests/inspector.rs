use living_canvas::cards::inspector::{
    custom_subject, epistemic_basis, last_observed, ObservedSubject, QueryKind,
};

#[test]
fn a_service_observation_names_pid_memory_and_enablement() {
    let svc = ObservedSubject::Service {
        main_pid: Some(812),
        memory_bytes: Some(5 * 1024 * 1024 + 17),
        enabled: true,
    };
    assert_eq!(last_observed(&svc), "PID 812, 5 MB, enabled: true");
    let bare = ObservedSubject::Service { main_pid: None, memory_bytes: None, enabled: false };
    assert_eq!(last_observed(&bare), "no pid, unknown mem, enabled: false");
    assert_eq!(epistemic_basis(&svc), "Host systemd unit via D-Bus / Boundary projection");
}

#[test]
fn processes_and_agents_are_observed_by_their_own_owners() {
    let p = ObservedSubject::Process { threads: 4, user: "root".to_owned(), ppid: 1 };
    assert_eq!(last_observed(&p), "Threads: 4, User: root, PPID: 1");
    assert_eq!(epistemic_basis(&p), "Linux kernel procfs telemetry");
    let a = ObservedSubject::Agent { expires_on: "2026-03-01".to_owned(), model_class: None };
    assert_eq!(last_observed(&a), "Expires: 2026-03-01, Model: none");
    let b = ObservedSubject::Agent {
        expires_on: "2026-03-01".to_owned(),
        model_class: Some("small".to_owned()),
    };
    assert_eq!(last_observed(&b), "Expires: 2026-03-01, Model: small");
}

#[test]
fn an_unobserved_subject_is_not_reported_as_observed() {
    assert_eq!(last_observed(&ObservedSubject::File), "Observation pending owner stream refresh");
    assert_eq!(last_observed(&ObservedSubject::Other), "Observation pending owner stream refresh");
    assert_eq!(last_observed(&ObservedSubject::Nothing), "Unknown — no observation received");
    assert_eq!(epistemic_basis(&ObservedSubject::File), "HostFiles1 filesystem boundary");
    assert_eq!(epistemic_basis(&ObservedSubject::Nothing), "User-supplied subject query");
}

#[test]
fn a_custom_subject_needs_an_identifier() {
    assert!(custom_subject("file", "   ").is_none());
    let q = custom_subject("file", "  /etc/hosts ").expect("a query");
    assert_eq!(q.kind, QueryKind::File);
    assert_eq!(q.identifier, "/etc/hosts");
    assert_eq!(custom_subject("anchor", "home").expect("a query").kind, QueryKind::Anchor);
    assert_eq!(custom_subject("bogus", "nginx").expect("a query").kind, QueryKind::Service);
}
