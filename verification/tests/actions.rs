use living_canvas::cards::actions::{action_outcome, process_matches, process_subject};

#[test]
fn granted_actions_report_the_attempt_or_that_they_wait() {
    assert_eq!(
        action_outcome("nginx.service", "granted", Some("restarted"), None),
        "nginx.service: restarted."
    );
    assert_eq!(
        action_outcome("nginx.service", "granted-on-confirmation", None, Some("ignored")),
        "nginx.service: authorized, waiting to be carried out."
    );
}

#[test]
fn refusals_keep_the_boundary_words() {
    assert_eq!(
        action_outcome("nginx.service", "denied", Some("restarted"), Some("outside your scope")),
        "outside your scope"
    );
    assert_eq!(
        action_outcome(&process_subject(42), "denied", None, None),
        "Process 42: refused, and no reason was given."
    );
}

#[test]
fn processes_are_searched_by_name_user_and_id() {
    assert!(process_matches("Postgres", "root", 812, ""));
    assert!(process_matches("Postgres", "root", 812, "POST"));
    assert!(process_matches("Postgres", "root", 812, "roo"));
    assert!(process_matches("Postgres", "root", 812, "81"));
    assert!(!process_matches("Postgres", "root", 812, "nginx"));
}
