use living_canvas::sign_in::{AfterAnswer, LoginAnswer, SignInForm};

#[test]
fn an_empty_username_sends_nothing() {
    let mut form = SignInForm::new();
    assert!(!form.submit(""));
    assert_eq!(form.error.as_deref(), Some("Enter your username"));
    assert!(!form.submitting);
    assert_eq!(form.submit_label(), "Sign in");
}

#[test]
fn a_sign_in_in_flight_disables_the_button_and_clears_the_error() {
    let mut form = SignInForm::new();
    form.submit("");
    assert!(form.submit("ada"));
    assert!(form.error.is_none());
    assert!(form.submitting);
    assert_eq!(form.submit_label(), "Signing in…");
}

#[test]
fn each_answer_settles_the_form() {
    let mut form = SignInForm::new();
    form.submit("ada");
    assert_eq!(form.answer(LoginAnswer::Rejected), AfterAnswer::Stay);
    assert_eq!(form.error.as_deref(), Some("That username and password were not accepted."));
    assert!(!form.submitting);

    form.submit("ada");
    assert_eq!(
        form.answer(LoginAnswer::Unreachable("connection refused".to_string())),
        AfterAnswer::Stay
    );
    assert_eq!(form.error.as_deref(), Some("Could not reach this machine: connection refused"));

    form.submit("ada");
    assert_eq!(form.answer(LoginAnswer::Accepted), AfterAnswer::CloseAndReload);
    assert!(!form.submitting);
    assert!(form.error.is_none());
}

#[test]
fn a_rejection_reads_the_same_whoever_tried() {
    let mut a = SignInForm::new();
    a.submit("root");
    a.answer(LoginAnswer::Rejected);
    let mut b = SignInForm::new();
    b.submit("nobody-here");
    b.answer(LoginAnswer::Rejected);
    assert_eq!(a.error, b.error);
}
