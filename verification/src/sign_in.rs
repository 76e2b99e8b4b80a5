//! The sign-in form's decisions: when a sign-in is sent, and what each answer does to the form.
//!
//! A rejection is one bit and is reported as one bit: the form never says whether the account
//! exists.

use vstd::prelude::*;

verus! {

/// What the sign-in form shows besides its fields.
#[derive(Debug)]
pub struct SignInForm {
    /// The error shown above the fields, if any.
    pub error: Option<String>,
    /// Whether a sign-in is in flight; the submit button is disabled meanwhile.
    pub submitting: bool,
}

/// What the gateway answered to a sign-in.
#[derive(Debug)]
pub enum LoginAnswer {
    /// A session was established.
    Accepted,
    /// The username and password were not accepted.
    Rejected,
    /// The machine could not be reached, for this reason.
    Unreachable(String),
}

/// What happens to the surface after an answer.
#[derive(Clone, Copy, Debug, Eq, PartialEq, Structural)]
pub enum AfterAnswer {
    /// Close the dialog, if there is one, and reload the desktop as the new session.
    CloseAndReload,
    /// Stay on the form.
    Stay,
}

impl SignInForm {
    /// The error the form shows, as the contracts see it.
    pub open spec fn error_text(self) -> Option<Seq<char>> {
        match self.error {
            Some(e) => Some(e@),
            None => None,
        }
    }

    /// An empty form with nothing in flight.
    pub fn new() -> (r: SignInForm)
        ensures
            r.error is None,
            !r.submitting,
    {
        SignInForm { error: None, submitting: false }
    }

    /// The form was submitted with `username`: without a username nothing is sent and the form
    /// asks for one; otherwise the error is cleared and the sign-in goes out. Returns whether to
    /// send it.
    pub fn submit(&mut self, username: &str) -> (send: bool)
        ensures
            send == (username@.len() > 0),
            !send ==> final(self).error_text() == Some("Enter your username"@),
            !send ==> final(self).submitting == old(self).submitting,
            send ==> final(self).error is None && final(self).submitting,
    {
        if username.is_empty() {
            self.error = Some(String::from_str("Enter your username"));
            false
        } else {
            self.error = None;
            self.submitting = true;
            true
        }
    }

    /// The gateway answered: nothing is in flight any more; a rejection and an unreachable
    /// machine are reported, an acceptance closes and reloads.
    pub fn answer(&mut self, answer: LoginAnswer) -> (next: AfterAnswer)
        ensures
            !final(self).submitting,
            (next == AfterAnswer::CloseAndReload) <==> (answer matches LoginAnswer::Accepted),
            answer matches LoginAnswer::Accepted ==> final(self).error_text() == old(self).error_text(),
            answer matches LoginAnswer::Rejected ==> final(self).error_text() == Some(
                "That username and password were not accepted."@,
            ),
            answer matches LoginAnswer::Unreachable(why) ==> final(self).error_text() == Some(
                "Could not reach this machine: "@ + why@,
            ),
    {
        self.submitting = false;
        match answer {
            LoginAnswer::Accepted => AfterAnswer::CloseAndReload,
            LoginAnswer::Rejected => {
                self.error = Some(String::from_str("That username and password were not accepted."));
                AfterAnswer::Stay
            },
            LoginAnswer::Unreachable(why) => {
                let mut e = String::from_str("Could not reach this machine: ");
                e.append(why.as_str());
                self.error = Some(e);
                AfterAnswer::Stay
            },
        }
    }

    /// The submit button's words.
    pub fn submit_label(&self) -> (r: &'static str)
        ensures
            r@ == (if self.submitting {
                "Signing in…"@
            } else {
                "Sign in"@
            }),
    {
        if self.submitting {
            "Signing in…"
        } else {
            "Sign in"
        }
    }
}

} // verus!
