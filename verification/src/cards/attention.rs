//! What the Attention card says about each attended subject.

use vstd::prelude::*;

verus! {

/// How one attended contribution's subject was read.
#[derive(Clone, Debug, Eq, PartialEq)]
pub enum SubjectReading {
    /// The payload was classified as a query of a known kind.
    Classified {
        /// The name of the query's kind.
        kind_name: String,
        /// What it identifies.
        identifier: String,
    },
    /// The payload named a subject this build could not interpret, by this key.
    Uninterpreted(String),
    /// The payload could not be read.
    Unread,
}

/// The two halves of a subject's line: what kind of thing it is, and which one.
///
/// A payload that could not be read is shown as exactly that rather than folded into "no subject".
pub open spec fn subject_label_text(reading: SubjectReading, kind: Seq<char>) -> (Seq<char>, Seq<char>) {
    match reading {
        SubjectReading::Classified { kind_name, identifier } => (kind_name@, identifier@),
        SubjectReading::Uninterpreted(key) => ("Subject"@, key@),
        SubjectReading::Unread => (kind, "payload not read"@),
    }
}

/// What one attended contribution is about, as a line a person can read.
///
/// `kind` is the kind the contribution was recorded under.
pub fn subject_label(reading: &SubjectReading, kind: &str) -> (r: (String, String))
    ensures
        (r.0@, r.1@) == subject_label_text(*reading, kind@),
{
    match reading {
        SubjectReading::Classified { kind_name, identifier } => (
            String::from_str(kind_name.as_str()),
            String::from_str(identifier.as_str()),
        ),
        SubjectReading::Uninterpreted(key) => (String::from_str("Subject"), String::from_str(key.as_str())),
        SubjectReading::Unread => (String::from_str(kind), String::from_str("payload not read")),
    }
}

} // verus!
