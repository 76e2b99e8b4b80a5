//! What the Notes, Contacts, Mail, Calendar and Backup cards make of what a person typed before
//! anything is sent: which fields are required, and how comma-separated lists are read.

use crate::text::{fields, split_fields, text_views, trim_text, trimmed};
use vstd::prelude::*;

verus! {

/// Each part trimmed, and the parts that trim to nothing left out, in order.
pub open spec fn nonblank_trimmed(parts: Seq<Seq<char>>) -> Seq<Seq<char>>
    decreases parts.len(),
{
    if parts.len() == 0 {
        Seq::empty()
    } else {
        let rest = nonblank_trimmed(parts.drop_last());
        let t = trimmed(parts.last());
        if t.len() == 0 {
            rest
        } else {
            rest.push(t)
        }
    }
}

/// Each part trimmed, in order.
pub open spec fn all_trimmed(parts: Seq<Seq<char>>) -> Seq<Seq<char>> {
    parts.map_values(|p: Seq<char>| trimmed(p))
}

/// Whether a typed field is blank: nothing but white space.
pub open spec fn blank(typed: Seq<char>) -> bool {
    trimmed(typed).len() == 0
}

/// Whether a typed field is blank.
fn is_blank(typed: &str) -> (r: bool)
    ensures
        r == blank(typed@),
{
    trim_text(typed).as_str().is_empty()
}

/// The tags typed as a comma-separated list: each trimmed, empty ones dropped, in the order
/// typed.
pub fn comma_tags(typed: &str) -> (r: Vec<String>)
    ensures
        text_views(r@) == nonblank_trimmed(fields(typed@, ',')),
{
    let parts = split_fields(typed, ',');
    let ghost all = fields(typed@, ',');
    let mut tags: Vec<String> = Vec::new();
    let mut i: usize = 0;
    while i < parts.len()
        invariant
            text_views(parts@) == all,
            i <= parts.len(),
            text_views(tags@) == nonblank_trimmed(all.take(i as int)),
        decreases parts.len() - i,
    {
        proof {
            assert(all.take(i as int + 1).drop_last() =~= all.take(i as int));
            assert(all.take(i as int + 1).last() == parts@[i as int]@);
        }
        let t = trim_text(parts[i].as_str());
        if !t.as_str().is_empty() {
            let ghost before = text_views(tags@);
            tags.push(t);
            assert(text_views(tags@) =~= before.push(t@));
        }
        i = i + 1;
    }
    assert(all.take(parts.len() as int) =~= all);
    tags
}

/// The recipients of a mail typed as a comma-separated list: each trimmed, in the order typed.
pub open spec fn recipients_of(to: Seq<char>) -> Seq<Seq<char>> {
    all_trimmed(fields(to, ','))
}

/// What a mail draft comes to: its recipients, or the refusal when the recipients or the subject
/// are blank.
pub fn mail_recipients(to: &str, subject: &str) -> (r: Result<Vec<String>, &'static str>)
    ensures
        blank(to@) || blank(subject@) <==> r is Err,
        r matches Err(e) ==> e@ == "Recipient and subject are required"@,
        r matches Ok(list) ==> text_views(list@) == recipients_of(to@),
{
    if is_blank(to) || is_blank(subject) {
        return Err("Recipient and subject are required");
    }
    let parts = split_fields(to, ',');
    let ghost all = fields(to@, ',');
    let mut list: Vec<String> = Vec::new();
    let mut i: usize = 0;
    while i < parts.len()
        invariant
            text_views(parts@) == all,
            i <= parts.len(),
            text_views(list@) == all_trimmed(all.take(i as int)),
        decreases parts.len() - i,
    {
        let t = trim_text(parts[i].as_str());
        let ghost before = text_views(list@);
        list.push(t);
        proof {
            assert(parts@[i as int]@ == all[i as int]);
            assert(text_views(list@) =~= before.push(trimmed(all[i as int])));
            assert(all_trimmed(all.take(i as int + 1)) =~= all_trimmed(all.take(i as int)).push(
                trimmed(all[i as int]),
            ));
        }
        i = i + 1;
    }
    assert(all.take(parts.len() as int) =~= all);
    Ok(list)
}

/// Why a note cannot be saved: its title is blank.
pub fn note_refusal(title: &str) -> (r: Option<&'static str>)
    ensures
        blank(title@) <==> r is Some,
        r matches Some(e) ==> e@ == "Please enter a note title"@,
{
    if is_blank(title) {
        Some("Please enter a note title")
    } else {
        None
    }
}

/// Why a contact cannot be added: its name or its email is blank.
pub fn contact_refusal(name: &str, email: &str) -> (r: Option<&'static str>)
    ensures
        blank(name@) || blank(email@) <==> r is Some,
        r matches Some(e) ==> e@ == "Name and email are required"@,
{
    if is_blank(name) || is_blank(email) {
        Some("Name and email are required")
    } else {
        None
    }
}

/// Why an event cannot be created: its title is blank.
pub fn event_refusal(title: &str) -> (r: Option<&'static str>)
    ensures
        blank(title@) <==> r is Some,
        r matches Some(e) ==> e@ == "Please enter an event title"@,
{
    if is_blank(title) {
        Some("Please enter an event title")
    } else {
        None
    }
}

/// The name a backup is asked for under: the typed name trimmed, or none when it is blank, so
/// that the owner names it.
pub fn backup_name(typed: &str) -> (r: Option<String>)
    ensures
        blank(typed@) <==> r is None,
        r matches Some(n) ==> n@ == trimmed(typed@),
{
    let t = trim_text(typed);
    if t.as_str().is_empty() {
        None
    } else {
        Some(t)
    }
}

/// No tag read from a comma-separated list is blank or carries white space at either end.
pub proof fn lemma_tags_are_trimmed_and_nonblank(parts: Seq<Seq<char>>, i: int)
    requires
        0 <= i < nonblank_trimmed(parts).len(),
    ensures
        nonblank_trimmed(parts)[i].len() > 0,
        exists|j: int| 0 <= j < parts.len() && nonblank_trimmed(parts)[i] == trimmed(#[trigger] parts[j]),
    decreases parts.len(),
{
    let rest = nonblank_trimmed(parts.drop_last());
    if i < rest.len() {
        lemma_tags_are_trimmed_and_nonblank(parts.drop_last(), i);
        let j = choose|j: int| 0 <= j < parts.drop_last().len() && rest[i] == trimmed(#[trigger] parts.drop_last()[j]);
        assert(parts.drop_last()[j] == parts[j]);
    } else {
        assert(parts[parts.len() - 1] == parts.last());
    }
}

} // verus!
