use living_canvas::cards::forms::{
    backup_name, comma_tags, contact_refusal, event_refusal, mail_recipients, note_refusal,
};
use living_canvas::text::split_fields;

#[test]
fn fields_split_like_str_split() {
    assert_eq!(split_fields("a,b", ','), vec!["a", "b"]);
    assert_eq!(split_fields("", ','), vec![""]);
    assert_eq!(split_fields("a,,b,", ','), vec!["a", "", "b", ""]);
    assert_eq!(split_fields("no separator", ','), vec!["no separator"]);
}

#[test]
fn tags_are_trimmed_and_blank_ones_dropped() {
    assert_eq!(comma_tags(" work, home ,, ,urgent"), vec!["work", "home", "urgent"]);
    assert!(comma_tags("").is_empty());
    assert!(comma_tags(" , ,").is_empty());
}

#[test]
fn a_mail_needs_a_recipient_and_a_subject() {
    assert_eq!(mail_recipients(" ", "Hello"), Err("Recipient and subject are required"));
    assert_eq!(mail_recipients("ada@example.org", "\t"), Err("Recipient and subject are required"));
    assert_eq!(
        mail_recipients("ada@example.org,  bob@example.org ", "Hello"),
        Ok(vec!["ada@example.org".to_owned(), "bob@example.org".to_owned()])
    );
    // Recipients are trimmed but not dropped when empty, as the compose form sends them.
    assert_eq!(
        mail_recipients("ada@example.org,", "Hello"),
        Ok(vec!["ada@example.org".to_owned(), String::new()])
    );
}

#[test]
fn required_fields_are_refused_when_blank() {
    assert_eq!(note_refusal("  "), Some("Please enter a note title"));
    assert_eq!(note_refusal("Plans"), None);
    assert_eq!(contact_refusal("Ada", ""), Some("Name and email are required"));
    assert_eq!(contact_refusal("", "ada@example.org"), Some("Name and email are required"));
    assert_eq!(contact_refusal("Ada", "ada@example.org"), None);
    assert_eq!(event_refusal("\n"), Some("Please enter an event title"));
    assert_eq!(event_refusal("Standup"), None);
}

#[test]
fn a_blank_backup_name_lets_the_owner_name_it() {
    assert_eq!(backup_name("   "), None);
    assert_eq!(backup_name(""), None);
    assert_eq!(backup_name("  nightly  "), Some("nightly".to_owned()));
}
