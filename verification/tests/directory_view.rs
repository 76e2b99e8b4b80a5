use living_canvas::cards::file_manager::{DirEntry, DirectoryView, FileRead, Listing};

fn view() -> DirectoryView {
    DirectoryView {
        current_path: "/home/ada".to_string(),
        directory_generation: 0,
        file_generation: 0,
        loading: false,
        read: false,
        error: None,
        entries: Vec::new(),
        selected_file: None,
        selected_location: None,
        selected_sha256: None,
        file_content: String::new(),
    }
}

fn entry(name: &str) -> DirEntry {
    DirEntry { name: name.to_string(), is_dir: false, size_bytes: 1 }
}

#[test]
fn an_answer_to_an_earlier_listing_is_ignored() {
    let mut v = view();
    let first = v.start_listing("/home/ada".to_string());
    let second = v.start_listing("/home/ada/src".to_string());
    assert_ne!(first, second);
    v.apply_listing(
        first,
        Ok(Listing { entries: vec![entry("old")], truncated: false, total_entries: 1 }),
    );
    assert!(v.loading);
    assert!(v.entries.is_empty());
    v.apply_listing(
        second,
        Ok(Listing { entries: vec![entry("new"), entry("newer")], truncated: true, total_entries: 9 }),
    );
    assert!(!v.loading);
    assert!(v.read);
    assert_eq!(v.entries.len(), 2);
    assert_eq!(v.error.as_deref(), Some("Showing 2 of 9 entries"));
    assert_eq!(v.current_path, "/home/ada/src");
}

#[test]
fn a_failed_listing_empties_the_directory() {
    let mut v = view();
    v.entries = vec![entry("x")];
    let g = v.start_listing("/etc".to_string());
    v.apply_listing(g, Err("denied".to_string()));
    assert!(v.entries.is_empty());
    assert_eq!(v.error.as_deref(), Some("denied"));
    assert!(!v.read);
}

#[test]
fn an_answer_to_an_earlier_file_read_is_ignored() {
    let mut v = view();
    let (first, path) = v.start_file_read("a.txt".to_string());
    assert_eq!(path, "/home/ada/a.txt");
    let (second, _) = v.start_file_read("b.txt".to_string());
    v.apply_file(
        first,
        Ok(FileRead { location: "loc-a".into(), content_sha256: "sha-a".into(), text: "A".into() }),
    );
    assert_eq!(v.file_content, "");
    v.apply_file(
        second,
        Ok(FileRead { location: "loc-b".into(), content_sha256: "sha-b".into(), text: "B".into() }),
    );
    assert_eq!(v.file_content, "B");
    assert_eq!(v.selected_sha256.as_deref(), Some("sha-b"));
    assert_eq!(v.selected_file.as_deref(), Some("b.txt"));
    let (third, _) = v.start_file_read("c.txt".to_string());
    v.apply_file(third, Err("gone".to_string()));
    assert_eq!(v.file_content, "gone");
    assert!(v.selected_location.is_none());
    assert!(v.selected_sha256.is_none());
}

#[test]
fn a_new_listing_makes_pending_file_reads_stale() {
    let mut v = view();
    let (file_gen, _) = v.start_file_read("a.txt".to_string());
    v.start_listing("/".to_string());
    v.apply_file(
        file_gen,
        Ok(FileRead { location: "l".into(), content_sha256: "s".into(), text: "T".into() }),
    );
    assert_eq!(v.file_content, "");
    assert!(v.selected_file.is_none());
}
