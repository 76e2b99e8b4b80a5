use living_canvas::cards::file_manager::{
    attachment_message, category_root, editor_language, editor_open_refusal, entry_shown,
    initial_directory, transfers_available, LocationCategory,
    checked_new_name, child_path, delete_question, entry_counter, home_directory,
    name_error_message, parent_directory, rename_plan, short_digest, upload_request, EntryKind,
    NameError,
};

#[test]
fn a_session_browses_its_own_home() {
    assert_eq!(home_directory(Some("ada")), "/home/ada");
    assert_eq!(home_directory(Some("")), "/home/user");
    assert_eq!(home_directory(None), "/home/user");
}

#[test]
fn children_of_the_root_get_no_double_slash() {
    assert_eq!(child_path("/", "etc"), "/etc");
    assert_eq!(child_path("/home/ada", "notes.md"), "/home/ada/notes.md");
}

#[test]
fn new_names_are_trimmed_and_kept_inside_the_directory() {
    assert_eq!(checked_new_name("  report.txt \t"), Ok("report.txt".to_string()));
    assert_eq!(checked_new_name("   "), Err(NameError::Empty));
    assert_eq!(checked_new_name(""), Err(NameError::Empty));
    assert_eq!(checked_new_name("a/b"), Err(NameError::Invalid));
    assert_eq!(checked_new_name("a\\b"), Err(NameError::Invalid));
    assert_eq!(checked_new_name(".."), Err(NameError::Invalid));
    assert_eq!(checked_new_name("x..y"), Err(NameError::Invalid));
    assert_eq!(checked_new_name(".hidden"), Ok(".hidden".to_string()));
}

#[test]
fn refused_names_are_explained_per_kind() {
    assert_eq!(name_error_message(EntryKind::File, NameError::Empty), "File name cannot be empty");
    assert_eq!(name_error_message(EntryKind::File, NameError::Invalid), "Invalid file name");
    assert_eq!(
        name_error_message(EntryKind::Directory, NameError::Empty),
        "Directory name cannot be empty"
    );
    assert_eq!(
        name_error_message(EntryKind::Directory, NameError::Invalid),
        "Invalid directory name"
    );
}

#[test]
fn a_rename_to_nothing_or_to_itself_only_closes_the_dialog() {
    assert!(rename_plan("/srv", "a.txt", "   ").is_none());
    assert!(rename_plan("/srv", "a.txt", " a.txt ").is_none());
    let plan = rename_plan("/srv", "a.txt", " b.txt").expect("a real rename");
    assert_eq!(plan.from_path, "/srv/a.txt");
    assert_eq!(plan.to_path, "/srv/b.txt");
    assert_eq!(plan.new_name, "b.txt");
    let at_root = rename_plan("/", "a", "b").expect("a real rename");
    assert_eq!(at_root.from_path, "/a");
    assert_eq!(at_root.to_path, "/b");
}

#[test]
fn deleting_a_folder_warns_about_its_contents() {
    assert_eq!(
        delete_question("logs", true),
        "Are you sure you want to delete folder 'logs' and all its contents?"
    );
    assert_eq!(delete_question("a.txt", false), "Are you sure you want to delete file 'a.txt'?");
}

#[test]
fn the_counter_says_how_many_of_how_many_while_filtering() {
    assert_eq!(entry_counter(12, 3, "lo"), "3 of 12");
    assert_eq!(entry_counter(12, 12, ""), "12 item(s)");
    assert_eq!(entry_counter(0, 0, ""), "0 item(s)");
}

#[test]
fn digests_are_shortened_to_eight_characters() {
    assert_eq!(short_digest("0123456789abcdef"), "01234567");
    assert_eq!(short_digest("abc"), "abc");
}

#[test]
fn uploads_go_next_to_the_current_directory_in_padded_base64() {
    let r = upload_request("/home/ada", "m.bin", b"Man");
    assert_eq!(r.path, "/home/ada/m.bin");
    assert_eq!(r.content_base64, "TWFu");
    assert_eq!(upload_request("/", "x", b"Ma").content_base64, "TWE=");
    assert_eq!(upload_request("/", "x", b"M").content_base64, "TQ==");
    assert_eq!(upload_request("/", "x", b"").content_base64, "");
    assert_eq!(upload_request("/", "x", &[0xff, 0xfe, 0x3f]).content_base64, "//4/");
    assert_eq!(upload_request("/", "x", b"hello world").content_base64, "aGVsbG8gd29ybGQ=");
}

#[test]
fn up_goes_to_the_enclosing_directory() {
    assert_eq!(parent_directory("/home/ada/notes"), Some("/home/ada".to_owned()));
    assert_eq!(parent_directory("/home"), Some("/".to_owned()));
    assert_eq!(parent_directory("/"), None);
    assert_eq!(parent_directory(""), None);
    assert_eq!(parent_directory("relative"), None);
    assert_eq!(parent_directory("/home/ada/"), Some("/home/ada".to_owned()));
}

#[test]
fn up_from_a_child_returns() {
    for current in ["/", "/home", "/home/ada"] {
        let child = child_path(current, "notes");
        assert_eq!(parent_directory(&child), Some(current.to_owned()));
    }
}

#[test]
fn each_location_category_has_its_root() {
    assert_eq!(category_root(LocationCategory::Home, "/home/ada"), "/home/ada");
    assert_eq!(category_root(LocationCategory::AgentWorkspace, "/home/ada"), "/var/lib/cybou/workspaces");
    assert_eq!(category_root(LocationCategory::Sandbox, "/home/ada"), "/");
    assert_eq!(category_root(LocationCategory::Backup, "/home/ada"), "/snapshots");
    assert_eq!(category_root(LocationCategory::System, "/home/ada"), "/etc");
}

#[test]
fn the_first_read_starts_at_the_root_only_when_nothing_is_open() {
    assert_eq!(initial_directory(LocationCategory::System, "", "/home/ada"), "/etc");
    assert_eq!(initial_directory(LocationCategory::Home, "/", "/home/ada"), "/home/ada");
    assert_eq!(initial_directory(LocationCategory::Sandbox, "/", "/home/ada"), "/");
    assert_eq!(initial_directory(LocationCategory::Home, "/home/ada/src", "/home/ada"), "/home/ada/src");
}

#[test]
fn only_the_sandbox_transfers_files() {
    assert!(transfers_available(LocationCategory::Sandbox));
    assert!(!transfers_available(LocationCategory::Home));
    assert!(!transfers_available(LocationCategory::Backup));
}

#[test]
fn the_listing_filter_is_trimmed_and_case_blind() {
    assert!(entry_shown("  ", "anything"));
    assert!(entry_shown(" READ ", "README.md"));
    assert!(!entry_shown("notes", "README.md"));
}

#[test]
fn the_editor_language_follows_the_file_name() {
    assert_eq!(editor_language("main.rs"), "rust");
    assert_eq!(editor_language("build.py"), "python");
    assert_eq!(editor_language("run.sh"), "shell");
    assert_eq!(editor_language("Cargo.toml"), "toml");
    assert_eq!(editor_language("ci.yml"), "yaml");
    assert_eq!(editor_language("ci.yaml"), "yaml");
    assert_eq!(editor_language("package.json"), "json");
    assert_eq!(editor_language("README.md"), "markdown");
    assert_eq!(editor_language("notes.txt"), "text");
    assert_eq!(editor_language("rs"), "text");
}

#[test]
fn the_editor_opens_only_a_file_with_authority_and_version() {
    assert_eq!(editor_open_refusal(false, true), Some("Editor open refused: no authority reference"));
    assert_eq!(editor_open_refusal(false, false), Some("Editor open refused: no authority reference"));
    assert_eq!(editor_open_refusal(true, false), Some("Editor open refused: no content version"));
    assert_eq!(editor_open_refusal(true, true), None);
}

#[test]
fn handing_a_file_to_the_agents_is_reported() {
    assert_eq!(attachment_message("plan.md"), "File plan.md attached to Agent workspace context");
}
