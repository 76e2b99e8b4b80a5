//! What the File Manager decides before it asks the gateway anything: where a child of the current
//! directory lives, whether a new name may be used, what a rename would do, and what an upload
//! sends.

use crate::text::{
    append_decimal, chars_of, contains_text, decimal_text, ends_with_text, has_char, has_suffix,
    last_index_of, lemma_last_index_of, lowercase, lowercased, occurs_in, same_text, trim_text,
    trimmed,
};
use base64::Engine as _;
use vstd::prelude::*;

verus! {

/// The home directory a session browses: the consumer's own, or the generic one when the session
/// names no consumer.
pub open spec fn home_directory_text(consumer_id: Option<Seq<char>>) -> Seq<char> {
    match consumer_id {
        Some(id) => if id.len() > 0 {
            "/home/"@ + id
        } else {
            "/home/user"@
        },
        None => "/home/user"@,
    }
}

/// The consumer of a session, as the contracts see it.
pub open spec fn consumer_view(consumer_id: Option<&str>) -> Option<Seq<char>> {
    match consumer_id {
        Some(id) => Some(id@),
        None => None,
    }
}

/// The home directory a session browses.
///
/// `consumer_id` is the consumer named by a ready session, or nothing when no session is ready.
pub fn home_directory(consumer_id: Option<&str>) -> (r: String)
    ensures
        r@ == home_directory_text(consumer_view(consumer_id)),
{
    match consumer_id {
        Some(id) => if !id.is_empty() {
            let mut s = String::from_str("/home/");
            s.append(id);
            s
        } else {
            String::from_str("/home/user")
        },
        None => String::from_str("/home/user"),
    }
}

/// The path of `name` inside the directory `current`: the root has no separator of its own to
/// share, every other directory gets one.
pub open spec fn child_path_text(current: Seq<char>, name: Seq<char>) -> Seq<char> {
    if current == "/"@ {
        "/"@ + name
    } else {
        current + "/"@ + name
    }
}

/// The path of `name` inside the directory `current`.
pub fn child_path(current: &str, name: &str) -> (r: String)
    ensures
        r@ == child_path_text(current@, name@),
{
    if same_text(current, "/") {
        let mut s = String::from_str("/");
        s.append(name);
        s
    } else {
        let mut s = String::from_str(current);
        s.append("/");
        s.append(name);
        s
    }
}

/// The directory above `current`: none from the root, from nothing, or from a path without a
/// separator; the root from a path whose only separator leads it; otherwise everything before the
/// last separator.
pub open spec fn parent_text(current: Seq<char>) -> Option<Seq<char>> {
    let pos = last_index_of(current, '/');
    if current == "/"@ || current.len() == 0 || pos < 0 {
        None
    } else if pos == 0 {
        Some("/"@)
    } else {
        Some(current.take(pos))
    }
}

/// The directory the Up button goes to from `current`, if any.
pub fn parent_directory(current: &str) -> (r: Option<String>)
    ensures
        match r {
            Some(p) => parent_text(current@) == Some(p@),
            None => parent_text(current@) is None,
        },
{
    if same_text(current, "/") || current.is_empty() {
        return None;
    }
    let v = chars_of(current);
    let mut k: usize = v.len();
    assert(current@.take(v.len() as int) =~= current@);
    while k > 0 && v[k - 1] != '/'
        invariant
            v@ == current@,
            k <= v.len(),
            last_index_of(current@, '/') == last_index_of(current@.take(k as int), '/'),
        decreases k,
    {
        assert(current@.take(k as int).drop_last() =~= current@.take(k as int - 1));
        k = k - 1;
    }
    proof {
        if k > 0 {
            assert(current@.take(k as int).last() == '/');
        }
    }
    if k == 0 {
        return None;
    }
    let pos = k - 1;
    if pos == 0 {
        return Some(String::from_str("/"));
    }
    let mut p = String::new();
    let mut i: usize = 0;
    while i < pos
        invariant
            v@ == current@,
            pos < v.len(),
            i <= pos,
            p@ == current@.take(i as int),
        decreases pos - i,
    {
        crate::text::push_char(&mut p, v[i]);
        i = i + 1;
        assert(p@ =~= current@.take(i as int));
    }
    Some(p)
}

/// Going up from an entry the File Manager opened inside a directory returns to that directory,
/// whenever the entry has a nonempty name without a separator and the directory is not nothing.
pub proof fn lemma_up_from_a_child_returns(current: Seq<char>, name: Seq<char>)
    requires
        current.len() > 0,
        name.len() > 0,
        !name.contains('/'),
    ensures
        parent_text(child_path_text(current, name)) == Some(current),
{
    reveal_strlit("/");
    let child = child_path_text(current, name);
    let pos = if current == "/"@ {
        0
    } else {
        current.len() as int
    };
    assert(child[pos] == '/');
    assert forall|j: int| pos < j < child.len() implies child[j] != '/' by {
        assert(child[j] == name[j - pos - 1]);
    }
    lemma_last_index_of(child, '/');
    if last_index_of(child, '/') > pos {
        assert(child[last_index_of(child, '/')] == '/');
    }
    assert(last_index_of(child, '/') == pos);
    assert(child != "/"@) by {
        assert(child.len() > 1);
    }
    if current != "/"@ {
        assert(child.take(pos) =~= current);
    }
}

/// The kinds of storage the File Manager browses.
#[derive(Clone, Copy, Debug, Eq, PartialEq, Structural)]
pub enum LocationCategory {
    /// The person's home directory.
    Home,
    /// Agent workspaces.
    AgentWorkspace,
    /// The sandbox, the only place files are transferred to and from.
    Sandbox,
    /// Backup snapshots.
    Backup,
    /// System configuration.
    System,
}

/// Where browsing a category starts: the home directory for home, and a fixed root for the rest.
pub open spec fn category_root_text(category: LocationCategory, home: Seq<char>) -> Seq<char> {
    match category {
        LocationCategory::Home => home,
        LocationCategory::AgentWorkspace => "/var/lib/cybou/workspaces"@,
        LocationCategory::Sandbox => "/"@,
        LocationCategory::Backup => "/snapshots"@,
        LocationCategory::System => "/etc"@,
    }
}

/// Where browsing a category starts; `home` is the session's home directory.
pub fn category_root(category: LocationCategory, home: &str) -> (r: String)
    ensures
        r@ == category_root_text(category, home@),
{
    match category {
        LocationCategory::Home => String::from_str(home),
        LocationCategory::AgentWorkspace => String::from_str("/var/lib/cybou/workspaces"),
        LocationCategory::Sandbox => String::from_str("/"),
        LocationCategory::Backup => String::from_str("/snapshots"),
        LocationCategory::System => String::from_str("/etc"),
    }
}

/// The directory the card first reads: the category's root when no directory was open yet, or
/// when home shows the bare root; the open directory otherwise.
pub open spec fn initial_directory_text(
    category: LocationCategory,
    current: Seq<char>,
    home: Seq<char>,
) -> Seq<char> {
    if current.len() == 0 || (current == "/"@ && category == LocationCategory::Home) {
        category_root_text(category, home)
    } else {
        current
    }
}

/// The directory the card first reads.
pub fn initial_directory(category: LocationCategory, current: &str, home: &str) -> (r: String)
    ensures
        r@ == initial_directory_text(category, current@, home@),
{
    if current.is_empty() || (same_text(current, "/") && category == LocationCategory::Home) {
        category_root(category, home)
    } else {
        String::from_str(current)
    }
}

/// Whether files can be uploaded and downloaded: only in the sandbox, whose owner carries byte
/// transfers.
pub fn transfers_available(category: LocationCategory) -> (r: bool)
    ensures
        r == (category == LocationCategory::Sandbox),
{
    category == LocationCategory::Sandbox
}

/// Whether the listing filter shows an entry: a filter that trims to nothing shows everything;
/// otherwise the trimmed, lowercased filter must occur in the lowercased name.
pub open spec fn entry_shown_by(filter: Seq<char>, name: Seq<char>) -> bool {
    let q = lowercase(trimmed(filter));
    q.len() == 0 || occurs_in(q, lowercase(name))
}

/// The listing filter reads the name without regard to case or to white space around the filter:
/// a filter that trims to nothing shows every entry, and otherwise an entry is shown exactly when
/// its name holds the trimmed filter.
pub proof fn lemma_listing_filter_reads_the_name(filter: Seq<char>, name: Seq<char>)
    ensures
        lowercase(trimmed(filter)).len() == 0 ==> entry_shown_by(filter, name),
        lowercase(trimmed(filter)).len() > 0 ==> (entry_shown_by(filter, name) <==> occurs_in(
            lowercase(trimmed(filter)),
            lowercase(name),
        )),
{
}

/// Whether the listing filter shows an entry.
pub fn entry_shown(filter: &str, name: &str) -> (r: bool)
    ensures
        r == entry_shown_by(filter@, name@),
{
    let t = trim_text(filter);
    let q = lowercased(t.as_str());
    q.as_str().is_empty() || contains_text(lowercased(name).as_str(), q.as_str())
}

/// The language the editor highlights a file in, from the end of its name.
pub open spec fn language_for(name: Seq<char>) -> Seq<char> {
    if has_suffix(name, ".rs"@) {
        "rust"@
    } else if has_suffix(name, ".py"@) {
        "python"@
    } else if has_suffix(name, ".sh"@) {
        "shell"@
    } else if has_suffix(name, ".toml"@) {
        "toml"@
    } else if has_suffix(name, ".yaml"@) || has_suffix(name, ".yml"@) {
        "yaml"@
    } else if has_suffix(name, ".json"@) {
        "json"@
    } else if has_suffix(name, ".md"@) {
        "markdown"@
    } else {
        "text"@
    }
}

/// The language the editor highlights a file in.
pub fn editor_language(name: &str) -> (r: &'static str)
    ensures
        r@ == language_for(name@),
{
    if ends_with_text(name, ".rs") {
        "rust"
    } else if ends_with_text(name, ".py") {
        "python"
    } else if ends_with_text(name, ".sh") {
        "shell"
    } else if ends_with_text(name, ".toml") {
        "toml"
    } else if ends_with_text(name, ".yaml") || ends_with_text(name, ".yml") {
        "yaml"
    } else if ends_with_text(name, ".json") {
        "json"
    } else if ends_with_text(name, ".md") {
        "markdown"
    } else {
        "text"
    }
}

/// Why a file cannot be opened in the editor: it must come with the reference of the authority
/// that owns it and with the version of its content.
pub open spec fn editor_refusal_text(has_location: bool, has_version: bool) -> Option<Seq<char>> {
    if !has_location {
        Some("Editor open refused: no authority reference"@)
    } else if !has_version {
        Some("Editor open refused: no content version"@)
    } else {
        None
    }
}

/// Why a file cannot be opened in the editor, if it cannot.
pub fn editor_open_refusal(has_location: bool, has_version: bool) -> (r: Option<&'static str>)
    ensures
        match r {
            Some(e) => editor_refusal_text(has_location, has_version) == Some(e@),
            None => editor_refusal_text(has_location, has_version) is None,
        },
{
    if !has_location {
        Some("Editor open refused: no authority reference")
    } else if !has_version {
        Some("Editor open refused: no content version")
    } else {
        None
    }
}

/// What the card says after handing a file to the agents.
pub fn attachment_message(name: &str) -> (r: String)
    ensures
        r@ == "File "@ + name@ + " attached to Agent workspace context"@,
{
    let mut s = String::from_str("File ");
    s.append(name);
    s.append(" attached to Agent workspace context");
    s
}

/// What a new entry would be.
#[derive(Clone, Copy, Debug, Eq, PartialEq, Structural)]
pub enum EntryKind {
    /// A file.
    File,
    /// A directory.
    Directory,
}

/// Why a name for a new entry was refused.
#[derive(Clone, Copy, Debug, Eq, PartialEq, Structural)]
pub enum NameError {
    /// Nothing but white space was typed.
    Empty,
    /// The name holds a separator or a parent reference.
    Invalid,
}

/// Whether a name could reach outside the current directory: it holds `/`, `\` or `..`.
pub open spec fn escapes_directory(name: Seq<char>) -> bool {
    name.contains('/') || name.contains('\\') || occurs_in(".."@, name)
}

/// The name a new entry gets from what was typed: the typed text without surrounding white space,
/// refused when nothing is left or when it could reach outside the current directory.
pub open spec fn checked_name_for(typed: Seq<char>) -> Result<Seq<char>, NameError> {
    let name = trimmed(typed);
    if name.len() == 0 {
        Err(NameError::Empty)
    } else if escapes_directory(name) {
        Err(NameError::Invalid)
    } else {
        Ok(name)
    }
}

/// The name a new entry gets from what was typed, or why it is refused.
pub fn checked_new_name(typed: &str) -> (r: Result<String, NameError>)
    ensures
        match r {
            Ok(name) => checked_name_for(typed@) == Ok::<Seq<char>, NameError>(name@),
            Err(e) => checked_name_for(typed@) == Err::<Seq<char>, NameError>(e),
        },
{
    let name = trim_text(typed);
    if name.as_str().is_empty() {
        Err(NameError::Empty)
    } else if has_char(name.as_str(), '/') || has_char(name.as_str(), '\\') || contains_text(
        name.as_str(),
        "..",
    ) {
        Err(NameError::Invalid)
    } else {
        Ok(name)
    }
}

/// What the create dialog says when a name is refused.
pub open spec fn name_error_text(kind: EntryKind, e: NameError) -> Seq<char> {
    match (kind, e) {
        (EntryKind::File, NameError::Empty) => "File name cannot be empty"@,
        (EntryKind::File, NameError::Invalid) => "Invalid file name"@,
        (EntryKind::Directory, NameError::Empty) => "Directory name cannot be empty"@,
        (EntryKind::Directory, NameError::Invalid) => "Invalid directory name"@,
    }
}

/// What the create dialog says when a name is refused.
pub fn name_error_message(kind: EntryKind, e: NameError) -> (r: &'static str)
    ensures
        r@ == name_error_text(kind, e),
{
    match (kind, e) {
        (EntryKind::File, NameError::Empty) => "File name cannot be empty",
        (EntryKind::File, NameError::Invalid) => "Invalid file name",
        (EntryKind::Directory, NameError::Empty) => "Directory name cannot be empty",
        (EntryKind::Directory, NameError::Invalid) => "Invalid directory name",
    }
}

/// A rename the dialog would ask for.
#[derive(Debug)]
pub struct RenamePlan {
    /// Where the entry is now.
    pub from_path: String,
    /// Where it would be.
    pub to_path: String,
    /// The new name.
    pub new_name: String,
}

/// The rename that renaming `target` in `current` to what was typed asks for: none when the typed
/// name is blank or the same name, which only closes the dialog.
pub open spec fn rename_for(current: Seq<char>, target: Seq<char>, typed: Seq<char>) -> Option<
    (Seq<char>, Seq<char>, Seq<char>),
> {
    let new_name = trimmed(typed);
    if new_name.len() == 0 || new_name == target {
        None
    } else {
        Some((child_path_text(current, target), child_path_text(current, new_name), new_name))
    }
}

/// The rename that the dialog asks for, if any.
pub fn rename_plan(current: &str, target: &str, typed: &str) -> (r: Option<RenamePlan>)
    ensures
        match r {
            Some(plan) => rename_for(current@, target@, typed@) == Some(
                (plan.from_path@, plan.to_path@, plan.new_name@),
            ),
            None => rename_for(current@, target@, typed@) is None,
        },
{
    let new_name = trim_text(typed);
    if new_name.as_str().is_empty() || same_text(new_name.as_str(), target) {
        None
    } else {
        let from_path = child_path(current, target);
        let to_path = child_path(current, new_name.as_str());
        Some(RenamePlan { from_path, to_path, new_name })
    }
}

/// The question asked before deleting an entry: a folder warns that its contents go with it.
pub open spec fn delete_question_text(name: Seq<char>, is_dir: bool) -> Seq<char> {
    if is_dir {
        "Are you sure you want to delete folder '"@ + name + "' and all its contents?"@
    } else {
        "Are you sure you want to delete file '"@ + name + "'?"@
    }
}

/// The question asked before deleting an entry.
pub fn delete_question(name: &str, is_dir: bool) -> (r: String)
    ensures
        r@ == delete_question_text(name@, is_dir),
{
    if is_dir {
        let mut s = String::from_str("Are you sure you want to delete folder '");
        s.append(name);
        s.append("' and all its contents?");
        s
    } else {
        let mut s = String::from_str("Are you sure you want to delete file '");
        s.append(name);
        s.append("'?");
        s
    }
}

/// The entry counter: how many of how many while a filter is typed, how many otherwise.
pub open spec fn entry_counter_text(total: nat, shown: nat, filtering: bool) -> Seq<char> {
    if filtering {
        decimal_text(shown) + " of "@ + decimal_text(total)
    } else {
        decimal_text(total) + " item(s)"@
    }
}

/// The entry counter under the directory listing.
pub fn entry_counter(total: usize, shown: usize, filter_query: &str) -> (r: String)
    ensures
        r@ == entry_counter_text(total as nat, shown as nat, filter_query@.len() > 0),
{
    let mut s = String::new();
    if !filter_query.is_empty() {
        append_decimal(&mut s, shown as u64);
        s.append(" of ");
        append_decimal(&mut s, total as u64);
    } else {
        append_decimal(&mut s, total as u64);
        s.append(" item(s)");
    }
    s
}

/// The short form of a digest shown in a badge: its first eight characters.
pub fn short_digest(sha: &str) -> (r: String)
    ensures
        r@ == sha@.take(if sha@.len() < 8 { sha@.len() as int } else { 8 }),
{
    let v = chars_of(sha);
    let n = if v.len() < 8 {
        v.len()
    } else {
        8
    };
    let mut r = String::new();
    let mut i: usize = 0;
    while i < n
        invariant
            v@ == sha@,
            n <= v.len(),
            n == (if sha@.len() < 8 { sha@.len() as int } else { 8 }),
            i <= n,
            r@ == sha@.take(i as int),
        decreases n - i,
    {
        crate::text::push_char(&mut r, v[i]);
        i = i + 1;
        assert(r@ =~= sha@.take(i as int));
    }
    r
}

/// The character of the standard base64 alphabet for a six-bit value.
pub open spec fn base64_digit(v: nat) -> char {
    if v < 26 {
        (65 + v) as char
    } else if v < 52 {
        (97 + (v - 26)) as char
    } else if v < 62 {
        (48 + (v - 52)) as char
    } else if v == 62 {
        '+'
    } else {
        '/'
    }
}

/// Standard base64 with padding (RFC 4648, section 4): every three bytes become four characters,
/// and a last group of one or two bytes is padded with `=` to four.
pub open spec fn base64_text(b: Seq<u8>) -> Seq<char>
    decreases b.len(),
{
    if b.len() == 0 {
        Seq::empty()
    } else if b.len() == 1 {
        seq![base64_digit(b[0] as nat / 4), base64_digit((b[0] as nat % 4) * 16), '=', '=']
    } else if b.len() == 2 {
        seq![
            base64_digit(b[0] as nat / 4),
            base64_digit((b[0] as nat % 4) * 16 + b[1] as nat / 16),
            base64_digit((b[1] as nat % 16) * 4),
            '=',
        ]
    } else {
        seq![
            base64_digit(b[0] as nat / 4),
            base64_digit((b[0] as nat % 4) * 16 + b[1] as nat / 16),
            base64_digit((b[1] as nat % 16) * 4 + b[2] as nat / 64),
            base64_digit(b[2] as nat % 64),
        ] + base64_text(b.subrange(3, b.len() as int))
    }
}

/// The length of the standard padded encoding of `n` bytes.
pub open spec fn base64_len(n: nat) -> nat {
    (n / 3) * 4 + if n % 3 > 0 {
        4nat
    } else {
        0nat
    }
}

/// Encodes bytes as standard padded base64.
///
/// Calls `Engine::encode` on `base64::engine::general_purpose::STANDARD`, the standard alphabet
/// with padding; the contract claims the RFC 4648 encoding, [`base64_text`]. The call panics when
/// the encoded length does not fit in a `usize`, which `requires` leaves out.
#[verifier::external_body]
fn base64_standard(bytes: &[u8]) -> (r: String)
    requires
        base64_len(bytes@.len()) <= usize::MAX,
    ensures
        r@ == base64_text(bytes@),
{
    base64::engine::general_purpose::STANDARD.encode(bytes)
}

/// An upload the File Manager sends.
#[derive(Debug)]
pub struct UploadRequest {
    /// Where the file goes.
    pub path: String,
    /// Its bytes, in standard padded base64.
    pub content_base64: String,
}

/// The upload of a picked file named `name` into the directory `current`.
pub fn upload_request(current: &str, name: &str, bytes: &[u8]) -> (r: UploadRequest)
    requires
        base64_len(bytes@.len()) <= usize::MAX,
    ensures
        r.path@ == child_path_text(current@, name@),
        r.content_base64@ == base64_text(bytes@),
{
    UploadRequest { path: child_path(current, name), content_base64: base64_standard(bytes) }
}

/// An accepted name always names an entry directly inside the current directory: its path is the
/// directory's own (nothing for the root), a separator, and the name, which holds no separator.
pub proof fn lemma_accepted_names_stay_in_the_directory(current: Seq<char>, typed: Seq<char>)
    requires
        checked_name_for(typed) is Ok,
    ensures
        ({
            let name = checked_name_for(typed)->Ok_0;
            let parent = if current == "/"@ {
                Seq::<char>::empty()
            } else {
                current
            };
            &&& child_path_text(current, name) == parent.push('/') + name
            &&& !name.contains('/')
            &&& name.len() > 0
        }),
{
    reveal_strlit("/");
    let name = checked_name_for(typed)->Ok_0;
    assert("/"@ =~= seq!['/']);
    if current == "/"@ {
        assert(child_path_text(current, name) =~= Seq::<char>::empty().push('/') + name);
    } else {
        assert(child_path_text(current, name) =~= current.push('/') + name);
    }
}

/// One entry of a directory listing.
#[derive(Clone, Debug)]
pub struct DirEntry {
    /// Its name.
    pub name: String,
    /// Whether it is a directory.
    pub is_dir: bool,
    /// Its size in bytes.
    pub size_bytes: u64,
}

/// A directory listing as the owner answered it.
#[derive(Debug)]
pub struct Listing {
    /// The entries returned.
    pub entries: Vec<DirEntry>,
    /// Whether the owner returned fewer entries than there are.
    pub truncated: bool,
    /// How many entries there are in all.
    pub total_entries: u64,
}

/// A file's text as the owner answered it.
#[derive(Debug)]
pub struct FileRead {
    /// The reference of the authority that owns the file, as text.
    pub location: String,
    /// The digest of the text read.
    pub content_sha256: String,
    /// The text.
    pub text: String,
}

/// What the File Manager shows of its directory and selected file, and which requests it still
/// waits for.
#[derive(Debug)]
pub struct DirectoryView {
    /// The directory being shown.
    pub current_path: String,
    /// The generation of the latest directory request.
    pub directory_generation: u64,
    /// The generation of the latest file request.
    pub file_generation: u64,
    /// Whether a request is under way.
    pub loading: bool,
    /// Whether a listing has been read.
    pub read: bool,
    /// The message shown above the listing, if any.
    pub error: Option<String>,
    /// The entries listed.
    pub entries: Vec<DirEntry>,
    /// The selected file's name.
    pub selected_file: Option<String>,
    /// The selected file's authority reference.
    pub selected_location: Option<String>,
    /// The digest of the selected file's text.
    pub selected_sha256: Option<String>,
    /// The selected file's text, or why it could not be read.
    pub file_content: String,
}

/// The generation after `g`, which stays at the largest once it is reached.
pub open spec fn next_generation(g: u64) -> u64 {
    if g == u64::MAX {
        g
    } else {
        (g + 1) as u64
    }
}

/// The note shown over a listing the owner cut short: how many entries came of how many.
pub open spec fn truncation_text(shown: nat, total: nat) -> Seq<char> {
    "Showing "@ + decimal_text(shown) + " of "@ + decimal_text(total) + " entries"@
}

impl DirectoryView {
    /// Starts reading the directory `path`: both request generations advance, so that answers to
    /// earlier requests are ignored, the selection is cleared, and the returned generation is the
    /// one the listing must carry.
    pub fn start_listing(&mut self, path: String) -> (generation: u64)
        ensures
            final(self).directory_generation == next_generation(old(self).directory_generation),
            final(self).file_generation == next_generation(old(self).file_generation),
            generation == final(self).directory_generation,
            final(self).current_path@ == path@,
            final(self).loading,
            final(self).error is None,
            final(self).selected_file is None,
            final(self).selected_location is None,
            final(self).selected_sha256 is None,
            final(self).read == old(self).read,
            final(self).entries@ == old(self).entries@,
            final(self).file_content@ == old(self).file_content@,
    {
        self.directory_generation = if self.directory_generation == u64::MAX {
            self.directory_generation
        } else {
            self.directory_generation + 1
        };
        self.file_generation = if self.file_generation == u64::MAX {
            self.file_generation
        } else {
            self.file_generation + 1
        };
        self.loading = true;
        self.error = None;
        self.selected_file = None;
        self.selected_location = None;
        self.selected_sha256 = None;
        self.current_path = path;
        self.directory_generation
    }

    /// Applies the answer to the directory request of `generation`. An answer to an earlier
    /// request changes nothing. A current listing is shown, with a note when it was cut short; a
    /// current failure empties the listing and shows why.
    pub fn apply_listing(&mut self, generation: u64, answer: Result<Listing, String>)
        ensures
            generation != old(self).directory_generation ==> *final(self) == *old(self),
            generation == old(self).directory_generation ==> {
                &&& !final(self).loading
                &&& final(self).current_path == old(self).current_path
                &&& final(self).directory_generation == old(self).directory_generation
                &&& final(self).file_generation == old(self).file_generation
                &&& final(self).selected_file == old(self).selected_file
                &&& final(self).selected_location == old(self).selected_location
                &&& final(self).selected_sha256 == old(self).selected_sha256
                &&& final(self).file_content == old(self).file_content
                &&& match answer {
                    Ok(listing) => {
                        &&& final(self).read
                        &&& final(self).entries@ == listing.entries@
                        &&& listing.truncated ==> (final(self).error matches Some(e) && e@
                            == truncation_text(listing.entries@.len(), listing.total_entries as nat))
                        &&& !listing.truncated ==> final(self).error == old(self).error
                    },
                    Err(why) => {
                        &&& final(self).read == old(self).read
                        &&& final(self).entries@.len() == 0
                        &&& final(self).error == Some(why)
                    },
                }
            },
    {
        if generation != self.directory_generation {
            return;
        }
        self.loading = false;
        match answer {
            Ok(listing) => {
                self.read = true;
                if listing.truncated {
                    let mut note = String::from_str("Showing ");
                    append_decimal(&mut note, listing.entries.len() as u64);
                    note.append(" of ");
                    append_decimal(&mut note, listing.total_entries);
                    note.append(" entries");
                    self.error = Some(note);
                }
                self.entries = listing.entries;
            },
            Err(why) => {
                self.entries = Vec::new();
                self.error = Some(why);
            },
        }
    }

    /// Starts reading the file `name` of the current directory: the file request generation
    /// advances and the file is selected. Returns the generation the answer must carry and the
    /// file's path.
    pub fn start_file_read(&mut self, name: String) -> (r: (u64, String))
        ensures
            final(self).file_generation == next_generation(old(self).file_generation),
            r.0 == final(self).file_generation,
            r.1@ == child_path_text(old(self).current_path@, name@),
            final(self).selected_file matches Some(n) && n@ == name@,
            final(self).loading,
            final(self).current_path == old(self).current_path,
            final(self).directory_generation == old(self).directory_generation,
            final(self).read == old(self).read,
            final(self).error == old(self).error,
            final(self).entries@ == old(self).entries@,
            final(self).selected_location == old(self).selected_location,
            final(self).selected_sha256 == old(self).selected_sha256,
            final(self).file_content == old(self).file_content,
    {
        self.file_generation = if self.file_generation == u64::MAX {
            self.file_generation
        } else {
            self.file_generation + 1
        };
        let path = child_path(self.current_path.as_str(), name.as_str());
        self.selected_file = Some(name);
        self.loading = true;
        (self.file_generation, path)
    }

    /// Applies the answer to the file request of `generation`. An answer to an earlier request
    /// changes nothing. A current read shows the text with its authority and version; a current
    /// failure shows why and forgets both, so that the editor cannot open it.
    pub fn apply_file(&mut self, generation: u64, answer: Result<FileRead, String>)
        ensures
            generation != old(self).file_generation ==> *final(self) == *old(self),
            generation == old(self).file_generation ==> {
                &&& !final(self).loading
                &&& final(self).current_path == old(self).current_path
                &&& final(self).directory_generation == old(self).directory_generation
                &&& final(self).file_generation == old(self).file_generation
                &&& final(self).read == old(self).read
                &&& final(self).error == old(self).error
                &&& final(self).entries == old(self).entries
                &&& final(self).selected_file == old(self).selected_file
                &&& match answer {
                    Ok(file) => {
                        &&& final(self).selected_location == Some(file.location)
                        &&& final(self).selected_sha256 == Some(file.content_sha256)
                        &&& final(self).file_content == file.text
                    },
                    Err(why) => {
                        &&& final(self).selected_location is None
                        &&& final(self).selected_sha256 is None
                        &&& final(self).file_content == why
                    },
                }
            },
    {
        if generation != self.file_generation {
            return;
        }
        self.loading = false;
        match answer {
            Ok(file) => {
                self.selected_location = Some(file.location);
                self.selected_sha256 = Some(file.content_sha256);
                self.file_content = file.text;
            },
            Err(why) => {
                self.selected_location = None;
                self.selected_sha256 = None;
                self.file_content = why;
            },
        }
    }
}

/// Once a new directory is asked for, no answer to an earlier directory or file request can
/// change what is shown, as long as the generations have not reached their largest value.
pub proof fn lemma_earlier_answers_are_stale(earlier_directory: u64, earlier_file: u64, before: u64, before_file: u64)
    requires
        earlier_directory <= before < u64::MAX,
        earlier_file <= before_file < u64::MAX,
    ensures
        earlier_directory != next_generation(before),
        earlier_file != next_generation(before_file),
{
}

} // verus!
