//! The editor's buffer bookkeeping: when closing needs confirmation, where a save goes, what a
//! verified save or a detected conflict does to a buffer, and what the editor reports.

use crate::card::CardId;
use crate::text::{
    append_decimal, chars_of, decimal_text, last_index_of, push_char, same_text, text_views,
    trim_text, trimmed,
};
use vstd::prelude::*;

verus! {

/// What the server held when a save found the file changed under the editor.
#[derive(Debug)]
pub struct Conflict {
    /// The server's current text.
    pub server_content: String,
    /// The digest of the server's current text.
    pub server_sha256: String,
}

/// One editor buffer, as far as saving and closing are concerned.
#[derive(Debug)]
pub struct Buffer {
    /// The text being edited.
    pub content: String,
    /// The text the server is known to hold.
    pub original_content: String,
    /// Whether the text differs from what the server holds.
    pub dirty: bool,
    /// The digest of the server's version this buffer was read from, when one was established.
    pub expected_sha256: Option<String>,
    /// A detected concurrent change, awaiting review.
    pub conflict: Option<Conflict>,
    /// Whether the buffer came back from a recovered draft and has not been saved since.
    pub recovered_unsaved: bool,
}

/// Closing a buffer loses work, and so needs confirmation, when it holds unsaved changes or an
/// unresolved conflict.
pub open spec fn close_needs_confirmation(dirty: bool, in_conflict: bool) -> bool {
    dirty || in_conflict
}

/// Whether closing this buffer needs confirmation.
pub fn needs_close_confirmation(buf: &Buffer) -> (r: bool)
    ensures
        r == close_needs_confirmation(buf.dirty, buf.conflict is Some),
{
    buf.dirty || buf.conflict.is_some()
}

/// A buffer's dirty mark tells the truth: it is set exactly when the buffer is an unsaved
/// recovery or its text differs from what the server holds.
pub open spec fn dirty_is_accurate(buf: &Buffer) -> bool {
    buf.dirty == (buf.recovered_unsaved || buf.content@ != buf.original_content@)
}

/// Replaces the text being edited; the buffer is dirty when it is an unsaved recovery or differs
/// from the server's text.
pub fn edit(buf: &mut Buffer, new_content: String)
    ensures
        final(buf).content@ == new_content@,
        final(buf).original_content@ == old(buf).original_content@,
        final(buf).expected_sha256 == old(buf).expected_sha256,
        final(buf).recovered_unsaved == old(buf).recovered_unsaved,
        final(buf).conflict == old(buf).conflict,
        dirty_is_accurate(final(buf)),
{
    buf.content = new_content;
    buf.dirty = buf.recovered_unsaved || !same_text(buf.content.as_str(), buf.original_content.as_str());
}

/// Whether closing the whole card needs confirmation: only an editor asks, and only when one of
/// its buffers would lose work.
pub open spec fn card_close_needs_confirmation(card: CardId, buffers: Seq<(bool, bool)>) -> bool {
    (card matches CardId::Editor(_)) && exists|i: int|
        0 <= i < buffers.len() && close_needs_confirmation(
            #[trigger] buffers[i].0,
            buffers[i].1,
        )
}

/// Whether closing the card needs confirmation first; every other close goes straight through.
///
/// `buffers` holds, for each open buffer of the card, whether it is dirty and whether it is in
/// conflict.
pub fn needs_card_close_confirmation(card: CardId, buffers: &Vec<(bool, bool)>) -> (r: bool)
    ensures
        r == card_close_needs_confirmation(card, buffers@),
{
    match card {
        CardId::Editor(n) => {
            let mut i: usize = 0;
            while i < buffers.len()
                invariant
                    card == CardId::Editor(n),
                    i <= buffers.len(),
                    forall|j: int|
                        0 <= j < i ==> !close_needs_confirmation(
                            #[trigger] buffers@[j].0,
                            buffers@[j].1,
                        ),
                decreases buffers.len() - i,
            {
                let (dirty, in_conflict) = buffers[i];
                if dirty || in_conflict {
                    assert(close_needs_confirmation(buffers@[i as int].0, buffers@[i as int].1));
                    return true;
                }
                i = i + 1;
            }
            false
        },
        _ => false,
    }
}

/// Where a save of the active buffer goes.
#[derive(Debug)]
pub enum SaveRoute {
    /// The location is governed: the save is proposed as an action for approval.
    Propose,
    /// A verified write, valid only while the server still holds the expected version.
    Write {
        /// The digest the server must still hold.
        expected_sha256: String,
        /// The text to write.
        text: String,
    },
    /// Refused: the buffer has no server-established version to write against.
    Refused,
    /// This kind of location cannot be saved to from here.
    Unavailable,
}

/// Where a save goes: governed locations propose, jail files write against their established
/// version or are refused without one, and anything else cannot be saved.
pub open spec fn save_route_kind(requires_authorization: bool, in_jail: bool, has_version: bool) -> int {
    if requires_authorization {
        0
    } else if in_jail {
        if has_version {
            1
        } else {
            2
        }
    } else {
        3
    }
}

/// Where a save of `buf` goes.
///
/// `requires_authorization` says whether the buffer's location requires action authorization;
/// `in_jail` whether it is a file of the safe shell jail.
pub fn save_route(requires_authorization: bool, in_jail: bool, buf: &Buffer) -> (r: SaveRoute)
    ensures
        save_route_kind(requires_authorization, in_jail, buf.expected_sha256 is Some) == (match r {
            SaveRoute::Propose => 0int,
            SaveRoute::Write { .. } => 1int,
            SaveRoute::Refused => 2int,
            SaveRoute::Unavailable => 3int,
        }),
        r matches SaveRoute::Write { expected_sha256, text } ==> {
            &&& buf.expected_sha256 == Some(expected_sha256)
            &&& text@ == buf.content@
        },
{
    if requires_authorization {
        SaveRoute::Propose
    } else if in_jail {
        match &buf.expected_sha256 {
            Some(sha) => SaveRoute::Write { expected_sha256: sha.clone(), text: buf.content.clone() },
            None => SaveRoute::Refused,
        }
    } else {
        SaveRoute::Unavailable
    }
}

/// What the editor says when a save is refused or cannot be made; nothing for a save that goes
/// ahead.
pub open spec fn save_refusal_text(route: SaveRoute) -> Option<Seq<char>> {
    match route {
        SaveRoute::Refused => Some(
            "Save refused — this buffer has no server-established content version."@,
        ),
        SaveRoute::Unavailable => Some(
            "Save unavailable for this location domain. Changes remain only in this open editor buffer."@,
        ),
        _ => None,
    }
}

/// What the editor says when a save is refused or cannot be made.
pub fn save_refusal_message(route: &SaveRoute) -> (r: Option<&'static str>)
    ensures
        match r {
            Some(m) => save_refusal_text(*route) == Some(m@),
            None => save_refusal_text(*route) is None,
        },
{
    match route {
        SaveRoute::Refused => Some("Save refused — this buffer has no server-established content version."),
        SaveRoute::Unavailable => Some(
            "Save unavailable for this location domain. Changes remain only in this open editor buffer.",
        ),
        _ => None,
    }
}

/// Records a verified save of `written` whose server digest is `saved_sha256`.
///
/// The server now holds `written`; the buffer stays dirty only if it was edited while the save was
/// in flight. Any conflict is resolved, and the buffer is no longer an unsaved recovery. Returns
/// whether changes made during the save remain unsaved.
pub fn record_save(buf: &mut Buffer, written: &str, saved_sha256: String) -> (changed_while_saving: bool)
    ensures
        final(buf).content@ == old(buf).content@,
        final(buf).original_content@ == written@,
        final(buf).dirty == (old(buf).content@ != written@),
        final(buf).expected_sha256 == Some(saved_sha256),
        final(buf).conflict is None,
        !final(buf).recovered_unsaved,
        changed_while_saving == final(buf).dirty,
        dirty_is_accurate(final(buf)),
        old(buf).content@ == written@ ==> !close_needs_confirmation(
            final(buf).dirty,
            final(buf).conflict is Some,
        ),
{
    buf.original_content = String::from_str(written);
    buf.recovered_unsaved = false;
    buf.dirty = !same_text(buf.content.as_str(), written);
    buf.expected_sha256 = Some(saved_sha256);
    buf.conflict = None;
    buf.dirty
}

/// Records that a save found the file changed on the server; the buffer's own text is kept.
pub fn record_conflict(buf: &mut Buffer, server_content: String, server_sha256: String)
    ensures
        final(buf).content@ == old(buf).content@,
        final(buf).original_content@ == old(buf).original_content@,
        final(buf).dirty == old(buf).dirty,
        final(buf).expected_sha256 == old(buf).expected_sha256,
        final(buf).recovered_unsaved == old(buf).recovered_unsaved,
        final(buf).conflict matches Some(c) && c.server_content@ == server_content@
            && c.server_sha256@ == server_sha256@,
        dirty_is_accurate(old(buf)) ==> dirty_is_accurate(final(buf)),
{
    buf.conflict = Some(Conflict { server_content, server_sha256 });
}

/// What the editor says after a verified save of `size_bytes` bytes.
pub open spec fn save_message_text(size_bytes: nat, changed_while_saving: bool) -> Seq<char> {
    if changed_while_saving {
        "Saved and verified ("@ + decimal_text(size_bytes)
            + " bytes); newer buffer changes remain unsaved."@
    } else {
        "Saved and verified ("@ + decimal_text(size_bytes) + " bytes)."@
    }
}

/// What the editor says after a verified save.
pub fn save_message(size_bytes: u64, changed_while_saving: bool) -> (r: String)
    ensures
        r@ == save_message_text(size_bytes as nat, changed_while_saving),
{
    let mut s = String::from_str("Saved and verified (");
    append_decimal(&mut s, size_bytes);
    if changed_while_saving {
        s.append(" bytes); newer buffer changes remain unsaved.");
    } else {
        s.append(" bytes).");
    }
    s
}

/// What the editor says after recovering drafts, `conflicts` of which changed on the server.
pub open spec fn recovery_message_text(conflicts: nat) -> Seq<char> {
    if conflicts == 0 {
        "Recovered durable editor drafts with current authority."@
    } else {
        "Recovered durable editor drafts; "@ + decimal_text(conflicts)
            + " changed on the server and require conflict review."@
    }
}

/// What the editor says after recovering drafts.
pub fn recovery_message(conflicts: usize) -> (r: String)
    ensures
        r@ == recovery_message_text(conflicts as nat),
{
    if conflicts == 0 {
        String::from_str("Recovered durable editor drafts with current authority.")
    } else {
        let mut s = String::from_str("Recovered durable editor drafts; ");
        append_decimal(&mut s, conflicts as u64);
        s.append(" changed on the server and require conflict review.");
        s
    }
}

/// The read-only comparison opened when a save finds the file changed on the server.
#[derive(Debug)]
pub struct ConflictComparison {
    /// The diff panel's title.
    pub title: String,
    /// The label of the server's side.
    pub original_label: String,
    /// The label of the editor's side.
    pub proposed_label: String,
    /// The server's current text.
    pub original_content: String,
    /// The editor's unsaved text.
    pub proposed_content: String,
    /// What the panel says about the comparison.
    pub status: String,
}

/// The comparison for a buffer in conflict: the server's version against the unsaved buffer,
/// labelled as such, and stated to have changed nothing. A buffer without a conflict opens none.
pub fn conflict_comparison(display_path: &str, buf: &Buffer) -> (r: Option<ConflictComparison>)
    ensures
        buf.conflict is None ==> r is None,
        buf.conflict matches Some(c) ==> r matches Some(cmp) && {
            &&& cmp.title@ == "Concurrent changes — "@ + display_path@
            &&& cmp.original_label@ == "Current server version"@
            &&& cmp.proposed_label@ == "Unsaved editor buffer"@
            &&& cmp.original_content@ == c.server_content@
            &&& cmp.proposed_content@ == buf.content@
            &&& cmp.status@
                == "Read-only comparison. Resolve the conflict explicitly in the editor; no file has been changed."@
        },
{
    match &buf.conflict {
        None => None,
        Some(conflict) => {
            let mut title = String::from_str("Concurrent changes — ");
            title.append(display_path);
            Some(
                ConflictComparison {
                    title,
                    original_label: String::from_str("Current server version"),
                    proposed_label: String::from_str("Unsaved editor buffer"),
                    original_content: conflict.server_content.clone(),
                    proposed_content: buf.content.clone(),
                    status: String::from_str(
                        "Read-only comparison. Resolve the conflict explicitly in the editor; no file has been changed.",
                    ),
                },
            )
        },
    }
}

/// The name a buffer takes from the path it was saved as: everything after the last separator,
/// or the whole path when it has none.
pub open spec fn saved_name_text(path: Seq<char>) -> Seq<char> {
    let pos = last_index_of(path, '/');
    if pos < 0 {
        path
    } else {
        path.skip(pos + 1)
    }
}

/// The name a buffer takes from the path it was saved as.
pub fn saved_name(path: &str) -> (r: String)
    ensures
        r@ == saved_name_text(path@),
{
    let v = chars_of(path);
    let mut k: usize = v.len();
    assert(path@.take(v.len() as int) =~= path@);
    while k > 0 && v[k - 1] != '/'
        invariant
            v@ == path@,
            k <= v.len(),
            last_index_of(path@, '/') == last_index_of(path@.take(k as int), '/'),
        decreases k,
    {
        assert(path@.take(k as int).drop_last() =~= path@.take(k as int - 1));
        k = k - 1;
    }
    proof {
        if k > 0 {
            assert(path@.take(k as int).last() == '/');
        }
    }
    let mut r = String::new();
    let mut i: usize = k;
    while i < v.len()
        invariant
            v@ == path@,
            k <= i <= v.len(),
            r@ == path@.subrange(k as int, i as int),
        decreases v.len() - i,
    {
        push_char(&mut r, v[i]);
        i = i + 1;
        assert(r@ =~= path@.subrange(k as int, i as int));
    }
    proof {
        if k == 0 {
            assert(r@ =~= path@);
        } else {
            assert(r@ =~= path@.skip(k as int));
        }
    }
    r
}

/// Why Save As cannot start: the path is blank.
pub fn save_as_refusal(path: &str) -> (r: Option<&'static str>)
    ensures
        trimmed(path@).len() == 0 <==> r is Some,
        r matches Some(e) ==> e@ == "Save As requires a relative jail path."@,
{
    if trim_text(path).as_str().is_empty() {
        Some("Save As requires a relative jail path.")
    } else {
        None
    }
}

/// Records that the buffer was created on the server at `path` with the text `written`, whose
/// digest is `created_sha256`: the server now holds `written`, and the buffer stays dirty only if
/// it was edited while the file was being created. Returns the name the buffer now goes by, that
/// of the path.
pub fn record_save_as(buf: &mut Buffer, path: &str, written: &str, created_sha256: String) -> (name:
    String)
    ensures
        name@ == saved_name_text(path@),
        final(buf).content@ == old(buf).content@,
        final(buf).original_content@ == written@,
        final(buf).dirty == (old(buf).content@ != written@),
        final(buf).expected_sha256 == Some(created_sha256),
        final(buf).conflict is None,
        !final(buf).recovered_unsaved,
        dirty_is_accurate(final(buf)),
{
    buf.original_content = String::from_str(written);
    buf.expected_sha256 = Some(created_sha256);
    buf.recovered_unsaved = false;
    buf.dirty = !same_text(buf.content.as_str(), written);
    buf.conflict = None;
    saved_name(path)
}

/// What the editor says after a file was created and verified.
pub fn created_message(size_bytes: u64) -> (r: String)
    ensures
        r@ == "Created and verified ("@ + decimal_text(size_bytes as nat) + " bytes)."@,
{
    let mut s = String::from_str("Created and verified (");
    append_decimal(&mut s, size_bytes);
    s.append(" bytes).");
    s
}

/// How many tabs remain after one is discarded: one fewer, except that the last tab is replaced
/// by a fresh draft rather than removed.
pub open spec fn tabs_after_discard(len: nat) -> nat {
    if len > 1 {
        (len - 1) as nat
    } else {
        1
    }
}

/// Which tab is active after the tab at `idx` is discarded from `len` tabs while the tab at
/// `active` was active.
pub open spec fn active_after_discard_index(len: nat, idx: nat, active: nat) -> nat {
    let remaining = tabs_after_discard(len);
    if remaining == 1 {
        0
    } else if idx < active {
        (active - 1) as nat
    } else if idx == active {
        if idx < remaining - 1 {
            idx
        } else {
            (remaining - 1) as nat
        }
    } else {
        active
    }
}

/// Which tab is active after a tab is discarded.
pub fn active_after_discard(len: usize, idx: usize, active: usize) -> (r: usize)
    requires
        len >= 1,
    ensures
        r == active_after_discard_index(len as nat, idx as nat, active as nat),
{
    let remaining = if len > 1 {
        len - 1
    } else {
        1
    };
    if remaining == 1 {
        0
    } else if idx < active {
        active - 1
    } else if idx == active {
        if idx < remaining - 1 {
            idx
        } else {
            remaining - 1
        }
    } else {
        active
    }
}

/// One editor tab: its buffer, and the number of the fresh draft it was opened as, if it was.
#[derive(Debug)]
pub struct EditorTab {
    /// The number of the fresh draft this tab was opened as.
    pub draft: Option<u64>,
    /// The buffer the tab holds.
    pub buffer: Buffer,
}

/// A fresh draft numbered `number`: empty, clean, with no server version and nothing recovered.
pub open spec fn is_fresh_draft(tab: EditorTab, number: u64) -> bool {
    &&& tab.draft == Some(number)
    &&& tab.buffer.content@.len() == 0
    &&& tab.buffer.original_content@.len() == 0
    &&& !tab.buffer.dirty
    &&& tab.buffer.expected_sha256 is None
    &&& tab.buffer.conflict is None
    &&& !tab.buffer.recovered_unsaved
}

/// A fresh draft numbered `number`.
pub fn fresh_draft(number: u64) -> (r: EditorTab)
    ensures
        is_fresh_draft(r, number),
{
    EditorTab {
        draft: Some(number),
        buffer: Buffer {
            content: String::new(),
            original_content: String::new(),
            dirty: false,
            expected_sha256: None,
            conflict: None,
            recovered_unsaved: false,
        },
    }
}

/// The next draft number after `n`, which stays at the largest number once it is reached.
pub open spec fn next_number(n: u64) -> u64 {
    if n == u64::MAX {
        n
    } else {
        (n + 1) as u64
    }
}

/// The editor's tab strip: its tabs, which one is active, the number the next fresh draft gets,
/// and the tab whose close waits for confirmation.
#[derive(Debug)]
pub struct EditorTabs {
    /// The open tabs, in order.
    pub tabs: Vec<EditorTab>,
    /// The position of the active tab.
    pub active: usize,
    /// The number the next fresh draft gets.
    pub next_draft: u64,
    /// The position of the tab whose close waits for confirmation.
    pub pending_close: Option<usize>,
}

impl EditorTabs {
    /// Opens a fresh draft as a new last tab and makes it active.
    pub fn add_tab(&mut self)
        requires
            old(self).tabs.len() < usize::MAX,
        ensures
            final(self).tabs@.len() == old(self).tabs@.len() + 1,
            final(self).tabs@.drop_last() == old(self).tabs@,
            is_fresh_draft(final(self).tabs@.last(), old(self).next_draft),
            final(self).next_draft == next_number(old(self).next_draft),
            final(self).active == old(self).tabs@.len(),
            final(self).pending_close == old(self).pending_close,
    {
        let number = self.next_draft;
        self.next_draft = if self.next_draft == u64::MAX {
            self.next_draft
        } else {
            self.next_draft + 1
        };
        self.tabs.push(fresh_draft(number));
        self.active = self.tabs.len() - 1;
        assert(self.tabs@.drop_last() =~= old(self).tabs@);
    }

    /// Discards the tab at `idx`: it is removed, or, when it is the only tab, replaced by a fresh
    /// draft that takes the next draft number. The active tab stays the same tab when another tab
    /// is discarded, and always exists; no close waits for confirmation any more.
    pub fn discard_tab(&mut self, idx: usize)
        requires
            old(self).tabs.len() >= 1,
            old(self).tabs.len() > 1 ==> idx < old(self).tabs.len(),
        ensures
            old(self).tabs.len() > 1 ==> {
                &&& final(self).tabs@ == old(self).tabs@.remove(idx as int)
                &&& final(self).next_draft == old(self).next_draft
            },
            old(self).tabs.len() == 1 ==> {
                &&& final(self).tabs@.len() == 1
                &&& is_fresh_draft(final(self).tabs@[0], old(self).next_draft)
                &&& final(self).next_draft == next_number(old(self).next_draft)
            },
            final(self).active == active_after_discard_index(
                old(self).tabs.len() as nat,
                idx as nat,
                old(self).active as nat,
            ),
            final(self).pending_close is None,
            old(self).active < old(self).tabs.len() ==> final(self).active < final(self).tabs.len(),
            old(self).tabs.len() > 1 && idx != old(self).active && old(self).active < old(
                self,
            ).tabs.len() ==> final(self).tabs@[final(self).active as int] == old(
                self,
            ).tabs@[old(self).active as int],
    {
        let len = self.tabs.len();
        let previous_active = self.active;
        if len > 1 {
            self.tabs.remove(idx);
        } else {
            let number = self.next_draft;
            self.tabs.remove(0);
            self.tabs.push(fresh_draft(number));
            self.next_draft = if self.next_draft == u64::MAX {
                self.next_draft
            } else {
                self.next_draft + 1
            };
        }
        self.active = active_after_discard(len, idx, previous_active);
        self.pending_close = None;
        proof {
            if len > 1 && previous_active < len {
                lemma_discard_keeps_the_active_tab(old(self).tabs@, idx as int, previous_active as int);
            }
        }
    }

    /// Closes the tab at `idx` at a person's request: a tab holding unsaved work or an unresolved
    /// conflict is only marked as waiting for confirmation; any other tab is discarded at once.
    pub fn close_tab(&mut self, idx: usize)
        requires
            old(self).tabs.len() >= 1,
            old(self).tabs.len() > 1 ==> idx < old(self).tabs.len(),
        ensures
            ({
                let asks = idx < old(self).tabs.len() && close_needs_confirmation(
                    old(self).tabs@[idx as int].buffer.dirty,
                    old(self).tabs@[idx as int].buffer.conflict is Some,
                );
                &&& asks ==> {
                    &&& final(self).tabs@ == old(self).tabs@
                    &&& final(self).active == old(self).active
                    &&& final(self).next_draft == old(self).next_draft
                    &&& final(self).pending_close == Some(idx)
                }
                &&& !asks ==> {
                    &&& old(self).tabs.len() > 1 ==> final(self).tabs@ == old(self).tabs@.remove(
                        idx as int,
                    ) && final(self).next_draft == old(self).next_draft
                    &&& old(self).tabs.len() == 1 ==> final(self).tabs@.len() == 1
                        && is_fresh_draft(final(self).tabs@[0], old(self).next_draft)
                        && final(self).next_draft == next_number(old(self).next_draft)
                    &&& final(self).active == active_after_discard_index(
                        old(self).tabs.len() as nat,
                        idx as nat,
                        old(self).active as nat,
                    )
                    &&& final(self).pending_close is None
                }
            }),
    {
        let asks = idx < self.tabs.len() && needs_close_confirmation(&self.tabs[idx].buffer);
        if asks {
            self.pending_close = Some(idx);
        } else {
            self.discard_tab(idx);
        }
    }
}

/// Discarding a tab always leaves an active tab that exists; and discarding a tab other than the
/// active one keeps the same tab active.
pub proof fn lemma_discard_keeps_the_active_tab<A>(tabs: Seq<A>, idx: int, active: int)
    requires
        0 <= idx < tabs.len(),
        0 <= active < tabs.len(),
    ensures
        active_after_discard_index(tabs.len(), idx as nat, active as nat) < tabs_after_discard(
            tabs.len(),
        ),
        tabs.len() > 1 && idx != active ==> tabs.remove(idx)[active_after_discard_index(
            tabs.len(),
            idx as nat,
            active as nat,
        ) as int] == tabs[active],
{
}

/// The editor's save button: enabled only for a dirty buffer without a conflict, and offering
/// Save As for a draft that has no file yet.
pub open spec fn save_button_state(dirty: bool, in_conflict: bool, is_draft: bool) -> (bool, Seq<char>) {
    (
        dirty && !in_conflict,
        if is_draft {
            "Save As"@
        } else {
            "Save"@
        },
    )
}

/// The editor's save button: whether it is enabled, and its label.
pub fn save_button(dirty: bool, in_conflict: bool, is_draft: bool) -> (r: (bool, &'static str))
    ensures
        (r.0, r.1@) == save_button_state(dirty, in_conflict, is_draft),
{
    (
        dirty && !in_conflict,
        if is_draft {
            "Save As"
        } else {
            "Save"
        },
    )
}

/// The positions of the recovered drafts whose identifiers no open buffer has, in order.
pub open spec fn new_draft_positions(open: Seq<Seq<char>>, recovered: Seq<Seq<char>>) -> Seq<int>
    decreases recovered.len(),
{
    if recovered.len() == 0 {
        Seq::empty()
    } else {
        let before = new_draft_positions(open, recovered.drop_last());
        if open.contains(recovered.last()) {
            before
        } else {
            before.push(recovered.len() - 1)
        }
    }
}

/// How recovered drafts join the open buffers.
#[derive(Debug)]
pub struct DraftMerge {
    /// Whether the drafts replace the open buffers, which happens only when the one open buffer is
    /// a pristine empty draft and some draft is new.
    pub replace: bool,
    /// The positions of the recovered drafts to add, in order.
    pub added: Vec<usize>,
}

/// Whether a text is among the texts of a list.
fn listed(list: &Vec<String>, text: &String) -> (r: bool)
    ensures
        r == text_views(list@).contains(text@),
{
    let ghost views = text_views(list@);
    let mut i: usize = 0;
    while i < list.len()
        invariant
            views == text_views(list@),
            i <= list.len(),
            forall|j: int| 0 <= j < i ==> views[j] != text@,
        decreases list.len() - i,
    {
        if same_text(list[i].as_str(), text.as_str()) {
            assert(views[i as int] == text@);
            return true;
        }
        i = i + 1;
    }
    false
}

/// How drafts recovered after a reload join the open buffers: a draft whose identifier an open
/// buffer already has is not added again; the new ones replace a lone pristine empty buffer, and
/// are appended otherwise.
///
/// `open_ids` and `recovered_ids` are the recovery identifiers of the open buffers and of the
/// recovered drafts; `lone_pristine` says whether exactly one buffer is open, clean and empty.
pub fn merge_recovered_drafts(open_ids: &Vec<String>, lone_pristine: bool, recovered_ids: &Vec<String>) -> (r:
    DraftMerge)
    ensures
        r.added@.map_values(|i: usize| i as int) == new_draft_positions(
            text_views(open_ids@),
            text_views(recovered_ids@),
        ),
        r.replace == (lone_pristine && r.added.len() > 0),
{
    let ghost open = text_views(open_ids@);
    let ghost rec = text_views(recovered_ids@);
    let mut added: Vec<usize> = Vec::new();
    let mut i: usize = 0;
    while i < recovered_ids.len()
        invariant
            open == text_views(open_ids@),
            rec == text_views(recovered_ids@),
            i <= recovered_ids.len(),
            added@.map_values(|k: usize| k as int) == new_draft_positions(open, rec.take(i as int)),
        decreases recovered_ids.len() - i,
    {
        assert(rec.take(i as int + 1).drop_last() =~= rec.take(i as int));
        assert(rec.take(i as int + 1).last() == recovered_ids@[i as int]@);
        let ghost before = added@.map_values(|k: usize| k as int);
        if !listed(open_ids, &recovered_ids[i]) {
            added.push(i);
            assert(added@.map_values(|k: usize| k as int) =~= before.push(i as int));
        }
        i = i + 1;
    }
    assert(rec.take(recovered_ids.len() as int) =~= rec);
    let replace = lone_pristine && added.len() > 0;
    DraftMerge { replace, added }
}

/// No recovered draft is added twice alongside a buffer that already has its identifier: every
/// added position names a draft no open buffer has, and positions only grow.
pub proof fn lemma_recovered_drafts_are_not_duplicated(
    open: Seq<Seq<char>>,
    recovered: Seq<Seq<char>>,
    k: int,
)
    requires
        0 <= k < new_draft_positions(open, recovered).len(),
    ensures
        0 <= new_draft_positions(open, recovered)[k] < recovered.len(),
        !open.contains(recovered[new_draft_positions(open, recovered)[k]]),
        forall|m: int|
            0 <= m < k ==> new_draft_positions(open, recovered)[m] < new_draft_positions(
                open,
                recovered,
            )[k],
    decreases recovered.len(),
{
    let before = new_draft_positions(open, recovered.drop_last());
    if k < before.len() {
        lemma_recovered_drafts_are_not_duplicated(open, recovered.drop_last(), k);
        assert(recovered.drop_last()[before[k]] == recovered[before[k]]);
        assert forall|m: int| 0 <= m < k implies before[m] < before[k] by {
            lemma_recovered_drafts_are_not_duplicated(open, recovered.drop_last(), k);
        }
    } else {
        assert forall|m: int| 0 <= m < k implies new_draft_positions(open, recovered)[m]
            < new_draft_positions(open, recovered)[k] by {
            lemma_recovered_drafts_are_not_duplicated(open, recovered.drop_last(), m);
        }
    }
}

/// Keeps the buffer's text and takes the reviewed server version as the base of the next save:
/// the conflict is settled, the next write is made against the server's digest, and the buffer is
/// dirty exactly when its text differs from the server's. The text the buffer was first read
/// with is left as it was. Returns what the editor says.
pub fn accept_reviewed_base(buf: &mut Buffer) -> (message: &'static str)
    ensures
        final(buf).content@ == old(buf).content@,
        final(buf).original_content@ == old(buf).original_content@,
        final(buf).recovered_unsaved == old(buf).recovered_unsaved,
        final(buf).conflict is None,
        match old(buf).conflict {
            Some(c) => {
                &&& final(buf).expected_sha256 == Some(c.server_sha256)
                &&& final(buf).dirty == (old(buf).content@ != c.server_content@)
            },
            None => {
                &&& final(buf).expected_sha256 == old(buf).expected_sha256
                &&& final(buf).dirty == old(buf).dirty
            },
        },
        message@
            == "Reviewed server version accepted as the next save base. The local buffer is still unsaved; Save will use a new conditional write."@,
{
    if let Some(conflict) = buf.conflict.take() {
        buf.dirty = !same_text(buf.content.as_str(), conflict.server_content.as_str());
        buf.expected_sha256 = Some(conflict.server_sha256);
    }
    "Reviewed server version accepted as the next save base. The local buffer is still unsaved; Save will use a new conditional write."
}

/// Replaces the buffer with the reviewed server version, after explicit confirmation: its text
/// and its base become the server's, the next write is made against the server's digest, and it
/// is clean. Returns what the editor says.
pub fn use_server_version(buf: &mut Buffer) -> (message: &'static str)
    ensures
        final(buf).recovered_unsaved == old(buf).recovered_unsaved,
        final(buf).conflict is None,
        match old(buf).conflict {
            Some(c) => {
                &&& final(buf).content@ == c.server_content@
                &&& final(buf).original_content@ == c.server_content@
                &&& final(buf).expected_sha256 == Some(c.server_sha256)
                &&& !final(buf).dirty
            },
            None => {
                &&& final(buf).content@ == old(buf).content@
                &&& final(buf).original_content@ == old(buf).original_content@
                &&& final(buf).expected_sha256 == old(buf).expected_sha256
                &&& final(buf).dirty == old(buf).dirty
            },
        },
        message@
            == "Verified server version loaded; local unsaved changes were discarded by explicit confirmation."@,
{
    if let Some(conflict) = buf.conflict.take() {
        buf.content = conflict.server_content.clone();
        buf.original_content = conflict.server_content;
        buf.expected_sha256 = Some(conflict.server_sha256);
        buf.dirty = false;
    }
    "Verified server version loaded; local unsaved changes were discarded by explicit confirmation."
}

} // verus!
