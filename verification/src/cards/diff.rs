//! How the Diff Viewer labels hunks and lines.

use crate::text::{append_decimal, decimal_text};
use vstd::prelude::*;

verus! {

/// What one line of a hunk does.
#[derive(Clone, Copy, Debug, Eq, PartialEq, Structural)]
pub enum DiffLineKind {
    /// Only in the original.
    Delete,
    /// Only in the proposal.
    Add,
    /// In both.
    Context,
}

/// A hunk header in unified-diff form: `@@ -start,len +start,len @@`.
pub open spec fn hunk_header_text(old_start: nat, old_len: nat, new_start: nat, new_len: nat) -> Seq<char> {
    "@@ -"@ + decimal_text(old_start) + ","@ + decimal_text(old_len) + " +"@ + decimal_text(new_start)
        + ","@ + decimal_text(new_len) + " @@"@
}

/// A hunk header in unified-diff form.
pub fn hunk_header(old_start: u64, old_len: u64, new_start: u64, new_len: u64) -> (r: String)
    ensures
        r@ == hunk_header_text(old_start as nat, old_len as nat, new_start as nat, new_len as nat),
{
    let mut s = String::from_str("@@ -");
    append_decimal(&mut s, old_start);
    s.append(",");
    append_decimal(&mut s, old_len);
    s.append(" +");
    append_decimal(&mut s, new_start);
    s.append(",");
    append_decimal(&mut s, new_len);
    s.append(" @@");
    s
}

/// The class and the prefix a line is drawn with: removals and additions marked `-` and `+`,
/// context left unmarked.
pub fn line_style(kind: DiffLineKind) -> (r: (&'static str, &'static str))
    ensures
        kind == DiffLineKind::Delete ==> r.0@ == "diff-line del"@ && r.1@ == "-"@,
        kind == DiffLineKind::Add ==> r.0@ == "diff-line add"@ && r.1@ == "+"@,
        kind == DiffLineKind::Context ==> r.0@ == "diff-line ctx"@ && r.1@ == " "@,
{
    match kind {
        DiffLineKind::Delete => ("diff-line del", "-"),
        DiffLineKind::Add => ("diff-line add", "+"),
        DiffLineKind::Context => ("diff-line ctx", " "),
    }
}

/// A line number column: the number when the line has one on that side, nothing otherwise.
pub fn line_number_text(number: Option<u64>) -> (r: String)
    ensures
        r@ == (match number {
            Some(n) => decimal_text(n as nat),
            None => Seq::empty(),
        }),
{
    match number {
        Some(n) => crate::text::decimal(n),
        None => String::new(),
    }
}

} // verus!
