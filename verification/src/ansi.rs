//! Parser for terminal output carrying ANSI escape sequences, turning it into styled spans.
//!
//! Every escape sequence `ESC [ parameters command` is removed from the visible text; those whose
//! command is `m` (select graphic rendition) change the colour, weight and dimming of what follows.

use crate::text::{
    all_digits, chars_of, digit_value, digits_value, is_digit, is_white_space, push_char,
    white_space,
};
use vstd::prelude::*;

verus! {

/// Supported ANSI foreground colours.
#[derive(Clone, Copy, Debug, Eq, PartialEq, Structural)]
pub enum AnsiColor {
    /// Black
    Black,
    /// Red
    Red,
    /// Green
    Green,
    /// Yellow
    Yellow,
    /// Blue
    Blue,
    /// Magenta
    Magenta,
    /// Cyan
    Cyan,
    /// White
    White,
    /// Bright black (grey)
    BrightBlack,
    /// Bright red
    BrightRed,
    /// Bright green
    BrightGreen,
    /// Bright yellow
    BrightYellow,
    /// Bright blue
    BrightBlue,
    /// Bright magenta
    BrightMagenta,
    /// Bright cyan
    BrightCyan,
    /// Bright white
    BrightWhite,
}

impl AnsiColor {
    /// The CSS class that draws this colour.
    pub open spec fn class_text(self) -> Seq<char> {
        match self {
            AnsiColor::Black => "ansi-fg-black"@,
            AnsiColor::Red => "ansi-fg-red"@,
            AnsiColor::Green => "ansi-fg-green"@,
            AnsiColor::Yellow => "ansi-fg-yellow"@,
            AnsiColor::Blue => "ansi-fg-blue"@,
            AnsiColor::Magenta => "ansi-fg-magenta"@,
            AnsiColor::Cyan => "ansi-fg-cyan"@,
            AnsiColor::White => "ansi-fg-white"@,
            AnsiColor::BrightBlack => "ansi-fg-bright-black"@,
            AnsiColor::BrightRed => "ansi-fg-bright-red"@,
            AnsiColor::BrightGreen => "ansi-fg-bright-green"@,
            AnsiColor::BrightYellow => "ansi-fg-bright-yellow"@,
            AnsiColor::BrightBlue => "ansi-fg-bright-blue"@,
            AnsiColor::BrightMagenta => "ansi-fg-bright-magenta"@,
            AnsiColor::BrightCyan => "ansi-fg-bright-cyan"@,
            AnsiColor::BrightWhite => "ansi-fg-bright-white"@,
        }
    }

    /// CSS class name for this colour.
    pub fn class_name(self) -> (r: &'static str)
        ensures
            r@ == self.class_text(),
    {
        match self {
            AnsiColor::Black => "ansi-fg-black",
            AnsiColor::Red => "ansi-fg-red",
            AnsiColor::Green => "ansi-fg-green",
            AnsiColor::Yellow => "ansi-fg-yellow",
            AnsiColor::Blue => "ansi-fg-blue",
            AnsiColor::Magenta => "ansi-fg-magenta",
            AnsiColor::Cyan => "ansi-fg-cyan",
            AnsiColor::White => "ansi-fg-white",
            AnsiColor::BrightBlack => "ansi-fg-bright-black",
            AnsiColor::BrightRed => "ansi-fg-bright-red",
            AnsiColor::BrightGreen => "ansi-fg-bright-green",
            AnsiColor::BrightYellow => "ansi-fg-bright-yellow",
            AnsiColor::BrightBlue => "ansi-fg-bright-blue",
            AnsiColor::BrightMagenta => "ansi-fg-bright-magenta",
            AnsiColor::BrightCyan => "ansi-fg-bright-cyan",
            AnsiColor::BrightWhite => "ansi-fg-bright-white",
        }
    }
}

/// The attributes in force at some point of the output.
#[derive(Clone, Copy, Debug, Eq, PartialEq, Structural)]
pub struct Style {
    /// Active foreground colour.
    pub color: Option<AnsiColor>,
    /// Whether bold weight is on.
    pub bold: bool,
    /// Whether dimming is on.
    pub dim: bool,
}

/// One styled span of terminal text.
#[derive(Clone, Debug, Eq, PartialEq)]
pub struct AnsiSpan {
    /// Plain text characters.
    pub text: String,
    /// Active foreground colour.
    pub color: Option<AnsiColor>,
    /// Whether bold text weight is enabled.
    pub bold: bool,
    /// Whether dimmed text is enabled.
    pub dim: bool,
}

/// A span as the contracts see it: its characters and its attributes.
pub struct SpanView {
    /// The characters of the span.
    pub text: Seq<char>,
    /// The attributes they are drawn with.
    pub style: Style,
}

impl View for AnsiSpan {
    type V = SpanView;

    open spec fn view(&self) -> SpanView {
        SpanView {
            text: self.text@,
            style: Style { color: self.color, bold: self.bold, dim: self.dim },
        }
    }
}

/// The attributes output starts with, and returns to on a reset.
pub open spec fn plain() -> Style {
    Style { color: None, bold: false, dim: false }
}

/// The colour that an SGR foreground code selects.
pub open spec fn color_for_code(code: nat) -> Option<AnsiColor> {
    if code == 30 { Some(AnsiColor::Black) }
    else if code == 31 { Some(AnsiColor::Red) }
    else if code == 32 { Some(AnsiColor::Green) }
    else if code == 33 { Some(AnsiColor::Yellow) }
    else if code == 34 { Some(AnsiColor::Blue) }
    else if code == 35 { Some(AnsiColor::Magenta) }
    else if code == 36 { Some(AnsiColor::Cyan) }
    else if code == 37 { Some(AnsiColor::White) }
    else if code == 90 { Some(AnsiColor::BrightBlack) }
    else if code == 91 { Some(AnsiColor::BrightRed) }
    else if code == 92 { Some(AnsiColor::BrightGreen) }
    else if code == 93 { Some(AnsiColor::BrightYellow) }
    else if code == 94 { Some(AnsiColor::BrightBlue) }
    else if code == 95 { Some(AnsiColor::BrightMagenta) }
    else if code == 96 { Some(AnsiColor::BrightCyan) }
    else if code == 97 { Some(AnsiColor::BrightWhite) }
    else { None }
}

/// What one SGR code does: 0 resets everything, 1 and 2 turn on bold and dim, 22 turns both off,
/// 30-37 and 90-97 pick a colour, 39 drops the colour, and any other code changes nothing.
pub open spec fn apply_code(st: Style, code: nat) -> Style {
    if code == 0 {
        plain()
    } else if code == 1 {
        Style { color: st.color, bold: true, dim: st.dim }
    } else if code == 2 {
        Style { color: st.color, bold: st.bold, dim: true }
    } else if code == 22 {
        Style { color: st.color, bold: false, dim: false }
    } else if code == 39 {
        Style { color: None, bold: st.bold, dim: st.dim }
    } else if color_for_code(code) is Some {
        Style { color: color_for_code(code), bold: st.bold, dim: st.dim }
    } else {
        st
    }
}

/// Nothing but white space: what is left empty once trimmed.
pub open spec fn is_blank(p: Seq<char>) -> bool {
    forall|i: int| 0 <= i < p.len() ==> is_white_space(#[trigger] p[i])
}

/// The value a parameter spells as an unsigned 32-bit number: an optional `+`, then one or more
/// ASCII digits whose value fits in 32 bits; anything else spells no number.
pub open spec fn parsed_u32(seg: Seq<char>) -> Option<nat> {
    let d = if seg.len() > 0 && seg[0] == '+' {
        seg.drop_first()
    } else {
        seg
    };
    if d.len() > 0 && all_digits(d) && digits_value(d) <= u32::MAX {
        Some(digits_value(d))
    } else {
        None
    }
}

/// The first `;` at or after `j`, or the length when there is none.
pub open spec fn semicolon_from(p: Seq<char>, j: int) -> int
    decreases p.len() - j,
{
    if j >= p.len() {
        p.len() as int
    } else if p[j] == ';' {
        j
    } else {
        semicolon_from(p, j + 1)
    }
}

pub proof fn lemma_semicolon_from_bounds(p: Seq<char>, j: int)
    requires
        0 <= j <= p.len(),
    ensures
        j <= semicolon_from(p, j) <= p.len(),
        semicolon_from(p, j) < p.len() ==> p[semicolon_from(p, j)] == ';',
    decreases p.len() - j,
{
    if j < p.len() && p[j] != ';' {
        lemma_semicolon_from_bounds(p, j + 1);
    }
}

/// What one parameter does: its code, when it spells one, is applied; otherwise nothing happens.
pub open spec fn apply_parameter(st: Style, seg: Seq<char>) -> Style {
    match parsed_u32(seg) {
        Some(code) => apply_code(st, code),
        None => st,
    }
}

/// The parameters are split at every `;` and applied from left to right.
pub open spec fn apply_parameters(st: Style, p: Seq<char>) -> Style
    decreases p.len(),
{
    let k = semicolon_from(p, 0);
    proof {
        lemma_semicolon_from_bounds(p, 0);
    }
    let next = apply_parameter(st, p.subrange(0, k));
    if k < p.len() {
        apply_parameters(next, p.subrange(k + 1, p.len() as int))
    } else {
        next
    }
}

/// What an SGR sequence with parameters `p` does: blank parameters reset, others are applied.
pub open spec fn apply_sgr(st: Style, p: Seq<char>) -> Style {
    if is_blank(p) {
        apply_code(st, 0)
    } else {
        apply_parameters(st, p)
    }
}

/// Whether an escape sequence starts at `i`.
pub open spec fn escape_at(s: Seq<char>, i: int) -> bool {
    0 <= i && i + 1 < s.len() && s[i] == '\u{1b}' && s[i + 1] == '['
}

/// Where the command letter of an escape sequence is: the first ASCII letter at or after `j`, or
/// the length of the text when the sequence is cut off.
pub open spec fn command_at(s: Seq<char>, j: int) -> int
    decreases s.len() - j,
{
    if j >= s.len() {
        s.len() as int
    } else if crate::text::is_ascii_letter(s[j]) {
        j
    } else {
        command_at(s, j + 1)
    }
}

/// Where scanning resumes after the escape sequence starting at `i`.
pub open spec fn after_escape(s: Seq<char>, i: int) -> int {
    let e = command_at(s, i + 2);
    if e < s.len() {
        e + 1
    } else {
        s.len() as int
    }
}

/// The state of a scan: spans finished so far, text gathered since, and the attributes in force.
pub struct Scan {
    /// Spans already closed.
    pub spans: Seq<SpanView>,
    /// Characters gathered for the next span.
    pub text: Seq<char>,
    /// Attributes in force.
    pub style: Style,
}

/// Closes the gathered text into a span, unless there is none.
pub open spec fn flush(acc: Scan) -> Seq<SpanView> {
    if acc.text.len() > 0 {
        acc.spans.push(SpanView { text: acc.text, style: acc.style })
    } else {
        acc.spans
    }
}

pub proof fn lemma_command_at_bounds(s: Seq<char>, j: int)
    requires
        0 <= j,
    ensures
        j <= command_at(s, j) || j > s.len(),
        command_at(s, j) <= s.len(),
    decreases s.len() - j,
{
    if j < s.len() && !crate::text::is_ascii_letter(s[j]) {
        lemma_command_at_bounds(s, j + 1);
    }
}

/// The spans of `s` from position `i` on, given the scan so far.
pub open spec fn scan(s: Seq<char>, i: int, acc: Scan) -> Seq<SpanView>
    decreases s.len() - i,
{
    if i < 0 || i >= s.len() {
        flush(acc)
    } else if escape_at(s, i) {
        let e = command_at(s, i + 2);
        proof {
            lemma_command_at_bounds(s, i + 2);
        }
        if e < s.len() && s[e] == 'm' {
            scan(
                s,
                e + 1,
                Scan { spans: flush(acc), text: Seq::empty(), style: apply_sgr(acc.style, s.subrange(i + 2, e)) },
            )
        } else {
            scan(s, after_escape(s, i), acc)
        }
    } else {
        scan(s, i + 1, Scan { spans: acc.spans, text: acc.text.push(s[i]), style: acc.style })
    }
}

/// The styled spans of a whole text.
pub open spec fn parsed_spans(s: Seq<char>) -> Seq<SpanView> {
    scan(s, 0, Scan { spans: Seq::empty(), text: Seq::empty(), style: plain() })
}

/// The spans of a vector, as the contracts see them.
pub open spec fn span_views(spans: Seq<AnsiSpan>) -> Seq<SpanView> {
    spans.map_values(|sp: AnsiSpan| sp@)
}

/// The colour an SGR code selects.
fn color_of_code(code: u32) -> (r: Option<AnsiColor>)
    ensures
        r == color_for_code(code as nat),
{
    match code {
        30 => Some(AnsiColor::Black),
        31 => Some(AnsiColor::Red),
        32 => Some(AnsiColor::Green),
        33 => Some(AnsiColor::Yellow),
        34 => Some(AnsiColor::Blue),
        35 => Some(AnsiColor::Magenta),
        36 => Some(AnsiColor::Cyan),
        37 => Some(AnsiColor::White),
        90 => Some(AnsiColor::BrightBlack),
        91 => Some(AnsiColor::BrightRed),
        92 => Some(AnsiColor::BrightGreen),
        93 => Some(AnsiColor::BrightYellow),
        94 => Some(AnsiColor::BrightBlue),
        95 => Some(AnsiColor::BrightMagenta),
        96 => Some(AnsiColor::BrightCyan),
        97 => Some(AnsiColor::BrightWhite),
        _ => None,
    }
}

/// Applies one SGR code.
fn code_applied(st: Style, code: u32) -> (r: Style)
    ensures
        r == apply_code(st, code as nat),
{
    if code == 0 {
        Style { color: None, bold: false, dim: false }
    } else if code == 1 {
        Style { color: st.color, bold: true, dim: st.dim }
    } else if code == 2 {
        Style { color: st.color, bold: st.bold, dim: true }
    } else if code == 22 {
        Style { color: st.color, bold: false, dim: false }
    } else if code == 39 {
        Style { color: None, bold: st.bold, dim: st.dim }
    } else {
        match color_of_code(code) {
            Some(c) => Style { color: Some(c), bold: st.bold, dim: st.dim },
            None => st,
        }
    }
}

/// The unsigned 32-bit number that `chars[a..b]` spells, if any.
fn parse_code(chars: &Vec<char>, a: usize, b: usize) -> (r: Option<u32>)
    requires
        a <= b <= chars.len(),
    ensures
        match r {
            Some(c) => parsed_u32(chars@.subrange(a as int, b as int)) == Some(c as nat),
            None => parsed_u32(chars@.subrange(a as int, b as int)) is None,
        },
{
    let ghost seg = chars@.subrange(a as int, b as int);
    let mut k = a;
    if k < b && chars[k] == '+' {
        k = k + 1;
    }
    let ghost d = chars@.subrange(k as int, b as int);
    assert(d =~= (if seg.len() > 0 && seg[0] == '+' { seg.drop_first() } else { seg }));
    if k == b {
        return None;
    }
    let start = k;
    let mut value: u64 = 0;
    let mut over = false;
    assert(chars@.subrange(start as int, start as int) =~= Seq::<char>::empty());
    while k < b
        invariant
            a <= start < b,
            start <= k <= b,
            b <= chars.len(),
            d == chars@.subrange(start as int, b as int),
            seg == chars@.subrange(a as int, b as int),
            d == (if seg.len() > 0 && seg[0] == '+' { seg.drop_first() } else { seg }),
            all_digits(chars@.subrange(start as int, k as int)),
            !over ==> value == digits_value(chars@.subrange(start as int, k as int)) && value
                <= u32::MAX,
            over ==> digits_value(chars@.subrange(start as int, k as int)) > u32::MAX,
        decreases b - k,
    {
        let c = chars[k];
        let ghost prev = chars@.subrange(start as int, k as int);
        let ghost next = chars@.subrange(start as int, k as int + 1);
        assert(next =~= prev.push(c));
        assert(next.drop_last() =~= prev);
        if !('0' <= c && c <= '9') {
            assert(d[k - start] == c);
            assert(!is_digit(d[k - start]));
            assert(!all_digits(d));
            assert(parsed_u32(seg) is None);
            return None;
        }
        assert forall|i: int| 0 <= i < next.len() implies is_digit(#[trigger] next[i]) by {
            if i < prev.len() {
                assert(next[i] == prev[i]);
            }
        }
        assert(digits_value(next) == digits_value(prev) * 10 + digit_value(c));
        if !over {
            let digit = (c as u32 - '0' as u32) as u64;
            let candidate = value * 10 + digit;
            if candidate > 0xFFFF_FFFF {
                over = true;
            } else {
                value = candidate;
            }
        }
        k = k + 1;
    }
    assert(chars@.subrange(start as int, b as int) == d);
    if over {
        None
    } else {
        Some(value as u32)
    }
}

/// Whether `chars[a..b]` is nothing but white space.
fn blank_between(chars: &Vec<char>, a: usize, b: usize) -> (r: bool)
    requires
        a <= b <= chars.len(),
    ensures
        r == is_blank(chars@.subrange(a as int, b as int)),
{
    let ghost p = chars@.subrange(a as int, b as int);
    let mut k = a;
    while k < b
        invariant
            a <= k <= b <= chars.len(),
            p == chars@.subrange(a as int, b as int),
            forall|i: int| 0 <= i < k - a ==> is_white_space(#[trigger] p[i]),
        decreases b - k,
    {
        if !white_space(chars[k]) {
            assert(p[k - a] == chars@[k as int]);
            return false;
        }
        k = k + 1;
    }
    true
}

/// Applies the SGR sequence whose parameters are `chars[a..e]`.
fn sgr_applied(st: Style, chars: &Vec<char>, a: usize, e: usize) -> (r: Style)
    requires
        a <= e <= chars.len(),
    ensures
        r == apply_sgr(st, chars@.subrange(a as int, e as int)),
{
    if blank_between(chars, a, e) {
        return code_applied(st, 0);
    }
    let ghost goal = apply_parameters(st, chars@.subrange(a as int, e as int));
    let mut cur = st;
    let mut seg = a;
    let mut k = a;
    while k < e
        invariant
            a <= seg <= k <= e <= chars.len(),
            apply_parameters(cur, chars@.subrange(seg as int, e as int)) == goal,
            semicolon_from(chars@.subrange(seg as int, e as int), 0) == semicolon_from(
                chars@.subrange(seg as int, e as int),
                k - seg,
            ),
        decreases e - k,
    {
        let ghost q = chars@.subrange(seg as int, e as int);
        assert(q[k - seg] == chars@[k as int]);
        if chars[k] == ';' {
            proof {
                lemma_semicolon_from_bounds(q, 0);
                assert(q.subrange(0, k - seg) =~= chars@.subrange(seg as int, k as int));
                assert(q.subrange(k - seg + 1, q.len() as int) =~= chars@.subrange(
                    k + 1,
                    e as int,
                ));
            }
            cur = match parse_code(chars, seg, k) {
                Some(code) => code_applied(cur, code),
                None => cur,
            };
            seg = k + 1;
            k = k + 1;
            proof {
                let q2 = chars@.subrange(seg as int, e as int);
                assert(semicolon_from(q2, 0) == semicolon_from(q2, k - seg));
            }
        } else {
            k = k + 1;
        }
    }
    proof {
        let q = chars@.subrange(seg as int, e as int);
        lemma_semicolon_from_bounds(q, 0);
        assert(q.subrange(0, q.len() as int) =~= q);
    }
    match parse_code(chars, seg, e) {
        Some(code) => code_applied(cur, code),
        None => cur,
    }
}

/// Closes the gathered text into a span, unless there is none.
fn flush_text(spans: &mut Vec<AnsiSpan>, text: String, st: Style)
    ensures
        span_views(final(spans)@) == flush(Scan { spans: span_views(old(spans)@), text: text@, style: st }),
{
    if !text.as_str().is_empty() {
        let ghost before = old(spans)@;
        let span = AnsiSpan { text, color: st.color, bold: st.bold, dim: st.dim };
        spans.push(span);
        assert(span_views(spans@) =~= span_views(before).push(span@));
    }
}

/// Parses raw terminal output containing ANSI escape sequences into styled spans.
pub fn parse_ansi(input: &str) -> (spans: Vec<AnsiSpan>)
    ensures
        span_views(spans@) == parsed_spans(input@),
        joined(span_views(spans@)) == visible_from(input@, 0),
        all_spans_have_text(span_views(spans@)),
{
    let chars = chars_of(input);
    let n = chars.len();
    let mut spans: Vec<AnsiSpan> = Vec::new();
    let mut text = String::new();
    let mut style = Style { color: None, bold: false, dim: false };
    let mut i: usize = 0;
    assert(span_views(spans@) =~= Seq::<SpanView>::empty());
    while i < n
        invariant
            chars@ == input@,
            n == chars.len(),
            i <= n,
            scan(input@, i as int, Scan { spans: span_views(spans@), text: text@, style })
                == parsed_spans(input@),
        decreases n - i,
    {
        let ch = chars[i];
        if ch == '\u{1b}' && i + 1 < n && chars[i + 1] == '[' {
            let mut j = i + 2;
            while j < n && !crate::text::ascii_letter(chars[j])
                invariant
                    chars@ == input@,
                    n == chars.len(),
                    i + 2 <= j <= n,
                    command_at(input@, i + 2) == command_at(input@, j as int),
                decreases n - j,
            {
                j = j + 1;
            }
            if j < n && chars[j] == 'm' {
                let finished = text;
                text = String::new();
                flush_text(&mut spans, finished, style);
                style = sgr_applied(style, &chars, i + 2, j);
                i = j + 1;
            } else if j < n {
                i = j + 1;
            } else {
                i = n;
            }
        } else {
            push_char(&mut text, ch);
            i = i + 1;
        }
    }
    flush_text(&mut spans, text, style);
    proof {
        lemma_visible_text_is_kept(input@);
        lemma_spans_are_not_empty(input@);
    }
    spans
}


/// The characters of the spans, one span after another.
pub open spec fn joined(spans: Seq<SpanView>) -> Seq<char>
    decreases spans.len(),
{
    if spans.len() == 0 {
        Seq::empty()
    } else {
        joined(spans.drop_last()) + spans.last().text
    }
}

/// What a person sees of `s` from position `i` on: every character except those of escape
/// sequences.
pub open spec fn visible_from(s: Seq<char>, i: int) -> Seq<char>
    decreases s.len() - i,
{
    if i < 0 || i >= s.len() {
        Seq::empty()
    } else if escape_at(s, i) {
        proof {
            lemma_command_at_bounds(s, i + 2);
        }
        visible_from(s, after_escape(s, i))
    } else {
        seq![s[i]] + visible_from(s, i + 1)
    }
}

proof fn lemma_joined_push(spans: Seq<SpanView>, sp: SpanView)
    ensures
        joined(spans.push(sp)) == joined(spans) + sp.text,
{
    assert(spans.push(sp).drop_last() =~= spans);
}

proof fn lemma_joined_flush(acc: Scan)
    ensures
        joined(flush(acc)) == joined(acc.spans) + acc.text,
{
    if acc.text.len() > 0 {
        lemma_joined_push(acc.spans, SpanView { text: acc.text, style: acc.style });
    } else {
        assert(acc.text =~= Seq::<char>::empty());
        assert(joined(acc.spans) + acc.text =~= joined(acc.spans));
    }
}

proof fn lemma_scan_keeps_visible_text(s: Seq<char>, i: int, acc: Scan)
    requires
        0 <= i,
    ensures
        joined(scan(s, i, acc)) == joined(acc.spans) + acc.text + visible_from(s, i),
    decreases s.len() - i,
{
    if i >= s.len() {
        lemma_joined_flush(acc);
        assert(joined(acc.spans) + acc.text + Seq::<char>::empty() =~= joined(acc.spans) + acc.text);
    } else if escape_at(s, i) {
        let e = command_at(s, i + 2);
        lemma_command_at_bounds(s, i + 2);
        if e < s.len() && s[e] == 'm' {
            let next = Scan {
                spans: flush(acc),
                text: Seq::empty(),
                style: apply_sgr(acc.style, s.subrange(i + 2, e)),
            };
            lemma_scan_keeps_visible_text(s, e + 1, next);
            lemma_joined_flush(acc);
            assert(joined(flush(acc)) + Seq::<char>::empty() + visible_from(s, e + 1) =~= joined(
                acc.spans,
            ) + acc.text + visible_from(s, e + 1));
        } else {
            lemma_scan_keeps_visible_text(s, after_escape(s, i), acc);
        }
    } else {
        let next = Scan { spans: acc.spans, text: acc.text.push(s[i]), style: acc.style };
        lemma_scan_keeps_visible_text(s, i + 1, next);
        assert(joined(acc.spans) + acc.text.push(s[i]) + visible_from(s, i + 1) =~= joined(
            acc.spans,
        ) + acc.text + (seq![s[i]] + visible_from(s, i + 1)));
    }
}

/// Parsing loses no visible character and invents none: the spans, read one after another, are
/// exactly the input with its escape sequences taken out.
pub proof fn lemma_visible_text_is_kept(s: Seq<char>)
    ensures
        joined(parsed_spans(s)) == visible_from(s, 0),
{
    let acc = Scan { spans: Seq::empty(), text: Seq::empty(), style: plain() };
    lemma_scan_keeps_visible_text(s, 0, acc);
    assert(joined(Seq::<SpanView>::empty()) == Seq::<char>::empty());
    assert(Seq::<char>::empty() + Seq::<char>::empty() + visible_from(s, 0) =~= visible_from(s, 0));
}

/// Every span in the spans closed so far holds at least one character.
pub open spec fn all_spans_have_text(spans: Seq<SpanView>) -> bool {
    forall|k: int| 0 <= k < spans.len() ==> (#[trigger] spans[k]).text.len() > 0
}

proof fn lemma_scan_makes_no_empty_span(s: Seq<char>, i: int, acc: Scan)
    requires
        all_spans_have_text(acc.spans),
    ensures
        all_spans_have_text(scan(s, i, acc)),
    decreases s.len() - i,
{
    if i < 0 || i >= s.len() {
    } else if escape_at(s, i) {
        let e = command_at(s, i + 2);
        lemma_command_at_bounds(s, i + 2);
        if e < s.len() && s[e] == 'm' {
            let next = Scan {
                spans: flush(acc),
                text: Seq::empty(),
                style: apply_sgr(acc.style, s.subrange(i + 2, e)),
            };
            lemma_scan_makes_no_empty_span(s, e + 1, next);
        } else {
            lemma_scan_makes_no_empty_span(s, after_escape(s, i), acc);
        }
    } else {
        let next = Scan { spans: acc.spans, text: acc.text.push(s[i]), style: acc.style };
        lemma_scan_makes_no_empty_span(s, i + 1, next);
    }
}

/// No span is ever empty: text is only closed into a span when there is some.
pub proof fn lemma_spans_are_not_empty(s: Seq<char>)
    ensures
        all_spans_have_text(parsed_spans(s)),
{
    lemma_scan_makes_no_empty_span(
        s,
        0,
        Scan { spans: Seq::empty(), text: Seq::empty(), style: plain() },
    );
}

proof fn lemma_scan_of_plain_text(s: Seq<char>, i: int, acc: Scan)
    requires
        0 <= i <= s.len(),
        forall|j: int| i <= j < s.len() ==> s[j] != '\u{1b}',
    ensures
        scan(s, i, acc) == flush(
            Scan { spans: acc.spans, text: acc.text + s.subrange(i, s.len() as int), style: acc.style },
        ),
    decreases s.len() - i,
{
    if i >= s.len() {
        assert(acc.text + s.subrange(i, s.len() as int) =~= acc.text);
    } else {
        let next = Scan { spans: acc.spans, text: acc.text.push(s[i]), style: acc.style };
        lemma_scan_of_plain_text(s, i + 1, next);
        assert(acc.text.push(s[i]) + s.subrange(i + 1, s.len() as int) =~= acc.text + s.subrange(
            i,
            s.len() as int,
        ));
    }
}

/// Text without any escape character comes back as one unstyled span holding all of it, or as no
/// span at all when it is empty.
pub proof fn lemma_plain_text_is_one_unstyled_span(s: Seq<char>)
    requires
        !s.contains('\u{1b}'),
    ensures
        s.len() > 0 ==> parsed_spans(s) == seq![SpanView { text: s, style: plain() }],
        s.len() == 0 ==> parsed_spans(s).len() == 0,
{
    let acc = Scan { spans: Seq::empty(), text: Seq::empty(), style: plain() };
    assert forall|j: int| 0 <= j < s.len() implies s[j] != '\u{1b}' by {
        if s[j] == '\u{1b}' {
            assert(s.contains('\u{1b}'));
        }
    }
    lemma_scan_of_plain_text(s, 0, acc);
    assert(Seq::<char>::empty() + s.subrange(0, s.len() as int) =~= s);
    if s.len() > 0 {
        assert(parsed_spans(s) =~= seq![SpanView { text: s, style: plain() }]);
    }
}

/// Every escape sequence of `p` that starts inside it also ends inside it: its command letter
/// comes before the end of `p`.
pub open spec fn escapes_closed(p: Seq<char>) -> bool {
    forall|i: int|
        0 <= i && i + 1 < p.len() && p[i] == '\u{1b}' && p[i + 1] == '[' ==> #[trigger] command_at(
            p,
            i + 2,
        ) < p.len()
}

proof fn lemma_command_at_prefix(p: Seq<char>, s: Seq<char>, j: int)
    requires
        0 <= j,
        p.len() <= s.len(),
        s.take(p.len() as int) == p,
        command_at(p, j) < p.len(),
    ensures
        command_at(s, j) == command_at(p, j),
    decreases p.len() - j,
{
    if j < p.len() {
        assert(s[j] == s.take(p.len() as int)[j]);
        if !crate::text::is_ascii_letter(p[j]) {
            lemma_command_at_prefix(p, s, j + 1);
        }
    }
}

/// Scanning from `i` reaches position `n` in some state, when `s` up to `n` closes every escape
/// sequence it opens and an escape character stands at `n`.
proof fn lemma_scan_reaches(s: Seq<char>, n: int, i: int, acc: Scan) -> (at_n: Scan)
    requires
        0 <= i <= n < s.len(),
        s[n] == '\u{1b}',
        escapes_closed(s.take(n)),
    ensures
        scan(s, i, acc) == scan(s, n, at_n),
    decreases n - i,
{
    if i == n {
        acc
    } else if escape_at(s, i) {
        let p = s.take(n);
        assert(i + 1 != n);
        assert(p[i] == s[i] && p[i + 1] == s[i + 1]);
        assert(command_at(p, i + 2) < p.len());
        assert(s.take(p.len() as int) == p);
        lemma_command_at_prefix(p, s, i + 2);
        lemma_command_at_bounds(p, i + 2);
        let e = command_at(s, i + 2);
        if s[e] == 'm' {
            lemma_scan_reaches(
                s,
                n,
                e + 1,
                Scan { spans: flush(acc), text: Seq::empty(), style: apply_sgr(acc.style, s.subrange(i + 2, e)) },
            )
        } else {
            lemma_scan_reaches(s, n, after_escape(s, i), acc)
        }
    } else {
        lemma_scan_reaches(s, n, i + 1, Scan { spans: acc.spans, text: acc.text.push(s[i]), style: acc.style })
    }
}

/// Wherever the scan meets `ESC [ 22 m` followed by text without escapes, that text ends the
/// output as one span with bold and dim off and the colour kept.
pub proof fn lemma_normal_intensity_at(s: Seq<char>, k: int, acc: Scan)
    requires
        0 <= k,
        k + 5 < s.len(),
        s.subrange(k, k + 5) == "\u{1b}[22m"@,
        forall|j: int| k + 5 <= j < s.len() ==> s[j] != '\u{1b}',
    ensures
        scan(s, k, acc).len() > 0,
        scan(s, k, acc).last() == (SpanView {
            text: s.subrange(k + 5, s.len() as int),
            style: Style { color: acc.style.color, bold: false, dim: false },
        }),
{
    reveal_strlit("\u{1b}[22m");
    assert(s[k] == "\u{1b}[22m"@[0]);
    assert(s[k + 1] == "\u{1b}[22m"@[1]);
    assert(s[k + 2] == '2' && s[k + 3] == '2' && s[k + 4] == 'm') by {
        assert(s[k + 2] == "\u{1b}[22m"@[2]);
        assert(s[k + 3] == "\u{1b}[22m"@[3]);
        assert(s[k + 4] == "\u{1b}[22m"@[4]);
    }
    assert(escape_at(s, k));
    assert(command_at(s, k + 4) == k + 4);
    assert(command_at(s, k + 3) == k + 4);
    assert(command_at(s, k + 2) == k + 4);
    let params = s.subrange(k + 2, k + 4);
    assert(params =~= seq!['2', '2']);
    assert(!is_blank(params)) by {
        assert(!is_white_space(params[0]));
    }
    assert(semicolon_from(params, 2) == 2);
    assert(semicolon_from(params, 1) == 2);
    assert(semicolon_from(params, 0) == 2);
    assert(params.subrange(0, 2) =~= params);
    assert(params.drop_last() =~= seq!['2']);
    assert(seq!['2'].drop_last() =~= Seq::<char>::empty());
    assert(digits_value(Seq::<char>::empty()) == 0);
    assert(digits_value(seq!['2']) == 2);
    assert(digits_value(params) == 22);
    assert(all_digits(params));
    assert(parsed_u32(params) == Some(22nat));
    let st = Style { color: acc.style.color, bold: false, dim: false };
    assert(apply_sgr(acc.style, params) == st);
    let next = Scan { spans: flush(acc), text: Seq::empty(), style: st };
    lemma_scan_of_plain_text(s, k + 5, next);
    let tail = s.subrange(k + 5, s.len() as int);
    assert(Seq::<char>::empty() + tail =~= tail);
}

/// SGR code 22 returns to normal intensity: in any output whose earlier escape sequences are all
/// complete, text after `ESC [ 22 m` that holds no further escape is the last span, neither bold
/// nor dim, whatever was in force before.
pub proof fn lemma_normal_intensity_clears_bold_and_dim(p: Seq<char>, t: Seq<char>)
    requires
        escapes_closed(p),
        t.len() > 0,
        !t.contains('\u{1b}'),
    ensures
        ({
            let s = p + "\u{1b}[22m"@ + t;
            &&& parsed_spans(s).len() > 0
            &&& parsed_spans(s).last().text == t
            &&& !parsed_spans(s).last().style.bold
            &&& !parsed_spans(s).last().style.dim
        }),
{
    reveal_strlit("\u{1b}[22m");
    let seq22 = "\u{1b}[22m"@;
    assert(seq22.len() == 5);
    let s = p + seq22 + t;
    let n = p.len() as int;
    assert(s.take(n) =~= p);
    assert(s[n] == '\u{1b}');
    assert(s.subrange(n, n + 5) =~= seq22);
    assert(s.subrange(n + 5, s.len() as int) =~= t);
    assert forall|j: int| n + 5 <= j < s.len() implies s[j] != '\u{1b}' by {
        assert(s[j] == t[j - n - 5]);
        if t[j - n - 5] == '\u{1b}' {
            assert(t.contains('\u{1b}'));
        }
    }
    let start = Scan { spans: Seq::empty(), text: Seq::empty(), style: plain() };
    let at_n = lemma_scan_reaches(s, n, 0, start);
    lemma_normal_intensity_at(s, n, at_n);
}

proof fn lemma_command_skips_digits(s: Seq<char>, j: int, m: int)
    requires
        0 <= j <= m < s.len(),
        forall|x: int| j <= x < m ==> is_digit(#[trigger] s[x]),
        crate::text::is_ascii_letter(s[m]),
    ensures
        command_at(s, j) == m,
    decreases m - j,
{
    if j < m {
        assert(is_digit(s[j]));
        lemma_command_skips_digits(s, j + 1, m);
    }
}

proof fn lemma_no_semicolon_in_digits(p: Seq<char>, j: int)
    requires
        0 <= j <= p.len(),
        all_digits(p),
    ensures
        semicolon_from(p, j) == p.len(),
    decreases p.len() - j,
{
    if j < p.len() {
        assert(is_digit(p[j]));
        lemma_no_semicolon_in_digits(p, j + 1);
    }
}

/// The escape sequence that selects SGR code `code`, written in decimal.
pub open spec fn sgr_sequence(code: nat) -> Seq<char> {
    seq!['\u{1b}', '['] + crate::text::decimal_text(code) + seq!['m']
}

/// Wherever the scan meets the SGR sequence of one code followed by text without escapes, that
/// text ends the output as one span drawn with the style the code makes of the style in force.
proof fn lemma_sgr_code_at(s: Seq<char>, k: int, acc: Scan, code: nat)
    requires
        0 <= k,
        code <= u32::MAX,
        k + sgr_sequence(code).len() < s.len(),
        s.subrange(k, k + sgr_sequence(code).len()) == sgr_sequence(code),
        forall|j: int| k + sgr_sequence(code).len() <= j < s.len() ==> s[j] != '\u{1b}',
    ensures
        scan(s, k, acc).len() > 0,
        scan(s, k, acc).last() == (SpanView {
            text: s.subrange(k + sgr_sequence(code).len(), s.len() as int),
            style: apply_code(acc.style, code),
        }),
{
    let d = crate::text::decimal_text(code);
    crate::text::lemma_decimal_text(code);
    let seqc = sgr_sequence(code);
    let n = d.len() as int;
    let m = k + 2 + n;
    assert(seqc.len() == n + 3);
    assert(s[k] == seqc[0]);
    assert(s[k + 1] == seqc[1]);
    assert(s[m] == seqc[n + 2]);
    assert forall|x: int| k + 2 <= x < m implies is_digit(#[trigger] s[x]) by {
        assert(s[x] == seqc[x - k]);
        assert(seqc[x - k] == d[x - k - 2]);
    }
    assert(escape_at(s, k));
    lemma_command_skips_digits(s, k + 2, m);
    let params = s.subrange(k + 2, m);
    assert(params =~= d) by {
        assert forall|x: int| 0 <= x < n implies params[x] == d[x] by {
            assert(s[k + 2 + x] == seqc[x + 2]);
        }
    }
    assert(!is_blank(params)) by {
        assert(is_digit(params[0]));
    }
    lemma_no_semicolon_in_digits(params, 0);
    assert(params.subrange(0, n) =~= params);
    assert(params[0] != '+') by {
        assert(is_digit(params[0]));
    }
    assert(parsed_u32(params) == Some(code));
    let st = apply_code(acc.style, code);
    assert(apply_sgr(acc.style, params) == st);
    let next = Scan { spans: flush(acc), text: Seq::empty(), style: st };
    lemma_scan_of_plain_text(s, m + 1, next);
    let tail = s.subrange(m + 1, s.len() as int);
    assert(Seq::<char>::empty() + tail =~= tail);
}

/// The last span of `p`, the SGR sequence of `code`, and `t`, and the style that was in force
/// when the scan reached the sequence.
proof fn lemma_sgr_code_after(p: Seq<char>, code: nat, t: Seq<char>) -> (before: Style)
    requires
        escapes_closed(p),
        code <= u32::MAX,
        t.len() > 0,
        !t.contains('\u{1b}'),
    ensures
        ({
            let s = p + sgr_sequence(code) + t;
            &&& parsed_spans(s).len() > 0
            &&& parsed_spans(s).last().text == t
            &&& parsed_spans(s).last().style == apply_code(before, code)
        }),
{
    crate::text::lemma_decimal_text(code);
    let seqc = sgr_sequence(code);
    let s = p + seqc + t;
    let n = p.len() as int;
    let l = seqc.len() as int;
    assert(s.take(n) =~= p);
    assert(s[n] == seqc[0]);
    assert(s.subrange(n, n + l) =~= seqc);
    assert(s.subrange(n + l, s.len() as int) =~= t);
    assert forall|j: int| n + l <= j < s.len() implies s[j] != '\u{1b}' by {
        assert(s[j] == t[j - n - l]);
        if t[j - n - l] == '\u{1b}' {
            assert(t.contains('\u{1b}'));
        }
    }
    let start = Scan { spans: Seq::empty(), text: Seq::empty(), style: plain() };
    let at_n = lemma_scan_reaches(s, n, 0, start);
    lemma_sgr_code_at(s, n, at_n, code);
    at_n.style
}

/// What the common SGR codes do to the text that follows them, in any output whose earlier escape
/// sequences are complete: code 0 resets to plain text; 1 turns bold on and 2 dim on, keeping the
/// other two attributes; 39 drops the colour, keeping the weight; 30-37 and 90-97 select the
/// eight colours in order (black, red, green, yellow, blue, magenta, cyan, white) and their
/// bright forms, keeping the weight; and 22 turns bold and dim off, keeping the colour.
pub proof fn lemma_sgr_codes_style_what_follows(p: Seq<char>, code: nat, t: Seq<char>)
    requires
        escapes_closed(p),
        code <= u32::MAX,
        t.len() > 0,
        !t.contains('\u{1b}'),
    ensures
        ({
            let s = p + sgr_sequence(code) + t;
            let last = parsed_spans(s).last();
            &&& parsed_spans(s).len() > 0
            &&& last.text == t
            &&& code == 0 ==> last.style == plain()
            &&& code == 1 ==> last.style.bold
            &&& code == 2 ==> last.style.dim
            &&& code == 22 ==> !last.style.bold && !last.style.dim
            &&& code == 39 ==> last.style.color is None
            &&& code == 30 ==> last.style.color == Some(AnsiColor::Black)
            &&& code == 31 ==> last.style.color == Some(AnsiColor::Red)
            &&& code == 32 ==> last.style.color == Some(AnsiColor::Green)
            &&& code == 33 ==> last.style.color == Some(AnsiColor::Yellow)
            &&& code == 34 ==> last.style.color == Some(AnsiColor::Blue)
            &&& code == 35 ==> last.style.color == Some(AnsiColor::Magenta)
            &&& code == 36 ==> last.style.color == Some(AnsiColor::Cyan)
            &&& code == 37 ==> last.style.color == Some(AnsiColor::White)
            &&& code == 90 ==> last.style.color == Some(AnsiColor::BrightBlack)
            &&& code == 91 ==> last.style.color == Some(AnsiColor::BrightRed)
            &&& code == 92 ==> last.style.color == Some(AnsiColor::BrightGreen)
            &&& code == 93 ==> last.style.color == Some(AnsiColor::BrightYellow)
            &&& code == 94 ==> last.style.color == Some(AnsiColor::BrightBlue)
            &&& code == 95 ==> last.style.color == Some(AnsiColor::BrightMagenta)
            &&& code == 96 ==> last.style.color == Some(AnsiColor::BrightCyan)
            &&& code == 97 ==> last.style.color == Some(AnsiColor::BrightWhite)
        }),
{
    let before = lemma_sgr_code_after(p, code, t);
}

/// Each code changes only what it is about: after 1, 2 or a colour code the attributes it does
/// not name are those in force before; after 22 and 39 likewise; and an unknown code changes
/// nothing.
pub proof fn lemma_sgr_codes_keep_what_they_do_not_name(st: Style, code: nat)
    ensures
        code == 1 ==> apply_code(st, code) == (Style { bold: true, ..st }),
        code == 2 ==> apply_code(st, code) == (Style { dim: true, ..st }),
        code == 22 ==> apply_code(st, code) == (Style { bold: false, dim: false, ..st }),
        code == 39 ==> apply_code(st, code) == (Style { color: None, ..st }),
        (30 <= code <= 37 || 90 <= code <= 97) ==> apply_code(st, code).bold == st.bold
            && apply_code(st, code).dim == st.dim && apply_code(st, code).color is Some,
        !(code <= 2 || code == 22 || code == 39 || 30 <= code <= 37 || 90 <= code <= 97) ==> apply_code(
            st,
            code,
        ) == st,
{
}

} // verus!
