use living_canvas::ansi::{parse_ansi, AnsiColor};

#[test]
fn parses_plain_text_without_escapes() {
    let spans = parse_ansi("hello world\n");
    assert_eq!(spans.len(), 1);
    assert_eq!(spans[0].text, "hello world\n");
    assert_eq!(spans[0].color, None);
    assert!(!spans[0].bold);
}

#[test]
fn parses_colored_text_and_reset() {
    let input = "\x1b[31mError:\x1b[0m File not found";
    let spans = parse_ansi(input);
    assert_eq!(spans.len(), 2);
    assert_eq!(spans[0].text, "Error:");
    assert_eq!(spans[0].color, Some(AnsiColor::Red));
    assert_eq!(spans[1].text, " File not found");
    assert_eq!(spans[1].color, None);
}

#[test]
fn parses_bold_and_bright_colors() {
    let input = "\x1b[1;92mSUCCESS\x1b[0m";
    let spans = parse_ansi(input);
    assert_eq!(spans.len(), 1);
    assert_eq!(spans[0].text, "SUCCESS");
    assert_eq!(spans[0].color, Some(AnsiColor::BrightGreen));
    assert!(spans[0].bold);
}

#[test]
fn empty_output_has_no_spans() {
    assert!(parse_ansi("").is_empty());
    assert!(parse_ansi("\x1b[1m\x1b[0m").is_empty());
}

#[test]
fn non_sgr_sequences_vanish_without_splitting_the_text() {
    let spans = parse_ansi("ab\x1b[2Kcd");
    assert_eq!(spans.len(), 1);
    assert_eq!(spans[0].text, "abcd");
}

#[test]
fn an_escape_without_a_bracket_is_ordinary_text() {
    let spans = parse_ansi("a\x1bb");
    assert_eq!(spans.len(), 1);
    assert_eq!(spans[0].text, "a\x1bb");
}

#[test]
fn a_cut_off_sequence_swallows_the_rest() {
    let spans = parse_ansi("ok\x1b[31");
    assert_eq!(spans.len(), 1);
    assert_eq!(spans[0].text, "ok");
    assert_eq!(spans[0].color, None);
}

#[test]
fn blank_parameters_reset_and_unknown_codes_change_nothing() {
    let spans = parse_ansi("\x1b[1;2;34ma\x1b[mb\x1b[ 33; 5mc\x1b[;mx");
    assert_eq!(spans.len(), 4);
    assert_eq!(spans[0].text, "a");
    assert_eq!(spans[0].color, Some(AnsiColor::Blue));
    assert!(spans[0].bold && spans[0].dim);
    assert_eq!(spans[1].text, "b");
    assert_eq!(spans[1].color, None);
    assert!(!spans[1].bold && !spans[1].dim);
    // " 33" and " 5" spell no number, so the style stays plain; each sequence still closes a span.
    assert_eq!(spans[2].text, "c");
    assert_eq!(spans[2].color, None);
    assert_eq!(spans[3].text, "x");
    assert_eq!(spans[3].color, None);
}

#[test]
fn signed_and_oversized_parameters() {
    let spans = parse_ansi("\x1b[+31ma\x1b[4294967297mb\x1b[39;22mc");
    assert_eq!(spans.len(), 3);
    assert_eq!(spans[0].text, "a");
    assert_eq!(spans[0].color, Some(AnsiColor::Red));
    assert_eq!(spans[1].text, "b");
    assert_eq!(spans[1].color, Some(AnsiColor::Red));
    assert_eq!(spans[2].text, "c");
    assert_eq!(spans[2].color, None);
}

#[test]
fn dim_and_normal_intensity() {
    let spans = parse_ansi("\x1b[2;96mq\x1b[22mr");
    assert_eq!(spans.len(), 2);
    assert!(spans[0].dim && !spans[0].bold);
    assert_eq!(spans[0].color, Some(AnsiColor::BrightCyan));
    assert!(!spans[1].dim);
    assert_eq!(spans[1].color, Some(AnsiColor::BrightCyan));
}

#[test]
fn visible_text_is_kept_in_order() {
    let input = "\x1b[33mwarn\x1b[0m: disk \x1b[1m90%\x1b[0m full\x1b[Kend";
    let joined: String = parse_ansi(input).iter().map(|s| s.text.as_str()).collect();
    assert_eq!(joined, "warn: disk 90% fullend");
    assert!(parse_ansi(input).iter().all(|s| !s.text.is_empty()));
}

#[test]
fn class_names_follow_the_color() {
    assert_eq!(AnsiColor::Red.class_name(), "ansi-fg-red");
    assert_eq!(AnsiColor::BrightBlack.class_name(), "ansi-fg-bright-black");
    assert_eq!(AnsiColor::White.class_name(), "ansi-fg-white");
}
