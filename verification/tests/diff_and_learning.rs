use living_canvas::cards::diff::{hunk_header, line_number_text, line_style, DiffLineKind};
use living_canvas::cards::learning::{layer_for, proposal, LearningLayer};

#[test]
fn a_hunk_header_reads_in_unified_form() {
    assert_eq!(hunk_header(1, 2, 3, 4), "@@ -1,2 +3,4 @@");
    assert_eq!(hunk_header(0, 0, 120, 17), "@@ -0,0 +120,17 @@");
}

#[test]
fn each_line_kind_has_its_class_and_prefix() {
    assert_eq!(line_style(DiffLineKind::Delete), ("diff-line del", "-"));
    assert_eq!(line_style(DiffLineKind::Add), ("diff-line add", "+"));
    assert_eq!(line_style(DiffLineKind::Context), ("diff-line ctx", " "));
}

#[test]
fn a_missing_line_number_shows_nothing() {
    assert_eq!(line_number_text(Some(42)), "42");
    assert_eq!(line_number_text(Some(0)), "0");
    assert_eq!(line_number_text(None), "");
}

#[test]
fn a_layer_choice_falls_back_to_procedural() {
    assert_eq!(layer_for("behavioral"), LearningLayer::Behavioral);
    assert_eq!(layer_for("epistemic"), LearningLayer::Epistemic);
    assert_eq!(layer_for("neural"), LearningLayer::Neural);
    assert_eq!(layer_for("procedural"), LearningLayer::Procedural);
    assert_eq!(layer_for("Neural"), LearningLayer::Procedural);
    assert_eq!(layer_for(""), LearningLayer::Procedural);
}

#[test]
fn a_blank_candidate_is_not_proposed() {
    assert!(proposal("   ", "repo", "neural").is_none());
    assert!(proposal("always rebase", "\t\n", "neural").is_none());
    assert!(proposal("", "", "").is_none());
}

#[test]
fn a_candidate_keeps_its_texts_as_typed() {
    let p = proposal("  always rebase ", " repo", "epistemic").expect("a proposal");
    assert_eq!(p.layer, LearningLayer::Epistemic);
    assert_eq!(p.generalization, "  always rebase ");
    assert_eq!(p.scope, " repo");
}
