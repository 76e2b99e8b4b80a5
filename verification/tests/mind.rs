use living_canvas::cards::mind::{
    beliefs_label, capabilities_label, commitments_label, context_label, CommitmentsReading,
    PanelReading, SnapshotReading,
};

fn known(count: u64) -> Option<PanelReading> {
    Some(PanelReading { known: true, count })
}

#[test]
fn beliefs_are_counted_only_when_known() {
    assert_eq!(beliefs_label(None), "Epistemic1 not read");
    assert_eq!(beliefs_label(Some(PanelReading { known: false, count: 3 })), "Epistemic1 not read");
    assert_eq!(beliefs_label(known(0)), "Believes nothing yet");
    assert_eq!(beliefs_label(known(1)), "1 belief");
    assert_eq!(beliefs_label(known(12)), "12 beliefs");
}

#[test]
fn open_commitments_without_a_count_are_none_open() {
    assert_eq!(commitments_label(None), "Intention1 not read");
    assert_eq!(
        commitments_label(Some(CommitmentsReading { known: false, open_count: Some(4) })),
        "Intention1 not read"
    );
    assert_eq!(
        commitments_label(Some(CommitmentsReading { known: true, open_count: None })),
        "No open commitments"
    );
    assert_eq!(
        commitments_label(Some(CommitmentsReading { known: true, open_count: Some(1) })),
        "1 open commitment"
    );
    assert_eq!(
        commitments_label(Some(CommitmentsReading { known: true, open_count: Some(7) })),
        "7 open commitments"
    );
}

#[test]
fn concepts_are_counted_only_when_known() {
    assert_eq!(context_label(None), "Context1 not read");
    assert_eq!(context_label(Some(PanelReading { known: false, count: 0 })), "Context1 not read");
    assert_eq!(context_label(known(0)), "Nothing activated yet");
    assert_eq!(context_label(known(1)), "1 active concept");
    assert_eq!(context_label(known(40)), "40 active concepts");
}

#[test]
fn only_a_snapshot_counts_capabilities() {
    assert_eq!(capabilities_label(&SnapshotReading::Loading), "Connecting…");
    assert_eq!(capabilities_label(&SnapshotReading::SignInRequired), "Not signed in");
    assert_eq!(capabilities_label(&SnapshotReading::Error), "Gateway unavailable");
    assert_eq!(
        capabilities_label(&SnapshotReading::Ready(vec![true, false, true])),
        "2/3 capabilities"
    );
    assert_eq!(capabilities_label(&SnapshotReading::Ready(Vec::new())), "0/0 capabilities");
}
