use living_canvas::cards::operations::{
    badge_text, filtered_positions, lists, observation_text, short_operation_id, status_filter,
    ObservationState, OperationState, StatusFilter,
};

#[test]
fn a_status_choice_names_its_filter() {
    assert_eq!(status_filter(Some("running")), StatusFilter::Active);
    assert_eq!(status_filter(Some("completed")), StatusFilter::Completed);
    assert_eq!(status_filter(Some("failed")), StatusFilter::Unsuccessful);
    assert_eq!(status_filter(Some("all")), StatusFilter::All);
    assert_eq!(status_filter(None), StatusFilter::All);
}

#[test]
fn the_failed_filter_lists_refusals_and_cancellations() {
    assert!(lists(StatusFilter::Unsuccessful, OperationState::Refused));
    assert!(lists(StatusFilter::Unsuccessful, OperationState::Cancelled));
    assert!(!lists(StatusFilter::Unsuccessful, OperationState::Completed));
    assert!(lists(StatusFilter::Active, OperationState::Queued));
    assert!(!lists(StatusFilter::Completed, OperationState::Running));
    let states = vec![
        OperationState::Running,
        OperationState::Completed,
        OperationState::Queued,
        OperationState::Refused,
        OperationState::Failed,
    ];
    assert_eq!(filtered_positions(StatusFilter::Active, &states), vec![0, 2]);
    assert_eq!(filtered_positions(StatusFilter::Unsuccessful, &states), vec![3, 4]);
    assert_eq!(filtered_positions(StatusFilter::All, &states), vec![0, 1, 2, 3, 4]);
    assert!(filtered_positions(StatusFilter::Completed, &Vec::new()).is_empty());
}

#[test]
fn a_refusal_is_not_painted_as_a_failure() {
    assert_eq!(badge_text(OperationState::Refused, false), "Refused");
    assert_eq!(badge_text(OperationState::Failed, false), "Failed");
    assert_eq!(badge_text(OperationState::Running, true), "Cancelling");
    assert_eq!(badge_text(OperationState::Running, false), "Running");
    assert_eq!(badge_text(OperationState::Queued, true), "Queued");
}

#[test]
fn known_work_needs_no_observation_line() {
    assert_eq!(observation_text(ObservationState::Known), "");
    assert_eq!(
        observation_text(ObservationState::Unavailable),
        "The executing authority cannot be read right now"
    );
}

#[test]
fn an_operation_id_shows_the_first_eight_hex_digits() {
    assert_eq!(short_operation_id(0xa1a2a3a4b1b2c1c2d1d2d3d4d5d6d7d8), "id: a1a2a3a4");
    assert_eq!(short_operation_id(0x0000_00ff_0000_0000_0000_0000_0000_0000), "id: 000000ff");
    assert_eq!(short_operation_id(0), "id: 00000000");
}
