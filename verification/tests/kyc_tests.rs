use peerx::kyc::KYCStatus;

#[test]
fn test_transition_matrix_matches_expected_fsm() {
    assert!(KYCStatus::Unverified.can_transition_to(&KYCStatus::Pending));
    assert!(KYCStatus::Pending.can_transition_to(&KYCStatus::InReview));
    assert!(KYCStatus::InReview.can_transition_to(&KYCStatus::AdditionalInfoRequired));
    assert!(KYCStatus::InReview.can_transition_to(&KYCStatus::Verified));
    assert!(KYCStatus::InReview.can_transition_to(&KYCStatus::Rejected));
    assert!(KYCStatus::AdditionalInfoRequired.can_transition_to(&KYCStatus::InReview));

    assert!(!KYCStatus::Unverified.can_transition_to(&KYCStatus::Verified));
    assert!(!KYCStatus::Pending.can_transition_to(&KYCStatus::Verified));
    assert!(!KYCStatus::Pending.can_transition_to(&KYCStatus::Rejected));
    assert!(!KYCStatus::AdditionalInfoRequired.can_transition_to(&KYCStatus::Verified));
    assert!(!KYCStatus::AdditionalInfoRequired.can_transition_to(&KYCStatus::Rejected));
    assert!(!KYCStatus::Verified.can_transition_to(&KYCStatus::Pending));
    assert!(!KYCStatus::Rejected.can_transition_to(&KYCStatus::InReview));
}

const ALL: [KYCStatus; 6] = [
    KYCStatus::Unverified,
    KYCStatus::Pending,
    KYCStatus::InReview,
    KYCStatus::AdditionalInfoRequired,
    KYCStatus::Verified,
    KYCStatus::Rejected,
];

#[test]
fn terminal_states_have_no_way_out() {
    for from in ALL.iter() {
        let outgoing = ALL.iter().filter(|to| from.can_transition_to(to)).count();
        if from.is_terminal() {
            assert_eq!(outgoing, 0, "{:?} must be final", from);
        } else {
            assert!(outgoing > 0, "{:?} must lead somewhere", from);
        }
    }
    assert!(KYCStatus::Verified.is_terminal());
    assert!(KYCStatus::Rejected.is_terminal());
    assert!(!KYCStatus::InReview.is_terminal());
}

#[test]
fn transition_relation_has_exactly_six_edges() {
    let edges = ALL
        .iter()
        .flat_map(|a| ALL.iter().map(move |b| (a, b)))
        .filter(|(a, b)| a.can_transition_to(b))
        .count();
    assert_eq!(edges, 6);
    for s in ALL.iter() {
        assert!(!s.can_transition_to(s));
    }
}
