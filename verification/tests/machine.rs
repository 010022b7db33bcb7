use voting_machine::machine::VotingError;
use voting_machine::machine::VotingMachine;
use voting_machine::machine::VotingState;

fn two_option_machine() -> VotingMachine {
    VotingMachine::new_with_options(
        "A".to_string(),
        vec!["Yes".to_string(), "No".to_string()],
    )
}

#[test]
fn registration_scenario() {
    let mut m = two_option_machine();
    // The administrator may register through the normal path.
    assert_eq!(m.register_voter("A"), Ok(()));
    assert_eq!(m.register_voter("B"), Ok(()));
    assert_eq!(m.register_voter("B"), Err(VotingError::AlreadyRegistered));
    assert_eq!(m.get_registered_voter_count(), 2);
    assert!(m.is_registered("A"));
    assert!(m.is_registered("B"));
    assert!(!m.is_registered("C"));
}

#[test]
fn start_voting_scenario() {
    let mut m = two_option_machine();
    assert_eq!(m.start_voting("A", 100, 1000), Ok(()));
    assert_eq!(*m.get_current_state(), VotingState::VotingActive);
    assert_eq!(m.get_window(), Some((1000, 1100)));

    let mut other = two_option_machine();
    assert_eq!(
        other.start_voting("B", 100, 1000),
        Err(VotingError::Unauthorized)
    );
    assert_eq!(*other.get_current_state(), VotingState::RegistrationOpen);
}

#[test]
fn cast_vote_scenario() {
    let mut m = two_option_machine();
    assert_eq!(m.register_voter("B"), Ok(()));
    assert_eq!(m.start_voting("A", 100, 1000), Ok(()));
    assert_eq!(m.cast_vote("B", "Yes", 1050), Ok(()));
    assert_eq!(m.get_option_count("Yes"), Some(1));
    assert_eq!(m.get_option_count("No"), Some(0));
    assert!(m.has_voted("B"));
    assert_eq!(m.cast_vote("B", "No", 1050), Err(VotingError::AlreadyVoted));
    assert_eq!(m.cast_vote("C", "Yes", 1050), Err(VotingError::NotRegistered));
    assert_eq!(m.get_votes_cast_count(), 1);
}

#[test]
fn end_voting_scenario() {
    let mut m = two_option_machine();
    assert_eq!(m.register_voter("B"), Ok(()));
    assert_eq!(m.start_voting("A", 100, 1000), Ok(()));
    assert_eq!(m.end_voting("A", 1099), Err(VotingError::WindowNotExpired));
    assert_eq!(*m.get_current_state(), VotingState::VotingActive);
    assert_eq!(m.end_voting("A", 1100), Ok(()));
    assert_eq!(*m.get_current_state(), VotingState::ResultsFinalized);
}

#[test]
fn reset_scenario() {
    let mut m = two_option_machine();
    assert_eq!(m.register_voter("B"), Ok(()));
    assert_eq!(m.start_voting("A", 100, 1000), Ok(()));
    assert_eq!(m.cast_vote("B", "Yes", 1000), Ok(()));
    assert_eq!(m.end_voting("A", 1100), Ok(()));
    assert_eq!(m.reset_application("A"), Ok(()));
    assert_eq!(*m.get_current_state(), VotingState::RegistrationOpen);
    assert_eq!(m.get_registered_voter_count(), 0);
    assert_eq!(m.get_votes_cast_count(), 0);
    assert_eq!(m.get_option_count("Yes"), Some(0));
    assert_eq!(m.get_option_count("No"), Some(0));
    assert_eq!(m.get_window(), None);
    // The administrator is unchanged: a second cycle works.
    assert_eq!(m.register_voter("C"), Ok(()));
    assert_eq!(m.start_voting("A", 50, 2000), Ok(()));
    assert_eq!(m.cast_vote("C", "No", 2050), Ok(()));
    assert_eq!(m.get_option_count("No"), Some(1));
}

#[test]
fn window_upper_bound_is_inclusive() {
    let mut m = two_option_machine();
    assert_eq!(m.register_voter("B"), Ok(()));
    assert_eq!(m.register_voter("C"), Ok(()));
    assert_eq!(m.start_voting("A", 100, 1000), Ok(()));
    // Exactly at the window's end: accepted.
    assert_eq!(m.cast_vote("B", "Yes", 1100), Ok(()));
    // One unit past the end: rejected.
    assert_eq!(m.cast_vote("C", "Yes", 1101), Err(VotingError::WindowClosed));
    assert_eq!(m.get_option_count("Yes"), Some(1));
}

#[test]
fn window_lower_bound_is_inclusive() {
    let mut m = two_option_machine();
    assert_eq!(m.register_voter("B"), Ok(()));
    assert_eq!(m.register_voter("C"), Ok(()));
    assert_eq!(m.start_voting("A", 100, 1000), Ok(()));
    assert_eq!(m.cast_vote("C", "No", 999), Err(VotingError::WindowClosed));
    assert_eq!(m.cast_vote("B", "Yes", 1000), Ok(()));
}

#[test]
fn admin_only_operations_reject_others() {
    let mut m = two_option_machine();
    assert_eq!(m.register_voter("B"), Ok(()));
    assert_eq!(m.start_registration("B"), Err(VotingError::Unauthorized));
    assert_eq!(m.start_voting("B", 100, 1000), Err(VotingError::Unauthorized));
    assert_eq!(m.end_voting("B", 1000), Err(VotingError::Unauthorized));
    assert_eq!(m.reset_application("B"), Err(VotingError::Unauthorized));
    // Nothing moved or was cleared.
    assert_eq!(*m.get_current_state(), VotingState::RegistrationOpen);
    assert_eq!(m.get_registered_voter_count(), 1);
    assert_eq!(m.get_admin_id(), "A");
}

#[test]
fn rejected_operations_change_nothing() {
    let mut m = two_option_machine();
    assert_eq!(m.register_voter("B"), Ok(()));
    assert_eq!(m.start_voting("A", 100, 1000), Ok(()));
    assert_eq!(m.cast_vote("B", "Yes", 1050), Ok(()));

    // A run of rejected operations of every flavour.
    assert_eq!(m.register_voter("C"), Err(VotingError::InvalidPhase));
    assert_eq!(m.cast_vote("B", "Yes", 1050), Err(VotingError::AlreadyVoted));
    assert_eq!(m.cast_vote("C", "Yes", 1050), Err(VotingError::NotRegistered));
    assert_eq!(m.cast_vote("B", "Maybe", 1050), Err(VotingError::AlreadyVoted));
    assert_eq!(m.end_voting("A", 1050), Err(VotingError::WindowNotExpired));
    assert_eq!(m.start_voting("A", 10, 1050), Err(VotingError::InvalidPhase));

    assert_eq!(*m.get_current_state(), VotingState::VotingActive);
    assert_eq!(m.get_registered_voter_count(), 1);
    assert_eq!(m.get_votes_cast_count(), 1);
    assert_eq!(m.get_option_count("Yes"), Some(1));
    assert_eq!(m.get_option_count("No"), Some(0));
    assert_eq!(m.get_window(), Some((1000, 1100)));
}

#[test]
fn tally_total_equals_votes_cast() {
    let mut m = two_option_machine();
    for voter in ["B", "C", "D", "E"] {
        assert_eq!(m.register_voter(voter), Ok(()));
    }
    assert_eq!(m.start_voting("A", 100, 1000), Ok(()));
    assert_eq!(m.cast_vote("B", "Yes", 1000), Ok(()));
    assert_eq!(m.cast_vote("C", "No", 1010), Ok(()));
    assert_eq!(m.cast_vote("D", "Yes", 1020), Ok(()));
    let total = m.get_option_count("Yes").unwrap() + m.get_option_count("No").unwrap();
    assert_eq!(total as usize, m.get_votes_cast_count());
    assert_eq!(m.get_votes_cast_count(), 3);
}

#[test]
fn invalid_vote_option_is_rejected() {
    let mut m = two_option_machine();
    assert_eq!(m.register_voter("B"), Ok(()));
    assert_eq!(m.start_voting("A", 100, 1000), Ok(()));
    assert_eq!(
        m.cast_vote("B", "Maybe", 1050),
        Err(VotingError::InvalidOption)
    );
    assert!(!m.has_voted("B"));
    assert_eq!(m.get_option_count("Maybe"), None);
}

#[test]
fn voting_not_active_outside_voting_phase() {
    let mut m = two_option_machine();
    assert_eq!(m.register_voter("B"), Ok(()));
    assert_eq!(
        m.cast_vote("B", "Yes", 1000),
        Err(VotingError::VotingNotActive)
    );
}

#[test]
fn zero_duration_is_rejected() {
    let mut m = two_option_machine();
    assert_eq!(m.start_voting("A", 0, 1000), Err(VotingError::InvalidDuration));
    assert_eq!(*m.get_current_state(), VotingState::RegistrationOpen);
    assert_eq!(m.get_window(), None);
}

#[test]
fn end_voting_needs_voting_phase() {
    let mut m = two_option_machine();
    assert_eq!(m.end_voting("A", 1000), Err(VotingError::InvalidPhase));
}

#[test]
fn results_are_gated_on_finalization() {
    let mut m = two_option_machine();
    assert_eq!(m.register_voter("B"), Ok(()));
    assert!(m.get_results().is_none());
    assert_eq!(m.start_voting("A", 100, 1000), Ok(()));
    assert_eq!(m.cast_vote("B", "Yes", 1000), Ok(()));
    assert!(m.get_results().is_none());
    assert_eq!(m.end_voting("A", 1100), Ok(()));
    let results = m.get_results().expect("finalized results");
    assert_eq!(
        results,
        &vec![("Yes".to_string(), 1), ("No".to_string(), 0)]
    );
}

#[test]
fn default_options_machine() {
    let mut m = VotingMachine::new("admin123".to_string());
    assert_eq!(m.get_admin_id(), "admin123");
    assert_eq!(m.get_option_count("option_A"), Some(0));
    assert_eq!(m.get_option_count("option_B"), Some(0));
    assert_eq!(m.get_option_count("option_C"), Some(0));
    assert_eq!(m.get_option_count("option_D"), None);
    assert_eq!(m.register_voter("voter1"), Ok(()));
    assert_eq!(m.start_voting("admin123", 3600, 1000), Ok(()));
    assert_eq!(m.cast_vote("voter1", "option_A", 2000), Ok(()));
    assert_eq!(m.get_option_count("option_A"), Some(1));
}

#[test]
fn start_registration_reopens_and_clears() {
    let mut m = two_option_machine();
    assert_eq!(m.register_voter("B"), Ok(()));
    assert_eq!(m.start_voting("A", 100, 1000), Ok(()));
    assert_eq!(m.cast_vote("B", "Yes", 1000), Ok(()));
    assert_eq!(m.start_registration("A"), Ok(()));
    assert_eq!(*m.get_current_state(), VotingState::RegistrationOpen);
    assert_eq!(m.get_registered_voter_count(), 0);
    assert_eq!(m.get_votes_cast_count(), 0);
    assert_eq!(m.get_option_count("Yes"), Some(0));
    assert_eq!(m.get_window(), None);
    // Calling it again from open registration is allowed and re-clears.
    assert_eq!(m.start_registration("A"), Ok(()));
    assert_eq!(*m.get_current_state(), VotingState::RegistrationOpen);
}
