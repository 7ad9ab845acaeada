use coordinator_monitor::events::{CeremonyEvent, PatternCaptureError, ShutdownReason};
use coordinator_monitor::identity::{AleoPublicKey, ParticipantIdentity, ParticipantRole};
use coordinator_monitor::machine::{
    observe, read_contribution, read_dropped, transition, CoordinatorPhase,
    CoordinatorStateReporter, LineObservation,
};
use coordinator_monitor::patterns::{
    ContributionCapture, DroppedCapture, LinePatterns, RoundCapture,
};

const ADDRESS: &str = "aleo1hsr8czcmxxanpv6cvwct75wep5ldhd2s702zm8la47dwcxjveypqsv7689";

fn machine_in(phase: CoordinatorPhase) -> CoordinatorStateReporter {
    CoordinatorStateReporter::in_phase(phase).expect("the pattern table compiles")
}

fn identity(role: ParticipantRole) -> ParticipantIdentity {
    ParticipantIdentity { address: AleoPublicKey::from_str(ADDRESS).unwrap(), role }
}

fn dropped_line(role: &str) -> String {
    format!("INFO Dropping {}.{} from the ceremony", ADDRESS, role)
}

#[test]
fn fresh_machine_is_in_process_started() {
    let machine = CoordinatorStateReporter::process_started().unwrap();
    assert_eq!(machine.current_state(), CoordinatorPhase::ProcessStarted);
}

#[test]
fn boot_completion_opens_round_one() {
    let mut machine = CoordinatorStateReporter::process_started().unwrap();
    let events = machine.parse_output_line("2021-03-01 INFO Coordinator has booted up").unwrap();
    assert_eq!(events, vec![CeremonyEvent::RoundWaitingForParticipants(1)]);
    assert_eq!(machine.current_state(), CoordinatorPhase::WaitingForParticipants(1));
}

#[test]
fn process_started_ignores_other_lines() {
    let mut machine = CoordinatorStateReporter::process_started().unwrap();
    for line in ["", "Advanced ceremony to round 1", "Round 1 is finished", "coordinator has booted up"] {
        let events = machine.parse_output_line(line).unwrap();
        assert_eq!(events, vec![]);
        assert_eq!(machine.current_state(), CoordinatorPhase::ProcessStarted);
    }
}

#[test]
fn finished_round_advances_on_any_line() {
    for line in ["", "anything at all", "Round 5 is finished", "Coordinator has booted up"] {
        let mut machine = machine_in(CoordinatorPhase::RoundFinished(5));
        let events = machine.parse_output_line(line).unwrap();
        assert_eq!(events, vec![CeremonyEvent::RoundWaitingForParticipants(6)]);
        assert_eq!(machine.current_state(), CoordinatorPhase::WaitingForParticipants(6));
    }
}

#[test]
fn finished_round_ignores_a_line_that_would_fail_elsewhere() {
    let mut machine = machine_in(CoordinatorPhase::RoundFinished(7));
    let line = format!("{}.contributor added a contribution to chunk 99999999999999999999", ADDRESS);
    let events = machine.parse_output_line(&line).unwrap();
    assert_eq!(events, vec![CeremonyEvent::RoundWaitingForParticipants(8)]);
}

#[test]
fn dropped_contributor_in_running_round() {
    let mut machine = machine_in(CoordinatorPhase::RoundRunning(3));
    let events = machine.parse_output_line(&dropped_line("contributor")).unwrap();
    assert_eq!(
        events,
        vec![CeremonyEvent::ParticipantDropped(identity(ParticipantRole::Contributor))]
    );
    assert_eq!(machine.current_state(), CoordinatorPhase::RoundRunning(3));
}

#[test]
fn dropped_verifier_while_waiting_for_participants() {
    let mut machine = machine_in(CoordinatorPhase::WaitingForParticipants(2));
    let events = machine.parse_output_line(&dropped_line("verifier")).unwrap();
    assert_eq!(
        events,
        vec![CeremonyEvent::ParticipantDropped(identity(ParticipantRole::Verifier))]
    );
    assert_eq!(machine.current_state(), CoordinatorPhase::WaitingForParticipants(2));
}

#[test]
fn dropped_participant_is_not_looked_for_in_other_phases() {
    for phase in [
        CoordinatorPhase::ProcessStarted,
        CoordinatorPhase::RoundAggregating(4),
        CoordinatorPhase::WaitingForFinish(4),
    ] {
        let mut machine = machine_in(phase);
        let events = machine.parse_output_line(&dropped_line("contributor")).unwrap();
        assert_eq!(events, vec![]);
        assert_eq!(machine.current_state(), phase);
    }
}

#[test]
fn no_contributors_remaining_finishes_the_test() {
    let mut machine = machine_in(CoordinatorPhase::RoundRunning(2));
    let events = machine
        .parse_output_line(
            "WARN No contributors remaining to reset and complete the current round. Rolling back to round 0 to wait and accept new participants",
        )
        .unwrap();
    assert_eq!(events, vec![CeremonyEvent::ShutdownRequested(ShutdownReason::TestFinished)]);
    assert_eq!(machine.current_state(), CoordinatorPhase::RoundFinished(2));
    let events = machine.parse_output_line("whatever comes next").unwrap();
    assert_eq!(events, vec![CeremonyEvent::RoundWaitingForParticipants(3)]);
    assert_eq!(machine.current_state(), CoordinatorPhase::WaitingForParticipants(3));
}

#[test]
fn unknown_role_token_halts_without_an_event() {
    let mut seen = LineObservation::nothing();
    seen.participant_dropped = Some(DroppedCapture {
        address: Some(ADDRESS.to_string()),
        participant_type: Some("observer".to_string()),
    });
    for phase in [CoordinatorPhase::RoundRunning(3), CoordinatorPhase::WaitingForParticipants(3)] {
        let out = transition(phase, &seen);
        assert_eq!(out.failure, Some(PatternCaptureError::UnknownRoleError));
        assert_eq!(out.events, vec![]);
        assert_eq!(out.next, phase);
    }
}

#[test]
fn unknown_role_token_stops_the_rest_of_the_line() {
    let mut seen = LineObservation::nothing();
    seen.participant_dropped = Some(DroppedCapture {
        address: Some(ADDRESS.to_string()),
        participant_type: Some("Contributor".to_string()),
    });
    seen.round_started_aggregation = Some(RoundCapture { round: Some("3".to_string()) });
    seen.round_restarted_no_contributors = true;
    let out = transition(CoordinatorPhase::RoundRunning(3), &seen);
    assert_eq!(out.failure, Some(PatternCaptureError::UnknownRoleError));
    assert_eq!(out.events, vec![]);
    assert_eq!(out.next, CoordinatorPhase::RoundRunning(3));
}

#[test]
fn a_line_with_another_role_token_does_not_match_the_pattern() {
    let mut machine = machine_in(CoordinatorPhase::RoundRunning(3));
    let events = machine.parse_output_line(&dropped_line("observer")).unwrap();
    assert_eq!(events, vec![]);
    assert_eq!(machine.current_state(), CoordinatorPhase::RoundRunning(3));
}

#[test]
fn round_lifecycle_follows_the_table() {
    let mut machine = CoordinatorStateReporter::process_started().unwrap();
    let steps: Vec<(String, Vec<CeremonyEvent>, CoordinatorPhase)> = vec![
        (
            "Coordinator has booted up".to_string(),
            vec![CeremonyEvent::RoundWaitingForParticipants(1)],
            CoordinatorPhase::WaitingForParticipants(1),
        ),
        (
            "Advanced ceremony to round 1".to_string(),
            vec![CeremonyEvent::RoundStarted(1)],
            CoordinatorPhase::RoundRunning(1),
        ),
        (
            format!("{}.contributor added a contribution to chunk 7", ADDRESS),
            vec![CeremonyEvent::SuccessfulContribution {
                contributor: identity(ParticipantRole::Contributor),
                chunk: 7,
            }],
            CoordinatorPhase::RoundRunning(1),
        ),
        (
            "Starting aggregation on round 1".to_string(),
            vec![CeremonyEvent::RoundStartedAggregation(1)],
            CoordinatorPhase::RoundAggregating(1),
        ),
        (
            "Round 1 is aggregated".to_string(),
            vec![CeremonyEvent::RoundAggregated(1)],
            CoordinatorPhase::WaitingForFinish(1),
        ),
        (
            "Round 1 is finished".to_string(),
            vec![CeremonyEvent::RoundFinished(1)],
            CoordinatorPhase::RoundFinished(1),
        ),
        (
            "".to_string(),
            vec![CeremonyEvent::RoundWaitingForParticipants(2)],
            CoordinatorPhase::WaitingForParticipants(2),
        ),
    ];
    for (line, events, phase) in steps {
        assert_eq!(machine.parse_output_line(&line).unwrap(), events);
        assert_eq!(machine.current_state(), phase);
    }
}

#[test]
fn the_round_of_an_event_comes_from_the_phase() {
    let mut machine = machine_in(CoordinatorPhase::WaitingForParticipants(4));
    let events = machine.parse_output_line("Advanced ceremony to round 9").unwrap();
    assert_eq!(events, vec![CeremonyEvent::RoundStarted(4)]);
    assert_eq!(machine.current_state(), CoordinatorPhase::RoundRunning(4));
}

#[test]
fn phrases_of_other_phases_are_not_tested() {
    let contribution = format!("{}.contributor added a contribution to chunk 7", ADDRESS);
    let cases: Vec<(CoordinatorPhase, &str)> = vec![
        (CoordinatorPhase::WaitingForParticipants(1), contribution.as_str()),
        (CoordinatorPhase::WaitingForParticipants(1), "Starting aggregation on round 1"),
        (CoordinatorPhase::RoundRunning(1), "Advanced ceremony to round 1"),
        (CoordinatorPhase::RoundRunning(1), "Round 1 is aggregated"),
        (CoordinatorPhase::RoundAggregating(1), "Round 1 is finished"),
        (CoordinatorPhase::RoundAggregating(1), contribution.as_str()),
        (CoordinatorPhase::WaitingForFinish(1), "Round 1 is aggregated"),
        (CoordinatorPhase::WaitingForFinish(1), "Coordinator has booted up"),
    ];
    for (phase, line) in cases {
        let mut machine = machine_in(phase);
        assert_eq!(machine.parse_output_line(line).unwrap(), vec![]);
        assert_eq!(machine.current_state(), phase);
    }
}

#[test]
fn one_line_can_match_several_patterns() {
    let mut machine = machine_in(CoordinatorPhase::RoundRunning(2));
    let line = format!(
        "Dropping {}.verifier from the ceremony; {}.contributor added a contribution to chunk 12",
        ADDRESS, ADDRESS
    );
    let events = machine.parse_output_line(&line).unwrap();
    assert_eq!(
        events,
        vec![
            CeremonyEvent::ParticipantDropped(identity(ParticipantRole::Verifier)),
            CeremonyEvent::SuccessfulContribution {
                contributor: identity(ParticipantRole::Contributor),
                chunk: 12,
            },
        ]
    );
    assert_eq!(machine.current_state(), CoordinatorPhase::RoundRunning(2));
}

#[test]
fn dropped_participant_and_round_start_in_one_line() {
    let mut machine = machine_in(CoordinatorPhase::WaitingForParticipants(2));
    let line = format!("Dropping {}.contributor from the ceremony. Advanced ceremony to round 2", ADDRESS);
    let events = machine.parse_output_line(&line).unwrap();
    assert_eq!(
        events,
        vec![
            CeremonyEvent::ParticipantDropped(identity(ParticipantRole::Contributor)),
            CeremonyEvent::RoundStarted(2),
        ]
    );
    assert_eq!(machine.current_state(), CoordinatorPhase::RoundRunning(2));
}

#[test]
fn all_four_checks_of_a_running_round_in_order() {
    let mut seen = LineObservation::nothing();
    seen.participant_dropped = Some(DroppedCapture {
        address: Some(ADDRESS.to_string()),
        participant_type: Some("contributor".to_string()),
    });
    seen.round_started_aggregation = Some(RoundCapture { round: Some("6".to_string()) });
    seen.round_restarted_no_contributors = true;
    seen.successful_contribution = Some(ContributionCapture {
        address: Some(ADDRESS.to_string()),
        chunk: Some("0".to_string()),
    });
    let out = transition(CoordinatorPhase::RoundRunning(6), &seen);
    assert_eq!(out.failure, None);
    assert_eq!(out.next, CoordinatorPhase::RoundFinished(6));
    assert_eq!(
        out.events,
        vec![
            CeremonyEvent::ParticipantDropped(identity(ParticipantRole::Contributor)),
            CeremonyEvent::RoundStartedAggregation(6),
            CeremonyEvent::ShutdownRequested(ShutdownReason::TestFinished),
            CeremonyEvent::SuccessfulContribution {
                contributor: identity(ParticipantRole::Contributor),
                chunk: 0,
            },
        ]
    );
}

#[test]
fn chunk_too_large_for_64_bits_fails() {
    let mut machine = machine_in(CoordinatorPhase::RoundRunning(1));
    let line = format!("{}.contributor added a contribution to chunk 18446744073709551616", ADDRESS);
    let failure = machine.parse_output_line(&line).unwrap_err();
    assert_eq!(failure.error, PatternCaptureError::NumberParseError);
    assert_eq!(failure.emitted, vec![]);
    assert_eq!(machine.current_state(), CoordinatorPhase::RoundRunning(1));
}

#[test]
fn largest_chunk_of_64_bits_is_read() {
    let mut machine = machine_in(CoordinatorPhase::RoundRunning(1));
    let line = format!("{}.contributor added a contribution to chunk 18446744073709551615", ADDRESS);
    let events = machine.parse_output_line(&line).unwrap();
    assert_eq!(
        events,
        vec![CeremonyEvent::SuccessfulContribution {
            contributor: identity(ParticipantRole::Contributor),
            chunk: u64::MAX,
        }]
    );
}

#[test]
fn round_too_large_for_64_bits_fails() {
    let mut machine = machine_in(CoordinatorPhase::WaitingForParticipants(1));
    let failure =
        machine.parse_output_line("Advanced ceremony to round 99999999999999999999").unwrap_err();
    assert_eq!(failure.error, PatternCaptureError::NumberParseError);
    assert_eq!(failure.emitted, vec![]);
    assert_eq!(machine.current_state(), CoordinatorPhase::WaitingForParticipants(1));
}

#[test]
fn events_before_a_failure_are_kept_with_it() {
    let mut machine = machine_in(CoordinatorPhase::RoundRunning(5));
    let line = format!(
        "Starting aggregation on round 5 after {}.contributor added a contribution to chunk 99999999999999999999",
        ADDRESS
    );
    let failure = machine.parse_output_line(&line).unwrap_err();
    assert_eq!(failure.error, PatternCaptureError::NumberParseError);
    assert_eq!(failure.emitted, vec![CeremonyEvent::RoundStartedAggregation(5)]);
    assert_eq!(machine.current_state(), CoordinatorPhase::RoundAggregating(5));
}

#[test]
fn malformed_address_fails_before_the_role_is_read() {
    let capture = DroppedCapture {
        address: Some("aleo".to_string()),
        participant_type: Some("observer".to_string()),
    };
    assert_eq!(read_dropped(&capture), Err(PatternCaptureError::AddressParseError));
    let capture = DroppedCapture { address: None, participant_type: Some("verifier".to_string()) };
    assert_eq!(read_dropped(&capture), Err(PatternCaptureError::AddressParseError));
    let capture = DroppedCapture { address: Some(ADDRESS.to_string()), participant_type: None };
    assert_eq!(read_dropped(&capture), Err(PatternCaptureError::UnknownRoleError));
    let capture = DroppedCapture {
        address: Some(ADDRESS.to_string()),
        participant_type: Some("verifier".to_string()),
    };
    assert_eq!(read_dropped(&capture), Ok(identity(ParticipantRole::Verifier)));
}

#[test]
fn chunk_is_read_before_the_address() {
    let capture = ContributionCapture {
        address: Some("ALEO1".to_string()),
        chunk: Some("x".to_string()),
    };
    assert_eq!(read_contribution(&capture), Err(PatternCaptureError::NumberParseError));
    let capture = ContributionCapture { address: Some("ALEO1".to_string()), chunk: Some("4".to_string()) };
    assert_eq!(read_contribution(&capture), Err(PatternCaptureError::AddressParseError));
    let capture = ContributionCapture { address: Some(ADDRESS.to_string()), chunk: None };
    assert_eq!(read_contribution(&capture), Err(PatternCaptureError::NumberParseError));
    let capture = ContributionCapture { address: Some(ADDRESS.to_string()), chunk: Some("+4".to_string()) };
    assert_eq!(read_contribution(&capture), Ok((identity(ParticipantRole::Contributor), 4)));
}

#[test]
fn malformed_address_in_a_contribution_keeps_earlier_events() {
    let mut seen = LineObservation::nothing();
    seen.round_restarted_no_contributors = true;
    seen.successful_contribution = Some(ContributionCapture {
        address: Some("aleo-1".to_string()),
        chunk: Some("1".to_string()),
    });
    let out = transition(CoordinatorPhase::RoundRunning(9), &seen);
    assert_eq!(out.failure, Some(PatternCaptureError::AddressParseError));
    assert_eq!(out.events, vec![CeremonyEvent::ShutdownRequested(ShutdownReason::TestFinished)]);
    assert_eq!(out.next, CoordinatorPhase::RoundFinished(9));
}

#[test]
fn observation_holds_only_the_patterns_of_the_phase() {
    let patterns = LinePatterns::new().unwrap();
    let line = format!(
        "Coordinator has booted up; Round 1 is aggregated; Round 1 is finished; Dropping {}.verifier from the ceremony",
        ADDRESS
    );
    let seen = observe(&patterns, CoordinatorPhase::RoundAggregating(1), &line);
    let mut expected = LineObservation::nothing();
    expected.round_aggregated = Some(RoundCapture { round: Some("1".to_string()) });
    assert_eq!(seen, expected);
    let seen = observe(&patterns, CoordinatorPhase::RoundFinished(1), &line);
    assert_eq!(seen, LineObservation::nothing());
    let seen = observe(&patterns, CoordinatorPhase::ProcessStarted, &line);
    let mut expected = LineObservation::nothing();
    expected.boot_completion = true;
    assert_eq!(seen, expected);
}

#[test]
fn same_lines_give_the_same_phases_and_events() {
    let lines = [
        "Coordinator has booted up",
        "noise",
        "Advanced ceremony to round 1",
        "Starting aggregation on round 1",
        "Round 1 is aggregated",
        "Round 1 is finished",
        "",
    ];
    let mut first = CoordinatorStateReporter::process_started().unwrap();
    let mut second = CoordinatorStateReporter::process_started().unwrap();
    for line in lines {
        assert_eq!(first.parse_output_line(line), second.parse_output_line(line));
        assert_eq!(first.current_state(), second.current_state());
    }
    assert_eq!(first.current_state(), CoordinatorPhase::WaitingForParticipants(2));
}

#[test]
fn can_advance_fails_only_at_the_last_round() {
    assert!(CoordinatorPhase::ProcessStarted.can_advance());
    assert!(CoordinatorPhase::RoundFinished(u64::MAX - 1).can_advance());
    assert!(!CoordinatorPhase::RoundFinished(u64::MAX).can_advance());
    assert!(CoordinatorPhase::RoundRunning(u64::MAX).can_advance());
    let mut machine = machine_in(CoordinatorPhase::RoundFinished(u64::MAX - 1));
    let events = machine.parse_output_line("").unwrap();
    assert_eq!(events, vec![CeremonyEvent::RoundWaitingForParticipants(u64::MAX)]);
}

#[test]
fn event_round_is_the_round_it_names() {
    assert_eq!(CeremonyEvent::RoundStarted(3).round(), Some(3));
    assert_eq!(CeremonyEvent::RoundFinished(8).round(), Some(8));
    assert_eq!(CeremonyEvent::ShutdownRequested(ShutdownReason::TestFinished).round(), None);
    assert_eq!(
        CeremonyEvent::ParticipantDropped(identity(ParticipantRole::Verifier)).round(),
        None
    );
}
