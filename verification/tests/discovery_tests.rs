use mostro_cli::discovery::assemble_batches;
use mostro_cli::session::SessionOutcome;

#[test]
fn all_timeouts_yield_empty_batch_sequence() {
    let outcomes = vec![
        SessionOutcome::TimedOut,
        SessionOutcome::TimedOut,
        SessionOutcome::TimedOut,
    ];
    let batches = assemble_batches(outcomes);
    assert!(batches.is_empty());
}

#[test]
fn failures_and_empty_batches_are_absorbed() {
    let outcomes = vec![
        SessionOutcome::Collected(vec!["a1".to_string(), "a2".to_string()]),
        SessionOutcome::TimedOut,
        SessionOutcome::Collected(vec![]),
        SessionOutcome::TransportFailed,
        SessionOutcome::Collected(vec!["b1".to_string()]),
    ];
    let batches = assemble_batches(outcomes);
    assert_eq!(
        batches,
        vec![
            vec!["a1".to_string(), "a2".to_string()],
            vec!["b1".to_string()],
        ]
    );
}

#[test]
fn no_outcomes_yield_empty_batch_sequence() {
    let batches = assemble_batches(vec![]);
    assert!(batches.is_empty());
}
