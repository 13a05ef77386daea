use mostro_cli::session::collect_session;
use mostro_cli::session::order_filter;
use mostro_cli::session::open_fresh_session;
use mostro_cli::session::RelayNotification;
use mostro_cli::session::RelaySession;
use mostro_cli::session::SessionOutcome;

fn ev(sub_id: u128, payload: &str) -> RelayNotification {
    RelayNotification::EventDelivered { sub_id, payload: payload.to_string() }
}

#[test]
fn collect_stops_at_own_end_marker() {
    let notes = vec![
        ev(7, "a"),
        RelayNotification::Other,
        ev(9, "x"),
        ev(7, "b"),
        RelayNotification::EndOfStored { sub_id: 9 },
        ev(7, "c"),
        RelayNotification::EndOfStored { sub_id: 7 },
        ev(7, "d"),
    ];
    let (outcome, close) = collect_session(7, notes, false);
    assert_eq!(close.sub_id, 7);
    match outcome {
        SessionOutcome::Collected(evs) => {
            assert_eq!(
                evs,
                vec!["a".to_string(), "b".to_string(), "c".to_string()]
            );
        }
        _ => panic!("expected a collected batch"),
    }
}

#[test]
fn timeout_discards_partial_batch_but_still_closes() {
    let notes = vec![ev(3, "partial")];
    let (outcome, close) = collect_session(3, notes, true);
    assert_eq!(close.sub_id, 3);
    assert!(matches!(outcome, SessionOutcome::TimedOut));
}

#[test]
fn stream_end_without_marker_keeps_events() {
    let notes = vec![ev(5, "only")];
    let (outcome, close) = collect_session(5, notes, false);
    assert_eq!(close.sub_id, 5);
    match outcome {
        SessionOutcome::Collected(evs) => assert_eq!(evs, vec!["only".to_string()]),
        _ => panic!("expected a collected batch"),
    }
}

#[test]
fn session_lifecycle_by_hand() {
    let mut s = RelaySession::open(11);
    assert!(!s.finished);
    assert!(!s.closed);
    let stop = s.absorb(ev(11, "p"));
    assert!(!stop);
    let stop = s.absorb(RelayNotification::EndOfStored { sub_id: 11 });
    assert!(stop);
    let req = s.close();
    assert_eq!(req.sub_id, 11);
    assert!(s.closed);
    match s.into_outcome(false) {
        SessionOutcome::Collected(evs) => assert_eq!(evs, vec!["p".to_string()]),
        _ => panic!("expected a collected batch"),
    }
}

#[test]
fn subscription_request_carries_id_and_filter() {
    let s = RelaySession::open(77);
    let f = order_filter("a1b2c3".to_string());
    assert_eq!(f.publisher, "a1b2c3");
    assert_eq!(f.category, 30000);
    let req = s.subscribe_request(f);
    assert_eq!(req.sub_id, 77);
    assert_eq!(req.filter.publisher, "a1b2c3");
    assert_eq!(req.filter.category, 30000);
}

#[test]
fn fresh_sessions_draw_independent_ids() {
    let a = open_fresh_session();
    let b = open_fresh_session();
    assert!(!a.closed && !b.closed);
    // Random 128-bit ids; a collision here is negligible.
    assert_ne!(a.sub_id, b.sub_id);
}
