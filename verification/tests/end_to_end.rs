use mostro_cli::discovery::assemble_batches;
use mostro_cli::order::Criteria;
use mostro_cli::order::Order;
use mostro_cli::order::OrderKind;
use mostro_cli::order::Status;
use mostro_cli::pipeline::extract_orders;
use mostro_cli::session::collect_session;
use mostro_cli::session::RelayNotification;

fn ev(sub_id: u128, payload: &str) -> RelayNotification {
    RelayNotification::EventDelivered { sub_id, payload: payload.to_string() }
}

// The test stands in for the decode stage: each demo payload names an order
// identity and its status.
fn decode_demo(payload: &str) -> Option<Order> {
    let (id, status) = match payload {
        "order-1-active" => (1, Status::Active),
        "order-2-pending" => (2, Status::Pending),
        "order-3-active" => (3, Status::Active),
        _ => return None,
    };
    Some(Order {
        id,
        kind: OrderKind::Sell,
        status,
        amount: 1000,
        fiat_code: "USD".to_string(),
        fiat_amount: 50,
        payment_method: "bank transfer".to_string(),
        created_at: 1_700_000_000,
    })
}

#[test]
fn two_relays_overlapping_orders_status_criterion() {
    // Endpoint A delivers orders {1 Active, 2 Pending}; endpoint B delivers
    // {2 Pending, 3 Active}; criteria = {status: Active}.  The result set is
    // {1, 3}: identity 2 is excluded by status, and appears only once in the
    // event stream's consideration even though two relays delivered it.
    let notes_a = vec![
        ev(21, "order-1-active"),
        ev(21, "order-2-pending"),
        RelayNotification::EndOfStored { sub_id: 21 },
    ];
    let notes_b = vec![
        ev(22, "order-2-pending"),
        ev(22, "order-3-active"),
        RelayNotification::EndOfStored { sub_id: 22 },
    ];

    let (outcome_a, close_a) = collect_session(21, notes_a, false);
    let (outcome_b, close_b) = collect_session(22, notes_b, false);
    assert_eq!(close_a.sub_id, 21);
    assert_eq!(close_b.sub_id, 22);

    let batches = assemble_batches(vec![outcome_a, outcome_b]);
    assert_eq!(batches.len(), 2);

    let decoded: Vec<Vec<Option<Order>>> = batches
        .iter()
        .map(|batch| batch.iter().map(|p| decode_demo(p)).collect())
        .collect();

    let criteria =
        Criteria { status: Some(Status::Active), currency: None, kind: None };
    let result = extract_orders(&decoded, &criteria);

    let ids: Vec<i64> = result.iter().map(|o| o.id).collect();
    assert_eq!(ids, vec![1, 3]);
}

#[test]
fn duplicate_active_order_across_relays_kept_once() {
    // The same Active order from two relays, with a status criterion: the
    // dedup gate keeps the first and drops the second.
    let notes_a = vec![
        ev(31, "order-1-active"),
        RelayNotification::EndOfStored { sub_id: 31 },
    ];
    let notes_b = vec![
        ev(32, "order-1-active"),
        RelayNotification::EndOfStored { sub_id: 32 },
    ];
    let (outcome_a, _) = collect_session(31, notes_a, false);
    let (outcome_b, _) = collect_session(32, notes_b, false);
    let batches = assemble_batches(vec![outcome_a, outcome_b]);
    let decoded: Vec<Vec<Option<Order>>> = batches
        .iter()
        .map(|batch| batch.iter().map(|p| decode_demo(p)).collect())
        .collect();
    let criteria =
        Criteria { status: Some(Status::Active), currency: None, kind: None };
    let result = extract_orders(&decoded, &criteria);
    let ids: Vec<i64> = result.iter().map(|o| o.id).collect();
    assert_eq!(ids, vec![1]);
}
