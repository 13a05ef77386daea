//! The extraction and filter stage: turn per-relay batches of decoded order
//! records into a single result set.
//!
//! Events are processed in arrival order, outer loop over batches, inner loop
//! over the events of one batch.  An event that failed to decode (`None`) is
//! skipped.  A decoded order passes three gates: the status gate (which also
//! performs the cross-relay dedup check — note that dedup is deliberately
//! coupled to the presence of a status criterion, a documented quirk of the
//! discovery policy), the currency gate and the kind gate.  Accepted orders have their
//! identity recorded as seen and are appended to the result set.

use vstd::prelude::*;

use crate::order::Criteria;
use crate::order::Order;

verus! {

/// Does `o` pass all supplied gates, given the identities `seen` so far?
///
/// The dedup check (`!seen.contains(o.id)`) runs only when a status
/// criterion is supplied; see the module description for this quirk.
pub open spec fn admits(c: Criteria, seen: Seq<i64>, o: Order) -> bool {
    &&& match c.status {
        Some(st) => o.status == st && !seen.contains(o.id),
        None => true,
    }
    &&& match c.currency {
        Some(cur) => o.fiat_code@ == cur@,
        None => true,
    }
    &&& match c.kind {
        Some(k) => o.kind == k,
        None => true,
    }
}

/// One event's effect on the accumulated state: `seen` identities and the
/// result set `acc`.
pub open spec fn step(c: Criteria, seen: Seq<i64>, acc: Seq<Order>, ev: Option<Order>) -> (
    Seq<i64>,
    Seq<Order>,
) {
    match ev {
        Some(o) => if admits(c, seen, o) {
            (seen.push(o.id), acc.push(o))
        } else {
            (seen, acc)
        },
        None => (seen, acc),
    }
}

/// Fold [`step`] over the events of one batch, in order.
pub open spec fn extract_batch(
    c: Criteria,
    seen: Seq<i64>,
    acc: Seq<Order>,
    evs: Seq<Option<Order>>,
) -> (Seq<i64>, Seq<Order>)
    decreases evs.len(),
{
    if evs.len() == 0 {
        (seen, acc)
    } else {
        let p = step(c, seen, acc, evs[0]);
        extract_batch(c, p.0, p.1, evs.drop_first())
    }
}

/// Fold [`extract_batch`] over all batches, in order.
pub open spec fn extract_batches(
    c: Criteria,
    seen: Seq<i64>,
    acc: Seq<Order>,
    batches: Seq<Vec<Option<Order>>>,
) -> (Seq<i64>, Seq<Order>)
    decreases batches.len(),
{
    if batches.len() == 0 {
        (seen, acc)
    } else {
        let p = extract_batch(c, seen, acc, batches[0]@);
        extract_batches(c, p.0, p.1, batches.drop_first())
    }
}

/// The result set of one discovery run over `batches` under criteria `c`.
pub open spec fn result_set(batches: Seq<Vec<Option<Order>>>, c: Criteria) -> Seq<Order> {
    extract_batches(c, Seq::<i64>::empty(), Seq::<Order>::empty(), batches).1
}

/// No two entries of `s` share an order identity.
pub open spec fn unique_ids(s: Seq<Order>) -> bool {
    forall|p: int, q: int|
        #![trigger s[p], s[q]]
        0 <= p < q < s.len() ==> s[p].id != s[q].id
}

/// Every entry of `s` has its identity recorded in `seen`.
pub open spec fn ids_covered(s: Seq<Order>, seen: Seq<i64>) -> bool {
    forall|p: int| #![trigger s[p]] 0 <= p < s.len() ==> seen.contains(s[p].id)
}

/// The per-order part of the criteria, independent of dedup state.
pub open spec fn meets_filters(c: Criteria, o: Order) -> bool {
    &&& (c.status matches Some(st) ==> o.status == st)
    &&& (c.currency matches Some(cur) ==> o.fiat_code@ == cur@)
    &&& (c.kind matches Some(k) ==> o.kind == k)
}

/// Every entry of `s` meets the supplied filters.
pub open spec fn all_meet_filters(c: Criteria, s: Seq<Order>) -> bool {
    forall|p: int| #![trigger s[p]] 0 <= p < s.len() ==> meets_filters(c, s[p])
}

proof fn lemma_push_keeps_contains(seen: Seq<i64>, x: i64, y: i64)
    requires
        seen.contains(y),
    ensures
        seen.push(x).contains(y),
{
    let k = choose|k: int| 0 <= k < seen.len() && seen[k] == y;
    assert(seen.push(x)[k] == y);
}

proof fn lemma_step_keeps_unique(c: Criteria, seen: Seq<i64>, acc: Seq<Order>, ev: Option<Order>)
    requires
        c.status is Some,
        unique_ids(acc),
        ids_covered(acc, seen),
        all_meet_filters(c, acc),
    ensures
        unique_ids(step(c, seen, acc, ev).1),
        ids_covered(step(c, seen, acc, ev).1, step(c, seen, acc, ev).0),
        all_meet_filters(c, step(c, seen, acc, ev).1),
{
    match ev {
        Some(o) => {
            if admits(c, seen, o) {
                let seen2 = seen.push(o.id);
                let acc2 = acc.push(o);
                assert forall|p: int| 0 <= p < acc2.len() implies seen2.contains(
                    #[trigger] acc2[p].id,
                ) by {
                    if p < acc.len() {
                        lemma_push_keeps_contains(seen, o.id, acc[p].id);
                    } else {
                        assert(seen2[seen.len() as int] == o.id);
                    }
                }
                assert forall|p: int, q: int|
                    0 <= p < q < acc2.len() implies #[trigger] acc2[p].id != #[trigger] acc2[q].id
                by {
                    if q == acc.len() {
                        assert(seen.contains(acc[p].id));
                        assert(!seen.contains(o.id));
                    }
                }
            }
        },
        None => {},
    }
}

proof fn lemma_batch_keeps_unique(c: Criteria, seen: Seq<i64>, acc: Seq<Order>, evs: Seq<
    Option<Order>,
>)
    requires
        c.status is Some,
        unique_ids(acc),
        ids_covered(acc, seen),
        all_meet_filters(c, acc),
    ensures
        unique_ids(extract_batch(c, seen, acc, evs).1),
        ids_covered(extract_batch(c, seen, acc, evs).1, extract_batch(c, seen, acc, evs).0),
        all_meet_filters(c, extract_batch(c, seen, acc, evs).1),
    decreases evs.len(),
{
    if evs.len() > 0 {
        let p = step(c, seen, acc, evs[0]);
        lemma_step_keeps_unique(c, seen, acc, evs[0]);
        lemma_batch_keeps_unique(c, p.0, p.1, evs.drop_first());
    }
}

proof fn lemma_batches_keep_unique(c: Criteria, seen: Seq<i64>, acc: Seq<Order>, batches: Seq<
    Vec<Option<Order>>,
>)
    requires
        c.status is Some,
        unique_ids(acc),
        ids_covered(acc, seen),
        all_meet_filters(c, acc),
    ensures
        unique_ids(extract_batches(c, seen, acc, batches).1),
        all_meet_filters(c, extract_batches(c, seen, acc, batches).1),
    decreases batches.len(),
{
    if batches.len() > 0 {
        let p = extract_batch(c, seen, acc, batches[0]@);
        lemma_batch_keeps_unique(c, seen, acc, batches[0]@);
        lemma_batches_keep_unique(c, p.0, p.1, batches.drop_first());
    }
}

/// Uniqueness of the result set: when a status criterion is supplied, no two
/// entries of the result share an order identity, however many relays
/// delivered events for that identity.
///
/// Without a status criterion the dedup gate never runs (the documented
/// quirk of the discovery policy), so the premise cannot be dropped: two
/// batches that both carry an event for the same identity then yield two
/// entries.
pub proof fn lemma_result_ids_unique(batches: Seq<Vec<Option<Order>>>, c: Criteria)
    requires
        c.status is Some,
    ensures
        unique_ids(result_set(batches, c)),
{
    lemma_batches_keep_unique(c, Seq::<i64>::empty(), Seq::<Order>::empty(), batches);
}

proof fn lemma_batch_keeps_filters(c: Criteria, seen: Seq<i64>, acc: Seq<Order>, evs: Seq<
    Option<Order>,
>)
    requires
        all_meet_filters(c, acc),
    ensures
        all_meet_filters(c, extract_batch(c, seen, acc, evs).1),
    decreases evs.len(),
{
    if evs.len() > 0 {
        let p = step(c, seen, acc, evs[0]);
        lemma_batch_keeps_filters(c, p.0, p.1, evs.drop_first());
    }
}

proof fn lemma_batches_keep_filters(c: Criteria, seen: Seq<i64>, acc: Seq<Order>, batches: Seq<
    Vec<Option<Order>>,
>)
    requires
        all_meet_filters(c, acc),
    ensures
        all_meet_filters(c, extract_batches(c, seen, acc, batches).1),
    decreases batches.len(),
{
    if batches.len() > 0 {
        let p = extract_batch(c, seen, acc, batches[0]@);
        lemma_batch_keeps_filters(c, seen, acc, batches[0]@);
        lemma_batches_keep_filters(c, p.0, p.1, batches.drop_first());
    }
}

/// Filter conjunction: every entry of the result set meets every supplied
/// criterion, whatever order events arrived in.  An order whose status or
/// currency differs from a supplied criterion never appears.
pub proof fn lemma_result_meets_criteria(batches: Seq<Vec<Option<Order>>>, c: Criteria)
    ensures
        all_meet_filters(c, result_set(batches, c)),
{
    lemma_batches_keep_filters(c, Seq::<i64>::empty(), Seq::<Order>::empty(), batches);
}

/// Linear scan for an already-seen order identity.
fn seen_contains(seen: &Vec<i64>, id: i64) -> (r: bool)
    ensures
        r == seen@.contains(id),
{
    let mut k: usize = 0;
    while k < seen.len()
        invariant
            0 <= k <= seen@.len(),
            forall|p: int| 0 <= p < k ==> seen@[p] != id,
        decreases seen@.len() - k,
    {
        if seen[k] == id {
            return true;
        }
        k += 1;
    }
    false
}

/// Does `o` pass the supplied gates right now?  Mirrors [`admits`].
fn order_admitted(criteria: &Criteria, seen: &Vec<i64>, o: &Order) -> (r: bool)
    ensures
        r == admits(*criteria, seen@, *o),
{
    let status_ok = match &criteria.status {
        Some(st) => *st == o.status && !seen_contains(seen, o.id),
        None => true,
    };
    let currency_ok = match &criteria.currency {
        Some(cur) => *cur == o.fiat_code,
        None => true,
    };
    let kind_ok = match &criteria.kind {
        Some(k) => *k == o.kind,
        None => true,
    };
    status_ok && currency_ok && kind_ok
}

/// Extract the result set from the surviving batches of one discovery run.
///
/// `None` entries stand for events whose payload failed to decode; they are
/// skipped and never abort the pipeline.
pub fn extract_orders(batches: &Vec<Vec<Option<Order>>>, criteria: &Criteria) -> (orders: Vec<
    Order,
>)
    ensures
        orders@ == result_set(batches@, *criteria),
{
    let ghost c = *criteria;
    let ghost goal = extract_batches(c, Seq::<i64>::empty(), Seq::<Order>::empty(), batches@);
    let mut idlist: Vec<i64> = Vec::new();
    let mut orders: Vec<Order> = Vec::new();
    let mut i: usize = 0;
    proof {
        assert(batches@.skip(0) =~= batches@);
    }
    while i < batches.len()
        invariant
            0 <= i <= batches@.len(),
            extract_batches(c, idlist@, orders@, batches@.skip(i as int)) == goal,
            goal == extract_batches(c, Seq::<i64>::empty(), Seq::<Order>::empty(), batches@),
            c == *criteria,
        decreases batches@.len() - i,
    {
        let batch = &batches[i];
        proof {
            assert(batches@.skip(i as int)[0] == batches@[i as int]);
            assert(batches@.skip(i as int).drop_first() =~= batches@.skip(i as int + 1));
            assert(batch@.skip(0) =~= batch@);
        }
        let ghost rest = batches@.skip(i as int + 1);
        let mut j: usize = 0;
        while j < batch.len()
            invariant
                0 <= j <= batch@.len(),
                extract_batches(
                    c,
                    extract_batch(c, idlist@, orders@, batch@.skip(j as int)).0,
                    extract_batch(c, idlist@, orders@, batch@.skip(j as int)).1,
                    rest,
                ) == goal,
                c == *criteria,
            decreases batch@.len() - j,
        {
            proof {
                assert(batch@.skip(j as int)[0] == batch@[j as int]);
                assert(batch@.skip(j as int).drop_first() =~= batch@.skip(j as int + 1));
            }
            match &batch[j] {
                None => {},
                Some(o) => {
                    if order_admitted(criteria, &idlist, o) {
                        idlist.push(o.id);
                        orders.push(o.clone());
                    }
                },
            }
            j += 1;
        }
        proof {
            assert(batch@.skip(batch@.len() as int) =~= Seq::<Option<Order>>::empty());
        }
        i += 1;
    }
    proof {
        assert(batches@.skip(batches@.len() as int) =~= Seq::<Vec<Option<Order>>>::empty());
    }
    orders
}

} // verus!
