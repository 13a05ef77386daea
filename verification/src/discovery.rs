//! The discovery coordinator's fan-in: assemble the surviving batches out of
//! the per-endpoint session outcomes.
//!
//! Each known endpoint is queried by its own relay session under a fixed
//! per-endpoint deadline; the querying itself is I/O and lives outside this
//! crate.  Whatever each session ended in — a batch, a timeout, a transport
//! failure — is absorbed here: a non-empty batch is recorded, an empty batch
//! and every failure are dropped, and no outcome ever fails the run as a
//! whole.

use vstd::prelude::*;

use crate::session::SessionOutcome;

verus! {

/// The batches a discovery run keeps, in fan-in order: the non-empty
/// successful batches, each failure and each empty batch absorbed.
pub open spec fn assemble_spec(outcomes: Seq<SessionOutcome>) -> Seq<Vec<String>>
    decreases outcomes.len(),
{
    if outcomes.len() == 0 {
        Seq::empty()
    } else {
        let rest = assemble_spec(outcomes.drop_first());
        match outcomes[0] {
            SessionOutcome::Collected(b) => if b@.len() > 0 {
                seq![b] + rest
            } else {
                rest
            },
            SessionOutcome::TimedOut => rest,
            SessionOutcome::TransportFailed => rest,
        }
    }
}

/// Assemble the surviving batches of one discovery run.  Individual endpoint
/// failures never escalate: whatever the outcomes were, this returns the
/// batch sequence — possibly empty — and never an error.
pub fn assemble_batches(outcomes: Vec<SessionOutcome>) -> (batches: Vec<Vec<String>>)
    ensures
        batches@ == assemble_spec(outcomes@),
{
    let ghost all = outcomes@;
    let mut batches: Vec<Vec<String>> = Vec::new();
    let mut rem = outcomes;
    while rem.len() > 0
        invariant
            assemble_spec(all) == batches@ + assemble_spec(rem@),
        decreases rem@.len(),
    {
        let ghost before = rem@;
        let oc = rem.remove(0);
        proof {
            assert(rem@ =~= before.drop_first());
        }
        match oc {
            SessionOutcome::Collected(b) => {
                if b.len() > 0 {
                    proof {
                        assert(batches@ + (seq![b] + assemble_spec(rem@)) =~= batches@.push(b)
                            + assemble_spec(rem@));
                    }
                    batches.push(b);
                }
            },
            SessionOutcome::TimedOut => {},
            SessionOutcome::TransportFailed => {},
        }
    }
    proof {
        assert(assemble_spec(rem@) =~= Seq::<Vec<String>>::empty());
        assert(batches@ + Seq::<Vec<String>>::empty() =~= batches@);
    }
    batches
}

/// Timeout tolerance: if every endpoint timed out, the run yields an empty
/// batch sequence — not an error.
pub proof fn lemma_all_timed_out_empty(outcomes: Seq<SessionOutcome>)
    requires
        forall|i: int| 0 <= i < outcomes.len() ==> outcomes[i] is TimedOut,
    ensures
        assemble_spec(outcomes) == Seq::<Vec<String>>::empty(),
    decreases outcomes.len(),
{
    if outcomes.len() > 0 {
        assert forall|i: int| 0 <= i < outcomes.drop_first().len() implies outcomes.drop_first()[i]
            is TimedOut by {
            assert(outcomes.drop_first()[i] == outcomes[i + 1]);
        }
        lemma_all_timed_out_empty(outcomes.drop_first());
    }
}

} // verus!
