//! Broadcast planning and per-relay publish outcomes. The transport sends
//! the serialized event outside the library; here the plan (who gets the
//! event), the merge of acknowledgments and the overall verdict are
//! verified.
use vstd::prelude::*;

use crate::errors::Error;
use crate::pool::RelayPool;

verus! {

/// The per-relay outcome of one broadcast attempt.
#[derive(Debug)]
pub enum PublishOutcome {
    /// The relay acknowledged the event.
    Accepted,
    /// The relay refused the event, with its reason.
    Rejected(String),
    /// No acknowledgment arrived within the grace window.
    Timeout,
    /// The relay was not connected when the broadcast ran; it was skipped.
    NotConnected,
}

/// Which endpoints a broadcast reaches: exactly those now Connected, one
/// flag per registered endpoint, in registration order.
pub fn send_plan(pool: &RelayPool) -> (r: Vec<bool>)
    ensures
        r@.len() == pool.urls().len(),
        forall|i: int| 0 <= i < r@.len() ==> #[trigger] r@[i] == (pool.states()[i] is Connected),
{
    proof {
        pool.lemma_lengths();
    }
    let n = pool.len();
    let mut r: Vec<bool> = Vec::new();
    let mut i: usize = 0;
    while i < n
        invariant
            n == pool.urls().len(),
            pool.urls().len() == pool.states().len(),
            i <= n,
            r@.len() == i,
            forall|j: int| 0 <= j < i ==> #[trigger] r@[j] == (pool.states()[j] is Connected),
        decreases n - i,
    {
        let s = pool.state_at(i);
        r.push(match s {
            crate::pool::ConnState::Connected => true,
            _ => false,
        });
        i = i + 1;
    }
    r
}

/// One outcome per registered endpoint: a skipped endpoint is recorded as
/// NotConnected; an endpoint the plan sent to keeps the acknowledgment the
/// transport collected for it.
pub fn merge_outcomes(plan: &Vec<bool>, acks: Vec<PublishOutcome>) -> (r: Vec<PublishOutcome>)
    requires
        acks@.len() == plan@.len(),
    ensures
        r@.len() == plan@.len(),
        forall|i: int|
            0 <= i < r@.len() ==> #[trigger] r@[i] == (if plan@[i] {
                acks@[i]
            } else {
                PublishOutcome::NotConnected
            }),
{
    let ghost acks0 = acks@;
    let mut acks = acks;
    let mut r: Vec<PublishOutcome> = Vec::new();
    let mut i: usize = 0;
    while i < plan.len()
        invariant
            acks0.len() == plan@.len(),
            i <= plan@.len(),
            acks@ =~= acks0.skip(i as int),
            r@.len() == i,
            forall|j: int|
                0 <= j < i ==> #[trigger] r@[j] == (if plan@[j] {
                    acks0[j]
                } else {
                    PublishOutcome::NotConnected
                }),
        decreases plan@.len() - i,
    {
        let ack = acks.remove(0);
        proof {
            assert(ack == acks0.skip(i as int)[0]);
            assert(acks0.skip(i as int)[0] == acks0[i as int]);
            assert(acks0.skip(i as int).remove(0) =~= acks0.skip(i as int + 1));
        }
        if plan[i] {
            r.push(ack);
        } else {
            r.push(PublishOutcome::NotConnected);
        }
        i = i + 1;
    }
    r
}

/// Is at least one outcome an acceptance?
pub open spec fn any_accepted_spec(outcomes: Seq<PublishOutcome>) -> bool {
    exists|i: int| 0 <= i < outcomes.len() && (#[trigger] outcomes[i]) is Accepted
}

/// Whether at least one relay acknowledged the event.
pub fn any_accepted(outcomes: &Vec<PublishOutcome>) -> (r: bool)
    ensures
        r == any_accepted_spec(outcomes@),
{
    let mut i: usize = 0;
    while i < outcomes.len()
        invariant
            i <= outcomes@.len(),
            forall|j: int| 0 <= j < i ==> !((#[trigger] outcomes@[j]) is Accepted),
        decreases outcomes@.len() - i,
    {
        let hit = match &outcomes[i] {
            PublishOutcome::Accepted => true,
            _ => false,
        };
        if hit {
            return true;
        }
        i = i + 1;
    }
    false
}

/// The at-least-one-success policy: the broadcast counts as a success iff
/// some relay accepted; otherwise it failed with `AllRelaysRejected`.
pub fn publish_verdict(outcomes: &Vec<PublishOutcome>) -> (r: Result<(), Error>)
    ensures
        any_accepted_spec(outcomes@) <==> r == Result::<(), Error>::Ok(()),
        !any_accepted_spec(outcomes@) <==> r == Result::<(), Error>::Err(Error::AllRelaysRejected),
{
    if any_accepted(outcomes) {
        Result::Ok(())
    } else {
        Result::Err(Error::AllRelaysRejected)
    }
}

} // verus!
