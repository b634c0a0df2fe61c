//! Laws of the auction's transitions, proved once and for all over the
//! spec-level state.
//!
//! The exec operations in [`crate::auction`] are each tied exactly to their
//! spec transition, so everything proved here about sequences of transitions
//! holds of the running contract as well.

use vstd::prelude::*;

use crate::auction::{refund_dispatches, spec_bid, spec_claim, spec_ft_on_transfer, with_highest};
use crate::auction::{AuctionView, Step};
use crate::errors::AuctionError;
use crate::gateway::DispatchView;

verus! {

/// One attempted native-asset bid: when it arrived, from whom, how much.
pub ghost struct BidEvent {
    pub now: u64,
    pub bidder: Seq<u8>,
    pub amount: u128,
}

/// The dispatches an operation issued: none when it was rejected.
pub open spec fn dispatches_of(r: Result<Seq<DispatchView>, AuctionError>) -> Seq<DispatchView> {
    match r {
        Ok(d) => d,
        Err(_) => seq![],
    }
}

/// Applies a whole sequence of bid events, collecting every dispatch issued
/// along the way in order.
pub open spec fn run_bids(s: AuctionView, events: Seq<BidEvent>) -> (AuctionView, Seq<
    DispatchView,
>)
    decreases events.len(),
{
    if events.len() == 0 {
        (s, seq![])
    } else {
        let step = spec_bid(s, events[0].now, events[0].bidder, events[0].amount);
        let rest = run_bids(step.state, events.skip(1));
        (rest.0, dispatches_of(step.result) + rest.1)
    }
}

/// Every bid of the sequence is accepted.
pub open spec fn all_accepted(s: AuctionView, events: Seq<BidEvent>) -> bool
    decreases events.len(),
{
    events.len() == 0 || {
        let step = spec_bid(s, events[0].now, events[0].bidder, events[0].amount);
        step.result is Ok && all_accepted(step.state, events.skip(1))
    }
}

/// One native-asset return of a displaced bidder's own amount.
pub open spec fn native_refund(bidder: Seq<u8>, amount: u128) -> DispatchView {
    DispatchView::Native { to: bidder, amount }
}

/// The refunds an ascending run owes: one to the incumbent displaced by the
/// first bid (none while it is the sentinel), then one to each event's bidder
/// displaced by the next event — exactly one return per outbid bidder, each
/// of that bidder's own amount.
pub open spec fn ascending_refunds(s: AuctionView, events: Seq<BidEvent>) -> Seq<DispatchView> {
    if events.len() == 0 {
        seq![]
    } else {
        refund_dispatches(s) + Seq::new(
            (events.len() - 1) as nat,
            |i: int| native_refund(events[i].bidder, events[i].amount),
        )
    }
}

/// For every sequence of native-asset bids before the deadline with strictly
/// increasing amounts, every bid is accepted, the highest bid afterwards is
/// exactly the last event's (bidder, amount), and the dispatches issued are
/// exactly one return to each displaced bidder of that bidder's own prior
/// amount, in order.
pub proof fn lemma_ascending_bids(s: AuctionView, events: Seq<BidEvent>)
    requires
        s.asset is Native,
        forall|i: int| 0 <= i < events.len() ==> (#[trigger] events[i].now) < s.end_time,
        forall|i: int| 0 <= i < events.len() ==> (#[trigger] events[i].bidder) != s.account,
        events.len() > 0 ==> events[0].amount > s.highest_bid.amount,
        forall|i: int| 0 < i < events.len() ==> (#[trigger] events[i].amount) > events[
            i - 1
        ].amount,
    ensures
        all_accepted(s, events),
        events.len() == 0 ==> run_bids(s, events).0 == s,
        events.len() > 0 ==> run_bids(s, events).0 == with_highest(
            s,
            events.last().bidder,
            events.last().amount,
        ),
        run_bids(s, events).1 == ascending_refunds(s, events),
    decreases events.len(),
{
    if events.len() == 0 {
    } else {
        let e0 = events[0];
        let step = spec_bid(s, e0.now, e0.bidder, e0.amount);
        let s1 = step.state;
        assert(step.result is Ok);
        assert(s1 == with_highest(s, e0.bidder, e0.amount));
        let rest = events.skip(1);
        assert forall|i: int| 0 <= i < rest.len() implies (#[trigger] rest[i].now) < s1.end_time
            && (#[trigger] rest[i].bidder) != s1.account by {
            assert(rest[i] == events[i + 1]);
        }
        assert forall|i: int| 0 < i < rest.len() implies (#[trigger] rest[i].amount) > rest[
            i - 1
        ].amount by {
            assert(rest[i] == events[i + 1]);
            assert(rest[i - 1] == events[i]);
        }
        if rest.len() > 0 {
            assert(rest[0] == events[1]);
        }
        lemma_ascending_bids(s1, rest);
        // The final state: the last event wins, over either branch.
        if rest.len() == 0 {
            assert(events.last() == e0);
            assert(run_bids(s, events).0 == s1);
        } else {
            assert(rest.last() == events.last());
            assert(with_highest(s1, rest.last().bidder, rest.last().amount) == with_highest(
                s,
                events.last().bidder,
                events.last().amount,
            ));
        }
        // The dispatches: the first refund, then the refunds of the rest.
        assert(run_bids(s, events).1 == refund_dispatches(s) + run_bids(s1, rest).1);
        if rest.len() == 0 {
            assert(run_bids(s1, rest).1 =~= Seq::<DispatchView>::empty());
            assert(ascending_refunds(s, events) =~= refund_dispatches(s));
            assert(run_bids(s, events).1 =~= refund_dispatches(s));
        } else {
            // The incumbent that `rest`'s first bid displaces is e0's bidder,
            // an external party, so its refund is owed.
            assert(s1.highest_bid.bidder != s1.account);
            assert(refund_dispatches(s1) =~= seq![native_refund(e0.bidder, e0.amount)]);
            assert(run_bids(s1, rest).1 == seq![native_refund(e0.bidder, e0.amount)] + Seq::new(
                (rest.len() - 1) as nat,
                |i: int| native_refund(rest[i].bidder, rest[i].amount),
            ));
            assert(seq![native_refund(e0.bidder, e0.amount)] + Seq::new(
                (rest.len() - 1) as nat,
                |i: int| native_refund(rest[i].bidder, rest[i].amount),
            ) =~= Seq::new(
                (events.len() - 1) as nat,
                |i: int| native_refund(events[i].bidder, events[i].amount),
            )) by {
                assert forall|i: int| 0 < i < events.len() - 1 implies native_refund(
                    rest[i - 1].bidder,
                    rest[i - 1].amount,
                ) == native_refund(events[i].bidder, events[i].amount) by {
                    assert(rest[i - 1] == events[i]);
                }
            }
            assert(run_bids(s, events).1 =~= ascending_refunds(s, events));
        }
    }
}

/// One operation submitted to a running auction, with its transaction
/// context.
pub ghost enum Operation {
    BidOp { now: u64, bidder: Seq<u8>, amount: u128 },
    FtOp { now: u64, origin: Seq<u8>, sender: Seq<u8>, amount: u128 },
    ClaimOp { now: u64 },
}

/// Applies one operation's transition.
pub open spec fn apply(s: AuctionView, op: Operation) -> Step {
    match op {
        Operation::BidOp { now, bidder, amount } => spec_bid(s, now, bidder, amount),
        Operation::FtOp { now, origin, sender, amount } => spec_ft_on_transfer(
            s,
            now,
            origin,
            sender,
            amount,
        ),
        Operation::ClaimOp { now } => spec_claim(s, now),
    }
}

/// The state after a whole trace of operations, accepted or rejected.
pub open spec fn run_ops(s: AuctionView, ops: Seq<Operation>) -> AuctionView
    decreases ops.len(),
{
    if ops.len() == 0 {
        s
    } else {
        run_ops(apply(s, ops[0]).state, ops.skip(1))
    }
}

/// Over every trace of operations whatsoever: the configuration and the
/// auction's identity never change, the highest amount never decreases, and
/// `claimed` never goes back to false.
pub proof fn lemma_trace_invariants(s: AuctionView, ops: Seq<Operation>)
    ensures
        run_ops(s, ops).account == s.account,
        run_ops(s, ops).end_time == s.end_time,
        run_ops(s, ops).auctioneer == s.auctioneer,
        run_ops(s, ops).asset == s.asset,
        run_ops(s, ops).collectible == s.collectible,
        run_ops(s, ops).highest_bid.amount >= s.highest_bid.amount,
        s.claimed ==> run_ops(s, ops).claimed,
    decreases ops.len(),
{
    if ops.len() > 0 {
        lemma_trace_invariants(apply(s, ops[0]).state, ops.skip(1));
    }
}

/// Settlement happens exactly once: once the deadline has passed, the first
/// claim succeeds, and any later claim is rejected as already claimed,
/// changes nothing, and issues no further payout.
pub proof fn lemma_claim_exactly_once(s: AuctionView, now1: u64, now2: u64)
    requires
        !s.claimed,
        now1 >= s.end_time,
        now2 >= s.end_time,
    ensures
        spec_claim(s, now1).result is Ok,
        spec_claim(spec_claim(s, now1).state, now2).result == Err::<Seq<DispatchView>,
            AuctionError,
        >(AuctionError::AlreadyClaimed),
        spec_claim(spec_claim(s, now1).state, now2).state == spec_claim(s, now1).state,
{
}

} // verus!
