//! Discovery requests, one after another, over the listed groups alone.
//!
//! One request is [`answer`]: what `Session::ensure_populated` does, and
//! what `Session::begin` followed by `Session::complete` does. [`replay`]
//! is a sequence of requests, each made while the one before is over, as
//! requests are that hold the session exclusively. The proof functions
//! below say what the cache guarantees over every such sequence.

use crate::groups::XApiGroupView;
use crate::session::{answer, begin_spec};
use vstd::prelude::*;

verus! {

/// A sequence of requests as seen from outside: the groups listed at the
/// end, the replies in order, and how often the engine was run.
pub struct Trace {
    pub listed: Seq<XApiGroupView>,
    pub replies: Seq<Result<Seq<XApiGroupView>, Seq<char>>>,
    pub runs: nat,
}

/// One request for each element of `outcomes`, in order, each starting
/// from the cache that the one before left.
pub open spec fn replay(
    listed: Seq<XApiGroupView>,
    outcomes: Seq<Result<Seq<XApiGroupView>, Seq<char>>>,
) -> Trace
    decreases outcomes.len(),
{
    if outcomes.len() == 0 {
        Trace { listed, replies: Seq::empty(), runs: 0 }
    } else {
        let first = answer(listed, outcomes[0]);
        let rest = replay(first.listed, outcomes.drop_first());
        Trace {
            listed: rest.listed,
            replies: seq![first.reply] + rest.replies,
            runs: if first.ran {
                rest.runs + 1
            } else {
                rest.runs
            },
        }
    }
}

/// Every request gets exactly one reply.
pub proof fn every_request_is_answered(
    listed: Seq<XApiGroupView>,
    outcomes: Seq<Result<Seq<XApiGroupView>, Seq<char>>>,
)
    ensures
        replay(listed, outcomes).replies.len() == outcomes.len(),
    decreases outcomes.len(),
{
    if outcomes.len() > 0 {
        every_request_is_answered(answer(listed, outcomes[0]).listed, outcomes.drop_first());
    }
}

/// Once the cache holds a group, no request runs the engine again: however
/// many requests follow and whatever a run would come back with, each is
/// answered with the listed groups, in their order, and the list stays as
/// it is.
pub proof fn populated_cache_is_never_run_again(
    listed: Seq<XApiGroupView>,
    outcomes: Seq<Result<Seq<XApiGroupView>, Seq<char>>>,
)
    requires
        listed.len() > 0,
    ensures
        replay(listed, outcomes).runs == 0,
        replay(listed, outcomes).listed == listed,
        replay(listed, outcomes).replies.len() == outcomes.len(),
        forall|i: int|
            0 <= i < outcomes.len() ==> #[trigger] replay(listed, outcomes).replies[i] == Ok::<
                Seq<XApiGroupView>,
                Seq<char>,
            >(listed),
    decreases outcomes.len(),
{
    if outcomes.len() > 0 {
        populated_cache_is_never_run_again(listed, outcomes.drop_first());
    }
}

/// A first run that finds at least one group is the only run: of that
/// request and any number of later ones, exactly one runs the engine, every
/// one is answered with the groups that the first run found, and those are
/// the groups listed at the end.
pub proof fn first_successful_run_is_the_only_run(
    listed: Seq<XApiGroupView>,
    found: Seq<XApiGroupView>,
    later: Seq<Result<Seq<XApiGroupView>, Seq<char>>>,
)
    requires
        listed.len() == 0,
        found.len() > 0,
    ensures
        replay(listed, seq![Ok(found)] + later).runs == 1,
        replay(listed, seq![Ok(found)] + later).listed == found,
        replay(listed, seq![Ok(found)] + later).replies.len() == later.len() + 1,
        forall|i: int|
            0 <= i <= later.len() ==> #[trigger] replay(
                listed,
                seq![Ok(found)] + later,
            ).replies[i] == Ok::<Seq<XApiGroupView>, Seq<char>>(found),
{
    let outcomes = seq![Ok::<Seq<XApiGroupView>, Seq<char>>(found)] + later;
    assert(outcomes[0] == Ok::<Seq<XApiGroupView>, Seq<char>>(found));
    assert(outcomes.drop_first() =~= later);
    populated_cache_is_never_run_again(found, later);
}

/// A failed run costs nothing but the request it failed: the caller gets
/// the failure, the cache is as empty as before, and the next request runs
/// the engine anew.
pub proof fn failed_run_is_retried(
    listed: Seq<XApiGroupView>,
    message: Seq<char>,
    next: Result<Seq<XApiGroupView>, Seq<char>>,
)
    requires
        listed.len() == 0,
    ensures
        answer(listed, Err(message)).ran,
        answer(listed, Err(message)).reply == Err::<Seq<XApiGroupView>, Seq<char>>(message),
        answer(listed, Err(message)).listed == listed,
        answer(answer(listed, Err(message)).listed, next).ran,
        answer(answer(listed, Err(message)).listed, next).reply == next,
{
}

/// A request that is given up while its run is under way costs nothing
/// but itself: `begin` leaves the list as empty as it found it, so the next
/// request runs the engine and is answered with what that run comes back
/// with.
pub proof fn abandoned_run_is_retried(
    listed: Seq<XApiGroupView>,
    next: Result<Seq<XApiGroupView>, Seq<char>>,
)
    requires
        listed.len() == 0,
    ensures
        begin_spec(listed) is None,
        answer(listed, next).ran,
        answer(listed, next).reply == next,
{
}

} // verus!
