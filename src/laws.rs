use vstd::prelude::*;

use crate::access::{spec_gate, CapSet};
use crate::handler::{
    created_step, deadline_after, deleted_step, emptied_step, expired_step, expiry_fires, joined_step,
    may_record, spec_join_plan, spec_user_channel, Handler, JoinPlan,
};
use crate::registry::{owned_by, owners_unique, ChannelInfo, Countdown};

verus! {

/// Every well-formed handler tracks at most one channel per owner. A new
/// channel is recorded only for an owner who owns none, and it is then that
/// owner's one channel, however often the owner comes back to the creator
/// channel.
pub proof fn single_ownership(h: &Handler, id: u64, owner: u64)
    requires
        h.wf(),
    ensures
        owners_unique(h@),
        may_record(h@, id, owner) ==> owners_unique(created_step(h@, id, owner)),
        may_record(h@, id, owner) ==> spec_user_channel(created_step(h@, id, owner), owner)
            == Some(id),
{
    h.temp_channels_single_owner();
    let m = created_step(h@, id, owner);
    assert(m.contains_key(id) && m[id].owner_id == owner);
    assert(owned_by(m, owner));
}

/// A join drops the countdown of a channel, so that no timer of it can
/// delete it afterwards, however often the channel empties and fills again.
/// Left empty from `start` on, the channel's countdown fires exactly once a
/// grace period has passed, and only once.
pub proof fn grace_period_idempotence(
    m: Map<u64, ChannelInfo>,
    id: u64,
    token: u64,
    start: u64,
    grace: u64,
    now: u64,
)
    requires
        m.contains_key(id),
    ensures
        ({
            let c = Countdown { token, deadline: deadline_after(start, grace) };
            let counting = emptied_step(m, id, c);
            &&& start + grace <= u64::MAX ==> (expiry_fires(counting, id, token, now) <==> now
                - start >= grace)
            &&& expiry_fires(counting, id, token, now) <==> now >= c.deadline
            &&& forall|t: u64, n: u64| !expiry_fires(joined_step(counting, id), id, t, n)
            &&& now >= c.deadline ==> forall|n: u64|
                !expiry_fires(expired_step(counting, id, token, now), id, token, n)
            &&& forall|t: u64, n: u64| t != token ==> !expiry_fires(counting, id, t, n)
        }),
{
}

/// Starting a countdown for a channel of a well-formed handler replaces the
/// one before it: the new token differs from the old, only the new countdown
/// is live, and the one it replaced can no longer fire.
pub proof fn cancellation_race_freedom(h: &Handler, id: u64, deadline: u64)
    requires
        h.wf(),
        h@.contains_key(id),
    ensures
        ({
            let c = Countdown { token: h.spec_next_token(), deadline };
            let m = emptied_step(h@, id, c);
            &&& h@[id].delete_task is Some ==> h@[id].delete_task->0.token != c.token
            &&& m[id].delete_task == Some(c)
            &&& forall|t: u64, n: u64| t != c.token ==> !expiry_fires(m, id, t, n)
        }),
{
    h.lemma_tokens_fresh();
}

/// Channel `id` found empty once for each countdown of `cs`, in order.
pub open spec fn emptied_in_turn(m: Map<u64, ChannelInfo>, id: u64, cs: Seq<Countdown>) -> Map<
    u64,
    ChannelInfo,
>
    decreases cs.len(),
{
    if cs.len() == 0 {
        m
    } else {
        emptied_step(emptied_in_turn(m, id, cs.drop_last()), id, cs.last())
    }
}

/// However many countdowns are started for one channel in turn, only the
/// last is live: no other token can fire, and the owner is kept.
pub proof fn one_live_countdown(m: Map<u64, ChannelInfo>, id: u64, cs: Seq<Countdown>)
    requires
        m.contains_key(id),
        cs.len() > 0,
    ensures
        emptied_in_turn(m, id, cs).contains_key(id),
        emptied_in_turn(m, id, cs)[id].owner_id == m[id].owner_id,
        emptied_in_turn(m, id, cs)[id].delete_task == Some(cs.last()),
        forall|t: u64, n: u64|
            t != cs.last().token ==> !expiry_fires(emptied_in_turn(m, id, cs), id, t, n),
    decreases cs.len(),
{
    if cs.len() > 1 {
        one_live_countdown(m, id, cs.drop_last());
    } else {
        assert(emptied_in_turn(m, id, cs.drop_last()) == m);
    }
}

/// After a delete request for a tracked channel comes back, the owner's
/// ownership reflects it: on success the owner owns nothing, on failure the
/// owner still owns that very channel.
pub proof fn registry_consistency(m: Map<u64, ChannelInfo>, id: u64, ok: bool)
    requires
        owners_unique(m),
        m.contains_key(id),
    ensures
        ok ==> !owned_by(deleted_step(m, id, ok), m[id].owner_id),
        !ok ==> spec_user_channel(deleted_step(m, id, ok), m[id].owner_id) == Some(id),
        !ok ==> forall|new_id: u64| !may_record(deleted_step(m, id, ok), new_id, m[id].owner_id),
{
    if !ok {
        assert(owned_by(m, m[id].owner_id));
    }
}

/// Where the agent may not manage channels, a join of the creator channel
/// never leads to a creation; the decision reads the handler without
/// changing it, so repeating the join changes nothing.
pub proof fn permission_short_circuit(
    creator: u64,
    m: Map<u64, ChannelInfo>,
    new_channel: Option<u64>,
    effective: Option<CapSet>,
    user: u64,
)
    requires
        !spec_gate(effective),
    ensures
        !(spec_join_plan(creator, m, new_channel, effective, user) is Proceed),
        new_channel == Some(creator) ==> spec_join_plan(creator, m, new_channel, effective, user)
            == JoinPlan::Denied,
{
}

} // verus!
