use vstd::prelude::*;

use crate::access::{
    access_overlay, check_permissions, spec_access_overlay, spec_gate, spec_waiting_room_grant,
    temp_channel_name, waiting_room_grant, CapSet, Grant, OverlayPolicy,
};
use crate::registry::{
    owned_by, owners_unique, with_task, ChannelInfo, Countdown, Registry,
};

verus! {

/// Time units between a channel becoming empty and its deletion.
pub const GRACE_PERIOD: u64 = 5;

/// Due time of a countdown started at `now`; saturates at the largest time.
pub open spec fn deadline_after(now: u64, grace: u64) -> u64 {
    if now + grace > u64::MAX {
        u64::MAX
    } else {
        (now + grace) as u64
    }
}

/// Every countdown held in `m` has a token below `bound`.
pub open spec fn tokens_below(m: Map<u64, ChannelInfo>, bound: u64) -> bool {
    forall|k: u64|
        #[trigger] m.contains_key(k) && m[k].delete_task is Some ==> m[k].delete_task->0.token
            < bound
}

/// The channel that `user` owns in `m`, if any.
pub open spec fn spec_user_channel(m: Map<u64, ChannelInfo>, user: u64) -> Option<u64> {
    if owned_by(m, user) {
        Some(choose|id: u64| #[trigger] m.contains_key(id) && m[id].owner_id == user)
    } else {
        None
    }
}

/// Tracked channel `id` was found empty and countdown `c` started for it.
pub open spec fn emptied_step(m: Map<u64, ChannelInfo>, id: u64, c: Countdown) -> Map<
    u64,
    ChannelInfo,
> {
    with_task(m, id, Some(c))
}

/// Someone joined channel `id`: its countdown, if any, is dropped.
pub open spec fn joined_step(m: Map<u64, ChannelInfo>, id: u64) -> Map<u64, ChannelInfo> {
    with_task(m, id, None)
}

/// The countdown `token` of channel `id` is the live one and is due at `now`.
pub open spec fn expiry_fires(m: Map<u64, ChannelInfo>, id: u64, token: u64, now: u64) -> bool {
    &&& m.contains_key(id)
    &&& m[id].delete_task is Some
    &&& m[id].delete_task->0.token == token
    &&& now >= m[id].delete_task->0.deadline
}

/// The countdown `token` of channel `id` ran out at `now`: where it was the
/// live one, it is done and no longer held.
pub open spec fn expired_step(m: Map<u64, ChannelInfo>, id: u64, token: u64, now: u64) -> Map<
    u64,
    ChannelInfo,
> {
    if expiry_fires(m, id, token, now) {
        with_task(m, id, None)
    } else {
        m
    }
}

/// The delete request for channel `id` came back, successful or not.
pub open spec fn deleted_step(m: Map<u64, ChannelInfo>, id: u64, ok: bool) -> Map<
    u64,
    ChannelInfo,
> {
    if ok {
        m.remove(id)
    } else {
        m
    }
}

/// Channel `id` was created for `owner` and is tracked, with no countdown.
pub open spec fn created_step(m: Map<u64, ChannelInfo>, id: u64, owner: u64) -> Map<
    u64,
    ChannelInfo,
> {
    m.insert(id, ChannelInfo { owner_id: owner, delete_task: None })
}

/// A channel `id` may be recorded for `owner`: it is not tracked yet, and the
/// owner owns no channel.
pub open spec fn may_record(m: Map<u64, ChannelInfo>, id: u64, owner: u64) -> bool {
    !m.contains_key(id) && !owned_by(m, owner)
}

/// What to do when a user arrives in a channel.
#[derive(Clone, Copy, Debug, PartialEq, Eq, Structural)]
pub enum JoinPlan {
    /// The channel is not the creator channel.
    Ignore,
    /// The agent may not manage channels here: nothing is done.
    Denied,
    /// Create a channel for the user, deleting `replace` first where the user
    /// owns one already.
    Proceed { replace: Option<u64> },
}

pub open spec fn spec_join_plan(
    creator: u64,
    m: Map<u64, ChannelInfo>,
    new_channel: Option<u64>,
    effective: Option<CapSet>,
    user: u64,
) -> JoinPlan {
    if new_channel != Some(creator) {
        JoinPlan::Ignore
    } else if !spec_gate(effective) {
        JoinPlan::Denied
    } else {
        JoinPlan::Proceed { replace: spec_user_channel(m, user) }
    }
}

/// The outcome of a channel being found empty: the countdown to abort, if
/// one was running, and the one started in its place.
#[derive(Clone, Copy, Debug, PartialEq, Eq, Structural)]
pub struct Reschedule {
    pub cancelled: Option<u64>,
    pub started: Countdown,
}

/// Which phases of the dispatch a presence change calls for.
#[derive(Clone, Copy, Debug, PartialEq, Eq, Structural)]
pub struct Phases {
    /// The user arrived in the creator channel.
    pub creator_join: bool,
    /// The tracked channel the user left, to be checked for emptiness.
    pub leave_tracked: Option<u64>,
    /// The tracked channel the user arrived in, whose countdown is dropped.
    pub join_tracked: Option<u64>,
}

pub open spec fn tracked_in(m: Map<u64, ChannelInfo>, channel: Option<u64>) -> Option<u64> {
    match channel {
        Some(c) => if m.contains_key(c) {
            Some(c)
        } else {
            None
        },
        None => None,
    }
}

/// Everything needed to create one temporary channel.
pub struct CreationPlan {
    pub name: String,
    pub parent: Option<u64>,
    pub overlay: Vec<Grant>,
    /// The channel and grant of the extra narrow permission, if the policy has one.
    pub waiting_room_grant: Option<(u64, Grant)>,
}

pub open spec fn task_token(task: Option<Countdown>) -> Option<u64> {
    match task {
        Some(c) => Some(c.token),
        None => None,
    }
}

/// The lifecycle of temporary voice channels: which ones exist, who owns
/// them, and which deletion countdowns are live.
pub struct Handler {
    temp_channels: Registry,
    creator_channel_id: u64,
    waiting_room_id: u64,
    policy: OverlayPolicy,
    grace_period: u64,
    next_token: u64,
}

impl View for Handler {
    type V = Map<u64, ChannelInfo>;

    closed spec fn view(&self) -> Map<u64, ChannelInfo> {
        self.temp_channels@
    }
}

impl Handler {
    /// The registry is well formed, and every countdown it holds was handed
    /// out before the next token.
    pub closed spec fn wf(&self) -> bool {
        &&& self.temp_channels.wf()
        &&& tokens_below(self.temp_channels@, self.next_token)
    }

    /// A new countdown's token differs from every token a well-formed
    /// handler holds.
    pub proof fn lemma_tokens_fresh(&self)
        requires
            self.wf(),
        ensures
            tokens_below(self@, self.spec_next_token()),
    {
    }

    /// A well-formed handler never tracks two channels of one owner.
    pub proof fn temp_channels_single_owner(&self)
        requires
            self.wf(),
        ensures
            owners_unique(self@),
    {
        self.temp_channels.lemma_single_owner();
    }

    pub closed spec fn spec_creator_channel_id(&self) -> u64 {
        self.creator_channel_id
    }

    pub closed spec fn spec_waiting_room_id(&self) -> u64 {
        self.waiting_room_id
    }

    pub closed spec fn spec_policy(&self) -> OverlayPolicy {
        self.policy
    }

    pub closed spec fn spec_grace_period(&self) -> u64 {
        self.grace_period
    }

    /// The token the next countdown will get.
    pub closed spec fn spec_next_token(&self) -> u64 {
        self.next_token
    }

    /// The settings, which no event changes.
    pub open spec fn same_settings(&self, other: &Handler) -> bool {
        &&& self.spec_creator_channel_id() == other.spec_creator_channel_id()
        &&& self.spec_waiting_room_id() == other.spec_waiting_room_id()
        &&& self.spec_policy() == other.spec_policy()
        &&& self.spec_grace_period() == other.spec_grace_period()
    }

    /// A handler that watches `creator_channel_id`, grants the owner moves on
    /// `waiting_room_id` only, and deletes empty channels after `GRACE_PERIOD`.
    pub fn new(creator_channel_id: u64, waiting_room_id: u64) -> (r: Handler)
        ensures
            r.wf(),
            r@ == Map::<u64, ChannelInfo>::empty(),
            r.spec_creator_channel_id() == creator_channel_id,
            r.spec_waiting_room_id() == waiting_room_id,
            r.spec_policy() == OverlayPolicy::Hardened,
            r.spec_grace_period() == GRACE_PERIOD,
            r.spec_next_token() == 0,
    {
        Handler::with_policy(
            creator_channel_id,
            waiting_room_id,
            OverlayPolicy::Hardened,
            GRACE_PERIOD,
        )
    }

    /// A handler with the given access policy and grace period.
    pub fn with_policy(
        creator_channel_id: u64,
        waiting_room_id: u64,
        policy: OverlayPolicy,
        grace_period: u64,
    ) -> (r: Handler)
        ensures
            r.wf(),
            r@ == Map::<u64, ChannelInfo>::empty(),
            r.spec_creator_channel_id() == creator_channel_id,
            r.spec_waiting_room_id() == waiting_room_id,
            r.spec_policy() == policy,
            r.spec_grace_period() == grace_period,
            r.spec_next_token() == 0,
    {
        Handler {
            temp_channels: Registry::new(),
            creator_channel_id,
            waiting_room_id,
            policy,
            grace_period,
            next_token: 0,
        }
    }

    pub fn creator_channel_id(&self) -> (r: u64)
        ensures
            r == self.spec_creator_channel_id(),
    {
        self.creator_channel_id
    }

    pub fn waiting_room_id(&self) -> (r: u64)
        ensures
            r == self.spec_waiting_room_id(),
    {
        self.waiting_room_id
    }

    pub fn policy(&self) -> (r: OverlayPolicy)
        ensures
            r == self.spec_policy(),
    {
        self.policy
    }

    pub fn grace_period(&self) -> (r: u64)
        ensures
            r == self.spec_grace_period(),
    {
        self.grace_period
    }

    /// The token the next countdown will get.
    pub fn next_token(&self) -> (r: u64)
        ensures
            r == self.spec_next_token(),
    {
        self.next_token
    }

    /// Whether channel `id` is one of the temporary channels.
    pub fn is_tracked(&self, id: u64) -> (r: bool)
        requires
            self.wf(),
        ensures
            r == self@.contains_key(id),
    {
        self.temp_channels.contains(id)
    }

    /// The record of channel `id`, if it is tracked.
    pub fn channel_info(&self, id: u64) -> (r: Option<ChannelInfo>)
        requires
            self.wf(),
        ensures
            r == (if self@.contains_key(id) { Some(self@[id]) } else { None::<ChannelInfo> }),
    {
        self.temp_channels.get(id)
    }

    /// Whether `user` owns a temporary channel.
    pub fn user_has_channel(&self, user: u64) -> (r: bool)
        requires
            self.wf(),
        ensures
            r == owned_by(self@, user),
    {
        self.temp_channels.exists_for_owner(user)
    }

    /// The temporary channel that `user` owns, if any.
    pub fn get_user_channel(&self, user: u64) -> (r: Option<u64>)
        requires
            self.wf(),
        ensures
            r == spec_user_channel(self@, user),
    {
        proof {
            self.temp_channels.lemma_single_owner();
        }
        self.temp_channels.find_by_owner(user)
    }

    /// Sorts a presence change of one user, from `old_channel` to
    /// `new_channel`, into the phases it calls for.
    pub fn classify(&self, old_channel: Option<u64>, new_channel: Option<u64>) -> (r: Phases)
        requires
            self.wf(),
        ensures
            r.creator_join == (new_channel == Some(self.spec_creator_channel_id())),
            r.leave_tracked == tracked_in(self@, old_channel),
            r.join_tracked == tracked_in(self@, new_channel),
    {
        let creator_join = match new_channel {
            Some(c) => c == self.creator_channel_id,
            None => false,
        };
        let leave_tracked = match old_channel {
            Some(c) => if self.temp_channels.contains(c) {
                Some(c)
            } else {
                None
            },
            None => None,
        };
        let join_tracked = match new_channel {
            Some(c) => if self.temp_channels.contains(c) {
                Some(c)
            } else {
                None
            },
            None => None,
        };
        Phases { creator_join, leave_tracked, join_tracked }
    }

    /// First step on a user arriving in `new_channel`, given the agent's
    /// effective capabilities in the group (`None` where they could not be
    /// resolved).
    pub fn begin_creator_join(
        &self,
        new_channel: Option<u64>,
        effective: Option<CapSet>,
        user: u64,
    ) -> (r: JoinPlan)
        requires
            self.wf(),
        ensures
            r == spec_join_plan(self.spec_creator_channel_id(), self@, new_channel, effective, user),
    {
        let is_creator = match new_channel {
            Some(c) => c == self.creator_channel_id,
            None => false,
        };
        if !is_creator {
            JoinPlan::Ignore
        } else if !check_permissions(effective) {
            JoinPlan::Denied
        } else {
            JoinPlan::Proceed { replace: self.get_user_channel(user) }
        }
    }

    /// The name, place and permissions of a new channel for `owner`.
    pub fn plan_creation(
        &self,
        display_name: Option<String>,
        account_name: String,
        parent: Option<u64>,
    ) -> (r: CreationPlan)
        ensures
            r.name@ == (match display_name {
                Some(d) => d@,
                None => account_name@,
            }),
            r.parent == parent,
            r.overlay@ == spec_access_overlay(self.spec_policy()),
            r.waiting_room_grant == (if self.spec_policy() == OverlayPolicy::Hardened {
                Some((self.spec_waiting_room_id(), spec_waiting_room_grant()))
            } else {
                None::<(u64, Grant)>
            }),
    {
        let extra = match waiting_room_grant(self.policy) {
            Some(g) => Some((self.waiting_room_id, g)),
            None => None,
        };
        CreationPlan {
            name: temp_channel_name(display_name, account_name),
            parent,
            overlay: access_overlay(self.policy),
            waiting_room_grant: extra,
        }
    }

    /// Whether the new channel `id` may be recorded for `owner`.
    pub fn may_record(&self, id: u64, owner: u64) -> (r: bool)
        requires
            self.wf(),
        ensures
            r == may_record(self@, id, owner),
    {
        !self.temp_channels.contains(id) && !self.temp_channels.exists_for_owner(owner)
    }

    /// Records the new channel `id` of `owner`, with no countdown.
    pub fn channel_created(&mut self, id: u64, owner: u64)
        requires
            old(self).wf(),
            may_record(old(self)@, id, owner),
        ensures
            final(self).wf(),
            final(self).same_settings(old(self)),
            final(self).spec_next_token() == old(self).spec_next_token(),
            final(self)@ == created_step(old(self)@, id, owner),
    {
        self.temp_channels.insert(id, ChannelInfo { owner_id: owner, delete_task: None });
    }

    /// Records the result of deleting `old_id`, the channel that `user` owned
    /// before asking for a new one, and returns whether the new channel may be
    /// created: only when `user` owns no channel any more. A failed delete
    /// leaves the old channel tracked, and no new one is made.
    pub fn replacement_deleted(&mut self, user: u64, old_id: u64, ok: bool) -> (r: bool)
        requires
            old(self).wf(),
        ensures
            final(self).wf(),
            final(self).same_settings(old(self)),
            final(self).spec_next_token() == old(self).spec_next_token(),
            final(self)@ == deleted_step(old(self)@, old_id, ok),
            r == !owned_by(final(self)@, user),
    {
        self.channel_deleted(old_id, ok);
        !self.temp_channels.exists_for_owner(user)
    }

    /// Records the result of a delete request for channel `id`: on success
    /// the channel stops being tracked and its record is handed back.
    pub fn channel_deleted(&mut self, id: u64, ok: bool) -> (r: Option<ChannelInfo>)
        requires
            old(self).wf(),
        ensures
            final(self).wf(),
            final(self).same_settings(old(self)),
            final(self).spec_next_token() == old(self).spec_next_token(),
            final(self)@ == deleted_step(old(self)@, id, ok),
            r == (if ok && old(self)@.contains_key(id) {
                Some(old(self)@[id])
            } else {
                None::<ChannelInfo>
            }),
    {
        if ok {
            self.temp_channels.remove(id)
        } else {
            None
        }
    }

    /// A user left channel `id` at time `now`, and `members_left` members are
    /// still in it. Where it is tracked and now empty, its running countdown,
    /// if any, is replaced by a fresh one due a grace period from `now`.
    pub fn channel_emptied(&mut self, id: u64, members_left: usize, now: u64) -> (r: Option<
        Reschedule,
    >)
        requires
            old(self).wf(),
            old(self).spec_next_token() < u64::MAX,
        ensures
            final(self).wf(),
            final(self).same_settings(old(self)),
            ({
                let c = Countdown {
                    token: old(self).spec_next_token(),
                    deadline: deadline_after(now, old(self).spec_grace_period()),
                };
                if old(self)@.contains_key(id) && members_left == 0 {
                    &&& r == Some(
                        Reschedule { cancelled: task_token(old(self)@[id].delete_task), started: c },
                    )
                    &&& final(self)@ == emptied_step(old(self)@, id, c)
                    &&& final(self).spec_next_token() == old(self).spec_next_token() + 1
                    &&& r->0.cancelled != Some(r->0.started.token)
                } else {
                    &&& r == None::<Reschedule>
                    &&& final(self)@ == old(self)@
                    &&& final(self).spec_next_token() == old(self).spec_next_token()
                }
            }),
    {
        if members_left != 0 {
            return None;
        }
        match self.temp_channels.get(id) {
            Some(info) => {
                let started = Countdown {
                    token: self.next_token,
                    deadline: now.saturating_add(self.grace_period),
                };
                let cancelled = match info.delete_task {
                    Some(c) => Some(c.token),
                    None => None,
                };
                self.temp_channels.set_delete_task(id, Some(started));
                self.next_token = self.next_token + 1;
                Some(Reschedule { cancelled, started })
            },
            None => None,
        }
    }

    /// Someone joined channel `id`: its countdown, if any, is dropped, and
    /// its token handed back so that the timer can be aborted.
    pub fn channel_joined(&mut self, id: u64) -> (r: Option<u64>)
        requires
            old(self).wf(),
        ensures
            final(self).wf(),
            final(self).same_settings(old(self)),
            final(self).spec_next_token() == old(self).spec_next_token(),
            final(self)@ == joined_step(old(self)@, id),
            r == (if old(self)@.contains_key(id) {
                task_token(old(self)@[id].delete_task)
            } else {
                None::<u64>
            }),
    {
        match self.temp_channels.get(id) {
            Some(info) => {
                self.temp_channels.set_delete_task(id, None);
                match info.delete_task {
                    Some(c) => Some(c.token),
                    None => None,
                }
            },
            None => {
                proof {
                    assert(with_task(self@, id, None) == self@);
                }
                None
            },
        }
    }

    /// The timer of countdown `token` for channel `id` ran out at `now`.
    /// Returns whether the channel is to be deleted: only when that countdown
    /// is still the live one and is due.
    pub fn countdown_expired(&mut self, id: u64, token: u64, now: u64) -> (r: bool)
        requires
            old(self).wf(),
        ensures
            final(self).wf(),
            final(self).same_settings(old(self)),
            final(self).spec_next_token() == old(self).spec_next_token(),
            final(self)@ == expired_step(old(self)@, id, token, now),
            r == expiry_fires(old(self)@, id, token, now),
    {
        match self.temp_channels.get(id) {
            Some(info) => match info.delete_task {
                Some(c) => {
                    if c.token == token && now >= c.deadline {
                        self.temp_channels.set_delete_task(id, None);
                        true
                    } else {
                        false
                    }
                },
                None => false,
            },
            None => false,
        }
    }
}

} // verus!
