use tempvoice::access::{
    access_overlay, check_permissions, temp_channel_name, waiting_room_grant, CapSet, Grant,
    OverlayPolicy, Subject,
};
use tempvoice::handler::{Handler, JoinPlan, Phases, Reschedule, GRACE_PERIOD};
use tempvoice::registry::{ChannelInfo, Countdown, Registry};

const CREATOR: u64 = 100;
const WAITING: u64 = 200;
const PARENT: u64 = 300;
const USER: u64 = 7;
const OTHER: u64 = 8;

fn manage() -> Option<CapSet> {
    Some(CapSet {
        connect: false,
        move_members: false,
        manage_channels: true,
        mute_members: false,
        deafen_members: false,
    })
}

fn caps(connect: bool, move_members: bool, manage: bool, mute: bool, deafen: bool) -> CapSet {
    CapSet {
        connect,
        move_members,
        manage_channels: manage,
        mute_members: mute,
        deafen_members: deafen,
    }
}

#[test]
fn join_creator_creates_private_channel_under_parent() {
    let mut h = Handler::new(CREATOR, WAITING);
    let plan = h.begin_creator_join(Some(CREATOR), manage(), USER);
    assert_eq!(plan, JoinPlan::Proceed { replace: None });
    let p = h.plan_creation(None, "U".to_string(), Some(PARENT));
    assert_eq!(p.name, "U");
    assert_eq!(p.parent, Some(PARENT));
    assert_eq!(p.overlay[0].subject, Subject::Everyone);
    assert!(p.overlay[0].deny.connect);
    h.channel_created(11, USER);
    assert_eq!(h.channel_info(11), Some(ChannelInfo { owner_id: USER, delete_task: None }));
    assert_eq!(h.get_user_channel(USER), Some(11));
    assert!(h.user_has_channel(USER));
}

#[test]
fn empty_channel_deleted_after_grace_period() {
    let mut h = Handler::new(CREATOR, WAITING);
    h.channel_created(11, USER);
    let r = h.channel_emptied(11, 0, 0).unwrap();
    assert_eq!(r.cancelled, None);
    assert_eq!(r.started.deadline, 5);
    assert!(!h.countdown_expired(11, r.started.token, 4));
    assert!(h.countdown_expired(11, r.started.token, 5));
    let removed = h.channel_deleted(11, true);
    assert_eq!(removed, Some(ChannelInfo { owner_id: USER, delete_task: None }));
    assert!(!h.is_tracked(11));
    assert!(!h.user_has_channel(USER));
}

#[test]
fn join_during_grace_period_keeps_channel() {
    let mut h = Handler::new(CREATOR, WAITING);
    h.channel_created(11, USER);
    let r = h.channel_emptied(11, 0, 0).unwrap();
    assert_eq!(h.channel_joined(11), Some(r.started.token));
    assert!(!h.countdown_expired(11, r.started.token, 5));
    assert_eq!(h.channel_info(11), Some(ChannelInfo { owner_id: USER, delete_task: None }));
}

#[test]
fn second_creator_join_replaces_channel() {
    let mut h = Handler::new(CREATOR, WAITING);
    h.channel_created(11, USER);
    let plan = h.begin_creator_join(Some(CREATOR), manage(), USER);
    assert_eq!(plan, JoinPlan::Proceed { replace: Some(11) });
    assert!(h.replacement_deleted(USER, 11, true));
    assert!(!h.is_tracked(11));
    assert!(h.may_record(12, USER));
    h.channel_created(12, USER);
    assert_eq!(h.get_user_channel(USER), Some(12));
}

#[test]
fn failed_replacement_keeps_old_channel_and_creates_none() {
    let mut h = Handler::new(CREATOR, WAITING);
    h.channel_created(11, USER);
    assert_eq!(
        h.begin_creator_join(Some(CREATOR), manage(), USER),
        JoinPlan::Proceed { replace: Some(11) }
    );
    assert!(!h.replacement_deleted(USER, 11, false));
    assert!(h.is_tracked(11));
    assert_eq!(h.get_user_channel(USER), Some(11));
    assert!(!h.may_record(12, USER));
    assert!(!h.is_tracked(12));
}

#[test]
fn repeated_creator_joins_leave_one_channel_per_user() {
    let mut h = Handler::new(CREATOR, WAITING);
    h.channel_created(11, USER);
    h.channel_created(21, OTHER);
    let mut current: u64 = 11;
    for next in 12..15u64 {
        match h.begin_creator_join(Some(CREATOR), manage(), USER) {
            JoinPlan::Proceed { replace: Some(old) } => {
                assert_eq!(old, current);
                assert!(h.replacement_deleted(USER, old, true));
            }
            other => panic!("unexpected plan {:?}", other),
        }
        assert!(h.may_record(next, USER));
        h.channel_created(next, USER);
        current = next;
        assert_eq!(h.get_user_channel(USER), Some(next));
    }
    assert_eq!(h.get_user_channel(OTHER), Some(21));
    assert!(!h.is_tracked(11));
    assert!(!h.is_tracked(13));
    assert!(!h.may_record(21, 9));
}

#[test]
fn occupied_channel_starts_no_countdown() {
    let mut h = Handler::new(CREATOR, WAITING);
    h.channel_created(11, USER);
    assert_eq!(h.channel_emptied(11, 2, 0), None);
    assert_eq!(h.channel_info(11).unwrap().delete_task, None);
    assert_eq!(h.next_token(), 0);
    assert!(h.channel_emptied(11, 0, 0).is_some());
    assert_eq!(h.next_token(), 1);
}

#[test]
fn refilling_before_grace_period_never_deletes() {
    let mut h = Handler::new(CREATOR, WAITING);
    h.channel_created(11, USER);
    let mut t: u64 = 0;
    while t < 20 {
        let r = h.channel_emptied(11, 0, t).unwrap();
        h.channel_joined(11);
        assert!(!h.countdown_expired(11, r.started.token, t + GRACE_PERIOD));
        t += 3;
    }
    assert!(h.is_tracked(11));
}

#[test]
fn rescheduling_keeps_one_live_countdown() {
    let mut h = Handler::new(CREATOR, WAITING);
    h.channel_created(11, USER);
    let first = h.channel_emptied(11, 0, 0).unwrap();
    let second = h.channel_emptied(11, 0, 3).unwrap();
    assert_eq!(second.cancelled, Some(first.started.token));
    assert_ne!(first.started.token, second.started.token);
    assert_eq!(h.channel_info(11).unwrap().delete_task, Some(second.started));
    assert!(!h.countdown_expired(11, first.started.token, 100));
    assert!(!h.countdown_expired(11, second.started.token, 7));
    assert!(h.countdown_expired(11, second.started.token, 8));
    assert!(!h.countdown_expired(11, second.started.token, 9));
}

#[test]
fn failed_delete_keeps_owner_channel() {
    let mut h = Handler::new(CREATOR, WAITING);
    h.channel_created(11, USER);
    let r = h.channel_emptied(11, 0, 0).unwrap();
    assert!(h.countdown_expired(11, r.started.token, 6));
    assert_eq!(h.channel_deleted(11, false), None);
    assert_eq!(h.get_user_channel(USER), Some(11));
    assert_eq!(h.channel_info(11).unwrap().delete_task, None);
}

#[test]
fn denied_gate_creates_nothing() {
    let h = Handler::new(CREATOR, WAITING);
    let no_manage = Some(caps(true, true, false, true, true));
    for _ in 0..3 {
        assert_eq!(h.begin_creator_join(Some(CREATOR), no_manage, USER), JoinPlan::Denied);
        assert_eq!(h.begin_creator_join(Some(CREATOR), None, USER), JoinPlan::Denied);
    }
    assert!(!h.user_has_channel(USER));
}

#[test]
fn other_channels_are_ignored() {
    let h = Handler::new(CREATOR, WAITING);
    assert_eq!(h.begin_creator_join(Some(5), manage(), USER), JoinPlan::Ignore);
    assert_eq!(h.begin_creator_join(None, manage(), USER), JoinPlan::Ignore);
}

#[test]
fn classify_sorts_phases() {
    let mut h = Handler::new(CREATOR, WAITING);
    h.channel_created(11, USER);
    assert_eq!(
        h.classify(Some(11), Some(CREATOR)),
        Phases { creator_join: true, leave_tracked: Some(11), join_tracked: None }
    );
    assert_eq!(
        h.classify(Some(CREATOR), Some(11)),
        Phases { creator_join: false, leave_tracked: None, join_tracked: Some(11) }
    );
    assert_eq!(
        h.classify(Some(CREATOR), None),
        Phases { creator_join: false, leave_tracked: None, join_tracked: None }
    );
}

#[test]
fn untracked_events_change_nothing() {
    let mut h = Handler::new(CREATOR, WAITING);
    assert_eq!(h.channel_emptied(11, 0, 0), None);
    assert_eq!(h.channel_joined(11), None);
    assert!(!h.countdown_expired(11, 0, 10));
    assert_eq!(h.channel_deleted(11, true), None);
    assert!(!h.is_tracked(11));
}

#[test]
fn deadline_saturates() {
    let mut h = Handler::new(CREATOR, WAITING);
    h.channel_created(11, USER);
    let r = h.channel_emptied(11, 0, u64::MAX - 2).unwrap();
    assert_eq!(r, Reschedule { cancelled: None, started: Countdown { token: 0, deadline: u64::MAX } });
}

#[test]
fn configured_policy_and_grace_period() {
    let mut h = Handler::with_policy(CREATOR, WAITING, OverlayPolicy::Standard, 30);
    assert_eq!(h.policy(), OverlayPolicy::Standard);
    assert_eq!(h.grace_period(), 30);
    assert_eq!(h.creator_channel_id(), CREATOR);
    assert_eq!(h.waiting_room_id(), WAITING);
    h.channel_created(11, USER);
    assert_eq!(h.channel_emptied(11, 0, 10).unwrap().started.deadline, 40);
    let p = h.plan_creation(Some("Nick".to_string()), "acct".to_string(), None);
    assert_eq!(p.name, "Nick");
    assert_eq!(p.parent, None);
    assert!(p.waiting_room_grant.is_none());
    assert!(p.overlay[1].allow.move_members);
}

#[test]
fn hardened_plan_grants_move_on_waiting_room_only() {
    let h = Handler::new(CREATOR, WAITING);
    let p = h.plan_creation(None, "acct".to_string(), None);
    let (room, g) = p.waiting_room_grant.unwrap();
    assert_eq!(room, WAITING);
    assert_eq!(g.subject, Subject::Owner);
    assert_eq!(g.allow, caps(false, true, false, false, false));
    assert!(!p.overlay[1].allow.move_members);
    assert!(p.overlay[0].deny.move_members);
}

#[test]
fn overlay_tables() {
    let standard = access_overlay(OverlayPolicy::Standard);
    assert_eq!(standard.len(), 3);
    assert_eq!(
        standard[0],
        Grant {
            subject: Subject::Everyone,
            allow: caps(false, false, false, false, false),
            deny: caps(true, false, false, false, false),
        }
    );
    assert_eq!(standard[1].allow, caps(true, true, true, true, true));
    assert_eq!(standard[2].subject, Subject::Agent);
    assert_eq!(standard[2].allow, caps(true, true, true, false, false));
    let hardened = access_overlay(OverlayPolicy::Hardened);
    assert_eq!(hardened[0].deny, caps(true, true, false, false, false));
    assert_eq!(hardened[1].allow, caps(true, false, true, true, true));
    assert_eq!(waiting_room_grant(OverlayPolicy::Standard), None);
}

#[test]
fn gate_and_name() {
    assert!(check_permissions(manage()));
    assert!(!check_permissions(None));
    assert!(!check_permissions(Some(caps(true, true, false, true, true))));
    assert_eq!(temp_channel_name(Some("Nick".to_string()), "acct".to_string()), "Nick");
    assert_eq!(temp_channel_name(None, "acct".to_string()), "acct");
}

#[test]
fn registry_operations() {
    let mut r = Registry::new();
    assert!(!r.exists_for_owner(USER));
    r.insert(1, ChannelInfo { owner_id: USER, delete_task: None });
    r.insert(2, ChannelInfo { owner_id: OTHER, delete_task: None });
    assert!(r.contains(1));
    assert_eq!(r.find_by_owner(OTHER), Some(2));
    let c = Countdown { token: 9, deadline: 14 };
    assert!(r.set_delete_task(2, Some(c)));
    assert!(!r.set_delete_task(3, Some(c)));
    assert_eq!(r.get(2), Some(ChannelInfo { owner_id: OTHER, delete_task: Some(c) }));
    assert_eq!(r.remove(1), Some(ChannelInfo { owner_id: USER, delete_task: None }));
    r.insert(3, ChannelInfo { owner_id: USER, delete_task: None });
    assert!(!r.contains(1));
    assert_eq!(r.find_by_owner(USER), Some(3));
    assert_eq!(r.remove(3), Some(ChannelInfo { owner_id: USER, delete_task: None }));
    assert_eq!(r.remove(3), None);
    assert!(!r.exists_for_owner(USER));
    assert!(r.exists_for_owner(OTHER));
}
