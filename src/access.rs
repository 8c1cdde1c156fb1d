use vstd::prelude::*;

verus! {

/// The channel capabilities that the access policy grants or denies.
#[derive(Clone, Copy, Debug, PartialEq, Eq, Structural)]
pub struct CapSet {
    pub connect: bool,
    pub move_members: bool,
    pub manage_channels: bool,
    pub mute_members: bool,
    pub deafen_members: bool,
}

/// Who a grant of the access overlay applies to.
#[derive(Clone, Copy, Debug, PartialEq, Eq, Structural)]
pub enum Subject {
    /// The group's default role, that is, everyone.
    Everyone,
    /// The user the channel is made for.
    Owner,
    /// The managing agent itself.
    Agent,
}

/// One row of an access overlay: what `subject` is allowed and denied.
#[derive(Clone, Copy, Debug, PartialEq, Eq, Structural)]
pub struct Grant {
    pub subject: Subject,
    pub allow: CapSet,
    pub deny: CapSet,
}

/// Where the owner's right to move members applies.
#[derive(Clone, Copy, Debug, PartialEq, Eq, Structural)]
pub enum OverlayPolicy {
    /// On the owner's own channel.
    Standard,
    /// Only on the waiting room, by a separate grant; nobody but the agent may
    /// move members on the new channel.
    Hardened,
}

pub open spec fn spec_no_caps() -> CapSet {
    CapSet {
        connect: false,
        move_members: false,
        manage_channels: false,
        mute_members: false,
        deafen_members: false,
    }
}

/// Row for everyone: the channel is private.
pub open spec fn spec_everyone_grant(policy: OverlayPolicy) -> Grant {
    Grant {
        subject: Subject::Everyone,
        allow: spec_no_caps(),
        deny: CapSet {
            connect: true,
            move_members: policy == OverlayPolicy::Hardened,
            manage_channels: false,
            mute_members: false,
            deafen_members: false,
        },
    }
}

/// Row for the owner.
pub open spec fn spec_owner_grant(policy: OverlayPolicy) -> Grant {
    Grant {
        subject: Subject::Owner,
        allow: CapSet {
            connect: true,
            move_members: policy == OverlayPolicy::Standard,
            manage_channels: true,
            mute_members: true,
            deafen_members: true,
        },
        deny: spec_no_caps(),
    }
}

/// Row for the managing agent, which later moves the owner in and deletes the
/// channel.
pub open spec fn spec_agent_grant() -> Grant {
    Grant {
        subject: Subject::Agent,
        allow: CapSet {
            connect: true,
            move_members: true,
            manage_channels: true,
            mute_members: false,
            deafen_members: false,
        },
        deny: spec_no_caps(),
    }
}

/// The narrow grant on the waiting room: the owner may move members only.
pub open spec fn spec_waiting_room_grant() -> Grant {
    Grant {
        subject: Subject::Owner,
        allow: CapSet {
            connect: false,
            move_members: true,
            manage_channels: false,
            mute_members: false,
            deafen_members: false,
        },
        deny: spec_no_caps(),
    }
}

pub open spec fn spec_access_overlay(policy: OverlayPolicy) -> Seq<Grant> {
    seq![spec_everyone_grant(policy), spec_owner_grant(policy), spec_agent_grant()]
}

pub fn no_caps() -> (r: CapSet)
    ensures
        r == spec_no_caps(),
{
    CapSet {
        connect: false,
        move_members: false,
        manage_channels: false,
        mute_members: false,
        deafen_members: false,
    }
}

/// The overlay applied to a new temporary channel, one row per subject.
pub fn access_overlay(policy: OverlayPolicy) -> (r: Vec<Grant>)
    ensures
        r@ == spec_access_overlay(policy),
{
    let hardened = match policy {
        OverlayPolicy::Hardened => true,
        OverlayPolicy::Standard => false,
    };
    let everyone = Grant {
        subject: Subject::Everyone,
        allow: no_caps(),
        deny: CapSet {
            connect: true,
            move_members: hardened,
            manage_channels: false,
            mute_members: false,
            deafen_members: false,
        },
    };
    let owner = Grant {
        subject: Subject::Owner,
        allow: CapSet {
            connect: true,
            move_members: !hardened,
            manage_channels: true,
            mute_members: true,
            deafen_members: true,
        },
        deny: no_caps(),
    };
    let agent = Grant {
        subject: Subject::Agent,
        allow: CapSet {
            connect: true,
            move_members: true,
            manage_channels: true,
            mute_members: false,
            deafen_members: false,
        },
        deny: no_caps(),
    };
    let r = vec![everyone, owner, agent];
    assert(r@ =~= spec_access_overlay(policy));
    r
}

/// The extra grant on the waiting room that the policy calls for, if any.
pub fn waiting_room_grant(policy: OverlayPolicy) -> (r: Option<Grant>)
    ensures
        r == (if policy == OverlayPolicy::Hardened {
            Some(spec_waiting_room_grant())
        } else {
            None::<Grant>
        }),
{
    match policy {
        OverlayPolicy::Hardened => Some(
            Grant {
                subject: Subject::Owner,
                allow: CapSet {
                    connect: false,
                    move_members: true,
                    manage_channels: false,
                    mute_members: false,
                    deafen_members: false,
                },
                deny: no_caps(),
            },
        ),
        OverlayPolicy::Standard => None,
    }
}

pub open spec fn spec_gate(effective: Option<CapSet>) -> bool {
    effective is Some && effective->0.manage_channels
}

/// The permission gate: the agent may act only when its effective
/// capabilities in the group could be resolved and include channel
/// management. A failed resolution counts as a denial.
pub fn check_permissions(effective: Option<CapSet>) -> (r: bool)
    ensures
        r == spec_gate(effective),
{
    match effective {
        Some(caps) => caps.manage_channels,
        None => false,
    }
}

/// Name of a new temporary channel: the owner's display name in the group,
/// or the account name where that could not be resolved.
pub fn temp_channel_name(display_name: Option<String>, account_name: String) -> (r: String)
    ensures
        r@ == (match display_name {
            Some(d) => d@,
            None => account_name@,
        }),
{
    match display_name {
        Some(d) => d,
        None => account_name,
    }
}

} // verus!
