use vstd::prelude::*;

verus! {

/// A running deletion countdown: the token that identifies it and the time at
/// which it is due.
#[derive(Clone, Copy, Debug, PartialEq, Eq, Structural)]
pub struct Countdown {
    pub token: u64,
    pub deadline: u64,
}

/// What is known of one temporary channel: who caused its creation, and the
/// deletion countdown that is running for it, if any.
#[derive(Clone, Copy, Debug, PartialEq, Eq, Structural)]
pub struct ChannelInfo {
    pub owner_id: u64,
    pub delete_task: Option<Countdown>,
}

/// Some channel of `m` is owned by `owner`.
pub open spec fn owned_by(m: Map<u64, ChannelInfo>, owner: u64) -> bool {
    exists|id: u64| #[trigger] m.contains_key(id) && m[id].owner_id == owner
}

/// No two channels of `m` share an owner.
pub open spec fn owners_unique(m: Map<u64, ChannelInfo>) -> bool {
    forall|a: u64, b: u64|
        #[trigger] m.contains_key(a) && #[trigger] m.contains_key(b) && m[a].owner_id
            == m[b].owner_id ==> a == b
}

/// `m` with the countdown of channel `id` set to `task`; unchanged where `id`
/// is not tracked.
pub open spec fn with_task(m: Map<u64, ChannelInfo>, id: u64, task: Option<Countdown>) -> Map<
    u64,
    ChannelInfo,
> {
    if m.contains_key(id) {
        m.insert(id, ChannelInfo { owner_id: m[id].owner_id, delete_task: task })
    } else {
        m
    }
}

struct Slot {
    id: u64,
    info: ChannelInfo,
}

/// The channels under management, keyed by channel identity.
pub struct Registry {
    slots: Vec<Slot>,
    model: Ghost<Map<u64, ChannelInfo>>,
}

impl View for Registry {
    type V = Map<u64, ChannelInfo>;

    closed spec fn view(&self) -> Map<u64, ChannelInfo> {
        self.model@
    }
}

impl Registry {
    /// The slots hold distinct keys, they agree with the model, and no owner
    /// has two channels.
    pub closed spec fn wf(&self) -> bool {
        &&& forall|i: int, j: int|
            0 <= i < self.slots@.len() && 0 <= j < self.slots@.len() && i != j
                ==> #[trigger] self.slots@[i].id != #[trigger] self.slots@[j].id
        &&& forall|i: int|
            0 <= i < self.slots@.len() ==> self.model@.contains_key(#[trigger] self.slots@[i].id)
                && self.model@[self.slots@[i].id] == self.slots@[i].info
        &&& forall|k: u64|
            #[trigger] self.model@.contains_key(k) ==> exists|i: int|
                0 <= i < self.slots@.len() && #[trigger] self.slots@[i].id == k
        &&& owners_unique(self.model@)
    }

    /// Every well-formed registry has at most one channel per owner.
    pub proof fn lemma_single_owner(&self)
        requires
            self.wf(),
        ensures
            owners_unique(self@),
    {
    }

    pub fn new() -> (r: Registry)
        ensures
            r.wf(),
            r@ == Map::<u64, ChannelInfo>::empty(),
    {
        Registry { slots: Vec::new(), model: Ghost(Map::empty()) }
    }

    fn index_of(&self, id: u64) -> (r: Option<usize>)
        requires
            self.wf(),
        ensures
            match r {
                Some(i) => i < self.slots@.len() && self.slots@[i as int].id == id,
                None => !self@.contains_key(id),
            },
    {
        let mut i: usize = 0;
        while i < self.slots.len()
            invariant
                self.wf(),
                i <= self.slots@.len(),
                forall|j: int| 0 <= j < i ==> self.slots@[j].id != id,
            decreases self.slots@.len() - i,
        {
            if self.slots[i].id == id {
                return Some(i);
            }
            i = i + 1;
        }
        None
    }

    fn index_of_owner(&self, owner: u64) -> (r: Option<usize>)
        requires
            self.wf(),
        ensures
            match r {
                Some(i) => i < self.slots@.len() && self.slots@[i as int].info.owner_id == owner,
                None => !owned_by(self@, owner),
            },
    {
        let mut i: usize = 0;
        while i < self.slots.len()
            invariant
                self.wf(),
                i <= self.slots@.len(),
                forall|j: int| 0 <= j < i ==> self.slots@[j].info.owner_id != owner,
            decreases self.slots@.len() - i,
        {
            if self.slots[i].info.owner_id == owner {
                return Some(i);
            }
            i = i + 1;
        }
        None
    }

    fn remove_at(&mut self, i: usize)
        requires
            old(self).wf(),
            i < old(self).slots@.len(),
        ensures
            final(self).wf(),
            final(self)@ == old(self)@.remove(old(self).slots@[i as int].id),
    {
        let ghost key = self.slots@[i as int].id;
        let ghost old_slots = self.slots@;
        self.slots.remove(i);
        self.model = Ghost(self.model@.remove(key));
        assert forall|k: u64| #[trigger] self.model@.contains_key(k) implies exists|j: int|
            0 <= j < self.slots@.len() && #[trigger] self.slots@[j].id == k by {
            let j = choose|j: int| 0 <= j < old_slots.len() && #[trigger] old_slots[j].id == k;
            if j < i {
                assert(self.slots@[j].id == k);
            } else {
                assert(self.slots@[j - 1].id == k);
            }
        }
        assert forall|a: int, b: int|
            0 <= a < self.slots@.len() && 0 <= b < self.slots@.len() && a != b
                implies #[trigger] self.slots@[a].id != #[trigger] self.slots@[b].id by {
            let oa = if a < i { a } else { a + 1 };
            let ob = if b < i { b } else { b + 1 };
            assert(self.slots@[a] == old_slots[oa]);
            assert(self.slots@[b] == old_slots[ob]);
        }
        assert forall|a: int| 0 <= a < self.slots@.len() implies self.model@.contains_key(
            #[trigger] self.slots@[a].id,
        ) && self.model@[self.slots@[a].id] == self.slots@[a].info by {
            let oa = if a < i { a } else { a + 1 };
            assert(self.slots@[a] == old_slots[oa]);
            assert(old_slots[oa].id != old_slots[i as int].id);
        }
    }

    /// Whether channel `id` is tracked.
    pub fn contains(&self, id: u64) -> (r: bool)
        requires
            self.wf(),
        ensures
            r == self@.contains_key(id),
    {
        self.index_of(id).is_some()
    }

    /// The record of channel `id`, if it is tracked.
    pub fn get(&self, id: u64) -> (r: Option<ChannelInfo>)
        requires
            self.wf(),
        ensures
            r == (if self@.contains_key(id) { Some(self@[id]) } else { None::<ChannelInfo> }),
    {
        match self.index_of(id) {
            Some(i) => Some(self.slots[i].info),
            None => None,
        }
    }

    /// The channel that `owner` owns, if any.
    pub fn find_by_owner(&self, owner: u64) -> (r: Option<u64>)
        requires
            self.wf(),
        ensures
            match r {
                Some(id) => self@.contains_key(id) && self@[id].owner_id == owner,
                None => !owned_by(self@, owner),
            },
    {
        match self.index_of_owner(owner) {
            Some(i) => Some(self.slots[i].id),
            None => None,
        }
    }

    /// Whether `owner` owns a tracked channel.
    pub fn exists_for_owner(&self, owner: u64) -> (r: bool)
        requires
            self.wf(),
        ensures
            r == owned_by(self@, owner),
    {
        match self.index_of_owner(owner) {
            Some(i) => {
                assert(self@.contains_key(self.slots@[i as int].id));
                true
            },
            None => false,
        }
    }

    /// Stops tracking channel `id` and hands back its record.
    pub fn remove(&mut self, id: u64) -> (r: Option<ChannelInfo>)
        requires
            old(self).wf(),
        ensures
            final(self).wf(),
            final(self)@ == old(self)@.remove(id),
            r == (if old(self)@.contains_key(id) {
                Some(old(self)@[id])
            } else {
                None::<ChannelInfo>
            }),
    {
        match self.index_of(id) {
            Some(i) => {
                let info = self.slots[i].info;
                self.remove_at(i);
                Some(info)
            },
            None => {
                assert(self.model@.remove(id) =~= self.model@);
                None
            },
        }
    }

    /// Tracks the new channel `id` with record `info`. The channel must not be
    /// tracked yet, and its owner must own no other channel.
    pub fn insert(&mut self, id: u64, info: ChannelInfo)
        requires
            old(self).wf(),
            !old(self)@.contains_key(id),
            !owned_by(old(self)@, info.owner_id),
        ensures
            final(self).wf(),
            final(self)@ == old(self)@.insert(id, info),
    {
        let ghost old_slots = self.slots@;
        self.slots.push(Slot { id, info });
        self.model = Ghost(self.model@.insert(id, info));
        assert forall|k: u64| #[trigger] self.model@.contains_key(k) implies exists|j: int|
            0 <= j < self.slots@.len() && #[trigger] self.slots@[j].id == k by {
            if k != id {
                let j = choose|j: int| 0 <= j < old_slots.len() && #[trigger] old_slots[j].id == k;
                assert(self.slots@[j].id == k);
            } else {
                assert(self.slots@[old_slots.len() as int].id == k);
            }
        }
        assert forall|a: int, b: int|
            0 <= a < self.slots@.len() && 0 <= b < self.slots@.len() && a != b
                implies #[trigger] self.slots@[a].id != #[trigger] self.slots@[b].id by {
            if a < old_slots.len() && b < old_slots.len() {
                assert(self.slots@[a] == old_slots[a]);
                assert(self.slots@[b] == old_slots[b]);
            } else if a < old_slots.len() {
                assert(self.slots@[a] == old_slots[a]);
                assert(self.model@.contains_key(old_slots[a].id));
            } else {
                assert(self.slots@[b] == old_slots[b]);
                assert(self.model@.contains_key(old_slots[b].id));
            }
        }
    }

    /// Sets the countdown of channel `id` to `task`, if `id` is tracked;
    /// returns whether it is.
    pub fn set_delete_task(&mut self, id: u64, task: Option<Countdown>) -> (r: bool)
        requires
            old(self).wf(),
        ensures
            final(self).wf(),
            final(self)@ == with_task(old(self)@, id, task),
            r == old(self)@.contains_key(id),
    {
        match self.index_of(id) {
            Some(i) => {
                let ghost old_slots = self.slots@;
                let owner_id = self.slots[i].info.owner_id;
                let info = ChannelInfo { owner_id, delete_task: task };
                self.slots.set(i, Slot { id, info });
                self.model = Ghost(self.model@.insert(id, info));
                assert forall|a: int| 0 <= a < self.slots@.len() implies self.model@.contains_key(
                    #[trigger] self.slots@[a].id,
                ) && self.model@[self.slots@[a].id] == self.slots@[a].info by {
                    if a != i {
                        assert(old_slots[a].id != old_slots[i as int].id);
                    }
                }
                assert forall|k: u64| #[trigger] self.model@.contains_key(k) implies exists|j: int|
                    0 <= j < self.slots@.len() && #[trigger] self.slots@[j].id == k by {
                    let j = choose|j: int| 0 <= j < old_slots.len() && #[trigger] old_slots[j].id == k;
                    assert(self.slots@[j].id == k);
                }
                true
            },
            None => false,
        }
    }
}

} // verus!
