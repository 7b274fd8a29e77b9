//! The durable state of one contract instance: two tiers behind one store.
//!
//! The persistent tier holds the ownership record under its one key; the
//! instance tier holds one balance record per depositor. A read never
//! writes: an absent record is answered by its default, and only `*_set`
//! changes what is stored.

use vstd::prelude::*;
use crate::identity::Identity;
use crate::storage::{
    default_ownership, default_user_info, Ownership, OwnershipView, StorageClient, UserInfo,
    UserInfoRegistry, UserInfoView,
};

verus! {

/// What a [`Ledger`] holds.
pub struct LedgerView {
    /// The contract's own identity.
    pub contract: Seq<char>,
    /// The stored ownership record, if one was ever written.
    pub ownership: Option<OwnershipView>,
    /// The stored balance records, by depositor.
    pub users: Map<Seq<char>, UserInfoView>,
}

impl LedgerView {
    /// The ledger of a contract that nobody has called yet: both tiers are
    /// empty.
    pub open spec fn fresh(contract: Seq<char>) -> LedgerView {
        LedgerView { contract: contract, ownership: None, users: Map::empty() }
    }

    /// The ownership record as a reader sees it: the stored one, or the
    /// default while none is stored.
    pub open spec fn globals(self) -> OwnershipView {
        match self.ownership {
            Some(record) => record,
            None => default_ownership(self.contract),
        }
    }

    /// The balance record of `user` as a reader sees it: the stored one, or
    /// the default while none is stored.
    pub open spec fn user_info(self, user: Seq<char>) -> UserInfoView {
        if self.users.dom().contains(user) {
            self.users[user]
        } else {
            default_user_info(user)
        }
    }

    /// The data-model invariant of the ownership record: as long as it is
    /// not initialized, owner and asset are the contract itself.
    pub open spec fn consistent(self) -> bool {
        !self.globals().initialized ==> self.globals() == default_ownership(self.contract)
    }
}

/// One entry of the instance tier.
#[derive(Clone, Debug)]
struct Slot {
    key: UserInfoRegistry,
    record: UserInfo,
}

/// The state of one contract instance.
#[derive(Debug)]
pub struct Ledger {
    contract: Identity,
    persistent: Option<Ownership>,
    instance: Vec<Slot>,
}

spec fn slots_map(slots: Seq<Slot>) -> Map<Seq<char>, UserInfoView>
    decreases slots.len(),
{
    if slots.len() == 0 {
        Map::empty()
    } else {
        slots_map(slots.drop_last()).insert(slots.last().key@, slots.last().record@)
    }
}

spec fn distinct_keys(slots: Seq<Slot>) -> bool {
    forall|i: int, j: int| 0 <= i < j < slots.len() ==> slots[i].key@ != slots[j].key@
}

proof fn lemma_slots_dom(slots: Seq<Slot>, key: Seq<char>)
    ensures
        slots_map(slots).dom().contains(key) <==> exists|i: int|
            0 <= i < slots.len() && #[trigger] slots[i].key@ == key,
    decreases slots.len(),
{
    if slots.len() > 0 {
        let front = slots.drop_last();
        lemma_slots_dom(front, key);
        if slots_map(slots).dom().contains(key) {
            if slots.last().key@ == key {
                assert(slots[slots.len() - 1].key@ == key);
            } else {
                let i = choose|i: int| 0 <= i < front.len() && #[trigger] front[i].key@ == key;
                assert(slots[i].key@ == key);
            }
        }
        if exists|i: int| 0 <= i < slots.len() && #[trigger] slots[i].key@ == key {
            let i = choose|i: int| 0 <= i < slots.len() && #[trigger] slots[i].key@ == key;
            if i < slots.len() - 1 {
                assert(front[i].key@ == key);
            }
        }
    }
}

proof fn lemma_slots_lookup(slots: Seq<Slot>, i: int)
    requires
        distinct_keys(slots),
        0 <= i < slots.len(),
    ensures
        slots_map(slots).dom().contains(slots[i].key@),
        slots_map(slots)[slots[i].key@] == slots[i].record@,
    decreases slots.len(),
{
    let front = slots.drop_last();
    if i < slots.len() - 1 {
        assert(distinct_keys(front)) by {
            assert forall|a: int, b: int| 0 <= a < b < front.len() implies front[a].key@
                != front[b].key@ by {
                assert(slots[a].key@ != slots[b].key@);
            }
        }
        lemma_slots_lookup(front, i);
        assert(front[i] == slots[i]);
        assert(slots[i].key@ != slots[slots.len() - 1].key@);
    }
}

proof fn lemma_slots_update(slots: Seq<Slot>, i: int, slot: Slot)
    requires
        distinct_keys(slots),
        0 <= i < slots.len(),
        slot.key@ == slots[i].key@,
    ensures
        distinct_keys(slots.update(i, slot)),
        slots_map(slots.update(i, slot)) == slots_map(slots).insert(slot.key@, slot.record@),
    decreases slots.len(),
{
    let after = slots.update(i, slot);
    assert(distinct_keys(after)) by {
        assert forall|a: int, b: int| 0 <= a < b < after.len() implies after[a].key@
            != after[b].key@ by {
            assert(slots[a].key@ != slots[b].key@);
        }
    }
    let front = slots.drop_last();
    if i == slots.len() - 1 {
        assert(after.drop_last() == front);
        assert(slots_map(after) == slots_map(slots).insert(slot.key@, slot.record@));
    } else {
        assert(distinct_keys(front)) by {
            assert forall|a: int, b: int| 0 <= a < b < front.len() implies front[a].key@
                != front[b].key@ by {
                assert(slots[a].key@ != slots[b].key@);
            }
        }
        lemma_slots_update(front, i, slot);
        assert(after.drop_last() == front.update(i, slot));
        assert(after.last() == slots.last());
        assert(slots[i].key@ != slots[slots.len() - 1].key@);
        assert(slots_map(after) == slots_map(slots).insert(slot.key@, slot.record@));
    }
}

impl View for Ledger {
    type V = LedgerView;

    closed spec fn view(&self) -> LedgerView {
        LedgerView {
            contract: self.contract@,
            ownership: match self.persistent {
                Some(record) => Some(record@),
                None => None,
            },
            users: slots_map(self.instance@),
        }
    }
}

impl Ledger {
    /// No depositor has two records.
    #[verifier::type_invariant]
    spec fn distinct(&self) -> bool {
        distinct_keys(self.instance@)
    }

    /// The state of a contract that nobody has called yet: both tiers are
    /// empty.
    pub fn new(contract: Identity) -> (ledger: Ledger)
        ensures
            ledger@ == LedgerView::fresh(contract@),
    {
        Ledger { contract, persistent: None, instance: Vec::new() }
    }

    /// The contract's own identity.
    pub fn contract(&self) -> (contract: &Identity)
        ensures
            contract@ == self@.contract,
    {
        &self.contract
    }

    /// Reads the persistent tier.
    pub fn persistent_get(&self) -> (stored: Option<&Ownership>)
        ensures
            match stored {
                Some(record) => self@.ownership == Some(record@),
                None => self@.ownership is None,
            },
    {
        self.persistent.as_ref()
    }

    /// Writes the persistent tier; the instance tier is not touched.
    pub fn persistent_set(&mut self, record: Ownership)
        ensures
            final(self)@ == (LedgerView { ownership: Some(record@), ..old(self)@ }),
    {
        proof {
            use_type_invariant(&*self);
        }
        self.persistent = Some(record);
    }

    /// The place of `key` in the instance tier.
    fn position(&self, key: &UserInfoRegistry) -> (at: Option<usize>)
        ensures
            match at {
                Some(i) => i < self.instance@.len() && self.instance@[i as int].key@ == key@,
                None => forall|i: int|
                    0 <= i < self.instance@.len() ==> self.instance@[i].key@ != key@,
            },
    {
        let mut i: usize = 0;
        while i < self.instance.len()
            invariant
                i <= self.instance@.len(),
                forall|j: int| 0 <= j < i ==> self.instance@[j].key@ != key@,
            decreases self.instance@.len() - i,
        {
            if self.instance[i].key.user().same(key.user()) {
                return Some(i);
            }
            i += 1;
        }
        None
    }

    /// Reads the instance tier.
    pub fn instance_get(&self, key: &UserInfoRegistry) -> (stored: Option<&UserInfo>)
        ensures
            match stored {
                Some(record) => self@.users.dom().contains(key@) && self@.users[key@] == record@,
                None => !self@.users.dom().contains(key@),
            },
    {
        proof {
            use_type_invariant(self);
            lemma_slots_dom(self.instance@, key@);
        }
        match self.position(key) {
            Some(i) => {
                proof {
                    lemma_slots_lookup(self.instance@, i as int);
                }
                Some(&self.instance[i].record)
            },
            None => None,
        }
    }

    /// Writes the instance tier: the record under `key` is now `record`,
    /// every other record and the persistent tier are as before.
    pub fn instance_set(&mut self, key: UserInfoRegistry, record: UserInfo)
        ensures
            final(self)@ == (LedgerView {
                users: old(self)@.users.insert(key@, record@),
                ..old(self)@
            }),
    {
        proof {
            use_type_invariant(&*self);
        }
        let at = self.position(&key);
        let slot = Slot { key, record };
        let ghost before = self.instance@;
        let mut slots: Vec<Slot> = Vec::new();
        core::mem::swap(&mut self.instance, &mut slots);
        match at {
            Some(i) => {
                proof {
                    lemma_slots_update(before, i as int, slot);
                }
                slots.set(i, slot);
            },
            None => {
                slots.push(slot);
                assert(slots@.drop_last() == before);
            },
        }
        self.instance = slots;
    }

    /// Loads the ownership record, or makes the default if none is stored;
    /// the flag says whether one was stored.
    pub fn load_ownership(&self) -> (loaded: (Ownership, bool))
        ensures
            loaded.0@ == self@.globals(),
            loaded.1 == (self@.ownership is Some),
    {
        match &self.persistent {
            Some(record) => (record.duplicate(), true),
            None => (StorageClient::get_default_ownership(self.contract.duplicate()), false),
        }
    }

    /// Loads the balance record of `user`, or makes the default if none is
    /// stored; the flag says whether one was stored.
    pub fn load_user_info(&self, user: &Identity) -> (loaded: (UserInfo, bool))
        ensures
            loaded.0@ == self@.user_info(user@),
            loaded.1 == self@.users.dom().contains(user@),
    {
        let key = UserInfoRegistry::UserInfos(user.duplicate());
        match self.instance_get(&key) {
            Some(record) => (record.duplicate(), true),
            None => (StorageClient::get_default_user_info(user.duplicate()), false),
        }
    }
}

} // verus!
