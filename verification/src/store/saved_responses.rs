//! The table of idempotency keys and of the responses saved under them.

use vstd::prelude::*;
use crate::http::{Response, ResponseView};
use crate::idempotency::{
    action_for, after_claim, after_save, next_action, saved_under, IdempotencyKey, NextAction,
};
use crate::text::same_text;

verus! {

/// One idempotency key of one user, with the response saved under it,
/// if the request that holds the key has saved one yet.
pub struct Slot {
    user_id: u128,
    key: String,
    response: Option<Response>,
}

/// The table of idempotency keys. No key of a user occurs twice.
pub struct SavedResponses {
    slots: Vec<Slot>,
}

/// What a slot holds: nothing yet, or a response.
pub open spec fn response_view(response: Option<Response>) -> Option<ResponseView> {
    match response {
        Some(r) => Some(r@),
        None => None,
    }
}

impl Slot {
    spec fn id(self) -> (u128, Seq<char>) {
        (self.user_id, self.key@)
    }
}

spec fn has_slot(slots: Seq<Slot>, id: (u128, Seq<char>)) -> bool {
    exists|i: int| 0 <= i < slots.len() && (#[trigger] slots[i]).id() == id
}

spec fn slot_index(slots: Seq<Slot>, id: (u128, Seq<char>)) -> int {
    choose|i: int| 0 <= i < slots.len() && (#[trigger] slots[i]).id() == id
}

spec fn distinct_slots(slots: Seq<Slot>) -> bool {
    forall|i: int, j: int|
        0 <= i < j < slots.len() ==> (#[trigger] slots[i]).id() != (#[trigger] slots[j]).id()
}

spec fn slots_map(slots: Seq<Slot>) -> Map<(u128, Seq<char>), Option<ResponseView>> {
    Map::new(
        |id: (u128, Seq<char>)| has_slot(slots, id),
        |id: (u128, Seq<char>)| response_view(slots[slot_index(slots, id)].response),
    )
}

proof fn slot_found(slots: Seq<Slot>, i: int)
    requires
        distinct_slots(slots),
        0 <= i < slots.len(),
    ensures
        has_slot(slots, slots[i].id()),
        slot_index(slots, slots[i].id()) == i,
{
    let id = slots[i].id();
    let k = slot_index(slots, id);
    if k < i {
        assert(slots[k].id() != slots[i].id());
    } else if k > i {
        assert(slots[i].id() != slots[k].id());
    }
}

impl View for SavedResponses {
    type V = Map<(u128, Seq<char>), Option<ResponseView>>;

    closed spec fn view(&self) -> Map<(u128, Seq<char>), Option<ResponseView>> {
        slots_map(self.slots@)
    }
}

impl SavedResponses {
    /// Whether no key of a user occurs twice in the table.
    pub closed spec fn consistent(&self) -> bool {
        distinct_slots(self.slots@)
    }

    /// An empty table.
    pub fn new() -> (table: SavedResponses)
        ensures
            table.consistent(),
            table@ == Map::<(u128, Seq<char>), Option<ResponseView>>::empty(),
    {
        let table = SavedResponses { slots: Vec::new() };
        assert(table@ =~= Map::<(u128, Seq<char>), Option<ResponseView>>::empty());
        table
    }

    fn find(&self, user_id: u128, key: &str) -> (at: Option<usize>)
        requires
            self.consistent(),
        ensures
            at is Some <==> has_slot(self.slots@, (user_id, key@)),
            at matches Some(i) ==> i < self.slots@.len() && self.slots@[i as int].id() == (
                user_id,
                key@,
            ) && slot_index(self.slots@, (user_id, key@)) == i,
    {
        let mut i: usize = 0;
        while i < self.slots.len()
            invariant
                i <= self.slots.len(),
                distinct_slots(self.slots@),
                forall|j: int| 0 <= j < i ==> (#[trigger] self.slots@[j]).id() != (user_id, key@),
            decreases self.slots.len() - i,
        {
            if self.slots[i].user_id == user_id && same_text(self.slots[i].key.as_str(), key) {
                proof {
                    slot_found(self.slots@, i as int);
                }
                return Some(i);
            }
            i += 1;
        }
        None
    }

    /// Takes hold of a key for the calling request. It succeeds exactly
    /// if the user has not used the key before; the key is then marked
    /// as in progress, and no later call succeeds for it.
    pub fn claim(&mut self, user_id: u128, key: &IdempotencyKey) -> (claimed: bool)
        requires
            old(self).consistent(),
        ensures
            final(self).consistent(),
            (final(self)@, claimed) == after_claim(old(self)@, (user_id, key@)),
    {
        if self.find(user_id, key.as_ref()).is_some() {
            return false;
        }
        let ghost before = self.slots@;
        let slot = Slot { user_id, key: key.as_ref().to_owned(), response: None };
        self.slots.push(slot);
        proof {
            let after = self.slots@;
            let id = (user_id, key@);
            assert(distinct_slots(after));
            assert forall|other: (u128, Seq<char>)| has_slot(after, other) <==> (other == id
                || has_slot(before, other)) by {
                if has_slot(after, other) {
                    let k = slot_index(after, other);
                    if k < before.len() {
                        assert(before[k].id() == other);
                    }
                }
                if other == id {
                    assert(after[before.len() as int].id() == id);
                }
                if has_slot(before, other) {
                    let k = slot_index(before, other);
                    assert(after[k].id() == other);
                }
            }
            assert forall|other: (u128, Seq<char>)| has_slot(after, other) implies slots_map(
                after,
            )[other] == slots_map(before).insert(id, None)[other] by {
                let k = slot_index(after, other);
                slot_found(after, k);
                if k < before.len() {
                    assert(before[k] == after[k]);
                    slot_found(before, k);
                }
            }
            assert(slots_map(after) =~= slots_map(before).insert(id, None));
        }
        true
    }

    /// Tries to take a key for the calling request and decides what the
    /// request does next: the work, where it got the key; else it answers
    /// with the saved response, or waits for one.
    pub fn try_processing(&mut self, user_id: u128, key: &IdempotencyKey) -> (action: NextAction)
        requires
            old(self).consistent(),
        ensures
            final(self).consistent(),
            final(self)@ == after_claim(old(self)@, (user_id, key@)).0,
            action@ == action_for(
                after_claim(old(self)@, (user_id, key@)).1,
                saved_under(old(self)@, (user_id, key@)),
            ),
    {
        if self.claim(user_id, key) {
            next_action(true, None)
        } else {
            let saved = self.saved(user_id, key);
            next_action(false, saved)
        }
    }

    /// The response saved under a key, if there is one.
    pub fn saved(&self, user_id: u128, key: &IdempotencyKey) -> (response: Option<Response>)
        requires
            self.consistent(),
        ensures
            response_view(response) == saved_under(self@, (user_id, key@)),
    {
        match self.find(user_id, key.as_ref()) {
            None => None,
            Some(i) => match &self.slots[i].response {
                None => None,
                Some(r) => Some(r.clone()),
            },
        }
    }

    /// Saves a response under a key. The first response saved under a key
    /// stays: saving again under the same key changes nothing.
    pub fn save(&mut self, user_id: u128, key: &IdempotencyKey, response: Response)
        requires
            old(self).consistent(),
        ensures
            final(self).consistent(),
            final(self)@ == after_save(old(self)@, (user_id, key@), response@),
    {
        let ghost before = self.slots@;
        let ghost id = (user_id, key@);
        match self.find(user_id, key.as_ref()) {
            Some(i) => {
                if self.slots[i].response.is_none() {
                    self.slots[i].response = Some(response);
                    proof {
                        let after = self.slots@;
                        assert(after.len() == before.len());
                        assert forall|j: int| 0 <= j < after.len() implies (#[trigger] after[j]).id()
                            == before[j].id() by {}
                        assert forall|other: (u128, Seq<char>)| has_slot(after, other) <==> has_slot(
                            before,
                            other,
                        ) by {
                            if has_slot(after, other) {
                                let k = slot_index(after, other);
                                assert(before[k].id() == other);
                            }
                            if has_slot(before, other) {
                                let k = slot_index(before, other);
                                assert(after[k].id() == other);
                            }
                        }
                        assert(distinct_slots(after));
                        assert forall|other: (u128, Seq<char>)| has_slot(after, other) implies slots_map(
                            after,
                        )[other] == slots_map(before).insert(id, Some(response@))[other] by {
                            let k = slot_index(after, other);
                            slot_found(after, k);
                            slot_found(before, k);
                            if k != i {
                                assert(after[k] == before[k]);
                            }
                        }
                        assert(slots_map(after) =~= slots_map(before).insert(id, Some(response@)));
                    }
                }
            },
            None => {
                let slot = Slot { user_id, key: key.as_ref().to_owned(), response: Some(response) };
                self.slots.push(slot);
                proof {
                    let after = self.slots@;
                    assert(distinct_slots(after));
                    assert forall|other: (u128, Seq<char>)| has_slot(after, other) <==> (other == id
                        || has_slot(before, other)) by {
                        if has_slot(after, other) {
                            let k = slot_index(after, other);
                            if k < before.len() {
                                assert(before[k].id() == other);
                            }
                        }
                        if other == id {
                            assert(after[before.len() as int].id() == id);
                        }
                        if has_slot(before, other) {
                            let k = slot_index(before, other);
                            assert(after[k].id() == other);
                        }
                    }
                    assert forall|other: (u128, Seq<char>)| has_slot(after, other) implies slots_map(
                        after,
                    )[other] == slots_map(before).insert(id, Some(response@))[other] by {
                        let k = slot_index(after, other);
                        slot_found(after, k);
                        if k < before.len() {
                            assert(before[k] == after[k]);
                            slot_found(before, k);
                        }
                    }
                    assert(slots_map(after) =~= slots_map(before).insert(id, Some(response@)));
                }
            },
        }
    }
}

} // verus!
