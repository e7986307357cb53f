//! The tables of subscribers and of their confirmation tokens.

use vstd::prelude::*;
use crate::entities::{
    SubscriptionRow, SubscriptionStatus, SubscriptionView, TokenRow, TokenView,
};
use crate::text::{push_cause, same_text};

verus! {

/// The tables of subscribers and of their tokens.
pub struct Subscribers {
    subscriptions: Vec<SubscriptionRow>,
    tokens: Vec<TokenRow>,
}

/// The mathematical value of the two tables: their rows in the order in
/// which they were inserted.
pub struct SubscribersView {
    pub subscriptions: Seq<SubscriptionView>,
    pub tokens: Seq<TokenView>,
}

/// Whether a subscriber with this identity is stored.
pub open spec fn has_subscriber(rows: Seq<SubscriptionView>, id: u128) -> bool {
    exists|i: int| 0 <= i < rows.len() && (#[trigger] rows[i]).id == id
}

/// Whether a subscriber with this address is stored.
pub open spec fn has_email(rows: Seq<SubscriptionView>, email: Seq<char>) -> bool {
    exists|i: int| 0 <= i < rows.len() && (#[trigger] rows[i]).email == email
}

/// Whether this token is stored.
pub open spec fn has_token(rows: Seq<TokenView>, token: Seq<char>) -> bool {
    exists|i: int| 0 <= i < rows.len() && (#[trigger] rows[i]).subscription_token == token
}

/// The subscriber that a token was issued to, if the token is stored.
pub open spec fn token_owner(rows: Seq<TokenView>, token: Seq<char>) -> Option<u128> {
    if has_token(rows, token) {
        let i = choose|i: int| 0 <= i < rows.len() && (#[trigger] rows[i]).subscription_token == token;
        Some(rows[i].subscriber_id)
    } else {
        None
    }
}

/// A row after its subscriber was confirmed.
pub open spec fn confirmed_row(row: SubscriptionView) -> SubscriptionView {
    SubscriptionView { status: SubscriptionStatus::Confirmed, ..row }
}

/// The table after the subscriber `id` was confirmed: that subscriber's
/// row is confirmed, and every other row is as before.
pub open spec fn with_confirmed(rows: Seq<SubscriptionView>, id: u128) -> Seq<SubscriptionView> {
    Seq::new(
        rows.len(),
        |i: int|
            if rows[i].id == id {
                confirmed_row(rows[i])
            } else {
                rows[i]
            },
    )
}

/// The addresses of the confirmed subscribers, in the order of the table.
pub open spec fn confirmed_addresses(rows: Seq<SubscriptionView>) -> Seq<Seq<char>>
    decreases rows.len(),
{
    if rows.len() == 0 {
        Seq::empty()
    } else if rows.last().status == SubscriptionStatus::Confirmed {
        confirmed_addresses(rows.drop_last()).push(rows.last().email)
    } else {
        confirmed_addresses(rows.drop_last())
    }
}

/// The constraints of the two tables: no identity, no address and no
/// token occurs twice, and every token belongs to a stored subscriber.
pub open spec fn subscribers_consistent(v: SubscribersView) -> bool {
    &&& forall|i: int, j: int|
        0 <= i < j < v.subscriptions.len() ==> (#[trigger] v.subscriptions[i]).id != (
        #[trigger] v.subscriptions[j]).id
    &&& forall|i: int, j: int|
        0 <= i < j < v.subscriptions.len() ==> (#[trigger] v.subscriptions[i]).email != (
        #[trigger] v.subscriptions[j]).email
    &&& forall|i: int, j: int|
        0 <= i < j < v.tokens.len() ==> (#[trigger] v.tokens[i]).subscription_token != (
        #[trigger] v.tokens[j]).subscription_token
    &&& forall|i: int|
        0 <= i < v.tokens.len() ==> has_subscriber(
            v.subscriptions,
            (#[trigger] v.tokens[i]).subscriber_id,
        )
}

impl View for Subscribers {
    type V = SubscribersView;

    closed spec fn view(&self) -> SubscribersView {
        SubscribersView {
            subscriptions: Seq::new(self.subscriptions@.len(), |i: int| self.subscriptions@[i]@),
            tokens: Seq::new(self.tokens@.len(), |i: int| self.tokens@[i]@),
        }
    }
}

impl Subscribers {
    /// Whether the tables meet their constraints.
    pub open spec fn consistent(&self) -> bool {
        subscribers_consistent(self@)
    }

    /// Empty tables.
    pub fn new() -> (store: Subscribers)
        ensures
            store.consistent(),
            store@.subscriptions == Seq::<SubscriptionView>::empty(),
            store@.tokens == Seq::<TokenView>::empty(),
    {
        let store = Subscribers { subscriptions: Vec::new(), tokens: Vec::new() };
        assert(store@.subscriptions =~= Seq::<SubscriptionView>::empty());
        assert(store@.tokens =~= Seq::<TokenView>::empty());
        store
    }

    fn holds_subscriber(&self, id: u128) -> (found: bool)
        ensures
            found == has_subscriber(self@.subscriptions, id),
    {
        let mut i: usize = 0;
        while i < self.subscriptions.len()
            invariant
                i <= self.subscriptions.len(),
                forall|j: int| 0 <= j < i ==> (#[trigger] self@.subscriptions[j]).id != id,
            decreases self.subscriptions.len() - i,
        {
            if self.subscriptions[i].id == id {
                assert(self@.subscriptions[i as int].id == id);
                return true;
            }
            i += 1;
        }
        false
    }

    fn holds_email(&self, email: &str) -> (found: bool)
        ensures
            found == has_email(self@.subscriptions, email@),
    {
        let mut i: usize = 0;
        while i < self.subscriptions.len()
            invariant
                i <= self.subscriptions.len(),
                forall|j: int| 0 <= j < i ==> (#[trigger] self@.subscriptions[j]).email != email@,
            decreases self.subscriptions.len() - i,
        {
            if same_text(self.subscriptions[i].email.as_str(), email) {
                assert(self@.subscriptions[i as int].email == email@);
                return true;
            }
            i += 1;
        }
        false
    }

    /// Looks a token up: the subscriber it was issued to, or nothing for
    /// a token that is not stored. The tables stay as they are.
    pub fn get_subscriber_id_from_token(&self, subscription_token: &str) -> (owner: Option<u128>)
        requires
            self.consistent(),
        ensures
            owner == token_owner(self@.tokens, subscription_token@),
    {
        let mut i: usize = 0;
        while i < self.tokens.len()
            invariant
                self.consistent(),
                i <= self.tokens.len(),
                forall|j: int|
                    0 <= j < i ==> (#[trigger] self@.tokens[j]).subscription_token
                        != subscription_token@,
            decreases self.tokens.len() - i,
        {
            if same_text(self.tokens[i].subscription_token.as_str(), subscription_token) {
                proof {
                    let rows = self@.tokens;
                    assert(rows[i as int].subscription_token == subscription_token@);
                    let k = choose|k: int|
                        0 <= k < rows.len() && (#[trigger] rows[k]).subscription_token
                            == subscription_token@;
                    assert(k == i) by {
                        if k < i {
                            assert(rows[k].subscription_token != rows[i as int].subscription_token);
                        } else if k > i {
                            assert(rows[i as int].subscription_token != rows[k].subscription_token);
                        }
                    }
                }
                return Some(self.tokens[i].subscriber_id);
            }
            i += 1;
        }
        None
    }

    /// Stores a new subscriber and the token issued to it, both or
    /// neither. They are stored exactly if the identity, the address and
    /// the token are new and the token refers to the subscriber; then
    /// each table has one row more, at its end.
    pub fn insert(&mut self, subscriber: SubscriptionRow, token: TokenRow) -> (stored: bool)
        requires
            old(self).consistent(),
        ensures
            final(self).consistent(),
            stored == (!has_subscriber(old(self)@.subscriptions, subscriber.id) && !has_email(
                old(self)@.subscriptions,
                subscriber.email@,
            ) && !has_token(old(self)@.tokens, token.subscription_token@) && token.subscriber_id
                == subscriber.id),
            stored ==> final(self)@.subscriptions == old(self)@.subscriptions.push(subscriber@)
                && final(self)@.tokens == old(self)@.tokens.push(token@),
            !stored ==> final(self)@ == old(self)@,
    {
        if token.subscriber_id != subscriber.id || self.holds_subscriber(subscriber.id)
            || self.holds_email(subscriber.email.as_str()) {
            return false;
        }
        if self.get_subscriber_id_from_token(token.subscription_token.as_str()).is_some() {
            return false;
        }
        let ghost before = self@;
        let ghost s = subscriber@;
        let ghost t = token@;
        self.subscriptions.push(subscriber);
        self.tokens.push(token);
        proof {
            assert(self@.subscriptions =~= before.subscriptions.push(s));
            assert(self@.tokens =~= before.tokens.push(t));
            let after = self@;
            assert forall|i: int| 0 <= i < after.tokens.len() implies has_subscriber(
                after.subscriptions,
                (#[trigger] after.tokens[i]).subscriber_id,
            ) by {
                if i < before.tokens.len() {
                    assert(after.tokens[i] == before.tokens[i]);
                    assert(has_subscriber(before.subscriptions, before.tokens[i].subscriber_id));
                    let k = choose|k: int|
                        0 <= k < before.subscriptions.len() && (
                        #[trigger] before.subscriptions[k]).id == before.tokens[i].subscriber_id;
                    assert(after.subscriptions[k].id == before.tokens[i].subscriber_id);
                } else {
                    assert(after.subscriptions[before.subscriptions.len() as int].id == s.id);
                }
            }
        }
        true
    }

    /// Marks the subscriber as confirmed. A subscriber that is confirmed
    /// already stays so, and an identity that is not stored changes
    /// nothing.
    pub fn confirm_subscriber(&mut self, subscriber_id: u128)
        requires
            old(self).consistent(),
        ensures
            final(self).consistent(),
            final(self)@.subscriptions == with_confirmed(old(self)@.subscriptions, subscriber_id),
            final(self)@.tokens == old(self)@.tokens,
    {
        let ghost before = self@;
        let mut i: usize = 0;
        while i < self.subscriptions.len()
            invariant
                i <= self.subscriptions.len(),
                self@.tokens == before.tokens,
                self@.subscriptions.len() == before.subscriptions.len(),
                forall|j: int|
                    0 <= j < i ==> #[trigger] self@.subscriptions[j] == with_confirmed(
                        before.subscriptions,
                        subscriber_id,
                    )[j],
                forall|j: int|
                    i <= j < before.subscriptions.len() ==> #[trigger] self@.subscriptions[j]
                        == before.subscriptions[j],
            decreases self.subscriptions.len() - i,
        {
            let ghost rows = self.subscriptions@;
            let ghost views = self@.subscriptions;
            let ghost tokens = self@.tokens;
            if self.subscriptions[i].id == subscriber_id {
                self.subscriptions[i].status = SubscriptionStatus::Confirmed;
                proof {
                    assert(self.subscriptions@.len() == rows.len());
                    assert(self.subscriptions@[i as int]@ == confirmed_row(rows[i as int]@));
                    assert forall|j: int|
                        0 <= j < rows.len() && j != i implies self.subscriptions@[j] == rows[j] by {}
                    assert(self@.tokens =~= tokens);
                }
            }
            proof {
                assert forall|j: int| 0 <= j < rows.len() && j != i implies
                    #[trigger] self@.subscriptions[j] == views[j] by {
                    assert(self.subscriptions@[j] == rows[j]);
                }
                assert(views[i as int] == before.subscriptions[i as int]);
                assert(self@.subscriptions[i as int] == with_confirmed(
                    before.subscriptions,
                    subscriber_id,
                )[i as int]);
            }
            i += 1;
        }
        proof {
            let after = self@;
            assert(after.subscriptions =~= with_confirmed(before.subscriptions, subscriber_id));
            assert forall|k: int| 0 <= k < after.subscriptions.len() implies (
            #[trigger] after.subscriptions[k]).id == before.subscriptions[k].id
                && after.subscriptions[k].email == before.subscriptions[k].email by {}
            assert forall|k: int| 0 <= k < after.tokens.len() implies has_subscriber(
                after.subscriptions,
                (#[trigger] after.tokens[k]).subscriber_id,
            ) by {
                assert(has_subscriber(before.subscriptions, before.tokens[k].subscriber_id));
                let m = choose|m: int|
                    0 <= m < before.subscriptions.len() && (#[trigger] before.subscriptions[m]).id
                        == before.tokens[k].subscriber_id;
                assert(after.subscriptions[m].id == before.tokens[k].subscriber_id);
            }
        }
    }

    /// The addresses of the confirmed subscribers, in the order in which
    /// the subscribers were stored.
    pub fn confirmed_subscribers(&self) -> (addresses: Vec<String>)
        ensures
            addresses.deep_view() == confirmed_addresses(self@.subscriptions),
    {
        let mut addresses: Vec<String> = Vec::new();
        let mut i: usize = 0;
        assert(self@.subscriptions.take(0) =~= Seq::<SubscriptionView>::empty());
        assert(addresses.deep_view() =~= Seq::<Seq<char>>::empty());
        while i < self.subscriptions.len()
            invariant
                i <= self.subscriptions.len(),
                addresses.deep_view() == confirmed_addresses(self@.subscriptions.take(i as int)),
            decreases self.subscriptions.len() - i,
        {
            proof {
                let rows = self@.subscriptions;
                assert(rows.take(i + 1).drop_last() =~= rows.take(i as int));
                assert(rows.take(i + 1).last() == rows[i as int]);
            }
            if self.subscriptions[i].status == SubscriptionStatus::Confirmed {
                push_cause(&mut addresses, self.subscriptions[i].email.clone());
            }
            i += 1;
        }
        assert(self@.subscriptions.take(self.subscriptions.len() as int) =~= self@.subscriptions);
        addresses
    }

    /// The status of a subscriber, if it is stored.
    pub fn status_of(&self, subscriber_id: u128) -> (status: Option<SubscriptionStatus>)
        requires
            self.consistent(),
        ensures
            status is Some <==> has_subscriber(self@.subscriptions, subscriber_id),
            status matches Some(s) ==> exists|i: int|
                0 <= i < self@.subscriptions.len() && (#[trigger] self@.subscriptions[i]).id
                    == subscriber_id && self@.subscriptions[i].status == s,
    {
        let mut i: usize = 0;
        while i < self.subscriptions.len()
            invariant
                i <= self.subscriptions.len(),
                forall|j: int| 0 <= j < i ==> (#[trigger] self@.subscriptions[j]).id != subscriber_id,
            decreases self.subscriptions.len() - i,
        {
            if self.subscriptions[i].id == subscriber_id {
                assert(self@.subscriptions[i as int].id == subscriber_id);
                return Some(self.subscriptions[i].status);
            }
            i += 1;
        }
        None
    }
}

} // verus!
