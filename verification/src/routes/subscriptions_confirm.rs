//! Confirming a subscription with the token from the confirmation link.

use vstd::prelude::*;
use crate::entities::SubscriptionView;
use crate::http::{bare, Response, INTERNAL_SERVER_ERROR, OK, UNAUTHORIZED};
use crate::startup::{AppState, StateView};
use crate::store::{token_owner, with_confirmed, Subscribers};

verus! {

/// The query parameters of the confirmation link.
#[derive(Debug)]
pub struct Parameters {
    pub subscription_token: String,
}

/// Decides what follows the lookup of a token: the subscriber to confirm,
/// 401 for a token that is not stored, 500 for a fault of the store.
pub fn subscriber_to_confirm(lookup: Result<Option<u128>, String>) -> (next: Result<u128, Response>)
    ensures
        match lookup {
            Err(_) => next is Err && next->Err_0@ == bare(INTERNAL_SERVER_ERROR as int),
            Ok(None) => next is Err && next->Err_0@ == bare(UNAUTHORIZED as int),
            Ok(Some(id)) => next == Ok::<u128, Response>(id),
        },
{
    match lookup {
        Err(_) => Err(Response::from_status(INTERNAL_SERVER_ERROR)),
        Ok(None) => Err(Response::from_status(UNAUTHORIZED)),
        Ok(Some(id)) => Ok(id),
    }
}

/// The answer once the store was asked to confirm the subscriber: 200, or
/// 500 for a fault of the store.
pub fn confirmation_response(update: Result<(), String>) -> (response: Response)
    ensures
        response@ == bare(
            if update is Ok {
                OK as int
            } else {
                INTERNAL_SERVER_ERROR as int
            },
        ),
{
    match update {
        Ok(()) => Response::from_status(OK),
        Err(_) => Response::from_status(INTERNAL_SERVER_ERROR),
    }
}

/// Looks a token up in the store: the subscriber it was issued to, or
/// nothing for a token that is not stored.
pub fn get_subscriber_id_from_token(subscription_token: &str, store: &Subscribers) -> (owner: Option<
    u128,
>)
    requires
        store.consistent(),
    ensures
        owner == token_owner(store@.tokens, subscription_token@),
{
    store.get_subscriber_id_from_token(subscription_token)
}

/// Marks a subscriber as confirmed in the store, whatever its status was.
pub fn confirm_subscriber(subscriber_id: u128, store: &mut Subscribers)
    requires
        old(store).consistent(),
    ensures
        final(store).consistent(),
        final(store)@.subscriptions == with_confirmed(old(store)@.subscriptions, subscriber_id),
        final(store)@.tokens == old(store)@.tokens,
{
    store.confirm_subscriber(subscriber_id)
}

/// The state after a confirmation request, and the status that answers
/// it: for a stored token its subscriber is confirmed and the answer is
/// 200; for any other token nothing changes and the answer is 401.
pub open spec fn after_confirm(state: StateView, token: Seq<char>) -> (StateView, int) {
    match token_owner(state.tokens, token) {
        Some(id) => (
            StateView { subscriptions: with_confirmed(state.subscriptions, id), ..state },
            OK as int,
        ),
        None => (state, UNAUTHORIZED as int),
    }
}

/// Confirms the subscriber that the token was issued to.
pub fn confirm(state: &mut AppState, parameters: &Parameters) -> (response: Response)
    requires
        old(state).consistent(),
    ensures
        final(state).consistent(),
        (final(state)@, response@) == ({
            let (next, status) = after_confirm(old(state)@, parameters.subscription_token@);
            (next, bare(status))
        }),
{
    let lookup = Ok(
        get_subscriber_id_from_token(parameters.subscription_token.as_str(), &state.subscribers),
    );
    match subscriber_to_confirm(lookup) {
        Err(response) => response,
        Ok(subscriber_id) => {
            confirm_subscriber(subscriber_id, &mut state.subscribers);
            confirmation_response(Ok(()))
        },
    }
}

/// Confirmation is idempotent: confirming with the same stored token a
/// second time is answered like the first time and leaves the state as
/// the first confirmation left it.
pub proof fn confirmation_is_idempotent(state: StateView, token: Seq<char>)
    requires
        token_owner(state.tokens, token) is Some,
    ensures
        ({
            let (once, first) = after_confirm(state, token);
            let (twice, second) = after_confirm(once, token);
            first == OK && second == OK && twice == once
        }),
{
    let id = token_owner(state.tokens, token)->Some_0;
    let once = with_confirmed(state.subscriptions, id);
    assert(with_confirmed(once, id) =~= once);
}

/// After a confirmation the subscriber of the token is confirmed, and no
/// other subscriber has changed.
pub proof fn confirmation_confirms_only_its_subscriber(state: StateView, token: Seq<char>, i: int)
    requires
        token_owner(state.tokens, token) is Some,
        0 <= i < state.subscriptions.len(),
    ensures
        ({
            let id = token_owner(state.tokens, token)->Some_0;
            let after = after_confirm(state, token).0.subscriptions;
            &&& after.len() == state.subscriptions.len()
            &&& state.subscriptions[i].id == id ==> after[i] == (SubscriptionView {
                status: crate::entities::SubscriptionStatus::Confirmed,
                ..state.subscriptions[i]
            })
            &&& state.subscriptions[i].id != id ==> after[i] == state.subscriptions[i]
        }),
{
}

/// An unknown token is answered with 401 and changes nothing.
pub proof fn unknown_token_changes_nothing(state: StateView, token: Seq<char>)
    requires
        token_owner(state.tokens, token) is None,
    ensures
        after_confirm(state, token) == (state, UNAUTHORIZED as int),
{
}

} // verus!
