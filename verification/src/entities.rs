//! The rows of the relational store, as plain values.

use vstd::prelude::*;
use crate::http::{HeaderPairRecord, HeaderView};

verus! {

/// Where a subscriber stands in the double opt-in.
#[derive(Clone, Copy, Debug, PartialEq, Eq, Structural)]
pub enum SubscriptionStatus {
    PendingConfirmation,
    Confirmed,
}

/// A subscriber.
#[derive(Debug)]
pub struct SubscriptionRow {
    pub id: u128,
    pub email: String,
    pub name: String,
    /// Microseconds since the Unix epoch, UTC.
    pub subscribed_at: i64,
    pub status: SubscriptionStatus,
}

/// A confirmation token and the subscriber it was issued to.
#[derive(Debug)]
pub struct TokenRow {
    pub subscription_token: String,
    pub subscriber_id: u128,
}

/// An account.
pub struct UserRow {
    pub user_id: u128,
    pub username: String,
    pub password_hash: String,
}

/// The response recorded for one idempotency key of one user.
#[derive(Debug)]
pub struct IdempotencyRow {
    pub user_id: u128,
    pub idempotency_key: String,
    pub response_status_code: i16,
    pub response_headers: Vec<HeaderPairRecord>,
    pub response_body: Vec<u8>,
    /// Microseconds since the Unix epoch, UTC.
    pub created_at: i64,
}

/// The mathematical value of a subscriber row.
pub struct SubscriptionView {
    pub id: u128,
    pub email: Seq<char>,
    pub name: Seq<char>,
    pub subscribed_at: i64,
    pub status: SubscriptionStatus,
}

/// The mathematical value of a token row.
pub struct TokenView {
    pub subscription_token: Seq<char>,
    pub subscriber_id: u128,
}

/// The mathematical value of an account.
pub struct UserView {
    pub user_id: u128,
    pub username: Seq<char>,
    pub password_hash: Seq<char>,
}

/// The mathematical value of an idempotency row.
pub struct IdempotencyView {
    pub user_id: u128,
    pub idempotency_key: Seq<char>,
    pub response_status_code: i16,
    pub response_headers: Seq<HeaderView>,
    pub response_body: Seq<u8>,
    pub created_at: i64,
}

impl View for SubscriptionRow {
    type V = SubscriptionView;

    open spec fn view(&self) -> SubscriptionView {
        SubscriptionView {
            id: self.id,
            email: self.email@,
            name: self.name@,
            subscribed_at: self.subscribed_at,
            status: self.status,
        }
    }
}

impl View for TokenRow {
    type V = TokenView;

    open spec fn view(&self) -> TokenView {
        TokenView {
            subscription_token: self.subscription_token@,
            subscriber_id: self.subscriber_id,
        }
    }
}

impl View for UserRow {
    type V = UserView;

    open spec fn view(&self) -> UserView {
        UserView {
            user_id: self.user_id,
            username: self.username@,
            password_hash: self.password_hash@,
        }
    }
}

impl View for IdempotencyRow {
    type V = IdempotencyView;

    open spec fn view(&self) -> IdempotencyView {
        IdempotencyView {
            user_id: self.user_id,
            idempotency_key: self.idempotency_key@,
            response_status_code: self.response_status_code,
            response_headers: Seq::new(
                self.response_headers@.len(),
                |i: int| self.response_headers@[i]@,
            ),
            response_body: self.response_body@,
            created_at: self.created_at,
        }
    }
}

/// The text that stands for a status in the store.
pub open spec fn status_text(status: SubscriptionStatus) -> Seq<char> {
    match status {
        SubscriptionStatus::PendingConfirmation => "pending_confirmation"@,
        SubscriptionStatus::Confirmed => "confirmed"@,
    }
}

impl SubscriptionStatus {
    /// The text that stands for the status in the store.
    pub fn as_str(&self) -> (text: &'static str)
        ensures
            text@ == status_text(*self),
    {
        match self {
            SubscriptionStatus::PendingConfirmation => "pending_confirmation",
            SubscriptionStatus::Confirmed => "confirmed",
        }
    }

    /// The status after a valid token was presented: confirmed, whatever
    /// it was before.
    pub fn confirm(self) -> (next: SubscriptionStatus)
        ensures
            next == SubscriptionStatus::Confirmed,
    {
        SubscriptionStatus::Confirmed
    }
}

} // verus!
