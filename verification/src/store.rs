//! The relational store held in memory: the tables with the constraints
//! that the service relies on, and each operation that the flows ask of
//! the store. The flows are stated against these tables; a service that
//! keeps its rows in a database asks the same of it, step by step.

pub mod saved_responses;
pub mod subscribers;
pub mod users;

pub use crate::store::saved_responses::{response_view, SavedResponses, Slot};
pub use crate::store::subscribers::{
    confirmed_addresses, confirmed_row, has_email, has_subscriber, has_token,
    subscribers_consistent, token_owner, with_confirmed, Subscribers, SubscribersView,
};
pub use crate::store::users::{
    has_user, has_username, user_named, user_with_id, users_consistent, with_password_hash, Users,
};
