//! The decisions of each request flow.

pub mod admin;
pub mod health_check;
pub mod login;
pub mod newsletters;
pub mod subscriptions;
pub mod subscriptions_confirm;
