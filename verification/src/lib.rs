//! Core logic of a newsletter service: subscriber validation, password
//! credentials, signed redirect parameters, idempotent publishing and the
//! decisions of each request flow.

pub mod authentication;
pub mod configuration;
pub mod domain;
pub mod email_client;
pub mod email_grammar;
pub mod encoding;
pub mod entities;
pub mod fresh;
pub mod http;
pub mod idempotency;
pub mod pages;
pub mod routes;
pub mod session_state;
pub mod signature;
pub mod startup;
pub mod store;
pub mod text;
pub mod utils;
