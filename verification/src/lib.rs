//! Federated login and session issuance, together with the small
//! collaborator services that share its process boundary.
//!
//! The core sequences an OAuth2 authorization-code client boundary, an
//! identity repository with a uniqueness invariant, a TTL-bound session
//! store and a signed bearer-token codec into one failure-aware pipeline.
//! Outside calls (token signing, URL construction, randomness, the clock)
//! stand behind trusted wrappers; everything around them is verified.

pub mod coder;
pub mod config;
pub mod business_cards;
pub mod chatbot;
pub mod clock;
pub mod errors;
pub mod gateway;
pub mod handlers;
pub mod jwt;
pub mod models;
pub mod oauth;
pub mod pipeline;
pub mod repository;
pub mod serialize;
pub mod sessions;
pub mod strutil;
pub mod swap;
pub mod transactions;
pub mod wallet;
