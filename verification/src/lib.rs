//! A contract that posts assertions to a Tholos instance under its own address.
//!
//! An instance is deployed with an administrator, pinned by the constructor, and is pointed once
//! at a trusted Tholos instance and at the token in which Tholos takes its bonds. From then on the
//! administrator can have the contract assert outcomes, with the bond paid out of the contract's
//! own balance, and anyone can read an assertion back.

pub mod call;
pub mod config;
pub mod consumer;
pub mod error;
pub mod host;
pub mod laws;
pub mod tholos;
