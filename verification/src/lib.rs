//! Staged assembly of blockchain transactions.
//!
//! A transaction (a signer, a receiver, and an ordered list of actions) is
//! assembled through a fixed chain of stages. Each stage consumes the previous
//! stage's accumulated context and returns a strictly larger one; decisions
//! that depend on the selected network are deferred into callbacks that the
//! execution driver invokes once the network is known.

pub mod account_id;
pub mod cli;
pub mod commands;
pub mod create_account;
pub mod delete_key;
pub mod fields;
pub mod inspect;
pub mod json;
pub mod receiver;
pub mod skip_action;
pub mod actions;
pub mod types;
pub mod validators;
