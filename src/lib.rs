//! Relayed ("gasless") token transfers out of an owner's escrow.
//!
//! The owner signs a canonical permit offline; a relayer submits it, pays the
//! network fee and is reimbursed from the escrowed funds. This crate holds the
//! protocol's decisions: the permit layout, the matching of a signature
//! verification record against the request, the nonce and deadline guards,
//! the escrow record's storage layout, and the plan of transfers.
pub mod error;
pub mod message;
pub mod authorization;
pub mod state;
pub mod accounts;
pub mod relay;
pub mod instructions;
pub mod laws;
