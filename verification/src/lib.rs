//! Core of a cryptographic-escrow back-end.
//!
//! An owner places encrypted documents into a *box*, nominates *guardians*,
//! and on locking the box distributes one opaque key *shard* to each
//! guardian. This crate holds the verified state machine behind that
//! lifecycle: box creation and mutation, the one-way lock transition, shard
//! custody and acknowledgement, single-use invitation codes, push-token
//! registration, and the planning of lock notifications and tiered
//! reminders. Durable storage, HTTP routing and the outside transports are
//! kept behind thin unverified adaptors; everything here works on plain
//! values and is specified by its contracts.

pub mod boxes;
pub mod errors;
pub mod ids;
pub mod invitations;
pub mod json;
pub mod laws;
pub mod model;
pub mod notify;
pub mod push;
pub mod reminder;
pub mod store;
pub mod text;
