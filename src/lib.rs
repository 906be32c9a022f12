//! Escrow engine for an over-the-counter marketplace: dealers publish posts,
//! customers open deals against them, and the asset leg is held in custody
//! until both sides have met their obligations or a moderator decides.
//!
//! Every command is a verified transition on [`state::EscrowState`] whose
//! contract is the matching function of [`model`].  Value transfers are
//! returned as [`state::Transfer`] intents and performed by the caller.
pub mod asset;
pub mod state;
pub mod model;
pub mod execute;
pub mod laws;
pub mod contract;
pub mod msg;
