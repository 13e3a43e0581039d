//! A credential engine: it issues, tracks and revokes credentials that are
//! bound to a holder and can never change hands.
//!
//! The engine decides and plans; it writes nothing itself. Every operation
//! takes the state it needs as plain values, checks its guards, and hands back
//! the next state together with the writes to make. Whoever runs it commits
//! those writes as one unit, or none of them.
//!
//! - [`address`]: identities, and the derivation of addresses from seeds.
//! - [`layout`]: the sizes of a token record and its storage fee.
//! - [`initializer`]: the ordered writes that create a token.
//! - [`state`], [`operators`]: the configuration of a domain and its operators.
//! - [`fee`]: the fee gate.
//! - [`lifecycle`]: the record of a credential and its transitions.
//! - [`domain`]: the creation of a domain with its collection token.
//! - [`attestation`]: the configuration and the guards of an attestation domain.
//!
//! A revoked credential may stay as it is for good: reclaiming the storage it
//! left behind is the holder's choice, never an obligation.

pub mod address;
pub mod attestation;
pub mod domain;
pub mod error;
pub mod fee;
pub mod initializer;
pub mod layout;
pub mod lifecycle;
pub mod operators;
pub mod state;
