//! Stat blocks for creatures of a remote catalog: the resources fetched for one
//! creature are normalised into a single record, from which a levelled,
//! size-bounded non-player character is derived.

pub mod catalog;
pub mod cyphersystem;
pub mod filters;
pub mod pokemon;
pub mod random;
pub mod text;
