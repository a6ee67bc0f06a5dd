//! Sponsored native fee payment: sponsor registry, two-hold budget model and the sponsored
//! transaction payment rules.
pub mod benchmarking;
pub mod extension;
pub mod holds;
pub mod pallet;
pub mod types;
pub mod weights;
pub mod laws;
