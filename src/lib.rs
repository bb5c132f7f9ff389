//! Thin clients for a search-suggestion provider and a billing provider.
//!
//! The library holds what these clients decide: the request that a suggestion
//! lookup sends, and the steps of a subscription cancellation, which chains a
//! customer lookup, a subscription lookup and the cancellation itself. The
//! network round trips are made by the caller, who hands the replies back.
pub mod brave;

pub mod stripe_client;
