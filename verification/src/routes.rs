//! Request handling: the per-request intake decision flow for new
//! subscriptions.

pub mod subscriptions;
