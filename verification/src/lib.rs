//! Newsletter subscription intake: validated domain values, layered
//! configuration resolution, and the per-request intake decision flow.

pub mod config;
pub mod domain;
pub mod routes;
pub mod text;
