//! Verified core of the Vapor Registry: the response records it serves,
//! the statements it runs against its store, and the meaning of those
//! statements over a mathematical model of the registry tables.

pub mod types;
pub mod model;
pub mod seed;
pub mod query;
pub mod text;
pub mod plan;
pub mod lookup;
pub mod api;
pub mod seed_laws;
