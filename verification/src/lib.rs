//! An in-memory registry of work tickets with validated fields.

pub mod actor;
pub mod client;
pub mod decimal;
pub mod drop_bomb;
pub mod engine;
pub mod parallel_sum;
pub mod saturating;
pub mod ticket;
pub mod ticket_store;
pub mod week;
