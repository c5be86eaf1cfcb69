//! Session tokens and a daily-throttled game of chance, written as decisions
//! over an external key-value store: every function here either builds the
//! next store command or interprets what the store answered.

pub mod chance;
pub mod clock;
pub mod handlers;
pub mod model;
pub mod models;
pub mod redis_store;
pub mod session;
pub mod state;
