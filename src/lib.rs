//! Node environment preparation: layered configuration, statesync planning,
//! data directory guarding and container lifecycle decisions.
pub mod json;
pub mod config;
pub mod error;
pub mod chain;
pub mod statesync;
pub mod guard;
pub mod compose;
pub mod genesis;
pub mod text;
pub mod container;
