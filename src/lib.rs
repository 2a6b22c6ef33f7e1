//! Cuts a logical query plan into a graph of stages joined by data channels.
pub mod plan;
pub mod stage;
pub mod builder;
pub mod laws;
pub mod fill_null;
