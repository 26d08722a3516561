//! A single-slot, time-bounded cache in front of one fixed upstream query,
//! with the read-through refresh decisions stated and proved.

pub mod cache;
pub mod laws;
pub mod orchestrator;
pub mod reply;
pub mod upstream;
