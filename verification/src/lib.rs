//! Entries of a hash chain that records the passage of time as sequential
//! hashing work and binds an ordered batch of events to a position in it.
pub mod entry;
pub mod event;
pub mod hash;
pub mod laws;
pub mod signature;
