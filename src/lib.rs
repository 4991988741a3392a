//! Reactor core of a peer-to-peer networking engine: the registry that maps
//! poll handles to sessions and sessions to their live state, and the event
//! vocabulary the engine reports to its owner.

pub mod reactor;
pub mod event;
