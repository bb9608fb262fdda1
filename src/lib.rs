//! Control logic for a terminal radio player that supervises an external
//! media player and talks to it over a line-based JSON property protocol.

pub mod text;
pub mod station;
pub mod metadata;
pub mod protocol;
pub mod supervisor;
pub mod snapshot;
pub mod command;
