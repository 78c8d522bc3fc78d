//! The capabilities of the facade, one module per family of calls.

pub mod adding;
pub mod bulk;
pub mod modifying;
pub mod retrieving;
pub mod tags;
