//! The synchronization core of a bounded channel with many producers and many
//! consumers: the control block that its endpoints share, and the list through
//! which parked tasks are woken when the channel's state changes.

pub mod buffer;
pub mod cells;
pub mod control;
mod spin;
pub mod waitlist;
