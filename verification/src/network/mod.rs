//! The command protocol of the peer-to-peer network layer.

pub mod command;
pub mod event;
pub mod event_loop;
pub mod future;
pub mod peer;
pub mod shared;
