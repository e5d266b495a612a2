//! The link to the master: frames, messages, and what is done with each of them.

pub mod controller;
pub mod controller_laws;
pub mod messages;
pub mod protocol;
pub mod protocol_laws;
pub mod receiver;
