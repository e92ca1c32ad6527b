//! The window manager's two sockets: the event stream and the command
//! channel.

pub mod codec;
pub mod error;
pub mod event_loop;
pub mod events;
pub mod ipc;
pub mod laws;
