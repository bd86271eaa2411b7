//! Presence reporting over a local framed IPC protocol: the frame codec,
//! the activity messages carried in data frames, and the decisions of the
//! client's handshake and listener loop.
pub mod client;
pub mod message;
pub mod packet;
pub mod websocket;
