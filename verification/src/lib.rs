//! Frame transport for a screen-casting session.
//!
//! A sending host captures frames and streams them to a receiving host over one
//! connection. Every frame travels as a fixed-size header followed by its pixel
//! payload, zero-padded to a whole number of chunks. This crate holds the wire
//! codec, the pixel conversions, and the decision logic of both worker loops;
//! sockets, capture devices and the user interface live with the caller.

pub mod control;
pub mod frame;
pub mod navigation;
pub mod picture;
pub mod receiver;
pub mod sender;
pub mod session;
pub mod wire;
