//! A verified core for one-shot screen capture over a screen-copy protocol:
//! the anonymous-memory allocator that backs the pixel buffer, the capture
//! session's state machine, and the driver's decisions. The compositor
//! connection and its event pump live outside and feed events in.

pub mod driver;
pub mod os;
pub mod session;
pub mod shm;
