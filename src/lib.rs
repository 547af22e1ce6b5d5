//! Graphics core of a bare-metal kernel: the property-tag mailbox protocol used
//! to negotiate a framebuffer with the GPU firmware, and the double-buffered
//! pixel surface that owns the negotiated memory.
pub mod exchange;
pub mod framebuffer;
pub mod init;
pub mod mailbox;
pub mod mem;
pub mod property;
