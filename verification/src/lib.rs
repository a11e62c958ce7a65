//! Packet framing and sample streaming for Opus audio carried in Ogg and CAF
//! containers.
//!
//! The library holds the rules of the stream: how the identification headers
//! become a metadata record, how many samples a packet decodes to, and how a
//! sequence of decoded buffers is handed out one sample at a time. Reading the
//! container and running the codec are left to the caller, who reports what
//! happened as events. Samples are carried as the bit patterns of their
//! 32-bit floating-point values.
pub mod error;
pub mod bits;
pub mod toc;
pub mod le;
pub mod metadata;
pub mod samples;
pub mod container;
