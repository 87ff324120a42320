//! A capability-resolution engine together with the socket control-message
//! encoding that the surrounding project ships alongside it.
//!
//! The solver half ([`solve`]) decides whether a subject type provably
//! satisfies a required capability, by exhaustive, depth-bounded candidate
//! enumeration followed by deterministic merging.  The codec half handles
//! POSIX-style socket control messages (ancillary data): byte-level
//! encoding, decoding and file-descriptor bookkeeping.

pub mod ancillary;
pub mod cmsg;
pub mod message;
pub mod solve;
