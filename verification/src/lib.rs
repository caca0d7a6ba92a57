//! User-space ICMP echo responder core: a typed view layer over raw IPv4 and
//! ICMP packet bytes, the Internet checksum engine, the echo-reply rewriter,
//! a bounded hand-off queue, the dispatch-loop decision logic, and the
//! validated configuration records for the TUN device boundary.
//!
//! All I/O (the TUN file handle, readiness polling, external configuration
//! commands) lives outside this crate; the functions here compute on plain
//! byte buffers and values and are verified.

pub mod checksum;
pub mod device;
pub mod dispatch;
pub mod icmp;
pub mod ipv4;
pub mod queue;
pub mod rewrite;
pub mod wire;
