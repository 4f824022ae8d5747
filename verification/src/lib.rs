//! A verified core for a compressed log sink: a service that accepts streaming
//! connections, decompresses each binary chunk a client sends, and appends the
//! recovered bytes to a configured destination (a file opened in append mode,
//! or standard output).
//!
//! This library holds the parts with design content: frame classification, the
//! per-connection state machine, LZ4 decompression of binary payloads, and the
//! policy that picks and falls back between write destinations. The listener,
//! the transport, and the actual I/O live outside the library and drive it
//! through plain values.

pub mod decoder;
pub mod handler;
pub mod sink;
