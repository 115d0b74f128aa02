//! A minimal application-layer protocol for moving one named file's
//! contents between two peers over an already-established byte stream.
//!
//! One exchange occupies one stream: the initiator writes a request naming
//! the file, half-closes, and reads the response bytes; the responder reads
//! the request, looks the file up, and writes the raw body back. Neither
//! direction carries a length prefix — end-of-message is the peer closing
//! its write half — so the readers bound what they accept instead: at most
//! [`protocol::FILE_ID_MAX_SIZE`] identifier bytes and at most
//! [`protocol::FILE_BODY_MAX_SIZE`] body bytes.
//!
//! The stream itself (transport, negotiation, half-close) belongs to the
//! surrounding engine; this crate defines how bytes already flowing on an
//! open stream are structured into typed messages, as pure functions from
//! byte buffers to messages and back.

pub mod codec;
pub mod protocol;
