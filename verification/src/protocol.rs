//! The messages of the file-exchange protocol and the negotiation token
//! under which both peers agree to speak it.

use vstd::prelude::*;
use vstd::utf8::{encode_utf8, is_ascii_chars, is_ascii_chars_encode_utf8};

verus! {

/// Largest number of identifier bytes a request reader accepts; anything
/// the peer sends beyond it is silently ignored.
pub const FILE_ID_MAX_SIZE: usize = 1024;

/// Largest number of body bytes a response reader accepts (500 MiB);
/// anything beyond it is silently ignored.
pub const FILE_BODY_MAX_SIZE: usize = 500 * 1024 * 1024;

/// The negotiation token identifying this protocol to the transport's
/// protocol-multiplexing layer.
#[derive(Debug, Clone)]
pub struct FileExchangeProtocol();

/// A request asking the peer for one file by an opaque identifier.
#[derive(Debug, Clone, PartialEq, Eq)]
pub struct FileRequest {
    pub file_id: String,
}

/// A response carrying the raw bytes of the requested file.
#[derive(Debug, Clone, PartialEq, Eq)]
pub struct FileResponse {
    pub file_body: Vec<u8>,
}

/// Why reading a request off a stream failed.
#[derive(Debug, Clone, Copy, PartialEq, Eq, Structural)]
pub enum CodecError {
    /// The peer closed the stream without writing a single identifier byte.
    UnexpectedEof,
    /// The identifier bytes kept by the reader are not valid UTF-8.
    InvalidUtf8,
}

/// The character sequence of the negotiation token.
pub open spec fn protocol_id() -> Seq<char> {
    "/universal-connectivity-file/1"@
}

impl FileExchangeProtocol {
    /// The wire bytes of the negotiation token. Both peers must present
    /// these exact bytes for a stream to be dispatched to this protocol.
    pub fn protocol_name(&self) -> (r: &[u8])
        ensures
            r@ == encode_utf8(protocol_id()),
            r@.len() > 0,
    {
        proof {
            lemma_protocol_id_ascii();
        }
        "/universal-connectivity-file/1".as_bytes()
    }

    /// The negotiation token as text, for transports that compare
    /// protocols as strings rather than raw bytes.
    pub fn protocol_name_str(&self) -> (r: &'static str)
        ensures
            r@ == protocol_id(),
    {
        "/universal-connectivity-file/1"
    }
}

/// The negotiation token is plain ASCII and never empty: its wire bytes
/// are, byte for byte, its thirty characters' code points, so an empty or
/// re-encoded token could never be mistaken for it during negotiation.
pub proof fn lemma_protocol_id_ascii()
    ensures
        protocol_id().len() == 30,
        encode_utf8(protocol_id()).len() == 30,
        forall|i|
            0 <= i < 30 ==> #[trigger] encode_utf8(protocol_id())[i] == protocol_id()[i] as u8,
{
    reveal_strlit("/universal-connectivity-file/1");
    assert(is_ascii_chars(protocol_id()));
    is_ascii_chars_encode_utf8(protocol_id());
}

impl FileRequest {
    /// A request the protocol can carry: the identifier is non-empty and
    /// fits the reader's cap. Every request a reader hands out satisfies
    /// this; a writer given an over-long identifier still writes it in
    /// full, and the peer's reader truncates it.
    pub open spec fn wf(&self) -> bool {
        0 < encode_utf8(self.file_id@).len() <= FILE_ID_MAX_SIZE
    }
}

impl FileResponse {
    /// A response the protocol can carry: the body fits the reader's cap.
    /// An empty body is a legitimate empty file.
    pub open spec fn wf(&self) -> bool {
        self.file_body@.len() <= FILE_BODY_MAX_SIZE
    }
}

impl CodecError {
    /// A human-readable description of the failure.
    pub fn message(&self) -> (r: &'static str)
        ensures
            *self == CodecError::UnexpectedEof ==> r@ == "unexpected end of input"@,
            *self == CodecError::InvalidUtf8 ==> r@ == "stream did not contain valid UTF-8"@,
    {
        match self {
            CodecError::UnexpectedEof => "unexpected end of input",
            CodecError::InvalidUtf8 => "stream did not contain valid UTF-8",
        }
    }
}

} // verus!
