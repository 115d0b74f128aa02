//! The exchange codec: how request and response messages become the raw
//! bytes of one stream, and how the bytes a reader collected before the
//! peer's half-close become messages again.
//!
//! The codec works on whole byte buffers. Pumping those bytes over an
//! actual stream — reading until end-of-stream or the cap, writing in
//! full, half-closing — is the surrounding engine's job.

use crate::protocol::{CodecError, FileRequest, FileResponse, FILE_BODY_MAX_SIZE, FILE_ID_MAX_SIZE};
use vstd::prelude::*;
use vstd::string::StrSliceExecFns;
use vstd::utf8::{
    decode_utf8, decode_utf8_encode_utf8, encode_utf8, encode_utf8_decode_utf8,
    encode_utf8_valid_utf8, valid_utf8,
};

verus! {

/// Serializer/deserializer for both directions of one exchange.
/// Stateless: one value serves any number of streams.
#[derive(Clone)]
pub struct FileExchangeCodec();

/// The first `cap` bytes of `data`, or all of `data` when it is shorter.
pub open spec fn truncated_to(data: Seq<u8>, cap: int) -> Seq<u8> {
    if data.len() <= cap {
        data
    } else {
        data.subrange(0, cap)
    }
}

/// What a request reader makes of the bytes it collected before the peer
/// half-closed the stream: keep at most [`FILE_ID_MAX_SIZE`] bytes, treat
/// an empty identifier as a malformed request, and decode the kept bytes
/// as UTF-8 text.
pub open spec fn decode_request_spec(data: Seq<u8>) -> Result<Seq<char>, CodecError> {
    let kept = truncated_to(data, FILE_ID_MAX_SIZE as int);
    if kept.len() == 0 {
        Err(CodecError::UnexpectedEof)
    } else if valid_utf8(kept) {
        Ok(decode_utf8(kept))
    } else {
        Err(CodecError::InvalidUtf8)
    }
}

/// What a response reader makes of the bytes it collected: keep at most
/// [`FILE_BODY_MAX_SIZE`] bytes. Any body is valid, the empty one too.
pub open spec fn decode_response_spec(data: Seq<u8>) -> Seq<u8> {
    truncated_to(data, FILE_BODY_MAX_SIZE as int)
}

/// Relies on `String::from_utf8`: it succeeds exactly on valid UTF-8 and
/// returns the string whose bytes are the input, unchanged.
#[verifier::external_body]
fn bytes_to_string(v: Vec<u8>) -> (r: Option<String>)
    ensures
        r is Some <==> valid_utf8(v@),
        r matches Some(s) ==> encode_utf8(s@) == v@,
{
    String::from_utf8(v).ok()
}

impl FileExchangeCodec {
    /// The bytes the initiator writes for a request: the identifier's raw
    /// UTF-8 bytes, in full, with no length prefix and no terminator.
    /// End-of-request is signalled by the caller half-closing the stream
    /// after the write.
    pub fn encode_request(&self, request: FileRequest) -> (r: Vec<u8>)
        ensures
            r@ == encode_utf8(request.file_id@),
    {
        request.file_id.as_str().as_bytes_vec()
    }

    /// Rebuilds a request from the bytes read off a stream up to
    /// end-of-stream or the reader's cap, whichever came first.
    ///
    /// At most [`FILE_ID_MAX_SIZE`] bytes are kept; a peer that sent more
    /// is silently truncated, never rejected. Zero bytes mean the peer
    /// closed the stream without a request, a malformed exchange. The kept
    /// bytes must be valid UTF-8.
    pub fn decode_request(&self, data: Vec<u8>) -> (r: Result<FileRequest, CodecError>)
        ensures
            r is Ok <==> decode_request_spec(data@) is Ok,
            r matches Ok(request) ==> {
                &&& request.file_id@ == decode_request_spec(data@).unwrap()
                &&& request.wf()
            },
            r matches Err(e) ==> decode_request_spec(data@) == Err::<Seq<char>, CodecError>(e),
    {
        let ghost received = data@;
        let mut data = data;
        if data.len() > FILE_ID_MAX_SIZE {
            data.truncate(FILE_ID_MAX_SIZE);
        }
        proof {
            assert(data@ == truncated_to(received, FILE_ID_MAX_SIZE as int));
        }
        if data.len() == 0 {
            return Err(CodecError::UnexpectedEof);
        }
        match bytes_to_string(data) {
            Some(file_id) => {
                proof {
                    encode_utf8_decode_utf8(file_id@);
                }
                Ok(FileRequest { file_id })
            },
            None => Err(CodecError::InvalidUtf8),
        }
    }

    /// The bytes the responder writes for a response: the file body as is,
    /// with no framing metadata. End-of-response is, again, the caller
    /// half-closing the stream after the write.
    pub fn encode_response(&self, response: FileResponse) -> (r: Vec<u8>)
        ensures
            r@ == response.file_body@,
    {
        response.file_body
    }

    /// Rebuilds a response from the bytes read off a stream up to
    /// end-of-stream or the reader's cap, whichever came first.
    ///
    /// At most [`FILE_BODY_MAX_SIZE`] bytes are kept. Unlike the request
    /// side, zero bytes are a valid response: an empty file. Decoding
    /// itself cannot fail; a transport error while collecting the bytes is
    /// the stream driver's to report, never to discard.
    pub fn decode_response(&self, data: Vec<u8>) -> (r: FileResponse)
        ensures
            r.file_body@ == decode_response_spec(data@),
            r.wf(),
    {
        let mut data = data;
        if data.len() > FILE_BODY_MAX_SIZE {
            data.truncate(FILE_BODY_MAX_SIZE);
        }
        FileResponse { file_body: data }
    }
}

/// Round-trip of a request: an identifier whose byte form is non-empty and
/// within the reader's cap is reproduced exactly by writing it and reading
/// it back.
pub proof fn lemma_request_round_trip(id: Seq<char>)
    requires
        0 < encode_utf8(id).len() <= FILE_ID_MAX_SIZE,
    ensures
        decode_request_spec(encode_utf8(id)) == Ok::<Seq<char>, CodecError>(id),
{
    encode_utf8_valid_utf8(id);
    encode_utf8_decode_utf8(id);
}

/// Truncation of an over-long request: an identifier whose byte form
/// exceeds the reader's cap comes back as exactly the first
/// [`FILE_ID_MAX_SIZE`] of its bytes — not a failure, and not the full
/// value — provided the cut lands on a character boundary, so that the
/// kept bytes are still valid UTF-8.
pub proof fn lemma_request_truncated(id: Seq<char>)
    requires
        encode_utf8(id).len() > FILE_ID_MAX_SIZE,
        valid_utf8(encode_utf8(id).subrange(0, FILE_ID_MAX_SIZE as int)),
    ensures
        decode_request_spec(encode_utf8(id)) is Ok,
        encode_utf8(decode_request_spec(encode_utf8(id)).unwrap()) == encode_utf8(id).subrange(
            0,
            FILE_ID_MAX_SIZE as int,
        ),
        decode_request_spec(encode_utf8(id)).unwrap() != id,
{
    let kept = encode_utf8(id).subrange(0, FILE_ID_MAX_SIZE as int);
    decode_utf8_encode_utf8(kept);
    assert(encode_utf8(decode_utf8(kept)).len() != encode_utf8(id).len());
}

/// A stream closed after zero request bytes is a malformed exchange: the
/// reader fails with an unexpected-end-of-input error, whatever the
/// stream's state was otherwise.
pub proof fn lemma_empty_request_rejected(data: Seq<u8>)
    requires
        data.len() == 0,
    ensures
        decode_request_spec(data) == Err::<Seq<char>, CodecError>(CodecError::UnexpectedEof),
{
}

/// Round-trip of a response: any body within the reader's cap, the empty
/// body included, is reproduced exactly by writing it and reading it back.
pub proof fn lemma_response_round_trip(body: Seq<u8>)
    requires
        body.len() <= FILE_BODY_MAX_SIZE,
    ensures
        decode_response_spec(body) == body,
{
}

} // verus!
