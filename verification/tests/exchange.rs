use file_exchange::codec::FileExchangeCodec;
use file_exchange::protocol::{
    CodecError, FileExchangeProtocol, FileRequest, FileResponse, FILE_BODY_MAX_SIZE,
    FILE_ID_MAX_SIZE,
};

#[test]
fn request_round_trip_hello() {
    let codec = FileExchangeCodec();
    let wire = codec.encode_request(FileRequest {
        file_id: String::from("hello.txt"),
    });
    assert_eq!(wire, b"hello.txt".to_vec());
    let back = codec.decode_request(wire);
    assert_eq!(
        back,
        Ok(FileRequest {
            file_id: String::from("hello.txt"),
        })
    );
}

#[test]
fn request_round_trip_multibyte() {
    let codec = FileExchangeCodec();
    let id = String::from("r\u{e9}sum\u{e9}-\u{20ac}.txt");
    let wire = codec.encode_request(FileRequest {
        file_id: id.clone(),
    });
    let back = codec.decode_request(wire).unwrap();
    assert_eq!(back.file_id, id);
}

#[test]
fn request_round_trip_max_length() {
    let codec = FileExchangeCodec();
    let id: String = std::iter::repeat('x').take(FILE_ID_MAX_SIZE).collect();
    let wire = codec.encode_request(FileRequest {
        file_id: id.clone(),
    });
    assert_eq!(wire.len(), FILE_ID_MAX_SIZE);
    let back = codec.decode_request(wire).unwrap();
    assert_eq!(back.file_id, id);
}

#[test]
fn empty_request_rejected() {
    let codec = FileExchangeCodec();
    let back = codec.decode_request(Vec::new());
    assert_eq!(back, Err(CodecError::UnexpectedEof));
    assert_eq!(
        CodecError::UnexpectedEof.message(),
        "unexpected end of input"
    );
}

#[test]
fn long_request_truncated() {
    let codec = FileExchangeCodec();
    let id: String = std::iter::repeat('a').take(2000).collect();
    let wire = codec.encode_request(FileRequest { file_id: id });
    assert_eq!(wire.len(), 2000);
    let back = codec.decode_request(wire).unwrap();
    let expected: String = std::iter::repeat('a').take(FILE_ID_MAX_SIZE).collect();
    assert_eq!(back.file_id, expected);
}

#[test]
fn request_cut_inside_char_rejected() {
    // 1023 ASCII bytes followed by a three-byte character: the reader's cap
    // falls inside the character, so the kept bytes are not valid UTF-8.
    let codec = FileExchangeCodec();
    let mut id: String = std::iter::repeat('a').take(FILE_ID_MAX_SIZE - 1).collect();
    id.push('\u{20ac}');
    let wire = codec.encode_request(FileRequest { file_id: id });
    assert_eq!(wire.len(), FILE_ID_MAX_SIZE + 2);
    let back = codec.decode_request(wire);
    assert_eq!(back, Err(CodecError::InvalidUtf8));
}

#[test]
fn invalid_utf8_request_rejected() {
    let codec = FileExchangeCodec();
    let back = codec.decode_request(vec![0xff, 0xfe, 0xfd]);
    assert_eq!(back, Err(CodecError::InvalidUtf8));
    assert_eq!(
        CodecError::InvalidUtf8.message(),
        "stream did not contain valid UTF-8"
    );
}

#[test]
fn response_round_trip() {
    let codec = FileExchangeCodec();
    let body = vec![0u8, 1, 2, 3, 254, 255, 42];
    let wire = codec.encode_response(FileResponse {
        file_body: body.clone(),
    });
    assert_eq!(wire, body);
    let back = codec.decode_response(wire);
    assert_eq!(back.file_body, body);
}

#[test]
fn empty_response_accepted() {
    let codec = FileExchangeCodec();
    let wire = codec.encode_response(FileResponse {
        file_body: Vec::new(),
    });
    assert_eq!(wire.len(), 0);
    let back = codec.decode_response(wire);
    assert_eq!(back.file_body, Vec::new());
}

#[test]
fn response_at_cap_kept_whole() {
    let codec = FileExchangeCodec();
    let body = vec![0xabu8; FILE_BODY_MAX_SIZE];
    let back = codec.decode_response(body);
    assert_eq!(back.file_body.len(), FILE_BODY_MAX_SIZE);
    assert!(back.file_body.iter().all(|&b| b == 0xab));
}

#[test]
fn response_over_cap_truncated() {
    let codec = FileExchangeCodec();
    let body = vec![0xabu8; FILE_BODY_MAX_SIZE + 1];
    let back = codec.decode_response(body);
    assert_eq!(back.file_body.len(), FILE_BODY_MAX_SIZE);
    assert!(back.file_body.iter().all(|&b| b == 0xab));
}

#[test]
fn protocol_identity_bytes() {
    let protocol = FileExchangeProtocol();
    assert_eq!(
        protocol.protocol_name(),
        b"/universal-connectivity-file/1"
    );
    assert_eq!(
        protocol.protocol_name_str(),
        "/universal-connectivity-file/1"
    );
    assert_eq!(
        protocol.protocol_name(),
        protocol.protocol_name_str().as_bytes()
    );
    assert!(!protocol.protocol_name().is_empty());
}
