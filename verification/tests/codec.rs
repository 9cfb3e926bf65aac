//! Frame and unframe messages over the Content-Length transport.

use faang::codec::LSPCodec;

#[test]
fn decodes_correctly() {
    let mut codec = LSPCodec::new();
    let mut stream: Vec<u8> = Vec::new();

    // putting a content length without data should do nothing
    stream.extend_from_slice(b"Content-Length: 69");
    assert_eq!(codec.decode(&mut stream).expect("should decode"), None);
    assert_eq!(stream, b"Content-Length: 69".to_vec());

    // putting data longer than the content length should only return that
    // many bytes
    stream.extend_from_slice(
        &format!(
            "\r\n\r\n{}Content-Length: {}\r\n\r\n",
            "{\"jsonrpc\": \"2.0\", \"method\": \"subtract\", \"params\": [42, 23], \"id\": 1}",
            61
        )
        .into_bytes()[..],
    );
    assert_eq!(
        codec.decode(&mut stream).expect("it should decode"),
        Some(
            b"{\"jsonrpc\": \"2.0\", \"method\": \"subtract\", \"params\": [42, 23], \"id\": 1}"
                .to_vec()
        )
    );
    assert_eq!(stream, b"Content-Length: 61\r\n\r\n".to_vec());
}

#[test]
fn encodes_prefixes_data_with_content_length() {
    let mut codec = LSPCodec::new();
    let mut output_stream: Vec<u8> = Vec::new();

    let data =
        b"{\"jsonrpc\":\"2.0\",\"error\":{\"code\":-32601,\"message\":\"Method not found\"},\"id\":1}"
            .to_vec();
    codec
        .encode(&data, &mut output_stream)
        .expect("it should encode");

    let mut expected = b"Content-Length: 77\r\n\r\n".to_vec();
    expected.extend_from_slice(&data);
    assert_eq!(output_stream, expected);
}

#[test]
fn encode_skips_empty_data() {
    let mut codec = LSPCodec::new();
    let mut output_stream: Vec<u8> = Vec::new();
    codec
        .encode(&Vec::new(), &mut output_stream)
        .expect("it should encode");
    assert!(output_stream.is_empty());
}

#[test]
fn decode_waits_for_content() {
    let mut codec = LSPCodec::new();
    // header and separator present, but only part of the content arrived
    let mut stream = b"Content-Length: 10\r\n\r\nabc".to_vec();
    assert_eq!(codec.decode(&mut stream).expect("should decode"), None);
    assert_eq!(stream, b"Content-Length: 10\r\n\r\nabc".to_vec());
}

#[test]
fn decode_takes_exact_content() {
    let mut codec = LSPCodec::new();
    let mut stream = b"Content-Length: 2\r\n\r\nhello".to_vec();
    assert_eq!(
        codec.decode(&mut stream).expect("should decode"),
        Some(b"he".to_vec())
    );
    assert_eq!(stream, b"llo".to_vec());
}
