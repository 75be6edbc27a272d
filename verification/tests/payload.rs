use resource_loader::payload::{
    decimal_string, decode_with, decoding_for, fetched_payload, frame, relative_path, resource_url, unpack,
    Decoding, Deployment, ErrorKind, Format, LoadError, Payload,
};
use std::io::Write;

fn gzip(content: &[u8]) -> Vec<u8> {
    let mut encoder = flate2::write::GzEncoder::new(Vec::new(), flate2::Compression::default());
    encoder.write_all(content).unwrap();
    encoder.finish().unwrap()
}

#[test]
fn decoding_table() {
    assert_eq!(
        decoding_for("scenario.bin"),
        Decoding { compressed: false, format: Format::Binary }
    );
    assert_eq!(
        decoding_for("scenario.bin.gz"),
        Decoding { compressed: true, format: Format::Binary }
    );
    assert_eq!(
        decoding_for("scenario.json"),
        Decoding { compressed: false, format: Format::Text }
    );
    assert_eq!(
        decoding_for("scenario.json.gz"),
        Decoding { compressed: true, format: Format::Text }
    );
}

#[test]
fn decoding_of_short_and_odd_names() {
    assert_eq!(decoding_for(""), Decoding { compressed: false, format: Format::Text });
    assert_eq!(decoding_for(".gz"), Decoding { compressed: true, format: Format::Text });
    assert_eq!(decoding_for(".bin"), Decoding { compressed: false, format: Format::Binary });
    assert_eq!(decoding_for("bin.gz"), Decoding { compressed: true, format: Format::Text });
    assert_eq!(decoding_for("a.bin.gz.bak"), Decoding { compressed: false, format: Format::Text });
    assert_eq!(decoding_for("a.gz.bin"), Decoding { compressed: false, format: Format::Binary });
}

#[test]
fn decimal_string_values() {
    assert_eq!(decimal_string(0), "0");
    assert_eq!(decimal_string(7), "7");
    assert_eq!(decimal_string(10), "10");
    assert_eq!(decimal_string(404), "404");
    assert_eq!(decimal_string(1234), "1234");
    assert_eq!(decimal_string(65535), "65535");
}

#[test]
fn not_found_names_status_and_text() {
    let e = LoadError::http(404, "Not Found");
    assert_eq!(e.kind, ErrorKind::Transport);
    assert_eq!(e.message, "HTTP 404: Not Found");
    assert!(e.message.contains("404"));
    assert!(e.message.contains("Not Found"));
}

#[test]
fn failed_response_is_a_transport_failure() {
    let e = fetched_payload("a.bin", false, 404, "Not Found", vec![1, 2]).unwrap_err();
    assert_eq!(e.kind, ErrorKind::Transport);
    assert_eq!(e.message, "HTTP 404: Not Found");
    let e = fetched_payload("a.bin.gz", false, 500, "", Vec::new()).unwrap_err();
    assert_eq!((e.kind, e.message.as_str()), (ErrorKind::Transport, "HTTP 500: "));
}

#[test]
fn successful_response_is_unpacked_by_its_address() {
    let payload = fetched_payload("http://0.0.0.0:8000/a.bin", true, 200, "OK", vec![9, 8, 7]);
    let payload = payload.unwrap();
    assert_eq!((payload.format, payload.bytes), (Format::Binary, vec![9, 8, 7]));
    let payload = fetched_payload("http://h/a.json.gz", true, 200, "OK", gzip(b"[7]")).unwrap();
    assert_eq!((payload.format, payload.bytes), (Format::Text, b"[7]".to_vec()));
}

#[test]
fn response_that_does_not_unpack_is_a_decode_failure() {
    let e = fetched_payload("http://h/a.bin.gz", true, 200, "OK", vec![1, 2, 3]).unwrap_err();
    assert_eq!(e.kind, ErrorKind::Decode);
    assert!(!e.message.starts_with("HTTP "));
}

#[test]
fn error_constructors_keep_kind_and_message() {
    let e = LoadError::decode("bad".to_string());
    assert_eq!((e.kind, e.message.as_str()), (ErrorKind::Decode, "bad"));
    let e = LoadError::transport("gone".to_string());
    assert_eq!((e.kind, e.message.as_str()), (ErrorKind::Transport, "gone"));
    let e = LoadError::task("failed".to_string());
    assert_eq!((e.kind, e.message.as_str()), (ErrorKind::Task, "failed"));
    let e = LoadError::canceled();
    assert_eq!((e.kind, e.message.as_str()), (ErrorKind::Canceled, "channel canceled"));
    assert_eq!(LoadError::canceled().to_message(), "channel canceled");
}

#[test]
fn malformed_payload_is_a_decode_failure() {
    let e = unpack("scenario.bin.gz", vec![1, 2, 3, 4, 5]).unwrap_err();
    assert_eq!(e.kind, ErrorKind::Decode);
    assert_ne!(e.kind, LoadError::http(404, "Not Found").kind);
    assert!(!e.message.is_empty());
}

#[test]
fn truncated_gzip_is_a_decode_failure() {
    let mut packed = gzip(b"a long enough body to be cut in the middle of its stream");
    packed.truncate(packed.len() / 2);
    let e = unpack("scenario.json.gz", packed).unwrap_err();
    assert_eq!(e.kind, ErrorKind::Decode);
}

#[test]
fn compressed_binary_is_decompressed() {
    let payload = unpack("scenario.bin.gz", gzip(b"binary body")).unwrap();
    assert_eq!(payload.format, Format::Binary);
    assert_eq!(payload.bytes, b"binary body".to_vec());
}

#[test]
fn compressed_text_is_decompressed() {
    let packed = gzip(b"{\"a\": 1}");
    assert_ne!(packed, b"{\"a\": 1}".to_vec());
    let payload = unpack("scenario.json.gz", packed).unwrap();
    assert_eq!(payload.format, Format::Text);
    assert_eq!(payload.bytes, b"{\"a\": 1}".to_vec());
}

#[test]
fn compressed_empty_body_is_empty() {
    let payload = unpack("empty.gz", gzip(b"")).unwrap();
    assert_eq!(payload.format, Format::Text);
    assert!(payload.bytes.is_empty());
}

#[test]
fn plain_bodies_are_kept_as_they_are() {
    let payload = unpack("scenario.bin", vec![0x1f, 0x8b, 3]).unwrap();
    assert_eq!(payload.format, Format::Binary);
    assert_eq!(payload.bytes, vec![0x1f, 0x8b, 3]);
    let payload = unpack("scenario.json", b"{}".to_vec()).unwrap();
    assert_eq!(payload.format, Format::Text);
    assert_eq!(payload.bytes, b"{}".to_vec());
}

#[test]
fn frame_tags_or_fails() {
    let payload = frame(Format::Binary, Ok(vec![1])).unwrap();
    assert_eq!((payload.format, payload.bytes), (Format::Binary, vec![1]));
    let e = frame(Format::Text, Err("corrupt".to_string())).unwrap_err();
    assert_eq!((e.kind, e.message.as_str()), (ErrorKind::Decode, "corrupt"));
}

#[test]
fn remote_bundle_url_gets_the_gz_suffix() {
    assert_eq!(
        resource_url(Deployment::RemoteBundle, "system/seattle/maps/montlake.bin"),
        "http://abstreet.s3-website.us-east-2.amazonaws.com/dev/data/system/seattle/maps/montlake.bin.gz"
    );
}

#[test]
fn local_url_is_the_path_as_it_is() {
    assert_eq!(
        resource_url(Deployment::LocalDev, "system/seattle/maps/montlake.bin"),
        "http://0.0.0.0:8000/system/seattle/maps/montlake.bin"
    );
    assert_eq!(resource_url(Deployment::LocalDev, ""), "http://0.0.0.0:8000/");
}

#[test]
fn relative_path_strips_the_root() {
    assert_eq!(relative_path("../data/system/a.bin", "../data/"), Some("system/a.bin"));
    assert_eq!(relative_path("../data/", "../data/"), Some(""));
    assert_eq!(relative_path("a.bin", ""), Some("a.bin"));
    assert_eq!(relative_path("/elsewhere/a.bin", "../data/"), None);
    assert_eq!(relative_path("..", "../data/"), None);
}

fn as_text(payload: Payload) -> Result<String, String> {
    String::from_utf8(payload.bytes).map_err(|_| "not text".to_string())
}

#[test]
fn decoded_value_is_the_decoders() {
    let unpacked = fetched_payload("http://h/a.json", true, 200, "OK", b"[1]".to_vec());
    assert_eq!(decode_with(unpacked, as_text).unwrap(), "[1]");
}

#[test]
fn payload_that_the_decoder_refuses_is_a_decode_failure() {
    let unpacked = fetched_payload("http://h/a.json", true, 200, "OK", vec![0xff, 0xfe]);
    let e = decode_with(unpacked, as_text).unwrap_err();
    assert_eq!((e.kind, e.message.as_str()), (ErrorKind::Decode, "not text"));
    assert_ne!(e.kind, ErrorKind::Transport);
}

#[test]
fn failure_from_before_the_decoder_is_passed_on() {
    let unpacked = fetched_payload("http://h/a.json", false, 404, "Not Found", Vec::new());
    let e = decode_with(unpacked, as_text).unwrap_err();
    assert_eq!((e.kind, e.message.as_str()), (ErrorKind::Transport, "HTTP 404: Not Found"));
}
