use std::io::Write;

use compressed_log_sink::decoder::encode;
use compressed_log_sink::handler::{Action, Connection, Frame};
use compressed_log_sink::sink::{choose_dest, resolve_open, SinkDest};

/// Compress bytes with lz4_flex directly, bypassing the library.
fn lz4_fixture(bytes: &[u8]) -> Vec<u8> {
    let mut enc = lz4_flex::frame::FrameEncoder::new(Vec::new());
    enc.write_all(bytes).unwrap();
    enc.finish().unwrap()
}

#[test]
fn ping_elicits_one_pong_and_no_write() {
    let mut conn = Connection::new(SinkDest::StandardOutput);
    let action = conn.handle_frame(Frame::Ping(b"x".to_vec()));
    match action {
        Action::Pong(payload) => assert_eq!(payload, b"x".to_vec()),
        _ => panic!("a ping must be answered with a pong"),
    }
    assert!(conn.is_open());
}

#[test]
fn text_is_ignored() {
    let mut conn = Connection::new(SinkDest::StandardOutput);
    let action = conn.handle_frame(Frame::Text("ignored".to_owned()));
    assert!(matches!(action, Action::Ignore));
    assert!(conn.is_open());
}

#[test]
fn unrecognized_frame_is_ignored() {
    let mut conn = Connection::new(SinkDest::StandardOutput);
    let action = conn.handle_frame(Frame::Other);
    assert!(matches!(action, Action::Ignore));
    assert!(conn.is_open());
}

#[test]
fn binary_frame_is_decoded_and_written() {
    let mut conn = Connection::new(SinkDest::StandardOutput);
    let action = conn.handle_frame(Frame::Binary(lz4_fixture(b"a chunk of log text\n")));
    match action {
        Action::Write(bytes) => assert_eq!(bytes, b"a chunk of log text\n".to_vec()),
        _ => panic!("a decodable binary frame must be written"),
    }
    assert!(conn.is_open());
}

#[test]
fn frames_are_delivered_in_order() {
    let mut conn = Connection::new(SinkDest::StandardOutput);
    let mut destination: Vec<u8> = Vec::new();
    for chunk in [&b"first\n"[..], &b"second\n"[..]] {
        match conn.handle_frame(Frame::Binary(lz4_fixture(chunk))) {
            Action::Write(bytes) => destination.extend_from_slice(&bytes),
            _ => panic!("a decodable binary frame must be written"),
        }
    }
    assert_eq!(destination, b"first\nsecond\n".to_vec());
}

#[test]
fn corrupted_frame_is_skipped_and_the_next_one_lands() {
    let mut conn = Connection::new(SinkDest::StandardOutput);
    let mut destination: Vec<u8> = Vec::new();

    let bad = conn.handle_frame(Frame::Binary(b"corrupted".to_vec()));
    assert!(matches!(bad, Action::Ignore));
    assert!(conn.is_open());

    match conn.handle_frame(Frame::Binary(lz4_fixture(b"still here\n"))) {
        Action::Write(bytes) => destination.extend_from_slice(&bytes),
        _ => panic!("the valid frame after a corrupted one must still be written"),
    }
    assert_eq!(destination, b"still here\n".to_vec());
}

#[test]
fn write_failure_keeps_the_connection_open() {
    let mut conn = Connection::new(SinkDest::AppendFile("/tmp/out.log".to_owned()));
    match conn.handle_frame(Frame::Binary(lz4_fixture(b"first\n"))) {
        // The destination rejected the write; the failure is only logged.
        Action::Write(_) => conn.write_failed(),
        _ => panic!("a decodable binary frame must be written"),
    }
    assert!(conn.is_open());
    match conn.handle_frame(Frame::Binary(lz4_fixture(b"second\n"))) {
        Action::Write(bytes) => assert_eq!(bytes, b"second\n".to_vec()),
        _ => panic!("the stream must continue after a write failure"),
    }
}

#[test]
fn close_shuts_the_connection_down() {
    let mut conn = Connection::new(SinkDest::StandardOutput);
    let action = conn.handle_frame(Frame::Close);
    assert!(matches!(action, Action::Shutdown));
    assert!(!conn.is_open());
    conn.released();
    assert!(conn.is_closed());
}

#[test]
fn default_connection_goes_to_standard_output() {
    let conn = Connection::default();
    assert!(conn.is_open());
    assert!(matches!(conn.dest(), SinkDest::StandardOutput));
}

#[test]
fn output_marker_selects_standard_output() {
    assert!(matches!(choose_dest(&"-".to_owned()), SinkDest::StandardOutput));
    assert!(matches!(choose_dest(&"stdout".to_owned()), SinkDest::StandardOutput));
    match choose_dest(&"/var/log/sink.log".to_owned()) {
        SinkDest::AppendFile(path) => assert_eq!(path, "/var/log/sink.log"),
        SinkDest::StandardOutput => panic!("a path must select a file destination"),
    }
}

#[test]
fn failed_open_falls_back_to_standard_output() {
    let requested = choose_dest(&"/nonexistent/dir/out.log".to_owned());
    let resolved = resolve_open(requested, false);
    assert!(matches!(resolved, SinkDest::StandardOutput));
}

#[test]
fn successful_open_keeps_the_file_destination() {
    let requested = choose_dest(&"/tmp/out.log".to_owned());
    match resolve_open(requested, true) {
        SinkDest::AppendFile(path) => assert_eq!(path, "/tmp/out.log"),
        SinkDest::StandardOutput => panic!("a successful open must keep the file destination"),
    }
    let stdout_dest = resolve_open(SinkDest::StandardOutput, true);
    assert!(matches!(stdout_dest, SinkDest::StandardOutput));
}

#[test]
fn one_frame_of_hello_reaches_the_configured_file() {
    // Configure output=/tmp/out.log, open one connection, send one binary
    // frame compressing "hello\n": exactly "hello\n" reaches the destination.
    let requested = choose_dest(&"/tmp/out.log".to_owned());
    let dest = resolve_open(requested, true);
    let mut conn = Connection::new(dest);

    let mut destination: Vec<u8> = Vec::new();
    match conn.handle_frame(Frame::Binary(encode(&b"hello\n".to_vec()))) {
        Action::Write(bytes) => destination.extend_from_slice(&bytes),
        _ => panic!("the frame must be decoded and written"),
    }
    assert_eq!(destination, b"hello\n".to_vec());
    match conn.dest() {
        SinkDest::AppendFile(path) => assert_eq!(path, "/tmp/out.log"),
        SinkDest::StandardOutput => panic!("the connection must keep its file destination"),
    }
}
