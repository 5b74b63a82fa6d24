//! Lines on a pipe.

use mochi::client::pipe::FaultKind;
use mochi::client::protocol::{
    frame, read_line, to_newline, write_message, ByteReader, Frame, FrameError, MAX_MESSAGE_BYTES,
};
use mochi::client::Command;

/// Reads a command that has no payload.
fn read_message(reader: &mut ByteReader) -> Result<Option<Command>, FrameError> {
    let Some(line) = read_line(reader)? else {
        return Ok(None);
    };
    let value: serde_json::Value =
        serde_json::from_str(&line).map_err(|e| FrameError::Malformed(e.to_string()))?;
    [Command::State, Command::Stop, Command::Retile]
        .into_iter()
        .find(|command| value["cmd"] == command.name())
        .map(Some)
        .ok_or_else(|| FrameError::Malformed("unknown command".to_owned()))
}

/// The JSON of a command that has no payload.
fn json(command: &Command) -> Vec<u8> {
    format!("{{\"cmd\":\"{}\"}}", command.name()).into_bytes()
}

#[test]
fn write_then_read_round_trips() {
    let mut buf = Vec::new();
    write_message(&mut buf, json(&Command::State));
    write_message(&mut buf, json(&Command::Stop));

    let mut reader = ByteReader::new(buf);
    assert_eq!(
        read_message(&mut reader).unwrap(),
        Some(Command::State)
    );
    assert_eq!(
        read_message(&mut reader).unwrap(),
        Some(Command::Stop)
    );
    assert_eq!(read_message(&mut reader).unwrap(), None);
}

#[test]
fn blank_lines_and_crlf_are_tolerated() {
    let raw = "\n\r\n{\"cmd\":\"retile\"}\r\n\n";
    let mut reader = ByteReader::new(raw.as_bytes().to_vec());
    assert_eq!(
        read_message(&mut reader).unwrap(),
        Some(Command::Retile)
    );
    assert_eq!(read_message(&mut reader).unwrap(), None);
}

#[test]
fn garbage_is_an_invalid_data_error_not_a_panic() {
    let mut reader = ByteReader::new(b"not json\n".to_vec());
    let err = read_message(&mut reader).unwrap_err();
    assert_eq!(err.kind(), FaultKind::InvalidData);
}

#[test]
fn an_oversized_line_is_refused_and_the_stream_stays_usable() {
    // A peer that never sends a newline must not be able to make the reader
    // allocate without bound.
    let mut raw = vec![b'x'; MAX_MESSAGE_BYTES + 32];
    raw.extend_from_slice(b"\n{\"cmd\":\"retile\"}\n");
    let mut reader = ByteReader::new(raw);

    let err = read_message(&mut reader).unwrap_err();
    assert_eq!(err.kind(), FaultKind::InvalidData);
    assert!(err.to_string().contains("maximum line length"), "{err:?}");

    // The rest of the oversized line went with it, so the stream is back on
    // a message boundary and the next real message reads cleanly, which is
    // what keeps a connection usable.
    assert_eq!(
        read_message(&mut reader).unwrap(),
        Some(Command::Retile)
    );
}

#[test]
fn the_tail_of_an_oversized_line_never_becomes_a_message() {
    // One unterminated line on the wire: padding, then something that looks
    // like a command, then the only newline. A reader that starts a fresh
    // window where the size limit hit would hand the second half to its
    // caller as a message the peer never framed, which on the command pipe
    // means stopping the window manager.
    let mut raw = vec![b'x'; MAX_MESSAGE_BYTES];
    raw.extend_from_slice(br#"{"cmd":"stop"}"#);
    raw.push(b'\n');
    let mut reader = ByteReader::new(raw);

    let err = read_message(&mut reader).unwrap_err();
    assert_eq!(err.kind(), FaultKind::InvalidData);
    assert_eq!(
        read_message(&mut reader).unwrap(),
        None,
        "the tail of an over-long line was framed as a command"
    );
}

#[test]
fn a_bad_line_does_not_swallow_the_good_one_after_it() {
    // The newline is taken with the bad byte, so discarding up to another one
    // would take the whole of the next message.
    let mut reader = ByteReader::new(b"\xFF\n{\"cmd\":\"retile\"}\n".to_vec());

    let first = read_line(&mut reader);
    assert!(first.is_err(), "a non-UTF-8 line must be refused");

    let second = read_line(&mut reader)
        .expect("the stream should still be framed")
        .expect("the message after it is still there");
    assert_eq!(
        second, "{\"cmd\":\"retile\"}",
        "the good line was swallowed"
    );
}

#[test]
fn a_message_without_its_newline_is_not_a_message() {
    // A truncated write is not an instruction.
    let mut reader = ByteReader::new(b"{\"cmd\":\"stop\"}".to_vec());
    assert!(
        read_line(&mut reader).is_err(),
        "an unterminated line was accepted as a whole message"
    );

    // And a properly terminated one is still accepted, of course.
    let mut good = ByteReader::new(b"{\"cmd\":\"stop\"}\n".to_vec());
    assert_eq!(
        read_line(&mut good).expect("reads").expect("a message"),
        "{\"cmd\":\"stop\"}"
    );
}

#[test]
fn a_line_that_is_not_utf8_does_not_desync_the_framing_either() {
    // The same, with bytes that are not UTF-8 in the padding.
    let mut raw = vec![0xFF; MAX_MESSAGE_BYTES];
    raw.extend_from_slice(br#"{"cmd":"stop"}"#);
    raw.push(b'\n');
    let mut reader = ByteReader::new(raw);

    let err = read_message(&mut reader).unwrap_err();
    assert_eq!(err.kind(), FaultKind::InvalidData);
    assert_eq!(
        read_message(&mut reader).unwrap(),
        None,
        "the tail of a line that was not utf-8 was framed as a command"
    );
}

#[test]
fn a_half_line_at_end_of_stream_is_an_error_not_a_hang() {
    let mut reader = ByteReader::new(br#"{"cmd":"sta"#.to_vec());
    assert_eq!(read_message(&mut reader).unwrap_err().kind(), FaultKind::InvalidData);
    assert_eq!(read_message(&mut reader).unwrap(), None);
}

#[test]
fn a_frame_is_judged_by_its_bytes() {
    assert_eq!(frame(b""), Frame::End);
    assert_eq!(frame(b"\n"), Frame::Blank);
    assert_eq!(frame(b"\r\r\n"), Frame::Blank);
    assert_eq!(frame(b"hi\r\n"), Frame::Message("hi".to_owned()));
    assert_eq!(frame("gr\u{fc}n\n".as_bytes()), Frame::Message("gr\u{fc}n".to_owned()));
    assert_eq!(frame(b"hi"), Frame::Broken(FrameError::Truncated));
    assert_eq!(frame(b"\xff\n"), Frame::Broken(FrameError::NotText));
    assert_eq!(frame(&vec![b'x'; MAX_MESSAGE_BYTES]), Frame::Broken(FrameError::TooLong));
}

#[test]
fn the_rest_of_a_line_ends_with_its_newline() {
    assert_eq!(to_newline(b"tail\nnext"), (true, 5));
    assert_eq!(to_newline(b"tail"), (false, 4));
    assert_eq!(to_newline(b""), (false, 0));
}

#[test]
fn frame_errors_say_what_is_wrong() {
    assert_eq!(FrameError::Truncated.to_string(), "the stream ended in the middle of a message");
    assert_eq!(FrameError::NotText.to_string(), "message is not valid UTF-8");
    assert_eq!(FrameError::Malformed("x".to_owned()).to_string(), "malformed message: x");
}
