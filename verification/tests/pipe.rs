use laska::pipe::{PipeError, PipeStreamReader, PipedLine, ReadEvent, ReaderAction, LINE_FEED};
use std::io::{Error, ErrorKind};

fn feed(reader: &mut PipeStreamReader, bytes: &[u8]) -> Vec<ReaderAction> {
    bytes.iter().map(|byte| reader.on_read(ReadEvent::Byte(*byte))).collect()
}

fn line_of(action: &ReaderAction) -> Option<&str> {
    match &action.emit {
        Some(Ok(PipedLine::Line(text))) => Some(text.as_str()),
        _ => None,
    }
}

#[test]
fn line_feed_is_0x0a() {
    assert_eq!(LINE_FEED, b'\n');
}

#[test]
fn bytes_join_the_line_until_a_line_feed() {
    let mut reader = PipeStreamReader::new();
    let actions = feed(&mut reader, b"ab\n");
    assert!(actions[0].emit.is_none() && !actions[0].stop);
    assert!(actions[1].emit.is_none() && !actions[1].stop);
    assert_eq!(line_of(&actions[2]), Some("ab"));
    assert!(!actions[2].stop);
}

#[test]
fn lines_follow_each_other() {
    let mut reader = PipeStreamReader::new();
    let actions = feed(&mut reader, b"one\n\ntwo\r\n");
    let lines: Vec<&str> = actions.iter().filter_map(line_of).collect();
    assert_eq!(lines, vec!["one", "", "two\r"]);
}

#[test]
fn line_is_decoded_as_utf8() {
    let mut reader = PipeStreamReader::new();
    let actions = feed(&mut reader, "h\u{e9}llo \u{1f600}\n".as_bytes());
    assert_eq!(line_of(actions.last().unwrap()), Some("h\u{e9}llo \u{1f600}"));
}

#[test]
fn line_that_is_not_utf8_is_an_error() {
    let mut reader = PipeStreamReader::new();
    let actions = feed(&mut reader, &[b'a', 0xff, b'\n']);
    match &actions[2].emit {
        Some(Err(PipeError::NotUtf8(error))) => assert_eq!(error.as_bytes(), &[b'a', 0xff]),
        other => panic!("unexpected: {:?}", other),
    }
    let actions = feed(&mut reader, b"ok\n");
    assert_eq!(line_of(&actions[2]), Some("ok"));
}

#[test]
fn end_of_stream_stops_and_drops_the_unfinished_line() {
    let mut reader = PipeStreamReader::new();
    feed(&mut reader, b"partial");
    let action = reader.on_read(ReadEvent::End);
    assert!(matches!(action.emit, Some(Ok(PipedLine::EOF))));
    assert!(action.stop);
    let actions = feed(&mut reader, b"\n");
    assert_eq!(line_of(&actions[0]), Some(""));
}

#[test]
fn read_failure_is_handed_on_and_reading_goes_on() {
    let mut reader = PipeStreamReader::new();
    feed(&mut reader, b"ab");
    let action = reader.on_read(ReadEvent::Failed(Error::new(ErrorKind::Interrupted, "again")));
    match action.emit {
        Some(Err(PipeError::IO(error))) => assert_eq!(error.kind(), ErrorKind::Interrupted),
        other => panic!("unexpected: {:?}", other),
    }
    assert!(!action.stop);
    let actions = feed(&mut reader, b"c\n");
    assert_eq!(line_of(&actions[1]), Some("abc"));
}
