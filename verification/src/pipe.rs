//! Cutting a stream of bytes into lines.
//!
//! The stream is read elsewhere, byte by byte; the reader here is told what
//! each read gave and says what is to be handed on.

use vstd::prelude::*;
use vstd::utf8::{decode_utf8, valid_utf8};

verus! {

/// The byte that ends a line.
pub const LINE_FEED: u8 = 0x0A;

/// `std::io::Error`: the failure of a read. It is carried through as it
/// is; nothing is said of what it holds.
#[verifier::external_type_specification]
#[verifier::external_body]
pub struct ExIoError(std::io::Error);

/// `std::string::FromUtf8Error`: what `String::from_utf8` gives for bytes
/// that are not UTF-8. It is carried through as it is; nothing is said of
/// what it holds.
#[verifier::external_type_specification]
#[verifier::external_body]
pub struct ExFromUtf8Error(std::string::FromUtf8Error);

/// Why no line could be handed on.
#[derive(Debug)]
pub enum PipeError {
    /// Reading the stream failed.
    IO(std::io::Error),
    /// The bytes of the line are not UTF-8.
    NotUtf8(std::string::FromUtf8Error),
}

/// What the stream gave.
#[derive(Debug)]
pub enum PipedLine {
    /// One line, without the line feed that ended it.
    Line(String),
    /// The stream is at its end.
    EOF,
}

/// What one read of the stream gave.
#[derive(Debug)]
pub enum ReadEvent {
    /// One byte.
    Byte(u8),
    /// Nothing: the stream is at its end.
    End,
    /// A failure.
    Failed(std::io::Error),
}

/// What to do after a read.
#[derive(Debug)]
pub struct ReaderAction {
    /// What to hand on to whoever waits for lines, if anything.
    pub emit: Option<Result<PipedLine, PipeError>>,
    /// Whether reading is over.
    pub stop: bool,
}

/// `String::from_utf8`: the string whose UTF-8 encoding the bytes are, or an
/// error if and only if they are not UTF-8.
#[verifier::external_body]
fn string_from_utf8(bytes: Vec<u8>) -> (result: Result<String, std::string::FromUtf8Error>)
    ensures
        result is Ok <==> valid_utf8(bytes@),
        result matches Ok(text) ==> text@ == decode_utf8(bytes@),
{
    String::from_utf8(bytes)
}

/// Reads lines out of a stream of bytes. It holds the bytes of the line
/// that is not yet complete.
#[derive(Debug)]
pub struct PipeStreamReader {
    buf: Vec<u8>,
}

impl View for PipeStreamReader {
    type V = Seq<u8>;

    closed spec fn view(&self) -> Seq<u8> {
        self.buf@
    }
}

/// Whether `emit` is what the bytes of a complete line give: the line as a
/// string if they are UTF-8, an error if they are not.
pub open spec fn emits_line(emit: Option<Result<PipedLine, PipeError>>, bytes: Seq<u8>) -> bool {
    if valid_utf8(bytes) {
        emit matches Some(Ok(PipedLine::Line(text))) && text@ == decode_utf8(bytes)
    } else {
        emit matches Some(Err(PipeError::NotUtf8(_)))
    }
}

impl PipeStreamReader {
    /// A reader at the start of a line.
    pub fn new() -> (reader: PipeStreamReader)
        ensures
            reader@ == Seq::<u8>::empty(),
    {
        PipeStreamReader { buf: Vec::new() }
    }

    /// Takes what one read gave. A line feed completes the line, which is
    /// handed on as a string or, if its bytes are not UTF-8, as an error;
    /// any other byte joins the line. The end of the stream is handed on
    /// and stops the reading; what was read of an unfinished line is
    /// dropped. A failure is handed on, and reading goes on.
    pub fn on_read(&mut self, event: ReadEvent) -> (action: ReaderAction)
        ensures
            match event {
                ReadEvent::Byte(byte) => if byte == LINE_FEED {
                    &&& final(self)@ == Seq::<u8>::empty()
                    &&& emits_line(action.emit, old(self)@)
                    &&& !action.stop
                } else {
                    &&& final(self)@ == old(self)@.push(byte)
                    &&& action.emit is None
                    &&& !action.stop
                },
                ReadEvent::End => {
                    &&& final(self)@ == Seq::<u8>::empty()
                    &&& action.emit matches Some(Ok(PipedLine::EOF))
                    &&& action.stop
                },
                ReadEvent::Failed(error) => {
                    &&& final(self)@ == old(self)@
                    &&& action.emit matches Some(Err(PipeError::IO(e))) && e == error
                    &&& !action.stop
                },
            },
    {
        match event {
            ReadEvent::Byte(byte) => {
                if byte == LINE_FEED {
                    let mut line: Vec<u8> = Vec::new();
                    std::mem::swap(&mut self.buf, &mut line);
                    let emit = match string_from_utf8(line) {
                        Ok(text) => Ok(PipedLine::Line(text)),
                        Err(error) => Err(PipeError::NotUtf8(error)),
                    };
                    ReaderAction { emit: Some(emit), stop: false }
                } else {
                    self.buf.push(byte);
                    ReaderAction { emit: None, stop: false }
                }
            },
            ReadEvent::End => {
                self.buf.clear();
                ReaderAction { emit: Some(Ok(PipedLine::EOF)), stop: true }
            },
            ReadEvent::Failed(error) => ReaderAction {
                emit: Some(Err(PipeError::IO(error))),
                stop: false,
            },
        }
    }
}

} // verus!
