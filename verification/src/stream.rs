//! Where a transcode reads its input from and writes its output to: file paths,
//! in-memory buffers, or a streaming reader/writer of the caller's type.

use vstd::prelude::*;
use crate::text::{chars_of, decimal, decimal_u64, push_all, push_str, string_of};

verus! {

/// The stream type of sources and targets that carry no stream.
#[derive(Debug, Clone, Copy, PartialEq, Eq, Structural)]
pub struct NoStream;

/// Where to read input media from.
pub enum InputSource<R = NoStream> {
    /// Read from a file path.
    File(String),
    /// Read from a byte buffer (entire file in memory).
    Bytes(Vec<u8>),
    /// Read from a streaming source.
    Reader(R),
}

/// Where to write output media to.
pub enum OutputTarget<W = NoStream> {
    /// Write to a file path.
    File(String),
    /// Write to an in-memory buffer.
    Buffer,
    /// Write to a streaming sink.
    Writer(W),
}

/// How an input source describes itself.
pub open spec fn input_text<R>(s: InputSource<R>) -> Seq<char> {
    match s {
        InputSource::File(p) => "File("@ + p@ + ")"@,
        InputSource::Bytes(b) => "Bytes("@ + decimal(b@.len()) + " bytes)"@,
        InputSource::Reader(_) => "Reader(...)"@,
    }
}

/// How an output target describes itself.
pub open spec fn output_text<W>(t: OutputTarget<W>) -> Seq<char> {
    match t {
        OutputTarget::File(p) => "File("@ + p@ + ")"@,
        OutputTarget::Buffer => "Buffer"@,
        OutputTarget::Writer(_) => "Writer(...)"@,
    }
}

impl<R> InputSource<R> {
    /// A short description: the path, the buffer's size, or that it is a stream.
    pub fn describe(&self) -> (r: String)
        ensures
            r@ == input_text(*self),
    {
        match self {
            InputSource::File(p) => {
                let mut t = chars_of("File(");
                push_str(&mut t, p.as_str());
                push_str(&mut t, ")");
                string_of(&t)
            },
            InputSource::Bytes(b) => {
                let mut t = chars_of("Bytes(");
                push_all(&mut t, &decimal_u64(b.len() as u64));
                push_str(&mut t, " bytes)");
                string_of(&t)
            },
            InputSource::Reader(_) => "Reader(...)".to_owned(),
        }
    }
}

impl<W> OutputTarget<W> {
    /// A short description: the path, the buffer, or that it is a stream.
    pub fn describe(&self) -> (r: String)
        ensures
            r@ == output_text(*self),
    {
        match self {
            OutputTarget::File(p) => {
                let mut t = chars_of("File(");
                push_str(&mut t, p.as_str());
                push_str(&mut t, ")");
                string_of(&t)
            },
            OutputTarget::Buffer => "Buffer".to_owned(),
            OutputTarget::Writer(_) => "Writer(...)".to_owned(),
        }
    }
}

impl<R> From<String> for InputSource<R> {
    fn from(path: String) -> (r: Self) {
        InputSource::File(path)
    }
}

impl<R> vstd::std_specs::convert::FromSpecImpl<String> for InputSource<R> {
    open spec fn obeys_from_spec() -> bool {
        true
    }

    open spec fn from_spec(path: String) -> Self {
        InputSource::File(path)
    }
}

impl<R> From<Vec<u8>> for InputSource<R> {
    fn from(bytes: Vec<u8>) -> (r: Self) {
        InputSource::Bytes(bytes)
    }
}

impl<R> vstd::std_specs::convert::FromSpecImpl<Vec<u8>> for InputSource<R> {
    open spec fn obeys_from_spec() -> bool {
        true
    }

    open spec fn from_spec(bytes: Vec<u8>) -> Self {
        InputSource::Bytes(bytes)
    }
}

impl<W> From<String> for OutputTarget<W> {
    fn from(path: String) -> (r: Self) {
        OutputTarget::File(path)
    }
}

impl<W> vstd::std_specs::convert::FromSpecImpl<String> for OutputTarget<W> {
    open spec fn obeys_from_spec() -> bool {
        true
    }

    open spec fn from_spec(path: String) -> Self {
        OutputTarget::File(path)
    }
}

} // verus!
