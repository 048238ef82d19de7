//! Captured output of a process, as text where it is text.

use vstd::prelude::*;
use vstd::std_specs::convert::FromSpecImpl;
use vstd::utf8::{
    decode_utf8, decode_utf8_encode_utf8, encode_utf8, encode_utf8_decode_utf8, valid_utf8,
};

verus! {

/// A textual I/O stream.
#[derive(Debug)]
pub enum IoStream {
    /// The stream does not contain valid UTF-8.
    InvalidUtf8,
    /// The text.
    Text(String),
}

/// What a captured stream of `bytes` is read as: its text, or nothing where the
/// bytes are not UTF-8.
pub open spec fn text_of(bytes: Seq<u8>) -> Option<Seq<char>> {
    if valid_utf8(bytes) {
        Some(decode_utf8(bytes))
    } else {
        None
    }
}

/// A stream is read as text exactly when its bytes are UTF-8, and the text then
/// stands for every byte of it: encoded again, it gives the same bytes.
pub proof fn lemma_text_holds_every_byte(bytes: Seq<u8>)
    ensures
        text_of(bytes) is Some <==> valid_utf8(bytes),
        text_of(bytes) matches Some(text) ==> encode_utf8(text) == bytes,
{
    if valid_utf8(bytes) {
        decode_utf8_encode_utf8(bytes);
    }
}

impl View for IoStream {
    type V = Option<Seq<char>>;

    /// The text of the stream; `None` stands for a stream that is not UTF-8.
    open spec fn view(&self) -> Option<Seq<char>> {
        match self {
            IoStream::InvalidUtf8 => None,
            IoStream::Text(text) => Some(text@),
        }
    }
}

impl From<Result<String, std::string::FromUtf8Error>> for IoStream {
    fn from(result: Result<String, std::string::FromUtf8Error>) -> (stream: Self) {
        match result {
            Ok(string) => IoStream::Text(string),
            Err(_) => IoStream::InvalidUtf8,
        }
    }
}

impl FromSpecImpl<Result<String, std::string::FromUtf8Error>> for IoStream {
    open spec fn obeys_from_spec() -> bool {
        true
    }

    open spec fn from_spec(result: Result<String, std::string::FromUtf8Error>) -> Self {
        match result {
            Ok(string) => IoStream::Text(string),
            Err(_) => IoStream::InvalidUtf8,
        }
    }
}

impl IoStream {
    /// Reads captured bytes as a stream: the text they encode, or the marker for
    /// bytes that are not UTF-8. Nothing is cut off and nothing is replaced.
    pub fn from_bytes(bytes: Vec<u8>) -> (stream: Self)
        ensures
            stream@ == text_of(bytes@),
            !valid_utf8(bytes@) ==> stream is InvalidUtf8,
            valid_utf8(bytes@) ==> stream is Text,
            stream matches IoStream::Text(text) ==> encode_utf8(text@) == bytes@,
    {
        let decoded = String::from_utf8(bytes);
        proof {
            if decoded is Ok {
                encode_utf8_decode_utf8(decoded->Ok_0@);
            }
        }
        IoStream::from(decoded)
    }

    /// The stream as it is shown to a reader: its text, or a fixed note where it is
    /// not UTF-8.
    pub fn to_string(&self) -> (shown: String)
        ensures
            shown@ == match self@ {
                Some(text) => text,
                None => "(Invalid UTF-8)"@,
            },
    {
        match self {
            IoStream::InvalidUtf8 => "(Invalid UTF-8)".to_owned(),
            IoStream::Text(string) => string.clone(),
        }
    }
}

} // verus!
