//! Turning the bytes of one line into the event that the sink receives.

use vstd::prelude::*;
use vstd::utf8::{decode_utf8, valid_utf8};
use vstd::string::StringExecFns;

verus! {

/// The stream a line was read from.
#[derive(Clone, Copy, Debug, PartialEq, Eq, Structural)]
pub enum StreamTag {
    Stdout,
    Stderr,
}

/// One line of output, handed to the sink once.
#[derive(Clone, Debug)]
pub struct OutputLine {
    pub tag: StreamTag,
    /// The line's text, without its line ending.
    pub text: String,
    /// Set when the bytes were not valid UTF-8: `text` then holds them with
    /// each invalid sequence replaced, so that no line is lost.
    pub malformed: bool,
}

/// The carriage return that a `\r\n` line ending leaves before the newline.
pub const CARRIAGE_RETURN: u8 = 13;

/// A line's bytes without a trailing carriage return.
pub open spec fn line_body(b: Seq<u8>) -> Seq<u8> {
    if b.len() > 0 && b.last() == CARRIAGE_RETURN {
        b.drop_last()
    } else {
        b
    }
}

/// What `String::from_utf8_lossy` makes of bytes.
pub uninterp spec fn lossy_text(b: Seq<u8>) -> Seq<char>;

/// Relies on `String::from_utf8`: it succeeds exactly on valid UTF-8, and then
/// holds the characters that the bytes encode; on failure
/// `FromUtf8Error::into_bytes` hands the bytes back.
#[verifier::external_body]
fn utf8_to_string(b: Vec<u8>) -> (r: Result<String, Vec<u8>>)
    ensures
        r is Ok <==> valid_utf8(b@),
        r is Ok ==> r->Ok_0@ == decode_utf8(b@),
        r is Err ==> r->Err_0@ == b@,
{
    match String::from_utf8(b) {
        Ok(s) => Ok(s),
        Err(e) => Err(e.into_bytes()),
    }
}

/// Relies on `String::from_utf8_lossy`: the text of the bytes, with each
/// invalid sequence replaced by U+FFFD.
#[verifier::external_body]
fn utf8_to_string_lossy(b: &[u8]) -> (r: String)
    ensures
        r@ == lossy_text(b@),
{
    String::from_utf8_lossy(b).into_owned()
}

/// The line's bytes without a trailing carriage return.
fn strip_carriage_return(mut b: Vec<u8>) -> (r: Vec<u8>)
    ensures
        r@ == line_body(b@),
{
    if b.len() > 0 && b[b.len() - 1] == CARRIAGE_RETURN {
        b.pop();
    }
    b
}

/// `line` is what the bytes `bytes` of a line of `tag`'s stream decode to.
pub open spec fn decodes_to(tag: StreamTag, bytes: Seq<u8>, line: OutputLine) -> bool {
    &&& line.tag == tag
    &&& line.malformed == !valid_utf8(line_body(bytes))
    &&& !line.malformed ==> line.text@ == decode_utf8(line_body(bytes))
    &&& line.malformed ==> line.text@ == lossy_text(line_body(bytes))
}

impl OutputLine {
    /// Decodes the bytes of one line read from `tag`'s stream. A trailing
    /// carriage return is dropped; bytes that are not UTF-8 are kept, with
    /// `malformed` set.
    pub fn decode(tag: StreamTag, bytes: Vec<u8>) -> (r: OutputLine)
        ensures
            decodes_to(tag, bytes@, r),
    {
        let body = strip_carriage_return(bytes);
        match utf8_to_string(body) {
            Ok(text) => OutputLine { tag, text, malformed: false },
            Err(body) => OutputLine { tag, text: utf8_to_string_lossy(body.as_slice()), malformed: true },
        }
    }

    /// The text of the event sent for this line: stderr lines carry the
    /// error marker, undecodable lines the decoding marker, then the text.
    pub fn event_text(&self) -> (r: String)
        ensures
            r@ == event_text_of(self.tag, self.malformed, self.text@),
    {
        let mut r = match self.tag {
            StreamTag::Stdout => String::new(),
            StreamTag::Stderr => String::from_str(ERROR_MARKER),
        };
        if self.malformed {
            r.append(UNDECODABLE_MARKER);
        }
        r.append(self.text.as_str());
        r
    }
}

/// Put in front of each line read from stderr.
pub const ERROR_MARKER: &'static str = "ERROR: ";

/// Put in front of each line whose bytes were not valid UTF-8.
pub const UNDECODABLE_MARKER: &'static str = "[invalid UTF-8] ";

/// The event text for a line of `tag`'s stream holding `text`.
pub open spec fn event_text_of(tag: StreamTag, malformed: bool, text: Seq<char>) -> Seq<char> {
    (if tag == StreamTag::Stderr { ERROR_MARKER@ } else { Seq::empty() })
        + (if malformed { UNDECODABLE_MARKER@ } else { Seq::empty() })
        + text
}

} // verus!
