//! Write requests: the finished bytes of one call together with the stream
//! they are bound to, and the framing that turns a call's text into them.

use vstd::prelude::*;
use vstd::string::StrSliceExecFns;
use vstd::utf8::encode_utf8;

use crate::stream::Stream;

verus! {

/// The byte that ends a line.
pub const NEWLINE: u8 = 0x0A;

/// Mathematical content of a write request.
pub struct RequestView {
    /// The stream the bytes are bound to.
    pub stream: Stream,
    /// The bytes, in the order in which they are to reach the stream.
    pub bytes: Seq<u8>,
}

/// The finished bytes of one call and the stream that is to receive them in
/// a single write.
#[derive(Debug, PartialEq, Eq)]
pub struct PrintRequest {
    /// The stream the bytes are bound to.
    pub stream: Stream,
    /// The bytes to hand to the stream, trailing newline included.
    pub bytes: Vec<u8>,
}

impl View for PrintRequest {
    type V = RequestView;

    open spec fn view(&self) -> RequestView {
        RequestView { stream: self.stream, bytes: self.bytes@ }
    }
}

/// The characters of a call's text, if it was given one.
pub open spec fn chars_of(text: Option<&str>) -> Option<Seq<char>> {
    match text {
        Some(t) => Some(t@),
        None => None,
    }
}

/// The content of the request of a call, if the call makes one.
pub open spec fn view_of(request: Option<PrintRequest>) -> Option<RequestView> {
    match request {
        Some(r) => Some(r@),
        None => None,
    }
}

/// The UTF-8 bytes of a call's text; a call without text has none.
pub open spec fn text_bytes(text: Option<Seq<char>>) -> Seq<u8> {
    match text {
        Some(chars) => encode_utf8(chars),
        None => Seq::empty(),
    }
}

/// The bytes of one call: its text, followed by one newline byte when the
/// call ends the line.
pub open spec fn framed(newline: bool, text: Option<Seq<char>>) -> Seq<u8> {
    if newline {
        text_bytes(text).push(NEWLINE)
    } else {
        text_bytes(text)
    }
}

/// What a call asks of the streams. A call with neither text nor newline asks
/// for nothing; every other call asks for a single write of its framed bytes,
/// even when they are empty.
pub open spec fn planned(stream: Stream, newline: bool, text: Option<Seq<char>>) -> Option<
    RequestView,
> {
    if text is None && !newline {
        None
    } else {
        Some(RequestView { stream, bytes: framed(newline, text) })
    }
}

/// Frames the text of one call into the request to hand to `stream`.
///
/// The newline, when asked for, is part of the same request as the text, so
/// that a line reaches the stream in one write.
pub fn prepare(stream: Stream, newline: bool, text: Option<&str>) -> (request: Option<
    PrintRequest,
>)
    ensures
        view_of(request) == planned(stream, newline, chars_of(text)),
{
    match text {
        Some(t) => {
            let mut bytes = t.as_bytes_vec();
            if newline {
                bytes.push(NEWLINE);
            }
            Some(PrintRequest { stream, bytes })
        },
        None => {
            if newline {
                let mut bytes: Vec<u8> = Vec::new();
                bytes.push(NEWLINE);
                Some(PrintRequest { stream, bytes })
            } else {
                None
            }
        },
    }
}

} // verus!
