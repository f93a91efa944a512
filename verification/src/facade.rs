//! The printing front-ends. Each takes the finished text of one call and
//! returns the request that the call makes of its stream; nothing is written
//! here.
//!
//! A text of `None` stands for a call without any arguments, `Some("")` for
//! a call with an empty text.

use vstd::prelude::*;
use vstd::string::StrSliceExecFns;
use vstd::utf8::encode_utf8;

use crate::request::{chars_of, planned, prepare, view_of, PrintRequest, RequestView};
use crate::stream::Stream;

verus! {

/// The request that writes `content`, as it stands, to standard output.
pub fn aprint1(content: &str) -> (request: PrintRequest)
    ensures
        request@ == (RequestView { stream: Stream::Stdout, bytes: encode_utf8(content@) }),
{
    PrintRequest { stream: Stream::Stdout, bytes: content.as_bytes_vec() }
}

/// The request that writes `content`, as it stands, to standard error.
pub fn aeprint1(content: &str) -> (request: PrintRequest)
    ensures
        request@ == (RequestView { stream: Stream::Stderr, bytes: encode_utf8(content@) }),
{
    PrintRequest { stream: Stream::Stderr, bytes: content.as_bytes_vec() }
}

/// Prints to standard output without ending the line. Without arguments
/// there is nothing to write and no request is made.
pub fn aprint(text: Option<&str>) -> (request: Option<PrintRequest>)
    ensures
        view_of(request) == planned(Stream::Stdout, false, chars_of(text)),
{
    match text {
        Some(t) => Some(aprint1(t)),
        None => None,
    }
}

/// Prints to standard output and ends the line. Without arguments the
/// request holds the newline alone.
pub fn aprintln(text: Option<&str>) -> (request: Option<PrintRequest>)
    ensures
        view_of(request) == planned(Stream::Stdout, true, chars_of(text)),
{
    prepare(Stream::Stdout, true, text)
}

/// Prints to standard error without ending the line. Without arguments
/// there is nothing to write and no request is made.
pub fn aeprint(text: Option<&str>) -> (request: Option<PrintRequest>)
    ensures
        view_of(request) == planned(Stream::Stderr, false, chars_of(text)),
{
    match text {
        Some(t) => Some(aeprint1(t)),
        None => None,
    }
}

/// Prints to standard error and ends the line. Without arguments the
/// request holds the newline alone.
pub fn aeprintln(text: Option<&str>) -> (request: Option<PrintRequest>)
    ensures
        view_of(request) == planned(Stream::Stderr, true, chars_of(text)),
{
    prepare(Stream::Stderr, true, text)
}

} // verus!
