//! An in-memory stand-in for the two standard streams: it keeps every byte
//! that was written, per stream, in the order of the writes.

use vstd::prelude::*;

use crate::request::{view_of, PrintRequest, RequestView};
use crate::stream::Stream;

verus! {

/// Everything that standard output and standard error have received.
pub struct Written {
    /// The bytes on standard output, oldest first.
    pub out: Seq<u8>,
    /// The bytes on standard error, oldest first.
    pub err: Seq<u8>,
}

impl Written {
    /// Two streams that have received nothing.
    pub open spec fn empty() -> Written {
        Written { out: Seq::empty(), err: Seq::empty() }
    }

    /// The bytes that `stream` has received.
    pub open spec fn on(self, stream: Stream) -> Seq<u8> {
        match stream {
            Stream::Stdout => self.out,
            Stream::Stderr => self.err,
        }
    }

    /// The same bytes with the two streams exchanged.
    pub open spec fn swapped(self) -> Written {
        Written { out: self.err, err: self.out }
    }

    /// The streams after one write of `bytes` to `stream`: the bytes follow
    /// what that stream already holds, and the other stream is as it was.
    pub open spec fn write_all(self, stream: Stream, bytes: Seq<u8>) -> Written {
        match stream {
            Stream::Stdout => Written { out: self.out + bytes, err: self.err },
            Stream::Stderr => Written { out: self.out, err: self.err + bytes },
        }
    }

    /// The streams after one call has completed: its request, if it made
    /// one, has been written in full.
    pub open spec fn after(self, call: Option<RequestView>) -> Written {
        match call {
            Some(request) => self.write_all(request.stream, request.bytes),
            None => self,
        }
    }

    /// The streams after the calls have completed one after the other, each
    /// before the next began.
    pub open spec fn after_all(self, calls: Seq<Option<RequestView>>) -> Written
        decreases calls.len(),
    {
        if calls.len() == 0 {
            self
        } else {
            self.after(calls[0]).after_all(calls.drop_first())
        }
    }
}

/// A pair of byte buffers that take the place of standard output and
/// standard error.
#[derive(Debug, PartialEq, Eq)]
pub struct Capture {
    out: Vec<u8>,
    err: Vec<u8>,
}

impl View for Capture {
    type V = Written;

    closed spec fn view(&self) -> Written {
        Written { out: self.out@, err: self.err@ }
    }
}

impl Capture {
    /// Two streams that have received nothing yet.
    pub fn new() -> (capture: Capture)
        ensures
            capture@ == Written::empty(),
    {
        Capture { out: Vec::new(), err: Vec::new() }
    }

    /// Writes all of `bytes` to `stream`, after what it already holds.
    pub fn write_all(&mut self, stream: Stream, bytes: &[u8])
        ensures
            final(self)@ == old(self)@.write_all(stream, bytes@),
    {
        match stream {
            Stream::Stdout => {
                self.out.extend_from_slice(bytes);
                assert(self.out@ =~= old(self).out@ + bytes@);
            },
            Stream::Stderr => {
                self.err.extend_from_slice(bytes);
                assert(self.err@ =~= old(self).err@ + bytes@);
            },
        }
    }

    /// Completes one call: its request, if it made one, is written in full
    /// to the stream it is bound to.
    pub fn perform(&mut self, call: Option<PrintRequest>)
        ensures
            final(self)@ == old(self)@.after(view_of(call)),
    {
        match call {
            Some(request) => self.write_all(request.stream, request.bytes.as_slice()),
            None => {},
        }
    }

    /// The bytes that standard output has received.
    pub fn stdout(&self) -> (bytes: &[u8])
        ensures
            bytes@ == self@.out,
    {
        self.out.as_slice()
    }

    /// The bytes that standard error has received.
    pub fn stderr(&self) -> (bytes: &[u8])
        ensures
            bytes@ == self@.err,
    {
        self.err.as_slice()
    }
}

} // verus!
