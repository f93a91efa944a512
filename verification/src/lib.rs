//! Line-oriented and plain printing for asynchronous programs: the text of
//! each call is framed into one write request for standard output or standard
//! error.
//!
//! The front-ends in [`facade`] decide what a call writes and where; the
//! caller performs the write. [`capture`] keeps what was written in memory,
//! and [`laws`] states what holds of every call.

pub mod capture;
pub mod facade;
pub mod laws;
pub mod request;
pub mod stream;

pub use capture::Capture;
pub use facade::{aeprint, aeprint1, aeprintln, aprint, aprint1, aprintln};
pub use request::{prepare, PrintRequest, NEWLINE};
pub use stream::Stream;
