//! What holds of every call: which bytes reach which stream, and in what
//! order. The calls are named by their two axes, the stream and whether the
//! line is ended: `aprint` is `(Stdout, false)`, `aprintln` is
//! `(Stdout, true)`, `aeprint` is `(Stderr, false)` and `aeprintln` is
//! `(Stderr, true)`.

use vstd::prelude::*;
use vstd::utf8::{encode_scalar, encode_utf8, encode_utf8_valid_utf8, valid_utf8};

use crate::capture::Written;
use crate::request::{framed, planned, RequestView, NEWLINE};
use crate::stream::Stream;

verus! {

/// Printing a text puts exactly the UTF-8 bytes of the text on standard
/// output, after what was there, and leaves standard error as it was.
pub proof fn print_writes_text(before: Written, text: Seq<char>)
    ensures
        before.after(planned(Stream::Stdout, false, Some(text))) == (Written {
            out: before.out + encode_utf8(text),
            err: before.err,
        }),
{
}

/// Printing a line puts the UTF-8 bytes of the text, followed by exactly one
/// newline byte, on standard output, and leaves standard error as it was.
pub proof fn println_writes_line(before: Written, text: Seq<char>)
    ensures
        before.after(planned(Stream::Stdout, true, Some(text))) == (Written {
            out: before.out + encode_utf8(text) + seq![NEWLINE],
            err: before.err,
        }),
{
    assert(encode_utf8(text).push(NEWLINE) =~= encode_utf8(text) + seq![NEWLINE]);
    assert(before.out + encode_utf8(text).push(NEWLINE) =~= before.out + encode_utf8(text)
        + seq![NEWLINE]);
}

/// On either stream, and with or without a text, the call that ends the line
/// writes what the call that does not end it writes, followed by one newline
/// byte. The other stream fares the same under both.
pub proof fn line_is_text_then_newline(before: Written, stream: Stream, text: Option<Seq<char>>)
    ensures
        before.after(planned(stream, true, text)).on(stream) == before.after(
            planned(stream, false, text),
        ).on(stream).push(NEWLINE),
        before.after(planned(stream, true, text)).on(stream.opposite()) == before.after(
            planned(stream, false, text),
        ).on(stream.opposite()),
{
    assert(before.on(stream) + framed(false, text).push(NEWLINE) =~= (before.on(stream) + framed(
        false,
        text,
    )).push(NEWLINE));
    assert(before.on(stream) + Seq::<u8>::empty() =~= before.on(stream));
}

/// Printing to standard error is printing to standard output with the two
/// streams exchanged: the framed bytes of the call follow what standard error
/// held, and standard output receives nothing.
pub proof fn eprint_mirrors_print(before: Written, newline: bool, text: Option<Seq<char>>)
    ensures
        before.after(planned(Stream::Stderr, newline, text)) == before.swapped().after(
            planned(Stream::Stdout, newline, text),
        ).swapped(),
        before.after(planned(Stream::Stderr, newline, text)).out == before.out,
        before.after(planned(Stream::Stderr, newline, text)).err == before.err + framed(
            newline,
            text,
        ),
{
    assert(!newline && text is None ==> framed(newline, text) =~= Seq::<u8>::empty());
    assert(before.err + Seq::<u8>::empty() =~= before.err);
}

/// What one call by itself puts on `stream`.
pub open spec fn output_of(call: Option<RequestView>, stream: Stream) -> Seq<u8> {
    Written::empty().after(call).on(stream)
}

/// What the calls put on `stream` one by one, joined in call order.
pub open spec fn outputs_joined(calls: Seq<Option<RequestView>>, stream: Stream) -> Seq<u8>
    decreases calls.len(),
{
    if calls.len() == 0 {
        Seq::empty()
    } else {
        output_of(calls[0], stream) + outputs_joined(calls.drop_first(), stream)
    }
}

/// After any number of calls completed one after the other, each stream
/// holds what it held before, followed by the outputs of the calls on that
/// stream in call order.
pub proof fn sequential_calls_concatenate(
    before: Written,
    calls: Seq<Option<RequestView>>,
    stream: Stream,
)
    ensures
        before.after_all(calls).on(stream) == before.on(stream) + outputs_joined(calls, stream),
    decreases calls.len(),
{
    if calls.len() == 0 {
        assert(before.on(stream) + Seq::<u8>::empty() =~= before.on(stream));
    } else {
        let first = calls[0];
        let rest = calls.drop_first();
        sequential_calls_concatenate(before.after(first), rest, stream);
        assert(before.after(first).on(stream) =~= before.on(stream) + output_of(first, stream));
        assert((before.on(stream) + output_of(first, stream)) + outputs_joined(rest, stream)
            =~= before.on(stream) + (output_of(first, stream) + outputs_joined(rest, stream)));
    }
}

/// A newline character at the end of a text becomes one newline byte at the
/// end of its bytes.
pub proof fn newline_char_is_newline_byte(text: Seq<char>)
    ensures
        encode_utf8(text.push('\n')) == encode_utf8(text).push(NEWLINE),
    decreases text.len(),
{
    let line = text.push('\n');
    if text.len() == 0 {
        assert(line.drop_first() =~= Seq::<char>::empty());
        assert(line[0] as u32 == 0x0Au32);
        assert(0x0Au32 & 0x7F == 0x0A) by (bit_vector);
        assert(encode_scalar(0x0Au32) =~= seq![NEWLINE]);
        assert(encode_utf8(line.drop_first()) =~= Seq::<u8>::empty());
        assert(encode_utf8(line) =~= seq![NEWLINE]);
        assert(encode_utf8(text).push(NEWLINE) =~= seq![NEWLINE]);
    } else {
        newline_char_is_newline_byte(text.drop_first());
        assert(line.drop_first() =~= text.drop_first().push('\n'));
        assert(line[0] == text[0]);
        assert(encode_utf8(line) =~= encode_utf8(text).push(NEWLINE));
    }
}

/// Whatever the text, the bytes of a call are valid UTF-8.
pub proof fn framed_text_is_valid_utf8(newline: bool, text: Option<Seq<char>>)
    ensures
        valid_utf8(framed(newline, text)),
{
    let chars = match text {
        Some(chars) => chars,
        None => Seq::empty(),
    };
    assert(encode_utf8(Seq::<char>::empty()) =~= Seq::<u8>::empty());
    if newline {
        newline_char_is_newline_byte(chars);
        encode_utf8_valid_utf8(chars.push('\n'));
    } else {
        encode_utf8_valid_utf8(chars);
    }
}

/// Ending the line of a text is printing the text with a newline character
/// appended: both make the same request.
pub proof fn line_is_text_with_newline_char(stream: Stream, text: Seq<char>)
    ensures
        planned(stream, true, Some(text)) == planned(stream, false, Some(text.push('\n'))),
{
    newline_char_is_newline_byte(text);
}

} // verus!
