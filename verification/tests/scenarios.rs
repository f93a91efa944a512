use tokio_print::{aeprint, aeprintln, aprint, aprintln, Capture};

#[test]
fn println_without_arguments_writes_one_newline() {
    let mut streams = Capture::new();
    streams.perform(aprintln(None));
    assert_eq!(streams.stdout(), b"\n");
    assert_eq!(streams.stderr(), b"");
}

#[test]
fn println_hello_world() {
    let mut streams = Capture::new();
    streams.perform(aprintln(Some("Hello World!")));
    assert_eq!(streams.stdout(), b"Hello World!\n");
    assert_eq!(streams.stderr(), b"");
}

#[test]
fn println_with_arguments() {
    let mut streams = Capture::new();
    let rendered = format!("{}+{}={}", 1, 2, 3);
    streams.perform(aprintln(Some(&rendered)));
    assert_eq!(streams.stdout(), b"1+2=3\n");
    assert_eq!(streams.stderr(), b"");
}

#[test]
fn sequential_prints_share_a_line() {
    let mut streams = Capture::new();
    streams.perform(aprint(Some("a")));
    streams.perform(aprint(Some("b")));
    streams.perform(aprintln(Some("c")));
    assert_eq!(streams.stdout(), b"abc\n");
    assert_eq!(streams.stderr(), b"");
}

#[test]
fn eprintln_goes_to_stderr_only() {
    let mut streams = Capture::new();
    streams.perform(aeprintln(Some("Error!")));
    assert_eq!(streams.stderr(), b"Error!\n");
    assert_eq!(streams.stdout(), b"");
}

#[test]
fn eprint_without_arguments_writes_nothing() {
    let call = aeprint(None);
    assert!(call.is_none());
    let mut streams = Capture::new();
    streams.perform(call);
    assert_eq!(streams.stdout(), b"");
    assert_eq!(streams.stderr(), b"");
}

#[test]
fn print_without_arguments_writes_nothing() {
    let call = aprint(None);
    assert!(call.is_none());
    let mut streams = Capture::new();
    streams.perform(aprint(Some("kept")));
    streams.perform(call);
    assert_eq!(streams.stdout(), b"kept");
    assert_eq!(streams.stderr(), b"");
}

#[test]
fn eprintln_without_arguments_writes_one_newline() {
    let mut streams = Capture::new();
    streams.perform(aeprintln(None));
    assert_eq!(streams.stderr(), b"\n");
    assert_eq!(streams.stdout(), b"");
}

#[test]
fn print_writes_exactly_the_bytes_of_the_text() {
    let text = "h\u{e9}llo \u{2713} \u{1f980}";
    let mut streams = Capture::new();
    streams.perform(aprint(Some(text)));
    assert_eq!(streams.stdout(), text.as_bytes());
    assert_eq!(
        streams.stdout(),
        [0x68, 0xC3, 0xA9, 0x6C, 0x6C, 0x6F, 0x20, 0xE2, 0x9C, 0x93, 0x20, 0xF0, 0x9F, 0xA6, 0x80]
    );
    assert_eq!(streams.stderr(), b"");
}

#[test]
fn println_appends_exactly_one_newline_byte() {
    let text = "gr\u{fc}\u{df}e";
    let mut streams = Capture::new();
    streams.perform(aprintln(Some(text)));
    let mut expected = text.as_bytes().to_vec();
    expected.push(0x0A);
    assert_eq!(streams.stdout(), expected.as_slice());
    assert_eq!(streams.stdout().len(), text.len() + 1);
    assert_eq!(streams.stderr(), b"");
}

#[test]
fn println_is_print_followed_by_a_newline() {
    let rendered = format!("{:>5}|{:<3}|{name}", 42, "x", name = "n");
    let mut plain = Capture::new();
    plain.perform(aprint(Some(&rendered)));
    let mut line = Capture::new();
    line.perform(aprintln(Some(&rendered)));
    let mut expected = plain.stdout().to_vec();
    expected.push(b'\n');
    assert_eq!(line.stdout(), expected.as_slice());
    assert_eq!(line.stdout(), b"   42|x  |n\n");
    assert_eq!(line.stderr(), plain.stderr());
}

#[test]
fn eprint_and_eprintln_mirror_print_and_println() {
    let mut out = Capture::new();
    out.perform(aprint(Some("one ")));
    out.perform(aprintln(Some("two")));
    let mut err = Capture::new();
    err.perform(aeprint(Some("one ")));
    err.perform(aeprintln(Some("two")));
    assert_eq!(err.stderr(), out.stdout());
    assert_eq!(err.stderr(), b"one two\n");
    assert_eq!(err.stdout(), b"");
    assert_eq!(out.stderr(), b"");
}

#[test]
fn sequential_calls_concatenate_on_each_stream() {
    let mut streams = Capture::new();
    streams.perform(aprint(Some("out1 ")));
    streams.perform(aeprintln(Some("err1")));
    streams.perform(aprint(None));
    streams.perform(aprintln(Some("out2")));
    streams.perform(aeprint(Some("err2")));
    streams.perform(aeprint(None));
    streams.perform(aprintln(None));
    streams.perform(aeprintln(None));
    assert_eq!(streams.stdout(), b"out1 out2\n\n");
    assert_eq!(streams.stderr(), b"err1\nerr2\n");
}

#[test]
fn empty_text_still_ends_the_line() {
    let mut streams = Capture::new();
    streams.perform(aprintln(Some("")));
    streams.perform(aeprintln(Some("")));
    assert_eq!(streams.stdout(), b"\n");
    assert_eq!(streams.stderr(), b"\n");
}

#[test]
fn embedded_newlines_pass_through() {
    let mut streams = Capture::new();
    streams.perform(aprint(Some("a\nb\n")));
    streams.perform(aprintln(Some("c\n\nd")));
    assert_eq!(streams.stdout(), b"a\nb\nc\n\nd\n");
}

#[test]
fn text_without_arguments_is_taken_as_it_stands() {
    let mut streams = Capture::new();
    streams.perform(aprintln(Some("{} {{}} %s")));
    assert_eq!(streams.stdout(), b"{} {{}} %s\n");
}
