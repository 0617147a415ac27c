use stubborn_sink::framing::{decode_line, encode_line, Decoded, NEWLINE};

fn line(text: &str, consumed: usize) -> Decoded {
    Decoded::Line { text: text.to_string(), consumed }
}

#[test]
fn encode_appends_text_and_newline() {
    let mut buf = Vec::new();
    encode_line("hello", &mut buf);
    assert_eq!(buf, b"hello\n".to_vec());
    encode_line("world", &mut buf);
    assert_eq!(buf, b"hello\nworld\n".to_vec());
    assert_eq!(NEWLINE, b'\n');
}

#[test]
fn decode_takes_the_first_line_only() {
    assert_eq!(decode_line(b"hello\nworld\n"), line("hello", 6));
    assert_eq!(decode_line(b"world\n"), line("world", 6));
}

#[test]
fn decode_waits_for_the_newline() {
    assert_eq!(decode_line(b""), Decoded::Incomplete);
    assert_eq!(decode_line(b"partial"), Decoded::Incomplete);
    assert_eq!(decode_line(b"partial\n"), line("partial", 8));
}

#[test]
fn decode_rejects_a_line_that_is_not_utf8() {
    assert_eq!(decode_line(&[0xff, 0xfe, b'\n', b'a', b'\n']), Decoded::Invalid { consumed: 3 });
    assert_eq!(decode_line(&[b'o', b'k', b'\n', 0xff, b'\n']), line("ok", 3));
    assert_eq!(decode_line(&[0xc3, b'\n']), Decoded::Invalid { consumed: 2 });
}

#[test]
fn empty_line_goes_through() {
    let mut buf = Vec::new();
    encode_line("", &mut buf);
    assert_eq!(buf, vec![b'\n']);
    assert_eq!(decode_line(&buf), line("", 1));
    encode_line("after", &mut buf);
    assert_eq!(decode_line(&buf), line("", 1));
    assert_eq!(decode_line(&buf[1..]), line("after", 6));
}

#[test]
fn very_long_line_goes_through() {
    let long = "x".repeat(1_000_000);
    let mut buf = Vec::new();
    encode_line(&long, &mut buf);
    encode_line("next", &mut buf);
    assert_eq!(buf.len(), 1_000_006);
    assert_eq!(decode_line(&buf), line(&long, 1_000_001));
    assert_eq!(decode_line(&buf[1_000_001..]), line("next", 5));
}

#[test]
fn text_beyond_ascii_round_trips() {
    let text = "grüße → 日本語 🦀";
    let mut buf = Vec::new();
    encode_line(text, &mut buf);
    assert_eq!(buf.len(), text.len() + 1);
    assert_eq!(decode_line(&buf), line(text, text.len() + 1));
}

#[test]
fn lines_round_trip_in_order() {
    let texts = ["a", "", "b c", "{\"k\":1}", "last"];
    let mut buf = Vec::new();
    for text in texts {
        encode_line(text, &mut buf);
    }
    let mut at = 0;
    let mut seen = Vec::new();
    loop {
        match decode_line(&buf[at..]) {
            Decoded::Line { text, consumed } => {
                seen.push(text);
                at += consumed;
            }
            Decoded::Incomplete => break,
            Decoded::Invalid { .. } => panic!("the bytes are UTF-8"),
        }
    }
    assert_eq!(at, buf.len());
    assert_eq!(seen, texts.to_vec());
}
