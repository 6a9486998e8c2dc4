use process_streamer::drain::StreamDrain;
use process_streamer::invocation::{decimal_string, job_args, Invocation};
use process_streamer::lines::LineSplitter;
use process_streamer::output::{OutputLine, StreamTag};

fn texts(lines: &[OutputLine]) -> Vec<String> {
    lines.iter().map(|l| l.text.clone()).collect()
}

#[test]
fn decimal_of_small_and_large_numbers() {
    assert_eq!(decimal_string(0), "0");
    assert_eq!(decimal_string(7), "7");
    assert_eq!(decimal_string(42), "42");
    assert_eq!(decimal_string(100), "100");
    assert_eq!(decimal_string(u32::MAX), "4294967295");
}

#[test]
fn lossless_job_arguments() {
    assert_eq!(job_args("in/photo.png", 80, true), vec!["in/photo.png", "--lossless"]);
}

#[test]
fn quality_job_arguments() {
    assert_eq!(job_args("a.jpg", 85, false), vec!["a.jpg", "--quality", "85"]);
}

#[test]
fn script_job_runs_the_script_through_the_shell() {
    let inv = Invocation::script_job("sh", "tools/process.sh", "x.png", 5, false);
    assert_eq!(inv.program, "sh");
    assert_eq!(inv.args, vec!["tools/process.sh", "x.png", "--quality", "5"]);
    let inv = Invocation::script_job("sh", "tools/process.sh", "x.png", 5, true);
    assert_eq!(inv.args, vec!["tools/process.sh", "x.png", "--lossless"]);
}

#[test]
fn splitter_hands_out_complete_lines_only() {
    let mut s = LineSplitter::new();
    assert_eq!(s.push(b"a\nb"), vec![b"a".to_vec()]);
    assert_eq!(s.push(b"c\n\nd"), vec![b"bc".to_vec(), b"".to_vec()]);
    assert_eq!(s.finish(), Some(b"d".to_vec()));
    assert_eq!(s.finish(), None);
}

#[test]
fn splitter_chunking_does_not_change_lines() {
    let whole = b"first\nsecond\nthird\n";
    let mut one = LineSplitter::new();
    let all = one.push(whole);
    let mut bytewise = LineSplitter::new();
    let mut pieces = Vec::new();
    for b in whole.iter() {
        pieces.extend(bytewise.push(&[*b]));
    }
    assert_eq!(all, pieces);
    assert_eq!(all.len(), 3);
    assert_eq!(one.finish(), None);
    assert_eq!(bytewise.finish(), None);
}

#[test]
fn empty_stream_gives_no_lines() {
    let mut s = LineSplitter::new();
    assert!(s.push(b"").is_empty());
    assert_eq!(s.finish(), None);
}

#[test]
fn decode_drops_carriage_return() {
    let l = OutputLine::decode(StreamTag::Stdout, b"done\r".to_vec());
    assert_eq!(l.text, "done");
    assert!(!l.malformed);
    assert_eq!(l.tag, StreamTag::Stdout);
}

#[test]
fn decode_keeps_undecodable_bytes_with_marker() {
    let l = OutputLine::decode(StreamTag::Stderr, vec![b'o', b'k', 0xff]);
    assert!(l.malformed);
    assert_eq!(l.text, "ok\u{fffd}");
    assert_eq!(l.event_text(), "ERROR: [invalid UTF-8] ok\u{fffd}");
}

#[test]
fn decode_multibyte_text() {
    let l = OutputLine::decode(StreamTag::Stdout, "größe 5%".as_bytes().to_vec());
    assert!(!l.malformed);
    assert_eq!(l.text, "größe 5%");
}

#[test]
fn event_text_marks_stderr_only() {
    let out = OutputLine::decode(StreamTag::Stdout, b"x".to_vec());
    let err = OutputLine::decode(StreamTag::Stderr, b"x".to_vec());
    assert_eq!(out.event_text(), "x");
    assert_eq!(err.event_text(), "ERROR: x");
}

#[test]
fn drain_keeps_stream_order_and_tag() {
    let mut d = StreamDrain::new(StreamTag::Stderr);
    let mut got = d.feed(b"one\ntw");
    got.extend(d.feed(b"o\nthree"));
    got.extend(d.finish());
    assert_eq!(texts(&got), vec!["one", "two", "three"]);
    assert!(got.iter().all(|l| l.tag == StreamTag::Stderr));
}

#[test]
fn drain_scenario_lines() {
    let mut out = StreamDrain::new(StreamTag::Stdout);
    let mut err = StreamDrain::new(StreamTag::Stderr);
    let mut a = out.feed(b"a\n");
    a.extend(out.feed(b"b\n"));
    a.extend(out.finish());
    let mut x = err.feed(b"x\n");
    x.extend(err.finish());
    assert_eq!(texts(&a), vec!["a", "b"]);
    assert_eq!(texts(&x), vec!["x"]);
    assert_eq!(x[0].tag, StreamTag::Stderr);
}
