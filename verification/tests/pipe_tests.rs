use scuttle_launcher::log_sink::{LogSink, StreamTag};
use scuttle_launcher::pipe::PipeMonitor;

#[test]
fn invalid_encoding_then_valid_line() {
    let mut sink = LogSink::new(10);
    let mut monitor = PipeMonitor::new(StreamTag::Stdout, true);
    let mut bytes: Vec<u8> = vec![0xFF, 0xFE];
    bytes.push(b'\n');
    bytes.extend_from_slice(b"ok\n");
    monitor.feed_into(&bytes, &mut sink);
    let snap = sink.snapshot_logs();
    assert_eq!(snap.len(), 2);
    assert!(snap[0].text.chars().all(|c| c == char::REPLACEMENT_CHARACTER));
    assert_eq!(snap[0].text.chars().count(), 2);
    assert_eq!(snap[1].text, "ok");
    assert!(matches!(snap[0].tag, StreamTag::Stdout));
    assert!(matches!(snap[1].tag, StreamTag::Stdout));
}

#[test]
fn feed_buffers_partial_lines() {
    let mut monitor = PipeMonitor::new(StreamTag::Stderr, false);
    let out = monitor.feed(&b"ab".to_vec());
    assert!(out.is_empty());
    let out = monitor.feed(&b"c\nde".to_vec());
    assert_eq!(out, vec![String::from("abc")]);
    let tail = monitor.finish();
    assert_eq!(tail, Some(String::from("de")));
    assert_eq!(monitor.finish(), None);
}

#[test]
fn feed_splits_multiple_lines() {
    let mut monitor = PipeMonitor::new(StreamTag::Stdout, false);
    let out = monitor.feed(&b"a\nb\nc".to_vec());
    assert_eq!(out, vec![String::from("a"), String::from("b")]);
    let out = monitor.feed(&b"\n".to_vec());
    assert_eq!(out, vec![String::from("c")]);
}

#[test]
fn empty_lines_are_kept() {
    let mut sink = LogSink::new(10);
    let mut monitor = PipeMonitor::new(StreamTag::Stdout, false);
    monitor.feed_into(&b"\n\n".to_vec(), &mut sink);
    let snap = sink.snapshot_logs();
    assert_eq!(snap.len(), 2);
    assert_eq!(snap[0].text, "");
    assert_eq!(snap[1].text, "");
}

#[test]
fn utf8_multibyte_survives() {
    let mut monitor = PipeMonitor::new(StreamTag::Stdout, false);
    let mut bytes: Vec<u8> = Vec::new();
    bytes.extend_from_slice("héllo ✔".as_bytes());
    bytes.push(b'\n');
    let out = monitor.feed(&bytes);
    assert_eq!(out, vec![String::from("héllo ✔")]);
}

#[test]
fn eviction_applies_to_piped_lines() {
    let mut sink = LogSink::new(2);
    let mut monitor = PipeMonitor::new(StreamTag::Stdout, false);
    monitor.feed_into(&b"1\n2\n3\n4\n".to_vec(), &mut sink);
    let snap = sink.snapshot_logs();
    assert_eq!(snap.len(), 2);
    assert_eq!(snap[0].text, "3");
    assert_eq!(snap[1].text, "4");
}
