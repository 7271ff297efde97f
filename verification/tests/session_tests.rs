use cache_relay::reader::LineStep;
use cache_relay::session::{cache_session, Need, SessionError, SessionStatus, BUF_CAPACITY};

#[test]
fn fresh_session_reads_first() {
    let s = cache_session();
    assert!(s.status == SessionStatus::Running);
    assert_eq!(s.amt, 0);
    assert_eq!(s.pos, 0);
    assert_eq!(s.cap, 0);
    assert_eq!(s.buf.len(), BUF_CAPACITY);
    assert!(s.needed() == Need::ReadLine);
}

#[test]
fn two_lines_then_close() {
    // The peer sends "hello\n", then "world\n", then closes: two lines are
    // counted, nothing is staged for writing, and the session flushes and
    // finishes with a tally of 2.
    let mut s = cache_session();
    assert!(s.needed() == Need::ReadLine);
    assert!(matches!(s.poll_line(), LineStep::NotReady));
    s.feed(b"hello\n");
    match s.poll_line() {
        LineStep::Line(text) => assert_eq!(text, "hello"),
        _ => panic!("expected a line"),
    }
    assert_eq!(s.amt, 1);
    s.feed(b"world\n");
    match s.poll_line() {
        LineStep::Line(text) => assert_eq!(text, "world"),
        _ => panic!("expected a line"),
    }
    assert_eq!(s.amt, 2);
    assert!(matches!(s.poll_line(), LineStep::NotReady));
    s.feed_eof();
    assert!(matches!(s.poll_line(), LineStep::Eof));
    assert!(s.read_done);
    assert!(s.needed() == Need::Flush);
    let tally = s.on_flush_ok();
    assert_eq!(tally, 2);
    assert!(s.status == SessionStatus::Done);
}

#[test]
fn partial_line_is_never_counted() {
    // The peer sends "partial" with no trailing newline and closes abruptly:
    // no line is counted and the session goes straight to flush-and-finish.
    let mut s = cache_session();
    s.feed(b"partial");
    assert!(matches!(s.poll_line(), LineStep::NotReady));
    s.feed_eof();
    assert!(matches!(s.poll_line(), LineStep::Eof));
    assert!(s.read_done);
    assert!(s.needed() == Need::Flush);
    let tally = s.on_flush_ok();
    assert_eq!(tally, 0);
    assert!(s.status == SessionStatus::Done);
}

#[test]
fn chunked_lines_count_once_each() {
    // One line split across two reads still counts as one line.
    let mut s = cache_session();
    s.feed(b"one li");
    assert!(matches!(s.poll_line(), LineStep::NotReady));
    s.feed(b"ne\n");
    assert!(matches!(s.poll_line(), LineStep::Line(_)));
    assert_eq!(s.amt, 1);
}

#[test]
fn read_attempts_after_eof_keep_yielding_eof() {
    let mut s = cache_session();
    s.feed_eof();
    assert!(matches!(s.poll_line(), LineStep::Eof));
    assert!(s.read_done);
    // The session never asks to read again once end of stream is seen.
    assert!(s.needed() == Need::Flush);
}

#[test]
fn zero_byte_write_fails_at_once() {
    // A write accepting 0 bytes on a non-empty pending range is fatal within
    // one step: no spinning.
    let mut s = cache_session();
    s.cap = 3;
    assert!(s.needed() == Need::Write);
    s.on_write(0);
    assert!(s.status == SessionStatus::Failed(SessionError::WriteZero));
    assert_eq!(s.amt, 0);
    assert_eq!(s.pos, 0);
}

#[test]
fn accepted_bytes_advance_position_and_tally() {
    let mut s = cache_session();
    s.cap = 4;
    assert!(s.needed() == Need::Write);
    s.on_write(1);
    assert_eq!(s.pos, 1);
    assert_eq!(s.amt, 1);
    assert!(s.status == SessionStatus::Running);
    assert!(s.needed() == Need::Write);
    s.on_write(3);
    assert_eq!(s.pos, 4);
    assert_eq!(s.amt, 4);
    assert!(s.needed() == Need::ReadLine);
    s.feed_eof();
    assert!(matches!(s.poll_line(), LineStep::Eof));
    assert!(s.needed() == Need::Flush);
    let tally = s.on_flush_ok();
    assert_eq!(tally, 4);
}

#[test]
fn completion_comes_only_after_flush() {
    let mut s = cache_session();
    s.feed(b"a\n");
    assert!(matches!(s.poll_line(), LineStep::Line(_)));
    s.feed_eof();
    assert!(matches!(s.poll_line(), LineStep::Eof));
    // Reading is done and the buffer is empty, but the session is not done
    // until the flush is reported.
    assert!(!s.flushed);
    assert!(s.status == SessionStatus::Running);
    assert!(s.needed() == Need::Flush);
    s.on_flush_ok();
    assert!(s.flushed);
    assert!(s.status == SessionStatus::Done);
    assert!(s.read_done);
    assert_eq!(s.pos, s.cap);
}

#[test]
fn invalid_line_fails_the_session() {
    let mut s = cache_session();
    s.feed(&[0xff, b'\n']);
    assert!(matches!(s.poll_line(), LineStep::Malformed));
    assert!(s.status == SessionStatus::Failed(SessionError::InvalidLine));
    assert_eq!(s.amt, 0);
}

#[test]
fn io_error_fails_the_session() {
    let mut s = cache_session();
    s.on_io_error();
    assert!(s.status == SessionStatus::Failed(SessionError::Io));
}

#[test]
fn error_messages() {
    assert_eq!(SessionError::WriteZero.message(), "write zero byte into writer");
    assert_eq!(SessionError::InvalidLine.message(), "stream did not contain valid UTF-8");
    assert_eq!(SessionError::Io.message(), "connection error");
}

#[test]
fn failed_session_leaves_another_intact() {
    // A failure injected into one session does not alter the tally or the
    // completion of another driven alongside it.
    let mut a = cache_session();
    let mut b = cache_session();
    a.feed(b"one\n");
    b.feed(b"x\n");
    assert!(matches!(a.poll_line(), LineStep::Line(_)));
    assert!(matches!(b.poll_line(), LineStep::Line(_)));
    a.feed(b"two\nthree\n");
    // Force a zero-byte write on b while a keeps going.
    b.cap = 2;
    b.on_write(0);
    assert!(b.status == SessionStatus::Failed(SessionError::WriteZero));
    assert!(matches!(a.poll_line(), LineStep::Line(_)));
    assert!(matches!(a.poll_line(), LineStep::Line(_)));
    a.feed_eof();
    assert!(matches!(a.poll_line(), LineStep::Eof));
    assert!(a.needed() == Need::Flush);
    let tally = a.on_flush_ok();
    assert_eq!(tally, 3);
    assert!(a.status == SessionStatus::Done);
    assert!(b.status == SessionStatus::Failed(SessionError::WriteZero));
    assert_eq!(b.amt, 1);
}

#[test]
fn distinct_sessions_keep_distinct_tallies() {
    // Two sessions with different line counts, driven interleaved, each end
    // with their own tally.
    let mut a = cache_session();
    let mut b = cache_session();
    a.feed(b"1\n2\n3\n");
    b.feed(b"1\n");
    assert!(matches!(a.poll_line(), LineStep::Line(_)));
    assert!(matches!(b.poll_line(), LineStep::Line(_)));
    assert!(matches!(a.poll_line(), LineStep::Line(_)));
    b.feed_eof();
    assert!(matches!(b.poll_line(), LineStep::Eof));
    assert!(matches!(a.poll_line(), LineStep::Line(_)));
    a.feed_eof();
    assert!(matches!(a.poll_line(), LineStep::Eof));
    let tally_b = b.on_flush_ok();
    let tally_a = a.on_flush_ok();
    assert_eq!(tally_a, 3);
    assert_eq!(tally_b, 1);
    assert!(a.status == SessionStatus::Done);
    assert!(b.status == SessionStatus::Done);
}
