//! The relay session: a resumable state machine that alternates between
//! reading lines from the peer and draining a fixed-size byte buffer back to
//! it, then flushes and finishes once the peer has closed its write side.
//!
//! The session owns the line reader and the buffer but performs no I/O
//! itself. A driver asks `needed` which operation the connection must supply
//! next, performs it, and reports the outcome through `poll_line`, `feed`,
//! `feed_eof`, `on_write`, `on_flush_ok` or `on_io_error`. Every transition
//! is exact: the contracts pin down the whole successor state.
//!
//! A counted line's bytes are not copied into the buffer: intake only
//! advances the tally, so the populated region `[pos, cap)` grows only if a
//! driver stages bytes there itself, and with an untouched buffer the drain
//! phase never runs and the session counts lines, flushes, and finishes.

use vstd::prelude::*;

use crate::lines::{first_line, has_newline, rest_after_line};
use crate::reader::{LineReader, LineStep, utf8_decode};

verus! {

/// Size of the session's scratch buffer in bytes.
pub const BUF_CAPACITY: usize = 2048;

/// Why a session failed.
#[derive(Clone, Copy, Debug, PartialEq, Eq, Structural)]
pub enum SessionError {
    /// The write half accepted zero bytes for a non-empty pending range.
    WriteZero,
    /// A complete line arrived whose bytes are not valid text.
    InvalidLine,
    /// The driver hit an unrecoverable error on the connection.
    Io,
}

/// Whether a session is still running, finished, or failed.
#[derive(Clone, Copy, Debug, PartialEq, Eq, Structural)]
pub enum SessionStatus {
    /// The session still has work to do.
    Running,
    /// The peer closed, the buffer drained, and the final flush succeeded.
    Done,
    /// The session ended with the given error.
    Failed(SessionError),
}

/// The connection operation a running session needs next.
#[derive(Clone, Copy, Debug, PartialEq, Eq, Structural)]
pub enum Need {
    /// The pending range is empty and the peer is still open: take a line.
    ReadLine,
    /// The pending range `[pos, cap)` is non-empty: write it out.
    Write,
    /// The pending range is empty and the peer has closed: flush, then done.
    Flush,
}

/// One relay session over one accepted connection.
pub struct CacheSession {
    /// Line intake over the connection's read half.
    pub reader: LineReader,
    /// Whether end of stream has been observed; set once, never reverts.
    pub read_done: bool,
    /// Index of the next unwritten byte of the pending range.
    pub pos: usize,
    /// End of the populated region of the buffer for this write cycle.
    pub cap: usize,
    /// Running tally: one per counted line, plus one per byte the write
    /// half accepts.
    pub amt: u64,
    /// The fixed-size scratch buffer; `[pos, cap)` is pending output.
    pub buf: Vec<u8>,
    /// Whether the final flush has completed.
    pub flushed: bool,
    /// Where the session stands.
    pub status: SessionStatus,
}

impl CacheSession {
    /// The session's internal invariant: the buffer indices stay ordered and
    /// in range, the flush happens only once reading is done and the buffer
    /// is drained, and the session is `Done` only after that flush.
    pub open spec fn wf(&self) -> bool {
        &&& self.pos <= self.cap <= BUF_CAPACITY
        &&& self.buf@.len() == BUF_CAPACITY
        &&& (self.flushed ==> self.read_done && self.pos == self.cap)
        &&& (self.status is Done ==> self.flushed)
    }

    /// Which connection operation the session needs next. The three answers
    /// partition the running states: exactly one applies.
    pub fn needed(&self) -> (n: Need)
        requires
            self.wf(),
            self.status is Running,
        ensures
            (n is ReadLine <==> self.pos == self.cap && !self.read_done),
            (n is Write <==> self.pos < self.cap),
            (n is Flush <==> self.pos == self.cap && self.read_done),
    {
        if self.pos < self.cap {
            Need::Write
        } else if self.read_done {
            Need::Flush
        } else {
            Need::ReadLine
        }
    }

    /// Take in one chunk of bytes the driver read from the connection;
    /// they accumulate in the line reader.
    pub fn feed(&mut self, chunk: &[u8])
        ensures
            final(self).reader.pending@ == old(self).reader.pending@ + chunk@,
            final(self).reader.eof == old(self).reader.eof,
            final(self).read_done == old(self).read_done,
            final(self).pos == old(self).pos,
            final(self).cap == old(self).cap,
            final(self).amt == old(self).amt,
            final(self).buf@ == old(self).buf@,
            final(self).flushed == old(self).flushed,
            final(self).status == old(self).status,
    {
        self.reader.push_chunk(chunk);
    }

    /// Record that the driver observed end of stream on the read half.
    pub fn feed_eof(&mut self)
        ensures
            final(self).reader.pending@ == old(self).reader.pending@,
            final(self).reader.eof,
            final(self).read_done == old(self).read_done,
            final(self).pos == old(self).pos,
            final(self).cap == old(self).cap,
            final(self).amt == old(self).amt,
            final(self).buf@ == old(self).buf@,
            final(self).flushed == old(self).flushed,
            final(self).status == old(self).status,
    {
        self.reader.mark_eof();
    }

    /// The read phase: attempt to take the next line from the reader.
    ///
    /// A produced line raises the tally by exactly one and is handed back for
    /// logging; its bytes are not copied into the buffer. End of stream sets
    /// `read_done`, after which the session never asks to read again. A line
    /// that is not valid text fails the session. With no complete line
    /// buffered and the stream open, nothing changes: the driver must feed
    /// more bytes.
    pub fn poll_line(&mut self) -> (r: LineStep)
        requires
            old(self).wf(),
            old(self).status is Running,
            old(self).pos == old(self).cap,
            !old(self).read_done,
            old(self).amt < u64::MAX,
        ensures
            final(self).wf(),
            final(self).pos == old(self).pos,
            final(self).cap == old(self).cap,
            final(self).buf@ == old(self).buf@,
            final(self).flushed == old(self).flushed,
            final(self).reader.eof == old(self).reader.eof,
            (r is NotReady <==> !has_newline(old(self).reader.pending@) && !old(self).reader.eof),
            (r is Eof <==> !has_newline(old(self).reader.pending@) && old(self).reader.eof),
            (r is Line <==> has_newline(old(self).reader.pending@) && utf8_decode(
                first_line(old(self).reader.pending@),
            ) is Some),
            (r is Malformed <==> has_newline(old(self).reader.pending@) && utf8_decode(
                first_line(old(self).reader.pending@),
            ) is None),
            r matches LineStep::Line(s) ==> Some(s@) == utf8_decode(
                first_line(old(self).reader.pending@),
            ),
            !has_newline(old(self).reader.pending@)
                ==> final(self).reader.pending@ == old(self).reader.pending@,
            has_newline(old(self).reader.pending@) ==> final(self).reader.pending@
                == rest_after_line(old(self).reader.pending@),
            r is NotReady ==> final(self).read_done == old(self).read_done
                && final(self).amt == old(self).amt
                && final(self).status == old(self).status,
            r is Eof ==> final(self).read_done
                && final(self).amt == old(self).amt
                && final(self).status == old(self).status,
            r is Line ==> final(self).read_done == old(self).read_done
                && final(self).amt == old(self).amt + 1
                && final(self).status == old(self).status,
            r is Malformed ==> final(self).read_done == old(self).read_done
                && final(self).amt == old(self).amt
                && final(self).status == SessionStatus::Failed(SessionError::InvalidLine),
    {
        match self.reader.next_line() {
            LineStep::Line(text) => {
                self.amt = self.amt + 1;
                LineStep::Line(text)
            },
            LineStep::NotReady => LineStep::NotReady,
            LineStep::Eof => {
                self.read_done = true;
                LineStep::Eof
            },
            LineStep::Malformed => {
                self.status = SessionStatus::Failed(SessionError::InvalidLine);
                LineStep::Malformed
            },
        }
    }

    /// The drain phase: the driver offered `buf[pos..cap]` to the write half,
    /// which accepted `n` bytes.
    ///
    /// Zero bytes accepted for a non-empty range fails the session at once
    /// with `WriteZero`; otherwise `pos` advances by `n` and the tally rises
    /// by `n`.
    pub fn on_write(&mut self, n: usize)
        requires
            old(self).wf(),
            old(self).status is Running,
            old(self).pos < old(self).cap,
            n <= old(self).cap - old(self).pos,
            old(self).amt + n <= u64::MAX,
        ensures
            final(self).wf(),
            final(self).reader == old(self).reader,
            final(self).read_done == old(self).read_done,
            final(self).cap == old(self).cap,
            final(self).buf@ == old(self).buf@,
            final(self).flushed == old(self).flushed,
            n == 0 ==> final(self).pos == old(self).pos && final(self).amt == old(self).amt
                && final(self).status == SessionStatus::Failed(SessionError::WriteZero),
            n > 0 ==> final(self).pos == old(self).pos + n && final(self).amt == old(self).amt + n
                && final(self).status == old(self).status,
    {
        if n == 0 {
            self.status = SessionStatus::Failed(SessionError::WriteZero);
        } else {
            self.pos = self.pos + n;
            self.amt = self.amt + n as u64;
        }
    }

    /// The completion step: the driver flushed the write half successfully
    /// after end of stream was seen and the buffer was drained. The session
    /// finishes and yields its final tally.
    pub fn on_flush_ok(&mut self) -> (tally: u64)
        requires
            old(self).wf(),
            old(self).status is Running,
            old(self).pos == old(self).cap,
            old(self).read_done,
        ensures
            final(self).wf(),
            tally == old(self).amt,
            final(self).reader == old(self).reader,
            final(self).read_done == old(self).read_done,
            final(self).pos == old(self).pos,
            final(self).cap == old(self).cap,
            final(self).amt == old(self).amt,
            final(self).buf@ == old(self).buf@,
            final(self).flushed,
            final(self).status is Done,
    {
        self.flushed = true;
        self.status = SessionStatus::Done;
        self.amt
    }

    /// The driver hit an unrecoverable read, write or flush error: the
    /// session fails, touching nothing else.
    pub fn on_io_error(&mut self)
        requires
            old(self).wf(),
            old(self).status is Running,
        ensures
            final(self).wf(),
            final(self).reader == old(self).reader,
            final(self).read_done == old(self).read_done,
            final(self).pos == old(self).pos,
            final(self).cap == old(self).cap,
            final(self).amt == old(self).amt,
            final(self).buf@ == old(self).buf@,
            final(self).flushed == old(self).flushed,
            final(self).status == SessionStatus::Failed(SessionError::Io),
    {
        self.status = SessionStatus::Failed(SessionError::Io);
    }
}

/// A fresh session for one accepted connection: nothing read, nothing
/// pending, tally zero, ready to run.
pub fn cache_session() -> (s: CacheSession)
    ensures
        s.wf(),
        s.status is Running,
        s.reader.pending@ == Seq::<u8>::empty(),
        !s.reader.eof,
        !s.read_done,
        s.pos == 0,
        s.cap == 0,
        s.amt == 0,
        s.buf@.len() == BUF_CAPACITY,
        !s.flushed,
{
    CacheSession {
        reader: LineReader::new(),
        read_done: false,
        pos: 0,
        cap: 0,
        amt: 0,
        buf: vec![0u8; BUF_CAPACITY],
        flushed: false,
        status: SessionStatus::Running,
    }
}

impl SessionError {
    /// The error's log text.
    pub fn message(&self) -> (r: String)
        ensures
            self is WriteZero ==> r@ == "write zero byte into writer"@,
            self is InvalidLine ==> r@ == "stream did not contain valid UTF-8"@,
            self is Io ==> r@ == "connection error"@,
    {
        match self {
            SessionError::WriteZero => String::from_str("write zero byte into writer"),
            SessionError::InvalidLine => String::from_str("stream did not contain valid UTF-8"),
            SessionError::Io => String::from_str("connection error"),
        }
    }
}

/// Completion comes only through the final flush: a well-formed session that
/// stands at `Done` has flushed, has seen end of stream, and holds no
/// pending bytes.
pub proof fn lemma_done_only_after_flush(s: CacheSession)
    requires
        s.wf(),
        s.status is Done,
    ensures
        s.flushed,
        s.read_done,
        s.pos == s.cap,
{
}

/// The read phase's tally accounting, abstractly: starting from `amt`, take
/// the first complete line and count one, until no complete line is left —
/// exactly what `poll_line` does to `amt` and to the reader's bytes.
pub open spec fn tally_of_read_phase(amt: nat, b: Seq<u8>) -> nat
    decreases b.len(),
{
    if has_newline(b) {
        tally_of_read_phase(amt + 1, rest_after_line(b))
    } else {
        amt
    }
}

/// One count per line sent: a read phase that starts at tally `amt` and
/// consumes the buffered bytes `b` ends at `amt` plus the number of
/// newline-terminated lines in `b`, however those bytes were chunked.
pub proof fn lemma_read_phase_tally(amt: nat, b: Seq<u8>)
    ensures
        tally_of_read_phase(amt, b) == amt + crate::lines::line_count(b),
    decreases b.len(),
{
    if has_newline(b) {
        crate::lines::lemma_line_decomposition(b);
        lemma_read_phase_tally(amt + 1, rest_after_line(b));
    } else {
        crate::lines::lemma_newline_exists(b);
        crate::lines::lemma_line_count_zero(b);
    }
}

} // verus!
