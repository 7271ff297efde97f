//! The line reader: it buffers raw bytes handed over from the read half of a
//! connection and gives out one decoded line at a time, delimiter stripped.
//! End of stream, once marked, is permanent: with no complete line buffered
//! the reader keeps answering that no more lines will come.

use vstd::prelude::*;

use crate::lines::{first_line, first_newline, has_newline, is_line_break, rest_after_line, NEWLINE};
use crate::lines::lemma_break_unique;

verus! {

/// What the text of a byte sequence is, if it is valid text: the result of
/// decoding it as UTF-8. Fixed by the bytes alone.
pub uninterp spec fn utf8_decode(b: Seq<u8>) -> Option<Seq<char>>;

/// Relies on `String::from_utf8`: it succeeds exactly on valid UTF-8 input,
/// and the text it returns depends on the bytes alone.
#[verifier::external_body]
fn decode_utf8(bytes: Vec<u8>) -> (r: Option<String>)
    ensures
        r is Some <==> utf8_decode(bytes@) is Some,
        r matches Some(s) ==> Some(s@) == utf8_decode(bytes@),
{
    match String::from_utf8(bytes) {
        Ok(s) => Some(s),
        Err(_) => None,
    }
}

/// The outcome of one attempt to take the next line.
pub enum LineStep {
    /// A complete line was buffered and decoded.
    Line(String),
    /// No complete line is buffered and the stream is still open: more bytes
    /// are needed before a line can be produced.
    NotReady,
    /// No complete line is buffered and the stream has ended: no more lines
    /// will ever come.
    Eof,
    /// A complete line was buffered but its bytes are not valid text.
    Malformed,
}

/// Buffers bytes from a read half and hands out complete lines.
pub struct LineReader {
    /// Bytes received but not yet given out as lines.
    pub pending: Vec<u8>,
    /// Whether end of stream has been observed on the read half.
    pub eof: bool,
}

impl LineReader {
    /// A fresh reader: nothing buffered, stream open.
    pub fn new() -> (r: LineReader)
        ensures
            r.pending@ == Seq::<u8>::empty(),
            !r.eof,
    {
        LineReader { pending: Vec::new(), eof: false }
    }

    /// Take in one chunk of bytes read from the connection. Appending chunk
    /// by chunk accumulates exactly the concatenation of the chunks, so where
    /// a read splits a line the pieces join back together here.
    pub fn push_chunk(&mut self, chunk: &[u8])
        ensures
            final(self).pending@ == old(self).pending@ + chunk@,
            final(self).eof == old(self).eof,
    {
        let n = chunk.len();
        let mut i: usize = 0;
        while i < n
            invariant
                i <= n,
                n == chunk@.len(),
                self.pending@ == old(self).pending@ + chunk@.subrange(0, i as int),
                self.eof == old(self).eof,
            decreases n - i,
        {
            let b = chunk[i];
            self.pending.push(b);
            i = i + 1;
            proof {
                assert(self.pending@ =~= old(self).pending@ + chunk@.subrange(0, i as int));
            }
        }
        proof {
            assert(chunk@.subrange(0, n as int) =~= chunk@);
        }
    }

    /// Record that the read half reached end of stream. Nothing buffered is
    /// lost, but an incomplete trailing line will never be completed.
    pub fn mark_eof(&mut self)
        ensures
            final(self).pending@ == old(self).pending@,
            final(self).eof,
    {
        self.eof = true;
    }

    /// Attempt to take the next line.
    ///
    /// With a complete line buffered, its bytes are consumed and it comes out
    /// decoded (`Line`), or `Malformed` if they are not valid text. With no
    /// complete line buffered, nothing changes and the answer is `Eof` once
    /// end of stream was marked — permanently, every attempt from then on —
    /// and `NotReady` before.
    pub fn next_line(&mut self) -> (r: LineStep)
        ensures
            final(self).eof == old(self).eof,
            !has_newline(old(self).pending@) ==> final(self).pending@ == old(self).pending@,
            (r is NotReady <==> !has_newline(old(self).pending@) && !old(self).eof),
            (r is Eof <==> !has_newline(old(self).pending@) && old(self).eof),
            has_newline(old(self).pending@) ==> final(self).pending@ == rest_after_line(
                old(self).pending@,
            ),
            (r is Line <==> has_newline(old(self).pending@) && utf8_decode(
                first_line(old(self).pending@),
            ) is Some),
            r matches LineStep::Line(s) ==> Some(s@) == utf8_decode(first_line(old(self).pending@)),
            (r is Malformed <==> has_newline(old(self).pending@) && utf8_decode(
                first_line(old(self).pending@),
            ) is None),
    {
        let ghost p = self.pending@;
        let n = self.pending.len();
        let mut i: usize = 0;
        while i < n && self.pending[i] != NEWLINE
            invariant
                i <= n,
                n == self.pending@.len(),
                self.pending@ == p,
                forall|j: int| 0 <= j < i ==> p[j] != NEWLINE,
            decreases n - i,
        {
            i = i + 1;
        }
        if i == n {
            proof {
                if has_newline(p) {
                    let k = first_newline(p);
                    assert(is_line_break(p, k));
                    assert(p[k] != NEWLINE);
                }
            }
            if self.eof {
                LineStep::Eof
            } else {
                LineStep::NotReady
            }
        } else {
            proof {
                assert(is_line_break(p, i as int));
                lemma_break_unique(p, i as int);
            }
            let mut line_bytes: Vec<u8> = Vec::new();
            let mut j: usize = 0;
            while j < i
                invariant
                    j <= i,
                    i < n,
                    n == self.pending@.len(),
                    self.pending@ == p,
                    line_bytes@ == p.subrange(0, j as int),
                decreases i - j,
            {
                let b = self.pending[j];
                line_bytes.push(b);
                j = j + 1;
                proof {
                    assert(line_bytes@ =~= p.subrange(0, j as int));
                }
            }
            let mut rest: Vec<u8> = Vec::new();
            let mut j2: usize = i + 1;
            while j2 < n
                invariant
                    i + 1 <= j2 <= n,
                    n == self.pending@.len(),
                    self.pending@ == p,
                    rest@ == p.subrange(i + 1, j2 as int),
                decreases n - j2,
            {
                let b = self.pending[j2];
                rest.push(b);
                j2 = j2 + 1;
                proof {
                    assert(rest@ =~= p.subrange(i + 1, j2 as int));
                }
            }
            self.pending = rest;
            proof {
                assert(line_bytes@ == first_line(p));
                assert(self.pending@ == rest_after_line(p));
            }
            match decode_utf8(line_bytes) {
                Some(text) => LineStep::Line(text),
                None => LineStep::Malformed,
            }
        }
    }
}

} // verus!
