//! The mathematical model of newline-delimited framing: where the first
//! line break of a byte sequence sits, what the first line and the remainder
//! are, and how many complete lines a sequence holds.

use vstd::prelude::*;

verus! {

/// The byte that terminates a line.
pub const NEWLINE: u8 = 10;

/// `k` is the position of the first newline byte in `b`.
pub open spec fn is_line_break(b: Seq<u8>, k: int) -> bool {
    &&& 0 <= k < b.len()
    &&& b[k] == NEWLINE
    &&& forall|j: int| 0 <= j < k ==> b[j] != NEWLINE
}

/// `b` holds at least one complete line.
pub open spec fn has_newline(b: Seq<u8>) -> bool {
    exists|k: int| is_line_break(b, k)
}

/// The position of the first newline byte in `b` (meaningful only when
/// `has_newline(b)`).
pub open spec fn first_newline(b: Seq<u8>) -> int {
    choose|k: int| is_line_break(b, k)
}

/// The bytes of the first complete line of `b`, delimiter stripped.
pub open spec fn first_line(b: Seq<u8>) -> Seq<u8> {
    b.subrange(0, first_newline(b))
}

/// What remains of `b` once its first line and delimiter are consumed.
pub open spec fn rest_after_line(b: Seq<u8>) -> Seq<u8> {
    b.subrange(first_newline(b) + 1, b.len() as int)
}

/// How many newline bytes `b` holds: one per complete line.
pub open spec fn line_count(b: Seq<u8>) -> nat
    decreases b.len(),
{
    if b.len() == 0 {
        0
    } else {
        (if b[0] == NEWLINE {
            1nat
        } else {
            0nat
        }) + line_count(b.drop_first())
    }
}

/// The complete lines of `b`, in order, delimiters stripped: what a reader
/// that repeatedly takes the first line until none is left hands out.
pub open spec fn lines_of(b: Seq<u8>) -> Seq<Seq<u8>>
    decreases b.len(),
{
    if has_newline(b) {
        seq![first_line(b)] + lines_of(rest_after_line(b))
    } else {
        Seq::empty()
    }
}

/// A line break at `k` pins `first_newline(b)` to `k`.
pub proof fn lemma_break_unique(b: Seq<u8>, k: int)
    requires
        is_line_break(b, k),
    ensures
        first_newline(b) == k,
{
    let k2 = first_newline(b);
    assert(is_line_break(b, k2));
    if k < k2 {
        assert(b[k] != NEWLINE);
    } else if k2 < k {
        assert(b[k2] != NEWLINE);
    }
}

/// A sequence holds a complete line exactly when a newline byte occurs in it.
pub proof fn lemma_newline_exists(b: Seq<u8>)
    ensures
        has_newline(b) <==> exists|j: int| 0 <= j < b.len() && b[j] == NEWLINE,
    decreases b.len(),
{
    if exists|j: int| 0 <= j < b.len() && b[j] == NEWLINE {
        if b[0] == NEWLINE {
            assert(is_line_break(b, 0));
        } else {
            let j = choose|j: int| 0 <= j < b.len() && b[j] == NEWLINE;
            let t = b.drop_first();
            assert(t[j - 1] == NEWLINE);
            lemma_newline_exists(t);
            let k = first_newline(t);
            assert(is_line_break(t, k));
            assert forall|i: int| 0 <= i < k + 1 implies b[i] != NEWLINE by {
                if i > 0 {
                    assert(t[i - 1] != NEWLINE);
                }
            }
            assert(b[k + 1] == t[k]);
            assert(is_line_break(b, k + 1));
        }
    }
}

/// A sequence without a newline byte holds no complete line and counts zero.
pub proof fn lemma_line_count_zero(b: Seq<u8>)
    requires
        forall|j: int| 0 <= j < b.len() ==> b[j] != NEWLINE,
    ensures
        line_count(b) == 0,
    decreases b.len(),
{
    if b.len() > 0 {
        lemma_line_count_zero(b.drop_first());
    }
}

/// Newline bytes are counted independently in the two halves of a
/// concatenation.
pub proof fn lemma_line_count_concat(a: Seq<u8>, c: Seq<u8>)
    ensures
        line_count(a + c) == line_count(a) + line_count(c),
    decreases a.len(),
{
    if a.len() == 0 {
        assert(a + c =~= c);
    } else {
        assert((a + c).drop_first() =~= a.drop_first() + c);
        lemma_line_count_concat(a.drop_first(), c);
    }
}

/// A sequence with a first line decomposes into that line, its delimiter,
/// and the remainder.
pub proof fn lemma_line_decomposition(b: Seq<u8>)
    requires
        has_newline(b),
    ensures
        b =~= first_line(b) + seq![NEWLINE] + rest_after_line(b),
        line_count(b) == 1 + line_count(rest_after_line(b)),
{
    let k = first_newline(b);
    assert(is_line_break(b, k));
    let fl = first_line(b);
    let rest = rest_after_line(b);
    let s1: Seq<u8> = seq![NEWLINE];
    assert(b =~= fl + s1 + rest);
    assert(fl + s1 + rest =~= fl + (s1 + rest));
    assert(forall|j: int| 0 <= j < fl.len() ==> fl[j] == b[j] && fl[j] != NEWLINE);
    lemma_line_count_zero(fl);
    lemma_line_count_concat(fl, s1 + rest);
    lemma_line_count_concat(s1, rest);
    assert(s1.drop_first() =~= Seq::<u8>::empty());
    assert(line_count(Seq::<u8>::empty()) == 0);
    assert(line_count(s1) == 1);
}

/// How chunk boundaries vanish: bytes appended in two chunks leave the same
/// accumulated sequence as the same bytes appended as one chunk, so a line
/// split across partial reads is framed exactly as an unsplit one.
pub proof fn lemma_chunking_irrelevant(pending: Seq<u8>, c1: Seq<u8>, c2: Seq<u8>)
    ensures
        (pending + c1) + c2 == pending + (c1 + c2),
{
    assert((pending + c1) + c2 =~= pending + (c1 + c2));
}

/// One count per line, however the bytes arrive: the complete lines a byte
/// sequence holds are exactly as many as its newline bytes, so a session
/// that increments its tally once per delivered line ends with a tally equal
/// to the number of newline-terminated lines the peer sent.
pub proof fn lemma_one_line_per_newline(b: Seq<u8>)
    ensures
        lines_of(b).len() == line_count(b),
    decreases b.len(),
{
    if has_newline(b) {
        lemma_line_decomposition(b);
        lemma_one_line_per_newline(rest_after_line(b));
    } else {
        lemma_newline_exists(b);
        lemma_line_count_zero(b);
    }
}

} // verus!
