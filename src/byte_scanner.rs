//! A scanner whose positions count bytes of the UTF-8 encoding, and whose
//! reads widen a window that ends inside an encoded character.
use crate::state::ScanState;
use crate::text::{decode_utf8_lossy, decode_utf8_strict, utf8_lossy};
use vstd::prelude::*;
use vstd::slice::{slice_subrange, slice_to_vec};
use vstd::string::StringSliceAdditionalSpecFns;
use vstd::utf8::{decode_utf8, encode_utf8, encode_utf8_decode_utf8, valid_utf8};

verus! {

/// The most bytes that `peek` adds to a window to complete a character.
pub const MAX_WIDENING: usize = 4;

/// Where the window `[start, end)` stops growing: it takes one more byte at a
/// time while it is not well-formed UTF-8, until `MAX_WIDENING - added` more
/// bytes were taken or the end of the buffer is reached.
pub open spec fn widened_end(buffer: Seq<u8>, start: int, end: int, added: int) -> int
    decreases MAX_WIDENING - added,
{
    if valid_utf8(buffer.subrange(start, end)) || added >= MAX_WIDENING || end >= buffer.len() {
        end
    } else {
        widened_end(buffer, start, end + 1, added + 1)
    }
}

/// The end of the window that `peek(n)` reads, for a window that fits.
pub open spec fn peek_end(s: ScanState<u8>, n: nat) -> int {
    widened_end(s.buffer, s.cursor as int, (s.cursor + n) as int, 0)
}

/// The text that a window of bytes reads as: its decoding where it is
/// well-formed, else its decoding with replacement characters.
pub open spec fn window_text(bytes: Seq<u8>) -> Seq<char> {
    if valid_utf8(bytes) {
        decode_utf8(bytes)
    } else {
        utf8_lossy(bytes)
    }
}

/// `peek(0)` always fits, spans no bytes and reads the empty text.
pub proof fn lemma_peek_zero(s: ScanState<u8>)
    requires
        s.wf(),
    ensures
        s.fits(0),
        peek_end(s, 0) == s.cursor,
        window_text(s.window(0)) == Seq::<char>::empty(),
{
    assert(s.window(0) =~= Seq::<u8>::empty());
    assert(valid_utf8(Seq::<u8>::empty()));
    assert(decode_utf8(Seq::<u8>::empty()) =~= Seq::<char>::empty());
}

/// A cursor over the UTF-8 bytes of a text, with one checkpoint.
pub struct ByteScanner {
    bytes: Vec<u8>,
    cursor: usize,
    checkpoint: Option<usize>,
}

impl View for ByteScanner {
    type V = ScanState<u8>;

    closed spec fn view(&self) -> ScanState<u8> {
        ScanState {
            buffer: self.bytes@,
            cursor: self.cursor as nat,
            checkpoint: match self.checkpoint {
                Some(c) => Some(c as nat),
                None => None,
            },
        }
    }
}

impl Default for ByteScanner {
    fn default() -> (r: Self)
        ensures
            r.wf(),
            r@ == ScanState::<u8>::fresh(Seq::empty()),
    {
        ByteScanner::new()
    }
}

impl ByteScanner {
    /// The cursor and checkpoint lie within the buffer.
    pub open spec fn wf(&self) -> bool {
        self@.wf()
    }

    /// A scanner over the empty text.
    pub fn new() -> (r: Self)
        ensures
            r.wf(),
            r@ == ScanState::<u8>::fresh(Seq::empty()),
    {
        let r = ByteScanner { bytes: Vec::new(), cursor: 0, checkpoint: None };
        assert(r@.buffer =~= Seq::<u8>::empty());
        r
    }

    /// Loads the UTF-8 encoding of `text` as the buffer; the cursor goes to the
    /// start and the checkpoint is cleared.
    pub fn initialize(&mut self, text: &str)
        ensures
            final(self).wf(),
            final(self)@ == ScanState::<u8>::fresh(encode_utf8(text@)),
    {
        self.bytes = slice_to_vec(text.as_bytes());
        self.cursor = 0;
        self.checkpoint = None;
    }

    /// Saves the cursor as the checkpoint, replacing any earlier one.
    pub fn mark_offset(&mut self)
        requires
            old(self).wf(),
        ensures
            final(self).wf(),
            final(self)@ == old(self)@.marked(),
    {
        self.checkpoint = Some(self.cursor);
    }

    /// Moves the cursor back to the checkpoint; without one, does nothing.
    pub fn rollback(&mut self)
        requires
            old(self).wf(),
        ensures
            final(self).wf(),
            final(self)@ == old(self)@.rolled_back(),
    {
        if let Some(c) = self.checkpoint {
            self.cursor = c;
        }
    }

    /// Reads `bytesize` bytes at the cursor without moving it, widening the
    /// window by up to `MAX_WIDENING` bytes until it is well-formed UTF-8.
    /// Gives the text read and the number of bytes it spans; gives the empty
    /// text and zero where `bytesize` bytes do not fit.
    pub fn peek(&self, bytesize: usize) -> (r: (String, usize))
        requires
            self.wf(),
        ensures
            !self@.fits(bytesize as nat) ==> r.0@ == Seq::<char>::empty() && r.1 == 0,
            self@.fits(bytesize as nat) ==> r.1 == peek_end(self@, bytesize as nat) - self@.cursor
                && r.0@ == window_text(self@.window(r.1 as nat)),
    {
        if bytesize > self.bytes.len() - self.cursor {
            return (String::new(), 0);
        }
        let ghost buf = self.bytes@;
        let start = self.cursor;
        let mut end: usize = start + bytesize;
        let mut added: usize = 0;
        let mut decoded = decode_utf8_strict(slice_subrange(self.bytes.as_slice(), start, end));
        while decoded.is_none() && added < MAX_WIDENING && end < self.bytes.len()
            invariant
                self.wf(),
                buf == self.bytes@,
                start == self.cursor,
                start + bytesize <= end <= self.bytes.len(),
                added <= MAX_WIDENING,
                widened_end(buf, start as int, end as int, added as int) == peek_end(
                    self@,
                    bytesize as nat,
                ),
                decoded is Some <==> valid_utf8(buf.subrange(start as int, end as int)),
                decoded matches Some(s) ==> encode_utf8(s@) == buf.subrange(
                    start as int,
                    end as int,
                ),
            decreases MAX_WIDENING - added,
        {
            end = end + 1;
            added = added + 1;
            decoded = decode_utf8_strict(slice_subrange(self.bytes.as_slice(), start, end));
        }
        let window = slice_subrange(self.bytes.as_slice(), start, end);
        assert(window@ == self@.window((end - start) as nat));
        let text = match decoded {
            Some(s) => {
                proof {
                    encode_utf8_decode_utf8(s@);
                }
                s
            },
            None => decode_utf8_lossy(window),
        };
        (text, end - start)
    }

    /// Moves the cursor forward by exactly `bytesize` bytes.
    pub fn advance(&mut self, bytesize: usize)
        requires
            old(self).wf(),
            old(self)@.fits(bytesize as nat),
        ensures
            final(self).wf(),
            final(self)@ == old(self)@.advanced(bytesize as nat),
    {
        let len = self.bytes.len();
        assert(self.cursor + bytesize <= len);
        self.cursor = self.cursor + bytesize;
    }

    /// Whether the UTF-8 encoding of `literal` stands at the cursor; the cursor does not move.
    pub fn matches(&self, literal: &str) -> (r: bool)
        requires
            self.wf(),
        ensures
            r == self@.matches_at(literal.spec_bytes()),
    {
        let lit = literal.as_bytes();
        if lit.len() > self.bytes.len() - self.cursor {
            return false;
        }
        let mut i: usize = 0;
        while i < lit.len()
            invariant
                self.wf(),
                lit@ == literal.spec_bytes(),
                self.cursor + lit@.len() <= self.bytes.len(),
                i <= lit@.len(),
                forall|j: int| 0 <= j < i ==> self.bytes@[self.cursor + j] == lit@[j],
            decreases lit@.len() - i,
        {
            if self.bytes[self.cursor + i] != lit[i] {
                assert(self@.window(lit@.len())[i as int] != lit@[i as int]);
                return false;
            }
            i = i + 1;
        }
        assert(self@.window(lit@.len()) =~= lit@);
        true
    }
}

} // verus!
