//! A scanner whose positions count Unicode scalar values.
use crate::error::ScanError;
use crate::pattern::{compile, find_first, first_match, match_text, pattern_compiles, text_or_empty};
use crate::state::ScanState;
use crate::text::{chars_of, decode_utf8_strict, string_of};
use vstd::prelude::*;
use vstd::slice::slice_subrange;
use vstd::utf8::{decode_utf8, encode_utf8_decode_utf8, valid_utf8};

verus! {

/// A cursor over a sequence of characters, with one checkpoint.
pub struct CharScanner {
    chars: Vec<char>,
    cursor: usize,
    checkpoint: Option<usize>,
}

impl View for CharScanner {
    type V = ScanState<char>;

    closed spec fn view(&self) -> ScanState<char> {
        ScanState {
            buffer: self.chars@,
            cursor: self.cursor as nat,
            checkpoint: match self.checkpoint {
                Some(c) => Some(c as nat),
                None => None,
            },
        }
    }
}

impl Default for CharScanner {
    fn default() -> (r: Self)
        ensures
            r.wf(),
            r@ == ScanState::<char>::fresh(Seq::empty()),
    {
        CharScanner::new()
    }
}

impl CharScanner {
    /// The cursor and checkpoint lie within the buffer.
    pub open spec fn wf(&self) -> bool {
        self@.wf()
    }

    /// A scanner over the empty text.
    pub fn new() -> (r: Self)
        ensures
            r.wf(),
            r@ == ScanState::<char>::fresh(Seq::empty()),
    {
        let r = CharScanner { chars: Vec::new(), cursor: 0, checkpoint: None };
        assert(r@.buffer =~= Seq::<char>::empty());
        r
    }

    /// Loads `text` as the buffer; the cursor goes to the start and the checkpoint is cleared.
    pub fn initialize(&mut self, text: &str)
        ensures
            final(self).wf(),
            final(self)@ == ScanState::<char>::fresh(text@),
    {
        self.chars = chars_of(text);
        self.cursor = 0;
        self.checkpoint = None;
    }

    /// Loads the text that `bytes` encode in UTF-8, as `initialize` does; bytes
    /// that are not well-formed UTF-8 are refused and the scanner is left as it was.
    pub fn initialize_utf8(&mut self, bytes: &[u8]) -> (r: Result<(), ScanError>)
        ensures
            valid_utf8(bytes@) ==> r is Ok && final(self)@ == ScanState::<char>::fresh(
                decode_utf8(bytes@),
            ) && final(self).wf(),
            !valid_utf8(bytes@) ==> r == Err::<(), ScanError>(ScanError::DecodeError)
                && final(self)@ == old(self)@,
    {
        match decode_utf8_strict(bytes) {
            Some(text) => {
                proof {
                    encode_utf8_decode_utf8(text@);
                }
                self.initialize(text.as_str());
                Ok(())
            },
            None => Err(ScanError::DecodeError),
        }
    }

    /// Saves the cursor as the checkpoint, replacing any earlier one.
    pub fn mark_offset(&mut self)
        requires
            old(self).wf(),
        ensures
            final(self).wf(),
            final(self)@ == old(self)@.marked(),
    {
        self.checkpoint = Some(self.cursor);
    }

    /// Moves the cursor back to the checkpoint; without one, does nothing.
    pub fn rollback(&mut self)
        requires
            old(self).wf(),
        ensures
            final(self).wf(),
            final(self)@ == old(self)@.rolled_back(),
    {
        if let Some(c) = self.checkpoint {
            self.cursor = c;
        }
    }

    /// Reads `char_count` characters at the cursor and moves past them.
    pub fn read(&mut self, char_count: usize) -> (r: Result<(String, usize), ScanError>)
        requires
            old(self).wf(),
        ensures
            final(self).wf(),
            old(self)@.fits(char_count as nat) ==> (r matches Ok((s, n)) && s@ == old(self)@.window(
                char_count as nat,
            ) && n == char_count && final(self)@ == old(self)@.advanced(char_count as nat)),
            !old(self)@.fits(char_count as nat) ==> r == Err::<(String, usize), ScanError>(
                ScanError::OutOfRange,
            ) && final(self)@ == old(self)@,
    {
        if char_count > self.chars.len() - self.cursor {
            return Err(ScanError::OutOfRange);
        }
        let start = self.cursor;
        let end = start + char_count;
        let s = string_of(slice_subrange(self.chars.as_slice(), start, end));
        self.cursor = end;
        Ok((s, char_count))
    }

    /// Moves the cursor forward by `char_count`, stopping at the end of the buffer.
    pub fn advance(&mut self, char_count: usize)
        requires
            old(self).wf(),
        ensures
            final(self).wf(),
            final(self)@ == old(self)@.advanced_clamped(char_count as nat),
    {
        if char_count > self.chars.len() - self.cursor {
            self.cursor = self.chars.len();
        } else {
            self.cursor = self.cursor + char_count;
        }
    }

    /// Whether `literal` stands at the cursor; the cursor does not move.
    pub fn matches(&self, literal: &str) -> (r: bool)
        requires
            self.wf(),
        ensures
            r == self@.matches_at(literal@),
    {
        let lit = chars_of(literal);
        if lit.len() > self.chars.len() - self.cursor {
            return false;
        }
        let mut i: usize = 0;
        while i < lit.len()
            invariant
                self.wf(),
                lit@ == literal@,
                self.cursor + lit@.len() <= self.chars.len(),
                i <= lit@.len(),
                forall|j: int| 0 <= j < i ==> self.chars@[self.cursor + j] == lit@[j],
            decreases lit@.len() - i,
        {
            if self.chars[self.cursor + i] != lit[i] {
                assert(self@.window(lit@.len())[i as int] != lit@[i as int]);
                return false;
            }
            i = i + 1;
        }
        assert(self@.window(lit@.len()) =~= lit@);
        true
    }

    /// The first match of the regular expression `pattern` anywhere in the
    /// text from the cursor to the end; empty where there is none, or where the
    /// cursor is at the end. The cursor does not move.
    pub fn matches_regex(&self, pattern: &str) -> (r: Result<String, ScanError>)
        requires
            self.wf(),
        ensures
            self@.remaining() == 0 ==> (r matches Ok(s) && s@ == Seq::<char>::empty()),
            self@.remaining() > 0 && !pattern_compiles(pattern@) ==> r == Err::<String, ScanError>(
                ScanError::PatternError,
            ),
            self@.remaining() > 0 && pattern_compiles(pattern@) ==> (r matches Ok(s) && s@
                == text_or_empty(first_match(pattern@, self@.rest()))),
    {
        if self.cursor >= self.chars.len() {
            return Ok(String::new());
        }
        let rest = string_of(slice_subrange(self.chars.as_slice(), self.cursor, self.chars.len()));
        let compiled = compile(pattern);
        match compiled {
            Ok(p) => {
                let found = find_first(&p, rest.as_str());
                Ok(match_text(found))
            },
            Err(_) => Err(ScanError::PatternError),
        }
    }

    /// The cursor.
    pub fn offset(&self) -> (r: usize)
        requires
            self.wf(),
        ensures
            r == self@.cursor,
    {
        self.cursor
    }

    /// The characters in positions `from` up to, not including, `to`.
    pub fn take(&self, from: usize, to: usize) -> (r: Result<String, ScanError>)
        requires
            self.wf(),
        ensures
            self@.range_ok(from as nat, to as nat) ==> (r matches Ok(s) && s@ == self@.range(
                from as nat,
                to as nat,
            )),
            !self@.range_ok(from as nat, to as nat) ==> r == Err::<String, ScanError>(
                ScanError::OutOfRange,
            ),
    {
        if from > to || to > self.chars.len() {
            return Err(ScanError::OutOfRange);
        }
        Ok(string_of(slice_subrange(self.chars.as_slice(), from, to)))
    }

    /// The checkpoint, or zero where none was set.
    pub fn backup(&self) -> (r: usize)
        requires
            self.wf(),
        ensures
            r == self@.backup_value(),
    {
        match self.checkpoint {
            Some(c) => c,
            None => 0,
        }
    }
}

} // verus!
