//! The abstract state shared by both scanners, the meaning of each operation
//! on it, and the laws that hold of those operations.
use vstd::prelude::*;

verus! {

/// What a scanner is, seen mathematically: a fixed buffer of units (characters
/// or bytes), a cursor into it and an optional checkpoint.
pub ghost struct ScanState<T> {
    pub buffer: Seq<T>,
    pub cursor: nat,
    pub checkpoint: Option<nat>,
}

impl<T> ScanState<T> {
    /// A scanner that was just initialized over `buffer`.
    pub open spec fn fresh(buffer: Seq<T>) -> Self {
        ScanState { buffer, cursor: 0, checkpoint: None }
    }

    /// The cursor, and any checkpoint, lie within the buffer.
    pub open spec fn wf(self) -> bool {
        &&& self.cursor <= self.buffer.len()
        &&& self.checkpoint matches Some(c) ==> c <= self.buffer.len()
    }

    /// How many units are left from the cursor to the end of the buffer.
    pub open spec fn remaining(self) -> int {
        self.buffer.len() - self.cursor
    }

    pub open spec fn with_cursor(self, cursor: nat) -> Self {
        ScanState { cursor, ..self }
    }

    /// `mark`: the checkpoint becomes the cursor.
    pub open spec fn marked(self) -> Self {
        ScanState { checkpoint: Some(self.cursor), ..self }
    }

    /// `rollback`: the cursor returns to the checkpoint, if there is one.
    pub open spec fn rolled_back(self) -> Self {
        match self.checkpoint {
            Some(c) => self.with_cursor(c),
            None => self,
        }
    }

    /// The checkpoint, or zero where none was set.
    pub open spec fn backup_value(self) -> nat {
        match self.checkpoint {
            Some(c) => c,
            None => 0,
        }
    }

    /// Moving forward by `n`, stopping at the end of the buffer.
    pub open spec fn advanced_clamped(self, n: nat) -> Self {
        if self.cursor + n <= self.buffer.len() {
            self.with_cursor(self.cursor + n)
        } else {
            self.with_cursor(self.buffer.len())
        }
    }

    /// Moving forward by exactly `n`.
    pub open spec fn advanced(self, n: nat) -> Self {
        self.with_cursor(self.cursor + n)
    }

    /// Whether a window of `n` units starting at the cursor fits in the buffer.
    pub open spec fn fits(self, n: nat) -> bool {
        self.cursor + n <= self.buffer.len()
    }

    /// The `n` units starting at the cursor.
    pub open spec fn window(self, n: nat) -> Seq<T> {
        self.buffer.subrange(self.cursor as int, (self.cursor + n) as int)
    }

    /// Whether `literal` stands in the buffer at the cursor.
    pub open spec fn matches_at(self, literal: Seq<T>) -> bool {
        self.fits(literal.len()) && self.window(literal.len()) == literal
    }

    /// The units from the cursor to the end of the buffer.
    pub open spec fn rest(self) -> Seq<T> {
        self.buffer.subrange(self.cursor as int, self.buffer.len() as int)
    }

    /// The units in positions `from` up to, not including, `to`.
    pub open spec fn range(self, from: nat, to: nat) -> Seq<T> {
        self.buffer.subrange(from as int, to as int)
    }

    /// Whether `take(from, to)` names a range of the buffer.
    pub open spec fn range_ok(self, from: nat, to: nat) -> bool {
        from <= to && to <= self.buffer.len()
    }

    /// The one-unit ranges `[i, i + 1)` for `i` from `from` up to `to`, joined in order.
    pub open spec fn joined_units(self, from: nat, to: nat) -> Seq<T>
        decreases to - from,
    {
        if to <= from {
            Seq::empty()
        } else {
            self.joined_units(from, (to - 1) as nat) + self.range((to - 1) as nat, to)
        }
    }
}

/// Moving by zero, clamped or not, leaves the state as it is, and a read of
/// zero units fits and yields nothing.
pub proof fn lemma_zero_step<T>(s: ScanState<T>)
    requires
        s.wf(),
    ensures
        s.advanced_clamped(0) == s,
        s.advanced(0) == s,
        s.fits(0),
        s.window(0) == Seq::<T>::empty(),
{
    assert(s.window(0) =~= Seq::<T>::empty());
}

/// `mark`, then any move forward, then `rollback` returns to the state just
/// after `mark`: the cursor is back where it was.
pub proof fn lemma_mark_advance_rollback<T>(s: ScanState<T>, k: nat)
    requires
        s.wf(),
    ensures
        s.marked().advanced_clamped(k).rolled_back() == s.marked(),
        s.marked().advanced_clamped(k).rolled_back().cursor == s.cursor,
        s.fits(k) ==> s.marked().advanced(k).rolled_back() == s.marked(),
{
}

/// A second `rollback` right after a first one changes nothing.
pub proof fn lemma_rollback_idempotent<T>(s: ScanState<T>)
    ensures
        s.rolled_back().rolled_back() == s.rolled_back(),
{
}

/// A range read at once equals its one-unit ranges read one by one and joined;
/// each of those one-unit ranges is itself a valid range.
pub proof fn lemma_range_is_joined_units<T>(s: ScanState<T>, from: nat, to: nat)
    requires
        s.range_ok(from, to),
    ensures
        s.range(from, to) == s.joined_units(from, to),
        forall|i: nat| from <= i < to ==> #[trigger] s.range_ok(i, i + 1),
    decreases to - from,
{
    if from == to {
        assert(s.range(from, to) =~= Seq::<T>::empty());
    } else {
        let last = (to - 1) as nat;
        lemma_range_is_joined_units(s, from, last);
        assert(s.range(from, to) =~= s.range(from, last) + s.range(last, to));
    }
}

/// A literal longer than what is left after the cursor never matches there.
pub proof fn lemma_no_match_past_end<T>(s: ScanState<T>, literal: Seq<T>)
    requires
        literal.len() > s.remaining(),
    ensures
        !s.matches_at(literal),
{
}

/// A scanner that was just initialized reports zero as its checkpoint.
pub proof fn lemma_fresh_backup_is_zero<T>(buffer: Seq<T>)
    ensures
        ScanState::fresh(buffer).backup_value() == 0,
{
}

} // verus!
