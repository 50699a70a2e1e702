//! A fixed-length circular buffer of samples.
use crate::float::{constant, Float};
use vstd::prelude::*;

verus! {

/// The mathematical content of a delay line: its cells and the position of
/// the cursor that reads and writes share.
pub struct LineState<T> {
    pub cells: Seq<T>,
    pub cursor: int,
}

impl<T> LineState<T> {
    /// The cursor points at a cell; in particular there is at least one cell.
    pub open spec fn wf(self) -> bool {
        0 <= self.cursor < self.cells.len()
    }

    /// A line of `length` cells that all hold `fill`, with the cursor at the
    /// first cell.
    pub open spec fn filled(length: nat, fill: T) -> Self {
        LineState { cells: Seq::new(length, |i: int| fill), cursor: 0 }
    }

    /// The cell under the cursor.
    pub open spec fn read(self) -> T {
        self.cells[self.cursor]
    }

    /// The position `steps` cells after the cursor, wrapping round at the
    /// end. It is meant for at most one full turn.
    pub open spec fn ahead(self, steps: int) -> int {
        if self.cursor + steps >= self.cells.len() {
            self.cursor + steps - self.cells.len()
        } else {
            self.cursor + steps
        }
    }

    /// The line after `value` has replaced the cell under the cursor and the
    /// cursor has moved on by one cell.
    pub open spec fn write(self, value: T) -> Self {
        LineState { cells: self.cells.update(self.cursor, value), cursor: self.ahead(1) }
    }

    /// The line after each of `values` has been written, first to last.
    pub open spec fn write_all(self, values: Seq<T>) -> Self
        decreases values.len(),
    {
        if values.len() == 0 {
            self
        } else {
            self.write(values[0]).write_all(values.skip(1))
        }
    }
}

/// A circular buffer of fixed length. Reading and writing happen at one
/// cursor, so a value written now is the one read after `length - 1`
/// further writes.
pub struct DelayLine<T> {
    buffer: Vec<T>,
    index: usize,
}

impl<T> DelayLine<T> {
    #[verifier::type_invariant]
    spec fn cursor_in_range(&self) -> bool {
        self.index < self.buffer@.len()
    }
}

impl<T> View for DelayLine<T> {
    type V = LineState<T>;

    closed spec fn view(&self) -> LineState<T> {
        LineState { cells: self.buffer@, cursor: self.index as int }
    }
}

impl<T: Float> DelayLine<T> {
    /// Makes a line of `length` cells, all zero, with the cursor at the first.
    pub fn new(length: usize) -> (line: Self)
        requires
            crate::float::obeys_arithmetic::<T>(),
            length > 0,
        ensures
            line@ == LineState::filled(length as nat, crate::float::zero::<T>()),
            line@.wf(),
    {
        let zero: T = constant(0, 1);
        let mut buffer: Vec<T> = Vec::with_capacity(length);
        let mut filled: usize = 0;
        while filled < length
            invariant
                filled <= length,
                buffer@.len() == filled,
                forall|k: int| 0 <= k < filled ==> buffer@[k] == zero,
            decreases length - filled,
        {
            buffer.push(zero);
            filled += 1;
        }
        let line = DelayLine { buffer, index: 0 };
        assert(line@.cells =~= LineState::filled(length as nat, zero).cells);
        line
    }

    /// Returns the sample under the cursor and leaves the line as it is.
    pub fn read(&self) -> (sample: T)
        ensures
            sample == self@.read(),
            self@.wf(),
    {
        proof {
            use_type_invariant(self);
        }
        self.buffer[self.index]
    }

    /// Stores `value` under the cursor, then moves the cursor on by one cell,
    /// back to the first cell after the last.
    pub fn write_and_advance(&mut self, value: T)
        ensures
            final(self)@ == old(self)@.write(value),
            old(self)@.wf(),
            final(self)@.wf(),
    {
        proof {
            use_type_invariant(&*self);
        }
        self.buffer[self.index] = value;
        if self.index == self.buffer.len() - 1 {
            self.index = 0;
        } else {
            self.index += 1;
        }
    }
}

/// A write moves the cursor on by one cell, counted round the line.
pub proof fn lemma_write_advances<T>(line: LineState<T>, value: T)
    requires
        line.wf(),
    ensures
        line.write(value).wf(),
        line.write(value).cells.len() == line.cells.len(),
        line.write(value).cursor == (line.cursor + 1) % (line.cells.len() as int),
{
    let length = line.cells.len() as int;
    if line.cursor + 1 == length {
        vstd::arithmetic::div_mod::lemma_mod_self_0(length);
    } else {
        vstd::arithmetic::div_mod::lemma_small_mod((line.cursor + 1) as nat, length as nat);
    }
}

/// Writing at most one full turn of values puts them, in order, into the
/// cells from the cursor on, leaves every other cell as it was, and moves
/// the cursor on by their number.
pub proof fn lemma_write_all<T>(line: LineState<T>, values: Seq<T>)
    requires
        line.wf(),
        values.len() <= line.cells.len(),
    ensures
        line.write_all(values).wf(),
        line.write_all(values).cells.len() == line.cells.len(),
        line.write_all(values).cursor == line.ahead(values.len() as int),
        forall|j: int|
            0 <= j < values.len() ==> #[trigger] line.write_all(values).cells[line.ahead(j)]
                == values[j],
        forall|p: int|
            0 <= p < line.cells.len() && (forall|j: int|
                0 <= j < values.len() ==> p != #[trigger] line.ahead(j))
                ==> #[trigger] line.write_all(values).cells[p] == line.cells[p],
    decreases values.len(),
{
    if values.len() > 0 {
        let first = line.write(values[0]);
        let rest = values.skip(1);
        lemma_write_all(first, rest);
        let done = first.write_all(rest);
        assert forall|j: int| 0 <= j < values.len() implies #[trigger] done.cells[line.ahead(j)]
            == values[j] by {
            if j == 0 {
                assert forall|i: int| 0 <= i < rest.len() implies line.cursor != #[trigger]
                    first.ahead(i) by {}
            } else {
                assert(line.ahead(j) == first.ahead(j - 1));
            }
        }
        assert forall|p: int|
            0 <= p < line.cells.len() && (forall|j: int|
                0 <= j < values.len() ==> p != #[trigger] line.ahead(j)) implies #[trigger]
            done.cells[p] == line.cells[p] by {
            assert(p != line.ahead(0));
            assert forall|i: int| 0 <= i < rest.len() implies p != #[trigger] first.ahead(i) by {
                assert(first.ahead(i) == line.ahead(i + 1));
            }
        }
    }
}

/// A full turn comes back round: once a line has been written from end to
/// end with `written`, the cursor is back where it was, and the read after
/// `later.len()` further writes, of whatever values, returns the value that
/// was written at that place in `written`.
pub proof fn lemma_full_cycle_round_trip<T>(line: LineState<T>, written: Seq<T>, later: Seq<T>)
    requires
        line.wf(),
        written.len() == line.cells.len(),
        later.len() < written.len(),
    ensures
        line.write_all(written).cursor == line.cursor,
        line.write_all(written).write_all(later).read() == written[later.len() as int],
{
    lemma_write_all(line, written);
    let full = line.write_all(written);
    lemma_write_all(full, later);
    let target = full.ahead(later.len() as int);
    assert(target == line.ahead(later.len() as int));
    assert forall|j: int| 0 <= j < later.len() implies target != #[trigger] full.ahead(j) by {}
}

} // verus!
