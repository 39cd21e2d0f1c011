//! The storage cell layer: typed values behind references.

use vstd::prelude::*;
use crate::decide::require_value;
use crate::error::Error;
use crate::handle::CellRef;
use crate::value::{Value, ValueType, ValueView};

verus! {

/// Why a cell could not be fetched: the store holds no such cell.
#[derive(Clone, Copy, Debug, PartialEq, Eq, Structural)]
pub struct Unreadable;

/// What fetching cell `slot` as a value of type `kind` gives: the value; or
/// nothing, where the cell holds no value of that type; or no answer, where
/// there is no such cell.
pub open spec fn fetch_outcome(cells: Seq<ValueView>, slot: nat, kind: ValueType) -> Result<
    Option<ValueView>,
    Unreadable,
> {
    if slot >= cells.len() {
        Err(Unreadable)
    } else if cells[slot as int].kind() != kind {
        Ok(None)
    } else {
        Ok(Some(cells[slot as int]))
    }
}

/// What reading cell `slot` as a value of type `kind` gives.
pub open spec fn read_outcome(cells: Seq<ValueView>, slot: nat, kind: ValueType) -> Result<ValueView, Error> {
    if slot >= cells.len() {
        Err(Error::ReadFailure)
    } else if cells[slot as int].kind() != kind {
        Err(Error::ValueNotFound)
    } else {
        Ok(cells[slot as int])
    }
}

/// The cells after an attempt to overwrite cell `slot` with `value`: the
/// cell takes the value if it exists and has the value's type.
pub open spec fn write_result(cells: Seq<ValueView>, slot: nat, value: ValueView) -> Seq<ValueView> {
    if read_outcome(cells, slot, value.kind()) is Ok {
        cells.update(slot as int, value)
    } else {
        cells
    }
}

/// The sum of `n` and `delta`, wrapped into the 32-bit signed range.
pub open spec fn wrapped_sum(n: i32, delta: i32) -> i32 {
    if n + delta > i32::MAX {
        (n + delta - 0x1_0000_0000) as i32
    } else if n + delta < i32::MIN {
        (n + delta + 0x1_0000_0000) as i32
    } else {
        (n + delta) as i32
    }
}

/// The cells after an attempt to add `delta` to the numeric cell `slot`.
pub open spec fn add_result(cells: Seq<ValueView>, slot: nat, delta: i32) -> Seq<ValueView> {
    match read_outcome(cells, slot, ValueType::Int) {
        Ok(ValueView::Int(n)) => cells.update(slot as int, ValueView::Int(wrapped_sum(n, delta))),
        _ => cells,
    }
}

/// The error of an outcome, if it is one.
pub open spec fn failure<T>(outcome: Result<T, Error>) -> Option<Error> {
    match outcome {
        Ok(_) => None,
        Err(error) => Some(error),
    }
}

/// All storage cells of one ledger. A cell keeps the type it was created with.
pub struct CellStore {
    cells: Vec<Value>,
}

impl View for CellStore {
    type V = Seq<ValueView>;

    closed spec fn view(&self) -> Seq<ValueView> {
        Seq::new(self.cells@.len(), |i: int| self.cells@[i]@)
    }
}

impl CellStore {
    /// The store without cells.
    pub fn new() -> (store: CellStore)
        ensures
            store@ == Seq::<ValueView>::empty(),
    {
        CellStore { cells: Vec::new() }
    }

    /// The number of cells.
    pub fn len(&self) -> (count: usize)
        ensures
            count == self@.len(),
    {
        self.cells.len()
    }

    /// Creates a cell that holds `init` and returns the reference to it.
    pub fn create(&mut self, init: Value) -> (cell: CellRef)
        ensures
            final(self)@ == old(self)@.push(init@),
            cell@ == old(self)@.len(),
    {
        let cell = CellRef::at(self.cells.len());
        self.cells.push(init);
        cell
    }

    /// Fetches a copy of what `cell` holds: the value, if it is of type
    /// `kind`; nothing, if it is of another type; no answer, if the store
    /// holds no such cell.
    pub fn fetch(&self, cell: CellRef, kind: ValueType) -> (answer: Result<Option<Value>, Unreadable>)
        ensures
            match answer {
                Ok(Some(value)) => fetch_outcome(self@, cell@, kind) == Ok::<Option<ValueView>, Unreadable>(
                    Some(value@),
                ),
                Ok(None) => fetch_outcome(self@, cell@, kind) == Ok::<Option<ValueView>, Unreadable>(None),
                Err(_) => fetch_outcome(self@, cell@, kind) is Err,
            },
    {
        let slot = cell.slot();
        if slot >= self.cells.len() {
            return Err(Unreadable);
        }
        let value = &self.cells[slot];
        if value.kind() != kind {
            return Ok(None);
        }
        Ok(Some(value.duplicate()))
    }

    /// A copy of what `cell` holds, if it holds a value of type `kind`.
    pub fn read(&self, cell: CellRef, kind: ValueType) -> (outcome: Result<Value, Error>)
        ensures
            failure(outcome) == failure(read_outcome(self@, cell@, kind)),
            outcome is Ok ==> Ok::<ValueView, Error>(outcome->Ok_0@) == read_outcome(self@, cell@, kind),
    {
        require_value(self.fetch(cell, kind))
    }

    /// The integer that `cell` holds.
    pub fn read_int(&self, cell: CellRef) -> (outcome: Result<i32, Error>)
        ensures
            failure(outcome) == failure(read_outcome(self@, cell@, ValueType::Int)),
            outcome is Ok ==> Ok::<ValueView, Error>(ValueView::Int(outcome->Ok_0)) == read_outcome(
                self@,
                cell@,
                ValueType::Int,
            ),
    {
        match self.read(cell, ValueType::Int) {
            Ok(Value::Int(n)) => Ok(n),
            Ok(_) => Err(Error::ValueNotFound),
            Err(error) => Err(error),
        }
    }

    /// The text that `cell` holds.
    pub fn read_text(&self, cell: CellRef) -> (outcome: Result<String, Error>)
        ensures
            failure(outcome) == failure(read_outcome(self@, cell@, ValueType::Text)),
            outcome is Ok ==> Ok::<ValueView, Error>(ValueView::Text(outcome->Ok_0@)) == read_outcome(
                self@,
                cell@,
                ValueType::Text,
            ),
    {
        match self.read(cell, ValueType::Text) {
            Ok(Value::Text(text)) => Ok(text),
            Ok(_) => Err(Error::ValueNotFound),
            Err(error) => Err(error),
        }
    }

    /// The version number that `cell` holds.
    pub fn read_count(&self, cell: CellRef) -> (outcome: Result<u64, Error>)
        ensures
            failure(outcome) == failure(read_outcome(self@, cell@, ValueType::Count)),
            outcome is Ok ==> Ok::<ValueView, Error>(ValueView::Count(outcome->Ok_0)) == read_outcome(
                self@,
                cell@,
                ValueType::Count,
            ),
    {
        match self.read(cell, ValueType::Count) {
            Ok(Value::Count(n)) => Ok(n),
            Ok(_) => Err(Error::ValueNotFound),
            Err(error) => Err(error),
        }
    }

    /// Overwrites what `cell` holds with `value`. Fails, and changes nothing,
    /// if the cell does not exist or was created with another type.
    pub fn write(&mut self, cell: CellRef, value: Value) -> (outcome: Result<(), Error>)
        ensures
            failure(outcome) == failure(read_outcome(old(self)@, cell@, value@.kind())),
            final(self)@ == write_result(old(self)@, cell@, value@),
    {
        let slot = cell.slot();
        if slot >= self.cells.len() {
            return Err(Error::ReadFailure);
        }
        if self.cells[slot].kind() != value.kind() {
            return Err(Error::ValueNotFound);
        }
        self.cells[slot] = value;
        Ok(())
    }

    /// Adds `delta` to the integer that `cell` holds, wrapping at the ends of
    /// the 32-bit range, without handing the old value out. Fails, and changes
    /// nothing, if the cell does not exist or is not numeric.
    pub fn add(&mut self, cell: CellRef, delta: i32) -> (outcome: Result<(), Error>)
        ensures
            failure(outcome) == failure(read_outcome(old(self)@, cell@, ValueType::Int)),
            final(self)@ == add_result(old(self)@, cell@, delta),
    {
        let slot = cell.slot();
        if slot >= self.cells.len() {
            return Err(Error::ReadFailure);
        }
        match &self.cells[slot] {
            Value::Int(n) => {
                let sum = n.wrapping_add(delta);
                self.cells[slot] = Value::Int(sum);
                Ok(())
            },
            _ => Err(Error::ValueNotFound),
        }
    }
}

} // verus!
