//! The two shapes of entry-point handler: the scalar accessor on a numeric
//! cell and the append-only accessor on a text cell. Each resolves a named
//! key of a namespace to a cell and works on that cell alone.

use vstd::prelude::*;
use crate::cell::{add_result, read_outcome};
use crate::decide::{joined, require_key, require_variant};
use crate::error::Error;
use crate::handle::{CellRef, Key, KeyView, Scope};
use crate::ledger::{Ledger, LedgerView, ScopeView};
use crate::value::{Value, ValueType, ValueView};

verus! {

/// The cell that `name` refers to in `scope`.
pub open spec fn cell_named(ledger: LedgerView, scope: ScopeView, name: Seq<char>) -> Result<nat, Error> {
    if !ledger.keys(scope).contains_key(name) {
        Err(Error::MissingKey)
    } else {
        match ledger.keys(scope)[name] {
            KeyView::Cell(slot) => Ok(slot),
            _ => Err(Error::UnexpectedKeyVariant),
        }
    }
}

/// What reading the cell named `name` as a value of type `kind` gives.
pub open spec fn read_named(ledger: LedgerView, scope: ScopeView, name: Seq<char>, kind: ValueType) -> Result<
    ValueView,
    Error,
> {
    match cell_named(ledger, scope, name) {
        Ok(slot) => read_outcome(ledger.cells, slot, kind),
        Err(error) => Err(error),
    }
}

/// What reading the counter named `name` gives.
pub open spec fn counter_value(ledger: LedgerView, scope: ScopeView, name: Seq<char>) -> Result<i32, Error> {
    match read_named(ledger, scope, name, ValueType::Int) {
        Ok(ValueView::Int(n)) => Ok(n),
        Ok(_) => Err(Error::ValueNotFound),
        Err(error) => Err(error),
    }
}

/// The ledger after an attempt to add `delta` to the counter named `name`.
pub open spec fn counter_added(ledger: LedgerView, scope: ScopeView, name: Seq<char>, delta: i32) -> LedgerView {
    match cell_named(ledger, scope, name) {
        Ok(slot) => ledger.with_cells(add_result(ledger.cells, slot, delta)),
        Err(_) => ledger,
    }
}

/// What reading the text named `name` gives.
pub open spec fn text_value(ledger: LedgerView, scope: ScopeView, name: Seq<char>) -> Result<Seq<char>, Error> {
    match read_named(ledger, scope, name, ValueType::Text) {
        Ok(ValueView::Text(text)) => Ok(text),
        Ok(_) => Err(Error::ValueNotFound),
        Err(error) => Err(error),
    }
}

/// Whether appending to the text named `name` succeeds: the name is bound to
/// a text cell, or it is not bound and the namespace exists.
pub open spec fn append_outcome(ledger: LedgerView, scope: ScopeView, name: Seq<char>) -> Result<(), Error> {
    if !ledger.keys(scope).contains_key(name) {
        if ledger.has_scope(scope) {
            Ok(())
        } else {
            Err(Error::MissingKey)
        }
    } else {
        match text_value(ledger, scope, name) {
            Ok(_) => Ok(()),
            Err(error) => Err(error),
        }
    }
}

/// The ledger after an attempt to append `data` to the text named `name`.
/// Where the name is bound to a text cell, that cell holds the old text
/// followed by `data`. Where the name is not bound, a new cell holds `data`
/// and the name is bound to it.
pub open spec fn text_appended(ledger: LedgerView, scope: ScopeView, name: Seq<char>, data: Seq<char>) -> LedgerView {
    if !ledger.keys(scope).contains_key(name) {
        if ledger.has_scope(scope) {
            ledger.with_cells(ledger.cells.push(ValueView::Text(data))).with_key(
                scope,
                name,
                KeyView::Cell(ledger.cells.len()),
            )
        } else {
            ledger
        }
    } else {
        match text_value(ledger, scope, name) {
            Ok(text) => ledger.with_cells(
                ledger.cells.update(cell_named(ledger, scope, name)->Ok_0 as int, ValueView::Text(text + data)),
            ),
            Err(_) => ledger,
        }
    }
}

/// Resolves `name` in `scope` to a storage cell.
pub fn resolve_cell(ledger: &Ledger, scope: Scope, name: &str) -> (outcome: Result<CellRef, Error>)
    requires
        ledger.wf(),
    ensures
        match outcome {
            Ok(cell) => cell_named(ledger@, scope@, name@) == Ok::<nat, Error>(cell@),
            Err(error) => cell_named(ledger@, scope@, name@) == Err::<nat, Error>(error),
        },
{
    match require_key(ledger.get_key(scope, name)) {
        Err(error) => Err(error),
        Ok(key) => require_variant(key.into_cell()),
    }
}

/// Adds `delta` to the counter named `name`, without reading it first.
pub fn counter_add(ledger: &mut Ledger, scope: Scope, name: &str, delta: i32) -> (outcome: Result<(), Error>)
    requires
        old(ledger).wf(),
    ensures
        final(ledger).wf(),
        match outcome {
            Ok(_) => counter_value(old(ledger)@, scope@, name@) is Ok,
            Err(error) => counter_value(old(ledger)@, scope@, name@) == Err::<i32, Error>(error),
        },
        final(ledger)@ == counter_added(old(ledger)@, scope@, name@, delta),
{
    match resolve_cell(ledger, scope, name) {
        Err(error) => Err(error),
        Ok(cell) => ledger.add(cell, delta),
    }
}

/// Reads the counter named `name`.
pub fn counter_get(ledger: &Ledger, scope: Scope, name: &str) -> (outcome: Result<i32, Error>)
    requires
        ledger.wf(),
    ensures
        outcome == counter_value(ledger@, scope@, name@),
{
    match resolve_cell(ledger, scope, name) {
        Err(error) => Err(error),
        Ok(cell) => ledger.read_int(cell),
    }
}

/// Reads the text named `name`.
pub fn text_get(ledger: &Ledger, scope: Scope, name: &str) -> (outcome: Result<String, Error>)
    requires
        ledger.wf(),
    ensures
        match outcome {
            Ok(text) => text_value(ledger@, scope@, name@) == Ok::<Seq<char>, Error>(text@),
            Err(error) => text_value(ledger@, scope@, name@) == Err::<Seq<char>, Error>(error),
        },
{
    match resolve_cell(ledger, scope, name) {
        Err(error) => Err(error),
        Ok(cell) => ledger.read_text(cell),
    }
}

/// Appends `data` to the text named `name`: reads the cell, joins the two
/// texts with nothing between them, and writes the result to the same cell.
/// A name that is not bound yet counts as empty text: a cell is created for it.
pub fn text_append(ledger: &mut Ledger, scope: Scope, name: &str, data: &str) -> (outcome: Result<(), Error>)
    requires
        old(ledger).wf(),
    ensures
        final(ledger).wf(),
        outcome == append_outcome(old(ledger)@, scope@, name@),
        final(ledger)@ == text_appended(old(ledger)@, scope@, name@, data@),
{
    match ledger.get_key(scope, name) {
        None => {
            if !ledger.has_scope(scope) {
                return Err(Error::MissingKey);
            }
            let cell = ledger.create_cell(Value::Text(joined(None, data)));
            ledger.put_key(scope, name, Key::Cell(cell));
            Ok(())
        },
        Some(key) => match require_variant(key.into_cell()) {
            Err(error) => Err(error),
            Ok(cell) => match ledger.read_text(cell) {
                Err(error) => Err(error),
                Ok(text) => {
                    let _ = ledger.write(cell, Value::Text(joined(Some(text), data)));
                    Ok(())
                },
            },
        },
    }
}

} // verus!
