//! References that a namespace can hold: to a storage cell, to a package, to
//! one version of a package, and the access marker of a package.

use vstd::prelude::*;

verus! {

/// A reference to one storage cell. Only a ledger hands these out.
#[derive(Clone, Copy, Debug, PartialEq, Eq, Structural)]
pub struct CellRef {
    slot: usize,
}

impl View for CellRef {
    type V = nat;

    closed spec fn view(&self) -> nat {
        self.slot as nat
    }
}

impl CellRef {
    pub(crate) fn at(slot: usize) -> (cell: CellRef)
        ensures
            cell@ == slot,
    {
        CellRef { slot }
    }

    pub(crate) fn slot(&self) -> (slot: usize)
        ensures
            slot == self@,
    {
        self.slot
    }
}

/// A reference to a package: the identity of a program across its versions.
#[derive(Clone, Copy, Debug, PartialEq, Eq, Structural)]
pub struct PackageRef {
    slot: usize,
}

impl View for PackageRef {
    type V = nat;

    closed spec fn view(&self) -> nat {
        self.slot as nat
    }
}

impl PackageRef {
    pub(crate) fn at(slot: usize) -> (package: PackageRef)
        ensures
            package@ == slot,
    {
        PackageRef { slot }
    }

    pub(crate) fn slot(&self) -> (slot: usize)
        ensures
            slot == self@,
    {
        self.slot
    }
}

/// What a named key refers to.
#[derive(Clone, Copy, Debug, PartialEq, Eq, Structural)]
pub enum Key {
    /// A storage cell.
    Cell(CellRef),
    /// A package.
    Package(PackageRef),
    /// One version of a package, by its number.
    Version(PackageRef, u64),
    /// The access marker of a package.
    Access(PackageRef),
}

/// The mathematical content of a [`Key`].
pub ghost enum KeyView {
    Cell(nat),
    Package(nat),
    Version(nat, nat),
    Access(nat),
}

impl View for Key {
    type V = KeyView;

    open spec fn view(&self) -> KeyView {
        match *self {
            Key::Cell(cell) => KeyView::Cell(cell@),
            Key::Package(package) => KeyView::Package(package@),
            Key::Version(package, number) => KeyView::Version(package@, number as nat),
            Key::Access(package) => KeyView::Access(package@),
        }
    }
}

impl Key {
    /// The cell that the key refers to, if it refers to one.
    pub fn into_cell(self) -> (cell: Option<CellRef>)
        ensures
            match self@ {
                KeyView::Cell(slot) => cell is Some && cell->0@ == slot,
                _ => cell is None,
            },
    {
        match self {
            Key::Cell(cell) => Some(cell),
            _ => None,
        }
    }

    /// The package that the key refers to, if it refers to one.
    pub fn into_package(self) -> (package: Option<PackageRef>)
        ensures
            match self@ {
                KeyView::Package(slot) => package is Some && package->0@ == slot,
                _ => package is None,
            },
    {
        match self {
            Key::Package(package) => Some(package),
            _ => None,
        }
    }
}

/// Which namespace an operation works on.
#[derive(Clone, Copy, Debug, PartialEq, Eq, Structural)]
pub enum Scope {
    /// The named keys of the invoking account.
    Account,
    /// The named keys of a program, shared by all its versions.
    Program(PackageRef),
}

} // verus!
