//! The ledger: the explicit context that every operation works on.
//!
//! It holds the storage cells, the named keys of the invoking account, the
//! identities that may deploy for the account, and the packages with their
//! named keys and versions.

use casper_types::contracts::EntryPoints;
use vstd::prelude::*;
use crate::cell::{add_result, failure, read_outcome, write_result, CellStore};
use crate::error::Error;
use crate::handle::{CellRef, Key, KeyView, PackageRef, Scope};
use crate::namespace::Namespace;
use crate::registry::{declared, declares, TableView};
use crate::value::{AccountHash, Value, ValueType, ValueView};

verus! {

/// The mathematical content of a [`Scope`].
pub ghost enum ScopeView {
    Account,
    Program(nat),
}

impl View for Scope {
    type V = ScopeView;

    open spec fn view(&self) -> ScopeView {
        match *self {
            Scope::Account => ScopeView::Account,
            Scope::Program(package) => ScopeView::Program(package@),
        }
    }
}

/// The mathematical content of a package: its named keys, and the entry-point
/// tables of its versions, version 1 first.
pub ghost struct PackageView {
    pub keys: Map<Seq<char>, KeyView>,
    pub versions: Seq<TableView>,
}

/// The mathematical content of a [`Ledger`].
pub ghost struct LedgerView {
    pub cells: Seq<ValueView>,
    pub account: Map<Seq<char>, KeyView>,
    pub associated: Set<Seq<u8>>,
    pub packages: Seq<PackageView>,
}

impl LedgerView {
    /// The ledger of a fresh account: nothing stored, nothing installed.
    pub open spec fn fresh() -> LedgerView {
        LedgerView {
            cells: Seq::empty(),
            account: Map::empty(),
            associated: Set::empty(),
            packages: Seq::empty(),
        }
    }

    /// Whether the namespace `scope` exists.
    pub open spec fn has_scope(self, scope: ScopeView) -> bool {
        match scope {
            ScopeView::Account => true,
            ScopeView::Program(package) => package < self.packages.len(),
        }
    }

    /// The named keys of `scope`; a namespace that does not exist binds nothing.
    pub open spec fn keys(self, scope: ScopeView) -> Map<Seq<char>, KeyView> {
        match scope {
            ScopeView::Account => self.account,
            ScopeView::Program(package) => if package < self.packages.len() {
                self.packages[package as int].keys
            } else {
                Map::empty()
            },
        }
    }

    /// The ledger with other cells.
    pub open spec fn with_cells(self, cells: Seq<ValueView>) -> LedgerView {
        LedgerView { cells, ..self }
    }

    /// The ledger after `name` was bound to `key` in `scope`; unchanged if the
    /// namespace does not exist.
    pub open spec fn with_key(self, scope: ScopeView, name: Seq<char>, key: KeyView) -> LedgerView {
        match scope {
            ScopeView::Account => LedgerView { account: self.account.insert(name, key), ..self },
            ScopeView::Program(package) => if package < self.packages.len() {
                let before = self.packages[package as int];
                LedgerView {
                    packages: self.packages.update(
                        package as int,
                        PackageView { keys: before.keys.insert(name, key), ..before },
                    ),
                    ..self
                }
            } else {
                self
            },
        }
    }

    /// The ledger after `identity` was given the right to deploy.
    pub open spec fn with_associate(self, identity: Seq<u8>) -> LedgerView {
        LedgerView { associated: self.associated.insert(identity), ..self }
    }

    /// The ledger after a package with named keys `keys` and no version yet
    /// was created.
    pub open spec fn with_package(self, keys: Map<Seq<char>, KeyView>) -> LedgerView {
        LedgerView { packages: self.packages.push(PackageView { keys, versions: Seq::empty() }), ..self }
    }

    /// The number of versions of `package`; 0 if there is no such package.
    pub open spec fn version_count(self, package: nat) -> nat {
        if package < self.packages.len() {
            self.packages[package as int].versions.len()
        } else {
            0
        }
    }

    /// The ledger after `table` was registered as the next version of
    /// `package`; unchanged if there is no such package.
    pub open spec fn with_version(self, package: nat, table: TableView) -> LedgerView {
        if package < self.packages.len() {
            let before = self.packages[package as int];
            LedgerView {
                packages: self.packages.update(
                    package as int,
                    PackageView { versions: before.versions.push(table), ..before },
                ),
                ..self
            }
        } else {
            self
        }
    }

    /// Whether version `number` of `package` exists and declares the entry
    /// point `name`.
    pub open spec fn declares(self, package: nat, number: nat, name: Seq<char>) -> bool {
        &&& package < self.packages.len()
        &&& 1 <= number <= self.packages[package as int].versions.len()
        &&& self.packages[package as int].versions[number - 1].contains_key(name)
    }
}

struct Package {
    keys: Namespace,
    versions: Vec<EntryPoints>,
}

impl Package {
    spec fn wf(&self) -> bool {
        self.keys.wf()
    }

    spec fn view(&self) -> PackageView {
        PackageView {
            keys: self.keys@,
            versions: Seq::new(self.versions@.len(), |i: int| declared(self.versions@[i])),
        }
    }
}

/// The state that one account's invocations work on.
pub struct Ledger {
    cells: CellStore,
    account: Namespace,
    associated: Vec<AccountHash>,
    packages: Vec<Package>,
}

impl View for Ledger {
    type V = LedgerView;

    closed spec fn view(&self) -> LedgerView {
        LedgerView {
            cells: self.cells@,
            account: self.account@,
            associated: Set::new(
                |identity: Seq<u8>|
                    exists|i: int| 0 <= i < self.associated@.len() && (#[trigger] self.associated@[i])@ == identity,
            ),
            packages: Seq::new(self.packages@.len(), |i: int| self.packages@[i].view()),
        }
    }
}

impl Ledger {
    /// Every namespace binds each name once.
    pub closed spec fn wf(&self) -> bool {
        &&& self.account.wf()
        &&& forall|i: int| 0 <= i < self.packages@.len() ==> (#[trigger] self.packages@[i]).wf()
    }

    /// The ledger of a fresh account.
    pub fn new() -> (ledger: Ledger)
        ensures
            ledger.wf(),
            ledger@ == LedgerView::fresh(),
    {
        let ledger = Ledger {
            cells: CellStore::new(),
            account: Namespace::new(),
            associated: Vec::new(),
            packages: Vec::new(),
        };
        assert(ledger@.associated =~= Set::<Seq<u8>>::empty());
        assert(ledger@.packages =~= Seq::<PackageView>::empty());
        ledger
    }

    /// The number of storage cells.
    pub fn cell_count(&self) -> (count: usize)
        ensures
            count == self@.cells.len(),
    {
        self.cells.len()
    }

    /// The number of packages.
    pub fn package_count(&self) -> (count: usize)
        ensures
            count == self@.packages.len(),
    {
        self.packages.len()
    }

    /// Creates a cell that holds `init` and returns the reference to it.
    pub fn create_cell(&mut self, init: Value) -> (cell: CellRef)
        requires
            old(self).wf(),
        ensures
            final(self).wf(),
            final(self)@ == old(self)@.with_cells(old(self)@.cells.push(init@)),
            cell@ == old(self)@.cells.len(),
    {
        self.cells.create(init)
    }

    /// A copy of what `cell` holds, if it holds a value of type `kind`.
    pub fn read(&self, cell: CellRef, kind: ValueType) -> (outcome: Result<Value, Error>)
        ensures
            failure(outcome) == failure(read_outcome(self@.cells, cell@, kind)),
            outcome is Ok ==> Ok::<ValueView, Error>(outcome->Ok_0@) == read_outcome(self@.cells, cell@, kind),
    {
        self.cells.read(cell, kind)
    }

    /// The integer that `cell` holds.
    pub fn read_int(&self, cell: CellRef) -> (outcome: Result<i32, Error>)
        ensures
            failure(outcome) == failure(read_outcome(self@.cells, cell@, ValueType::Int)),
            outcome is Ok ==> Ok::<ValueView, Error>(ValueView::Int(outcome->Ok_0)) == read_outcome(
                self@.cells,
                cell@,
                ValueType::Int,
            ),
    {
        self.cells.read_int(cell)
    }

    /// The text that `cell` holds.
    pub fn read_text(&self, cell: CellRef) -> (outcome: Result<String, Error>)
        ensures
            failure(outcome) == failure(read_outcome(self@.cells, cell@, ValueType::Text)),
            outcome is Ok ==> Ok::<ValueView, Error>(ValueView::Text(outcome->Ok_0@)) == read_outcome(
                self@.cells,
                cell@,
                ValueType::Text,
            ),
    {
        self.cells.read_text(cell)
    }

    /// The version number that `cell` holds.
    pub fn read_count(&self, cell: CellRef) -> (outcome: Result<u64, Error>)
        ensures
            failure(outcome) == failure(read_outcome(self@.cells, cell@, ValueType::Count)),
            outcome is Ok ==> Ok::<ValueView, Error>(ValueView::Count(outcome->Ok_0)) == read_outcome(
                self@.cells,
                cell@,
                ValueType::Count,
            ),
    {
        self.cells.read_count(cell)
    }

    /// Overwrites what `cell` holds with `value`. Fails, and changes nothing,
    /// if the cell does not exist or was created with another type.
    pub fn write(&mut self, cell: CellRef, value: Value) -> (outcome: Result<(), Error>)
        requires
            old(self).wf(),
        ensures
            final(self).wf(),
            failure(outcome) == failure(read_outcome(old(self)@.cells, cell@, value@.kind())),
            final(self)@ == old(self)@.with_cells(write_result(old(self)@.cells, cell@, value@)),
    {
        self.cells.write(cell, value)
    }

    /// Adds `delta` to the integer that `cell` holds, wrapping at the ends of
    /// the 32-bit range. Fails, and changes nothing, if the cell does not
    /// exist or is not numeric.
    pub fn add(&mut self, cell: CellRef, delta: i32) -> (outcome: Result<(), Error>)
        requires
            old(self).wf(),
        ensures
            final(self).wf(),
            failure(outcome) == failure(read_outcome(old(self)@.cells, cell@, ValueType::Int)),
            final(self)@ == old(self)@.with_cells(add_result(old(self)@.cells, cell@, delta)),
    {
        self.cells.add(cell, delta)
    }

    /// Whether the namespace `scope` exists.
    pub fn has_scope(&self, scope: Scope) -> (exists: bool)
        ensures
            exists == self@.has_scope(scope@),
    {
        match scope {
            Scope::Account => true,
            Scope::Program(package) => package.slot() < self.packages.len(),
        }
    }

    /// What `name` is bound to in `scope`, if it is bound there.
    pub fn get_key(&self, scope: Scope, name: &str) -> (key: Option<Key>)
        requires
            self.wf(),
        ensures
            key is Some <==> self@.keys(scope@).contains_key(name@),
            key is Some ==> key->0@ == self@.keys(scope@)[name@],
    {
        match scope {
            Scope::Account => self.account.get(name),
            Scope::Program(package) => {
                let slot = package.slot();
                if slot < self.packages.len() {
                    self.packages[slot].keys.get(name)
                } else {
                    None
                }
            },
        }
    }

    /// Binds `name` to `key` in `scope`, in place of what it was bound to
    /// before. Returns whether the namespace exists; if not, nothing changes.
    pub fn put_key(&mut self, scope: Scope, name: &str, key: Key) -> (bound: bool)
        requires
            old(self).wf(),
        ensures
            final(self).wf(),
            bound == old(self)@.has_scope(scope@),
            final(self)@ == old(self)@.with_key(scope@, name@, key@),
    {
        match scope {
            Scope::Account => {
                self.account.put(name, key);
                true
            },
            Scope::Program(package) => {
                let slot = package.slot();
                if slot < self.packages.len() {
                    self.packages[slot].keys.put(name, key);
                    assert(self@.packages =~= old(self)@.with_key(scope@, name@, key@).packages);
                    true
                } else {
                    false
                }
            },
        }
    }

    /// Whether `identity` may deploy for the account.
    pub fn is_associated(&self, identity: &AccountHash) -> (found: bool)
        ensures
            found == self@.associated.contains(identity@),
    {
        let mut i: usize = 0;
        while i < self.associated.len()
            invariant
                0 <= i <= self.associated@.len(),
                forall|j: int| 0 <= j < i ==> (#[trigger] self.associated@[j])@ != identity@,
            decreases self.associated@.len() - i,
        {
            if self.associated[i].same(identity) {
                return true;
            }
            i += 1;
        }
        false
    }

    /// Gives `identity` the right to deploy for the account.
    pub fn associate(&mut self, identity: AccountHash)
        requires
            old(self).wf(),
        ensures
            final(self).wf(),
            final(self)@ == old(self)@.with_associate(identity@),
    {
        if self.is_associated(&identity) {
            assert(self@.associated =~= old(self)@.associated.insert(identity@));
            return;
        }
        self.associated.push(identity);
        assert forall|other: Seq<u8>| #[trigger]
            self@.associated.contains(other) <==> old(self)@.associated.insert(identity@).contains(other) by {
            if old(self)@.associated.contains(other) {
                let i = choose|i: int|
                    0 <= i < old(self).associated@.len() && (#[trigger] old(self).associated@[i])@ == other;
                assert(self.associated@[i]@ == other);
            }
            if other == identity@ {
                assert(self.associated@[old(self).associated@.len() as int]@ == other);
            }
        }
        assert(self@.associated =~= old(self)@.associated.insert(identity@));
    }

    /// Creates a package with the named keys `keys` and no version yet.
    pub fn create_package(&mut self, keys: Namespace) -> (package: PackageRef)
        requires
            old(self).wf(),
            keys.wf(),
        ensures
            final(self).wf(),
            final(self)@ == old(self)@.with_package(keys@),
            package@ == old(self)@.packages.len(),
    {
        let package = PackageRef::at(self.packages.len());
        let created = Package { keys, versions: Vec::new() };
        assert(created.view().versions =~= Seq::<TableView>::empty());
        self.packages.push(created);
        assert(self@.packages =~= old(self)@.packages.push(created.view()));
        package
    }

    /// The number of versions of `package`; 0 if there is no such package.
    pub fn version_count(&self, package: PackageRef) -> (count: u64)
        ensures
            count == self@.version_count(package@),
    {
        let slot = package.slot();
        if slot < self.packages.len() {
            self.packages[slot].versions.len() as u64
        } else {
            0
        }
    }

    /// Registers `table` as the next version of `package` and returns the
    /// number of that version: one more than the number of versions before.
    /// Returns `None`, and changes nothing, if there is no such package.
    pub fn add_version(&mut self, package: PackageRef, table: EntryPoints) -> (number: Option<u64>)
        requires
            old(self).wf(),
        ensures
            final(self).wf(),
            final(self)@ == old(self)@.with_version(package@, declared(table)),
            number == (if package@ < old(self)@.packages.len() {
                Some((old(self)@.version_count(package@) + 1) as u64)
            } else {
                None
            }),
            number is Some ==> number->0 == old(self)@.version_count(package@) + 1,
    {
        let slot = package.slot();
        if slot < self.packages.len() {
            self.packages[slot].versions.push(table);
            let count = self.packages[slot].versions.len();
            assert(self@.packages[slot as int].versions =~= old(self)@.packages[slot as int].versions.push(
                declared(table),
            ));
            assert(self@.packages =~= old(self)@.with_version(package@, declared(table)).packages);
            Some(count as u64)
        } else {
            None
        }
    }

    /// Whether version `number` of `package` exists and declares the entry
    /// point `name`.
    pub fn declares(&self, package: PackageRef, number: u64, name: &str) -> (declared: bool)
        requires
            self.wf(),
        ensures
            declared == self@.declares(package@, number as nat, name@),
    {
        let slot = package.slot();
        if slot >= self.packages.len() {
            return false;
        }
        let versions = &self.packages[slot].versions;
        if number < 1 || number > versions.len() as u64 {
            return false;
        }
        let place = (number - 1) as usize;
        declares(&versions[place], name)
    }
}

} // verus!
