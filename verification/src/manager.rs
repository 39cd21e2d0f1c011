//! The package and version manager, and the dispatcher that decides between
//! a first installation and an upgrade.

use casper_types::contracts::EntryPoints;
use vstd::prelude::*;
use crate::cell::read_outcome;
use crate::decide::{lifecycle, require_key, require_variant, Lifecycle};
use crate::error::Error;
use crate::handle::{CellRef, Key, KeyView, PackageRef, Scope};
use crate::handlers::{cell_named, resolve_cell};
use crate::ledger::{Ledger, LedgerView, ScopeView};
use crate::namespace::Namespace;
use crate::registry::{declared, TableView};
use crate::value::{identity_view, AccountHash, Value, ValueType, ValueView};

verus! {

/// The mathematical content of a [`Program`]: the four account-level names
/// under which a program keeps its references.
pub ghost struct ProgramView {
    /// The name bound to the current version of the program.
    pub contract_key: Seq<char>,
    /// The name bound to the cell that mirrors the current version number.
    pub version_key: Seq<char>,
    /// The name bound to the package.
    pub package_key: Seq<char>,
    /// The name bound to the access marker.
    pub access_key: Seq<char>,
}

impl ProgramView {
    /// The four names differ from one another.
    pub open spec fn distinct(self) -> bool {
        &&& self.contract_key != self.version_key
        &&& self.contract_key != self.package_key
        &&& self.contract_key != self.access_key
        &&& self.version_key != self.package_key
        &&& self.version_key != self.access_key
        &&& self.package_key != self.access_key
    }
}

/// The account-level names of one program. The four names always differ.
pub struct Program {
    contract_key: String,
    version_key: String,
    package_key: String,
    access_key: String,
}

impl View for Program {
    type V = ProgramView;

    closed spec fn view(&self) -> ProgramView {
        ProgramView {
            contract_key: self.contract_key@,
            version_key: self.version_key@,
            package_key: self.package_key@,
            access_key: self.access_key@,
        }
    }
}

impl Program {
    #[verifier::type_invariant]
    spec fn names_differ(self) -> bool {
        self@.distinct()
    }

    /// The program that keeps its references under the given names, or
    /// `None` if two of the names are equal.
    pub fn new(contract_key: &str, version_key: &str, package_key: &str, access_key: &str) -> (program: Option<
        Program,
    >)
        ensures
            program is Some <==> (ProgramView {
                contract_key: contract_key@,
                version_key: version_key@,
                package_key: package_key@,
                access_key: access_key@,
            }).distinct(),
            program is Some ==> program->0@ == (ProgramView {
                contract_key: contract_key@,
                version_key: version_key@,
                package_key: package_key@,
                access_key: access_key@,
            }),
    {
        let contract_key = contract_key.to_owned();
        let version_key = version_key.to_owned();
        let package_key = package_key.to_owned();
        let access_key = access_key.to_owned();
        if contract_key == version_key || contract_key == package_key || contract_key == access_key
            || version_key == package_key || version_key == access_key || package_key == access_key {
            None
        } else {
            Some(Program { contract_key, version_key, package_key, access_key })
        }
    }

    /// The name bound to the current version of the program.
    pub fn contract_key(&self) -> (name: &str)
        ensures
            name@ == self@.contract_key,
            self@.distinct(),
    {
        proof {
            use_type_invariant(self);
        }
        self.contract_key.as_str()
    }

    /// The name bound to the cell that mirrors the current version number.
    pub fn version_key(&self) -> (name: &str)
        ensures
            name@ == self@.version_key,
            self@.distinct(),
    {
        proof {
            use_type_invariant(self);
        }
        self.version_key.as_str()
    }

    /// The name bound to the package.
    pub fn package_key(&self) -> (name: &str)
        ensures
            name@ == self@.package_key,
            self@.distinct(),
    {
        proof {
            use_type_invariant(self);
        }
        self.package_key.as_str()
    }

    /// The name bound to the access marker.
    pub fn access_key(&self) -> (name: &str)
        ensures
            name@ == self@.access_key,
            self@.distinct(),
    {
        proof {
            use_type_invariant(self);
        }
        self.access_key.as_str()
    }
}

/// One piece of program data: the name of its cell among the program's named
/// keys, and the value that the cell holds after installation.
#[derive(Clone, Debug, PartialEq, Eq)]
pub struct DataCell {
    pub name: String,
    pub init: Value,
}

impl View for DataCell {
    type V = (Seq<char>, ValueView);

    open spec fn view(&self) -> (Seq<char>, ValueView) {
        (self.name@, self.init@)
    }
}

impl DataCell {
    /// The data cell `name` with initial value `init`.
    pub fn new(name: &str, init: Value) -> (data: DataCell)
        ensures
            data@ == (name@, init@),
    {
        DataCell { name: name.to_owned(), init }
    }
}

/// The content of a list of data cells.
pub open spec fn data_view(data: Seq<DataCell>) -> Seq<(Seq<char>, ValueView)> {
    Seq::new(data.len(), |i: int| data[i]@)
}

/// The initial values of a list of data cells, in order.
pub open spec fn data_values(data: Seq<(Seq<char>, ValueView)>) -> Seq<ValueView> {
    Seq::new(data.len(), |i: int| data[i].1)
}

/// The named keys of a program whose data cells were created one after the
/// other, the first at slot `base`. A name given twice refers to the later cell.
pub open spec fn data_keys(data: Seq<(Seq<char>, ValueView)>, base: nat) -> Map<Seq<char>, KeyView>
    decreases data.len(),
{
    if data.len() == 0 {
        Map::empty()
    } else {
        data_keys(data.drop_last(), base).insert(data.last().0, KeyView::Cell((base + data.len() - 1) as nat))
    }
}

/// The ledger after a first installation: one cell per piece of program
/// data; a new package whose named keys refer to those cells; the package and
/// its access marker bound in the account; `table` registered as version 1;
/// a new cell that holds the version number 1, bound in the account; and the
/// program's own name bound to version 1.
pub open spec fn installed(
    ledger: LedgerView,
    program: ProgramView,
    data: Seq<(Seq<char>, ValueView)>,
    table: TableView,
) -> LedgerView {
    let package = ledger.packages.len();
    let marker = ledger.cells.len() + data.len();
    ledger.with_cells(ledger.cells + data_values(data)).with_package(
        data_keys(data, ledger.cells.len()),
    ).with_key(ScopeView::Account, program.package_key, KeyView::Package(package)).with_key(
        ScopeView::Account,
        program.access_key,
        KeyView::Access(package),
    ).with_version(package, table).with_cells(
        (ledger.cells + data_values(data)).push(ValueView::Count(1)),
    ).with_key(ScopeView::Account, program.version_key, KeyView::Cell(marker)).with_key(
        ScopeView::Account,
        program.contract_key,
        KeyView::Version(package, 1),
    )
}

/// The package that the account knows under `name`.
pub open spec fn package_named(ledger: LedgerView, name: Seq<char>) -> Result<nat, Error> {
    if !ledger.account.contains_key(name) {
        Err(Error::MissingKey)
    } else {
        match ledger.account[name] {
            KeyView::Package(package) => if package < ledger.packages.len() {
                Ok(package)
            } else {
                Err(Error::UnexpectedKeyVariant)
            },
            _ => Err(Error::UnexpectedKeyVariant),
        }
    }
}

/// The cell that the account knows under `name` and that holds a version number.
pub open spec fn marker_named(ledger: LedgerView, name: Seq<char>) -> Result<nat, Error> {
    match cell_named(ledger, ScopeView::Account, name) {
        Err(error) => Err(error),
        Ok(slot) => match read_outcome(ledger.cells, slot, ValueType::Count) {
            Err(error) => Err(error),
            Ok(_) => Ok(slot),
        },
    }
}

/// The number that an upgrade gives the new version, one more than the
/// package has versions, or the reason for which the upgrade fails: the
/// package name is not bound to a package of this ledger, or the version name
/// is not bound to a cell that holds a version number.
pub open spec fn upgrade_outcome(ledger: LedgerView, program: ProgramView) -> Result<nat, Error> {
    match package_named(ledger, program.package_key) {
        Err(error) => Err(error),
        Ok(package) => match marker_named(ledger, program.version_key) {
            Err(error) => Err(error),
            Ok(_) => Ok(ledger.version_count(package) + 1),
        },
    }
}

/// The ledger after an attempt to upgrade. Where the upgrade succeeds,
/// `table` is the new last version of the package, the version cell holds
/// the new number, and the program's own name is bound to the new version.
/// Nothing else changes.
pub open spec fn upgraded(ledger: LedgerView, program: ProgramView, table: TableView) -> LedgerView {
    match upgrade_outcome(ledger, program) {
        Err(_) => ledger,
        Ok(number) => {
            let package = package_named(ledger, program.package_key)->Ok_0;
            let marker = marker_named(ledger, program.version_key)->Ok_0;
            ledger.with_version(package, table).with_cells(
                ledger.cells.update(marker as int, ValueView::Count(number as u64)),
            ).with_key(ScopeView::Account, program.contract_key, KeyView::Version(package, number))
        },
    }
}

/// Installs a program for the first time and returns its package and the
/// number of its first version, which is 1.
///
/// A program is installed at most once per account: the access marker must
/// not be there yet.
pub fn install(ledger: &mut Ledger, program: &Program, data: &Vec<DataCell>, table: EntryPoints) -> (created: (
    PackageRef,
    u64,
))
    requires
        old(ledger).wf(),
        !old(ledger)@.account.contains_key(program@.access_key),
    ensures
        final(ledger).wf(),
        final(ledger)@ == installed(old(ledger)@, program@, data_view(data@), declared(table)),
        created.0@ == old(ledger)@.packages.len(),
        created.1 == 1,
{
    let ghost start = ledger@;
    let ghost all = data_view(data@);
    let mut keys = Namespace::new();
    let mut i: usize = 0;
    while i < data.len()
        invariant
            0 <= i <= data@.len(),
            all == data_view(data@),
            ledger.wf(),
            keys.wf(),
            ledger@ == start.with_cells(start.cells + data_values(all.take(i as int))),
            keys@ == data_keys(all.take(i as int), start.cells.len()),
        decreases data@.len() - i,
    {
        let cell = ledger.create_cell(data[i].init.duplicate());
        keys.put(data[i].name.as_str(), Key::Cell(cell));
        proof {
            let shorter = all.take(i as int);
            let longer = all.take(i + 1);
            assert(longer.drop_last() =~= shorter);
            assert(start.cells + data_values(longer) =~= (start.cells + data_values(shorter)).push(
                all[i as int].1,
            ));
        }
        i += 1;
    }
    proof {
        assert(all.take(i as int) =~= all);
    }
    let package = ledger.create_package(keys);
    ledger.put_key(Scope::Account, program.package_key(), Key::Package(package));
    ledger.put_key(Scope::Account, program.access_key(), Key::Access(package));
    ledger.add_version(package, table);
    let marker = ledger.create_cell(Value::Count(1));
    ledger.put_key(Scope::Account, program.version_key(), Key::Cell(marker));
    ledger.put_key(Scope::Account, program.contract_key(), Key::Version(package, 1));
    (package, 1)
}

/// Resolves the package that the account knows under `name`.
pub fn resolve_package(ledger: &Ledger, name: &str) -> (outcome: Result<PackageRef, Error>)
    requires
        ledger.wf(),
    ensures
        match outcome {
            Ok(package) => package_named(ledger@, name@) == Ok::<nat, Error>(package@),
            Err(error) => package_named(ledger@, name@) == Err::<nat, Error>(error),
        },
{
    let key = match require_key(ledger.get_key(Scope::Account, name)) {
        Err(error) => {
            return Err(error);
        },
        Ok(key) => key,
    };
    match require_variant(key.into_package()) {
        Err(error) => Err(error),
        Ok(package) => if ledger.has_scope(Scope::Program(package)) {
            Ok(package)
        } else {
            Err(Error::UnexpectedKeyVariant)
        },
    }
}

/// Resolves the version cell that the account knows under `name`.
fn resolve_marker(ledger: &Ledger, name: &str) -> (outcome: Result<CellRef, Error>)
    requires
        ledger.wf(),
    ensures
        match outcome {
            Ok(cell) => marker_named(ledger@, name@) == Ok::<nat, Error>(cell@),
            Err(error) => marker_named(ledger@, name@) == Err::<nat, Error>(error),
        },
{
    match resolve_cell(ledger, Scope::Account, name) {
        Err(error) => Err(error),
        Ok(cell) => match ledger.read_count(cell) {
            Err(error) => Err(error),
            Ok(_) => Ok(cell),
        },
    }
}

/// Registers `table` as the next version of an installed program and
/// returns the number of that version. The program's data cells and named
/// keys stay as they are. On failure nothing changes.
pub fn upgrade(ledger: &mut Ledger, program: &Program, table: EntryPoints) -> (outcome: Result<u64, Error>)
    requires
        old(ledger).wf(),
    ensures
        final(ledger).wf(),
        match outcome {
            Ok(number) => upgrade_outcome(old(ledger)@, program@) == Ok::<nat, Error>(number as nat),
            Err(error) => upgrade_outcome(old(ledger)@, program@) == Err::<nat, Error>(error),
        },
        final(ledger)@ == upgraded(old(ledger)@, program@, declared(table)),
{
    let package = match resolve_package(ledger, program.package_key()) {
        Err(error) => {
            return Err(error);
        },
        Ok(package) => package,
    };
    let marker = match resolve_marker(ledger, program.version_key()) {
        Err(error) => {
            return Err(error);
        },
        Ok(marker) => marker,
    };
    let number = match ledger.add_version(package, table) {
        None => {
            return Err(Error::UnexpectedKeyVariant);
        },
        Some(number) => number,
    };
    let _ = ledger.write(marker, Value::Count(number));
    ledger.put_key(Scope::Account, program.contract_key(), Key::Version(package, number));
    Ok(number)
}

/// What a deployment did: the transition it made, and the number of the
/// version that is current after it.
#[derive(Clone, Copy, Debug, PartialEq, Eq, Structural)]
pub struct Deployed {
    pub lifecycle: Lifecycle,
    pub version: u64,
}

/// What a deployment returns. A first deployment installs version 1 and
/// publishes the latest table as version 2 at once; it cannot fail. A later
/// deployment is an upgrade.
pub open spec fn deploy_outcome(ledger: LedgerView, program: ProgramView) -> Result<(Lifecycle, nat), Error> {
    if ledger.account.contains_key(program.access_key) {
        match upgrade_outcome(ledger, program) {
            Ok(number) => Ok((Lifecycle::Upgrade, number)),
            Err(error) => Err(error),
        }
    } else {
        Ok((Lifecycle::Install, 2))
    }
}

/// The ledger after an installation with `first` as version 1 and, where
/// `deployer` is given, after that identity was given the right to deploy.
pub open spec fn installed_for(
    ledger: LedgerView,
    program: ProgramView,
    data: Seq<(Seq<char>, ValueView)>,
    first: TableView,
    deployer: Option<Seq<u8>>,
) -> LedgerView {
    match deployer {
        Some(identity) => installed(ledger, program, data, first).with_associate(identity),
        None => installed(ledger, program, data, first),
    }
}

/// The ledger after a deployment. Where the access marker is absent, the
/// program is installed with `first` as version 1, `deployer` is given the
/// right to deploy, and `latest` is published as version 2. Where it is
/// present, `latest` is published as the next version, and nothing is
/// installed.
pub open spec fn deployed(
    ledger: LedgerView,
    program: ProgramView,
    data: Seq<(Seq<char>, ValueView)>,
    first: TableView,
    latest: TableView,
    deployer: Option<Seq<u8>>,
) -> LedgerView {
    if ledger.account.contains_key(program.access_key) {
        upgraded(ledger, program, latest)
    } else {
        upgraded(installed_for(ledger, program, data, first, deployer), program, latest)
    }
}

/// An upgrade right after an installation succeeds and publishes version 2.
pub proof fn lemma_upgrade_after_install(
    ledger: LedgerView,
    program: ProgramView,
    data: Seq<(Seq<char>, ValueView)>,
    first: TableView,
    deployer: Option<Seq<u8>>,
)
    requires
        program.distinct(),
    ensures
        upgrade_outcome(installed_for(ledger, program, data, first, deployer), program) == Ok::<nat, Error>(2),
{
}

/// Deploys a program: installs it if the account does not hold its access
/// marker yet, and publishes the latest entry-point table in either case.
///
/// A first deployment creates the data cells with their initial values,
/// registers `first` as version 1, gives `deployer` the right to deploy if
/// one is named, and then registers `latest` as version 2. Every later
/// deployment registers `latest` as the next version and touches neither the
/// data cells nor the program's named keys. On failure nothing changes.
pub fn deploy(
    ledger: &mut Ledger,
    program: &Program,
    data: &Vec<DataCell>,
    first: EntryPoints,
    latest: EntryPoints,
    deployer: Option<AccountHash>,
) -> (outcome: Result<Deployed, Error>)
    requires
        old(ledger).wf(),
    ensures
        final(ledger).wf(),
        match outcome {
            Ok(done) => deploy_outcome(old(ledger)@, program@) == Ok::<(Lifecycle, nat), Error>(
                (done.lifecycle, done.version as nat),
            ),
            Err(error) => deploy_outcome(old(ledger)@, program@) == Err::<(Lifecycle, nat), Error>(error),
        },
        final(ledger)@ == deployed(
            old(ledger)@,
            program@,
            data_view(data@),
            declared(first),
            declared(latest),
            identity_view(deployer),
        ),
{
    match lifecycle(&ledger.get_key(Scope::Account, program.access_key())) {
        Lifecycle::Install => {
            install(ledger, program, data, first);
            let ghost identity = identity_view(deployer);
            match deployer {
                Some(identity) => {
                    ledger.associate(identity);
                },
                None => {},
            }
            proof {
                lemma_upgrade_after_install(old(ledger)@, program@, data_view(data@), declared(first), identity);
            }
            match upgrade(ledger, program, latest) {
                Ok(version) => Ok(Deployed { lifecycle: Lifecycle::Install, version }),
                Err(error) => Err(error),
            }
        },
        Lifecycle::Upgrade => {
            match upgrade(ledger, program, latest) {
                Ok(version) => Ok(Deployed { lifecycle: Lifecycle::Upgrade, version }),
                Err(error) => Err(error),
            }
        },
    }
}

} // verus!
