//! The survey program: a counter and an append-only text, behind five entry
//! points, of which the first version exposes four.

use casper_types::contracts::EntryPoints;
use vstd::prelude::*;
use crate::decide::{lifecycle, require_argument, Lifecycle};
use crate::error::Error;
use crate::handle::{PackageRef, Scope};
use crate::handlers::{
    append_outcome, counter_add, counter_added, counter_get, counter_value, text_append, text_appended, text_get,
    text_value,
};
use crate::ledger::{Ledger, LedgerView, ScopeView};
use crate::manager::{
    data_view, deploy, deploy_outcome, deployed, install, installed, upgrade, upgrade_outcome, upgraded, DataCell,
    Deployed, Program, ProgramView,
};
use crate::registry::{
    declare, declared, new_table, no_parameters, one_parameter, public_entry, EntryPointSpec, TableView,
};
use crate::value::{identity_view, AccountHash, Value, ValueType, ValueView};

verus! {

/// The entry point that adds one to the counter.
pub const ENTRY_POINT_SURVEY_INC: &'static str = "survey_counter_inc";

/// The entry point that returns the counter.
pub const ENTRY_POINT_SURVEY_GET: &'static str = "survey_counter_get";

/// The entry point that takes one from the counter.
pub const ENTRY_POINT_SURVEY_DECREMENT: &'static str = "survey_counter_decrement";

/// The entry point that appends to the text.
pub const ENTRY_POINT_SURVEY_STORE: &'static str = "survey_store";

/// The entry point that returns the text.
pub const ENTRY_POINT_SURVEY_RETRIEVE: &'static str = "survey_retrieve";

/// The argument of the entry point that appends to the text.
pub const ARG_DATA: &'static str = "data";

/// The account's name for the cell that mirrors the version number.
pub const CONTRACT_VERSION_KEY: &'static str = "version";

/// The account's name for the current version of the program.
pub const CONTRACT_KEY: &'static str = "survey";

/// The program's name for its text cell.
pub const SURVEY_DATA_KEY: &'static str = "survey_data";

/// The program's name for its counter cell.
pub const COUNT_KEY: &'static str = "count";

/// The account's name for the package.
pub const CONTRACT_PACKAGE_NAME: &'static str = "survey_package_name";

/// The account's name for the access marker.
pub const CONTRACT_ACCESS_UREF: &'static str = "survey_access_uref";

/// The deployment argument that names who is given the right to deploy.
pub const DEPLOYER_ACCOUNT: &'static str = "deployer_account_key";

/// The account-level names of the survey program.
pub open spec fn program_view() -> ProgramView {
    ProgramView {
        contract_key: CONTRACT_KEY@,
        version_key: CONTRACT_VERSION_KEY@,
        package_key: CONTRACT_PACKAGE_NAME@,
        access_key: CONTRACT_ACCESS_UREF@,
    }
}

/// The data of the survey program as installation leaves it: an empty text
/// and a counter at 0.
pub open spec fn initial_data() -> Seq<(Seq<char>, ValueView)> {
    seq![(SURVEY_DATA_KEY@, ValueView::Text(Seq::empty())), (COUNT_KEY@, ValueView::Int(0))]
}

/// The entry points of version 1: get, increment, store and retrieve.
pub open spec fn install_table_view() -> TableView {
    TableView::empty().insert(
        ENTRY_POINT_SURVEY_GET@,
        public_entry(ENTRY_POINT_SURVEY_GET@, Seq::empty(), ValueType::Int),
    ).insert(
        ENTRY_POINT_SURVEY_INC@,
        public_entry(ENTRY_POINT_SURVEY_INC@, Seq::empty(), ValueType::Unit),
    ).insert(
        ENTRY_POINT_SURVEY_STORE@,
        public_entry(ENTRY_POINT_SURVEY_STORE@, seq![(ARG_DATA@, ValueType::Text)], ValueType::Unit),
    ).insert(
        ENTRY_POINT_SURVEY_RETRIEVE@,
        public_entry(ENTRY_POINT_SURVEY_RETRIEVE@, Seq::empty(), ValueType::Text),
    )
}

/// The entry points of every later version: those of version 1, and
/// decrement.
pub open spec fn upgrade_table_view() -> TableView {
    TableView::empty().insert(
        ENTRY_POINT_SURVEY_GET@,
        public_entry(ENTRY_POINT_SURVEY_GET@, Seq::empty(), ValueType::Int),
    ).insert(
        ENTRY_POINT_SURVEY_INC@,
        public_entry(ENTRY_POINT_SURVEY_INC@, Seq::empty(), ValueType::Unit),
    ).insert(
        ENTRY_POINT_SURVEY_DECREMENT@,
        public_entry(ENTRY_POINT_SURVEY_DECREMENT@, Seq::empty(), ValueType::Unit),
    ).insert(
        ENTRY_POINT_SURVEY_STORE@,
        public_entry(ENTRY_POINT_SURVEY_STORE@, seq![(ARG_DATA@, ValueType::Text)], ValueType::Unit),
    ).insert(
        ENTRY_POINT_SURVEY_RETRIEVE@,
        public_entry(ENTRY_POINT_SURVEY_RETRIEVE@, Seq::empty(), ValueType::Text),
    )
}

/// The account-level names of the survey program.
pub fn program() -> (program: Program)
    ensures
        program@ == program_view(),
{
    proof {
        reveal_strlit("survey");
        reveal_strlit("version");
        reveal_strlit("survey_package_name");
        reveal_strlit("survey_access_uref");
        assert(CONTRACT_VERSION_KEY@.len() == 7);
        assert(CONTRACT_PACKAGE_NAME@.len() == 19);
        assert(CONTRACT_ACCESS_UREF@.len() == 18);
    }
    Program::new(CONTRACT_KEY, CONTRACT_VERSION_KEY, CONTRACT_PACKAGE_NAME, CONTRACT_ACCESS_UREF).unwrap()
}

/// The data cells that installation creates.
pub fn data_cells() -> (data: Vec<DataCell>)
    ensures
        data_view(data@) == initial_data(),
{
    let mut data: Vec<DataCell> = Vec::new();
    data.push(DataCell::new(SURVEY_DATA_KEY, Value::Text(String::new())));
    data.push(DataCell::new(COUNT_KEY, Value::Int(0)));
    data
}

/// The entry-point table of version 1.
pub fn install_table() -> (table: EntryPoints)
    ensures
        declared(table) == install_table_view(),
{
    let mut table = new_table();
    declare(&mut table, &EntryPointSpec::public(ENTRY_POINT_SURVEY_GET, no_parameters(), ValueType::Int));
    declare(&mut table, &EntryPointSpec::public(ENTRY_POINT_SURVEY_INC, no_parameters(), ValueType::Unit));
    declare(&mut table, &EntryPointSpec::public(ENTRY_POINT_SURVEY_STORE, one_parameter(ARG_DATA, ValueType::Text), ValueType::Unit));
    declare(&mut table, &EntryPointSpec::public(ENTRY_POINT_SURVEY_RETRIEVE, no_parameters(), ValueType::Text));
    table
}

/// The entry-point table of every later version. It declares again every
/// entry point that stays callable.
pub fn upgrade_table() -> (table: EntryPoints)
    ensures
        declared(table) == upgrade_table_view(),
{
    let mut table = new_table();
    declare(&mut table, &EntryPointSpec::public(ENTRY_POINT_SURVEY_GET, no_parameters(), ValueType::Int));
    declare(&mut table, &EntryPointSpec::public(ENTRY_POINT_SURVEY_INC, no_parameters(), ValueType::Unit));
    declare(&mut table, &EntryPointSpec::public(ENTRY_POINT_SURVEY_DECREMENT, no_parameters(), ValueType::Unit));
    declare(&mut table, &EntryPointSpec::public(ENTRY_POINT_SURVEY_STORE, one_parameter(ARG_DATA, ValueType::Text), ValueType::Unit));
    declare(&mut table, &EntryPointSpec::public(ENTRY_POINT_SURVEY_RETRIEVE, no_parameters(), ValueType::Text));
    table
}

/// Adds one to the counter of `program`.
pub fn survey_counter_inc(ledger: &mut Ledger, program: PackageRef) -> (outcome: Result<(), Error>)
    requires
        old(ledger).wf(),
    ensures
        final(ledger).wf(),
        match outcome {
            Ok(_) => counter_value(old(ledger)@, ScopeView::Program(program@), COUNT_KEY@) is Ok,
            Err(error) => counter_value(old(ledger)@, ScopeView::Program(program@), COUNT_KEY@) == Err::<
                i32,
                Error,
            >(error),
        },
        final(ledger)@ == counter_added(old(ledger)@, ScopeView::Program(program@), COUNT_KEY@, 1),
{
    counter_add(ledger, Scope::Program(program), COUNT_KEY, 1)
}

/// Returns the counter of `program`.
pub fn survey_counter_get(ledger: &Ledger, program: PackageRef) -> (outcome: Result<i32, Error>)
    requires
        ledger.wf(),
    ensures
        outcome == counter_value(ledger@, ScopeView::Program(program@), COUNT_KEY@),
{
    counter_get(ledger, Scope::Program(program), COUNT_KEY)
}

/// Takes one from the counter of `program`.
pub fn survey_counter_decrement(ledger: &mut Ledger, program: PackageRef) -> (outcome: Result<(), Error>)
    requires
        old(ledger).wf(),
    ensures
        final(ledger).wf(),
        match outcome {
            Ok(_) => counter_value(old(ledger)@, ScopeView::Program(program@), COUNT_KEY@) is Ok,
            Err(error) => counter_value(old(ledger)@, ScopeView::Program(program@), COUNT_KEY@) == Err::<
                i32,
                Error,
            >(error),
        },
        final(ledger)@ == counter_added(old(ledger)@, ScopeView::Program(program@), COUNT_KEY@, -1i32),
{
    counter_add(ledger, Scope::Program(program), COUNT_KEY, -1)
}

/// Appends `data` to the text of `program`.
pub fn survey_store(ledger: &mut Ledger, program: PackageRef, data: &str) -> (outcome: Result<(), Error>)
    requires
        old(ledger).wf(),
    ensures
        final(ledger).wf(),
        outcome == append_outcome(old(ledger)@, ScopeView::Program(program@), SURVEY_DATA_KEY@),
        final(ledger)@ == text_appended(old(ledger)@, ScopeView::Program(program@), SURVEY_DATA_KEY@, data@),
{
    text_append(ledger, Scope::Program(program), SURVEY_DATA_KEY, data)
}

/// Returns the whole text of `program`.
pub fn survey_retrieve(ledger: &Ledger, program: PackageRef) -> (outcome: Result<String, Error>)
    requires
        ledger.wf(),
    ensures
        match outcome {
            Ok(text) => text_value(ledger@, ScopeView::Program(program@), SURVEY_DATA_KEY@) == Ok::<
                Seq<char>,
                Error,
            >(text@),
            Err(error) => text_value(ledger@, ScopeView::Program(program@), SURVEY_DATA_KEY@) == Err::<
                Seq<char>,
                Error,
            >(error),
        },
{
    text_get(ledger, Scope::Program(program), SURVEY_DATA_KEY)
}

/// Installs the survey program: an empty text, a counter at 0, and version 1
/// with its four entry points.
pub fn install_survey(ledger: &mut Ledger) -> (created: (PackageRef, u64))
    requires
        old(ledger).wf(),
        !old(ledger)@.account.contains_key(CONTRACT_ACCESS_UREF@),
    ensures
        final(ledger).wf(),
        final(ledger)@ == installed(old(ledger)@, program_view(), initial_data(), install_table_view()),
        created.0@ == old(ledger)@.packages.len(),
        created.1 == 1,
{
    let program = program();
    let data = data_cells();
    install(ledger, &program, &data, install_table())
}

/// Publishes the five entry points as the next version of the survey
/// program.
pub fn upgrade_survey(ledger: &mut Ledger) -> (outcome: Result<u64, Error>)
    requires
        old(ledger).wf(),
    ensures
        final(ledger).wf(),
        match outcome {
            Ok(number) => upgrade_outcome(old(ledger)@, program_view()) == Ok::<nat, Error>(number as nat),
            Err(error) => upgrade_outcome(old(ledger)@, program_view()) == Err::<nat, Error>(error),
        },
        final(ledger)@ == upgraded(old(ledger)@, program_view(), upgrade_table_view()),
{
    let program = program();
    upgrade(ledger, &program, upgrade_table())
}

/// Whether a deployment lacks the argument that it needs: the account does
/// not hold the access marker yet, and no deployer is named.
pub open spec fn lacks_deployer(ledger: LedgerView, deployer: Option<Seq<u8>>) -> bool {
    !ledger.account.contains_key(CONTRACT_ACCESS_UREF@) && deployer is None
}

/// Deploys the survey program. The first deployment for an account installs
/// version 1, gives `deployer` the right to deploy and publishes version 2;
/// it fails with `MissingArgument` if no deployer is named. Every later
/// deployment publishes the next version and uses no argument.
pub fn call(ledger: &mut Ledger, deployer: Option<AccountHash>) -> (outcome: Result<Deployed, Error>)
    requires
        old(ledger).wf(),
    ensures
        final(ledger).wf(),
        lacks_deployer(old(ledger)@, identity_view(deployer)) ==> outcome == Err::<Deployed, Error>(
            Error::MissingArgument,
        ) && final(ledger)@ == old(ledger)@,
        !lacks_deployer(old(ledger)@, identity_view(deployer)) ==> match outcome {
            Ok(done) => deploy_outcome(old(ledger)@, program_view()) == Ok::<(Lifecycle, nat), Error>(
                (done.lifecycle, done.version as nat),
            ),
            Err(error) => deploy_outcome(old(ledger)@, program_view()) == Err::<(Lifecycle, nat), Error>(error),
        },
        old(ledger)@.account.contains_key(CONTRACT_ACCESS_UREF@) ==> final(ledger)@ == upgraded(
            old(ledger)@,
            program_view(),
            upgrade_table_view(),
        ),
        !old(ledger)@.account.contains_key(CONTRACT_ACCESS_UREF@) && deployer is Some ==> final(ledger)@
            == deployed(
            old(ledger)@,
            program_view(),
            initial_data(),
            install_table_view(),
            upgrade_table_view(),
            identity_view(deployer),
        ),
{
    let program = program();
    let data = data_cells();
    match lifecycle(&ledger.get_key(Scope::Account, CONTRACT_ACCESS_UREF)) {
        Lifecycle::Install => match require_argument(deployer) {
            Err(error) => Err(error),
            Ok(identity) => deploy(ledger, &program, &data, install_table(), upgrade_table(), Some(identity)),
        },
        Lifecycle::Upgrade => deploy(ledger, &program, &data, install_table(), upgrade_table(), None),
    }
}

} // verus!
