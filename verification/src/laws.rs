//! What holds of the operations together: laws over the mathematical views
//! that the operations' own contracts are stated in.

use vstd::prelude::*;
use crate::cell::wrapped_sum;
use crate::dispatch::{callable, callable_at, handler_of, invoke_outcome, invoked, versioned_target, Handler};
use crate::error::Error;
use crate::handle::KeyView;
use crate::handlers::{append_outcome, counter_added, counter_value, text_appended, text_value};
use crate::ledger::{LedgerView, ScopeView};
use crate::decide::Lifecycle;
use crate::manager::{
    data_keys, deploy_outcome, deployed, installed, installed_for, lemma_upgrade_after_install, marker_named,
    package_named, upgrade_outcome, upgraded, ProgramView,
};
use crate::registration::{ENTRY_POINT_EMAIL_GET, ENTRY_POINT_SURVEY_ID_GET};
use crate::registry::TableView;
use crate::survey;
use crate::survey::{
    COUNT_KEY, ENTRY_POINT_SURVEY_DECREMENT, ENTRY_POINT_SURVEY_GET, ENTRY_POINT_SURVEY_INC,
    ENTRY_POINT_SURVEY_RETRIEVE, ENTRY_POINT_SURVEY_STORE, SURVEY_DATA_KEY,
};
use crate::value::{ValueType, ValueView};

verus! {

/// The ledger after one upgrade attempt per table, in order.
pub open spec fn upgrades(ledger: LedgerView, program: ProgramView, tables: Seq<TableView>) -> LedgerView
    decreases tables.len(),
{
    if tables.len() == 0 {
        ledger
    } else {
        upgraded(upgrades(ledger, program, tables.drop_last()), program, tables.last())
    }
}

/// Whether two ledgers hold the same program data: the same cells behind the
/// same names, with the same content in every cell that is not a version
/// cell, and the same identities with the right to deploy.
pub open spec fn same_data(before: LedgerView, after: LedgerView) -> bool {
    &&& after.cells.len() == before.cells.len()
    &&& after.packages.len() == before.packages.len()
    &&& after.associated == before.associated
    &&& forall|package: int|
        0 <= package < before.packages.len() ==> (#[trigger] after.packages[package]).keys
            == before.packages[package].keys
    &&& forall|slot: int|
        0 <= slot < before.cells.len() ==> (#[trigger] after.cells[slot]).kind() == before.cells[slot].kind()
    &&& forall|slot: int|
        0 <= slot < before.cells.len() && before.cells[slot].kind() != ValueType::Count ==> (
        #[trigger] after.cells[slot]) == before.cells[slot]
}

/// An upgrade, whatever table it registers and whether it succeeds or not,
/// keeps the program data.
pub proof fn lemma_upgrade_keeps_data(ledger: LedgerView, program: ProgramView, table: TableView)
    ensures
        same_data(ledger, upgraded(ledger, program, table)),
{
}

/// Upgrades neither move nor reset program data: after any sequence of
/// upgrades every program names the same cells as before, and every counter
/// and every text holds what it held before the first of them.
pub proof fn lemma_upgrades_keep_data(
    ledger: LedgerView,
    program: ProgramView,
    tables: Seq<TableView>,
)
    ensures
        same_data(ledger, upgrades(ledger, program, tables)),
    decreases tables.len(),
{
    if tables.len() > 0 {
        lemma_upgrades_keep_data(ledger, program, tables.drop_last());
        lemma_upgrade_keeps_data(upgrades(ledger, program, tables.drop_last()), program, tables.last());
    }
}

/// Two ledgers with the same program data give the same counters and the
/// same texts under every name of every program.
pub proof fn lemma_same_data_reads_alike(before: LedgerView, after: LedgerView, package: nat, name: Seq<char>)
    requires
        same_data(before, after),
    ensures
        counter_value(after, ScopeView::Program(package), name) == counter_value(
            before,
            ScopeView::Program(package),
            name,
        ),
        text_value(after, ScopeView::Program(package), name) == text_value(
            before,
            ScopeView::Program(package),
            name,
        ),
{
}

/// A successful upgrade leaves the program upgradable, with the same
/// package and the same version cell.
pub proof fn lemma_upgrade_stays_possible(ledger: LedgerView, program: ProgramView, table: TableView)
    requires
        program.distinct(),
        upgrade_outcome(ledger, program) is Ok,
    ensures
        upgrade_outcome(upgraded(ledger, program, table), program) == Ok::<nat, Error>(
            upgrade_outcome(ledger, program)->Ok_0 + 1,
        ),
        package_named(upgraded(ledger, program, table), program.package_key) == package_named(
            ledger,
            program.package_key,
        ),
        marker_named(upgraded(ledger, program, table), program.version_key) == marker_named(
            ledger,
            program.version_key,
        ),
{
}

/// Version numbers count up by one: the first version of a package is 1, and
/// each upgrade of an upgradable program gives the number that follows the
/// last, whatever the tables declare. After `tables.len()` upgrades the
/// package has that many versions more, the version cell holds the last
/// number, and the program's own name refers to the last version.
pub proof fn lemma_versions_count_up(ledger: LedgerView, program: ProgramView, tables: Seq<TableView>)
    requires
        program.distinct(),
        upgrade_outcome(ledger, program) is Ok,
    ensures
        upgrade_outcome(ledger, program)->Ok_0 == ledger.version_count(
            package_named(ledger, program.package_key)->Ok_0,
        ) + 1,
        upgrade_outcome(upgrades(ledger, program, tables), program) == Ok::<nat, Error>(
            upgrade_outcome(ledger, program)->Ok_0 + tables.len(),
        ),
        package_named(upgrades(ledger, program, tables), program.package_key) == package_named(
            ledger,
            program.package_key,
        ),
        marker_named(upgrades(ledger, program, tables), program.version_key) == marker_named(
            ledger,
            program.version_key,
        ),
        upgrades(ledger, program, tables).version_count(package_named(ledger, program.package_key)->Ok_0)
            == ledger.version_count(package_named(ledger, program.package_key)->Ok_0) + tables.len(),
        tables.len() > 0 ==> {
            let after = upgrades(ledger, program, tables);
            let package = package_named(ledger, program.package_key)->Ok_0;
            let marker = marker_named(ledger, program.version_key)->Ok_0;
            &&& after.cells[marker as int] == ValueView::Count(after.version_count(package) as u64)
            &&& after.account[program.contract_key] == KeyView::Version(package, after.version_count(package))
        },
    decreases tables.len(),
{
    if tables.len() > 0 {
        lemma_versions_count_up(ledger, program, tables.drop_last());
        lemma_upgrade_stays_possible(upgrades(ledger, program, tables.drop_last()), program, tables.last());
    }
}

/// After an installation the package has exactly one version, number 1, the
/// version cell holds 1, and version 1 declares what the table declares.
pub proof fn lemma_install_is_version_one(
    ledger: LedgerView,
    program: ProgramView,
    data: Seq<(Seq<char>, ValueView)>,
    table: TableView,
    entry: Seq<char>,
)
    ensures
        installed(ledger, program, data, table).packages.len() == ledger.packages.len() + 1,
        installed(ledger, program, data, table).version_count(ledger.packages.len()) == 1,
        installed(ledger, program, data, table).cells[(ledger.cells.len() + data.len()) as int]
            == ValueView::Count(1),
        installed(ledger, program, data, table).declares(ledger.packages.len(), 1, entry) == table.contains_key(
            entry,
        ),
{
}

/// What callers can reach after an upgrade is exactly what the new table
/// declares: a call of a name that the table omits fails with `MissingKey`
/// and changes nothing, and a name that the table declares is answered as
/// far as the programs export a handler of that name.
pub proof fn lemma_visibility_is_table_exact(
    ledger: LedgerView,
    program: ProgramView,
    table: TableView,
    entry: Seq<char>,
    args: Seq<(Seq<char>, ValueView)>,
)
    requires
        program.distinct(),
        upgrade_outcome(ledger, program) is Ok,
    ensures
        callable(upgraded(ledger, program, table), program.contract_key, entry) is Ok <==> table.contains_key(
            entry,
        ) && handler_of(entry) is Some,
        !table.contains_key(entry) ==> invoke_outcome(
            upgraded(ledger, program, table),
            program.contract_key,
            entry,
            args,
        ) == Err::<ValueView, Error>(Error::MissingKey),
        !table.contains_key(entry) ==> invoked(upgraded(ledger, program, table), program.contract_key, entry, args)
            == upgraded(ledger, program, table),
{
}

/// A version stays what it was registered as: an upgrade adds a version and
/// changes none of the earlier ones, of any package.
pub proof fn lemma_versions_are_immutable(
    ledger: LedgerView,
    program: ProgramView,
    table: TableView,
    package: nat,
    number: nat,
    entry: Seq<char>,
)
    requires
        1 <= number <= ledger.version_count(package),
    ensures
        upgraded(ledger, program, table).declares(package, number, entry) == ledger.declares(
            package,
            number,
            entry,
        ),
        upgraded(ledger, program, table).packages[package as int].versions[number - 1]
            == ledger.packages[package as int].versions[number - 1],
{
}

/// An older version stays addressable by its number: after an upgrade, a
/// call pinned to a version that existed before is answered as it was
/// before. A call that pins no version goes to the new one.
pub proof fn lemma_old_versions_stay_addressable(
    ledger: LedgerView,
    program: ProgramView,
    table: TableView,
    package: nat,
    number: nat,
    entry: Seq<char>,
)
    requires
        program.distinct(),
        1 <= number <= ledger.version_count(package),
    ensures
        callable_at(upgraded(ledger, program, table), Ok((package, number)), entry) == callable_at(
            ledger,
            Ok((package, number)),
            entry,
        ),
        upgrade_outcome(ledger, program) is Ok ==> versioned_target(
            upgraded(ledger, program, table),
            program.package_key,
            None,
        ) == Ok::<(nat, nat), Error>(
            (package_named(ledger, program.package_key)->Ok_0, upgrade_outcome(ledger, program)->Ok_0),
        ),
{
    lemma_versions_are_immutable(ledger, program, table, package, number, entry);
    if upgrade_outcome(ledger, program) is Ok {
        lemma_upgrade_stays_possible(ledger, program, table);
    }
}

/// A call of an entry point changes program data only: the account's named
/// keys, the identities with the right to deploy, and every version of every
/// package stay as they are, and no package is created.
pub proof fn lemma_calls_change_data_only(
    ledger: LedgerView,
    program_key: Seq<char>,
    entry: Seq<char>,
    args: Seq<(Seq<char>, ValueView)>,
)
    ensures
        invoked(ledger, program_key, entry, args).account == ledger.account,
        invoked(ledger, program_key, entry, args).associated == ledger.associated,
        invoked(ledger, program_key, entry, args).packages.len() == ledger.packages.len(),
        forall|package: int|
            0 <= package < ledger.packages.len() ==> (#[trigger] invoked(
                ledger,
                program_key,
                entry,
                args,
            ).packages[package]).versions == ledger.packages[package].versions,
{
}

/// The text that an append starts from: what the name's cell holds, or the
/// empty text where the name is not bound yet.
pub open spec fn text_so_far(ledger: LedgerView, scope: ScopeView, name: Seq<char>) -> Seq<char> {
    match text_value(ledger, scope, name) {
        Ok(text) => text,
        Err(_) => Seq::empty(),
    }
}

/// A successful append leaves the old text followed by the new, with nothing
/// between them, and a further append succeeds too.
pub proof fn lemma_append_joins(ledger: LedgerView, scope: ScopeView, name: Seq<char>, data: Seq<char>)
    requires
        append_outcome(ledger, scope, name) is Ok,
    ensures
        text_value(text_appended(ledger, scope, name, data), scope, name) == Ok::<Seq<char>, Error>(
            text_so_far(ledger, scope, name) + data,
        ),
        append_outcome(text_appended(ledger, scope, name, data), scope, name) is Ok,
{
}

/// Appends keep their order: after `first` and then `second` were appended,
/// the text is what it was, then `first`, then `second`.
pub proof fn lemma_appends_keep_order(
    ledger: LedgerView,
    scope: ScopeView,
    name: Seq<char>,
    first: Seq<char>,
    second: Seq<char>,
)
    requires
        append_outcome(ledger, scope, name) is Ok,
    ensures
        text_value(
            text_appended(text_appended(ledger, scope, name, first), scope, name, second),
            scope,
            name,
        ) == Ok::<Seq<char>, Error>(text_so_far(ledger, scope, name) + first + second),
{
    lemma_append_joins(ledger, scope, name, first);
    lemma_append_joins(text_appended(ledger, scope, name, first), scope, name, second);
}

/// Appending the empty text to a text that exists changes nothing.
pub proof fn lemma_append_nothing(ledger: LedgerView, scope: ScopeView, name: Seq<char>)
    requires
        text_value(ledger, scope, name) is Ok,
    ensures
        text_appended(ledger, scope, name, Seq::empty()) == ledger,
{
    assert(text_appended(ledger, scope, name, Seq::empty()).cells =~= ledger.cells);
}

/// Adding to a counter gives the wrapped sum, and a reader sees an integer
/// before and after.
pub proof fn lemma_counter_adds(ledger: LedgerView, scope: ScopeView, name: Seq<char>, delta: i32)
    requires
        counter_value(ledger, scope, name) is Ok,
    ensures
        counter_value(counter_added(ledger, scope, name, delta), scope, name) == Ok::<i32, Error>(
            wrapped_sum(counter_value(ledger, scope, name)->Ok_0, delta),
        ),
{
}

/// Additions to a counter commute: two of them leave the same ledger in
/// either order, also where the sum wraps.
pub proof fn lemma_adds_commute(ledger: LedgerView, scope: ScopeView, name: Seq<char>, first: i32, second: i32)
    ensures
        counter_added(counter_added(ledger, scope, name, first), scope, name, second) == counter_added(
            counter_added(ledger, scope, name, second),
            scope,
            name,
            first,
        ),
{
    let one = counter_added(counter_added(ledger, scope, name, first), scope, name, second);
    let other = counter_added(counter_added(ledger, scope, name, second), scope, name, first);
    assert(one.cells =~= other.cells);
}

/// Incrementing and then decrementing a counter restores the ledger, and so
/// does decrementing and then incrementing.
pub proof fn lemma_inc_dec_round_trip(ledger: LedgerView, scope: ScopeView, name: Seq<char>)
    requires
        counter_value(ledger, scope, name) is Ok,
    ensures
        counter_added(counter_added(ledger, scope, name, 1), scope, name, -1i32) == ledger,
        counter_added(counter_added(ledger, scope, name, -1i32), scope, name, 1) == ledger,
{
    let up = counter_added(ledger, scope, name, 1);
    let down = counter_added(ledger, scope, name, -1i32);
    assert(counter_added(up, scope, name, -1i32).cells =~= ledger.cells);
    assert(counter_added(down, scope, name, 1).cells =~= ledger.cells);
}

/// A deployment for an account that holds the access marker installs
/// nothing: it is an upgrade, so no package is created, no cell is created,
/// nobody is given the right to deploy, the program data stays, and the
/// access marker stays what it was.
pub proof fn lemma_installed_program_is_not_installed_again(
    ledger: LedgerView,
    program: ProgramView,
    data: Seq<(Seq<char>, ValueView)>,
    first: TableView,
    latest: TableView,
    deployer: Option<Seq<u8>>,
)
    requires
        program.distinct(),
        ledger.account.contains_key(program.access_key),
    ensures
        deployed(ledger, program, data, first, latest, deployer) == upgraded(ledger, program, latest),
        same_data(ledger, deployed(ledger, program, data, first, latest, deployer)),
        deploy_outcome(ledger, program) is Ok ==> deploy_outcome(ledger, program)->Ok_0.0 == Lifecycle::Upgrade,
        deployed(ledger, program, data, first, latest, deployer).account.contains_key(program.access_key),
        deployed(ledger, program, data, first, latest, deployer).account[program.access_key]
            == ledger.account[program.access_key],
{
    lemma_upgrade_keeps_data(ledger, program, latest);
}

/// The first deployment for an account installs the program, leaves the
/// access marker in the account's namespace, and leaves the program
/// upgradable: so every later deployment is an upgrade.
pub proof fn lemma_first_deployment_installs(
    ledger: LedgerView,
    program: ProgramView,
    data: Seq<(Seq<char>, ValueView)>,
    first: TableView,
    latest: TableView,
    deployer: Option<Seq<u8>>,
)
    requires
        program.distinct(),
        !ledger.account.contains_key(program.access_key),
    ensures
        deploy_outcome(ledger, program) == Ok::<(Lifecycle, nat), Error>((Lifecycle::Install, 2)),
        deployed(ledger, program, data, first, latest, deployer).account.contains_key(program.access_key),
        deployed(ledger, program, data, first, latest, deployer).packages.len() == ledger.packages.len() + 1,
        deployed(ledger, program, data, first, latest, deployer).version_count(ledger.packages.len()) == 2,
        upgrade_outcome(deployed(ledger, program, data, first, latest, deployer), program) == Ok::<nat, Error>(3),
{
    lemma_upgrade_after_install(ledger, program, data, first, deployer);
    lemma_upgrade_stays_possible(installed_for(ledger, program, data, first, deployer), program, latest);
}

/// Each exported name has its own handler.
pub proof fn lemma_handlers_by_name()
    ensures
        handler_of(ENTRY_POINT_SURVEY_INC@) == Some(Handler::CounterInc),
        handler_of(ENTRY_POINT_SURVEY_GET@) == Some(Handler::CounterGet),
        handler_of(ENTRY_POINT_SURVEY_DECREMENT@) == Some(Handler::CounterDecrement),
        handler_of(ENTRY_POINT_SURVEY_STORE@) == Some(Handler::Store),
        handler_of(ENTRY_POINT_SURVEY_RETRIEVE@) == Some(Handler::Retrieve),
        handler_of(ENTRY_POINT_EMAIL_GET@) == Some(Handler::EmailGet),
        handler_of(ENTRY_POINT_SURVEY_ID_GET@) == Some(Handler::SurveyIdGet),
{
    reveal_strlit("survey_counter_inc");
    reveal_strlit("survey_counter_get");
    reveal_strlit("survey_counter_decrement");
    reveal_strlit("survey_store");
    reveal_strlit("survey_retrieve");
    reveal_strlit("email_get");
    reveal_strlit("survey_id_get");
    assert(ENTRY_POINT_SURVEY_INC@[15] == 'i');
    assert(ENTRY_POINT_SURVEY_GET@[15] == 'g');
    assert(ENTRY_POINT_SURVEY_DECREMENT@.len() == 24);
    assert(ENTRY_POINT_SURVEY_STORE@.len() == 12);
    assert(ENTRY_POINT_SURVEY_RETRIEVE@.len() == 15);
    assert(ENTRY_POINT_EMAIL_GET@.len() == 9);
    assert(ENTRY_POINT_SURVEY_ID_GET@.len() == 13);
}

/// Installation of the survey program leaves both data cells defined: the
/// counter reads 0 and the text reads empty.
pub proof fn lemma_survey_install_defines_data(ledger: LedgerView)
    ensures
        counter_value(
            installed(ledger, survey::program_view(), survey::initial_data(), survey::install_table_view()),
            ScopeView::Program(ledger.packages.len()),
            COUNT_KEY@,
        ) == Ok::<i32, Error>(0),
        text_value(
            installed(ledger, survey::program_view(), survey::initial_data(), survey::install_table_view()),
            ScopeView::Program(ledger.packages.len()),
            SURVEY_DATA_KEY@,
        ) == Ok::<Seq<char>, Error>(Seq::empty()),
{
    reveal_strlit("count");
    reveal_strlit("survey_data");
    assert(COUNT_KEY@.len() == 5);
    assert(SURVEY_DATA_KEY@.len() == 11);
    reveal_with_fuel(data_keys, 3);
}

/// After the first deployment of the survey program for an account, a call
/// of the get entry point returns 0 and a call of the retrieve entry point
/// returns the empty text.
pub proof fn lemma_survey_first_calls(ledger: LedgerView, deployer: Option<Seq<u8>>, args: Seq<(Seq<char>, ValueView)>)
    requires
        !ledger.account.contains_key(survey::CONTRACT_ACCESS_UREF@),
    ensures
        invoke_outcome(
            deployed(
                ledger,
                survey::program_view(),
                survey::initial_data(),
                survey::install_table_view(),
                survey::upgrade_table_view(),
                deployer,
            ),
            survey::CONTRACT_KEY@,
            ENTRY_POINT_SURVEY_GET@,
            args,
        ) == Ok::<ValueView, Error>(ValueView::Int(0)),
        invoke_outcome(
            deployed(
                ledger,
                survey::program_view(),
                survey::initial_data(),
                survey::install_table_view(),
                survey::upgrade_table_view(),
                deployer,
            ),
            survey::CONTRACT_KEY@,
            ENTRY_POINT_SURVEY_RETRIEVE@,
            args,
        ) == Ok::<ValueView, Error>(ValueView::Text(Seq::empty())),
{
    let program = survey::program_view();
    let data = survey::initial_data();
    let first = survey::install_table_view();
    let latest = survey::upgrade_table_view();
    let middle = installed_for(ledger, program, data, first, deployer);
    let after = deployed(ledger, program, data, first, latest, deployer);
    let package = ledger.packages.len();
    lemma_survey_names_differ();
    lemma_handlers_by_name();
    lemma_survey_install_defines_data(ledger);
    lemma_upgrade_after_install(ledger, program, data, first, deployer);
    lemma_visibility_is_table_exact(middle, program, latest, ENTRY_POINT_SURVEY_GET@, args);
    lemma_visibility_is_table_exact(middle, program, latest, ENTRY_POINT_SURVEY_RETRIEVE@, args);
    lemma_upgrade_keeps_data(middle, program, latest);
    lemma_same_data_reads_alike(middle, after, package, COUNT_KEY@);
    lemma_same_data_reads_alike(middle, after, package, SURVEY_DATA_KEY@);
}

/// The four account-level names of the survey program differ.
pub proof fn lemma_survey_names_differ()
    ensures
        survey::program_view().distinct(),
{
    reveal_strlit("survey");
    reveal_strlit("version");
    reveal_strlit("survey_package_name");
    reveal_strlit("survey_access_uref");
    assert(survey::CONTRACT_KEY@.len() == 6);
    assert(survey::CONTRACT_VERSION_KEY@.len() == 7);
    assert(survey::CONTRACT_PACKAGE_NAME@.len() == 19);
    assert(survey::CONTRACT_ACCESS_UREF@.len() == 18);
}

} // verus!
