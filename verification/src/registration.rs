//! The registration program: the e-mail address and the survey identifier of
//! a registered survey, each behind one entry point that returns it.

use casper_types::contracts::EntryPoints;
use vstd::prelude::*;
use crate::decide::{lifecycle, require_argument, Lifecycle};
use crate::error::Error;
use crate::handle::{PackageRef, Scope};
use crate::handlers::{text_get, text_value};
use crate::ledger::{Ledger, LedgerView, ScopeView};
use crate::manager::{
    data_view, deploy, deploy_outcome, deployed, install, installed, upgrade, upgrade_outcome, upgraded, DataCell,
    Deployed, Program, ProgramView,
};
use crate::registry::{declare, declared, new_table, no_parameters, public_entry, EntryPointSpec, TableView};
use crate::value::{Value, ValueType, ValueView};

verus! {

/// The entry point that returns the e-mail address.
pub const ENTRY_POINT_EMAIL_GET: &'static str = "email_get";

/// The entry point that returns the survey identifier.
pub const ENTRY_POINT_SURVEY_ID_GET: &'static str = "survey_id_get";

/// The account's name for the cell that mirrors the version number.
pub const CONTRACT_VERSION_KEY: &'static str = "version";

/// The account's name for the current version of the program.
pub const CONTRACT_KEY: &'static str = "onchainsurveys_contract";

/// The program's name for the cell with the e-mail address.
pub const EMAIL_KEY: &'static str = "email";

/// The program's name for the cell with the survey identifier.
pub const SURVEY_ID_KEY: &'static str = "survey_id";

/// The account's name for the package.
pub const CONTRACT_PACKAGE_NAME: &'static str = "onchainsurveys_contract_package_name";

/// The account's name for the access marker.
pub const CONTRACT_ACCESS_UREF: &'static str = "onchainsurveys_contract_access_uref";

/// The deployment argument that holds the e-mail address.
pub const ARG_EMAIL: &'static str = "email";

/// The deployment argument that holds the survey identifier.
pub const ARG_SURVEY_ID: &'static str = "surveyId";

/// The account-level names of the registration program.
pub open spec fn program_view() -> ProgramView {
    ProgramView {
        contract_key: CONTRACT_KEY@,
        version_key: CONTRACT_VERSION_KEY@,
        package_key: CONTRACT_PACKAGE_NAME@,
        access_key: CONTRACT_ACCESS_UREF@,
    }
}

/// The data of the registration program as installation leaves it.
pub open spec fn initial_data(email: Seq<char>, survey_id: Seq<char>) -> Seq<(Seq<char>, ValueView)> {
    seq![(EMAIL_KEY@, ValueView::Text(email)), (SURVEY_ID_KEY@, ValueView::Text(survey_id))]
}

/// The entry points of every version: both return text and take nothing.
pub open spec fn table_view() -> TableView {
    TableView::empty().insert(
        ENTRY_POINT_EMAIL_GET@,
        public_entry(ENTRY_POINT_EMAIL_GET@, Seq::empty(), ValueType::Text),
    ).insert(
        ENTRY_POINT_SURVEY_ID_GET@,
        public_entry(ENTRY_POINT_SURVEY_ID_GET@, Seq::empty(), ValueType::Text),
    )
}

/// The account-level names of the registration program.
pub fn program() -> (program: Program)
    ensures
        program@ == program_view(),
{
    proof {
        reveal_strlit("onchainsurveys_contract");
        reveal_strlit("version");
        reveal_strlit("onchainsurveys_contract_package_name");
        reveal_strlit("onchainsurveys_contract_access_uref");
        assert(CONTRACT_VERSION_KEY@.len() == 7);
        assert(CONTRACT_PACKAGE_NAME@.len() == 36);
        assert(CONTRACT_ACCESS_UREF@.len() == 35);
    }
    Program::new(CONTRACT_KEY, CONTRACT_VERSION_KEY, CONTRACT_PACKAGE_NAME, CONTRACT_ACCESS_UREF).unwrap()
}

/// The data cells that installation creates.
pub fn data_cells(initial_email: String, initial_survey_id: String) -> (data: Vec<DataCell>)
    ensures
        data_view(data@) == initial_data(initial_email@, initial_survey_id@),
{
    let mut data: Vec<DataCell> = Vec::new();
    data.push(DataCell::new(EMAIL_KEY, Value::Text(initial_email)));
    data.push(DataCell::new(SURVEY_ID_KEY, Value::Text(initial_survey_id)));
    data
}

/// The entry-point table of every version. A later version declares the two
/// entry points with the signatures that version 1 gave them.
pub fn table() -> (table: EntryPoints)
    ensures
        declared(table) == table_view(),
{
    let mut table = new_table();
    declare(&mut table, &EntryPointSpec::public(ENTRY_POINT_EMAIL_GET, no_parameters(), ValueType::Text));
    declare(&mut table, &EntryPointSpec::public(ENTRY_POINT_SURVEY_ID_GET, no_parameters(), ValueType::Text));
    table
}

/// Returns the e-mail address of `program`.
pub fn email_get(ledger: &Ledger, program: PackageRef) -> (outcome: Result<String, Error>)
    requires
        ledger.wf(),
    ensures
        match outcome {
            Ok(text) => text_value(ledger@, ScopeView::Program(program@), EMAIL_KEY@) == Ok::<Seq<char>, Error>(
                text@,
            ),
            Err(error) => text_value(ledger@, ScopeView::Program(program@), EMAIL_KEY@) == Err::<
                Seq<char>,
                Error,
            >(error),
        },
{
    text_get(ledger, Scope::Program(program), EMAIL_KEY)
}

/// Returns the survey identifier of `program`.
pub fn survey_id_get(ledger: &Ledger, program: PackageRef) -> (outcome: Result<String, Error>)
    requires
        ledger.wf(),
    ensures
        match outcome {
            Ok(text) => text_value(ledger@, ScopeView::Program(program@), SURVEY_ID_KEY@) == Ok::<
                Seq<char>,
                Error,
            >(text@),
            Err(error) => text_value(ledger@, ScopeView::Program(program@), SURVEY_ID_KEY@) == Err::<
                Seq<char>,
                Error,
            >(error),
        },
{
    text_get(ledger, Scope::Program(program), SURVEY_ID_KEY)
}

/// Installs the registration program: the two texts, and version 1 with its
/// two entry points.
pub fn install_contract(ledger: &mut Ledger, initial_email: String, initial_survey_id: String) -> (created: (
    PackageRef,
    u64,
))
    requires
        old(ledger).wf(),
        !old(ledger)@.account.contains_key(CONTRACT_ACCESS_UREF@),
    ensures
        final(ledger).wf(),
        final(ledger)@ == installed(
            old(ledger)@,
            program_view(),
            initial_data(initial_email@, initial_survey_id@),
            table_view(),
        ),
        created.0@ == old(ledger)@.packages.len(),
        created.1 == 1,
{
    let program = program();
    let data = data_cells(initial_email, initial_survey_id);
    install(ledger, &program, &data, table())
}

/// Publishes the two entry points as the next version of the registration
/// program.
pub fn upgrade_contract(ledger: &mut Ledger) -> (outcome: Result<u64, Error>)
    requires
        old(ledger).wf(),
    ensures
        final(ledger).wf(),
        match outcome {
            Ok(number) => upgrade_outcome(old(ledger)@, program_view()) == Ok::<nat, Error>(number as nat),
            Err(error) => upgrade_outcome(old(ledger)@, program_view()) == Err::<nat, Error>(error),
        },
        final(ledger)@ == upgraded(old(ledger)@, program_view(), table_view()),
{
    let program = program();
    upgrade(ledger, &program, table())
}

/// Whether a deployment lacks an argument that it needs: the account does
/// not hold the access marker yet, and one of the two texts is not supplied.
pub open spec fn lacks_argument(ledger: LedgerView, email: Option<String>, survey_id: Option<String>) -> bool {
    !ledger.account.contains_key(CONTRACT_ACCESS_UREF@) && (email is None || survey_id is None)
}

/// Deploys the registration program. The first deployment for an account
/// installs version 1 with the two texts and publishes version 2; it fails
/// with `MissingArgument` if one of the texts is not supplied. Every later
/// deployment publishes the next version and uses no argument.
pub fn call(ledger: &mut Ledger, email: Option<String>, survey_id: Option<String>) -> (outcome: Result<
    Deployed,
    Error,
>)
    requires
        old(ledger).wf(),
    ensures
        final(ledger).wf(),
        lacks_argument(old(ledger)@, email, survey_id) ==> outcome == Err::<Deployed, Error>(
            Error::MissingArgument,
        ) && final(ledger)@ == old(ledger)@,
        !lacks_argument(old(ledger)@, email, survey_id) ==> match outcome {
            Ok(done) => deploy_outcome(old(ledger)@, program_view()) == Ok::<(Lifecycle, nat), Error>(
                (done.lifecycle, done.version as nat),
            ),
            Err(error) => deploy_outcome(old(ledger)@, program_view()) == Err::<(Lifecycle, nat), Error>(error),
        },
        old(ledger)@.account.contains_key(CONTRACT_ACCESS_UREF@) ==> final(ledger)@ == upgraded(
            old(ledger)@,
            program_view(),
            table_view(),
        ),
        !old(ledger)@.account.contains_key(CONTRACT_ACCESS_UREF@) && email is Some && survey_id is Some
            ==> final(ledger)@ == deployed(
            old(ledger)@,
            program_view(),
            initial_data(email->0@, survey_id->0@),
            table_view(),
            table_view(),
            None,
        ),
{
    let program = program();
    match lifecycle(&ledger.get_key(Scope::Account, CONTRACT_ACCESS_UREF)) {
        Lifecycle::Install => {
            let initial_email = match require_argument(email) {
                Err(error) => {
                    return Err(error);
                },
                Ok(text) => text,
            };
            let initial_survey_id = match require_argument(survey_id) {
                Err(error) => {
                    return Err(error);
                },
                Ok(text) => text,
            };
            let data = data_cells(initial_email, initial_survey_id);
            deploy(ledger, &program, &data, table(), table(), None)
        },
        Lifecycle::Upgrade => {
            let unused: Vec<DataCell> = Vec::new();
            deploy(ledger, &program, &unused, table(), table(), None)
        },
    }
}

} // verus!
