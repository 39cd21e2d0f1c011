use casper_types::contracts::{EntryPoint, EntryPointAccess, EntryPointType, EntryPoints};
use casper_types::CLType;
use onchain_surveys::decide::{lifecycle, Lifecycle};
use onchain_surveys::dispatch::{invoke, invoke_version, Argument};
use onchain_surveys::error::Error;
use onchain_surveys::handle::{Key, PackageRef, Scope};
use onchain_surveys::ledger::Ledger;
use onchain_surveys::manager::{deploy, install, resolve_package, upgrade, DataCell, Deployed, Program};
use onchain_surveys::registration;
use onchain_surveys::survey;
use onchain_surveys::value::{AccountHash, Value};

const ASSOCIATED_ACCOUNT_HASH: [u8; 32] = [1u8; 32];

fn no_arguments() -> Vec<Argument> {
    Vec::new()
}

fn package_of(ledger: &Ledger, name: &str) -> PackageRef {
    match ledger.get_key(Scope::Account, name) {
        Some(Key::Package(package)) => package,
        other => panic!("no package under {}: {:?}", name, other),
    }
}

fn version_cell(ledger: &Ledger) -> u64 {
    match ledger.get_key(Scope::Account, "version") {
        Some(Key::Cell(cell)) => ledger.read_count(cell).unwrap(),
        other => panic!("no version cell: {:?}", other),
    }
}

#[test]
fn should_add_associated_key() {
    let mut ledger = Ledger::new();
    let associated = AccountHash::new(ASSOCIATED_ACCOUNT_HASH);
    assert!(!ledger.is_associated(&associated));

    survey::call(&mut ledger, Some(associated)).unwrap();

    assert!(ledger.is_associated(&associated));
}

#[test]
fn first_call_installs_and_publishes_version_two() {
    let mut ledger = Ledger::new();
    let done = survey::call(&mut ledger, Some(AccountHash::new([7u8; 32]))).unwrap();
    assert_eq!(done, Deployed { lifecycle: Lifecycle::Install, version: 2 });
    assert_eq!(ledger.package_count(), 1);
    assert_eq!(ledger.cell_count(), 3);
    let package = package_of(&ledger, "survey_package_name");
    assert_eq!(ledger.version_count(package), 2);
    assert_eq!(version_cell(&ledger), 2);
    assert_eq!(ledger.get_key(Scope::Account, "survey"), Some(Key::Version(package, 2)));
    assert_eq!(ledger.get_key(Scope::Account, "survey_access_uref"), Some(Key::Access(package)));
}

#[test]
fn install_then_call_reads_defined_initial_values() {
    let mut ledger = Ledger::new();
    survey::call(&mut ledger, Some(AccountHash::new([7u8; 32]))).unwrap();
    assert_eq!(invoke(&mut ledger, "survey", "survey_counter_get", &no_arguments()), Ok(Value::Int(0)));
    assert_eq!(
        invoke(&mut ledger, "survey", "survey_retrieve", &no_arguments()),
        Ok(Value::Text(String::new()))
    );
}

#[test]
fn install_alone_defines_both_cells() {
    let mut ledger = Ledger::new();
    let (package, version) = survey::install_survey(&mut ledger);
    assert_eq!(version, 1);
    assert_eq!(survey::survey_counter_get(&ledger, package), Ok(0));
    assert_eq!(survey::survey_retrieve(&ledger, package), Ok(String::new()));
    assert_eq!(version_cell(&ledger), 1);
    assert_eq!(ledger.get_key(Scope::Account, "survey"), Some(Key::Version(package, 1)));
}

#[test]
fn second_call_upgrades_and_installs_nothing() {
    let mut ledger = Ledger::new();
    let deployer = AccountHash::new([7u8; 32]);
    let stranger = AccountHash::new([9u8; 32]);
    let first = survey::call(&mut ledger, Some(deployer)).unwrap();
    assert_eq!(first.lifecycle, Lifecycle::Install);
    let package = package_of(&ledger, "survey_package_name");
    let count_key = ledger.get_key(Scope::Program(package), "count");
    let data_key = ledger.get_key(Scope::Program(package), "survey_data");
    let cells = ledger.cell_count();

    let second = survey::call(&mut ledger, Some(stranger)).unwrap();
    assert_eq!(second, Deployed { lifecycle: Lifecycle::Upgrade, version: 3 });
    let third = survey::call(&mut ledger, None).unwrap();
    assert_eq!(third, Deployed { lifecycle: Lifecycle::Upgrade, version: 4 });

    assert_eq!(ledger.package_count(), 1);
    assert_eq!(ledger.cell_count(), cells);
    assert_eq!(package_of(&ledger, "survey_package_name"), package);
    assert_eq!(ledger.get_key(Scope::Program(package), "count"), count_key);
    assert_eq!(ledger.get_key(Scope::Program(package), "survey_data"), data_key);
    assert_eq!(ledger.get_key(Scope::Account, "survey_access_uref"), Some(Key::Access(package)));
    assert!(!ledger.is_associated(&stranger));
    assert!(ledger.is_associated(&deployer));
}

#[test]
fn first_call_without_deployer_is_rejected_and_changes_nothing() {
    let mut ledger = Ledger::new();
    assert_eq!(survey::call(&mut ledger, None), Err(Error::MissingArgument));
    assert_eq!(ledger.package_count(), 0);
    assert_eq!(ledger.cell_count(), 0);
    assert_eq!(ledger.get_key(Scope::Account, "survey_access_uref"), None);
    assert_eq!(ledger.get_key(Scope::Account, "version"), None);
}

#[test]
fn version_numbers_count_up_without_gaps() {
    let mut ledger = Ledger::new();
    let (package, first) = survey::install_survey(&mut ledger);
    assert_eq!(first, 1);
    let program = survey::program();
    assert_eq!(upgrade(&mut ledger, &program, EntryPoints::new()), Ok(2));
    assert_eq!(version_cell(&ledger), 2);
    assert_eq!(upgrade(&mut ledger, &program, survey::upgrade_table()), Ok(3));
    assert_eq!(version_cell(&ledger), 3);
    assert_eq!(upgrade(&mut ledger, &program, survey::install_table()), Ok(4));
    assert_eq!(survey::upgrade_survey(&mut ledger), Ok(5));
    assert_eq!(version_cell(&ledger), 5);
    assert_eq!(ledger.version_count(package), 5);
    assert_eq!(ledger.get_key(Scope::Account, "survey"), Some(Key::Version(package, 5)));
}

#[test]
fn upgrades_keep_cells_and_their_content() {
    let mut ledger = Ledger::new();
    survey::call(&mut ledger, Some(AccountHash::new([7u8; 32]))).unwrap();
    let package = package_of(&ledger, "survey_package_name");
    survey::survey_counter_inc(&mut ledger, package).unwrap();
    survey::survey_counter_inc(&mut ledger, package).unwrap();
    survey::survey_counter_inc(&mut ledger, package).unwrap();
    survey::survey_store(&mut ledger, package, "answers").unwrap();
    let count_key = ledger.get_key(Scope::Program(package), "count");
    let data_key = ledger.get_key(Scope::Program(package), "survey_data");

    for _ in 0..5 {
        survey::call(&mut ledger, None).unwrap();
    }

    assert_eq!(ledger.get_key(Scope::Program(package), "count"), count_key);
    assert_eq!(ledger.get_key(Scope::Program(package), "survey_data"), data_key);
    assert_eq!(survey::survey_counter_get(&ledger, package), Ok(3));
    assert_eq!(survey::survey_retrieve(&ledger, package), Ok("answers".to_string()));
    assert_eq!(ledger.version_count(package), 7);
}

#[test]
fn omitted_entry_point_is_not_callable_but_keeps_its_value() {
    let mut ledger = Ledger::new();
    survey::call(&mut ledger, Some(AccountHash::new([7u8; 32]))).unwrap();
    invoke(&mut ledger, "survey", "survey_counter_inc", &no_arguments()).unwrap();
    invoke(&mut ledger, "survey", "survey_counter_inc", &no_arguments()).unwrap();
    assert_eq!(invoke(&mut ledger, "survey", "survey_counter_get", &no_arguments()), Ok(Value::Int(2)));

    let mut without_get = EntryPoints::new();
    without_get.add_entry_point(EntryPoint::new(
        "survey_counter_inc",
        Vec::new(),
        CLType::Unit,
        EntryPointAccess::Public,
        EntryPointType::Contract,
    ));
    let program = survey::program();
    assert_eq!(upgrade(&mut ledger, &program, without_get), Ok(3));
    assert_eq!(
        invoke(&mut ledger, "survey", "survey_counter_get", &no_arguments()),
        Err(Error::MissingKey)
    );
    assert_eq!(invoke(&mut ledger, "survey", "survey_counter_inc", &no_arguments()), Ok(Value::Unit));

    assert_eq!(survey::upgrade_survey(&mut ledger), Ok(4));
    assert_eq!(invoke(&mut ledger, "survey", "survey_counter_get", &no_arguments()), Ok(Value::Int(3)));
}

#[test]
fn decrement_is_callable_from_version_two_on() {
    let mut ledger = Ledger::new();
    let (package, _) = survey::install_survey(&mut ledger);
    assert!(ledger.declares(package, 1, "survey_counter_inc"));
    assert!(!ledger.declares(package, 1, "survey_counter_decrement"));
    assert_eq!(
        invoke(&mut ledger, "survey", "survey_counter_decrement", &no_arguments()),
        Err(Error::MissingKey)
    );
    assert_eq!(survey::upgrade_survey(&mut ledger), Ok(2));
    assert!(ledger.declares(package, 2, "survey_counter_decrement"));
    assert!(!ledger.declares(package, 3, "survey_counter_decrement"));
    assert!(!ledger.declares(package, 0, "survey_counter_inc"));
    assert_eq!(invoke(&mut ledger, "survey", "survey_counter_decrement", &no_arguments()), Ok(Value::Unit));
    assert_eq!(invoke(&mut ledger, "survey", "survey_counter_get", &no_arguments()), Ok(Value::Int(-1)));
}

#[test]
fn upgrade_before_install_misses_the_package() {
    let mut ledger = Ledger::new();
    assert_eq!(survey::upgrade_survey(&mut ledger), Err(Error::MissingKey));
    assert_eq!(registration::upgrade_contract(&mut ledger), Err(Error::MissingKey));
    assert_eq!(ledger.cell_count(), 0);
    assert_eq!(ledger.package_count(), 0);
}

#[test]
fn upgrade_rejects_a_package_name_that_is_no_package() {
    let mut ledger = Ledger::new();
    let cell = ledger.create_cell(Value::Int(5));
    ledger.put_key(Scope::Account, "survey_package_name", Key::Cell(cell));
    assert_eq!(survey::upgrade_survey(&mut ledger), Err(Error::UnexpectedKeyVariant));
}

#[test]
fn upgrade_checks_the_version_cell_before_it_changes_anything() {
    let mut ledger = Ledger::new();
    let (package, _) = survey::install_survey(&mut ledger);

    ledger.put_key(Scope::Account, "version", Key::Package(package));
    assert_eq!(survey::upgrade_survey(&mut ledger), Err(Error::UnexpectedKeyVariant));

    let text = ledger.create_cell(Value::Text("1".to_string()));
    ledger.put_key(Scope::Account, "version", Key::Cell(text));
    assert_eq!(survey::upgrade_survey(&mut ledger), Err(Error::ValueNotFound));

    let mut other = Ledger::new();
    for _ in 0..10 {
        other.create_cell(Value::Unit);
    }
    let foreign = other.create_cell(Value::Count(1));
    ledger.put_key(Scope::Account, "version", Key::Cell(foreign));
    assert_eq!(survey::upgrade_survey(&mut ledger), Err(Error::ReadFailure));

    assert_eq!(ledger.version_count(package), 1);
    assert_eq!(ledger.get_key(Scope::Account, "survey"), Some(Key::Version(package, 1)));
}

#[test]
fn invoke_resolves_the_program_by_its_account_key() {
    let mut ledger = Ledger::new();
    assert_eq!(
        invoke(&mut ledger, "survey", "survey_counter_get", &no_arguments()),
        Err(Error::MissingKey)
    );
    survey::call(&mut ledger, Some(AccountHash::new([7u8; 32]))).unwrap();
    assert_eq!(
        invoke(&mut ledger, "version", "survey_counter_get", &no_arguments()),
        Err(Error::UnexpectedKeyVariant)
    );
    assert_eq!(
        invoke(&mut ledger, "survey", "no_such_entry_point", &no_arguments()),
        Err(Error::MissingKey)
    );
}

#[test]
fn store_by_name_needs_its_argument() {
    let mut ledger = Ledger::new();
    survey::call(&mut ledger, Some(AccountHash::new([7u8; 32]))).unwrap();
    assert_eq!(
        invoke(&mut ledger, "survey", "survey_store", &no_arguments()),
        Err(Error::MissingArgument)
    );
    let wrong_type = vec![Argument::new("data", Value::Int(1))];
    assert_eq!(invoke(&mut ledger, "survey", "survey_store", &wrong_type), Err(Error::MissingArgument));
    let args = vec![Argument::new("other", Value::Text("x".to_string())), Argument::new("data", Value::Text("a".to_string()))];
    assert_eq!(invoke(&mut ledger, "survey", "survey_store", &args), Ok(Value::Unit));
    let args = vec![Argument::new("data", Value::Text("bc".to_string()))];
    assert_eq!(invoke(&mut ledger, "survey", "survey_store", &args), Ok(Value::Unit));
    assert_eq!(
        invoke(&mut ledger, "survey", "survey_retrieve", &no_arguments()),
        Ok(Value::Text("abc".to_string()))
    );
}

#[test]
fn registration_call_installs_then_upgrades() {
    let mut ledger = Ledger::new();
    let first = registration::call(&mut ledger, Some("a@b.example".to_string()), Some("s-17".to_string()));
    assert_eq!(first, Ok(Deployed { lifecycle: Lifecycle::Install, version: 2 }));
    let package = package_of(&ledger, "onchainsurveys_contract_package_name");
    assert_eq!(registration::email_get(&ledger, package), Ok("a@b.example".to_string()));
    assert_eq!(registration::survey_id_get(&ledger, package), Ok("s-17".to_string()));

    let second = registration::call(&mut ledger, Some("other@b.example".to_string()), Some("s-18".to_string()));
    assert_eq!(second, Ok(Deployed { lifecycle: Lifecycle::Upgrade, version: 3 }));
    let third = registration::call(&mut ledger, None, None);
    assert_eq!(third, Ok(Deployed { lifecycle: Lifecycle::Upgrade, version: 4 }));
    assert_eq!(
        invoke(&mut ledger, "onchainsurveys_contract", "email_get", &no_arguments()),
        Ok(Value::Text("a@b.example".to_string()))
    );
    assert_eq!(
        invoke(&mut ledger, "onchainsurveys_contract", "survey_id_get", &no_arguments()),
        Ok(Value::Text("s-17".to_string()))
    );
    assert_eq!(ledger.package_count(), 1);
}

#[test]
fn registration_call_needs_both_arguments() {
    let mut ledger = Ledger::new();
    assert_eq!(registration::call(&mut ledger, None, Some("s".to_string())), Err(Error::MissingArgument));
    assert_eq!(registration::call(&mut ledger, Some("e".to_string()), None), Err(Error::MissingArgument));
    assert_eq!(registration::call(&mut ledger, None, None), Err(Error::MissingArgument));
    assert_eq!(ledger.package_count(), 0);
    assert_eq!(ledger.cell_count(), 0);
}

#[test]
fn both_programs_live_side_by_side() {
    let mut ledger = Ledger::new();
    survey::call(&mut ledger, Some(AccountHash::new([7u8; 32]))).unwrap();
    let (registered, _) = registration::install_contract(&mut ledger, "e".to_string(), "id".to_string());
    let surveyed = package_of(&ledger, "survey_package_name");
    assert_ne!(surveyed, registered);
    assert_eq!(ledger.package_count(), 2);
    assert_eq!(registration::email_get(&ledger, surveyed), Err(Error::MissingKey));
    assert_eq!(survey::survey_counter_get(&ledger, registered), Err(Error::MissingKey));
    assert_eq!(survey::survey_counter_get(&ledger, surveyed), Ok(0));
}

#[test]
fn generic_deploy_without_deployer_grants_nothing() {
    let mut ledger = Ledger::new();
    let program = Program::new("p", "p_version", "p_package", "p_access").unwrap();
    let data = vec![DataCell::new("n", Value::Int(41))];
    let done = deploy(&mut ledger, &program, &data, EntryPoints::new(), EntryPoints::new(), None);
    assert_eq!(done, Ok(Deployed { lifecycle: Lifecycle::Install, version: 2 }));
    let package = package_of(&ledger, "p_package");
    match ledger.get_key(Scope::Program(package), "n") {
        Some(Key::Cell(cell)) => assert_eq!(ledger.read_int(cell), Ok(41)),
        other => panic!("no cell: {:?}", other),
    }
    assert!(!ledger.is_associated(&AccountHash::new([0u8; 32])));
}

#[test]
fn generic_install_binds_a_repeated_name_to_the_later_cell() {
    let mut ledger = Ledger::new();
    let program = Program::new("p", "p_version", "p_package", "p_access").unwrap();
    let data = vec![DataCell::new("n", Value::Int(1)), DataCell::new("n", Value::Int(2))];
    let (package, version) = install(&mut ledger, &program, &data, EntryPoints::new());
    assert_eq!(version, 1);
    assert_eq!(ledger.cell_count(), 3);
    match ledger.get_key(Scope::Program(package), "n") {
        Some(Key::Cell(cell)) => assert_eq!(ledger.read_int(cell), Ok(2)),
        other => panic!("no cell: {:?}", other),
    }
}

#[test]
fn program_names_must_differ() {
    assert!(Program::new("a", "b", "c", "d").is_some());
    assert!(Program::new("a", "a", "c", "d").is_none());
    assert!(Program::new("a", "b", "a", "d").is_none());
    assert!(Program::new("a", "b", "c", "a").is_none());
    assert!(Program::new("a", "b", "b", "d").is_none());
    assert!(Program::new("a", "b", "c", "b").is_none());
    assert!(Program::new("a", "b", "c", "c").is_none());
    let program = survey::program();
    assert_eq!(program.contract_key(), "survey");
    assert_eq!(program.version_key(), "version");
    assert_eq!(program.package_key(), "survey_package_name");
    assert_eq!(program.access_key(), "survey_access_uref");
    let program = registration::program();
    assert_eq!(program.contract_key(), "onchainsurveys_contract");
    assert_eq!(program.package_key(), "onchainsurveys_contract_package_name");
    assert_eq!(program.access_key(), "onchainsurveys_contract_access_uref");
}

#[test]
fn lifecycle_goes_by_the_presence_of_the_marker() {
    let mut ledger = Ledger::new();
    assert_eq!(lifecycle(&ledger.get_key(Scope::Account, "survey_access_uref")), Lifecycle::Install);
    survey::install_survey(&mut ledger);
    assert_eq!(lifecycle(&ledger.get_key(Scope::Account, "survey_access_uref")), Lifecycle::Upgrade);
    assert_eq!(lifecycle::<u8>(&None), Lifecycle::Install);
    assert_eq!(lifecycle(&Some(0u8)), Lifecycle::Upgrade);
}

#[test]
fn older_versions_stay_addressable_by_number() {
    let mut ledger = Ledger::new();
    survey::install_survey(&mut ledger);
    assert_eq!(survey::upgrade_survey(&mut ledger), Ok(2));
    let none = no_arguments();
    let package = "survey_package_name";
    let decrement = "survey_counter_decrement";
    assert_eq!(invoke_version(&mut ledger, package, Some(1), decrement, &none), Err(Error::MissingKey));
    assert_eq!(invoke_version(&mut ledger, package, Some(2), decrement, &none), Ok(Value::Unit));
    assert_eq!(invoke_version(&mut ledger, package, None, decrement, &none), Ok(Value::Unit));
    assert_eq!(invoke_version(&mut ledger, package, Some(1), "survey_counter_inc", &none), Ok(Value::Unit));
    assert_eq!(invoke_version(&mut ledger, package, Some(3), "survey_counter_inc", &none), Err(Error::MissingKey));
    assert_eq!(invoke_version(&mut ledger, package, Some(0), "survey_counter_inc", &none), Err(Error::MissingKey));
    assert_eq!(invoke_version(&mut ledger, package, Some(1), "survey_counter_get", &none), Ok(Value::Int(-1)));

    let program = survey::program();
    assert_eq!(upgrade(&mut ledger, &program, EntryPoints::new()), Ok(3));
    assert_eq!(invoke_version(&mut ledger, package, None, "survey_counter_get", &none), Err(Error::MissingKey));
    assert_eq!(invoke_version(&mut ledger, package, Some(2), "survey_counter_get", &none), Ok(Value::Int(-1)));
    assert_eq!(invoke(&mut ledger, "survey", "survey_counter_get", &none), Err(Error::MissingKey));
}

#[test]
fn a_call_by_package_needs_the_package() {
    let mut ledger = Ledger::new();
    let none = no_arguments();
    assert_eq!(
        invoke_version(&mut ledger, "survey_package_name", None, "survey_counter_get", &none),
        Err(Error::MissingKey)
    );
    assert_eq!(resolve_package(&ledger, "survey_package_name"), Err(Error::MissingKey));
    survey::install_survey(&mut ledger);
    assert_eq!(
        invoke_version(&mut ledger, "version", None, "survey_counter_get", &none),
        Err(Error::UnexpectedKeyVariant)
    );
    assert_eq!(resolve_package(&ledger, "version"), Err(Error::UnexpectedKeyVariant));
    assert_eq!(
        resolve_package(&ledger, "survey_package_name"),
        Ok(package_of(&ledger, "survey_package_name"))
    );

    let mut other = Ledger::new();
    survey::install_survey(&mut other);
    let (foreign, _) = registration::install_contract(&mut other, "e".to_string(), "s".to_string());
    ledger.put_key(Scope::Account, "elsewhere", Key::Package(foreign));
    assert_eq!(resolve_package(&ledger, "elsewhere"), Err(Error::UnexpectedKeyVariant));
}
