use onchain_surveys::dispatch::{handle, handler_named, text_argument, Argument, Handler};
use onchain_surveys::error::Error;
use onchain_surveys::handle::{Key, PackageRef, Scope};
use onchain_surveys::handlers::{counter_add, counter_get, resolve_cell, text_append, text_get};
use onchain_surveys::ledger::Ledger;
use onchain_surveys::namespace::Namespace;
use onchain_surveys::survey;
use onchain_surveys::value::Value;

fn installed() -> (Ledger, PackageRef) {
    let mut ledger = Ledger::new();
    let (package, _) = survey::install_survey(&mut ledger);
    (ledger, package)
}

#[test]
fn store_appends_in_call_order_without_separator() {
    let (mut ledger, package) = installed();
    assert_eq!(survey::survey_store(&mut ledger, package, "a"), Ok(()));
    assert_eq!(survey::survey_store(&mut ledger, package, "bc"), Ok(()));
    assert_eq!(survey::survey_retrieve(&ledger, package), Ok("abc".to_string()));
}

#[test]
fn store_of_empty_text_changes_nothing() {
    let (mut ledger, package) = installed();
    survey::survey_store(&mut ledger, package, "abc").unwrap();
    let cells = ledger.cell_count();
    assert_eq!(survey::survey_store(&mut ledger, package, ""), Ok(()));
    assert_eq!(survey::survey_retrieve(&ledger, package), Ok("abc".to_string()));
    assert_eq!(ledger.cell_count(), cells);
}

#[test]
fn store_is_exact_on_text_beyond_ascii() {
    let (mut ledger, package) = installed();
    survey::survey_store(&mut ledger, package, "é").unwrap();
    survey::survey_store(&mut ledger, package, "日本").unwrap();
    survey::survey_store(&mut ledger, package, " \n").unwrap();
    assert_eq!(survey::survey_retrieve(&ledger, package), Ok("é日本 \n".to_string()));
}

#[test]
fn store_writes_to_the_same_cell() {
    let (mut ledger, package) = installed();
    let before = ledger.get_key(Scope::Program(package), "survey_data");
    let cells = ledger.cell_count();
    survey::survey_store(&mut ledger, package, "x").unwrap();
    survey::survey_store(&mut ledger, package, "y").unwrap();
    assert_eq!(ledger.get_key(Scope::Program(package), "survey_data"), before);
    assert_eq!(ledger.cell_count(), cells);
}

#[test]
fn counter_round_trip() {
    let (mut ledger, package) = installed();
    assert_eq!(survey::survey_counter_get(&ledger, package), Ok(0));
    assert_eq!(survey::survey_counter_inc(&mut ledger, package), Ok(()));
    assert_eq!(survey::survey_counter_get(&ledger, package), Ok(1));
    assert_eq!(survey::survey_counter_inc(&mut ledger, package), Ok(()));
    assert_eq!(survey::survey_counter_get(&ledger, package), Ok(2));
    assert_eq!(survey::survey_counter_decrement(&mut ledger, package), Ok(()));
    assert_eq!(survey::survey_counter_get(&ledger, package), Ok(1));
}

#[test]
fn counter_goes_below_zero() {
    let (mut ledger, package) = installed();
    survey::survey_counter_decrement(&mut ledger, package).unwrap();
    survey::survey_counter_decrement(&mut ledger, package).unwrap();
    assert_eq!(survey::survey_counter_get(&ledger, package), Ok(-2));
}

#[test]
fn counter_wraps_at_the_ends_of_the_range() {
    let (mut ledger, package) = installed();
    let cell = resolve_cell(&ledger, Scope::Program(package), "count").unwrap();
    ledger.write(cell, Value::Int(i32::MAX)).unwrap();
    survey::survey_counter_inc(&mut ledger, package).unwrap();
    assert_eq!(survey::survey_counter_get(&ledger, package), Ok(i32::MIN));
    survey::survey_counter_decrement(&mut ledger, package).unwrap();
    assert_eq!(survey::survey_counter_get(&ledger, package), Ok(i32::MAX));
    assert_eq!(counter_add(&mut ledger, Scope::Program(package), "count", i32::MIN), Ok(()));
    assert_eq!(counter_get(&ledger, Scope::Program(package), "count"), Ok(-1));
}

#[test]
fn handlers_miss_the_key_of_a_program_that_does_not_exist() {
    let mut ledger = Ledger::new();
    let mut other = Ledger::new();
    let (package, _) = survey::install_survey(&mut other);
    assert_eq!(survey::survey_counter_inc(&mut ledger, package), Err(Error::MissingKey));
    assert_eq!(survey::survey_counter_decrement(&mut ledger, package), Err(Error::MissingKey));
    assert_eq!(survey::survey_counter_get(&ledger, package), Err(Error::MissingKey));
    assert_eq!(survey::survey_retrieve(&ledger, package), Err(Error::MissingKey));
    assert_eq!(survey::survey_store(&mut ledger, package, "a"), Err(Error::MissingKey));
    assert_eq!(ledger.cell_count(), 0);
}

#[test]
fn handlers_reject_a_key_that_is_no_cell() {
    let (mut ledger, package) = installed();
    assert!(ledger.put_key(Scope::Program(package), "count", Key::Package(package)));
    assert!(ledger.put_key(Scope::Program(package), "survey_data", Key::Access(package)));
    assert_eq!(survey::survey_counter_inc(&mut ledger, package), Err(Error::UnexpectedKeyVariant));
    assert_eq!(survey::survey_counter_get(&ledger, package), Err(Error::UnexpectedKeyVariant));
    assert_eq!(survey::survey_store(&mut ledger, package, "a"), Err(Error::UnexpectedKeyVariant));
    assert_eq!(survey::survey_retrieve(&ledger, package), Err(Error::UnexpectedKeyVariant));
}

#[test]
fn handlers_reject_a_cell_of_another_type() {
    let (mut ledger, package) = installed();
    let count = resolve_cell(&ledger, Scope::Program(package), "count").unwrap();
    let text = resolve_cell(&ledger, Scope::Program(package), "survey_data").unwrap();
    ledger.put_key(Scope::Program(package), "count", Key::Cell(text));
    ledger.put_key(Scope::Program(package), "survey_data", Key::Cell(count));
    assert_eq!(survey::survey_counter_inc(&mut ledger, package), Err(Error::ValueNotFound));
    assert_eq!(survey::survey_counter_get(&ledger, package), Err(Error::ValueNotFound));
    assert_eq!(survey::survey_store(&mut ledger, package, "a"), Err(Error::ValueNotFound));
    assert_eq!(survey::survey_retrieve(&ledger, package), Err(Error::ValueNotFound));
    assert_eq!(ledger.read_int(count), Ok(0));
    assert_eq!(ledger.read_text(text), Ok(String::new()));
}

#[test]
fn handlers_fail_to_read_a_cell_that_the_ledger_does_not_hold() {
    let (mut ledger, package) = installed();
    let mut other = Ledger::new();
    for _ in 0..20 {
        other.create_cell(Value::Int(0));
    }
    let foreign = other.create_cell(Value::Int(0));
    ledger.put_key(Scope::Program(package), "count", Key::Cell(foreign));
    ledger.put_key(Scope::Program(package), "survey_data", Key::Cell(foreign));
    assert_eq!(survey::survey_counter_inc(&mut ledger, package), Err(Error::ReadFailure));
    assert_eq!(survey::survey_counter_get(&ledger, package), Err(Error::ReadFailure));
    assert_eq!(survey::survey_store(&mut ledger, package, "a"), Err(Error::ReadFailure));
    assert_eq!(survey::survey_retrieve(&ledger, package), Err(Error::ReadFailure));
}

#[test]
fn append_creates_the_cell_of_a_name_that_is_not_bound() {
    let mut ledger = Ledger::new();
    let package = ledger.create_package(Namespace::new());
    assert_eq!(text_get(&ledger, Scope::Program(package), "notes"), Err(Error::MissingKey));
    assert_eq!(text_append(&mut ledger, Scope::Program(package), "notes", "first"), Ok(()));
    assert_eq!(ledger.cell_count(), 1);
    assert_eq!(text_append(&mut ledger, Scope::Program(package), "notes", ", second"), Ok(()));
    assert_eq!(ledger.cell_count(), 1);
    assert_eq!(text_get(&ledger, Scope::Program(package), "notes"), Ok("first, second".to_string()));
    assert_eq!(text_append(&mut ledger, Scope::Account, "log", "x"), Ok(()));
    assert_eq!(text_get(&ledger, Scope::Account, "log"), Ok("x".to_string()));
}

#[test]
fn handler_names_are_the_exported_ones() {
    assert_eq!(handler_named("survey_counter_inc"), Some(Handler::CounterInc));
    assert_eq!(handler_named("survey_counter_get"), Some(Handler::CounterGet));
    assert_eq!(handler_named("survey_counter_decrement"), Some(Handler::CounterDecrement));
    assert_eq!(handler_named("survey_store"), Some(Handler::Store));
    assert_eq!(handler_named("survey_retrieve"), Some(Handler::Retrieve));
    assert_eq!(handler_named("email_get"), Some(Handler::EmailGet));
    assert_eq!(handler_named("survey_id_get"), Some(Handler::SurveyIdGet));
    assert_eq!(handler_named("call"), None);
    assert_eq!(handler_named(""), None);
}

#[test]
fn handle_runs_the_named_code() {
    let (mut ledger, package) = installed();
    let none: Vec<Argument> = Vec::new();
    assert_eq!(handle(&mut ledger, package, Handler::CounterInc, &none), Ok(Value::Unit));
    assert_eq!(handle(&mut ledger, package, Handler::CounterInc, &none), Ok(Value::Unit));
    assert_eq!(handle(&mut ledger, package, Handler::CounterDecrement, &none), Ok(Value::Unit));
    assert_eq!(handle(&mut ledger, package, Handler::CounterGet, &none), Ok(Value::Int(1)));
    let data = vec![Argument::new("data", Value::Text("hello".to_string()))];
    assert_eq!(handle(&mut ledger, package, Handler::Store, &data), Ok(Value::Unit));
    assert_eq!(handle(&mut ledger, package, Handler::Retrieve, &none), Ok(Value::Text("hello".to_string())));
    assert_eq!(handle(&mut ledger, package, Handler::EmailGet, &none), Err(Error::MissingKey));
    assert_eq!(handle(&mut ledger, package, Handler::SurveyIdGet, &none), Err(Error::MissingKey));
}

#[test]
fn text_argument_takes_the_first_of_the_name() {
    let args = vec![
        Argument::new("x", Value::Text("no".to_string())),
        Argument::new("data", Value::Text("yes".to_string())),
        Argument::new("data", Value::Text("later".to_string())),
    ];
    assert_eq!(text_argument(&args, "data"), Some("yes".to_string()));
    assert_eq!(text_argument(&args, "y"), None);
    let args = vec![Argument::new("data", Value::Count(3)), Argument::new("data", Value::Text("t".to_string()))];
    assert_eq!(text_argument(&args, "data"), None);
}
