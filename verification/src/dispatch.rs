//! Calling an entry point by name: the call is answered only if the version
//! that the caller addresses declares the name.

use vstd::prelude::*;
use crate::decide::{require_argument, require_key};
use crate::error::Error;
use crate::handle::{Key, KeyView, PackageRef, Scope};
use crate::handlers::{append_outcome, counter_added, counter_value, text_appended, text_value};
use crate::ledger::{Ledger, LedgerView, ScopeView};
use crate::manager::{package_named, resolve_package};
use crate::registration::{
    email_get, survey_id_get, EMAIL_KEY, ENTRY_POINT_EMAIL_GET, ENTRY_POINT_SURVEY_ID_GET, SURVEY_ID_KEY,
};
use crate::survey::{
    survey_counter_decrement, survey_counter_get, survey_counter_inc, survey_retrieve, survey_store, ARG_DATA, COUNT_KEY,
    ENTRY_POINT_SURVEY_DECREMENT, ENTRY_POINT_SURVEY_GET, ENTRY_POINT_SURVEY_INC, ENTRY_POINT_SURVEY_RETRIEVE,
    ENTRY_POINT_SURVEY_STORE, SURVEY_DATA_KEY,
};
use crate::value::{Value, ValueView};

verus! {

/// The code that answers a call.
#[derive(Clone, Copy, Debug, PartialEq, Eq, Structural)]
pub enum Handler {
    CounterInc,
    CounterGet,
    CounterDecrement,
    Store,
    Retrieve,
    EmailGet,
    SurveyIdGet,
}

/// The handler that the programs export under `name`.
pub open spec fn handler_of(name: Seq<char>) -> Option<Handler> {
    if name == ENTRY_POINT_SURVEY_INC@ {
        Some(Handler::CounterInc)
    } else if name == ENTRY_POINT_SURVEY_GET@ {
        Some(Handler::CounterGet)
    } else if name == ENTRY_POINT_SURVEY_DECREMENT@ {
        Some(Handler::CounterDecrement)
    } else if name == ENTRY_POINT_SURVEY_STORE@ {
        Some(Handler::Store)
    } else if name == ENTRY_POINT_SURVEY_RETRIEVE@ {
        Some(Handler::Retrieve)
    } else if name == ENTRY_POINT_EMAIL_GET@ {
        Some(Handler::EmailGet)
    } else if name == ENTRY_POINT_SURVEY_ID_GET@ {
        Some(Handler::SurveyIdGet)
    } else {
        None
    }
}

fn same_text(left: &str, right: &str) -> (equal: bool)
    ensures
        equal == (left@ == right@),
{
    left.to_owned() == right.to_owned()
}

/// The handler that the programs export under `name`.
pub fn handler_named(name: &str) -> (handler: Option<Handler>)
    ensures
        handler == handler_of(name@),
{
    if same_text(name, ENTRY_POINT_SURVEY_INC) {
        Some(Handler::CounterInc)
    } else if same_text(name, ENTRY_POINT_SURVEY_GET) {
        Some(Handler::CounterGet)
    } else if same_text(name, ENTRY_POINT_SURVEY_DECREMENT) {
        Some(Handler::CounterDecrement)
    } else if same_text(name, ENTRY_POINT_SURVEY_STORE) {
        Some(Handler::Store)
    } else if same_text(name, ENTRY_POINT_SURVEY_RETRIEVE) {
        Some(Handler::Retrieve)
    } else if same_text(name, ENTRY_POINT_EMAIL_GET) {
        Some(Handler::EmailGet)
    } else if same_text(name, ENTRY_POINT_SURVEY_ID_GET) {
        Some(Handler::SurveyIdGet)
    } else {
        None
    }
}

/// An argument of an invocation: its name and its value.
#[derive(Clone, Debug, PartialEq, Eq)]
pub struct Argument {
    pub name: String,
    pub value: Value,
}

impl View for Argument {
    type V = (Seq<char>, ValueView);

    open spec fn view(&self) -> (Seq<char>, ValueView) {
        (self.name@, self.value@)
    }
}

impl Argument {
    /// The argument `name` with value `value`.
    pub fn new(name: &str, value: Value) -> (argument: Argument)
        ensures
            argument@ == (name@, value@),
    {
        Argument { name: name.to_owned(), value }
    }
}

/// The content of a list of arguments.
pub open spec fn arguments_view(args: Seq<Argument>) -> Seq<(Seq<char>, ValueView)> {
    Seq::new(args.len(), |i: int| args[i]@)
}

/// The text supplied under `name`: the value of the first argument of that
/// name, if it is text.
pub open spec fn text_argument_of(args: Seq<(Seq<char>, ValueView)>, name: Seq<char>) -> Option<Seq<char>>
    decreases args.len(),
{
    if args.len() == 0 {
        None
    } else if args[0].0 == name {
        match args[0].1 {
            ValueView::Text(text) => Some(text),
            _ => None,
        }
    } else {
        text_argument_of(args.skip(1), name)
    }
}

/// The text supplied under `name`, if there is one.
pub fn text_argument(args: &Vec<Argument>, name: &str) -> (text: Option<String>)
    ensures
        match text {
            Some(text) => text_argument_of(arguments_view(args@), name@) == Some(text@),
            None => text_argument_of(arguments_view(args@), name@) is None,
        },
{
    let ghost all = arguments_view(args@);
    let mut i: usize = 0;
    assert(all.skip(0) =~= all);
    while i < args.len()
        invariant
            0 <= i <= args@.len(),
            all == arguments_view(args@),
            text_argument_of(all, name@) == text_argument_of(all.skip(i as int), name@),
        decreases args@.len() - i,
    {
        proof {
            assert(all.skip(i as int).skip(1) =~= all.skip(i + 1));
        }
        if same_text(args[i].name.as_str(), name) {
            return match &args[i].value {
                Value::Text(text) => Some(text.clone()),
                _ => None,
            };
        }
        i += 1;
    }
    None
}

/// The package and version that the account knows under `program_key`.
pub open spec fn target_of(ledger: LedgerView, program_key: Seq<char>) -> Result<(nat, nat), Error> {
    if !ledger.account.contains_key(program_key) {
        Err(Error::MissingKey)
    } else {
        match ledger.account[program_key] {
            KeyView::Version(package, number) => Ok((package, number)),
            _ => Err(Error::UnexpectedKeyVariant),
        }
    }
}

/// The package and version that a call by package addresses: the package
/// that the account knows under `package_key`, and the version of the given
/// number or, where none is given, the latest.
pub open spec fn versioned_target(ledger: LedgerView, package_key: Seq<char>, version: Option<u64>) -> Result<
    (nat, nat),
    Error,
> {
    match package_named(ledger, package_key) {
        Err(error) => Err(error),
        Ok(package) => Ok(
            (
                package,
                match version {
                    Some(number) => number as nat,
                    None => ledger.version_count(package),
                },
            ),
        ),
    }
}

/// The package and the handler that answer a call of `entry` addressed to
/// `target`: the addressed version must declare the name, and the programs
/// must export it.
pub open spec fn callable_at(ledger: LedgerView, target: Result<(nat, nat), Error>, entry: Seq<char>) -> Result<
    (nat, Handler),
    Error,
> {
    match target {
        Err(error) => Err(error),
        Ok((package, number)) => if !ledger.declares(package, number, entry) {
            Err(Error::MissingKey)
        } else {
            match handler_of(entry) {
                None => Err(Error::MissingKey),
                Some(handler) => Ok((package, handler)),
            }
        },
    }
}

/// The package and the handler that answer a call of `entry` of the program
/// version that the account knows under `program_key`.
pub open spec fn callable(ledger: LedgerView, program_key: Seq<char>, entry: Seq<char>) -> Result<
    (nat, Handler),
    Error,
> {
    callable_at(ledger, target_of(ledger, program_key), entry)
}

/// The unit outcome of a handler that only changes the ledger.
pub open spec fn done<T>(outcome: Result<T, Error>) -> Result<ValueView, Error> {
    match outcome {
        Ok(_) => Ok(ValueView::Unit),
        Err(error) => Err(error),
    }
}

/// The text outcome of a handler that returns text.
pub open spec fn text_returned(outcome: Result<Seq<char>, Error>) -> Result<ValueView, Error> {
    match outcome {
        Ok(text) => Ok(ValueView::Text(text)),
        Err(error) => Err(error),
    }
}

/// What `handler` returns when it runs on the named keys of `package`.
pub open spec fn handled_outcome(
    ledger: LedgerView,
    package: nat,
    handler: Handler,
    args: Seq<(Seq<char>, ValueView)>,
) -> Result<ValueView, Error> {
    let scope = ScopeView::Program(package);
    match handler {
        Handler::CounterInc | Handler::CounterDecrement => done(counter_value(ledger, scope, COUNT_KEY@)),
        Handler::CounterGet => match counter_value(ledger, scope, COUNT_KEY@) {
            Ok(n) => Ok(ValueView::Int(n)),
            Err(error) => Err(error),
        },
        Handler::Store => match text_argument_of(args, ARG_DATA@) {
            None => Err(Error::MissingArgument),
            Some(_) => done(append_outcome(ledger, scope, SURVEY_DATA_KEY@)),
        },
        Handler::Retrieve => text_returned(text_value(ledger, scope, SURVEY_DATA_KEY@)),
        Handler::EmailGet => text_returned(text_value(ledger, scope, EMAIL_KEY@)),
        Handler::SurveyIdGet => text_returned(text_value(ledger, scope, SURVEY_ID_KEY@)),
    }
}

/// The ledger after `handler` ran on the named keys of `package`.
pub open spec fn handled(ledger: LedgerView, package: nat, handler: Handler, args: Seq<(Seq<char>, ValueView)>) -> LedgerView {
    let scope = ScopeView::Program(package);
    match handler {
        Handler::CounterInc => counter_added(ledger, scope, COUNT_KEY@, 1),
        Handler::CounterDecrement => counter_added(ledger, scope, COUNT_KEY@, -1i32),
        Handler::Store => match text_argument_of(args, ARG_DATA@) {
            None => ledger,
            Some(data) => text_appended(ledger, scope, SURVEY_DATA_KEY@, data),
        },
        _ => ledger,
    }
}

/// What a call of `entry` addressed to `target` returns.
pub open spec fn call_outcome(
    ledger: LedgerView,
    target: Result<(nat, nat), Error>,
    entry: Seq<char>,
    args: Seq<(Seq<char>, ValueView)>,
) -> Result<ValueView, Error> {
    match callable_at(ledger, target, entry) {
        Err(error) => Err(error),
        Ok((package, handler)) => handled_outcome(ledger, package, handler, args),
    }
}

/// The ledger after a call of `entry` addressed to `target`.
pub open spec fn called(
    ledger: LedgerView,
    target: Result<(nat, nat), Error>,
    entry: Seq<char>,
    args: Seq<(Seq<char>, ValueView)>,
) -> LedgerView {
    match callable_at(ledger, target, entry) {
        Err(_) => ledger,
        Ok((package, handler)) => handled(ledger, package, handler, args),
    }
}

/// What a call of `entry` of the program version that the account knows
/// under `program_key` returns.
pub open spec fn invoke_outcome(
    ledger: LedgerView,
    program_key: Seq<char>,
    entry: Seq<char>,
    args: Seq<(Seq<char>, ValueView)>,
) -> Result<ValueView, Error> {
    call_outcome(ledger, target_of(ledger, program_key), entry, args)
}

/// The ledger after a call of `entry` of the program version that the
/// account knows under `program_key`.
pub open spec fn invoked(
    ledger: LedgerView,
    program_key: Seq<char>,
    entry: Seq<char>,
    args: Seq<(Seq<char>, ValueView)>,
) -> LedgerView {
    called(ledger, target_of(ledger, program_key), entry, args)
}

/// The package and version that an address names.
pub open spec fn target_view(target: Result<(PackageRef, u64), Error>) -> Result<(nat, nat), Error> {
    match target {
        Ok((package, number)) => Ok((package@, number as nat)),
        Err(error) => Err(error),
    }
}

/// Runs `handler` on the named keys of `package`.
pub fn handle(ledger: &mut Ledger, package: PackageRef, handler: Handler, args: &Vec<Argument>) -> (outcome: Result<
    Value,
    Error,
>)
    requires
        old(ledger).wf(),
    ensures
        final(ledger).wf(),
        match outcome {
            Ok(value) => handled_outcome(old(ledger)@, package@, handler, arguments_view(args@)) == Ok::<
                ValueView,
                Error,
            >(value@),
            Err(error) => handled_outcome(old(ledger)@, package@, handler, arguments_view(args@)) == Err::<
                ValueView,
                Error,
            >(error),
        },
        final(ledger)@ == handled(old(ledger)@, package@, handler, arguments_view(args@)),
{
    match handler {
        Handler::CounterInc => match survey_counter_inc(ledger, package) {
            Ok(_) => Ok(Value::Unit),
            Err(error) => Err(error),
        },
        Handler::CounterDecrement => match survey_counter_decrement(ledger, package) {
            Ok(_) => Ok(Value::Unit),
            Err(error) => Err(error),
        },
        Handler::CounterGet => match survey_counter_get(ledger, package) {
            Ok(n) => Ok(Value::Int(n)),
            Err(error) => Err(error),
        },
        Handler::Store => match require_argument(text_argument(args, ARG_DATA)) {
            Err(error) => Err(error),
            Ok(data) => match survey_store(ledger, package, data.as_str()) {
                Ok(_) => Ok(Value::Unit),
                Err(error) => Err(error),
            },
        },
        Handler::Retrieve => match survey_retrieve(ledger, package) {
            Ok(text) => Ok(Value::Text(text)),
            Err(error) => Err(error),
        },
        Handler::EmailGet => match email_get(ledger, package) {
            Ok(text) => Ok(Value::Text(text)),
            Err(error) => Err(error),
        },
        Handler::SurveyIdGet => match survey_id_get(ledger, package) {
            Ok(text) => Ok(Value::Text(text)),
            Err(error) => Err(error),
        },
    }
}

/// Answers a call of `entry` addressed to `target`.
fn call_at(ledger: &mut Ledger, target: Result<(PackageRef, u64), Error>, entry: &str, args: &Vec<Argument>) -> (outcome:
    Result<Value, Error>)
    requires
        old(ledger).wf(),
    ensures
        final(ledger).wf(),
        match outcome {
            Ok(value) => call_outcome(old(ledger)@, target_view(target), entry@, arguments_view(args@)) == Ok::<
                ValueView,
                Error,
            >(value@),
            Err(error) => call_outcome(old(ledger)@, target_view(target), entry@, arguments_view(args@)) == Err::<
                ValueView,
                Error,
            >(error),
        },
        final(ledger)@ == called(old(ledger)@, target_view(target), entry@, arguments_view(args@)),
{
    let (package, number) = match target {
        Err(error) => {
            return Err(error);
        },
        Ok(address) => address,
    };
    if !ledger.declares(package, number, entry) {
        return Err(Error::MissingKey);
    }
    match require_key(handler_named(entry)) {
        Err(error) => Err(error),
        Ok(handler) => handle(ledger, package, handler, args),
    }
}

/// Calls the entry point `entry` of the program version that the account
/// knows under `program_key`.
///
/// The call is answered only if that version declares `entry`: a name that
/// its table omits fails with `MissingKey`, whatever the program's cells
/// hold. On failure nothing changes.
pub fn invoke(ledger: &mut Ledger, program_key: &str, entry: &str, args: &Vec<Argument>) -> (outcome: Result<
    Value,
    Error,
>)
    requires
        old(ledger).wf(),
    ensures
        final(ledger).wf(),
        match outcome {
            Ok(value) => invoke_outcome(old(ledger)@, program_key@, entry@, arguments_view(args@)) == Ok::<
                ValueView,
                Error,
            >(value@),
            Err(error) => invoke_outcome(old(ledger)@, program_key@, entry@, arguments_view(args@)) == Err::<
                ValueView,
                Error,
            >(error),
        },
        final(ledger)@ == invoked(old(ledger)@, program_key@, entry@, arguments_view(args@)),
{
    let target = match require_key(ledger.get_key(Scope::Account, program_key)) {
        Err(error) => Err(error),
        Ok(Key::Version(package, number)) => Ok((package, number)),
        Ok(_) => Err(Error::UnexpectedKeyVariant),
    };
    call_at(ledger, target, entry, args)
}

/// Calls the entry point `entry` of the package that the account knows
/// under `package_key`: of its latest version, or of the version `version`
/// where the caller pins one. An older version stays addressable by its
/// number, with the entry points that it was registered with.
pub fn invoke_version(
    ledger: &mut Ledger,
    package_key: &str,
    version: Option<u64>,
    entry: &str,
    args: &Vec<Argument>,
) -> (outcome: Result<Value, Error>)
    requires
        old(ledger).wf(),
    ensures
        final(ledger).wf(),
        match outcome {
            Ok(value) => call_outcome(
                old(ledger)@,
                versioned_target(old(ledger)@, package_key@, version),
                entry@,
                arguments_view(args@),
            ) == Ok::<ValueView, Error>(value@),
            Err(error) => call_outcome(
                old(ledger)@,
                versioned_target(old(ledger)@, package_key@, version),
                entry@,
                arguments_view(args@),
            ) == Err::<ValueView, Error>(error),
        },
        final(ledger)@ == called(
            old(ledger)@,
            versioned_target(old(ledger)@, package_key@, version),
            entry@,
            arguments_view(args@),
        ),
{
    let target = match resolve_package(ledger, package_key) {
        Err(error) => Err(error),
        Ok(package) => Ok(
            (
                package,
                match version {
                    Some(number) => number,
                    None => ledger.version_count(package),
                },
            ),
        ),
    };
    call_at(ledger, target, entry, args)
}

} // verus!
