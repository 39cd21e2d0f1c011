//! What an invocation makes of what the host answered: each answer is
//! either the value to go on with or the reason to abort.

use vstd::prelude::*;
use vstd::string::StringExecFns;
use crate::error::Error;

verus! {

/// The two lifecycle transitions of a program.
#[derive(Clone, Copy, Debug, PartialEq, Eq, Structural)]
pub enum Lifecycle {
    /// The program is installed for the first time.
    Install,
    /// A new version of an installed program is published.
    Upgrade,
}

/// The transition that a deployment makes, given what the account's
/// namespace holds under the name of the access marker: an installation if
/// it holds nothing, an upgrade otherwise.
pub fn lifecycle<K>(marker: &Option<K>) -> (step: Lifecycle)
    ensures
        step == (if marker is None {
            Lifecycle::Install
        } else {
            Lifecycle::Upgrade
        }),
{
    match marker {
        None => Lifecycle::Install,
        Some(_) => Lifecycle::Upgrade,
    }
}

/// What a lookup by name found, or `MissingKey` if it found nothing.
pub fn require_key<K>(found: Option<K>) -> (outcome: Result<K, Error>)
    ensures
        outcome == (match found {
            Some(key) => Ok::<K, Error>(key),
            None => Err::<K, Error>(Error::MissingKey),
        }),
{
    match found {
        Some(key) => Ok(key),
        None => Err(Error::MissingKey),
    }
}

/// The reference of the required sort that a key held, or
/// `UnexpectedKeyVariant` if the key was of another sort.
pub fn require_variant<R>(reference: Option<R>) -> (outcome: Result<R, Error>)
    ensures
        outcome == (match reference {
            Some(reference) => Ok::<R, Error>(reference),
            None => Err::<R, Error>(Error::UnexpectedKeyVariant),
        }),
{
    match reference {
        Some(reference) => Ok(reference),
        None => Err(Error::UnexpectedKeyVariant),
    }
}

/// The value that a read gave: `ReadFailure` if the cell could not be
/// materialised, `ValueNotFound` if it holds no value of the expected type.
pub fn require_value<T, F>(read: Result<Option<T>, F>) -> (outcome: Result<T, Error>)
    ensures
        outcome == (match read {
            Ok(Some(value)) => Ok::<T, Error>(value),
            Ok(None) => Err::<T, Error>(Error::ValueNotFound),
            Err(_) => Err::<T, Error>(Error::ReadFailure),
        }),
{
    match read {
        Ok(Some(value)) => Ok(value),
        Ok(None) => Err(Error::ValueNotFound),
        Err(_) => Err(Error::ReadFailure),
    }
}

/// The argument that was supplied, or `MissingArgument` if none was.
pub fn require_argument<T>(supplied: Option<T>) -> (outcome: Result<T, Error>)
    ensures
        outcome == (match supplied {
            Some(value) => Ok::<T, Error>(value),
            None => Err::<T, Error>(Error::MissingArgument),
        }),
{
    match supplied {
        Some(value) => Ok(value),
        None => Err(Error::MissingArgument),
    }
}

/// The text that an append starts from: the text that exists, or the empty
/// text where none exists yet.
pub open spec fn so_far(existing: Option<String>) -> Seq<char> {
    match existing {
        Some(text) => text@,
        None => Seq::empty(),
    }
}

/// The text after an append: what exists so far, followed by `incoming`,
/// with nothing between them.
pub fn joined(existing: Option<String>, incoming: &str) -> (text: String)
    ensures
        text@ == so_far(existing) + incoming@,
{
    match existing {
        Some(text) => text.concat(incoming),
        None => incoming.to_owned(),
    }
}

} // verus!
