//! Storage and versioning core of two upgradable ledger programs.
//!
//! The ledger is an explicit context value: every operation takes it as an
//! argument, and every contract is stated over its mathematical view.

pub mod error;
pub mod decide;
pub mod value;
pub mod handle;
pub mod assoc;
pub mod namespace;
pub mod registry;
pub mod cell;
pub mod ledger;
pub mod handlers;
pub mod manager;
pub mod survey;
pub mod registration;
pub mod dispatch;
pub mod laws;
