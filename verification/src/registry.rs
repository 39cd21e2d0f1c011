//! The entry-point registry: which operations one version of a program
//! exposes, under which names and with which signatures.

use casper_types::contracts::{EntryPoint, EntryPointAccess, EntryPointType, EntryPoints};
use casper_types::contracts::Parameter as HostParameter;
use casper_types::CLType;
use vstd::prelude::*;
use crate::value::ValueType;

verus! {

/// The entry-point table of one version: the collection that the host takes.
#[verifier::external_type_specification]
#[verifier::external_body]
pub struct ExEntryPoints(EntryPoints);

/// Who may call an entry point.
#[derive(Clone, Copy, Debug, PartialEq, Eq, Structural)]
pub enum Access {
    /// Anyone.
    Public,
    /// Only callers that were given the right.
    Restricted,
}

/// Which version answers a call of an entry point.
#[derive(Clone, Copy, Debug, PartialEq, Eq, Structural)]
pub enum Binding {
    /// The version that declares it.
    Version,
    /// Whichever version is the latest.
    Latest,
}

/// A formal argument: its name and declared type.
#[derive(Clone, Debug, PartialEq, Eq)]
pub struct Parameter {
    pub name: String,
    pub ty: ValueType,
}

/// No formal arguments.
pub fn no_parameters() -> (args: Vec<Parameter>)
    ensures
        parameters_view(args@) == Seq::<(Seq<char>, ValueType)>::empty(),
{
    Vec::new()
}

/// The one formal argument `name` of type `ty`.
pub fn one_parameter(name: &str, ty: ValueType) -> (args: Vec<Parameter>)
    ensures
        parameters_view(args@) == seq![(name@, ty)],
{
    let mut args: Vec<Parameter> = Vec::new();
    args.push(Parameter::new(name, ty));
    args
}

impl Parameter {
    /// The formal argument `name` of type `ty`.
    pub fn new(name: &str, ty: ValueType) -> (parameter: Parameter)
        ensures
            parameter.name@ == name@,
            parameter.ty == ty,
    {
        Parameter { name: name.to_owned(), ty }
    }
}

/// The names and types of a list of formal arguments, in order.
pub open spec fn parameters_view(args: Seq<Parameter>) -> Seq<(Seq<char>, ValueType)> {
    Seq::new(args.len(), |i: int| (args[i].name@, args[i].ty))
}

/// The declaration of one entry point.
#[derive(Clone, Debug, PartialEq, Eq)]
pub struct EntryPointSpec {
    pub name: String,
    pub args: Vec<Parameter>,
    pub ret: ValueType,
    pub access: Access,
    pub binding: Binding,
}

/// The mathematical content of an [`EntryPointSpec`].
pub ghost struct EntryPointView {
    pub name: Seq<char>,
    pub args: Seq<(Seq<char>, ValueType)>,
    pub ret: ValueType,
    pub access: Access,
    pub binding: Binding,
}

impl View for EntryPointSpec {
    type V = EntryPointView;

    open spec fn view(&self) -> EntryPointView {
        EntryPointView {
            name: self.name@,
            args: parameters_view(self.args@),
            ret: self.ret,
            access: self.access,
            binding: self.binding,
        }
    }
}

/// The declaration of an entry point that anyone may call and that belongs
/// to the version that declares it.
pub open spec fn public_entry(name: Seq<char>, args: Seq<(Seq<char>, ValueType)>, ret: ValueType) -> EntryPointView {
    EntryPointView { name, args, ret, access: Access::Public, binding: Binding::Version }
}

impl EntryPointSpec {
    /// The declaration of the entry point `name`, which anyone may call and
    /// which belongs to the version that declares it.
    pub fn public(name: &str, args: Vec<Parameter>, ret: ValueType) -> (spec: EntryPointSpec)
        ensures
            spec.name@ == name@,
            spec@ == public_entry(name@, parameters_view(args@), ret),
    {
        EntryPointSpec::new(name, args, ret, Access::Public, Binding::Version)
    }

    /// The declaration of the entry point `name`.
    pub fn new(name: &str, args: Vec<Parameter>, ret: ValueType, access: Access, binding: Binding) -> (spec:
        EntryPointSpec)
        ensures
            spec.name@ == name@,
            spec.args == args,
            spec.ret == ret,
            spec.access == access,
            spec.binding == binding,
    {
        EntryPointSpec { name: name.to_owned(), args, ret, access, binding }
    }
}

/// The content of an entry-point table: a declaration under each name that
/// the table declares.
pub type TableView = Map<Seq<char>, EntryPointView>;

/// What an entry-point table holds: under each name that it declares, the
/// declaration of that name.
pub uninterp spec fn declared(table: EntryPoints) -> Map<Seq<char>, EntryPointView>;

/// Calls `EntryPoints::new`. Trusted: the new table declares nothing.
#[verifier::external_body]
pub(crate) fn new_table() -> (table: EntryPoints)
    ensures
        declared(table) == TableView::empty(),
{
    EntryPoints::new()
}

/// Calls `EntryPoints::add_entry_point` with the `EntryPoint` that
/// `EntryPoint::new` makes of `spec`. Trusted: the table then holds the
/// declaration under its own name, in place of an earlier one of that name,
/// and holds under every other name what it held before. The types become
/// `Unit`, `I32`, `String` and `U64`; public access stays public, and
/// restricted access becomes access for no group; an entry point bound to
/// its version runs in the contract's context, a floating one as session code.
#[verifier::external_body]
pub(crate) fn declare(table: &mut EntryPoints, spec: &EntryPointSpec)
    ensures
        declared(*final(table)) == declared(*old(table)).insert(spec.name@, spec@),
{
    let ty = |t: ValueType| match t {
        ValueType::Unit => CLType::Unit, ValueType::Int => CLType::I32,
        ValueType::Text => CLType::String, ValueType::Count => CLType::U64,
    };
    let args = spec.args.iter().map(|p| HostParameter::new(p.name.as_str(), ty(p.ty))).collect();
    let access = match spec.access {
        Access::Public => EntryPointAccess::Public,
        Access::Restricted => EntryPointAccess::Groups(Vec::new()),
    };
    let binding = match spec.binding {
        Binding::Version => EntryPointType::Contract, Binding::Latest => EntryPointType::Session,
    };
    table.add_entry_point(EntryPoint::new(spec.name.as_str(), args, ty(spec.ret), access, binding));
}

/// Calls `EntryPoints::has_entry_point`. Trusted: it tells whether the table
/// holds a declaration under `name`.
#[verifier::external_body]
pub(crate) fn declares(table: &EntryPoints, name: &str) -> (found: bool)
    ensures
        found == declared(*table).contains_key(name@),
{
    table.has_entry_point(name)
}

} // verus!
