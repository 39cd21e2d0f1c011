//! Typed values: what a storage cell holds, what an entry point takes and returns.

use vstd::prelude::*;

verus! {

/// The declared type of a value.
#[derive(Clone, Copy, Debug, PartialEq, Eq, Structural)]
pub enum ValueType {
    /// No value at all.
    Unit,
    /// A 32-bit signed integer.
    Int,
    /// Text.
    Text,
    /// A version number.
    Count,
}

/// A typed value.
#[derive(Clone, Debug, PartialEq, Eq)]
pub enum Value {
    Unit,
    Int(i32),
    Text(String),
    Count(u64),
}

/// The mathematical content of a [`Value`].
pub ghost enum ValueView {
    Unit,
    Int(i32),
    Text(Seq<char>),
    Count(u64),
}

impl ValueView {
    /// The declared type of the value.
    pub open spec fn kind(self) -> ValueType {
        match self {
            ValueView::Unit => ValueType::Unit,
            ValueView::Int(_) => ValueType::Int,
            ValueView::Text(_) => ValueType::Text,
            ValueView::Count(_) => ValueType::Count,
        }
    }
}

impl View for Value {
    type V = ValueView;

    open spec fn view(&self) -> ValueView {
        match *self {
            Value::Unit => ValueView::Unit,
            Value::Int(n) => ValueView::Int(n),
            Value::Text(text) => ValueView::Text(text@),
            Value::Count(n) => ValueView::Count(n),
        }
    }
}

impl Value {
    /// The declared type of the value.
    pub fn kind(&self) -> (kind: ValueType)
        ensures
            kind == self@.kind(),
    {
        match self {
            Value::Unit => ValueType::Unit,
            Value::Int(_) => ValueType::Int,
            Value::Text(_) => ValueType::Text,
            Value::Count(_) => ValueType::Count,
        }
    }

    /// A copy with the same content.
    pub fn duplicate(&self) -> (copy: Value)
        ensures
            copy@ == self@,
    {
        match self {
            Value::Unit => Value::Unit,
            Value::Int(n) => Value::Int(*n),
            Value::Text(text) => Value::Text(text.clone()),
            Value::Count(n) => Value::Count(*n),
        }
    }
}

/// The identity of an account: 32 bytes.
#[derive(Clone, Copy, Debug, PartialEq, Eq)]
pub struct AccountHash {
    bytes: [u8; 32],
}

impl View for AccountHash {
    type V = Seq<u8>;

    closed spec fn view(&self) -> Seq<u8> {
        self.bytes@
    }
}

impl AccountHash {
    /// The identity made of `bytes`.
    pub fn new(bytes: [u8; 32]) -> (hash: AccountHash)
        ensures
            hash@ == bytes@,
    {
        AccountHash { bytes }
    }

    /// The 32 bytes of the identity.
    pub fn value(&self) -> (bytes: [u8; 32])
        ensures
            bytes@ == self@,
    {
        self.bytes
    }

    /// Whether two identities hold the same bytes.
    pub fn same(&self, other: &AccountHash) -> (equal: bool)
        ensures
            equal == (self@ == other@),
    {
        let mut i: usize = 0;
        while i < 32
            invariant
                0 <= i <= 32,
                forall|j: int| 0 <= j < i ==> self.bytes@[j] == other.bytes@[j],
            decreases 32 - i,
        {
            if self.bytes[i] != other.bytes[i] {
                return false;
            }
            i += 1;
        }
        assert(self.bytes@ =~= other.bytes@);
        true
    }
}

/// The bytes of an identity that may be absent.
pub open spec fn identity_view(identity: Option<AccountHash>) -> Option<Seq<u8>> {
    match identity {
        Some(hash) => Some(hash@),
        None => None,
    }
}

} // verus!
