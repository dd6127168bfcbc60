//! The attribute record kept by the ledger runtime, and its transport form.
use vstd::prelude::*;

verus! {

/// An attribute as the ledger runtime stores it for an account.
#[derive(Debug, Clone, PartialEq, Eq)]
pub struct Attribute<BlockNumber, Moment> {
    /// The attribute's key within its account's namespace.
    pub name: Vec<u8>,
    /// The opaque payload.
    pub value: Vec<u8>,
    /// The ledger height that bounds the attribute's validity.
    pub validity: BlockNumber,
    /// The ledger timestamp at which the attribute was written.
    pub created: Moment,
}

/// The transport-safe form of an attribute, as handed to the caller of a query.
#[derive(Debug, Clone, PartialEq, Eq)]
pub struct RPCAttribute<BlockNumber, Moment> {
    pub name: Vec<u8>,
    pub value: Vec<u8>,
    pub validity: BlockNumber,
    pub created: Moment,
}

/// The transport form of a record: every field carried over unchanged.
pub open spec fn transport_of<BlockNumber, Moment>(
    item: Attribute<BlockNumber, Moment>,
) -> RPCAttribute<BlockNumber, Moment> {
    RPCAttribute {
        name: item.name,
        value: item.value,
        validity: item.validity,
        created: item.created,
    }
}

impl<BlockNumber, Moment> From<Attribute<BlockNumber, Moment>> for RPCAttribute<BlockNumber, Moment> {
    fn from(item: Attribute<BlockNumber, Moment>) -> (r: Self) {
        RPCAttribute {
            name: item.name,
            value: item.value,
            validity: item.validity,
            created: item.created,
        }
    }
}

impl<BlockNumber, Moment> vstd::std_specs::convert::FromSpecImpl<Attribute<BlockNumber, Moment>> for RPCAttribute<BlockNumber, Moment> {
    open spec fn obeys_from_spec() -> bool {
        true
    }

    open spec fn from_spec(item: Attribute<BlockNumber, Moment>) -> Self {
        transport_of(item)
    }
}

} // verus!
