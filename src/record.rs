use alloy_json_abi::JsonAbi;
use alloy_primitives::Address;
use vstd::prelude::*;

verus! {

/// alloy_primitives::Address, carried through records and nodes unread.
#[verifier::external_type_specification]
#[verifier::external_body]
pub struct ExAddress(Address);

/// alloy_json_abi::JsonAbi, carried through records unread.
#[verifier::external_type_specification]
#[verifier::external_body]
pub struct ExJsonAbi(JsonAbi);

/// One recorded invocation within an execution trace. Identification only
/// reads it.
pub struct CallTraceNode {
    /// The invoked address.
    pub address: Address,
}

/// An address identified by a [`crate::TraceIdentifier`].
pub struct IdentifiedAddress {
    /// The address.
    pub address: Address,
    /// The label for the address.
    pub label: Option<String>,
    /// The contract this address represents.
    ///
    /// Note: This may be in the format `"<artifact>:<contract>"`.
    pub contract: Option<String>,
    /// The ABI of the contract at this address, always an owned copy.
    pub abi: Option<JsonAbi>,
    /// The identifier of the artifact that produced the contract, if any.
    pub artifact_id: Option<String>,
}

impl CallTraceNode {
    /// A node that invokes `address`.
    pub fn new(address: Address) -> (r: Self)
        ensures
            r.address == address,
    {
        CallTraceNode { address }
    }
}

} // verus!
