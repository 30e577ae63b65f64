use crate::record::{CallTraceNode, IdentifiedAddress};
use vstd::prelude::*;

verus! {

/// Trace identifiers figure out what ABIs and labels belong to all the
/// addresses of the trace.
///
/// An implementation never fails: what it cannot resolve, it leaves out of
/// the returned records. It may keep caches or other state between calls.
pub trait TraceIdentifier: Sized {
    /// Whether one call on `nodes` may take the identifier from state
    /// `before` to state `after` and return `records`. Unless an
    /// implementation says more, anything may happen.
    open spec fn identifies(before: Self, after: Self, nodes: Seq<&CallTraceNode>, records: Seq<IdentifiedAddress>) -> bool {
        true
    }

    /// Attempts to identify an address in one or more call traces.
    fn identify_addresses(&mut self, nodes: &[&CallTraceNode]) -> (r: Vec<IdentifiedAddress>)
        ensures
            Self::identifies(*old(self), *final(self), nodes@, r@),
    ;
}

/// A local identifier that can additionally match the deployed bytecode of
/// addresses against the caller's compiled artifacts.
pub trait BytecodeMatching<B>: Sized {
    /// The identifier `this`, extended with the mapping `contracts_bytecode`.
    spec fn bytecoded(this: Self, contracts_bytecode: B) -> Self;

    /// This identifier, extended with the address-to-bytecode mapping.
    fn with_bytecodes(self, contracts_bytecode: B) -> (r: Self)
        ensures
            r == Self::bytecoded(self, contracts_bytecode),
    ;
}

} // verus!
