use crate::policy::{consults_remote, gather, orchestrated};
use crate::record::{CallTraceNode, IdentifiedAddress};
use crate::strategy::{BytecodeMatching, TraceIdentifier};
use vstd::prelude::*;

verus! {

/// A collection of trace identifiers: a local one, run first, and a remote
/// one, run only when the local one looks insufficient.
pub struct TraceIdentifiers<L, R> {
    /// The local trace identifier.
    pub local: Option<L>,
    /// The optional Etherscan trace identifier.
    pub etherscan: Option<R>,
}

impl<L, R> Default for TraceIdentifiers<L, R> {
    fn default() -> (r: Self)
        ensures
            r.local.is_none(),
            r.etherscan.is_none(),
    {
        Self::new()
    }
}

impl<L: TraceIdentifier, R: TraceIdentifier> TraceIdentifier for TraceIdentifiers<L, R> {
    /// Runs the local identifier, then the remote one unless the local
    /// records already number at least as many as the nodes; returns the
    /// records of both, local first, as they came. The remote identifier is
    /// left untouched when it does not run.
    /// One call: the local identifier runs if configured; the remote one
    /// runs if configured and the local one is absent or returned fewer
    /// records than there are nodes; the records are the local ones, then
    /// the remote ones. An identifier that does not run keeps its state.
    open spec fn identifies(
        before: Self,
        after: Self,
        nodes: Seq<&CallTraceNode>,
        records: Seq<IdentifiedAddress>,
    ) -> bool {
        exists|local: Seq<IdentifiedAddress>, remote: Seq<IdentifiedAddress>|
            {
                &&& records == #[trigger] orchestrated(
                    before.local.is_some(),
                    before.etherscan.is_some(),
                    local,
                    remote,
                    nodes.len(),
                )
                &&& match before.local {
                    Some(l) => after.local.is_some() && L::identifies(l, after.local.unwrap(), nodes, local),
                    None => after.local.is_none(),
                }
                &&& if consults_remote(before.local.is_some(), before.etherscan.is_some(), local.len(), nodes.len()) {
                    after.etherscan.is_some() && R::identifies(
                        before.etherscan.unwrap(),
                        after.etherscan.unwrap(),
                        nodes,
                        remote,
                    )
                } else {
                    after.etherscan == before.etherscan
                }
            }
    }

    /// Runs the local identifier, then the remote one unless the local
    /// records already number at least as many as the nodes; returns the
    /// records of both, local first, as they came. The remote identifier is
    /// left untouched when it does not run.
    fn identify_addresses(&mut self, nodes: &[&CallTraceNode]) -> (r: Vec<IdentifiedAddress>)
        ensures
            final(self).local.is_some() == old(self).local.is_some(),
            final(self).etherscan.is_some() == old(self).etherscan.is_some(),
            old(self).local.is_none() && old(self).etherscan.is_none() ==> r@.len() == 0,
    {
        let n_nodes = nodes.len();
        let mut identities: Vec<IdentifiedAddress> = Vec::with_capacity(n_nodes);
        let ghost mut local_found: Seq<IdentifiedAddress> = Seq::empty();
        let ghost mut remote_found: Seq<IdentifiedAddress> = Seq::empty();
        let mut wants_remote = true;
        if let Some(local) = &mut self.local {
            let found = local.identify_addresses(nodes);
            proof {
                local_found = found@;
            }
            wants_remote = gather(&mut identities, found, n_nodes);
        }
        if wants_remote {
            if let Some(etherscan) = &mut self.etherscan {
                let found = etherscan.identify_addresses(nodes);
                proof {
                    remote_found = found@;
                }
                gather(&mut identities, found, n_nodes);
            }
        }
        assert(identities@ =~= orchestrated(
            old(self).local.is_some(),
            old(self).etherscan.is_some(),
            local_found,
            remote_found,
            n_nodes as nat,
        ));
        identities
    }
}

impl<L, R> TraceIdentifiers<L, R> {
    /// Creates a new, empty instance.
    pub fn new() -> (r: Self)
        ensures
            r.local.is_none(),
            r.etherscan.is_none(),
    {
        Self { local: None, etherscan: None }
    }

    /// Sets the local identifier.
    pub fn with_local(self, local: L) -> (r: Self)
        ensures
            r.local == Some(local),
            r.etherscan == self.etherscan,
    {
        let mut this = self;
        this.local = Some(local);
        this
    }

    /// Sets the local identifier, which also matches deployed bytecode
    /// against the given mapping.
    pub fn with_local_and_bytecodes<B>(self, local: L, contracts_bytecode: B) -> (r: Self)
        where
            L: BytecodeMatching<B>,
        ensures
            r.local == Some(L::bytecoded(local, contracts_bytecode)),
            r.etherscan == self.etherscan,
    {
        let mut this = self;
        this.local = Some(local.with_bytecodes(contracts_bytecode));
        this
    }

    /// Sets the etherscan identifier from the outcome of building it: a
    /// chain without a supported explorer gives `Ok(None)` and leaves the
    /// slot empty, any other failure is handed back as it is.
    pub fn with_etherscan<E>(self, etherscan: Result<Option<R>, E>) -> (r: Result<Self, E>)
        ensures
            match etherscan {
                Ok(slot) => r == Ok::<Self, E>(Self { local: self.local, etherscan: slot }),
                Err(e) => r == Err::<Self, E>(e),
            },
    {
        let mut this = self;
        match etherscan {
            Ok(slot) => {
                this.etherscan = slot;
                Ok(this)
            },
            Err(e) => Err(e),
        }
    }

    /// Returns `true` if there are no set identifiers.
    pub fn is_empty(&self) -> (r: bool)
        ensures
            r == (self.local.is_none() && self.etherscan.is_none()),
    {
        self.local.is_none() && self.etherscan.is_none()
    }
}

/// In a call with a local identifier configured, the local identifier ran on
/// the nodes and returned some records; if those are at least as many as the
/// nodes, the remote identifier kept its state and the call returned exactly
/// those records, and otherwise the call returned them followed by those of
/// the remote identifier, if one ran.
pub proof fn lemma_local_decides<L: TraceIdentifier, R: TraceIdentifier>(
    before: TraceIdentifiers<L, R>,
    after: TraceIdentifiers<L, R>,
    nodes: Seq<&CallTraceNode>,
    records: Seq<IdentifiedAddress>,
)
    requires
        TraceIdentifiers::<L, R>::identifies(before, after, nodes, records),
        before.local.is_some(),
    ensures
        exists|local: Seq<IdentifiedAddress>|
            {
                &&& #[trigger] L::identifies(before.local.unwrap(), after.local.unwrap(), nodes, local)
                &&& local.len() >= nodes.len() ==> after.etherscan == before.etherscan && records == local
                &&& local.len() < nodes.len() ==> (records == local || exists|remote: Seq<IdentifiedAddress>|
                    R::identifies(before.etherscan.unwrap(), after.etherscan.unwrap(), nodes, remote)
                        && #[trigger] (local + remote) == records)
            },
{
    let (local, remote) = choose|local: Seq<IdentifiedAddress>, remote: Seq<IdentifiedAddress>|
        {
            &&& records == #[trigger] orchestrated(
                before.local.is_some(),
                before.etherscan.is_some(),
                local,
                remote,
                nodes.len(),
            )
            &&& match before.local {
                Some(l) => after.local.is_some() && L::identifies(l, after.local.unwrap(), nodes, local),
                None => after.local.is_none(),
            }
            &&& if consults_remote(before.local.is_some(), before.etherscan.is_some(), local.len(), nodes.len()) {
                after.etherscan.is_some() && R::identifies(
                    before.etherscan.unwrap(),
                    after.etherscan.unwrap(),
                    nodes,
                    remote,
                )
            } else {
                after.etherscan == before.etherscan
            }
        };
    assert(local + Seq::<IdentifiedAddress>::empty() =~= local);
    assert(L::identifies(before.local.unwrap(), after.local.unwrap(), nodes, local));
}

} // verus!
