use crate::record::IdentifiedAddress;
use vstd::prelude::*;

verus! {

/// Whether an identification call runs the remote strategy: it must be
/// configured, and the local one must either be absent or have returned
/// fewer records than there are nodes in the batch.
///
/// The test compares raw counts, not distinct addresses: a local result with
/// duplicates may skip the remote strategy although some address is still
/// unknown, and one that covers every distinct address with fewer records
/// than nodes still runs it.
pub open spec fn consults_remote(has_local: bool, has_remote: bool, local_len: nat, n_nodes: nat) -> bool {
    has_remote && (!has_local || local_len < n_nodes)
}

/// The records of a strategy that ran, or nothing for one that did not.
pub open spec fn yielded(ran: bool, found: Seq<IdentifiedAddress>) -> Seq<IdentifiedAddress> {
    if ran {
        found
    } else {
        Seq::empty()
    }
}

/// The records that one identification call returns over a batch of
/// `n_nodes` nodes, where `local` is what the local strategy returns and
/// `remote` what the remote one returns, each counting only if its slot is
/// configured and it runs: the local records first, then the remote ones,
/// neither reordered nor deduplicated.
pub open spec fn orchestrated(
    has_local: bool,
    has_remote: bool,
    local: Seq<IdentifiedAddress>,
    remote: Seq<IdentifiedAddress>,
    n_nodes: nat,
) -> Seq<IdentifiedAddress> {
    yielded(has_local, local) + yielded(consults_remote(has_local, has_remote, local.len(), n_nodes), remote)
}

/// Appends the records that one strategy `found` to those gathered so far,
/// and tells whether they still fall short of the `n_nodes` nodes of the
/// batch, so that the next strategy is wanted.
pub fn gather(identities: &mut Vec<IdentifiedAddress>, found: Vec<IdentifiedAddress>, n_nodes: usize) -> (more: bool)
    ensures
        final(identities)@ == old(identities)@ + found@,
        more == (final(identities)@.len() < n_nodes),
{
    let mut found = found;
    identities.append(&mut found);
    identities.len() < n_nodes
}

/// With neither strategy configured, a call returns no records, whatever the
/// batch.
pub proof fn lemma_nothing_configured(local: Seq<IdentifiedAddress>, remote: Seq<IdentifiedAddress>, n_nodes: nat)
    ensures
        !consults_remote(false, false, local.len(), n_nodes),
        orchestrated(false, false, local, remote, n_nodes) == Seq::<IdentifiedAddress>::empty(),
{
    assert(orchestrated(false, false, local, remote, n_nodes) =~= Seq::<IdentifiedAddress>::empty());
}

/// Once the local strategy returns at least as many records as the batch has
/// nodes, the remote strategy is not run, and the call returns exactly the
/// local records.
pub proof fn lemma_local_short_circuits(
    has_remote: bool,
    local: Seq<IdentifiedAddress>,
    remote: Seq<IdentifiedAddress>,
    n_nodes: nat,
)
    requires
        local.len() >= n_nodes,
    ensures
        !consults_remote(true, has_remote, local.len(), n_nodes),
        orchestrated(true, has_remote, local, remote, n_nodes) == local,
{
    assert(orchestrated(true, has_remote, local, remote, n_nodes) =~= local);
}

/// A remote strategy without a local one always runs, for every batch size,
/// the empty batch included, and the call returns exactly its records.
pub proof fn lemma_remote_alone_runs(local: Seq<IdentifiedAddress>, remote: Seq<IdentifiedAddress>, n_nodes: nat)
    ensures
        consults_remote(false, true, local.len(), n_nodes),
        orchestrated(false, true, local, remote, n_nodes) == remote,
{
    assert(orchestrated(false, true, local, remote, n_nodes) =~= remote);
}

/// The result of a call is the records of each strategy that ran, local
/// first, in the order each returned them: its length is the sum of theirs,
/// and nothing is dropped, added or reordered.
pub proof fn lemma_merge_concatenates(
    has_local: bool,
    has_remote: bool,
    local: Seq<IdentifiedAddress>,
    remote: Seq<IdentifiedAddress>,
    n_nodes: nat,
)
    ensures
        ({
            let first = yielded(has_local, local);
            let second = yielded(consults_remote(has_local, has_remote, local.len(), n_nodes), remote);
            let r = orchestrated(has_local, has_remote, local, remote, n_nodes);
            &&& r.len() == first.len() + second.len()
            &&& forall|i: int| 0 <= i < first.len() ==> r[i] == first[i]
            &&& forall|i: int| 0 <= i < second.len() ==> r[first.len() + i] == second[i]
        }),
{
}

/// Without a remote slot, a call returns the local records, if a local
/// strategy is configured, and nothing otherwise.
pub proof fn lemma_without_remote(
    has_local: bool,
    local: Seq<IdentifiedAddress>,
    remote: Seq<IdentifiedAddress>,
    n_nodes: nat,
)
    ensures
        !consults_remote(has_local, false, local.len(), n_nodes),
        orchestrated(has_local, false, local, remote, n_nodes) == yielded(has_local, local),
{
    assert(orchestrated(has_local, false, local, remote, n_nodes) =~= yielded(has_local, local));
}

} // verus!
