//! Identities and tags that the worker carries through.

use vstd::prelude::*;

verus! {

/// Identifier of a range-sync chain.
pub type ChainId = u64;

/// Number of an epoch.
pub type Epoch = u64;

/// Number of a slot.
pub type Slot = u64;

/// A 32-byte root, the canonical identity of a block.
#[derive(Clone, Copy, Debug, PartialEq, Eq, Hash)]
pub struct Hash256 {
    pub bytes: [u8; 32],
}

impl View for Hash256 {
    type V = Seq<u8>;

    open spec fn view(&self) -> Seq<u8> {
        self.bytes@
    }
}

impl Hash256 {
    /// Wraps 32 bytes as a root.
    pub fn new(bytes: [u8; 32]) -> (root: Hash256)
        ensures
            root@ == bytes@,
    {
        Hash256 { bytes }
    }

    /// Tells whether two roots hold the same bytes.
    pub fn same_as(&self, other: &Hash256) -> (same: bool)
        ensures
            same == (self@ == other@),
    {
        let mut i: usize = 0;
        while i < 32
            invariant
                i <= 32,
                forall|j: int| 0 <= j < i ==> self@[j] == other@[j],
            decreases 32 - i,
        {
            if self.bytes[i] != other.bytes[i] {
                return false;
            }
            i = i + 1;
        }
        proof {
            assert(self@ =~= other@);
        }
        true
    }
}

/// Identity of a peer on the network, as its opaque bytes.
#[derive(Clone, Debug, PartialEq, Eq, Hash)]
pub struct PeerId {
    pub bytes: Vec<u8>,
}

impl View for PeerId {
    type V = Seq<u8>;

    open spec fn view(&self) -> Seq<u8> {
        self.bytes@
    }
}

/// Severity of the penalty that a peer receives for a fault.
#[derive(Clone, Copy, Debug, PartialEq, Eq, Structural)]
pub enum PeerAction {
    /// The peer is banned at once.
    Fatal,
    /// A fault that is tolerated only a few times.
    LowToleranceError,
    /// A fault that is tolerated some times.
    MidToleranceError,
    /// A fault that is tolerated many times.
    HighToleranceError,
}

/// Why a unit of work was fetched, and which answer its requester expects.
#[derive(Clone, Debug, PartialEq)]
pub enum ProcessId {
    /// A batch of a range-sync chain.
    RangeBatchId(ChainId, Epoch),
    /// A batch of the backfill sync.
    BackSyncBatchId(Epoch),
    /// The chain of ancestors of a block, requested from a peer.
    ParentLookup(PeerId, Hash256),
}

} // verus!
