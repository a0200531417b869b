//! The guard that keeps two imports of one block apart.
//!
//! A block may arrive from several sources at once. Before a source imports
//! it, it claims the block's root here; the claim succeeds for one source at a
//! time, and the root can be claimed again once the handle has been released.

use vstd::prelude::*;
use crate::primitives::Hash256;

verus! {

/// Whether a claim of `root` succeeds while the roots in `held` are claimed.
pub open spec fn claim_succeeds(held: Set<Seq<u8>>, root: Seq<u8>) -> bool {
    !held.contains(root)
}

/// The claimed roots after a claim of `root`, successful or not.
pub open spec fn after_claim(held: Set<Seq<u8>>, root: Seq<u8>) -> Set<Seq<u8>> {
    held.insert(root)
}

/// The claimed roots after the handle for `root` has been released.
pub open spec fn after_release(held: Set<Seq<u8>>, root: Seq<u8>) -> Set<Seq<u8>> {
    held.remove(root)
}

/// The roots whose import is in flight.
#[derive(Debug)]
pub struct DuplicateCache {
    inner: Vec<Hash256>,
}

/// Proof of the exclusive claim on one root.
#[derive(Debug)]
pub struct DuplicateCacheHandle {
    root: Hash256,
}

impl View for DuplicateCacheHandle {
    type V = Seq<u8>;

    closed spec fn view(&self) -> Seq<u8> {
        self.root@
    }
}

impl DuplicateCacheHandle {
    /// The root that this handle holds the claim on.
    pub fn root(&self) -> (root: Hash256)
        ensures
            root@ == self@,
    {
        self.root
    }
}

/// Whether one of `inner` holds the bytes `root`.
spec fn holds(inner: Seq<Hash256>, root: Seq<u8>) -> bool {
    exists|i: int| 0 <= i < inner.len() && (#[trigger] inner[i])@ == root
}

/// Whether no two of `inner` hold the same bytes.
spec fn distinct(inner: Seq<Hash256>) -> bool {
    forall|i: int, j: int|
        0 <= i < inner.len() && 0 <= j < inner.len() && i != j ==> (#[trigger] inner[i])@ != (
        #[trigger] inner[j])@
}

impl View for DuplicateCache {
    type V = Set<Seq<u8>>;

    closed spec fn view(&self) -> Set<Seq<u8>> {
        Set::new(|root: Seq<u8>| holds(self.inner@, root))
    }
}

impl DuplicateCache {
    /// No root is stored twice.
    #[verifier::type_invariant]
    closed spec fn no_root_twice(&self) -> bool {
        distinct(self.inner@)
    }

    /// A cache in which no root is claimed.
    pub fn new() -> (cache: DuplicateCache)
        ensures
            cache@ == Set::<Seq<u8>>::empty(),
    {
        let cache = DuplicateCache { inner: Vec::new() };
        proof {
            assert(cache@ =~= Set::<Seq<u8>>::empty());
        }
        cache
    }

    /// The place of `root` among the claimed roots, if it is claimed.
    fn position(&self, root: &Hash256) -> (place: Option<usize>)
        ensures
            place is Some <==> self@.contains(root@),
            place matches Some(i) ==> i < self.inner@.len() && self.inner@[i as int]@ == root@,
    {
        let mut i: usize = 0;
        while i < self.inner.len()
            invariant
                i <= self.inner@.len(),
                forall|j: int| 0 <= j < i ==> (#[trigger] self.inner@[j])@ != root@,
            decreases self.inner@.len() - i,
        {
            if self.inner[i].same_as(root) {
                return Some(i);
            }
            i = i + 1;
        }
        None
    }

    /// Tells whether `root` is claimed.
    pub fn contains(&self, root: &Hash256) -> (claimed: bool)
        ensures
            claimed == self@.contains(root@),
    {
        self.position(root).is_some()
    }

    /// Claims `root`: returns the handle if no one else holds the claim, and
    /// `None` if someone does. Either way the root is claimed afterwards.
    pub fn check_and_insert(&mut self, root: Hash256) -> (claim: Option<DuplicateCacheHandle>)
        ensures
            claim is Some <==> claim_succeeds(old(self)@, root@),
            claim matches Some(handle) ==> handle@ == root@,
            final(self)@ == after_claim(old(self)@, root@),
    {
        proof {
            use_type_invariant(&*self);
        }
        match self.position(&root) {
            Some(_) => {
                proof {
                    assert(self@ =~= old(self)@.insert(root@));
                }
                None
            },
            None => {
                let ghost before = self.inner@;
                // The roots are taken out whole, changed and put back, so that
                // the cache is never seen with a root stored twice.
                let mut taken = DuplicateCache { inner: Vec::new() };
                core::mem::swap(self, &mut taken);
                let mut inner = taken.inner;
                inner.push(root);
                *self = DuplicateCache { inner };
                proof {
                    assert(forall|i: int| 0 <= i < before.len() ==> self.inner@[i] == before[i]);
                    assert(self.inner@[before.len() as int] == root);
                    assert forall|r: Seq<u8>| self@.contains(r) <==> old(self)@.insert(
                        root@,
                    ).contains(r) by {
                        if holds(before, r) {
                            let i = choose|i: int| 0 <= i < before.len() && (#[trigger] before[i])@ == r;
                            assert(self.inner@[i]@ == r);
                        }
                        if r == root@ {
                            assert(self.inner@[before.len() as int]@ == r);
                        }
                    }
                    assert(self@ =~= old(self)@.insert(root@));
                }
                Some(DuplicateCacheHandle { root })
            },
        }
    }

    /// Gives the claim of `handle` back: its root can be claimed again.
    pub fn release(&mut self, handle: DuplicateCacheHandle)
        ensures
            final(self)@ == after_release(old(self)@, handle@),
    {
        proof {
            use_type_invariant(&*self);
        }
        match self.position(&handle.root) {
            Some(i) => {
                let ghost before = self.inner@;
                let mut taken = DuplicateCache { inner: Vec::new() };
                core::mem::swap(self, &mut taken);
                let mut inner = taken.inner;
                inner.remove(i);
                *self = DuplicateCache { inner };
                proof {
                    assert(self.inner@ == before.remove(i as int));
                    assert forall|r: Seq<u8>| self@.contains(r) <==> old(self)@.remove(
                        handle@,
                    ).contains(r) by {
                        if holds(self.inner@, r) {
                            let j = choose|j: int|
                                0 <= j < self.inner@.len() && (#[trigger] self.inner@[j])@ == r;
                            if j < i {
                                assert(before[j]@ == r);
                            } else {
                                assert(before[j + 1]@ == r);
                            }
                        }
                        if holds(before, r) && r != handle@ {
                            let j = choose|j: int| 0 <= j < before.len() && (#[trigger] before[j])@ == r;
                            if j < i {
                                assert(self.inner@[j]@ == r);
                            } else {
                                assert(self.inner@[j - 1]@ == r);
                            }
                        }
                    }
                    assert(self@ =~= old(self)@.remove(handle@));
                }
            },
            None => {
                proof {
                    assert(self@ =~= old(self)@.remove(handle@));
                }
            },
        }
    }
}

/// Of two claims of one root in a row, exactly the first succeeds, if the
/// root was free before; and once the handle is released, the next claim
/// succeeds again.
pub proof fn claim_is_exclusive_until_released(held: Set<Seq<u8>>, root: Seq<u8>)
    requires
        claim_succeeds(held, root),
    ensures
        !claim_succeeds(after_claim(held, root), root),
        claim_succeeds(after_release(after_claim(held, root), root), root),
        after_release(after_claim(held, root), root) == held,
{
    assert(after_release(after_claim(held, root), root) =~= held);
}

/// A claim or a release of one root leaves every other root as it was.
pub proof fn other_roots_are_untouched(held: Set<Seq<u8>>, root: Seq<u8>, other: Seq<u8>)
    requires
        other != root,
    ensures
        after_claim(held, root).contains(other) == held.contains(other),
        after_release(held, root).contains(other) == held.contains(other),
{
}

} // verus!
