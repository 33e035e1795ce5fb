//! Membership verification for binary Merkle trees.
//!
//! The verifier recomputes the root from a leaf, a sibling path and
//! direction bits.  It never constructs or updates a tree: maintenance and
//! proof generation belong to an external collaborator.

use vstd::prelude::*;

use crate::byteutil::{bytes_eq, push_bytes};
use crate::hashing::{sha256, sha256_of};

verus! {

/// One step towards the root: hash the current node with its sibling, the
/// current node standing on the side its direction bit says.
pub open spec fn merkle_step(current: Seq<u8>, sibling: Seq<u8>, current_is_right: bool) -> Seq<
    u8,
> {
    if current_is_right {
        sha256_of(sibling + current)
    } else {
        sha256_of(current + sibling)
    }
}

/// The root reached from `leaf` by hashing along `path` with direction bits
/// `indices`, in root-ward order (first element is the level next to the
/// leaf).
pub open spec fn merkle_root_of(leaf: Seq<u8>, path: Seq<Seq<u8>>, indices: Seq<bool>) -> Seq<u8>
    recommends
        path.len() == indices.len(),
    decreases path.len(),
{
    if path.len() == 0 {
        leaf
    } else {
        merkle_step(
            merkle_root_of(leaf, path.drop_last(), indices.drop_last()),
            path.last(),
            indices.last(),
        )
    }
}

/// A claimed membership proof: the leaf, the sibling digest at each level,
/// and at each level whether the current node is the left child (`false`)
/// or the right child (`true`).
#[derive(Clone, Debug)]
pub struct MerkleProof {
    pub leaf: [u8; 32],
    pub path: Vec<[u8; 32]>,
    pub indices: Vec<bool>,
}

impl MerkleProof {
    /// The path and the direction bits must pair up, one of each per level.
    pub open spec fn wf(self) -> bool {
        self.path@.len() == self.indices@.len()
    }

    /// The sibling path as plain byte sequences.
    pub open spec fn path_digests(self) -> Seq<Seq<u8>> {
        self.path@.map_values(|node: [u8; 32]| node@)
    }

    /// The root this proof recomputes from its leaf.
    pub open spec fn computed_root(self) -> Seq<u8> {
        merkle_root_of(self.leaf@, self.path_digests(), self.indices@)
    }

    /// Accepts exactly the proofs whose path and direction bits pair up and
    /// whose recomputed root equals `root`.  A depth-0 proof therefore
    /// verifies exactly when `leaf == root`; a length mismatch between path
    /// and direction bits is rejected outright.
    pub fn verify(&self, root: &[u8; 32]) -> (accepted: bool)
        ensures
            accepted == (self.wf() && self.computed_root() == root@),
    {
        if self.path.len() != self.indices.len() {
            return false;
        }
        let mut current: [u8; 32] = self.leaf;
        let mut i: usize = 0;
        while i < self.path.len()
            invariant
                self.wf(),
                i <= self.path@.len(),
                current@ == merkle_root_of(
                    self.leaf@,
                    self.path_digests().take(i as int),
                    self.indices@.take(i as int),
                ),
            decreases self.path@.len() - i,
        {
            let sibling: &[u8; 32] = &self.path[i];
            let mut joined: Vec<u8> = Vec::new();
            if self.indices[i] {
                push_bytes(&mut joined, sibling.as_slice());
                push_bytes(&mut joined, current.as_slice());
            } else {
                push_bytes(&mut joined, current.as_slice());
                push_bytes(&mut joined, sibling.as_slice());
            }
            let next = sha256(joined.as_slice());
            proof {
                let digests = self.path_digests();
                assert(digests.take(i + 1).drop_last() =~= digests.take(i as int));
                assert(self.indices@.take(i + 1).drop_last() =~= self.indices@.take(i as int));
                assert(digests.take(i + 1).last() == digests[i as int]);
                assert(digests[i as int] == self.path@[i as int]@);
            }
            current = next;
            i = i + 1;
        }
        proof {
            assert(self.path_digests().take(self.path@.len() as int) =~= self.path_digests());
            assert(self.indices@.take(self.indices@.len() as int) =~= self.indices@);
        }
        bytes_eq(&current, root)
    }
}

} // verus!
