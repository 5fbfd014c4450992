//! The validator set of a run: peers at addresses `0..size`, in order.
use vstd::prelude::*;

use crate::peer::BasePeer;
use crate::signing_scheme::PublicKey;

verus! {

/// An ordered, fixed set of validators.
#[derive(Clone, Debug)]
pub struct BasePeerSet {
    pub peers: Vec<BasePeer>,
}

impl BasePeerSet {
    /// The peers at positions `0..size`, each with address its position and
    /// verification key `public_key`.
    pub open spec fn is_uniform(self, size: nat, public_key: Seq<u8>) -> bool {
        &&& self.peers@.len() == size
        &&& forall|i: int|
            0 <= i < size ==> {
                &&& (#[trigger] self.peers@[i]).id.0 == i
                &&& self.peers@[i].public_key@ == public_key
            }
    }

    /// The set of `size` peers with addresses `0..size`, all of which share
    /// the verification key `public_key`.
    pub fn new(size: u32, public_key: PublicKey) -> (r: BasePeerSet)
        ensures
            r.is_uniform(size as nat, public_key@),
    {
        let mut peers: Vec<BasePeer> = Vec::new();
        let mut i: u32 = 0;
        while i < size
            invariant
                i <= size,
                (BasePeerSet { peers }).is_uniform(i as nat, public_key@),
            decreases size - i,
        {
            peers.push(BasePeer::new(i, public_key.clone()));
            i = i + 1;
        }
        BasePeerSet { peers }
    }

    /// A copy of this set: the same addresses and keys, in the same order.
    pub fn clone_set(&self) -> (r: BasePeerSet)
        ensures
            r.peers@.len() == self.peers@.len(),
            forall|i: int|
                0 <= i < self.peers@.len() ==> {
                    &&& (#[trigger] r.peers@[i]).id == self.peers@[i].id
                    &&& r.peers@[i].public_key@ == self.peers@[i].public_key@
                },
    {
        let mut peers: Vec<BasePeer> = Vec::new();
        let mut i: usize = 0;
        while i < self.peers.len()
            invariant
                i <= self.peers@.len(),
                peers@.len() == i,
                forall|j: int|
                    0 <= j < i ==> {
                        &&& (#[trigger] peers@[j]).id == self.peers@[j].id
                        &&& peers@[j].public_key@ == self.peers@[j].public_key@
                    },
            decreases self.peers@.len() - i,
        {
            peers.push(self.peers[i].clone());
            i = i + 1;
        }
        BasePeerSet { peers }
    }

    /// The number of peers in the set.
    pub fn len(&self) -> (r: usize)
        ensures
            r == self.peers@.len(),
    {
        self.peers.len()
    }
}

} // verus!
