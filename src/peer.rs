//! Peers: the validators of a run.
use vstd::prelude::*;

use crate::address::BasePeerAddress;
use crate::signing_scheme::PublicKey;

verus! {

/// The voting power of every peer.
pub const BASE_VOTING_POWER: u64 = 1;

/// A validator: an address and the key its messages are checked against.
/// All peers have the same voting power, [`BASE_VOTING_POWER`]. Signing keys
/// are held by the signing provider, not by the peers.
#[derive(Debug)]
pub struct BasePeer {
    pub id: BasePeerAddress,
    pub public_key: PublicKey,
}

impl Clone for BasePeer {
    fn clone(&self) -> (r: BasePeer)
        ensures
            r.id == self.id,
            r.public_key@ == self.public_key@,
    {
        BasePeer { id: self.id, public_key: self.public_key.clone() }
    }
}

impl PartialEq for BasePeer {
    /// Peers are told apart by their address alone.
    fn eq(&self, other: &BasePeer) -> (r: bool) {
        self.id == other.id
    }
}

impl vstd::std_specs::cmp::PartialEqSpecImpl for BasePeer {
    open spec fn obeys_eq_spec() -> bool {
        true
    }

    open spec fn eq_spec(&self, other: &BasePeer) -> bool {
        self.id == other.id
    }
}

impl Eq for BasePeer {

}

impl BasePeer {
    /// The peer with address `id` and verification key `public_key`.
    pub fn new(id: u32, public_key: PublicKey) -> (r: BasePeer)
        ensures
            r.id.0 == id,
            r.public_key@ == public_key@,
    {
        BasePeer { id: BasePeerAddress::new(id), public_key }
    }

    /// The address of this peer.
    pub fn address(&self) -> (r: &BasePeerAddress)
        ensures
            *r == self.id,
    {
        &self.id
    }

    /// The verification key of this peer.
    pub fn public_key(&self) -> (r: &PublicKey)
        ensures
            *r == self.public_key,
    {
        &self.public_key
    }

    /// The voting power of this peer, the same for all.
    pub fn voting_power(&self) -> (r: u64)
        ensures
            r == BASE_VOTING_POWER,
    {
        BASE_VOTING_POWER
    }
}

} // verus!
