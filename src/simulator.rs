//! The orchestrator: it owns the parameters of every peer and the receiving
//! end of the simulated network, and hands each envelope, first in first out
//! and exactly once, to the peer it is addressed to. Driving the consensus
//! engine with what it hands out is left to the caller.
use vstd::prelude::*;

use std::collections::VecDeque;

use crate::address::BasePeerAddress;
use crate::context::BaseContext;
use crate::height::BaseHeight;
use crate::peer_set::BasePeerSet;

verus! {

/// The fewest peers a run may have.
pub const MIN_PEERS: u32 = 4;

/// Every run has fewer peers than this.
pub const MAX_PEERS: u32 = 25;

/// How many proposed values may wait to be taken up by the peers.
pub const MEMPOOL_CAPACITY: usize = 5;

/// The pause between two steps of a run, in milliseconds.
pub const STEP_DELAY_MS: u64 = 200;

/// Whether a run may have `size` peers.
pub open spec fn valid_size(size: int) -> bool {
    MIN_PEERS <= size < MAX_PEERS
}

/// One simulated network message, from one peer to another.
#[derive(Clone, Debug)]
pub struct Envelope<P> {
    pub source: BasePeerAddress,
    pub destination: BasePeerAddress,
    pub payload: P,
}

/// An envelope taken off the network, with the position of the peer it is
/// addressed to.
#[derive(Clone, Debug)]
pub struct Delivery<P> {
    pub peer_index: usize,
    pub envelope: Envelope<P>,
}

/// What the parameters of one peer hold.
#[derive(Clone, Debug)]
pub struct PeerParams {
    pub initial_height: BaseHeight,
    pub initial_validator_set: BasePeerSet,
    pub address: BasePeerAddress,
}

/// Why the orchestrator refused a request.
#[derive(Copy, Clone, PartialEq, Eq, Structural, Debug)]
pub enum SimulatorError {
    /// The peers were already initialized.
    AlreadyInitialized,
    /// No envelope is waiting on the network.
    NetworkEmpty,
}

/// Owns the peers' parameters and the simulated network of one run.
pub struct Simulator<P> {
    context: BaseContext,
    params: Vec<PeerParams>,
    network: VecDeque<Envelope<P>>,
    initialized: bool,
}

impl<P> Simulator<P> {
    /// The parameters of the peers, by position.
    pub closed spec fn params(self) -> Seq<PeerParams> {
        self.params@
    }

    /// The envelopes waiting on the network, oldest first.
    pub closed spec fn pending(self) -> Seq<Envelope<P>> {
        self.network@
    }

    /// Whether the peers have been initialized.
    pub closed spec fn initialized(self) -> bool {
        self.initialized
    }

    /// The context that every peer of the run is bound to.
    pub closed spec fn context_spec(self) -> BaseContext {
        self.context
    }

    /// The number of peers of the run.
    pub open spec fn peer_count(self) -> nat {
        self.params().len()
    }

    /// A valid number of peers, the peer at each position `i` has address
    /// `i`, starts at the initial height and holds the validator set of all
    /// the peers, and every envelope on the network is addressed to a peer
    /// of the run.
    pub open spec fn wf(self) -> bool {
        &&& valid_size(self.peer_count() as int)
        &&& forall|k: int|
            0 <= k < self.pending().len() ==> (#[trigger] self.pending()[k]).destination.0
                < self.peer_count()
        &&& forall|i: int|
            0 <= i < self.peer_count() ==> {
                &&& (#[trigger] self.params()[i]).address.0 == i
                &&& self.params()[i].initial_height.0 == 0
                &&& self.params()[i].initial_validator_set.is_uniform(
                    self.peer_count(),
                    crate::signing_scheme::ed25519_public_key(
                        self.context_spec().signing_provider.seed(),
                    ),
                )
            }
    }

    /// A run of `size` peers, at least four and fewer than twenty-five,
    /// with a fresh context; the peers still have to be initialized.
    pub fn new(size: u32) -> (s: Simulator<P>)
        requires
            valid_size(size as int),
        ensures
            s.wf(),
            s.peer_count() == size,
            !s.initialized(),
            s.pending() == Seq::<Envelope<P>>::empty(),
            s.context_spec().signing_provider.seed().len() == 32,
    {
        let context = BaseContext::new();
        let val_set = BasePeerSet::new(size, context.shared_public_key());
        let mut params: Vec<PeerParams> = Vec::new();
        let mut i: u32 = 0;
        while i < size
            invariant
                i <= size,
                valid_size(size as int),
                val_set.is_uniform(
                    size as nat,
                    crate::signing_scheme::ed25519_public_key(context.signing_provider.seed()),
                ),
                params@.len() == i,
                forall|j: int|
                    0 <= j < i ==> {
                        &&& (#[trigger] params@[j]).address.0 == j
                        &&& params@[j].initial_height.0 == 0
                        &&& params@[j].initial_validator_set.is_uniform(
                            size as nat,
                            crate::signing_scheme::ed25519_public_key(
                                context.signing_provider.seed(),
                            ),
                        )
                    },
            decreases size - i,
        {
            let set = val_set.clone_set();
            params.push(
                PeerParams {
                    initial_height: BaseHeight(0),
                    initial_validator_set: set,
                    address: BasePeerAddress::new(i),
                },
            );
            i = i + 1;
        }
        let s = Simulator { context, params, network: VecDeque::new(), initialized: false };
        assert(s.pending() =~= Seq::<Envelope<P>>::empty());
        s
    }

    /// The context that every peer of the run is bound to.
    pub fn context(&self) -> (r: &BaseContext)
        ensures
            *r == self.context_spec(),
    {
        &self.context
    }

    /// The number of peers of the run.
    pub fn size(&self) -> (r: usize)
        ensures
            r == self.peer_count(),
    {
        self.params.len()
    }

    /// The parameters of the peer at position `index`.
    pub fn peer_params(&self, index: usize) -> (r: &PeerParams)
        requires
            index < self.peer_count(),
        ensures
            *r == self.params()[index as int],
    {
        &self.params[index]
    }

    /// Marks the peers as initialized; this must happen once, before any
    /// step. Fails, changing nothing, where it already happened.
    pub fn initialize_system(&mut self) -> (r: Result<(), SimulatorError>)
        requires
            old(self).wf(),
        ensures
            final(self).wf(),
            old(self).initialized() ==> r == Err::<(), SimulatorError>(
                SimulatorError::AlreadyInitialized,
            ) && *final(self) == *old(self),
            !old(self).initialized() ==> r is Ok && final(self).initialized(),
            final(self).params() == old(self).params(),
            final(self).pending() == old(self).pending(),
            final(self).context_spec() == old(self).context_spec(),
    {
        if self.initialized {
            return Err(SimulatorError::AlreadyInitialized);
        }
        self.initialized = true;
        assert(self.params() == old(self).params());
        assert(self.pending() == old(self).pending());
        assert(self.context_spec() == old(self).context_spec());
        Ok(())
    }

    /// Puts `envelope`, addressed to a peer of the run, on the network,
    /// behind every envelope already there.
    pub fn send(&mut self, envelope: Envelope<P>)
        requires
            old(self).wf(),
            envelope.destination.0 < old(self).peer_count(),
        ensures
            final(self).wf(),
            final(self).pending() == old(self).pending().push(envelope),
            final(self).params() == old(self).params(),
            final(self).initialized() == old(self).initialized(),
            final(self).context_spec() == old(self).context_spec(),
    {
        self.network.push_back(envelope);
        assert(forall|k: int|
            0 <= k < self.pending().len() ==> #[trigger] self.pending()[k] == if k < old(
                self,
            ).pending().len() {
                old(self).pending()[k]
            } else {
                envelope
            });
    }

    /// Takes the oldest envelope off the network and hands it out with the
    /// position of the peer it is addressed to; the peers must have been
    /// initialized. Fails, changing nothing, when no envelope waits.
    pub fn step(&mut self) -> (r: Result<Delivery<P>, SimulatorError>)
        requires
            old(self).wf(),
            old(self).initialized(),
        ensures
            final(self).wf(),
            final(self).params() == old(self).params(),
            final(self).initialized() == old(self).initialized(),
            final(self).context_spec() == old(self).context_spec(),
            old(self).pending().len() == 0 ==> r == Err::<Delivery<P>, SimulatorError>(
                SimulatorError::NetworkEmpty,
            ) && final(self).pending() == old(self).pending(),
            old(self).pending().len() > 0 ==> {
                let env = old(self).pending()[0];
                &&& final(self).pending() == old(self).pending().drop_first()
                &&& r == Ok::<Delivery<P>, SimulatorError>(
                    Delivery { peer_index: env.destination.0 as usize, envelope: env },
                )
            },
    {
        match self.network.pop_front() {
            None => Err(SimulatorError::NetworkEmpty),
            Some(envelope) => {
                assert(envelope == old(self).pending()[0]);
                assert(forall|k: int|
                    0 <= k < self.pending().len() ==> #[trigger] self.pending()[k] == old(
                        self,
                    ).pending()[k + 1]);
                let peer_index = envelope.destination.0 as usize;
                Ok(Delivery { peer_index, envelope })
            },
        }
    }
}

/// Whether a run may have `size` peers: at least four and fewer than
/// twenty-five.
pub fn is_valid_size(size: u32) -> (r: bool)
    ensures
        r == valid_size(size as int),
{
    MIN_PEERS <= size && size < MAX_PEERS
}

/// The peers of a well-formed run have distinct addresses: the peer at
/// position `i` has address `i`, so the addresses are exactly `0..size`.
pub proof fn lemma_peer_addresses<P>(s: Simulator<P>)
    requires
        s.wf(),
    ensures
        forall|i: int, j: int|
            0 <= i < j < s.peer_count() ==> #[trigger] s.params()[i].address
                != #[trigger] s.params()[j].address,
        forall|i: int| 0 <= i < s.peer_count() ==> #[trigger] s.params()[i].address.0 == i,
{
}

} // verus!
