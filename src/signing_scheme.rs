//! Ed25519 keys and signatures, through the `ed25519_consensus` crate.
use vstd::prelude::*;

verus! {

/// The Ed25519 verification key that the 32-byte seed `seed` gives.
pub uninterp spec fn ed25519_public_key(seed: Seq<u8>) -> Seq<u8>;

/// The Ed25519 signature of `msg` under the key with the 32-byte seed `seed`.
/// Ed25519 signing is deterministic: it depends on the seed and the message alone.
pub uninterp spec fn ed25519_signature(seed: Seq<u8>, msg: Seq<u8>) -> Seq<u8>;

/// Relies on `ed25519_consensus::SigningKey::new` with the operating system's
/// generator: a fresh random seed, whose 32 bytes `SigningKey::to_bytes` returns.
#[verifier::external_body]
fn fresh_seed() -> (r: Vec<u8>)
    ensures
        r@.len() == 32,
{
    ed25519_consensus::SigningKey::new(rand::rngs::OsRng).to_bytes().to_vec()
}

/// Relies on `ed25519_consensus::SigningKey::verification_key`, for the key
/// made from a 32-byte seed; `VerificationKey::to_bytes` gives 32 bytes.
#[verifier::external_body]
fn seed_public_key(seed: &Vec<u8>) -> (r: Vec<u8>)
    requires
        seed@.len() == 32,
    ensures
        r@ == ed25519_public_key(seed@),
        r@.len() == 32,
{
    let key = ed25519_consensus::SigningKey::try_from(seed.as_slice()).unwrap();
    key.verification_key().to_bytes().to_vec()
}

/// Relies on `ed25519_consensus::SigningKey::sign`, for the key made from a
/// 32-byte seed; `Signature::to_bytes` gives 64 bytes.
#[verifier::external_body]
fn seed_sign(seed: &Vec<u8>, msg: &Vec<u8>) -> (r: Vec<u8>)
    requires
        seed@.len() == 32,
    ensures
        r@ == ed25519_signature(seed@, msg@),
        r@.len() == 64,
{
    let key = ed25519_consensus::SigningKey::try_from(seed.as_slice()).unwrap();
    key.sign(msg.as_slice()).to_bytes().to_vec()
}

/// An Ed25519 verification key, as its 32 bytes.
#[derive(Debug)]
pub struct PublicKey(pub Vec<u8>);

impl View for PublicKey {
    type V = Seq<u8>;

    open spec fn view(&self) -> Seq<u8> {
        self.0@
    }
}

impl Clone for PublicKey {
    fn clone(&self) -> (r: PublicKey)
        ensures
            r@ == self@,
    {
        let bytes = self.0.clone();
        assert(bytes@ =~= self.0@);
        PublicKey(bytes)
    }
}

/// An Ed25519 signature, as its 64 bytes.
#[derive(Debug)]
pub struct Signature(pub Vec<u8>);

impl View for Signature {
    type V = Seq<u8>;

    open spec fn view(&self) -> Seq<u8> {
        self.0@
    }
}

impl Clone for Signature {
    fn clone(&self) -> (r: Signature)
        ensures
            r@ == self@,
    {
        let bytes = self.0.clone();
        assert(bytes@ =~= self.0@);
        Signature(bytes)
    }
}

/// A message together with the signature made over its encoding.
#[derive(Clone, Debug)]
pub struct SignedMessage<M> {
    pub message: M,
    pub signature: Signature,
}

impl<M> SignedMessage<M> {
    /// Pairs `message` with `signature`.
    pub fn new(message: M, signature: Signature) -> (r: SignedMessage<M>)
        ensures
            r.message == message,
            r.signature == signature,
    {
        SignedMessage { message, signature }
    }
}

/// An Ed25519 signing key, held as its 32-byte seed.
pub struct PrivateKey {
    seed: Vec<u8>,
}

impl Clone for PrivateKey {
    fn clone(&self) -> (r: PrivateKey)
        ensures
            r.seed() == self.seed(),
    {
        proof {
            use_type_invariant(self);
        }
        let seed = self.seed.clone();
        assert(seed@ =~= self.seed@);
        PrivateKey { seed }
    }
}

impl PrivateKey {
    /// The seed of this key.
    pub closed spec fn seed(self) -> Seq<u8> {
        self.seed@
    }

    #[verifier::type_invariant]
    spec fn seed_len(self) -> bool {
        self.seed@.len() == 32
    }

    /// A fresh key from the operating system's random generator.
    pub fn generate() -> (r: PrivateKey)
        ensures
            r.seed().len() == 32,
    {
        PrivateKey { seed: fresh_seed() }
    }

    /// The verification key that belongs to this key.
    pub fn public_key(&self) -> (r: PublicKey)
        ensures
            r@ == ed25519_public_key(self.seed()),
    {
        proof {
            use_type_invariant(self);
        }
        PublicKey(seed_public_key(&self.seed))
    }

    /// Signs `msg` with this key.
    pub fn sign(&self, msg: &Vec<u8>) -> (r: Signature)
        ensures
            r@ == ed25519_signature(self.seed(), msg@),
    {
        proof {
            use_type_invariant(self);
        }
        Signature(seed_sign(&self.seed, msg))
    }
}

} // verus!
