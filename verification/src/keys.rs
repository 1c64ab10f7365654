//! Identity-bound key derivation: turning an opaque caller identity into
//! the signer request whose answer is that caller's public key. The request
//! is a function of the identity's bytes and a fixed key configuration
//! alone, which is what makes per-identity derivation reproducible.

use vstd::prelude::*;
use crate::codec::spec_key_wf;

verus! {

/// An opaque caller identity: the byte string the hosting environment
/// assigns to a caller. Used only as input to derivation-path construction.
#[derive(Clone, Debug)]
pub struct Identity {
    pub bytes: Vec<u8>,
}

impl Identity {
    pub fn new(bytes: Vec<u8>) -> (i: Identity)
        ensures
            i.bytes@ == bytes@,
    {
        Identity { bytes }
    }
}

/// The derivation path for an identity: a single element holding exactly
/// the identity's bytes.
pub open spec fn spec_derivation_path(id: Seq<u8>) -> Seq<Seq<u8>> {
    seq![id]
}

/// Determinism of derivation on the library's side: the derivation path is
/// a function of the identity's bytes alone. Two requests built from equal
/// identities are therefore equal, and a signer that answers equal requests
/// with equal keys (the collaborator's contract) returns bit-identical keys
/// for them.
pub proof fn lemma_derivation_path_deterministic(b1: Seq<u8>, b2: Seq<u8>)
    requires
        b1 == b2,
    ensures
        spec_derivation_path(b1) == spec_derivation_path(b2),
{
}

/// The elliptic curve the signer derives keys on.
#[derive(Clone, Copy, PartialEq, Eq, Structural, Debug)]
pub enum Curve {
    Secp256k1,
}

/// The signer key name this deployment derives all user keys under.
pub open spec fn spec_key_name() -> Seq<char> {
    "test_key_1"@
}

/// Which master key the signer should derive from: a curve and a key name.
#[derive(Clone, Debug)]
pub struct KeyId {
    pub curve: Curve,
    pub name: String,
}

/// The fixed signer key configuration for this deployment.
pub fn get_key_id() -> (k: KeyId)
    ensures
        k.curve == Curve::Secp256k1,
        k.name@ == spec_key_name(),
{
    KeyId { curve: Curve::Secp256k1, name: String::from_str("test_key_1") }
}

/// Everything the remote signer needs to produce one caller's public key.
#[derive(Clone, Debug)]
pub struct SignerRequest {
    pub key_id: KeyId,
    pub derivation_path: Vec<Vec<u8>>,
}

/// Builds the signer request for an identity: the fixed key configuration
/// and a single-element derivation path holding exactly the identity's
/// bytes.
pub fn signer_request(identity: &Identity) -> (r: SignerRequest)
    ensures
        r.key_id.curve == Curve::Secp256k1,
        r.key_id.name@ == spec_key_name(),
        r.derivation_path.deep_view() == spec_derivation_path(identity.bytes@),
        r.derivation_path@.len() == 1,
        r.derivation_path@[0]@ == identity.bytes@,
{
    let mut path: Vec<Vec<u8>> = Vec::new();
    path.push(vstd::slice::slice_to_vec(identity.bytes.as_slice()));
    let r = SignerRequest { key_id: get_key_id(), derivation_path: path };
    proof {
        assert(r.derivation_path.deep_view() =~~= spec_derivation_path(identity.bytes@));
    }
    r
}

/// A public key as raw bytes from the signer. Well-formed when the bytes
/// are a compressed point; anything else fails closed at encoding time,
/// never silently coerces.
#[derive(Clone, Debug)]
pub struct PublicKey {
    pub bytes: Vec<u8>,
}

impl PublicKey {
    /// Well-formed: exactly 33 bytes that parse as a valid curve point.
    pub open spec fn wf(&self) -> bool {
        spec_key_wf(self.bytes@)
    }

    pub fn new(bytes: Vec<u8>) -> (k: PublicKey)
        ensures
            k.bytes@ == bytes@,
    {
        PublicKey { bytes }
    }
}

} // verus!
