use vstd::prelude::*;
use ed25519_dalek::Signer;
use ed25519_dalek::Verifier;
use blake2::Digest;

verus! {

/// An opaque signing key: the 32-byte seed of an Ed25519 key pair. It is
/// held only for the duration of a signing call.
#[derive(Debug, Clone, PartialEq, Eq)]
pub struct PrivateKey {
    pub bytes: Vec<u8>,
}

impl View for PrivateKey {
    type V = Seq<u8>;

    open spec fn view(&self) -> Seq<u8> {
        self.bytes@
    }
}

impl PrivateKey {
    pub open spec fn wf(self) -> bool {
        self@.len() == 32
    }
}

/// The 32-byte Blake2b digest of a byte sequence.
pub uninterp spec fn blake2b_hash(bytes: Seq<u8>) -> Seq<u8>;

/// The Ed25519 public key derived from a 32-byte seed.
pub uninterp spec fn ed25519_public_of(seed: Seq<u8>) -> Seq<u8>;

/// The Ed25519 signature of a message under the key with the given seed.
/// Ed25519 signing is deterministic, so this is a function of its arguments.
pub uninterp spec fn ed25519_signature_of(seed: Seq<u8>, msg: Seq<u8>) -> Seq<u8>;

/// Whether an Ed25519 signature check of `sig` on `msg` under the public
/// key bytes `pk` succeeds; false when `pk` does not decode to a valid key.
pub uninterp spec fn ed25519_verifies(pk: Seq<u8>, msg: Seq<u8>, sig: Seq<u8>) -> bool;

/// The VRF public key derived from a 32-byte seed.
pub uninterp spec fn vrf_public_of(seed: Seq<u8>) -> Seq<u8>;

/// Whether a 96-byte VRF value (32-byte output point, then 64-byte proof)
/// verifies on `msg` under the VRF public key bytes `pk`; false when any
/// of the three parts does not decode.
pub uninterp spec fn vrf_verifies(pk: Seq<u8>, msg: Seq<u8>, proof: Seq<u8>) -> bool;

/// Whether 64 bytes decode to a well-formed VRF proof (two canonical
/// scalars). Checked at decode time, before any verification is attempted.
pub uninterp spec fn vrf_proof_wf(bytes: Seq<u8>) -> bool;

/// Relies on blake2's `Blake2b` with a 32-byte output: the digest depends
/// on the input bytes alone and is always 32 bytes long.
#[verifier::external_body]
pub(crate) fn blake2b(bytes: &Vec<u8>) -> (r: Vec<u8>)
    ensures
        r@ == blake2b_hash(bytes@),
        r@.len() == 32,
{
    let mut hasher = blake2::Blake2b::<blake2::digest::consts::U32>::new();
    hasher.update(bytes.as_slice());
    hasher.finalize().to_vec()
}

/// Relies on ed25519-dalek's `SigningKey::verifying_key`: the public key is
/// derived from the seed alone and serializes to 32 bytes.
#[verifier::external_body]
pub(crate) fn ed25519_public_key(seed: &Vec<u8>) -> (r: Vec<u8>)
    requires
        seed@.len() == 32,
    ensures
        r@ == ed25519_public_of(seed@),
        r@.len() == 32,
{
    let sk = ed25519_dalek::SigningKey::from_bytes(seed.as_slice().try_into().unwrap());
    sk.verifying_key().to_bytes().to_vec()
}

/// Relies on ed25519-dalek's `Signer::sign` for `SigningKey`: Ed25519
/// signing is deterministic, produces a 64-byte signature, and a signature
/// it produces passes `VerifyingKey::verify` under the matching public key.
#[verifier::external_body]
pub(crate) fn ed25519_sign(seed: &Vec<u8>, msg: &Vec<u8>) -> (r: Vec<u8>)
    requires
        seed@.len() == 32,
    ensures
        r@ == ed25519_signature_of(seed@, msg@),
        r@.len() == 64,
        ed25519_verifies(ed25519_public_of(seed@), msg@, r@),
{
    let sk = ed25519_dalek::SigningKey::from_bytes(seed.as_slice().try_into().unwrap());
    sk.sign(msg.as_slice()).to_bytes().to_vec()
}

/// Relies on ed25519-dalek's `VerifyingKey::verify`: verification is a
/// deterministic function of the public-key bytes, the message and the
/// signature bytes; a public key that does not decode verifies nothing.
#[verifier::external_body]
pub(crate) fn ed25519_verify(pk: &Vec<u8>, msg: &Vec<u8>, sig: &Vec<u8>) -> (r: bool)
    requires
        pk@.len() == 32,
        sig@.len() == 64,
    ensures
        r == ed25519_verifies(pk@, msg@, sig@),
{
    let vk = match ed25519_dalek::VerifyingKey::from_bytes(pk.as_slice().try_into().unwrap()) {
        Ok(k) => k,
        Err(_) => return false,
    };
    let s = ed25519_dalek::Signature::from_bytes(sig.as_slice().try_into().unwrap());
    vk.verify(msg.as_slice(), &s).is_ok()
}

/// Relies on schnorrkel's `MiniSecretKey::expand_to_keypair`: the key pair
/// is derived from the seed alone; its public half serializes to 32 bytes.
#[verifier::external_body]
pub(crate) fn vrf_public_key(seed: &Vec<u8>) -> (r: Vec<u8>)
    requires
        seed@.len() == 32,
    ensures
        r@ == vrf_public_of(seed@),
        r@.len() == 32,
{
    let mini = schnorrkel::MiniSecretKey::from_bytes(seed.as_slice()).unwrap();
    let keypair = mini.expand_to_keypair(schnorrkel::ExpansionMode::Ed25519);
    keypair.public.to_bytes().to_vec()
}

/// Relies on schnorrkel's `Keypair::vrf_sign`: the proof it draws is
/// randomized, but every outcome is 96 bytes (output point, then proof),
/// the proof part serializes two canonical scalars, and the whole value
/// passes `PublicKey::vrf_verify` under the matching public key on the
/// same message.
#[verifier::external_body]
pub(crate) fn vrf_prove(seed: &Vec<u8>, msg: &Vec<u8>) -> (r: Vec<u8>)
    requires
        seed@.len() == 32,
    ensures
        r@.len() == 96,
        vrf_proof_wf(r@.subrange(32, 96)),
        vrf_verifies(vrf_public_of(seed@), msg@, r@),
{
    let mini = schnorrkel::MiniSecretKey::from_bytes(seed.as_slice()).unwrap();
    let keypair = mini.expand_to_keypair(schnorrkel::ExpansionMode::Ed25519);
    let ctx = schnorrkel::signing_context(b"mockchain-header-vrf");
    let (inout, proof, _) = keypair.vrf_sign(ctx.bytes(msg.as_slice()));
    let mut out = inout.to_preout().to_bytes().to_vec();
    out.extend_from_slice(&proof.to_bytes());
    out
}

/// Relies on schnorrkel's `PublicKey::vrf_verify`: verification is a
/// deterministic function of the public-key bytes, the message and the
/// 96 proof bytes; a part that does not decode verifies nothing.
#[verifier::external_body]
pub(crate) fn vrf_verify(pk: &Vec<u8>, msg: &Vec<u8>, proof: &Vec<u8>) -> (r: bool)
    requires
        pk@.len() == 32,
        proof@.len() == 96,
    ensures
        r == vrf_verifies(pk@, msg@, proof@),
{
    let public = match schnorrkel::PublicKey::from_bytes(pk.as_slice()) {
        Ok(p) => p,
        Err(_) => return false,
    };
    let preout = match schnorrkel::vrf::VRFPreOut::from_bytes(&proof.as_slice()[0..32]) {
        Ok(p) => p,
        Err(_) => return false,
    };
    let vrf_proof = match schnorrkel::vrf::VRFProof::from_bytes(&proof.as_slice()[32..96]) {
        Ok(p) => p,
        Err(_) => return false,
    };
    let ctx = schnorrkel::signing_context(b"mockchain-header-vrf");
    public.vrf_verify(ctx.bytes(msg.as_slice()), &preout, &vrf_proof).is_ok()
}

/// Relies on schnorrkel's `VRFProof::from_bytes`: whether 64 bytes decode
/// to a well-formed proof depends on the bytes alone.
#[verifier::external_body]
pub(crate) fn vrf_proof_well_formed(bytes: &Vec<u8>) -> (r: bool)
    ensures
        r == vrf_proof_wf(bytes@),
{
    schnorrkel::vrf::VRFProof::from_bytes(bytes.as_slice()).is_ok()
}

} // verus!
