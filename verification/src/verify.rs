use vstd::prelude::*;
use vstd::bytes::spec_u32_to_le_bytes;
use vstd::std_specs::cmp::PartialEqSpec;
use vstd::bytes::u32_to_le_bytes;

use crate::header::BftProof;
use crate::header::BftSignature;
use crate::header::Common;
use crate::header::CommonV;
use crate::header::GenesisPraosId;
use crate::header::GenesisPraosProof;
use crate::header::Header;
use crate::header::HeaderV;
use crate::header::KESSignature;
use crate::header::LeaderId;
use crate::header::Proof;
use crate::header::ProofV;
use crate::header::VrfProof;
use crate::codec::append_bytes;
use crate::codec::spec_encode_common;
use crate::crypto;
use crate::crypto::PrivateKey;
use crate::crypto::ed25519_public_of;
use crate::crypto::ed25519_signature_of;
use crate::crypto::ed25519_verifies;
use crate::crypto::vrf_proof_wf;
use crate::crypto::vrf_public_of;
use crate::crypto::vrf_verifies;

verus! {

/// Why a proof failed to verify. A failure may indicate a dishonest peer
/// rather than a corrupt stream: callers should reject the block, not the
/// connection.
#[derive(Debug, Clone, Copy, PartialEq, Eq, Structural)]
pub enum VerificationFailure {
    /// The BFT signature does not verify under the declared leader identity.
    SignatureMismatch,
    /// The registry resolves the leader identifier to no key pair.
    UnresolvedLeader,
    /// The VRF output does not verify under the resolved VRF public key.
    VrfFailed,
    /// The KES signature does not verify under the resolved KES public key.
    KesFailed,
}

/// The two-valued outcome of proof verification, with the reason on failure.
#[derive(Debug, Clone, Copy, PartialEq, Eq, Structural)]
pub enum Verification {
    Success,
    Failed(VerificationFailure),
}

/// The key pair a Genesis-Praos leader identifier resolves to.
#[derive(Debug, Clone, PartialEq, Eq)]
pub struct GenesisPraosKeys {
    pub vrf_public_key: Vec<u8>,
    pub kes_public_key: Vec<u8>,
}

/// The mathematical value of a `GenesisPraosKeys`.
pub struct GenesisPraosKeysV {
    pub vrf_public_key: Seq<u8>,
    pub kes_public_key: Seq<u8>,
}

impl View for GenesisPraosKeys {
    type V = GenesisPraosKeysV;

    open spec fn view(&self) -> GenesisPraosKeysV {
        GenesisPraosKeysV {
            vrf_public_key: self.vrf_public_key@,
            kes_public_key: self.kes_public_key@,
        }
    }
}

impl GenesisPraosKeysV {
    pub open spec fn wf(self) -> bool {
        self.vrf_public_key.len() == 32 && self.kes_public_key.len() == 32
    }
}

/// The key pair `id` resolves to among `entries`: the first entry whose
/// identifier matches, or nothing.
pub open spec fn resolve_in(
    entries: Seq<(GenesisPraosId, GenesisPraosKeys)>,
    id: Seq<u8>,
) -> Option<GenesisPraosKeysV>
    decreases entries.len(),
{
    if entries.len() == 0 {
        None
    } else if entries[0].0@ == id {
        Some(entries[0].1@)
    } else {
        resolve_in(entries.subrange(1, entries.len() as int), id)
    }
}

/// The registry that resolves a Genesis-Praos leader identifier to the
/// leader's VRF and KES public keys. An external leadership-schedule
/// collaborator owns and populates it; verification only looks identifiers
/// up.
#[derive(Debug, Clone, PartialEq, Eq)]
pub struct KeyRegistry {
    pub entries: Vec<(GenesisPraosId, GenesisPraosKeys)>,
}

impl KeyRegistry {
    /// Every registered key pair holds two 32-byte public keys.
    pub open spec fn wf(self) -> bool {
        forall|i: int|
            0 <= i < self.entries@.len() ==> (#[trigger] self.entries@[i]).1@.wf()
    }

    /// An empty registry, which resolves nothing.
    pub fn new() -> (r: KeyRegistry)
        ensures
            r.entries@.len() == 0,
            r.wf(),
    {
        KeyRegistry { entries: Vec::new() }
    }

    /// Registers a key pair under an identifier. Verification resolves an
    /// identifier to the key pair it was first registered under.
    pub fn register(&mut self, id: GenesisPraosId, keys: GenesisPraosKeys)
        requires
            old(self).wf(),
            keys@.wf(),
        ensures
            final(self).wf(),
            final(self).entries@ == old(self).entries@.push((id, keys)),
    {
        self.entries.push((id, keys));
    }

    /// Looks an identifier up: the first key pair registered under it.
    pub fn resolve(&self, id: &GenesisPraosId) -> (r: Option<&GenesisPraosKeys>)
        ensures
            (match r {
                Some(k) => resolve_in(self.entries@, id@) == Some(k@),
                None => resolve_in(self.entries@, id@) is None,
            }),
            self.wf() && r is Some ==> r->Some_0@.wf(),
    {
        let n = self.entries.len();
        proof {
            assert(self.entries@.subrange(0, n as int) =~= self.entries@);
        }
        let mut i: usize = 0;
        while i < n
            invariant
                n == self.entries@.len(),
                i <= n,
                resolve_in(self.entries@, id@) == resolve_in(
                    self.entries@.subrange(i as int, n as int),
                    id@,
                ),
            decreases n - i,
        {
            let entry = &self.entries[i];
            if bytes_eq(&entry.0.bytes, &id.bytes) {
                return Some(&entry.1);
            }
            proof {
                assert(self.entries@.subrange(i as int, n as int).subrange(
                    1,
                    (n - i) as int,
                ) =~= self.entries@.subrange(i as int + 1, n as int));
            }
            i += 1;
        }
        None
    }
}

/// Whether two byte vectors hold the same bytes.
fn bytes_eq(a: &Vec<u8>, b: &Vec<u8>) -> (r: bool)
    ensures
        r == (a@ == b@),
{
    let r = a == b;
    proof {
        if r {
            assert(a@ =~= b@);
        } else {
            if a@ == b@ {
                assert(a.eq_spec(b));
            }
        }
    }
    r
}

/// The message a KES signature covers: the key-evolution step implied by
/// the slot (as its 32-bit little-endian bytes), then the canonical bytes
/// of the common metadata.
pub open spec fn spec_kes_message(c: CommonV) -> Seq<u8> {
    spec_u32_to_le_bytes(c.block_date.slot_id) + spec_encode_common(c)
}

/// What verifying a header's proof yields, as a function of the header and
/// the registry contents alone; verification is a pure read and never
/// changes state.
///
/// A missing proof is always valid at this layer: callers must separately
/// enforce that it occurs only at the designated genesis position. A BFT
/// proof is valid exactly when its signature verifies under the declared
/// leader identity over the canonical bytes of the common metadata. A
/// Genesis-Praos proof is valid exactly when the identifier resolves, the
/// VRF output verifies under the resolved VRF key, and the KES signature
/// verifies under the resolved KES key at the slot's evolution step; the
/// first failed check names the failure.
pub open spec fn spec_verify_header(
    h: HeaderV,
    entries: Seq<(GenesisPraosId, GenesisPraosKeys)>,
) -> Verification {
    match h.proof {
        ProofV::NoProof => Verification::Success,
        ProofV::Bft { leader_id, signature } => if ed25519_verifies(
            leader_id,
            spec_encode_common(h.common),
            signature,
        ) {
            Verification::Success
        } else {
            Verification::Failed(VerificationFailure::SignatureMismatch)
        },
        ProofV::GenesisPraos { praos_id, vrf_proof, kes_signature } => match resolve_in(
            entries,
            praos_id,
        ) {
            Option::None => Verification::Failed(VerificationFailure::UnresolvedLeader),
            Option::Some(keys) => if !vrf_verifies(
                keys.vrf_public_key,
                spec_encode_common(h.common),
                vrf_proof,
            ) {
                Verification::Failed(VerificationFailure::VrfFailed)
            } else if !ed25519_verifies(
                keys.kes_public_key,
                spec_kes_message(h.common),
                kes_signature,
            ) {
                Verification::Failed(VerificationFailure::KesFailed)
            } else {
                Verification::Success
            },
        },
    }
}

impl Header {
    /// Verifies this header's proof against its own metadata, resolving
    /// Genesis-Praos leader identifiers through `registry`.
    pub fn verify_proof(&self, registry: &KeyRegistry) -> (r: Verification)
        requires
            self.wf(),
            registry.wf(),
        ensures
            r == spec_verify_header(self@, registry.entries@),
    {
        match &self.proof {
            Proof::NoProof => Verification::Success,
            Proof::Bft(bft_proof) => {
                let msg = self.common.serialize();
                if crypto::ed25519_verify(&bft_proof.leader_id.bytes, &msg, &bft_proof.signature.bytes) {
                    Verification::Success
                } else {
                    Verification::Failed(VerificationFailure::SignatureMismatch)
                }
            },
            Proof::GenesisPraos(genesis_praos_proof) => {
                match registry.resolve(&genesis_praos_proof.genesis_praos_id) {
                    Option::None => Verification::Failed(VerificationFailure::UnresolvedLeader),
                    Option::Some(keys) => {
                        let msg = self.common.serialize();
                        if !crypto::vrf_verify(
                            &keys.vrf_public_key,
                            &msg,
                            &genesis_praos_proof.vrf_proof.bytes,
                        ) {
                            Verification::Failed(VerificationFailure::VrfFailed)
                        } else {
                            let mut kes_msg = u32_to_le_bytes(self.common.block_date.slot_id);
                            append_bytes(&mut kes_msg, msg.as_slice());
                            if !crypto::ed25519_verify(
                                &keys.kes_public_key,
                                &kes_msg,
                                &genesis_praos_proof.kes_proof.bytes,
                            ) {
                                Verification::Failed(VerificationFailure::KesFailed)
                            } else {
                                Verification::Success
                            }
                        }
                    },
                }
            },
        }
    }
}

impl BftProof {
    /// Computes the BFT proof for `common`: signs its canonical bytes with
    /// the leader's key and declares the matching public identity. The
    /// resulting proof verifies.
    pub fn make(common: &Common, key: &PrivateKey) -> (r: BftProof)
        requires
            key.wf(),
        ensures
            r.leader_id@ == ed25519_public_of(key@),
            r.signature@ == ed25519_signature_of(key@, spec_encode_common(common@)),
            r.leader_id@.len() == 32,
            r.signature@.len() == 64,
            ed25519_verifies(r.leader_id@, spec_encode_common(common@), r.signature@),
    {
        let msg = common.serialize();
        BftProof {
            leader_id: LeaderId { bytes: crypto::ed25519_public_key(&key.bytes) },
            signature: BftSignature { bytes: crypto::ed25519_sign(&key.bytes, &msg) },
        }
    }
}

impl GenesisPraosProof {
    /// Computes the Genesis-Praos proof for `common`: evaluates the VRF
    /// over the canonical metadata bytes with the leader's VRF key, and
    /// signs the slot-tagged metadata with the leader's KES key. The
    /// resulting proof verifies wherever the registry resolves `praos_id`
    /// to the two matching public keys.
    pub fn make(
        common: &Common,
        praos_id: GenesisPraosId,
        vrf_key: &PrivateKey,
        kes_key: &PrivateKey,
    ) -> (r: GenesisPraosProof)
        requires
            vrf_key.wf(),
            kes_key.wf(),
        ensures
            r.genesis_praos_id@ == praos_id@,
            r.vrf_proof@.len() == 96,
            r.kes_proof@.len() == 64,
            vrf_proof_wf(r.vrf_proof@.subrange(32, 96)),
            vrf_verifies(vrf_public_of(vrf_key@), spec_encode_common(common@), r.vrf_proof@),
            ed25519_verifies(
                ed25519_public_of(kes_key@),
                spec_kes_message(common@),
                r.kes_proof@,
            ),
    {
        let msg = common.serialize();
        let vrf_bytes = crypto::vrf_prove(&vrf_key.bytes, &msg);
        let mut kes_msg = u32_to_le_bytes(common.block_date.slot_id);
        append_bytes(&mut kes_msg, msg.as_slice());
        GenesisPraosProof {
            genesis_praos_id: praos_id,
            vrf_proof: VrfProof { bytes: vrf_bytes },
            kes_proof: KESSignature { bytes: crypto::ed25519_sign(&kes_key.bytes, &kes_msg) },
        }
    }
}

/// BFT validity: a BFT header is valid exactly when its signature verifies
/// under the declared leader identity over the canonical bytes of its
/// metadata, whatever the registry holds.
pub proof fn lemma_bft_validity(h: HeaderV, entries: Seq<(GenesisPraosId, GenesisPraosKeys)>)
    requires
        h.proof is Bft,
    ensures
        spec_verify_header(h, entries) == Verification::Success <==> ed25519_verifies(
            h.proof->leader_id,
            spec_encode_common(h.common),
            h.proof->signature,
        ),
{
}

/// Genesis-Praos validity: such a header is valid exactly when its leader
/// identifier resolves and both the VRF output and the KES signature
/// verify under the resolved keys; failing any one check fails the whole
/// verification.
pub proof fn lemma_genesis_praos_validity(
    h: HeaderV,
    entries: Seq<(GenesisPraosId, GenesisPraosKeys)>,
)
    requires
        h.proof is GenesisPraos,
    ensures
        spec_verify_header(h, entries) == Verification::Success <==> {
            &&& resolve_in(entries, h.proof->praos_id) is Some
            &&& vrf_verifies(
                resolve_in(entries, h.proof->praos_id)->Some_0.vrf_public_key,
                spec_encode_common(h.common),
                h.proof->vrf_proof,
            )
            &&& ed25519_verifies(
                resolve_in(entries, h.proof->praos_id)->Some_0.kes_public_key,
                spec_kes_message(h.common),
                h.proof->kes_signature,
            )
        },
{
}

} // verus!
