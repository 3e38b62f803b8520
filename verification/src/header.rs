use vstd::prelude::*;

verus! {

/// The supported consensus versions a block header can carry.
#[derive(Debug, Clone, Copy, PartialEq, Eq, Structural)]
pub enum BlockVersion {
    Genesis,
    Ed25519Signed,
    KesVrfproof,
}

/// The version tag as read from the wire: either one of the supported
/// versions, or the raw 16-bit value of an unrecognized tag.
#[derive(Debug, Clone, Copy, PartialEq, Eq, Structural)]
pub enum AnyBlockVersion {
    Supported(BlockVersion),
    Unsupported(u16),
}

impl AnyBlockVersion {
    /// The 16-bit value this version tag encodes as.
    pub open spec fn spec_to_u16(self) -> u16 {
        match self {
            AnyBlockVersion::Supported(BlockVersion::Genesis) => 0,
            AnyBlockVersion::Supported(BlockVersion::Ed25519Signed) => 1,
            AnyBlockVersion::Supported(BlockVersion::KesVrfproof) => 2,
            AnyBlockVersion::Unsupported(raw) => raw,
        }
    }

    /// The version tag a 16-bit wire value decodes to: values 0, 1 and 2
    /// name the supported versions, anything else is unsupported.
    pub open spec fn spec_from_u16(raw: u16) -> AnyBlockVersion {
        if raw == 0 {
            AnyBlockVersion::Supported(BlockVersion::Genesis)
        } else if raw == 1 {
            AnyBlockVersion::Supported(BlockVersion::Ed25519Signed)
        } else if raw == 2 {
            AnyBlockVersion::Supported(BlockVersion::KesVrfproof)
        } else {
            AnyBlockVersion::Unsupported(raw)
        }
    }

    /// A tag value is canonical when re-encoding it yields the value it was
    /// decoded from: an `Unsupported` variant may not shadow a supported tag.
    pub open spec fn canonical(self) -> bool {
        match self {
            AnyBlockVersion::Supported(_) => true,
            AnyBlockVersion::Unsupported(raw) => raw >= 3,
        }
    }

    pub fn to_u16(&self) -> (r: u16)
        ensures
            r == self.spec_to_u16(),
    {
        match self {
            AnyBlockVersion::Supported(BlockVersion::Genesis) => 0,
            AnyBlockVersion::Supported(BlockVersion::Ed25519Signed) => 1,
            AnyBlockVersion::Supported(BlockVersion::KesVrfproof) => 2,
            AnyBlockVersion::Unsupported(raw) => *raw,
        }
    }

    pub fn from_u16(raw: u16) -> (r: AnyBlockVersion)
        ensures
            r == AnyBlockVersion::spec_from_u16(raw),
    {
        if raw == 0 {
            AnyBlockVersion::Supported(BlockVersion::Genesis)
        } else if raw == 1 {
            AnyBlockVersion::Supported(BlockVersion::Ed25519Signed)
        } else if raw == 2 {
            AnyBlockVersion::Supported(BlockVersion::KesVrfproof)
        } else {
            AnyBlockVersion::Unsupported(raw)
        }
    }
}

/// Round trip of the version tag through its 16-bit wire form, in both
/// directions: every wire value decodes to a tag that re-encodes to it, and
/// every canonical tag survives encoding and decoding unchanged.
pub proof fn lemma_version_tag_round_trip(raw: u16, v: AnyBlockVersion)
    ensures
        AnyBlockVersion::spec_from_u16(raw).spec_to_u16() == raw,
        AnyBlockVersion::spec_from_u16(raw).canonical(),
        v.canonical() ==> AnyBlockVersion::spec_from_u16(v.spec_to_u16()) == v,
{
}

/// The date of a block: the epoch it belongs to and the slot within it.
#[derive(Debug, Clone, Copy, PartialEq, Eq, Structural)]
pub struct BlockDate {
    pub epoch: u32,
    pub slot_id: u32,
}

/// A block's depth in the chain: the distance from the genesis block,
/// as a 32-bit counter. A child's chain length is its parent's plus one.
#[derive(Debug, Clone, Copy, PartialEq, Eq, PartialOrd, Ord, Hash, Structural)]
pub struct ChainLength(pub u32);

impl ChainLength {
    /// The chain length of a child block. The counter wraps at the top of
    /// the 32-bit range rather than failing.
    pub fn next(&self) -> (r: ChainLength)
        ensures
            self.0 < u32::MAX ==> r.0 == self.0 + 1,
            self.0 == u32::MAX ==> r.0 == 0,
    {
        if self.0 == u32::MAX {
            ChainLength(0)
        } else {
            ChainLength(self.0 + 1)
        }
    }
}

/// A 32-byte hash value, used both as the identity of a header and as the
/// digest of a block's content.
#[derive(Debug, Clone, PartialEq, Eq)]
pub struct HeaderHash {
    pub bytes: Vec<u8>,
}

impl View for HeaderHash {
    type V = Seq<u8>;

    open spec fn view(&self) -> Seq<u8> {
        self.bytes@
    }
}

impl HeaderHash {
    pub open spec fn wf(self) -> bool {
        self@.len() == 32
    }
}

/// The digest of a block's body, carried by the header it accompanies.
pub type BlockContentHash = HeaderHash;

/// The identity of a block: the hash of its serialized header.
pub type BlockId = HeaderHash;

/// The size in bytes of the block content a header accompanies.
pub type BlockContentSize = u32;

/// The common metadata of every block header, whatever its consensus
/// version. These are exactly the bytes a proof signs.
#[derive(Debug, Clone, PartialEq, Eq)]
pub struct Common {
    pub any_block_version: AnyBlockVersion,
    pub block_date: BlockDate,
    pub block_content_size: BlockContentSize,
    pub block_content_hash: BlockContentHash,
    pub block_parent_hash: BlockId,
    pub chain_length: ChainLength,
}

/// The payload over which header proofs are computed.
pub type HeaderToSign = Common;

/// The mathematical value of a `Common`: the same fields, with byte
/// sequences in place of byte vectors.
pub struct CommonV {
    pub any_block_version: AnyBlockVersion,
    pub block_date: BlockDate,
    pub block_content_size: u32,
    pub block_content_hash: Seq<u8>,
    pub block_parent_hash: Seq<u8>,
    pub chain_length: u32,
}

impl View for Common {
    type V = CommonV;

    open spec fn view(&self) -> CommonV {
        CommonV {
            any_block_version: self.any_block_version,
            block_date: self.block_date,
            block_content_size: self.block_content_size,
            block_content_hash: self.block_content_hash@,
            block_parent_hash: self.block_parent_hash@,
            chain_length: self.chain_length.0,
        }
    }
}

impl CommonV {
    /// Both hashes carry exactly 32 bytes and the version tag is canonical.
    pub open spec fn wf(self) -> bool {
        &&& self.block_content_hash.len() == 32
        &&& self.block_parent_hash.len() == 32
        &&& self.any_block_version.canonical()
    }
}

/// The public identity of a BFT leader: an Ed25519 public key.
#[derive(Debug, Clone, PartialEq, Eq)]
pub struct LeaderId {
    pub bytes: Vec<u8>,
}

impl View for LeaderId {
    type V = Seq<u8>;

    open spec fn view(&self) -> Seq<u8> {
        self.bytes@
    }
}

/// An Ed25519 signature over the canonical bytes of a `Common`.
/// Two signatures are equal exactly when their bytes are equal.
#[derive(Debug, Clone, PartialEq, Eq)]
pub struct BftSignature {
    pub bytes: Vec<u8>,
}

impl View for BftSignature {
    type V = Seq<u8>;

    open spec fn view(&self) -> Seq<u8> {
        self.bytes@
    }
}

/// The proof of a BFT-signed header: the leader's identity and that
/// leader's signature over the header's common metadata.
#[derive(Debug, Clone, PartialEq, Eq)]
pub struct BftProof {
    pub leader_id: LeaderId,
    pub signature: BftSignature,
}

/// The opaque identifier a Genesis-Praos leader is known by; an external
/// registry resolves it to the leader's VRF and KES public keys.
#[derive(Debug, Clone, PartialEq, Eq)]
pub struct GenesisPraosId {
    pub bytes: Vec<u8>,
}

impl View for GenesisPraosId {
    type V = Seq<u8>;

    open spec fn view(&self) -> Seq<u8> {
        self.bytes@
    }
}

/// A verifiable-random-function output bound to a header's metadata:
/// a 32-byte output point followed by a 64-byte proof of correctness.
#[derive(Debug, Clone, PartialEq, Eq)]
pub struct VrfProof {
    pub bytes: Vec<u8>,
}

impl View for VrfProof {
    type V = Seq<u8>;

    open spec fn view(&self) -> Seq<u8> {
        self.bytes@
    }
}

/// The KES signature of a Genesis-Praos header: a signature over the
/// canonical bytes of a `Common`, bound to the key-evolution step implied
/// by the header's slot.
/// Two signatures are equal exactly when their bytes are equal.
#[derive(Debug, Clone, PartialEq, Eq)]
pub struct KESSignature {
    pub bytes: Vec<u8>,
}

impl View for KESSignature {
    type V = Seq<u8>;

    open spec fn view(&self) -> Seq<u8> {
        self.bytes@
    }
}

/// The proof of a Genesis-Praos header: the leader's registry identifier,
/// the VRF output claiming slot leadership, and the KES signature over the
/// header's common metadata.
#[derive(Debug, Clone, PartialEq, Eq)]
pub struct GenesisPraosProof {
    pub genesis_praos_id: GenesisPraosId,
    pub vrf_proof: VrfProof,
    pub kes_proof: KESSignature,
}

/// The consensus proof a header carries, one variant per consensus version.
#[derive(Debug, Clone, PartialEq, Eq)]
pub enum Proof {
    /// No proof at all; legal only for the designated genesis block,
    /// which no consensus layer has signed.
    NoProof,
    Bft(BftProof),
    GenesisPraos(GenesisPraosProof),
}

/// The mathematical value of a `Proof`.
pub enum ProofV {
    NoProof,
    Bft { leader_id: Seq<u8>, signature: Seq<u8> },
    GenesisPraos { praos_id: Seq<u8>, vrf_proof: Seq<u8>, kes_signature: Seq<u8> },
}

impl View for Proof {
    type V = ProofV;

    open spec fn view(&self) -> ProofV {
        match self {
            Proof::NoProof => ProofV::NoProof,
            Proof::Bft(p) => ProofV::Bft {
                leader_id: p.leader_id@,
                signature: p.signature@,
            },
            Proof::GenesisPraos(p) => ProofV::GenesisPraos {
                praos_id: p.genesis_praos_id@,
                vrf_proof: p.vrf_proof@,
                kes_signature: p.kes_proof@,
            },
        }
    }
}

/// A block header: the common metadata of the block together with the
/// consensus proof that a legitimate leader produced it. The proof variant
/// always matches the version tag in the metadata.
#[derive(Debug, Clone, PartialEq, Eq)]
pub struct Header {
    pub common: Common,
    pub proof: Proof,
}

/// The mathematical value of a `Header`.
pub struct HeaderV {
    pub common: CommonV,
    pub proof: ProofV,
}

impl View for Header {
    type V = HeaderV;

    open spec fn view(&self) -> HeaderV {
        HeaderV { common: self.common@, proof: self.proof@ }
    }
}

impl HeaderV {
    /// Structural well-formedness: the metadata is well formed, every
    /// byte field has its fixed width, and the proof variant matches the
    /// version tag exactly.
    pub open spec fn wf(self) -> bool {
        &&& self.common.wf()
        &&& match self.proof {
            ProofV::NoProof => self.common.any_block_version
                == AnyBlockVersion::Supported(BlockVersion::Genesis),
            ProofV::Bft { leader_id, signature } => {
                &&& self.common.any_block_version
                    == AnyBlockVersion::Supported(BlockVersion::Ed25519Signed)
                &&& leader_id.len() == 32
                &&& signature.len() == 64
            },
            ProofV::GenesisPraos { praos_id, vrf_proof, kes_signature } => {
                &&& self.common.any_block_version
                    == AnyBlockVersion::Supported(BlockVersion::KesVrfproof)
                &&& praos_id.len() == 32
                &&& vrf_proof.len() == 96
                &&& kes_signature.len() == 64
            },
        }
    }
}

impl Header {
    pub open spec fn wf(self) -> bool {
        self@.wf()
    }

    pub fn block_version(&self) -> (r: AnyBlockVersion)
        ensures
            r == self.common.any_block_version,
    {
        self.common.any_block_version
    }

    pub fn block_date(&self) -> (r: &BlockDate)
        ensures
            *r == self.common.block_date,
    {
        &self.common.block_date
    }

    pub fn block_content_hash(&self) -> (r: &BlockContentHash)
        ensures
            r@ == self.common.block_content_hash@,
    {
        &self.common.block_content_hash
    }

    pub fn block_parent_hash(&self) -> (r: &BlockId)
        ensures
            r@ == self.common.block_parent_hash@,
    {
        &self.common.block_parent_hash
    }

    pub fn chain_length(&self) -> (r: ChainLength)
        ensures
            r == self.common.chain_length,
    {
        self.common.chain_length
    }

    pub fn block_proof(&self) -> (r: &Proof)
        ensures
            r@ == self@.proof,
    {
        &self.proof
    }

    pub fn date(&self) -> (r: BlockDate)
        ensures
            r == self.common.block_date,
    {
        self.common.block_date
    }

    pub fn version(&self) -> (r: AnyBlockVersion)
        ensures
            r == self.common.any_block_version,
    {
        self.common.any_block_version
    }
}

} // verus!
