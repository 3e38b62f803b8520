use vstd::prelude::*;
use vstd::bytes::*;
use vstd::slice::*;

use crate::header::AnyBlockVersion;
use crate::header::BftProof;
use crate::header::BftSignature;
use crate::header::BlockDate;
use crate::header::BlockVersion;
use crate::header::ChainLength;
use crate::header::Common;
use crate::header::CommonV;
use crate::header::GenesisPraosId;
use crate::header::GenesisPraosProof;
use crate::header::Header;
use crate::header::HeaderHash;
use crate::header::HeaderV;
use crate::header::KESSignature;
use crate::header::LeaderId;
use crate::header::Proof;
use crate::header::ProofV;
use crate::header::VrfProof;
use crate::crypto;
use crate::crypto::blake2b_hash;
use crate::crypto::vrf_proof_wf;

verus! {

/// Why a decode attempt failed. Every failure is fatal to that attempt:
/// no partial value is ever returned.
#[derive(Debug, Clone, Copy, PartialEq, Eq, Structural)]
pub enum DecodeError {
    /// The stream ended before a fixed-width field was complete.
    Truncated,
    /// Bytes remained after the structure had been fully read.
    TrailingData,
    /// The version tag names no supported consensus version;
    /// carries the raw 16-bit tag for diagnostics.
    UnsupportedVersion(u16),
    /// The VRF proof bytes failed their well-formedness check.
    MalformedVrfProof,
}

/// The canonical byte encoding of a header's common metadata: the 16-bit
/// version tag, then the 32-bit content size, epoch, slot and chain length,
/// then the content hash and the parent hash. All integers are
/// little-endian. Exactly one byte sequence encodes each value.
pub open spec fn spec_encode_common(c: CommonV) -> Seq<u8> {
    spec_u16_to_le_bytes(c.any_block_version.spec_to_u16())
        + spec_u32_to_le_bytes(c.block_content_size)
        + spec_u32_to_le_bytes(c.block_date.epoch)
        + spec_u32_to_le_bytes(c.block_date.slot_id)
        + spec_u32_to_le_bytes(c.chain_length)
        + c.block_content_hash
        + c.block_parent_hash
}

/// The proof trailer: nothing for a missing proof, leader identity then
/// signature for BFT, identifier then VRF value then KES signature for
/// Genesis-Praos. The trailer has no length prefix of its own; the version
/// tag in the metadata determines its shape.
pub open spec fn spec_encode_proof(p: ProofV) -> Seq<u8> {
    match p {
        ProofV::NoProof => Seq::empty(),
        ProofV::Bft { leader_id, signature } => leader_id + signature,
        ProofV::GenesisPraos { praos_id, vrf_proof, kes_signature } => praos_id + vrf_proof
            + kes_signature,
    }
}

/// The canonical byte encoding of a whole header: the common metadata
/// followed by the proof trailer.
pub open spec fn spec_encode_header(h: HeaderV) -> Seq<u8> {
    spec_encode_common(h.common) + spec_encode_proof(h.proof)
}

/// The common metadata read from the first 82 bytes of `s`.
/// Meaningful only when `s` holds at least 82 bytes.
pub open spec fn spec_parse_common(s: Seq<u8>) -> CommonV {
    CommonV {
        any_block_version: AnyBlockVersion::spec_from_u16(spec_u16_from_le_bytes(s.subrange(0, 2))),
        block_content_size: spec_u32_from_le_bytes(s.subrange(2, 6)),
        block_date: BlockDate {
            epoch: spec_u32_from_le_bytes(s.subrange(6, 10)),
            slot_id: spec_u32_from_le_bytes(s.subrange(10, 14)),
        },
        chain_length: spec_u32_from_le_bytes(s.subrange(14, 18)),
        block_content_hash: s.subrange(18, 50),
        block_parent_hash: s.subrange(50, 82),
    }
}

/// The header read from the front of `s`, together with how many bytes it
/// occupied, or the decode error. The version tag is read first; only then
/// is the shape of the trailer known, so a wrong tag/trailer pairing fails
/// rather than being coerced. The whole trailer must be present before its
/// contents are inspected.
pub open spec fn spec_read_header(s: Seq<u8>) -> Result<(HeaderV, int), DecodeError> {
    if s.len() < 82 {
        Err(DecodeError::Truncated)
    } else {
        let c = spec_parse_common(s);
        match c.any_block_version {
            AnyBlockVersion::Unsupported(raw) => Err(DecodeError::UnsupportedVersion(raw)),
            AnyBlockVersion::Supported(BlockVersion::Genesis) => Ok(
                (HeaderV { common: c, proof: ProofV::NoProof }, 82),
            ),
            AnyBlockVersion::Supported(BlockVersion::Ed25519Signed) => if s.len() < 178 {
                Err(DecodeError::Truncated)
            } else {
                Ok(
                    (
                        HeaderV {
                            common: c,
                            proof: ProofV::Bft {
                                leader_id: s.subrange(82, 114),
                                signature: s.subrange(114, 178),
                            },
                        },
                        178,
                    ),
                )
            },
            AnyBlockVersion::Supported(BlockVersion::KesVrfproof) => if s.len() < 274 {
                Err(DecodeError::Truncated)
            } else if !vrf_proof_wf(s.subrange(146, 210)) {
                Err(DecodeError::MalformedVrfProof)
            } else {
                Ok(
                    (
                        HeaderV {
                            common: c,
                            proof: ProofV::GenesisPraos {
                                praos_id: s.subrange(82, 114),
                                vrf_proof: s.subrange(114, 210),
                                kes_signature: s.subrange(210, 274),
                            },
                        },
                        274,
                    ),
                )
            },
        }
    }
}

/// A header's proof trailer carries well-formed VRF proof bytes wherever it
/// carries VRF proof bytes at all. Decoding checks exactly this, so only
/// headers satisfying it survive a round trip through the wire format.
pub open spec fn spec_proof_bytes_wf(h: HeaderV) -> bool {
    match h.proof {
        ProofV::GenesisPraos { vrf_proof, .. } => vrf_proof_wf(vrf_proof.subrange(32, 96)),
        _ => true,
    }
}

/// The length-prefixed outer framing: a 16-bit byte count, then the bytes.
pub open spec fn spec_frame(s: Seq<u8>) -> Seq<u8> {
    spec_u16_to_le_bytes(s.len() as u16) + s
}

/// The first frame sliced out of the front of a stream: the framed bytes
/// and how much of the stream they occupied, with no look at their content.
pub open spec fn spec_unframe(s: Seq<u8>) -> Result<(Seq<u8>, int), DecodeError> {
    if s.len() < 2 {
        Err(DecodeError::Truncated)
    } else {
        let n = spec_u16_from_le_bytes(s.subrange(0, 2)) as int;
        if s.len() < 2 + n {
            Err(DecodeError::Truncated)
        } else {
            Ok((s.subrange(2, 2 + n), 2 + n))
        }
    }
}

/// A whole header decoded from one frame: the frame is sliced out, the
/// header is read from it, and every framed byte must have been consumed.
pub open spec fn spec_deserialize_header(s: Seq<u8>) -> Result<HeaderV, DecodeError> {
    match spec_unframe(s) {
        Err(e) => Err(e),
        Ok((payload, _)) => match spec_read_header(payload) {
            Err(e) => Err(e),
            Ok((h, n)) => if n == payload.len() {
                Ok(h)
            } else {
                Err(DecodeError::TrailingData)
            },
        },
    }
}

/// Appends the bytes of `src` to `out`.
pub(crate) fn append_bytes(out: &mut Vec<u8>, src: &[u8])
    ensures
        final(out)@ == old(out)@ + src@,
{
    let mut i: usize = 0;
    while i < src.len()
        invariant
            i <= src@.len(),
            out@ == old(out)@ + src@.subrange(0, i as int),
        decreases src@.len() - i,
    {
        let b = *slice_index_get(src, i);
        out.push(b);
        proof {
            assert(src@.subrange(0, i as int).push(src@[i as int]) =~= src@.subrange(
                0,
                i as int + 1,
            ));
            assert(old(out)@ + src@.subrange(0, i as int + 1) =~= (old(out)@ + src@.subrange(
                0,
                i as int,
            )).push(src@[i as int]));
        }
        i += 1;
    }
    proof {
        assert(src@.subrange(0, src@.len() as int) =~= src@);
    }
}

/// The raw bytes of a serialized header, as sliced out of a framed stream
/// or produced by serialization, before or without full parsing.
#[derive(Debug, Clone, PartialEq, Eq)]
pub struct HeaderRaw(pub Vec<u8>);

impl View for HeaderRaw {
    type V = Seq<u8>;

    open spec fn view(&self) -> Seq<u8> {
        self.0@
    }
}

impl HeaderRaw {
    /// Writes the outer framing: a 16-bit length prefix, then the bytes.
    pub fn serialize(&self) -> (r: Vec<u8>)
        requires
            self@.len() <= u16::MAX,
        ensures
            r@ == spec_frame(self@),
    {
        let mut out = u16_to_le_bytes(self.0.len() as u16);
        append_bytes(&mut out, self.0.as_slice());
        out
    }

    /// Slices the first frame out of the front of a stream, without
    /// looking at its content, and reports how many bytes it occupied.
    pub fn deserialize(input: &[u8]) -> (r: Result<(HeaderRaw, usize), DecodeError>)
        ensures
            (match r {
                Ok(p) => spec_unframe(input@) == Ok::<(Seq<u8>, int), DecodeError>(
                    (p.0@, p.1 as int),
                ),
                Err(e) => spec_unframe(input@) == Err::<(Seq<u8>, int), DecodeError>(e),
            }),
    {
        if input.len() < 2 {
            return Err(DecodeError::Truncated);
        }
        let n = u16_from_le_bytes(slice_subrange(input, 0, 2)) as usize;
        if input.len() - 2 < n {
            return Err(DecodeError::Truncated);
        }
        let bytes = slice_to_vec(slice_subrange(input, 2, 2 + n));
        Ok((HeaderRaw(bytes), 2 + n))
    }
}

impl Common {
    /// The canonical serialization of this metadata.
    pub fn serialize(&self) -> (r: Vec<u8>)
        ensures
            r@ == spec_encode_common(self@),
            r@.len() == 18 + self.block_content_hash@.len() + self.block_parent_hash@.len(),
    {
        let mut out: Vec<u8> = Vec::new();
        let mut tag = u16_to_le_bytes(self.any_block_version.to_u16());
        out.append(&mut tag);
        let mut content_size = u32_to_le_bytes(self.block_content_size);
        out.append(&mut content_size);
        let mut epoch = u32_to_le_bytes(self.block_date.epoch);
        out.append(&mut epoch);
        let mut slot_id = u32_to_le_bytes(self.block_date.slot_id);
        out.append(&mut slot_id);
        let mut chain_length = u32_to_le_bytes(self.chain_length.0);
        out.append(&mut chain_length);
        append_bytes(&mut out, self.block_content_hash.bytes.as_slice());
        append_bytes(&mut out, self.block_parent_hash.bytes.as_slice());
        out
    }

    /// Reads the common metadata from the front of `input`: 82 bytes of
    /// fixed-width fields. Fails exactly when fewer bytes are available.
    pub fn read(input: &[u8]) -> (r: Result<(Common, usize), DecodeError>)
        ensures
            (match r {
                Ok(p) => {
                    &&& input@.len() >= 82
                    &&& p.0@ == spec_parse_common(input@)
                    &&& p.1 == 82
                    &&& p.0@.wf()
                },
                Err(e) => input@.len() < 82 && e == DecodeError::Truncated,
            }),
    {
        if input.len() < 82 {
            return Err(DecodeError::Truncated);
        }
        let tag = u16_from_le_bytes(slice_subrange(input, 0, 2));
        let block_content_size = u32_from_le_bytes(slice_subrange(input, 2, 6));
        let epoch = u32_from_le_bytes(slice_subrange(input, 6, 10));
        let slot_id = u32_from_le_bytes(slice_subrange(input, 10, 14));
        let chain_length = u32_from_le_bytes(slice_subrange(input, 14, 18));
        let block_content_hash = slice_to_vec(slice_subrange(input, 18, 50));
        let block_parent_hash = slice_to_vec(slice_subrange(input, 50, 82));
        let c = Common {
            any_block_version: AnyBlockVersion::from_u16(tag),
            block_date: BlockDate { epoch, slot_id },
            block_content_size,
            block_content_hash: HeaderHash { bytes: block_content_hash },
            block_parent_hash: HeaderHash { bytes: block_parent_hash },
            chain_length: ChainLength(chain_length),
        };
        Ok((c, 82))
    }
}

impl Header {
    /// The canonical serialization of this header: the common metadata,
    /// then the proof trailer whose shape the version tag determines.
    pub fn serialize(&self) -> (r: Vec<u8>)
        ensures
            r@ == spec_encode_header(self@),
    {
        let mut out = self.common.serialize();
        match &self.proof {
            Proof::NoProof => {},
            Proof::Bft(bft_proof) => {
                append_bytes(&mut out, bft_proof.leader_id.bytes.as_slice());
                append_bytes(&mut out, bft_proof.signature.bytes.as_slice());
            },
            Proof::GenesisPraos(genesis_praos_proof) => {
                append_bytes(&mut out, genesis_praos_proof.genesis_praos_id.bytes.as_slice());
                append_bytes(&mut out, genesis_praos_proof.vrf_proof.bytes.as_slice());
                append_bytes(&mut out, genesis_praos_proof.kes_proof.bytes.as_slice());
            },
        }
        proof {
            assert(out@ =~= spec_encode_header(self@));
        }
        out
    }

    /// Reads one header from the front of `input`, returning it and the
    /// number of bytes it occupied. Unconsumed bytes after the header are
    /// left for the caller; the framed entry point demands full
    /// consumption instead.
    pub fn read(input: &[u8]) -> (r: Result<(Header, usize), DecodeError>)
        ensures
            (match r {
                Ok(p) => {
                    &&& spec_read_header(input@) == Ok::<(HeaderV, int), DecodeError>(
                        (p.0@, p.1 as int),
                    )
                    &&& p.0.wf()
                    &&& spec_proof_bytes_wf(p.0@)
                },
                Err(e) => spec_read_header(input@) == Err::<(HeaderV, int), DecodeError>(e),
            }),
    {
        let common = match Common::read(input) {
            Ok(p) => p.0,
            Err(e) => {
                return Err(e);
            },
        };
        match common.any_block_version {
            AnyBlockVersion::Unsupported(raw) => Err(DecodeError::UnsupportedVersion(raw)),
            AnyBlockVersion::Supported(BlockVersion::Genesis) => {
                Ok((Header { common, proof: Proof::NoProof }, 82))
            },
            AnyBlockVersion::Supported(BlockVersion::Ed25519Signed) => {
                if input.len() < 178 {
                    return Err(DecodeError::Truncated);
                }
                let leader_id = LeaderId { bytes: slice_to_vec(slice_subrange(input, 82, 114)) };
                let signature = BftSignature {
                    bytes: slice_to_vec(slice_subrange(input, 114, 178)),
                };
                Ok((Header { common, proof: Proof::Bft(BftProof { leader_id, signature }) }, 178))
            },
            AnyBlockVersion::Supported(BlockVersion::KesVrfproof) => {
                if input.len() < 274 {
                    return Err(DecodeError::Truncated);
                }
                let proof_part = slice_to_vec(slice_subrange(input, 146, 210));
                if !crypto::vrf_proof_well_formed(&proof_part) {
                    return Err(DecodeError::MalformedVrfProof);
                }
                let genesis_praos_id = GenesisPraosId {
                    bytes: slice_to_vec(slice_subrange(input, 82, 114)),
                };
                let vrf_proof = VrfProof { bytes: slice_to_vec(slice_subrange(input, 114, 210)) };
                let kes_proof = KESSignature {
                    bytes: slice_to_vec(slice_subrange(input, 210, 274)),
                };
                proof {
                    assert(vrf_proof.bytes@.subrange(32, 96) =~= input@.subrange(146, 210));
                }
                Ok(
                    (
                        Header {
                            common,
                            proof: Proof::GenesisPraos(
                                GenesisPraosProof { genesis_praos_id, vrf_proof, kes_proof },
                            ),
                        },
                        274,
                    ),
                )
            },
        }
    }

    /// The raw bytes of this header, ready for framing.
    pub fn to_raw(&self) -> (r: HeaderRaw)
        ensures
            r@ == spec_encode_header(self@),
    {
        HeaderRaw(self.serialize())
    }

    /// The identity of this header: the Blake2b digest of its canonical
    /// serialization, without the outer length prefix.
    pub fn hash(&self) -> (r: HeaderHash)
        ensures
            r@ == blake2b_hash(spec_encode_header(self@)),
            r.wf(),
    {
        let bytes = self.serialize();
        HeaderHash { bytes: crypto::blake2b(&bytes) }
    }

    /// The identity of this header; the same value `hash` computes.
    pub fn id(&self) -> (r: HeaderHash)
        ensures
            r@ == blake2b_hash(spec_encode_header(self@)),
            r.wf(),
    {
        self.hash()
    }

    /// The identity of this header's parent block.
    pub fn parent_id(&self) -> (r: HeaderHash)
        ensures
            r@ == self.common.block_parent_hash@,
    {
        HeaderHash { bytes: slice_to_vec(self.common.block_parent_hash.bytes.as_slice()) }
    }

    /// Decodes one framed header: slices the frame out of the stream,
    /// reads the header, and demands that the frame holds nothing else.
    pub fn deserialize(input: &[u8]) -> (r: Result<Header, DecodeError>)
        ensures
            (match r {
                Ok(h) => {
                    &&& spec_deserialize_header(input@) == Ok::<HeaderV, DecodeError>(h@)
                    &&& h.wf()
                    &&& spec_proof_bytes_wf(h@)
                },
                Err(e) => spec_deserialize_header(input@) == Err::<HeaderV, DecodeError>(e),
            }),
    {
        let raw = match HeaderRaw::deserialize(input) {
            Ok(p) => p.0,
            Err(e) => {
                return Err(e);
            },
        };
        let (h, n) = match Self::read(raw.0.as_slice()) {
            Ok(p) => p,
            Err(e) => {
                return Err(e);
            },
        };
        if n != raw.0.len() {
            return Err(DecodeError::TrailingData);
        }
        Ok(h)
    }
}

/// Tag/variant coupling: whatever the byte stream, a successful read
/// yields only a well-formed header, whose proof variant matches its
/// version tag and whose VRF proof bytes passed their check; a mismatched
/// trailer can only fail, never be coerced.
pub proof fn lemma_read_header_wf(s: Seq<u8>)
    requires
        spec_read_header(s) is Ok,
    ensures
        spec_read_header(s)->Ok_0.0.wf(),
        spec_proof_bytes_wf(spec_read_header(s)->Ok_0.0),
{
    let h = spec_read_header(s)->Ok_0.0;
    match h.proof {
        ProofV::NoProof => {},
        ProofV::Bft { .. } => {},
        ProofV::GenesisPraos { vrf_proof, .. } => {
            assert(vrf_proof.subrange(32, 96) =~= s.subrange(146, 210));
        },
    }
}

/// Canonicity of the outer framing: whatever frame a stream slices into,
/// re-framing the payload yields exactly the bytes that were consumed.
pub proof fn lemma_unframe_canonical(s: Seq<u8>)
    requires
        spec_unframe(s) is Ok,
    ensures
        spec_frame(spec_unframe(s)->Ok_0.0) == s.subrange(0, spec_unframe(s)->Ok_0.1),
{
    vstd::bytes::lemma_auto_spec_u16_to_from_le_bytes();
    let payload = spec_unframe(s)->Ok_0.0;
    assert(spec_u16_to_le_bytes(payload.len() as u16) == s.subrange(0, 2));
    assert(spec_frame(payload) =~= s.subrange(0, spec_unframe(s)->Ok_0.1));
}

/// Canonicity, the other direction of the round trip: whatever header a
/// byte stream reads as, re-encoding that header yields exactly the bytes
/// that were consumed. Together with the round-trip lemma this makes the
/// encoding single-valued, which the header hash and the signatures over
/// header bytes rely on.
pub proof fn lemma_read_header_canonical(s: Seq<u8>)
    requires
        spec_read_header(s) is Ok,
    ensures
        spec_encode_header(spec_read_header(s)->Ok_0.0) == s.subrange(
            0,
            spec_read_header(s)->Ok_0.1,
        ),
{
    vstd::bytes::lemma_auto_spec_u16_to_from_le_bytes();
    vstd::bytes::lemma_auto_spec_u32_to_from_le_bytes();
    let h = spec_read_header(s)->Ok_0.0;
    let n = spec_read_header(s)->Ok_0.1;
    let c = h.common;
    crate::header::lemma_version_tag_round_trip(
        spec_u16_from_le_bytes(s.subrange(0, 2)),
        c.any_block_version,
    );
    assert(spec_u16_to_le_bytes(c.any_block_version.spec_to_u16()) == s.subrange(0, 2));
    assert(spec_u32_to_le_bytes(c.block_content_size) == s.subrange(2, 6));
    assert(spec_u32_to_le_bytes(c.block_date.epoch) == s.subrange(6, 10));
    assert(spec_u32_to_le_bytes(c.block_date.slot_id) == s.subrange(10, 14));
    assert(spec_u32_to_le_bytes(c.chain_length) == s.subrange(14, 18));
    assert(spec_encode_common(c) =~= s.subrange(0, 82));
    match h.proof {
        ProofV::NoProof => {
            assert(spec_encode_header(h) =~= s.subrange(0, 82));
        },
        ProofV::Bft { .. } => {
            assert(spec_encode_header(h) =~= s.subrange(0, 178));
        },
        ProofV::GenesisPraos { .. } => {
            assert(spec_encode_header(h) =~= s.subrange(0, 274));
        },
    }
}

/// How long a well-formed header's canonical encoding is: 82 bytes of
/// metadata, and a trailer of 0, 96 or 192 bytes by proof variant.
pub proof fn lemma_encode_header_len(h: HeaderV)
    requires
        h.wf(),
    ensures
        spec_encode_header(h).len() == 82 + (match h.proof {
            ProofV::NoProof => 0int,
            ProofV::Bft { .. } => 96int,
            ProofV::GenesisPraos { .. } => 192int,
        }),
{
    vstd::bytes::lemma_auto_spec_u16_to_from_le_bytes();
    vstd::bytes::lemma_auto_spec_u32_to_from_le_bytes();
}

/// Parsing inverts encoding on the common metadata: whatever follows the
/// 82 encoded bytes, the parsed value is the one encoded.
pub proof fn lemma_common_encode_parse(c: CommonV, tail: Seq<u8>)
    requires
        c.wf(),
    ensures
        spec_encode_common(c).len() == 82,
        spec_parse_common(spec_encode_common(c) + tail) == c,
{
    vstd::bytes::lemma_auto_spec_u16_to_from_le_bytes();
    vstd::bytes::lemma_auto_spec_u32_to_from_le_bytes();
    let s = spec_encode_common(c) + tail;
    assert(s.subrange(0, 2) =~= spec_u16_to_le_bytes(c.any_block_version.spec_to_u16()));
    assert(s.subrange(2, 6) =~= spec_u32_to_le_bytes(c.block_content_size));
    assert(s.subrange(6, 10) =~= spec_u32_to_le_bytes(c.block_date.epoch));
    assert(s.subrange(10, 14) =~= spec_u32_to_le_bytes(c.block_date.slot_id));
    assert(s.subrange(14, 18) =~= spec_u32_to_le_bytes(c.chain_length));
    assert(s.subrange(18, 50) =~= c.block_content_hash);
    assert(s.subrange(50, 82) =~= c.block_parent_hash);
    crate::header::lemma_version_tag_round_trip(0, c.any_block_version);
}

/// Round trip of a whole header through the canonical wire format: every
/// well-formed header whose VRF proof bytes pass their well-formedness
/// check reads back from its own encoding, with every byte consumed.
pub proof fn lemma_header_round_trip(h: HeaderV)
    requires
        h.wf(),
        spec_proof_bytes_wf(h),
    ensures
        spec_read_header(spec_encode_header(h)) == Ok::<(HeaderV, int), DecodeError>(
            (h, spec_encode_header(h).len() as int),
        ),
{
    let s = spec_encode_header(h);
    lemma_common_encode_parse(h.common, spec_encode_proof(h.proof));
    lemma_encode_header_len(h);
    assert(spec_parse_common(s) == h.common);
    match h.proof {
        ProofV::NoProof => {},
        ProofV::Bft { leader_id, signature } => {
            assert(s.subrange(82, 114) =~= leader_id);
            assert(s.subrange(114, 178) =~= signature);
        },
        ProofV::GenesisPraos { praos_id, vrf_proof, kes_signature } => {
            assert(s.subrange(82, 114) =~= praos_id);
            assert(s.subrange(114, 210) =~= vrf_proof);
            assert(s.subrange(210, 274) =~= kes_signature);
            assert(s.subrange(146, 210) =~= vrf_proof.subrange(32, 96));
        },
    }
}

/// Round trip through the outer framing as well: a framed encoding
/// deserializes back to exactly the header that was encoded.
pub proof fn lemma_header_framed_round_trip(h: HeaderV)
    requires
        h.wf(),
        spec_proof_bytes_wf(h),
    ensures
        spec_deserialize_header(spec_frame(spec_encode_header(h))) == Ok::<HeaderV, DecodeError>(
            h,
        ),
{
    vstd::bytes::lemma_auto_spec_u16_to_from_le_bytes();
    let e = spec_encode_header(h);
    lemma_header_round_trip(h);
    lemma_encode_header_len(h);
    let f = spec_frame(e);
    assert(f.subrange(0, 2) =~= spec_u16_to_le_bytes(e.len() as u16));
    assert(f.subrange(2, 2 + e.len() as int) =~= e);
}

} // verus!
