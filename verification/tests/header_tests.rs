use ed25519_dalek::Signer;
use ed25519_dalek::Verifier;

use mockchain::AnyBlockVersion;
use mockchain::BftProof;
use mockchain::BlockDate;
use mockchain::BlockVersion;
use mockchain::ChainLength;
use mockchain::Common;
use mockchain::DecodeError;
use mockchain::GenesisPraosId;
use mockchain::GenesisPraosKeys;
use mockchain::GenesisPraosProof;
use mockchain::Header;
use mockchain::HeaderHash;
use mockchain::HeaderRaw;
use mockchain::KeyRegistry;
use mockchain::PrivateKey;
use mockchain::Proof;
use mockchain::Verification;
use mockchain::VerificationFailure;

fn mk_hash(byte: u8) -> HeaderHash {
    HeaderHash { bytes: vec![byte; 32] }
}

fn mk_common(version: AnyBlockVersion) -> Common {
    Common {
        any_block_version: version,
        block_date: BlockDate { epoch: 3, slot_id: 7 },
        block_content_size: 420,
        block_content_hash: mk_hash(0xaa),
        block_parent_hash: mk_hash(0xbb),
        chain_length: ChainLength(41),
    }
}

fn common_wire_bytes(tag: u16) -> Vec<u8> {
    let mut bytes = Vec::new();
    bytes.extend_from_slice(&tag.to_le_bytes());
    bytes.extend_from_slice(&420u32.to_le_bytes());
    bytes.extend_from_slice(&3u32.to_le_bytes());
    bytes.extend_from_slice(&7u32.to_le_bytes());
    bytes.extend_from_slice(&41u32.to_le_bytes());
    bytes.extend_from_slice(&[0xaa; 32]);
    bytes.extend_from_slice(&[0xbb; 32]);
    bytes
}

fn vrf_keypair(seed: [u8; 32]) -> schnorrkel::Keypair {
    schnorrkel::MiniSecretKey::from_bytes(&seed)
        .unwrap()
        .expand_to_keypair(schnorrkel::ExpansionMode::Ed25519)
}

fn mk_praos_header() -> (Header, GenesisPraosId, PrivateKey, PrivateKey) {
    let common = mk_common(AnyBlockVersion::Supported(BlockVersion::KesVrfproof));
    let praos_id = GenesisPraosId { bytes: vec![0x11; 32] };
    let vrf_key = PrivateKey { bytes: vec![21; 32] };
    let kes_key = PrivateKey { bytes: vec![22; 32] };
    let proof = GenesisPraosProof::make(
        &common,
        GenesisPraosId { bytes: praos_id.bytes.clone() },
        &vrf_key,
        &kes_key,
    );
    (
        Header { common, proof: Proof::GenesisPraos(proof) },
        praos_id,
        vrf_key,
        kes_key,
    )
}

fn praos_registry(praos_id: &GenesisPraosId, vrf_key: &PrivateKey, kes_key: &PrivateKey) -> KeyRegistry {
    let vrf_public = vrf_keypair(vrf_key.bytes.clone().try_into().unwrap())
        .public
        .to_bytes()
        .to_vec();
    let kes_public = ed25519_dalek::SigningKey::from_bytes(
        kes_key.bytes.as_slice().try_into().unwrap(),
    )
    .verifying_key()
    .to_bytes()
    .to_vec();
    let mut registry = KeyRegistry::new();
    registry.register(
        GenesisPraosId { bytes: praos_id.bytes.clone() },
        GenesisPraosKeys { vrf_public_key: vrf_public, kes_public_key: kes_public },
    );
    registry
}

#[test]
fn chain_length_next_increments() {
    assert_eq!(ChainLength(0).next(), ChainLength(1));
    assert_eq!(ChainLength(41).next(), ChainLength(42));
}

#[test]
fn chain_length_next_wraps_at_max() {
    assert_eq!(ChainLength(u32::MAX).next(), ChainLength(0));
}

#[test]
fn version_tag_wire_values() {
    assert_eq!(
        AnyBlockVersion::from_u16(0),
        AnyBlockVersion::Supported(BlockVersion::Genesis)
    );
    assert_eq!(
        AnyBlockVersion::from_u16(1),
        AnyBlockVersion::Supported(BlockVersion::Ed25519Signed)
    );
    assert_eq!(
        AnyBlockVersion::from_u16(2),
        AnyBlockVersion::Supported(BlockVersion::KesVrfproof)
    );
    assert_eq!(AnyBlockVersion::from_u16(99), AnyBlockVersion::Unsupported(99));
    assert_eq!(AnyBlockVersion::Unsupported(99).to_u16(), 99);
}

#[test]
fn genesis_tag_decodes_to_no_proof_and_reencodes() {
    let bytes = common_wire_bytes(0);
    let (header, consumed) = Header::read(bytes.as_slice()).unwrap();
    assert_eq!(consumed, 82);
    assert!(matches!(header.proof, Proof::NoProof));
    assert_eq!(header.common, mk_common(AnyBlockVersion::Supported(BlockVersion::Genesis)));
    assert_eq!(header.serialize(), bytes);
}

#[test]
fn bft_tag_decodes_to_bft_and_reencodes() {
    let mut bytes = common_wire_bytes(1);
    bytes.extend_from_slice(&[0x33; 32]);
    bytes.extend_from_slice(&[0x44; 64]);
    let (header, consumed) = Header::read(bytes.as_slice()).unwrap();
    assert_eq!(consumed, 178);
    match &header.proof {
        Proof::Bft(p) => {
            assert_eq!(p.leader_id.bytes, vec![0x33; 32]);
            assert_eq!(p.signature.bytes, vec![0x44; 64]);
        }
        _ => panic!("expected a BFT proof"),
    }
    assert_eq!(header.serialize(), bytes);
}

#[test]
fn praos_tag_decodes_to_genesis_praos_and_reencodes() {
    let (header, _, _, _) = mk_praos_header();
    let bytes = header.serialize();
    let (decoded, consumed) = Header::read(bytes.as_slice()).unwrap();
    assert_eq!(consumed, 274);
    assert!(matches!(decoded.proof, Proof::GenesisPraos(_)));
    assert_eq!(decoded, header);
    assert_eq!(decoded.serialize(), bytes);
}

#[test]
fn header_round_trip_genesis() {
    let header = Header {
        common: mk_common(AnyBlockVersion::Supported(BlockVersion::Genesis)),
        proof: Proof::NoProof,
    };
    let framed = header.to_raw().serialize();
    let decoded = Header::deserialize(framed.as_slice()).unwrap();
    assert_eq!(decoded, header);
}

#[test]
fn header_round_trip_bft() {
    let common = mk_common(AnyBlockVersion::Supported(BlockVersion::Ed25519Signed));
    let key = PrivateKey { bytes: vec![9; 32] };
    let proof = BftProof::make(&common, &key);
    let header = Header { common, proof: Proof::Bft(proof) };
    let framed = header.to_raw().serialize();
    let decoded = Header::deserialize(framed.as_slice()).unwrap();
    assert_eq!(decoded, header);
}

#[test]
fn header_round_trip_genesis_praos() {
    let (header, _, _, _) = mk_praos_header();
    let framed = header.to_raw().serialize();
    let decoded = Header::deserialize(framed.as_slice()).unwrap();
    assert_eq!(decoded, header);
}

#[test]
fn unknown_version_tag_is_reported_with_its_value() {
    let bytes = common_wire_bytes(99);
    assert_eq!(
        Header::read(bytes.as_slice()),
        Err(DecodeError::UnsupportedVersion(99))
    );
}

#[test]
fn genesis_tag_with_bft_trailer_is_a_structural_error() {
    let mut bytes = common_wire_bytes(0);
    bytes.extend_from_slice(&[0x33; 32]);
    bytes.extend_from_slice(&[0x44; 64]);
    let raw = HeaderRaw(bytes);
    let framed = raw.serialize();
    assert_eq!(
        Header::deserialize(framed.as_slice()),
        Err(DecodeError::TrailingData)
    );
}

#[test]
fn truncated_header_is_a_structural_error() {
    let bytes = common_wire_bytes(1);
    assert_eq!(Header::read(&bytes.as_slice()[..40]), Err(DecodeError::Truncated));
    assert_eq!(Header::read(bytes.as_slice()), Err(DecodeError::Truncated));
}

#[test]
fn malformed_vrf_proof_is_a_structural_error() {
    let mut bytes = common_wire_bytes(2);
    bytes.extend_from_slice(&[0x11; 32]);
    bytes.extend_from_slice(&[0x22; 32]);
    bytes.extend_from_slice(&[0xff; 64]);
    bytes.extend_from_slice(&[0x55; 64]);
    assert_eq!(
        Header::read(bytes.as_slice()),
        Err(DecodeError::MalformedVrfProof)
    );
}

#[test]
fn frame_is_sliced_without_parsing() {
    let mut stream = HeaderRaw(vec![1, 2, 3, 4]).serialize();
    stream.extend_from_slice(&[9, 9, 9]);
    let (raw, consumed) = HeaderRaw::deserialize(stream.as_slice()).unwrap();
    assert_eq!(raw.0, vec![1, 2, 3, 4]);
    assert_eq!(consumed, 6);
    assert_eq!(
        HeaderRaw::deserialize(&stream.as_slice()[..1]),
        Err(DecodeError::Truncated)
    );
    assert_eq!(
        HeaderRaw::deserialize(&stream.as_slice()[..5]),
        Err(DecodeError::Truncated)
    );
}

#[test]
fn bft_header_with_matching_keys_verifies() {
    let common = mk_common(AnyBlockVersion::Supported(BlockVersion::Ed25519Signed));
    let key = PrivateKey { bytes: vec![9; 32] };
    let proof = BftProof::make(&common, &key);
    let expected_leader = ed25519_dalek::SigningKey::from_bytes(&[9; 32])
        .verifying_key()
        .to_bytes()
        .to_vec();
    assert_eq!(proof.leader_id.bytes, expected_leader);
    let header = Header { common, proof: Proof::Bft(proof) };
    let registry = KeyRegistry::new();
    assert_eq!(header.verify_proof(&registry), Verification::Success);
}

#[test]
fn bft_header_with_corrupt_signature_fails() {
    let common = mk_common(AnyBlockVersion::Supported(BlockVersion::Ed25519Signed));
    let key = PrivateKey { bytes: vec![9; 32] };
    let mut proof = BftProof::make(&common, &key);
    proof.signature.bytes[0] ^= 0x01;
    let header = Header { common, proof: Proof::Bft(proof) };
    let registry = KeyRegistry::new();
    assert_eq!(
        header.verify_proof(&registry),
        Verification::Failed(VerificationFailure::SignatureMismatch)
    );
}

#[test]
fn bft_header_with_altered_metadata_fails() {
    let common = mk_common(AnyBlockVersion::Supported(BlockVersion::Ed25519Signed));
    let key = PrivateKey { bytes: vec![9; 32] };
    let proof = BftProof::make(&common, &key);
    let mut altered = mk_common(AnyBlockVersion::Supported(BlockVersion::Ed25519Signed));
    altered.block_content_size += 1;
    let header = Header { common: altered, proof: Proof::Bft(proof) };
    let registry = KeyRegistry::new();
    assert_eq!(
        header.verify_proof(&registry),
        Verification::Failed(VerificationFailure::SignatureMismatch)
    );
}

#[test]
fn genesis_header_always_verifies() {
    let header = Header {
        common: mk_common(AnyBlockVersion::Supported(BlockVersion::Genesis)),
        proof: Proof::NoProof,
    };
    let registry = KeyRegistry::new();
    assert_eq!(header.verify_proof(&registry), Verification::Success);
}

#[test]
fn genesis_praos_header_with_registered_keys_verifies() {
    let (header, praos_id, vrf_key, kes_key) = mk_praos_header();
    let registry = praos_registry(&praos_id, &vrf_key, &kes_key);
    assert_eq!(header.verify_proof(&registry), Verification::Success);
}

#[test]
fn genesis_praos_header_with_unregistered_id_fails() {
    let (header, _, _, _) = mk_praos_header();
    let registry = KeyRegistry::new();
    assert_eq!(
        header.verify_proof(&registry),
        Verification::Failed(VerificationFailure::UnresolvedLeader)
    );
}

#[test]
fn genesis_praos_header_with_corrupt_vrf_fails() {
    let (mut header, praos_id, vrf_key, kes_key) = mk_praos_header();
    let registry = praos_registry(&praos_id, &vrf_key, &kes_key);
    match &mut header.proof {
        Proof::GenesisPraos(p) => p.vrf_proof.bytes[0] ^= 0x01,
        _ => panic!("expected a Genesis-Praos proof"),
    }
    assert_eq!(
        header.verify_proof(&registry),
        Verification::Failed(VerificationFailure::VrfFailed)
    );
}

#[test]
fn genesis_praos_header_with_corrupt_kes_fails() {
    let (mut header, praos_id, vrf_key, kes_key) = mk_praos_header();
    let registry = praos_registry(&praos_id, &vrf_key, &kes_key);
    match &mut header.proof {
        Proof::GenesisPraos(p) => p.kes_proof.bytes[0] ^= 0x01,
        _ => panic!("expected a Genesis-Praos proof"),
    }
    assert_eq!(
        header.verify_proof(&registry),
        Verification::Failed(VerificationFailure::KesFailed)
    );
}

#[test]
fn genesis_praos_header_with_wrong_vrf_key_fails() {
    let (header, praos_id, _, kes_key) = mk_praos_header();
    let other_vrf_key = PrivateKey { bytes: vec![77; 32] };
    let registry = praos_registry(&praos_id, &other_vrf_key, &kes_key);
    assert_eq!(
        header.verify_proof(&registry),
        Verification::Failed(VerificationFailure::VrfFailed)
    );
}

#[test]
fn registry_resolves_first_registration() {
    let id = GenesisPraosId { bytes: vec![5; 32] };
    let first = GenesisPraosKeys { vrf_public_key: vec![1; 32], kes_public_key: vec![2; 32] };
    let second = GenesisPraosKeys { vrf_public_key: vec![3; 32], kes_public_key: vec![4; 32] };
    let mut registry = KeyRegistry::new();
    registry.register(GenesisPraosId { bytes: id.bytes.clone() }, first.clone());
    registry.register(GenesisPraosId { bytes: id.bytes.clone() }, second);
    assert_eq!(registry.resolve(&id), Some(&first));
    let absent = GenesisPraosId { bytes: vec![6; 32] };
    assert_eq!(registry.resolve(&absent), None);
}

#[test]
fn header_hash_is_the_blake2b_digest_of_its_bytes() {
    let header = Header {
        common: mk_common(AnyBlockVersion::Supported(BlockVersion::Genesis)),
        proof: Proof::NoProof,
    };
    let hash = header.hash();
    assert_eq!(hash.bytes.len(), 32);
    let mut hasher = blake2::Blake2b::<blake2::digest::consts::U32>::default();
    blake2::Digest::update(&mut hasher, header.serialize().as_slice());
    let expected: Vec<u8> = blake2::Digest::finalize(hasher).to_vec();
    assert_eq!(hash.bytes, expected);
    assert_eq!(header.id(), hash);
}

#[test]
fn distinct_headers_hash_differently() {
    let mut hashes = Vec::new();
    for size in 0u32..8 {
        for epoch in 0u32..4 {
            let mut common = mk_common(AnyBlockVersion::Supported(BlockVersion::Genesis));
            common.block_content_size = size;
            common.block_date.epoch = epoch;
            let header = Header { common, proof: Proof::NoProof };
            hashes.push(header.hash().bytes);
        }
    }
    for i in 0..hashes.len() {
        for j in 0..hashes.len() {
            if i != j {
                assert_ne!(hashes[i], hashes[j]);
            }
        }
    }
}

#[test]
fn header_accessors_expose_the_metadata() {
    let common = mk_common(AnyBlockVersion::Supported(BlockVersion::Genesis));
    let header = Header { common: common.clone(), proof: Proof::NoProof };
    assert_eq!(header.block_version(), common.any_block_version);
    assert_eq!(header.block_date(), &common.block_date);
    assert_eq!(header.block_content_hash(), &common.block_content_hash);
    assert_eq!(header.block_parent_hash(), &common.block_parent_hash);
    assert_eq!(header.chain_length(), common.chain_length);
    assert_eq!(header.parent_id(), common.block_parent_hash);
    assert_eq!(header.date(), common.block_date);
    assert_eq!(header.version(), common.any_block_version);
    assert!(matches!(header.block_proof(), Proof::NoProof));
}

#[test]
fn bft_signature_verifies_under_dalek_directly() {
    let common = mk_common(AnyBlockVersion::Supported(BlockVersion::Ed25519Signed));
    let key = PrivateKey { bytes: vec![9; 32] };
    let proof = BftProof::make(&common, &key);
    let signing = ed25519_dalek::SigningKey::from_bytes(&[9; 32]);
    let expected = signing.sign(common.serialize().as_slice());
    assert_eq!(proof.signature.bytes, expected.to_bytes().to_vec());
    let sig_arr: [u8; 64] = proof.signature.bytes.as_slice().try_into().unwrap();
    signing
        .verifying_key()
        .verify(
            common.serialize().as_slice(),
            &ed25519_dalek::Signature::from_bytes(&sig_arr),
        )
        .unwrap();
}

#[test]
fn empty_input_is_truncated() {
    assert_eq!(Header::read(&[]), Err(DecodeError::Truncated));
    assert_eq!(Common::read(&[]), Err(DecodeError::Truncated));
    assert_eq!(HeaderRaw::deserialize(&[]), Err(DecodeError::Truncated));
}

#[test]
fn common_metadata_round_trips_on_its_own() {
    let common = mk_common(AnyBlockVersion::Supported(BlockVersion::Ed25519Signed));
    let bytes = common.serialize();
    assert_eq!(bytes, common_wire_bytes(1));
    let (decoded, consumed) = Common::read(bytes.as_slice()).unwrap();
    assert_eq!(consumed, 82);
    assert_eq!(decoded, common);
}
