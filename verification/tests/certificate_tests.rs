use ed25519_dalek::Verifier;

use mockchain::DecodeError;
use mockchain::Message;
use mockchain::PrivateKey;
use mockchain::StakeDelegation;
use mockchain::StakeKeyDeregistration;
use mockchain::StakeKeyId;
use mockchain::StakeKeyRegistration;
use mockchain::StakePoolId;
use mockchain::StakePoolRegistration;
use mockchain::StakePoolRetirement;

fn stake_key_id(byte: u8) -> StakeKeyId {
    StakeKeyId { bytes: vec![byte; 32] }
}

fn pool_id(byte: u8) -> StakePoolId {
    StakePoolId { bytes: vec![byte; 32] }
}

fn check_signature(payload_bytes: &[u8], sig: &[u8], seed: [u8; 32]) {
    let signing = ed25519_dalek::SigningKey::from_bytes(&seed);
    let sig_arr: [u8; 64] = sig.try_into().unwrap();
    signing
        .verifying_key()
        .verify(payload_bytes, &ed25519_dalek::Signature::from_bytes(&sig_arr))
        .unwrap();
}

#[test]
fn stake_key_registration_round_trip() {
    let payload = StakeKeyRegistration { stake_key_id: stake_key_id(0x01) };
    let bytes = payload.serialize();
    assert_eq!(bytes, vec![0x01; 32]);
    let decoded = StakeKeyRegistration::deserialize(bytes.as_slice()).unwrap();
    assert_eq!(decoded, payload);
}

#[test]
fn stake_key_deregistration_round_trip() {
    let payload = StakeKeyDeregistration { stake_key_id: stake_key_id(0x02) };
    let bytes = payload.serialize();
    let decoded = StakeKeyDeregistration::deserialize(bytes.as_slice()).unwrap();
    assert_eq!(decoded, payload);
}

#[test]
fn stake_delegation_round_trip() {
    let payload = StakeDelegation { stake_key_id: stake_key_id(0x03), pool_id: pool_id(0x04) };
    let bytes = payload.serialize();
    assert_eq!(bytes.len(), 64);
    assert_eq!(&bytes[..32], &[0x03; 32]);
    assert_eq!(&bytes[32..], &[0x04; 32]);
    let decoded = StakeDelegation::deserialize(bytes.as_slice()).unwrap();
    assert_eq!(decoded, payload);
}

#[test]
fn stake_pool_registration_round_trip() {
    let payload = StakePoolRegistration { pool_id: pool_id(0x05) };
    let bytes = payload.serialize();
    let decoded = StakePoolRegistration::deserialize(bytes.as_slice()).unwrap();
    assert_eq!(decoded, payload);
}

#[test]
fn stake_pool_retirement_round_trip() {
    let payload = StakePoolRetirement { pool_id: pool_id(0x06) };
    let bytes = payload.serialize();
    let decoded = StakePoolRetirement::deserialize(bytes.as_slice()).unwrap();
    assert_eq!(decoded, payload);
}

#[test]
fn certificate_payloads_reject_wrong_lengths() {
    assert_eq!(
        StakeKeyRegistration::deserialize(&[0u8; 31]),
        Err(DecodeError::Truncated)
    );
    assert_eq!(
        StakeKeyRegistration::deserialize(&[0u8; 33]),
        Err(DecodeError::TrailingData)
    );
    assert_eq!(StakeDelegation::deserialize(&[0u8; 63]), Err(DecodeError::Truncated));
    assert_eq!(
        StakeDelegation::deserialize(&[0u8; 65]),
        Err(DecodeError::TrailingData)
    );
}

#[test]
fn stake_key_registration_certificate_signs_and_wraps() {
    let payload = StakeKeyRegistration { stake_key_id: stake_key_id(0x01) };
    let key = PrivateKey { bytes: vec![40; 32] };
    let message = payload.clone().make_certificate(&key);
    match message {
        Message::StakeKeyRegistration(signed) => {
            assert_eq!(signed.data, payload);
            check_signature(payload.serialize().as_slice(), signed.sig.as_slice(), [40; 32]);
        }
        _ => panic!("expected a stake key registration message"),
    }
}

#[test]
fn stake_key_deregistration_certificate_signs_and_wraps() {
    let payload = StakeKeyDeregistration { stake_key_id: stake_key_id(0x02) };
    let key = PrivateKey { bytes: vec![41; 32] };
    let message = payload.clone().make_certificate(&key);
    match message {
        Message::StakeKeyDeregistration(signed) => {
            assert_eq!(signed.data, payload);
            check_signature(payload.serialize().as_slice(), signed.sig.as_slice(), [41; 32]);
        }
        _ => panic!("expected a stake key deregistration message"),
    }
}

#[test]
fn stake_delegation_certificate_signs_and_wraps() {
    let payload = StakeDelegation { stake_key_id: stake_key_id(0x03), pool_id: pool_id(0x04) };
    let key = PrivateKey { bytes: vec![42; 32] };
    let message = payload.clone().make_certificate(&key);
    match message {
        Message::StakeDelegation(signed) => {
            assert_eq!(signed.data, payload);
            check_signature(payload.serialize().as_slice(), signed.sig.as_slice(), [42; 32]);
        }
        _ => panic!("expected a stake delegation message"),
    }
}

#[test]
fn stake_pool_registration_certificate_signs_and_wraps() {
    let payload = StakePoolRegistration { pool_id: pool_id(0x05) };
    let key = PrivateKey { bytes: vec![43; 32] };
    let message = payload.clone().make_certificate(&key);
    match message {
        Message::StakePoolRegistration(signed) => {
            assert_eq!(signed.data, payload);
            check_signature(payload.serialize().as_slice(), signed.sig.as_slice(), [43; 32]);
        }
        _ => panic!("expected a stake pool registration message"),
    }
}

#[test]
fn stake_pool_retirement_certificate_signs_and_wraps() {
    let payload = StakePoolRetirement { pool_id: pool_id(0x06) };
    let key = PrivateKey { bytes: vec![44; 32] };
    let message = payload.clone().make_certificate(&key);
    match message {
        Message::StakePoolRetirement(signed) => {
            assert_eq!(signed.data, payload);
            check_signature(payload.serialize().as_slice(), signed.sig.as_slice(), [44; 32]);
        }
        _ => panic!("expected a stake pool retirement message"),
    }
}

#[test]
fn certificate_signature_does_not_verify_for_another_payload() {
    let payload = StakeKeyRegistration { stake_key_id: stake_key_id(0x01) };
    let key = PrivateKey { bytes: vec![40; 32] };
    let message = payload.clone().make_certificate(&key);
    let other = StakeKeyRegistration { stake_key_id: stake_key_id(0x09) };
    match message {
        Message::StakeKeyRegistration(signed) => {
            let signing = ed25519_dalek::SigningKey::from_bytes(&[40; 32]);
            let sig_arr: [u8; 64] = signed.sig.as_slice().try_into().unwrap();
            let outcome = signing.verifying_key().verify(
                other.serialize().as_slice(),
                &ed25519_dalek::Signature::from_bytes(&sig_arr),
            );
            assert!(outcome.is_err());
        }
        _ => panic!("expected a stake key registration message"),
    }
}
