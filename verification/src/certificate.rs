use vstd::prelude::*;
use vstd::slice::slice_to_vec;
use vstd::slice::slice_subrange;

use crate::codec::DecodeError;
use crate::crypto;
use crate::crypto::PrivateKey;
use crate::crypto::ed25519_public_of;
use crate::crypto::ed25519_signature_of;
use crate::crypto::ed25519_verifies;

verus! {

/// The identity of a stake key: 32 bytes naming the key that owns a stake.
#[derive(Debug, Clone, PartialEq, Eq)]
pub struct StakeKeyId {
    pub bytes: Vec<u8>,
}

impl View for StakeKeyId {
    type V = Seq<u8>;

    open spec fn view(&self) -> Seq<u8> {
        self.bytes@
    }
}

/// The identity of a stake pool: 32 bytes naming the pool.
#[derive(Debug, Clone, PartialEq, Eq)]
pub struct StakePoolId {
    pub bytes: Vec<u8>,
}

impl View for StakePoolId {
    type V = Seq<u8>;

    open spec fn view(&self) -> Seq<u8> {
        self.bytes@
    }
}

/// A payload signed over its canonical bytes: the payload itself and the
/// detached signature the authorizing party produced once at signing time.
#[derive(Debug, Clone, PartialEq, Eq)]
pub struct Signed<T> {
    pub data: T,
    pub sig: Vec<u8>,
}

/// A certificate payload decoded from one 32-byte identifier: the bytes
/// themselves on an exact fit, a truncation or trailing-data error
/// otherwise.
pub open spec fn spec_deserialize_id(s: Seq<u8>) -> Result<Seq<u8>, DecodeError> {
    if s.len() < 32 {
        Err(DecodeError::Truncated)
    } else if s.len() > 32 {
        Err(DecodeError::TrailingData)
    } else {
        Ok(s)
    }
}

/// A certificate payload decoded from two 32-byte identifiers in order.
pub open spec fn spec_deserialize_id_pair(s: Seq<u8>) -> Result<(Seq<u8>, Seq<u8>), DecodeError> {
    if s.len() < 64 {
        Err(DecodeError::Truncated)
    } else if s.len() > 64 {
        Err(DecodeError::TrailingData)
    } else {
        Ok((s.subrange(0, 32), s.subrange(32, 64)))
    }
}

/// Reads exactly one 32-byte identifier out of `input`.
fn read_id(input: &[u8]) -> (r: Result<Vec<u8>, DecodeError>)
    ensures
        (match r {
            Ok(v) => spec_deserialize_id(input@) == Ok::<Seq<u8>, DecodeError>(v@),
            Err(e) => spec_deserialize_id(input@) == Err::<Seq<u8>, DecodeError>(e),
        }),
{
    if input.len() < 32 {
        return Err(DecodeError::Truncated);
    }
    if input.len() > 32 {
        return Err(DecodeError::TrailingData);
    }
    Ok(slice_to_vec(input))
}

/// A request to register a stake key.
#[derive(Debug, Clone, PartialEq, Eq)]
pub struct StakeKeyRegistration {
    pub stake_key_id: StakeKeyId,
}

/// A request to deregister a stake key.
#[derive(Debug, Clone, PartialEq, Eq)]
pub struct StakeKeyDeregistration {
    pub stake_key_id: StakeKeyId,
}

/// A request to delegate a stake key's stake to a pool.
#[derive(Debug, Clone, PartialEq, Eq)]
pub struct StakeDelegation {
    pub stake_key_id: StakeKeyId,
    pub pool_id: StakePoolId,
}

/// A request to register a stake pool.
#[derive(Debug, Clone, PartialEq, Eq)]
pub struct StakePoolRegistration {
    pub pool_id: StakePoolId,
}

/// A request to retire a stake pool.
#[derive(Debug, Clone, PartialEq, Eq)]
pub struct StakePoolRetirement {
    pub pool_id: StakePoolId,
}

/// The outbound message a signed certificate is wrapped into: one variant
/// per certificate kind, consumed by the block-body collaborator.
#[derive(Debug, Clone, PartialEq, Eq)]
pub enum Message {
    StakeKeyRegistration(Signed<StakeKeyRegistration>),
    StakeKeyDeregistration(Signed<StakeKeyDeregistration>),
    StakeDelegation(Signed<StakeDelegation>),
    StakePoolRegistration(Signed<StakePoolRegistration>),
    StakePoolRetirement(Signed<StakePoolRetirement>),
}

impl StakeKeyRegistration {
    /// The canonical bytes of this payload: the stake key identifier.
    pub open spec fn spec_serialize(self) -> Seq<u8> {
        self.stake_key_id@
    }

    pub fn serialize(&self) -> (r: Vec<u8>)
        ensures
            r@ == self.spec_serialize(),
    {
        slice_to_vec(self.stake_key_id.bytes.as_slice())
    }

    pub fn deserialize(input: &[u8]) -> (r: Result<StakeKeyRegistration, DecodeError>)
        ensures
            (match r {
                Ok(v) => spec_deserialize_id(input@) == Ok::<Seq<u8>, DecodeError>(
                    v.stake_key_id@,
                ),
                Err(e) => spec_deserialize_id(input@) == Err::<Seq<u8>, DecodeError>(e),
            }),
    {
        match read_id(input) {
            Ok(bytes) => Ok(StakeKeyRegistration { stake_key_id: StakeKeyId { bytes } }),
            Err(e) => Err(e),
        }
    }

    /// Signs this payload's canonical bytes with the stake key and wraps
    /// the signed envelope into its message variant. The embedded payload
    /// is this value, unchanged.
    pub fn make_certificate(self, stake_private_key: &PrivateKey) -> (r: Message)
        requires
            stake_private_key.wf(),
        ensures
            (match r {
                Message::StakeKeyRegistration(s) => {
                    &&& s.data == self
                    &&& s.sig@ == ed25519_signature_of(
                        stake_private_key@,
                        self.spec_serialize(),
                    )
                    &&& ed25519_verifies(
                        ed25519_public_of(stake_private_key@),
                        self.spec_serialize(),
                        s.sig@,
                    )
                },
                _ => false,
            }),
    {
        let msg = self.serialize();
        Message::StakeKeyRegistration(
            Signed { sig: crypto::ed25519_sign(&stake_private_key.bytes, &msg), data: self },
        )
    }
}

impl StakeKeyDeregistration {
    /// The canonical bytes of this payload: the stake key identifier.
    pub open spec fn spec_serialize(self) -> Seq<u8> {
        self.stake_key_id@
    }

    pub fn serialize(&self) -> (r: Vec<u8>)
        ensures
            r@ == self.spec_serialize(),
    {
        slice_to_vec(self.stake_key_id.bytes.as_slice())
    }

    pub fn deserialize(input: &[u8]) -> (r: Result<StakeKeyDeregistration, DecodeError>)
        ensures
            (match r {
                Ok(v) => spec_deserialize_id(input@) == Ok::<Seq<u8>, DecodeError>(
                    v.stake_key_id@,
                ),
                Err(e) => spec_deserialize_id(input@) == Err::<Seq<u8>, DecodeError>(e),
            }),
    {
        match read_id(input) {
            Ok(bytes) => Ok(StakeKeyDeregistration { stake_key_id: StakeKeyId { bytes } }),
            Err(e) => Err(e),
        }
    }

    /// Signs this payload's canonical bytes with the stake key and wraps
    /// the signed envelope into its message variant.
    pub fn make_certificate(self, stake_private_key: &PrivateKey) -> (r: Message)
        requires
            stake_private_key.wf(),
        ensures
            (match r {
                Message::StakeKeyDeregistration(s) => {
                    &&& s.data == self
                    &&& s.sig@ == ed25519_signature_of(
                        stake_private_key@,
                        self.spec_serialize(),
                    )
                    &&& ed25519_verifies(
                        ed25519_public_of(stake_private_key@),
                        self.spec_serialize(),
                        s.sig@,
                    )
                },
                _ => false,
            }),
    {
        let msg = self.serialize();
        Message::StakeKeyDeregistration(
            Signed { sig: crypto::ed25519_sign(&stake_private_key.bytes, &msg), data: self },
        )
    }
}

impl StakeDelegation {
    /// The canonical bytes of this payload: the stake key identifier,
    /// then the pool identifier.
    pub open spec fn spec_serialize(self) -> Seq<u8> {
        self.stake_key_id@ + self.pool_id@
    }

    pub fn serialize(&self) -> (r: Vec<u8>)
        ensures
            r@ == self.spec_serialize(),
    {
        let mut out = slice_to_vec(self.stake_key_id.bytes.as_slice());
        crate::codec::append_bytes(&mut out, self.pool_id.bytes.as_slice());
        out
    }

    pub fn deserialize(input: &[u8]) -> (r: Result<StakeDelegation, DecodeError>)
        ensures
            (match r {
                Ok(v) => spec_deserialize_id_pair(input@) == Ok::<(Seq<u8>, Seq<u8>), DecodeError>(
                    (v.stake_key_id@, v.pool_id@),
                ),
                Err(e) => spec_deserialize_id_pair(input@) == Err::<
                    (Seq<u8>, Seq<u8>),
                    DecodeError,
                >(e),
            }),
    {
        if input.len() < 64 {
            return Err(DecodeError::Truncated);
        }
        if input.len() > 64 {
            return Err(DecodeError::TrailingData);
        }
        let stake_key_id = StakeKeyId { bytes: slice_to_vec(slice_subrange(input, 0, 32)) };
        let pool_id = StakePoolId { bytes: slice_to_vec(slice_subrange(input, 32, 64)) };
        Ok(StakeDelegation { stake_key_id, pool_id })
    }

    /// Signs this payload's canonical bytes with the delegating stake key
    /// and wraps the signed envelope into its message variant.
    pub fn make_certificate(self, stake_private_key: &PrivateKey) -> (r: Message)
        requires
            stake_private_key.wf(),
        ensures
            (match r {
                Message::StakeDelegation(s) => {
                    &&& s.data == self
                    &&& s.sig@ == ed25519_signature_of(
                        stake_private_key@,
                        self.spec_serialize(),
                    )
                    &&& ed25519_verifies(
                        ed25519_public_of(stake_private_key@),
                        self.spec_serialize(),
                        s.sig@,
                    )
                },
                _ => false,
            }),
    {
        let msg = self.serialize();
        Message::StakeDelegation(
            Signed { sig: crypto::ed25519_sign(&stake_private_key.bytes, &msg), data: self },
        )
    }
}

impl StakePoolRegistration {
    /// The canonical bytes of this payload: the pool identifier.
    pub open spec fn spec_serialize(self) -> Seq<u8> {
        self.pool_id@
    }

    pub fn serialize(&self) -> (r: Vec<u8>)
        ensures
            r@ == self.spec_serialize(),
    {
        slice_to_vec(self.pool_id.bytes.as_slice())
    }

    pub fn deserialize(input: &[u8]) -> (r: Result<StakePoolRegistration, DecodeError>)
        ensures
            (match r {
                Ok(v) => spec_deserialize_id(input@) == Ok::<Seq<u8>, DecodeError>(v.pool_id@),
                Err(e) => spec_deserialize_id(input@) == Err::<Seq<u8>, DecodeError>(e),
            }),
    {
        match read_id(input) {
            Ok(bytes) => Ok(StakePoolRegistration { pool_id: StakePoolId { bytes } }),
            Err(e) => Err(e),
        }
    }

    /// Signs this payload's canonical bytes with the pool's key and wraps
    /// the signed envelope into its message variant.
    pub fn make_certificate(self, pool_private_key: &PrivateKey) -> (r: Message)
        requires
            pool_private_key.wf(),
        ensures
            (match r {
                Message::StakePoolRegistration(s) => {
                    &&& s.data == self
                    &&& s.sig@ == ed25519_signature_of(pool_private_key@, self.spec_serialize())
                    &&& ed25519_verifies(
                        ed25519_public_of(pool_private_key@),
                        self.spec_serialize(),
                        s.sig@,
                    )
                },
                _ => false,
            }),
    {
        let msg = self.serialize();
        Message::StakePoolRegistration(
            Signed { sig: crypto::ed25519_sign(&pool_private_key.bytes, &msg), data: self },
        )
    }
}

impl StakePoolRetirement {
    /// The canonical bytes of this payload: the pool identifier.
    pub open spec fn spec_serialize(self) -> Seq<u8> {
        self.pool_id@
    }

    pub fn serialize(&self) -> (r: Vec<u8>)
        ensures
            r@ == self.spec_serialize(),
    {
        slice_to_vec(self.pool_id.bytes.as_slice())
    }

    pub fn deserialize(input: &[u8]) -> (r: Result<StakePoolRetirement, DecodeError>)
        ensures
            (match r {
                Ok(v) => spec_deserialize_id(input@) == Ok::<Seq<u8>, DecodeError>(v.pool_id@),
                Err(e) => spec_deserialize_id(input@) == Err::<Seq<u8>, DecodeError>(e),
            }),
    {
        match read_id(input) {
            Ok(bytes) => Ok(StakePoolRetirement { pool_id: StakePoolId { bytes } }),
            Err(e) => Err(e),
        }
    }

    /// Signs this payload's canonical bytes with the pool's key and wraps
    /// the signed envelope into its message variant.
    pub fn make_certificate(self, pool_private_key: &PrivateKey) -> (r: Message)
        requires
            pool_private_key.wf(),
        ensures
            (match r {
                Message::StakePoolRetirement(s) => {
                    &&& s.data == self
                    &&& s.sig@ == ed25519_signature_of(pool_private_key@, self.spec_serialize())
                    &&& ed25519_verifies(
                        ed25519_public_of(pool_private_key@),
                        self.spec_serialize(),
                        s.sig@,
                    )
                },
                _ => false,
            }),
    {
        let msg = self.serialize();
        Message::StakePoolRetirement(
            Signed { sig: crypto::ed25519_sign(&pool_private_key.bytes, &msg), data: self },
        )
    }
}

/// Certificate round trip: every 32-byte-identifier payload reads back
/// from its own canonical bytes, for each of the four single-identifier
/// certificate kinds, which share one wire shape.
pub proof fn lemma_id_certificate_round_trip(id: Seq<u8>)
    requires
        id.len() == 32,
    ensures
        spec_deserialize_id(id) == Ok::<Seq<u8>, DecodeError>(id),
{
}

/// Certificate round trip for the delegation payload: the two identifiers
/// read back from their own canonical bytes, in order.
pub proof fn lemma_delegation_round_trip(d: StakeDelegation)
    requires
        d.stake_key_id@.len() == 32,
        d.pool_id@.len() == 32,
    ensures
        spec_deserialize_id_pair(d.spec_serialize()) == Ok::<(Seq<u8>, Seq<u8>), DecodeError>(
            (d.stake_key_id@, d.pool_id@),
        ),
{
    let s = d.spec_serialize();
    assert(s.subrange(0, 32) =~= d.stake_key_id@);
    assert(s.subrange(32, 64) =~= d.pool_id@);
}

} // verus!
