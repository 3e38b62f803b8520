pub mod header;
pub mod certificate;
pub mod crypto;
pub mod codec;
pub mod verify;

pub use codec::DecodeError;
pub use verify::GenesisPraosKeys;
pub use verify::GenesisPraosKeysV;
pub use verify::KeyRegistry;
pub use verify::Verification;
pub use verify::VerificationFailure;
pub use codec::HeaderRaw;
pub use certificate::Message;
pub use certificate::Signed;
pub use certificate::StakeDelegation;
pub use certificate::StakeKeyDeregistration;
pub use certificate::StakeKeyId;
pub use certificate::StakeKeyRegistration;
pub use certificate::StakePoolId;
pub use certificate::StakePoolRegistration;
pub use certificate::StakePoolRetirement;
pub use crypto::PrivateKey;
pub use header::AnyBlockVersion;
pub use header::BftProof;
pub use header::BftSignature;
pub use header::BlockContentHash;
pub use header::BlockContentSize;
pub use header::BlockDate;
pub use header::BlockId;
pub use header::BlockVersion;
pub use header::ChainLength;
pub use header::Common;
pub use header::CommonV;
pub use header::GenesisPraosId;
pub use header::GenesisPraosProof;
pub use header::Header;
pub use header::HeaderHash;
pub use header::HeaderToSign;
pub use header::HeaderV;
pub use header::KESSignature;
pub use header::LeaderId;
pub use header::Proof;
pub use header::ProofV;
pub use header::VrfProof;
