//! Anonymous message-identity records: a signing key pair and an encryption
//! key pair with a caller-chosen correlation name, a self-certifying address
//! derived from the public halves, and a canonical tagged field layout for
//! the wire.

pub mod an_mpid;
pub mod digest;
pub mod keys;

pub use an_mpid::{AnMpid, DecodeError, RecordFields, AN_MPID_TAG, AN_MPID_TYPE_TAG};
pub use keys::{
    NameType, PublicEncryptionKey, PublicSigningKey, SecretEncryptionKey, SecretSigningKey,
    SizeMismatch,
};
