//! Verified core of a keystore bridge: the synchronous decisions that surround each
//! keystore call (which signer input is expected, how request data is decoded, how the
//! keystore's answer is encoded), with contracts over the encodings the bridge uses.

pub mod encoding;
pub mod error;
pub mod signer;
pub mod keys;
pub mod signed;
pub mod api;
