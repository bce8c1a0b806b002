//! An authenticated key/value coordination layer for a distributed record
//! store: every write must carry an ECDSA signature over a canonical message
//! before it is admitted, reads are addressed by caller-chosen locations, and
//! both paths go through deterministic key derivation into the store's key
//! space.

pub mod channel;
pub mod codec;
pub mod crypto;
pub mod dispatcher;
pub mod keys;
pub mod laws;
pub mod messages;
pub mod store;
