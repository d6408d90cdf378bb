//! Compressed notes: short text notes kept as leaves of an externally managed
//! concurrent Merkle tree. The library holds the leaf codec, the tree-scoped
//! authority binding, and the plans of engine calls for each operation, all
//! proved against their contracts.
pub mod address;
pub mod authority;
pub mod codec;
pub mod error;
pub mod model;
pub mod protocol;
