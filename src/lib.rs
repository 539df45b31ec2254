//! Decoding and authority administration for fungible-token mints.
//!
//! The library reads the fixed binary layouts of mint and holding accounts,
//! derives holding-account addresses, builds authority revocations and takes
//! the decisions of each user-facing operation. Network access and signing
//! stay with the caller.
pub mod records;
pub mod layout;
pub mod address;
pub mod authority;
pub mod operations;
