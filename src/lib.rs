//! Routing of EVM calls that target reserved addresses to native operations.
//!
//! `address` holds the 20-byte account address and the numbering of the reserved
//! zones, `registry` the fixed table of native operations and the lookup that the
//! virtual machine performs before it interprets bytecode, and `metadata` the
//! token description handed to the native balances operation.
pub mod address;
pub mod metadata;
pub mod registry;
