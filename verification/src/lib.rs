//! Delegated transfer of a single non-fungible asset out of program-owned
//! custody records, with a verified core: the record's signing authority is
//! derived from an exact seed recipe, the wire instruction for either the
//! basic token protocol or the extended programmable-asset protocol is
//! assembled with its fixed account order and one-unit payload, and every
//! entry point states in its contract precisely which plan it hands the
//! host, and on which inputs it refuses to build one.

pub mod errors;
pub mod instruction;
pub mod keys;
pub mod seeds;
pub mod transfer;
