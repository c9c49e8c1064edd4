//! Core logic for bridging attested messages and token transfers between a
//! data-availability chain and an EVM chain.
//!
//! The crate covers the byte-level codecs (amounts, addresses, messages), the
//! assembly of Merkle proof material into the destination verifier's input
//! shape, the finality-synchronisation state machine, and the extraction of
//! message identifiers from emitted log data.  Transaction signing,
//! submission and the HTTP clients that feed these functions are external
//! collaborators and stay outside the verified core.

pub mod address;
pub mod amount;
pub mod assembler;
pub mod bigendian;
pub mod finality;
pub mod logdata;
pub mod message;
pub mod types;
