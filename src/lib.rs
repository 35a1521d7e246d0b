//! The guest side of a zero-knowledge virtual machine: the digests that a receipt
//! attests to, the proof-composition tracker, the journal accounting, and the
//! word-aligned codec used on the host channels.

pub mod digest;
pub mod claim;
pub mod codec;
pub mod channel;
pub mod env;
