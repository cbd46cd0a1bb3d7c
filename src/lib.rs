//! Three-party replicated secret sharing (RSS3) over the BLS12-377 scalar
//! field and its G1 group, with a multiplicative companion scheme, Beaver
//! triple sources and structural share conversion.
//!
//! Every operation that needs the network is split in two: a local step
//! that produces what a party sends, and a finishing step that takes what
//! the party received. The transport itself is left to the caller.
use vstd::prelude::*;

pub mod additive;
pub mod conversion;
pub mod field;
pub mod group;
mod modular;
pub mod mul_share;
pub mod poly;
pub mod rss3;
pub mod rss3_group;
pub mod rss3_laws;
pub mod triples;
pub mod wire;

verus! {

/// Why a protocol step could not produce a value.
#[derive(Clone, Copy, Debug, PartialEq, Eq, Structural)]
pub enum ShareError {
    /// The redundant copies of a shared value disagree: some party is faulty.
    Inconsistent,
    /// The operation has no meaning for this sharing scheme.
    Unsupported,
}

} // verus!
