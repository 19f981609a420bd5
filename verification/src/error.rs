//! Decoding failures of the document schema.

use vstd::prelude::*;

verus! {

/// Why decoding a document field failed. Decoding either fully succeeds or
/// reports one of these; nothing is ever silently coerced.
#[derive(Debug, Clone, Copy, PartialEq, Eq, Structural)]
pub enum DecodeError {
    /// A discriminant string that names no variant kind.
    UnknownDiscriminant,
    /// An entity reference that is not `shard.realm.num` in decimal.
    InvalidEntityId,
    /// Key material that is not the expected hexadecimal encoding.
    InvalidKey,
    /// A token-type name that is not in the closed set.
    UnknownTokenType,
    /// A supply-type name that is not in the closed set.
    UnknownSupplyType,
}

} // verus!
