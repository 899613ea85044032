//! Cache policies of a mapping.

use vstd::prelude::*;

verus! {

/// How accesses through a mapping use the processor's caches. Exactly one
/// policy holds of a mapping.
#[derive(Clone, Copy, Debug, PartialEq, Eq, PartialOrd, Ord, Hash, Structural)]
pub enum CacheType {
    /// Reads and writes go through the cache; memory is updated later.
    WriteBack,
    /// Reads go through the cache; each write also updates memory.
    WriteThrough,
    /// Writes may be gathered and reordered before they reach memory.
    WriteCombining,
    /// No access is cached.
    Uncacheable,
}

impl CacheType {
    /// The place of the policy in the order of the policies: the one in which
    /// they are declared, from write-back to uncacheable.
    pub open spec fn spec_rank(&self) -> u8 {
        match self {
            CacheType::WriteBack => 0,
            CacheType::WriteThrough => 1,
            CacheType::WriteCombining => 2,
            CacheType::Uncacheable => 3,
        }
    }

    /// The place of the policy in the order of the policies.
    #[verifier::when_used_as_spec(spec_rank)]
    pub fn rank(&self) -> (rank: u8)
        ensures
            rank == self.spec_rank(),
    {
        match self {
            CacheType::WriteBack => 0,
            CacheType::WriteThrough => 1,
            CacheType::WriteCombining => 2,
            CacheType::Uncacheable => 3,
        }
    }
}

} // verus!
