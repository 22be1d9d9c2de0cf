use vstd::prelude::*;

verus! {

/// Persistent configuration record of one pool.
///
/// One record exists per asset-pair configuration, disambiguated by a
/// caller-chosen `seed` so several pools can cover the same pair.  The
/// asset identifiers are immutable after creation; only `locked` changes,
/// and only at the request of the configured authority.
#[derive(Clone, Copy, Debug)]
pub struct Config {
    /// Opaque disambiguator allowing multiple pools over the same pair.
    pub seed: u64,
    /// Identity permitted to toggle `locked`; `None` means the pool is
    /// permanently unlocked and ungoverned.
    pub authority: Option<u64>,
    /// Identifier of tradable asset X.
    pub mint_x: u64,
    /// Identifier of tradable asset Y.
    pub mint_y: u64,
    /// Swap fee in basis points; at most 10000.
    pub fee: u16,
    /// When true, deposit and swap must fail; withdraw stays permitted as a
    /// capital-preservation escape hatch.
    pub locked: bool,
}

impl Config {
    /// The configuration invariant: the fee never exceeds 10000 basis
    /// points.  Established by `Pool::initialize` and preserved by every
    /// operation.
    pub open spec fn wf(self) -> bool {
        self.fee <= 10000
    }
}

} // verus!
