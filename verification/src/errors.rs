use vstd::prelude::*;

verus! {

/// Every way an operation on the grid can be refused.
///
/// An operation that returns one of these has changed nothing.
#[derive(Clone, Copy, Debug, PartialEq, Eq, Structural)]
pub enum BillionError {
    /// A cell of the requested rectangle already belongs to a parcel.
    BlockAlreadyClaimed,
    /// A cell of the requested rectangle lies in a ring that is still locked.
    RingLocked,
    /// The requested rectangle reaches past the edge of the grid.
    OutOfBounds,
    /// The requested rectangle has no width or no height.
    InvalidDimensions,
    /// The purchaser holds less than the purchase costs.
    InsufficientBalance,
    /// The caller is not the configured authority, or presented state that
    /// does not belong to this grid.
    Unauthorized,
    /// Seeding by the authority has been switched off.
    SeedingDisabled,
    /// A checked arithmetic operation would have wrapped.
    Overflow,
    /// No asset collection has been configured yet.
    CollectionNotSet,
    /// The presented collection is not the configured one.
    InvalidCollection,
    /// The presented asset is not the one recorded for the parcel.
    AssetMismatch,
    /// The presented reward pool is not the configured one.
    InvalidRewardPool,
    /// The claimant does not own the parcel's asset.
    NotOwner,
    /// The parcel is owed no whole unit of reward.
    NothingToClaim,
    /// The asset's account data is too short to hold an owner.
    InvalidCoreAsset,
    /// A configuration was asked for that no grid may have: a reward share
    /// above the whole, more than ten thresholds, or thresholds that
    /// decrease.
    InvalidConfig,
}

} // verus!
