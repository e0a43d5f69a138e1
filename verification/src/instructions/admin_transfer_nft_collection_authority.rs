use vstd::prelude::*;
use crate::errors::BillionError;
use crate::identity::Identity;
use crate::state::grid_config::GridConfig;

verus! {

/// What a hand-over of the collection is made with.
#[derive(Clone, Copy, Debug, PartialEq, Eq)]
pub struct AdminTransferNftCollectionAuthority {
    /// Who asks.
    pub authority: Identity,
    /// The collection that was presented.
    pub collection: Identity,
    /// Who is to administer the collection from now on.
    pub new_collection_authority: Identity,
}

/// A hand-over of a collection, for the asset registry to carry out.
#[derive(Clone, Copy, Debug, PartialEq, Eq)]
pub struct AuthorityTransfer {
    /// The collection that changes hands.
    pub collection: Identity,
    /// Who administers it from now on.
    pub new_update_authority: Identity,
}

impl AdminTransferNftCollectionAuthority {
    /// `Unauthorized` where the caller is not the grid's authority,
    /// `InvalidCollection` where the collection is not the grid's.
    pub open spec fn mismatch(&self, grid_config: &GridConfig) -> Option<BillionError> {
        if self.authority@ != grid_config.authority@ {
            Some(BillionError::Unauthorized)
        } else if self.collection@ != grid_config.collection@ {
            Some(BillionError::InvalidCollection)
        } else {
            None
        }
    }

    /// Checks that the caller is the grid's authority and the collection
    /// the grid's.
    pub fn check(&self, grid_config: &GridConfig) -> (result: Result<(), BillionError>)
        ensures
            match result {
                Ok(()) => self.mismatch(grid_config) is None,
                Err(e) => self.mismatch(grid_config) == Some(e),
            },
    {
        if self.authority != grid_config.authority {
            return Err(BillionError::Unauthorized);
        }
        if self.collection != grid_config.collection {
            return Err(BillionError::InvalidCollection);
        }
        Ok(())
    }
}

/// Hands the grid's collection over to a new authority.
///
/// Fails with `CollectionNotSet`, and only then, where the grid has no
/// collection. Otherwise the hand-over names the presented collection and
/// the new authority.
pub fn handler(accounts: &AdminTransferNftCollectionAuthority, grid_config: &GridConfig) -> (result:
    Result<AuthorityTransfer, BillionError>)
    ensures
        match result {
            Err(e) => e == BillionError::CollectionNotSet && !grid_config.collection_is_set(),
            Ok(transfer) => {
                &&& grid_config.collection_is_set()
                &&& transfer.collection == accounts.collection
                &&& transfer.new_update_authority == accounts.new_collection_authority
            },
        },
{
    if grid_config.collection.is_default() {
        return Err(BillionError::CollectionNotSet);
    }
    Ok(
        AuthorityTransfer {
            collection: accounts.collection,
            new_update_authority: accounts.new_collection_authority,
        },
    )
}

} // verus!
