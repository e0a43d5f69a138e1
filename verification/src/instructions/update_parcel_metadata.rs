use vstd::prelude::*;
use crate::errors::BillionError;
use crate::identity::Identity;
use crate::state::grid_config::GridConfig;

verus! {

/// What a change of a parcel's metadata is made with.
#[derive(Clone, Copy, Debug, PartialEq, Eq)]
pub struct UpdateParcelMetadata {
    /// Who asks.
    pub authority: Identity,
    /// The asset to update.
    pub asset: Identity,
    /// The collection that was presented.
    pub collection: Identity,
}

/// A change of an asset's metadata, for the asset registry to carry out.
#[derive(Clone, Debug, PartialEq, Eq)]
pub struct MetadataUpdate {
    /// The asset to update.
    pub asset: Identity,
    /// The collection it belongs to.
    pub collection: Identity,
    /// Its new name, where the name changes.
    pub new_name: Option<String>,
    /// Its new metadata address, where the address changes.
    pub new_uri: Option<String>,
}

impl UpdateParcelMetadata {
    /// `Unauthorized` where the caller is not the grid's authority,
    /// `InvalidCollection` where the collection is not the grid's.
    pub open spec fn mismatch(&self, grid_config: &GridConfig) -> Option<BillionError> {
        if self.authority@ != grid_config.authority@ {
            Some(BillionError::Unauthorized)
        } else if self.collection@ != grid_config.collection@ {
            Some(BillionError::InvalidCollection)
        } else {
            None
        }
    }

    /// Checks that the caller is the grid's authority and the collection
    /// the grid's.
    pub fn check(&self, grid_config: &GridConfig) -> (result: Result<(), BillionError>)
        ensures
            match result {
                Ok(()) => self.mismatch(grid_config) is None,
                Err(e) => self.mismatch(grid_config) == Some(e),
            },
    {
        if self.authority != grid_config.authority {
            return Err(BillionError::Unauthorized);
        }
        if self.collection != grid_config.collection {
            return Err(BillionError::InvalidCollection);
        }
        Ok(())
    }
}

/// Puts together the change to ask the asset registry for: the presented
/// asset in the presented collection, with the name and the address that
/// were given, each left alone where none was.
pub fn handler(
    accounts: &UpdateParcelMetadata,
    new_name: Option<String>,
    new_uri: Option<String>,
) -> (update: MetadataUpdate)
    ensures
        update.asset == accounts.asset,
        update.collection == accounts.collection,
        update.new_name == new_name,
        update.new_uri == new_uri,
{
    MetadataUpdate { asset: accounts.asset, collection: accounts.collection, new_name, new_uri }
}

} // verus!
