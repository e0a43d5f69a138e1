use vstd::prelude::*;
use crate::errors::BillionError;
use crate::identity::Identity;
use crate::state::grid_config::GridConfig;

verus! {

/// Who asks for a parcel record to be closed.
///
/// Closing is up to the authority and to nobody else; once that is
/// established there is nothing more to decide. The record goes, the grid
/// is not touched, and the parcel's cells stay claimed.
#[derive(Clone, Copy, Debug, PartialEq, Eq)]
pub struct AdminCloseParcelInfo {
    /// Who asks.
    pub authority: Identity,
}

impl AdminCloseParcelInfo {
    /// `Unauthorized` where the caller is not the grid's authority.
    pub open spec fn mismatch(&self, grid_config: &GridConfig) -> Option<BillionError> {
        if self.authority@ != grid_config.authority@ {
            Some(BillionError::Unauthorized)
        } else {
            None
        }
    }

    /// Checks that the caller is the grid's authority.
    pub fn check(&self, grid_config: &GridConfig) -> (result: Result<(), BillionError>)
        ensures
            match result {
                Ok(()) => self.mismatch(grid_config) is None,
                Err(e) => self.mismatch(grid_config) == Some(e),
            },
    {
        if self.authority != grid_config.authority {
            return Err(BillionError::Unauthorized);
        }
        Ok(())
    }
}

} // verus!
