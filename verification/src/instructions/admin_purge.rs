use vstd::prelude::*;
use crate::errors::BillionError;
use crate::identity::Identity;
use crate::state::grid_config::GridConfig;

verus! {

/// What a teardown is made with: who asks, which table came with the
/// request, and the balances that the teardown moves.
#[derive(Clone, Copy, Debug, PartialEq, Eq)]
pub struct AdminPurge {
    /// Who asks.
    pub authority: Identity,
    /// Address of the ownership table that was presented.
    pub block_map: Identity,
    /// Tokens held by the reward pool.
    pub reward_pool_amount: u64,
    /// Rent held by the reward pool's account. Closing the pool hands it to
    /// the authority.
    pub reward_pool_lamports: u64,
    /// Rent held by the ownership table's account. Releasing the table
    /// hands it to the authority.
    pub block_map_lamports: u64,
    /// What the authority's account holds before any step is taken.
    pub authority_lamports: u64,
}

/// One step of a teardown.
#[derive(Clone, Copy, Debug, PartialEq, Eq, Structural)]
pub enum PurgeStep {
    /// Transfer this many tokens from the reward pool to the authority.
    DrainPool { amount: u64 },
    /// Close the emptied reward pool; its rent goes to the authority.
    ClosePool,
    /// Zero the ownership table and release it; its rent goes to the
    /// authority, who then holds this much: what it held at the outset, the
    /// pool's rent and the table's.
    ReleaseGrid { authority_lamports: u64 },
    /// Release the configuration.
    ReleaseConfig,
}

impl AdminPurge {
    /// `Unauthorized` where the caller is not the grid's authority or the
    /// table is not the grid's.
    pub open spec fn mismatch(&self, grid_config: &GridConfig) -> Option<BillionError> {
        if self.authority@ != grid_config.authority@ {
            Some(BillionError::Unauthorized)
        } else if self.block_map@ != grid_config.block_map@ {
            Some(BillionError::Unauthorized)
        } else {
            None
        }
    }

    /// Checks that the caller is the grid's authority and the table the
    /// grid's.
    pub fn check(&self, grid_config: &GridConfig) -> (result: Result<(), BillionError>)
        ensures
            match result {
                Ok(()) => self.mismatch(grid_config) is None,
                Err(e) => self.mismatch(grid_config) == Some(e),
            },
    {
        if self.authority != grid_config.authority {
            return Err(BillionError::Unauthorized);
        }
        if self.block_map != grid_config.block_map {
            return Err(BillionError::Unauthorized);
        }
        Ok(())
    }
}

/// What the authority's account holds once pool and table are gone: what it
/// held at the outset, and the rent of both.
pub open spec fn lamports_after_purge(accounts: AdminPurge) -> int {
    accounts.authority_lamports + accounts.reward_pool_lamports + accounts.block_map_lamports
}

/// The steps of a teardown, in the order in which they are to be taken: the
/// pool is drained (where it holds anything) and closed before the grid and
/// the configuration are released, so that no step which can fail comes
/// after one that destroys.
pub open spec fn purge_plan(accounts: AdminPurge) -> Seq<PurgeStep> {
    let tail = seq![
        PurgeStep::ClosePool,
        PurgeStep::ReleaseGrid { authority_lamports: lamports_after_purge(accounts) as u64 },
        PurgeStep::ReleaseConfig,
    ];
    if accounts.reward_pool_amount > 0 {
        seq![PurgeStep::DrainPool { amount: accounts.reward_pool_amount }] + tail
    } else {
        tail
    }
}

/// Plans the teardown of the grid.
///
/// Fails with `Overflow`, and only then, where the authority cannot hold
/// the pool's rent and the table's on top of its own. Otherwise the steps to
/// take are
/// returned in the order in which they are to be taken. Nothing has been
/// destroyed yet when the plan is handed out: the grid is zeroed when the
/// step that releases it is reached.
pub fn handler(accounts: &AdminPurge) -> (result: Result<Vec<PurgeStep>, BillionError>)
    ensures
        match result {
            Err(e) => e == BillionError::Overflow && lamports_after_purge(*accounts) > u64::MAX,
            Ok(steps) => lamports_after_purge(*accounts) <= u64::MAX && steps@ == purge_plan(
                *accounts,
            ),
        },
{
    let after_pool: u64 = match accounts.authority_lamports.checked_add(
        accounts.reward_pool_lamports,
    ) {
        Some(total) => total,
        None => {
            return Err(BillionError::Overflow);
        },
    };
    let authority_lamports: u64 = match after_pool.checked_add(accounts.block_map_lamports) {
        Some(total) => total,
        None => {
            return Err(BillionError::Overflow);
        },
    };
    let mut steps: Vec<PurgeStep> = Vec::new();
    if accounts.reward_pool_amount > 0 {
        steps.push(PurgeStep::DrainPool { amount: accounts.reward_pool_amount });
    }
    steps.push(PurgeStep::ClosePool);
    steps.push(PurgeStep::ReleaseGrid { authority_lamports });
    steps.push(PurgeStep::ReleaseConfig);
    assert(steps@ =~= purge_plan(*accounts));
    Ok(steps)
}

/// In every plan the pool is closed before the grid is released, the grid
/// before the configuration, and a drain, where there is one, comes first
/// of all.
pub proof fn lemma_plan_destroys_last(accounts: AdminPurge)
    ensures
        ({
            let plan = purge_plan(accounts);
            let n = plan.len() as int;
            &&& n == 3 || n == 4
            &&& n == 4 <==> accounts.reward_pool_amount > 0
            &&& n == 4 ==> plan[0] == (PurgeStep::DrainPool { amount: accounts.reward_pool_amount })
            &&& plan[n - 3] == PurgeStep::ClosePool
            &&& plan[n - 2] is ReleaseGrid
            &&& plan[n - 1] == PurgeStep::ReleaseConfig
        }),
{
}

} // verus!
