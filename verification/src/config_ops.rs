//! Bootstrap and administration of the global configuration.

use vstd::prelude::*;
use crate::constants::{SBT_MAX_SUPPLY, XP_TO_SBT_RATIO};
use crate::state::{Address, Config};

verus! {

/// One-time bootstrap: records the identities and starts every counter at
/// zero, with the fixed ratio and the immutable supply cap.
pub fn initialize(
    admin: Address,
    oracle: Address,
    usdc_mint: Address,
    sbt_mint: Address,
    usdc_vault: Address,
) -> (config: Config)
    ensures
        config == (Config {
            admin,
            oracle,
            usdc_mint,
            sbt_mint,
            usdc_vault,
            current_epoch: 0,
            total_epochs: 0,
            xp_to_sbt_ratio: XP_TO_SBT_RATIO,
            sbt_total_supply: SBT_MAX_SUPPLY,
            sbt_minted: 0,
        }),
        config.wf(),
{
    Config {
        admin,
        oracle,
        usdc_mint,
        sbt_mint,
        usdc_vault,
        current_epoch: 0,
        total_epochs: 0,
        xp_to_sbt_ratio: XP_TO_SBT_RATIO,
        sbt_total_supply: SBT_MAX_SUPPLY,
        sbt_minted: 0,
    }
}

/// Admin-only identity rotation: replaces the trusted oracle and touches
/// nothing else.
pub fn update_oracle(config: &mut Config, new_oracle: Address)
    ensures
        *final(config) == (Config { oracle: new_oracle, ..*old(config) }),
{
    config.oracle = new_oracle;
}

} // verus!
