use vstd::prelude::*;
use crate::error::StakingError;
use crate::state::StakingManager;

verus! {

/// A participant's share of the epoch reward: `user_staked * epoch_reward / total_staked`,
/// rounded down, and nothing when nothing is staked.
pub open spec fn reward_of(user_staked: u64, epoch_reward: u64, total_staked: u64) -> int {
    if total_staked == 0 {
        0
    } else {
        (user_staked as int * epoch_reward as int) / (total_staked as int)
    }
}

/// The reward owed to a position of `user_staked_amount` under the pool's
/// current epoch. The product is formed in 128 bits; a share that does not
/// fit in 64 bits (possible only when the position exceeds the pool's total)
/// is an `Overflow`.
pub fn calculate_rewards(staking_manager: &StakingManager, user_staked_amount: u64) -> (r: Result<
    u64,
    StakingError,
>)
    ensures
        ({
            let v = reward_of(
                user_staked_amount,
                staking_manager.current_epoch_reward,
                staking_manager.tokens_staked,
            );
            &&& v <= u64::MAX ==> r == Ok::<u64, StakingError>(v as u64)
            &&& v > u64::MAX ==> r == Err::<u64, StakingError>(StakingError::Overflow)
        }),
{
    if staking_manager.tokens_staked == 0 {
        return Ok(0);
    }
    let user = user_staked_amount as u128;
    let reward = staking_manager.current_epoch_reward as u128;
    proof {
        assert(user * reward <= 0xffff_ffff_ffff_ffffint * 0xffff_ffff_ffff_ffffint)
            by (nonlinear_arith)
            requires
                user <= 0xffff_ffff_ffff_ffffint,
                reward <= 0xffff_ffff_ffff_ffffint,
        ;
    }
    let user_share = user * reward;
    let total_staked = staking_manager.tokens_staked as u128;
    let user_reward = user_share / total_staked;
    if user_reward > u64::MAX as u128 {
        return Err(StakingError::Overflow);
    }
    Ok(user_reward as u64)
}

} // verus!
