use vstd::prelude::*;
use crate::error::StakingError;
use crate::processor::{
    deposit_spec, instruction_of, process_spec, start_epoch_spec, unstake_spec,
    AccountRef, Instruction,
};
use crate::reward::reward_of;
use crate::state::{
    lemma_pool_round_trip, lemma_position_round_trip, pool_bytes, pool_from, position_bytes,
    position_from, Pubkey, StakingManager,
};

verus! {

/// A deposit of `amount` followed by a withdrawal of the same amount, by the
/// same participant, brings the position's balance and the pool's total back
/// to what they were before the deposit.
pub proof fn deposit_then_withdraw_restores(
    pool: StakingManager,
    position_data: Seq<u8>,
    user: AccountRef,
    custody: AccountRef,
    amount: u64,
)
    requires
        deposit_spec(pool, position_data, user, custody, amount) is Ok,
    ensures
        ({
            let (pool1, pos1, _) = deposit_spec(pool, position_data, user, custody, amount)->Ok_0;
            let after = unstake_spec(pool1, position_bytes(pos1), user, custody, amount);
            &&& after is Ok
            &&& after->Ok_0.1.staked_amount == position_from(position_data).staked_amount
            &&& after->Ok_0.0 == pool
        }),
{
    let (pool1, pos1, _) = deposit_spec(pool, position_data, user, custody, amount)->Ok_0;
    lemma_position_round_trip(pos1);
}

/// A withdrawal larger than the position's balance fails with
/// `InsufficientFunds`, for a signed request on an initialized position.
pub proof fn withdraw_beyond_balance_fails(
    pool: StakingManager,
    position_data: Seq<u8>,
    user: AccountRef,
    custody: AccountRef,
    amount: u64,
)
    requires
        user.is_signer,
        position_data.len() == crate::state::POSITION_LEN,
        position_from(position_data).is_initialized,
        amount > position_from(position_data).staked_amount,
    ensures
        unstake_spec(pool, position_data, user, custody, amount) == Err::<
            (StakingManager, crate::state::UserStakeInfo, crate::processor::Transfer),
            StakingError,
        >(StakingError::InsufficientFunds),
{
}

/// A signed start-epoch request fails with `InvalidArgument` when the new
/// window does not start after the current one ends or is empty; when it
/// succeeds the epoch id grows by exactly one.
pub proof fn start_epoch_rules(
    pool: StakingManager,
    owner: AccountRef,
    start_time: u64,
    end_time: u64,
    reward_amount: u64,
)
    ensures
        owner.is_signer && start_time <= pool.current_epoch_end_time ==> start_epoch_spec(
            pool,
            owner,
            start_time,
            end_time,
            reward_amount,
        ) == Err::<StakingManager, StakingError>(StakingError::InvalidArgument),
        owner.is_signer && end_time <= start_time ==> start_epoch_spec(
            pool,
            owner,
            start_time,
            end_time,
            reward_amount,
        ) == Err::<StakingManager, StakingError>(StakingError::InvalidArgument),
        start_epoch_spec(pool, owner, start_time, end_time, reward_amount) is Ok
            ==> start_epoch_spec(pool, owner, start_time, end_time, reward_amount)->Ok_0.epoch_id
            == pool.epoch_id + 1,
{
}

/// The reward formula: nothing for an empty position or an empty pool, the
/// whole epoch reward for a position that is the whole (non-empty) pool, and
/// never less for a larger position.
pub proof fn reward_laws(
    user_staked: u64,
    larger: u64,
    epoch_reward: u64,
    total_staked: u64,
)
    ensures
        reward_of(0, epoch_reward, total_staked) == 0,
        reward_of(user_staked, epoch_reward, 0) == 0,
        total_staked > 0 ==> reward_of(total_staked, epoch_reward, total_staked)
            == epoch_reward,
        user_staked <= larger ==> reward_of(user_staked, epoch_reward, total_staked)
            <= reward_of(larger, epoch_reward, total_staked),
{
    if total_staked > 0 {
        let t = total_staked as int;
        let r = epoch_reward as int;
        assert((t * r) / t == r) by (nonlinear_arith)
            requires
                t > 0,
        ;
        assert(0int * r == 0);
        if user_staked <= larger {
            let u = user_staked as int;
            let l = larger as int;
            assert(u * r <= l * r) by (nonlinear_arith)
                requires
                    u <= l,
                    r >= 0,
            ;
            vstd::arithmetic::div_mod::lemma_div_is_ordered(u * r, l * r, t);
        }
    }
}

/// A claim, run through the dispatcher, writes back a pool record with the
/// same total staked and leaves the position record as it was.
pub proof fn claim_keeps_balances(
    program_id: Pubkey,
    pool_tag: Pubkey,
    pool_data: Seq<u8>,
    accounts: Seq<AccountRef>,
    position_data: Seq<u8>,
    instruction_data: Seq<u8>,
)
    requires
        instruction_of(instruction_data) == Ok::<Instruction, StakingError>(Instruction::Claim),
        process_spec(program_id, pool_tag, pool_data, accounts, position_data, instruction_data)
            is Ok,
    ensures
        ({
            let (pool, position, _) = process_spec(
                program_id,
                pool_tag,
                pool_data,
                accounts,
                position_data,
                instruction_data,
            )->Ok_0;
            &&& position is None
            &&& pool == pool_from(pool_data)
            &&& pool_from(pool_bytes(pool)).tokens_staked == pool_from(pool_data).tokens_staked
        }),
{
    let (pool, _, _) = process_spec(
        program_id,
        pool_tag,
        pool_data,
        accounts,
        position_data,
        instruction_data,
    )->Ok_0;
    lemma_pool_round_trip(pool);
}

/// A deposit whose participant did not sign fails with `MissingSignature`.
pub proof fn unsigned_deposit_fails(
    pool: StakingManager,
    position_data: Seq<u8>,
    user: AccountRef,
    custody: AccountRef,
    amount: u64,
)
    requires
        !user.is_signer,
    ensures
        deposit_spec(pool, position_data, user, custody, amount) == Err::<
            (StakingManager, crate::state::UserStakeInfo, crate::processor::Transfer),
            StakingError,
        >(StakingError::MissingSignature),
{
}

} // verus!
