use vstd::prelude::*;
use crate::error::StakingError;
use crate::reward::{calculate_rewards, reward_of};
use crate::state::{
    pool_bytes, pool_from, position_bytes, position_from, read_u64_le, u64_from_le, Pubkey,
    StakingManager, UserStakeInfo, POOL_LEN, POSITION_LEN,
};

verus! {

/// What the host says of an account taking part in a transition.
#[derive(Clone, Copy, Debug, PartialEq, Eq)]
pub struct AccountRef {
    pub key: Pubkey,
    pub is_signer: bool,
}

/// A movement of `amount` from custody account to account, which the host
/// performs before any record is persisted.
#[derive(Clone, Copy, Debug, PartialEq, Eq)]
pub struct Transfer {
    pub from: Pubkey,
    pub to: Pubkey,
    pub amount: u64,
}

/// A decoded instruction.
#[derive(Clone, Copy, Debug, PartialEq, Eq)]
pub enum Instruction {
    Initialize,
    Deposit { amount: u64 },
    Withdraw { amount: u64 },
    StartEpoch { start_time: u64, end_time: u64, reward_amount: u64 },
    Claim,
}

/// Opcode in byte 0; deposit and withdraw carry an amount in bytes 1..9,
/// start-epoch carries start, end and reward in bytes 1..25.
pub open spec fn instruction_of(data: Seq<u8>) -> Result<Instruction, StakingError> {
    if data.len() == 0 {
        Err(StakingError::InvalidOperation)
    } else if data[0] == 0 {
        Ok(Instruction::Initialize)
    } else if data[0] == 1 || data[0] == 2 {
        if data.len() < 9 {
            Err(StakingError::TruncatedPayload)
        } else if data[0] == 1 {
            Ok(Instruction::Deposit { amount: u64_from_le(data.subrange(1, 9)) })
        } else {
            Ok(Instruction::Withdraw { amount: u64_from_le(data.subrange(1, 9)) })
        }
    } else if data[0] == 3 {
        if data.len() < 25 {
            Err(StakingError::TruncatedPayload)
        } else {
            Ok(
                Instruction::StartEpoch {
                    start_time: u64_from_le(data.subrange(1, 9)),
                    end_time: u64_from_le(data.subrange(9, 17)),
                    reward_amount: u64_from_le(data.subrange(17, 25)),
                },
            )
        }
    } else if data[0] == 4 {
        Ok(Instruction::Claim)
    } else {
        Err(StakingError::InvalidOperation)
    }
}

impl Instruction {
    /// Decodes an instruction buffer.
    pub fn unpack(data: &[u8]) -> (r: Result<Instruction, StakingError>)
        ensures
            r == instruction_of(data@),
    {
        if data.len() == 0 {
            return Err(StakingError::InvalidOperation);
        }
        let op = data[0];
        if op == 0 {
            Ok(Instruction::Initialize)
        } else if op == 1 || op == 2 {
            if data.len() < 9 {
                return Err(StakingError::TruncatedPayload);
            }
            let amount = read_u64_le(data, 1);
            if op == 1 {
                Ok(Instruction::Deposit { amount })
            } else {
                Ok(Instruction::Withdraw { amount })
            }
        } else if op == 3 {
            if data.len() < 25 {
                return Err(StakingError::TruncatedPayload);
            }
            Ok(
                Instruction::StartEpoch {
                    start_time: read_u64_le(data, 1),
                    end_time: read_u64_le(data, 9),
                    reward_amount: read_u64_le(data, 17),
                },
            )
        } else if op == 4 {
            Ok(Instruction::Claim)
        } else {
            Err(StakingError::InvalidOperation)
        }
    }
}

/// Initialize: the signer becomes the pool's owner. An already initialized
/// pool is not refused; its owner is replaced.
pub open spec fn initialize_spec(pool: StakingManager, owner: AccountRef) -> Result<
    StakingManager,
    StakingError,
> {
    if !owner.is_signer {
        Err(StakingError::MissingSignature)
    } else {
        Ok(StakingManager { is_initialized: true, owner: owner.key, ..pool })
    }
}

/// Deposit: the position (bound to the participant on first use) and the
/// pool's total both grow by `amount`, which moves from the participant to
/// custody.
pub open spec fn deposit_spec(
    pool: StakingManager,
    position_data: Seq<u8>,
    user: AccountRef,
    custody: AccountRef,
    amount: u64,
) -> Result<(StakingManager, UserStakeInfo, Transfer), StakingError> {
    let position = position_from(position_data);
    if !user.is_signer {
        Err(StakingError::MissingSignature)
    } else if position_data.len() != POSITION_LEN {
        Err(StakingError::InvalidAccountData)
    } else if position.staked_amount + amount > u64::MAX || pool.tokens_staked + amount
        > u64::MAX {
        Err(StakingError::Overflow)
    } else {
        Ok(
            (
                StakingManager { tokens_staked: (pool.tokens_staked + amount) as u64, ..pool },
                UserStakeInfo {
                    is_initialized: true,
                    user: if position.is_initialized {
                        position.user
                    } else {
                        user.key
                    },
                    staked_amount: (position.staked_amount + amount) as u64,
                },
                Transfer { from: user.key, to: custody.key, amount },
            ),
        )
    }
}

/// Withdraw: the position and the pool's total both shrink by `amount`,
/// which moves from custody back to the participant.
pub open spec fn unstake_spec(
    pool: StakingManager,
    position_data: Seq<u8>,
    user: AccountRef,
    custody: AccountRef,
    amount: u64,
) -> Result<(StakingManager, UserStakeInfo, Transfer), StakingError> {
    let position = position_from(position_data);
    if !user.is_signer {
        Err(StakingError::MissingSignature)
    } else if position_data.len() != POSITION_LEN {
        Err(StakingError::InvalidAccountData)
    } else if !position.is_initialized {
        Err(StakingError::Uninitialized)
    } else if position.staked_amount < amount {
        Err(StakingError::InsufficientFunds)
    } else if pool.tokens_staked < amount {
        Err(StakingError::Overflow)
    } else {
        Ok(
            (
                StakingManager { tokens_staked: (pool.tokens_staked - amount) as u64, ..pool },
                UserStakeInfo {
                    staked_amount: (position.staked_amount - amount) as u64,
                    ..position
                },
                Transfer { from: custody.key, to: user.key, amount },
            ),
        )
    }
}

/// Start epoch: the window must begin after the previous one ends and must
/// not be empty; the epoch counter advances by one. Only the signature is
/// checked, not that the signer is the pool's owner.
pub open spec fn start_epoch_spec(
    pool: StakingManager,
    owner: AccountRef,
    start_time: u64,
    end_time: u64,
    reward_amount: u64,
) -> Result<StakingManager, StakingError> {
    if !owner.is_signer {
        Err(StakingError::MissingSignature)
    } else if start_time <= pool.current_epoch_end_time {
        Err(StakingError::InvalidArgument)
    } else if end_time <= start_time {
        Err(StakingError::InvalidArgument)
    } else if pool.epoch_id == u16::MAX {
        Err(StakingError::Overflow)
    } else {
        Ok(
            StakingManager {
                current_epoch_start_time: start_time,
                current_epoch_end_time: end_time,
                current_epoch_reward: reward_amount,
                epoch_id: (pool.epoch_id + 1) as u16,
                ..pool
            },
        )
    }
}

/// The staked amount of an initialized position record.
pub open spec fn staked_amount_spec(position_data: Seq<u8>) -> Result<u64, StakingError> {
    if position_data.len() != POSITION_LEN {
        Err(StakingError::InvalidAccountData)
    } else if !position_from(position_data).is_initialized {
        Err(StakingError::Uninitialized)
    } else {
        Ok(position_from(position_data).staked_amount)
    }
}

/// Claim: the position's share of the epoch reward moves from reward custody
/// to the participant. No record changes, and nothing marks the claim as
/// made: a later claim in the same epoch is paid again.
pub open spec fn claim_spec(
    pool: StakingManager,
    position_data: Seq<u8>,
    user: AccountRef,
    reward_custody: AccountRef,
) -> Result<Transfer, StakingError> {
    if !user.is_signer {
        Err(StakingError::MissingSignature)
    } else {
        match staked_amount_spec(position_data) {
            Err(e) => Err(e),
            Ok(staked) => {
                let v = reward_of(staked, pool.current_epoch_reward, pool.tokens_staked);
                if v > u64::MAX {
                    Err(StakingError::Overflow)
                } else {
                    Ok(Transfer { from: reward_custody.key, to: user.key, amount: v as u64 })
                }
            },
        }
    }
}

/// Makes `owner` the pool's owner.
pub fn initialize(staking_manager: &mut StakingManager, owner: &AccountRef) -> (r: Result<
    (),
    StakingError,
>)
    ensures
        match initialize_spec(*old(staking_manager), *owner) {
            Ok(p) => r == Ok::<(), StakingError>(()) && *final(staking_manager) == p,
            Err(e) => r == Err::<(), StakingError>(e) && *final(staking_manager) == *old(
                staking_manager,
            ),
        },
{
    if !owner.is_signer {
        return Err(StakingError::MissingSignature);
    }
    staking_manager.is_initialized = true;
    staking_manager.owner = owner.key;
    Ok(())
}

/// Adds `amount` to the participant's position and to the pool's total, and
/// returns the transfer into custody that must succeed before either record
/// is persisted.
pub fn deposit(
    staking_manager: &mut StakingManager,
    user: &AccountRef,
    custody: &AccountRef,
    position_data: &mut Vec<u8>,
    amount: u64,
) -> (r: Result<Transfer, StakingError>)
    ensures
        match deposit_spec(*old(staking_manager), old(position_data)@, *user, *custody, amount) {
            Ok((p, s, t)) => r == Ok::<Transfer, StakingError>(t) && *final(staking_manager) == p
                && final(position_data)@ == position_bytes(s),
            Err(e) => r == Err::<Transfer, StakingError>(e) && *final(staking_manager) == *old(
                staking_manager,
            ) && final(position_data)@ == old(position_data)@,
        },
{
    if !user.is_signer {
        return Err(StakingError::MissingSignature);
    }
    if position_data.len() != POSITION_LEN {
        return Err(StakingError::InvalidAccountData);
    }
    let mut position = match UserStakeInfo::unpack_from_slice(position_data.as_slice()) {
        Ok(p) => p,
        Err(e) => return Err(e),
    };
    if amount > u64::MAX - position.staked_amount || amount > u64::MAX
        - staking_manager.tokens_staked {
        return Err(StakingError::Overflow);
    }
    if !position.is_initialized {
        position.is_initialized = true;
        position.user = user.key;
    }
    position.staked_amount = position.staked_amount + amount;
    position.pack_into_slice(position_data);
    assert(position_data@ =~= position_data@.subrange(0, POSITION_LEN as int));
    staking_manager.tokens_staked = staking_manager.tokens_staked + amount;
    Ok(Transfer { from: user.key, to: custody.key, amount })
}

/// Takes `amount` from the participant's position and from the pool's total,
/// and returns the transfer out of custody.
pub fn unstake(
    staking_manager: &mut StakingManager,
    user: &AccountRef,
    custody: &AccountRef,
    position_data: &mut Vec<u8>,
    amount: u64,
) -> (r: Result<Transfer, StakingError>)
    ensures
        match unstake_spec(*old(staking_manager), old(position_data)@, *user, *custody, amount) {
            Ok((p, s, t)) => r == Ok::<Transfer, StakingError>(t) && *final(staking_manager) == p
                && final(position_data)@ == position_bytes(s),
            Err(e) => r == Err::<Transfer, StakingError>(e) && *final(staking_manager) == *old(
                staking_manager,
            ) && final(position_data)@ == old(position_data)@,
        },
{
    if !user.is_signer {
        return Err(StakingError::MissingSignature);
    }
    if position_data.len() != POSITION_LEN {
        return Err(StakingError::InvalidAccountData);
    }
    let mut position = match UserStakeInfo::unpack_from_slice(position_data.as_slice()) {
        Ok(p) => p,
        Err(e) => return Err(e),
    };
    if !position.is_initialized {
        return Err(StakingError::Uninitialized);
    }
    if position.staked_amount < amount {
        return Err(StakingError::InsufficientFunds);
    }
    if staking_manager.tokens_staked < amount {
        return Err(StakingError::Overflow);
    }
    position.staked_amount = position.staked_amount - amount;
    position.pack_into_slice(position_data);
    assert(position_data@ =~= position_data@.subrange(0, POSITION_LEN as int));
    staking_manager.tokens_staked = staking_manager.tokens_staked - amount;
    Ok(Transfer { from: custody.key, to: user.key, amount })
}

/// Opens the epoch `[start_time, end_time)` with `reward_amount` to share.
pub fn start_epoch(
    staking_manager: &mut StakingManager,
    owner: &AccountRef,
    start_time: u64,
    end_time: u64,
    reward_amount: u64,
) -> (r: Result<(), StakingError>)
    ensures
        match start_epoch_spec(*old(staking_manager), *owner, start_time, end_time, reward_amount) {
            Ok(p) => r == Ok::<(), StakingError>(()) && *final(staking_manager) == p,
            Err(e) => r == Err::<(), StakingError>(e) && *final(staking_manager) == *old(
                staking_manager,
            ),
        },
{
    if !owner.is_signer {
        return Err(StakingError::MissingSignature);
    }
    if start_time <= staking_manager.current_epoch_end_time {
        return Err(StakingError::InvalidArgument);
    }
    if end_time <= start_time {
        return Err(StakingError::InvalidArgument);
    }
    if staking_manager.epoch_id == u16::MAX {
        return Err(StakingError::Overflow);
    }
    staking_manager.current_epoch_start_time = start_time;
    staking_manager.current_epoch_end_time = end_time;
    staking_manager.current_epoch_reward = reward_amount;
    staking_manager.epoch_id = staking_manager.epoch_id + 1;
    Ok(())
}

/// The staked amount held by a position record, which must be initialized.
pub fn get_user_staked_amount(position_data: &[u8]) -> (r: Result<u64, StakingError>)
    ensures
        r == staked_amount_spec(position_data@),
{
    if position_data.len() != POSITION_LEN {
        return Err(StakingError::InvalidAccountData);
    }
    let position = match UserStakeInfo::unpack_from_slice(position_data) {
        Ok(p) => p,
        Err(e) => return Err(e),
    };
    if !position.is_initialized {
        return Err(StakingError::Uninitialized);
    }
    Ok(position.staked_amount)
}

/// Computes the participant's reward and returns its transfer out of reward
/// custody.
pub fn claim(
    staking_manager: &StakingManager,
    user: &AccountRef,
    reward_custody: &AccountRef,
    position_data: &[u8],
) -> (r: Result<Transfer, StakingError>)
    ensures
        r == claim_spec(*staking_manager, position_data@, *user, *reward_custody),
{
    if !user.is_signer {
        return Err(StakingError::MissingSignature);
    }
    let user_staked_amount = match get_user_staked_amount(position_data) {
        Ok(v) => v,
        Err(e) => return Err(e),
    };
    let rewards = match calculate_rewards(staking_manager, user_staked_amount) {
        Ok(v) => v,
        Err(e) => return Err(e),
    };
    Ok(Transfer { from: reward_custody.key, to: user.key, amount: rewards })
}

/// What the dispatcher does with the pool account's storage tag, its data,
/// the operation's accounts, the position record's data and the instruction:
/// the new pool record, the new position record if the operation writes one,
/// and the transfer to perform.
pub open spec fn process_spec(
    program_id: Pubkey,
    pool_tag: Pubkey,
    pool_data: Seq<u8>,
    accounts: Seq<AccountRef>,
    position_data: Seq<u8>,
    instruction_data: Seq<u8>,
) -> Result<(StakingManager, Option<UserStakeInfo>, Option<Transfer>), StakingError> {
    if pool_tag != program_id {
        Err(StakingError::NotOwnedByProgram)
    } else if pool_data.len() != POOL_LEN {
        Err(StakingError::InvalidAccountData)
    } else if instruction_data.len() == 0 {
        Err(StakingError::InvalidOperation)
    } else if instruction_data[0] != 0 && !pool_from(pool_data).is_initialized {
        Err(StakingError::Uninitialized)
    } else {
        match instruction_of(instruction_data) {
            Err(e) => Err(e),
            Ok(op) => route_spec(pool_from(pool_data), accounts, position_data, op),
        }
    }
}

/// Hands a decoded instruction to its handler. Initialize and start-epoch
/// take `[owner]`; deposit, withdraw and claim take
/// `[participant, custody, position record]`.
pub open spec fn route_spec(
    pool: StakingManager,
    accounts: Seq<AccountRef>,
    position_data: Seq<u8>,
    op: Instruction,
) -> Result<(StakingManager, Option<UserStakeInfo>, Option<Transfer>), StakingError> {
    match op {
        Instruction::Initialize => if accounts.len() < 1 {
            Err(StakingError::NotEnoughAccounts)
        } else {
            match initialize_spec(pool, accounts[0]) {
                Ok(p) => Ok((p, None, None)),
                Err(e) => Err(e),
            }
        },
        Instruction::StartEpoch { start_time, end_time, reward_amount } => if accounts.len() < 1 {
            Err(StakingError::NotEnoughAccounts)
        } else {
            match start_epoch_spec(pool, accounts[0], start_time, end_time, reward_amount) {
                Ok(p) => Ok((p, None, None)),
                Err(e) => Err(e),
            }
        },
        Instruction::Deposit { amount } => if accounts.len() < 3 {
            Err(StakingError::NotEnoughAccounts)
        } else {
            match deposit_spec(pool, position_data, accounts[0], accounts[1], amount) {
                Ok((p, s, t)) => Ok((p, Some(s), Some(t))),
                Err(e) => Err(e),
            }
        },
        Instruction::Withdraw { amount } => if accounts.len() < 3 {
            Err(StakingError::NotEnoughAccounts)
        } else {
            match unstake_spec(pool, position_data, accounts[0], accounts[1], amount) {
                Ok((p, s, t)) => Ok((p, Some(s), Some(t))),
                Err(e) => Err(e),
            }
        },
        Instruction::Claim => if accounts.len() < 3 {
            Err(StakingError::NotEnoughAccounts)
        } else {
            match claim_spec(pool, position_data, accounts[0], accounts[1]) {
                Ok(t) => Ok((pool, None, Some(t))),
                Err(e) => Err(e),
            }
        },
    }
}

/// Runs one instruction against the pool record in `pool_data` and the
/// position record in `position_data`. On success both buffers hold the
/// records to persist, once the returned transfer (if any) has been made; on
/// failure neither buffer changes.
pub fn process_instruction(
    program_id: &Pubkey,
    pool_tag: &Pubkey,
    pool_data: &mut Vec<u8>,
    accounts: &[AccountRef],
    position_data: &mut Vec<u8>,
    instruction_data: &[u8],
) -> (r: Result<Option<Transfer>, StakingError>)
    ensures
        match process_spec(
            *program_id,
            *pool_tag,
            old(pool_data)@,
            accounts@,
            old(position_data)@,
            instruction_data@,
        ) {
            Ok((p, s, t)) => r == Ok::<Option<Transfer>, StakingError>(t) && final(pool_data)@
                == pool_bytes(p) && final(position_data)@ == match s {
                Some(s) => position_bytes(s),
                None => old(position_data)@,
            },
            Err(e) => r == Err::<Option<Transfer>, StakingError>(e) && final(pool_data)@ == old(
                pool_data,
            )@ && final(position_data)@ == old(position_data)@,
        },
{
    if !pool_tag.same_as(program_id) {
        return Err(StakingError::NotOwnedByProgram);
    }
    if pool_data.len() != POOL_LEN {
        return Err(StakingError::InvalidAccountData);
    }
    let mut staking_manager = match StakingManager::unpack_from_slice(pool_data.as_slice()) {
        Ok(p) => p,
        Err(e) => return Err(e),
    };
    if instruction_data.len() == 0 {
        return Err(StakingError::InvalidOperation);
    }
    if instruction_data[0] != 0 && !staking_manager.is_initialized {
        return Err(StakingError::Uninitialized);
    }
    let op = match Instruction::unpack(instruction_data) {
        Ok(op) => op,
        Err(e) => return Err(e),
    };
    let needed: usize = match op {
        Instruction::Initialize | Instruction::StartEpoch { .. } => 1,
        _ => 3,
    };
    if accounts.len() < needed {
        return Err(StakingError::NotEnoughAccounts);
    }
    let transfer = match op {
        Instruction::Initialize => match initialize(&mut staking_manager, &accounts[0]) {
            Ok(()) => None,
            Err(e) => return Err(e),
        },
        Instruction::StartEpoch { start_time, end_time, reward_amount } => match start_epoch(
            &mut staking_manager,
            &accounts[0],
            start_time,
            end_time,
            reward_amount,
        ) {
            Ok(()) => None,
            Err(e) => return Err(e),
        },
        Instruction::Deposit { amount } => match deposit(
            &mut staking_manager,
            &accounts[0],
            &accounts[1],
            position_data,
            amount,
        ) {
            Ok(t) => Some(t),
            Err(e) => return Err(e),
        },
        Instruction::Withdraw { amount } => match unstake(
            &mut staking_manager,
            &accounts[0],
            &accounts[1],
            position_data,
            amount,
        ) {
            Ok(t) => Some(t),
            Err(e) => return Err(e),
        },
        Instruction::Claim => match claim(
            &staking_manager,
            &accounts[0],
            &accounts[1],
            position_data.as_slice(),
        ) {
            Ok(t) => Some(t),
            Err(e) => return Err(e),
        },
    };
    staking_manager.pack_into_slice(pool_data);
    assert(pool_data@ =~= pool_data@.subrange(0, POOL_LEN as int));
    Ok(transfer)
}

} // verus!
