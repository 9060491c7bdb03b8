use staking_contract::error::{ErrorKind, StakingError};
use staking_contract::processor::{
    claim, deposit, get_user_staked_amount, initialize, process_instruction, start_epoch,
    unstake, AccountRef, Instruction, Transfer,
};
use staking_contract::reward::calculate_rewards;
use staking_contract::state::{Pubkey, StakingManager, UserStakeInfo, POOL_LEN, POSITION_LEN};

fn key(b: u8) -> Pubkey {
    Pubkey { bytes: [b; 32] }
}

fn signer(b: u8) -> AccountRef {
    AccountRef { key: key(b), is_signer: true }
}

fn unsigned(b: u8) -> AccountRef {
    AccountRef { key: key(b), is_signer: false }
}

fn pool(total: u64, reward: u64) -> StakingManager {
    StakingManager {
        is_initialized: true,
        owner: key(1),
        stake_token: key(2),
        reward_token: key(3),
        tokens_staked: total,
        current_epoch_reward: reward,
        current_epoch_start_time: 0,
        current_epoch_end_time: 0,
        epoch_id: 0,
    }
}

fn position_data(initialized: bool, user: u8, staked: u64) -> Vec<u8> {
    let mut out = vec![0u8; POSITION_LEN];
    UserStakeInfo { is_initialized: initialized, user: key(user), staked_amount: staked }
        .pack_into_slice(&mut out);
    out
}

fn amount_ix(op: u8, amount: u64) -> Vec<u8> {
    let mut v = vec![op];
    v.extend_from_slice(&amount.to_le_bytes());
    v
}

fn epoch_ix(start: u64, end: u64, reward: u64) -> Vec<u8> {
    let mut v = vec![3u8];
    v.extend_from_slice(&start.to_le_bytes());
    v.extend_from_slice(&end.to_le_bytes());
    v.extend_from_slice(&reward.to_le_bytes());
    v
}

#[test]
fn reward_quarter_and_floor() {
    let p = pool(1000, 100);
    assert_eq!(calculate_rewards(&p, 250), Ok(25));
    assert_eq!(calculate_rewards(&p, 333), Ok(33));
}

#[test]
fn reward_edge_cases() {
    assert_eq!(calculate_rewards(&pool(1000, 77), 0), Ok(0));
    assert_eq!(calculate_rewards(&pool(0, 77), 500), Ok(0));
    assert_eq!(calculate_rewards(&pool(1000, 77), 1000), Ok(77));
    assert_eq!(calculate_rewards(&pool(u64::MAX, u64::MAX), u64::MAX), Ok(u64::MAX));
    assert_eq!(calculate_rewards(&pool(1, u64::MAX), 2), Err(StakingError::Overflow));
}

#[test]
fn reward_monotonic_in_stake() {
    let p = pool(997, 1234);
    let mut last = 0u64;
    for u in 0..997u64 {
        let r = calculate_rewards(&p, u).unwrap();
        assert!(r >= last);
        last = r;
    }
}

#[test]
fn claim_pays_share_and_keeps_records() {
    let p = pool(1000, 100);
    let data = position_data(true, 9, 250);
    let t = claim(&p, &signer(9), &signer(3), &data).unwrap();
    assert_eq!(t, Transfer { from: key(3), to: key(9), amount: 25 });
    assert_eq!(p.tokens_staked, 1000);
    assert_eq!(data, position_data(true, 9, 250));
}

#[test]
fn claim_errors() {
    let p = pool(1000, 100);
    assert_eq!(
        claim(&p, &unsigned(9), &signer(3), &position_data(true, 9, 1)),
        Err(StakingError::MissingSignature)
    );
    assert_eq!(
        claim(&p, &signer(9), &signer(3), &position_data(false, 9, 1)),
        Err(StakingError::Uninitialized)
    );
    assert_eq!(claim(&p, &signer(9), &signer(3), &[1u8; 5]), Err(StakingError::InvalidAccountData));
}

#[test]
fn staked_amount_of_record() {
    assert_eq!(get_user_staked_amount(&position_data(true, 4, 42)), Ok(42));
    assert_eq!(get_user_staked_amount(&position_data(false, 4, 42)), Err(StakingError::Uninitialized));
}

#[test]
fn deposit_then_withdraw_restores_balances() {
    let mut p = pool(500, 0);
    let mut data = position_data(true, 9, 40);
    let t = deposit(&mut p, &signer(9), &signer(5), &mut data, 60).unwrap();
    assert_eq!(t, Transfer { from: key(9), to: key(5), amount: 60 });
    assert_eq!(p.tokens_staked, 560);
    assert_eq!(get_user_staked_amount(&data), Ok(100));
    let t = unstake(&mut p, &signer(9), &signer(5), &mut data, 60).unwrap();
    assert_eq!(t, Transfer { from: key(5), to: key(9), amount: 60 });
    assert_eq!(p.tokens_staked, 500);
    assert_eq!(data, position_data(true, 9, 40));
}

#[test]
fn first_deposit_binds_position() {
    let mut p = pool(0, 0);
    let mut data = vec![0u8; POSITION_LEN];
    deposit(&mut p, &signer(7), &signer(5), &mut data, 10).unwrap();
    assert_eq!(data, position_data(true, 7, 10));
}

#[test]
fn unsigned_deposit_changes_nothing() {
    let mut p = pool(500, 0);
    let mut data = position_data(true, 9, 40);
    assert_eq!(
        deposit(&mut p, &unsigned(9), &signer(5), &mut data, 60),
        Err(StakingError::MissingSignature)
    );
    assert_eq!(StakingError::MissingSignature.kind(), ErrorKind::Authorization);
    assert_eq!(p.tokens_staked, 500);
    assert_eq!(data, position_data(true, 9, 40));
}

#[test]
fn deposit_overflow_is_refused() {
    let mut p = pool(u64::MAX, 0);
    let mut data = position_data(true, 9, 0);
    assert_eq!(deposit(&mut p, &signer(9), &signer(5), &mut data, 1), Err(StakingError::Overflow));
    assert_eq!(p.tokens_staked, u64::MAX);
    assert_eq!(StakingError::Overflow.kind(), ErrorKind::Arithmetic);
}

#[test]
fn withdraw_beyond_balance_changes_nothing() {
    let mut p = pool(500, 0);
    let mut data = position_data(true, 9, 40);
    assert_eq!(
        unstake(&mut p, &signer(9), &signer(5), &mut data, 41),
        Err(StakingError::InsufficientFunds)
    );
    assert_eq!(p.tokens_staked, 500);
    assert_eq!(data, position_data(true, 9, 40));
    assert_eq!(StakingError::InsufficientFunds.kind(), ErrorKind::InsufficientFunds);
}

#[test]
fn withdraw_needs_initialized_position() {
    let mut p = pool(500, 0);
    let mut data = position_data(false, 9, 40);
    assert_eq!(unstake(&mut p, &signer(9), &signer(5), &mut data, 1), Err(StakingError::Uninitialized));
    assert_eq!(unstake(&mut p, &unsigned(9), &signer(5), &mut data, 1), Err(StakingError::MissingSignature));
}

#[test]
fn withdraw_beyond_pool_total_is_refused() {
    let mut p = pool(10, 0);
    let mut data = position_data(true, 9, 40);
    assert_eq!(unstake(&mut p, &signer(9), &signer(5), &mut data, 20), Err(StakingError::Overflow));
}

#[test]
fn epoch_window_rules() {
    let mut p = pool(0, 0);
    assert_eq!(start_epoch(&mut p, &signer(1), 10, 20, 500), Ok(()));
    assert_eq!(p.epoch_id, 1);
    assert_eq!(p.current_epoch_start_time, 10);
    assert_eq!(p.current_epoch_end_time, 20);
    assert_eq!(p.current_epoch_reward, 500);
    assert_eq!(start_epoch(&mut p, &signer(1), 20, 30, 5), Err(StakingError::InvalidArgument));
    assert_eq!(start_epoch(&mut p, &signer(1), 25, 25, 5), Err(StakingError::InvalidArgument));
    assert_eq!(start_epoch(&mut p, &unsigned(1), 25, 30, 5), Err(StakingError::MissingSignature));
    assert_eq!(p.epoch_id, 1);
    assert_eq!(p.current_epoch_end_time, 20);
    assert_eq!(start_epoch(&mut p, &signer(1), 21, 30, 5), Ok(()));
    assert_eq!(p.epoch_id, 2);
    assert_eq!(StakingError::InvalidArgument.kind(), ErrorKind::Validation);
}

#[test]
fn epoch_counter_does_not_wrap() {
    let mut p = pool(0, 0);
    p.epoch_id = u16::MAX;
    assert_eq!(start_epoch(&mut p, &signer(1), 10, 20, 5), Err(StakingError::Overflow));
    assert_eq!(p.epoch_id, u16::MAX);
}

#[test]
fn initialize_binds_owner() {
    let mut p = StakingManager {
        is_initialized: false,
        owner: key(0),
        stake_token: key(2),
        reward_token: key(3),
        tokens_staked: 0,
        current_epoch_reward: 0,
        current_epoch_start_time: 0,
        current_epoch_end_time: 0,
        epoch_id: 0,
    };
    assert_eq!(initialize(&mut p, &unsigned(8)), Err(StakingError::MissingSignature));
    assert!(!p.is_initialized);
    assert_eq!(initialize(&mut p, &signer(8)), Ok(()));
    assert!(p.is_initialized);
    assert_eq!(p.owner, key(8));
}

#[test]
fn pool_layout_round_trip() {
    let mut p = pool(0x0102030405060708, 77);
    p.epoch_id = 0x0a0b;
    p.current_epoch_end_time = 99;
    let mut buf = vec![0u8; POOL_LEN];
    p.pack_into_slice(&mut buf);
    assert_eq!(buf.len(), 131);
    assert_eq!(buf[0], 1);
    assert_eq!(&buf[1..33], &[1u8; 32]);
    assert_eq!(&buf[97..105], &[8, 7, 6, 5, 4, 3, 2, 1]);
    assert_eq!(&buf[129..131], &[0x0b, 0x0a]);
    let q = StakingManager::unpack_from_slice(&buf).unwrap();
    assert_eq!(q.tokens_staked, 0x0102030405060708);
    assert_eq!(q.current_epoch_reward, 77);
    assert_eq!(q.current_epoch_end_time, 99);
    assert_eq!(q.epoch_id, 0x0a0b);
    assert_eq!(q.reward_token, key(3));
    assert_eq!(StakingManager::unpack_from_slice(&buf[..130]).err(), Some(StakingError::InvalidAccountData));
}

#[test]
fn position_layout() {
    let data = position_data(true, 6, 0x1122);
    assert_eq!(data.len(), 41);
    assert_eq!(data[0], 1);
    assert_eq!(&data[33..41], &[0x22, 0x11, 0, 0, 0, 0, 0, 0]);
    let u = UserStakeInfo::unpack_from_slice(&data).unwrap();
    assert_eq!(u.user, key(6));
    assert_eq!(u.staked_amount, 0x1122);
}

#[test]
fn instruction_decoding() {
    assert_eq!(Instruction::unpack(&[0]), Ok(Instruction::Initialize));
    assert_eq!(Instruction::unpack(&amount_ix(1, 258)), Ok(Instruction::Deposit { amount: 258 }));
    assert_eq!(Instruction::unpack(&amount_ix(2, 7)), Ok(Instruction::Withdraw { amount: 7 }));
    assert_eq!(
        Instruction::unpack(&epoch_ix(1, 2, 3)),
        Ok(Instruction::StartEpoch { start_time: 1, end_time: 2, reward_amount: 3 })
    );
    assert_eq!(Instruction::unpack(&[4]), Ok(Instruction::Claim));
    assert_eq!(Instruction::unpack(&[5]), Err(StakingError::InvalidOperation));
    assert_eq!(Instruction::unpack(&[]), Err(StakingError::InvalidOperation));
    assert_eq!(Instruction::unpack(&[1, 2, 3]), Err(StakingError::TruncatedPayload));
    assert_eq!(Instruction::unpack(&[3, 0, 0]), Err(StakingError::TruncatedPayload));
    assert_eq!(StakingError::TruncatedPayload.kind(), ErrorKind::Decode);
}

fn pool_buffer(p: StakingManager) -> Vec<u8> {
    let mut buf = vec![0u8; POOL_LEN];
    p.pack_into_slice(&mut buf);
    buf
}

#[test]
fn dispatcher_runs_a_session() {
    let program = key(100);
    let mut fresh = pool(0, 0);
    fresh.is_initialized = false;
    let mut pool_data = pool_buffer(fresh);
    let mut pos = vec![0u8; POSITION_LEN];

    let r = process_instruction(&program, &program, &mut pool_data, &[signer(1)], &mut pos, &[0]);
    assert_eq!(r, Ok(None));
    let accts = [signer(9), signer(5), signer(50)];
    let r = process_instruction(&program, &program, &mut pool_data, &accts, &mut pos, &amount_ix(1, 250));
    assert_eq!(r, Ok(Some(Transfer { from: key(9), to: key(5), amount: 250 })));
    let r = process_instruction(&program, &program, &mut pool_data, &[signer(1)], &mut pos, &epoch_ix(1, 10, 100));
    assert_eq!(r, Ok(None));
    let before = pool_data.clone();
    let claim_accts = [signer(9), signer(6), signer(50)];
    let r = process_instruction(&program, &program, &mut pool_data, &claim_accts, &mut pos, &[4]);
    assert_eq!(r, Ok(Some(Transfer { from: key(6), to: key(9), amount: 100 })));
    assert_eq!(pool_data, before);
    let state = StakingManager::unpack_from_slice(&pool_data).unwrap();
    assert_eq!(state.tokens_staked, 250);
    assert_eq!(state.epoch_id, 1);
    assert_eq!(state.owner, key(1));
}

#[test]
fn dispatcher_errors_leave_buffers() {
    let program = key(100);
    let mut pool_data = pool_buffer(pool(0, 0));
    let mut pos = position_data(true, 9, 3);
    let accts = [signer(9), signer(5), signer(50)];
    let p0 = pool_data.clone();
    let q0 = pos.clone();
    assert_eq!(
        process_instruction(&program, &key(101), &mut pool_data, &accts, &mut pos, &[4]),
        Err(StakingError::NotOwnedByProgram)
    );
    assert_eq!(
        process_instruction(&program, &program, &mut pool_data, &accts, &mut pos, &[9]),
        Err(StakingError::InvalidOperation)
    );
    assert_eq!(
        process_instruction(&program, &program, &mut pool_data, &accts[..2], &mut pos, &[4]),
        Err(StakingError::NotEnoughAccounts)
    );
    assert_eq!(
        process_instruction(&program, &program, &mut pool_data, &accts, &mut pos, &amount_ix(2, 4)),
        Err(StakingError::InsufficientFunds)
    );
    assert_eq!(pool_data, p0);
    assert_eq!(pos, q0);

    let mut fresh = pool(0, 0);
    fresh.is_initialized = false;
    let mut fresh_data = pool_buffer(fresh);
    assert_eq!(
        process_instruction(&program, &program, &mut fresh_data, &accts, &mut pos, &[4]),
        Err(StakingError::Uninitialized)
    );
    assert_eq!(StakingError::NotOwnedByProgram.kind(), ErrorKind::State);
}

#[test]
fn uninitialized_pool_refuses_before_reading_payload() {
    let program = key(100);
    let mut fresh = pool(0, 0);
    fresh.is_initialized = false;
    let mut pool_data = pool_buffer(fresh);
    let mut pos = position_data(true, 9, 3);
    let accts = [signer(9), signer(5), signer(50)];
    for ix in [vec![1u8], vec![2u8, 0], vec![3u8, 1, 2, 3], vec![4u8], vec![7u8]] {
        assert_eq!(
            process_instruction(&program, &program, &mut pool_data, &accts, &mut pos, &ix),
            Err(StakingError::Uninitialized)
        );
    }
    assert_eq!(pool_data, pool_buffer(fresh));
}

#[test]
fn pack_keeps_tail_of_longer_buffer() {
    let p = pool(5, 6);
    let mut buf = vec![0xeeu8; POOL_LEN + 3];
    p.pack_into_slice(&mut buf);
    assert_eq!(buf.len(), POOL_LEN + 3);
    assert_eq!(&buf[..POOL_LEN], &pool_buffer(p)[..]);
    assert_eq!(&buf[POOL_LEN..], &[0xee, 0xee, 0xee]);

    let u = UserStakeInfo { is_initialized: true, user: key(4), staked_amount: 9 };
    let mut buf = vec![0xeeu8; POSITION_LEN + 2];
    u.pack_into_slice(&mut buf);
    assert_eq!(&buf[..POSITION_LEN], &position_data(true, 4, 9)[..]);
    assert_eq!(&buf[POSITION_LEN..], &[0xee, 0xee]);
}

#[test]
fn unpack_reads_prefix_of_longer_buffer() {
    let mut buf = pool_buffer(pool(77, 8));
    buf.push(1);
    assert_eq!(StakingManager::unpack_from_slice(&buf), Ok(pool(77, 8)));
    let mut data = position_data(true, 4, 9);
    data.push(1);
    assert_eq!(
        UserStakeInfo::unpack_from_slice(&data),
        Ok(UserStakeInfo { is_initialized: true, user: key(4), staked_amount: 9 })
    );
    assert_eq!(get_user_staked_amount(&data), Err(StakingError::InvalidAccountData));
    let mut p = pool(0, 0);
    assert_eq!(deposit(&mut p, &signer(4), &signer(5), &mut data, 1), Err(StakingError::InvalidAccountData));
    assert_eq!(unstake(&mut p, &signer(4), &signer(5), &mut data, 1), Err(StakingError::InvalidAccountData));
}
