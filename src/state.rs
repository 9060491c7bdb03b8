use vstd::prelude::*;
use crate::error::StakingError;

verus! {

/// Length in bytes of a persisted pool record.
pub const POOL_LEN: usize = 131;

/// Length in bytes of a persisted position record.
pub const POSITION_LEN: usize = 41;

/// A 32-byte identity: an account address or an asset id.
#[derive(Clone, Copy, Debug, Default, PartialEq, Eq)]
pub struct Pubkey {
    pub bytes: [u8; 32],
}

/// The singleton pool record.
#[derive(Clone, Copy, Debug, Default, PartialEq, Eq)]
pub struct StakingManager {
    pub is_initialized: bool,
    pub owner: Pubkey,
    pub stake_token: Pubkey,
    pub reward_token: Pubkey,
    pub tokens_staked: u64,
    pub current_epoch_reward: u64,
    pub current_epoch_start_time: u64,
    pub current_epoch_end_time: u64,
    pub epoch_id: u16,
}

/// One participant's position record.
#[derive(Clone, Copy, Debug, Default, PartialEq, Eq)]
pub struct UserStakeInfo {
    pub is_initialized: bool,
    pub user: Pubkey,
    pub staked_amount: u64,
}

/// The eight little-endian bytes of `v`.
pub open spec fn u64_le_bytes(v: u64) -> Seq<u8> {
    seq![
        (v & 0xff) as u8,
        ((v >> 8u64) & 0xff) as u8,
        ((v >> 16u64) & 0xff) as u8,
        ((v >> 24u64) & 0xff) as u8,
        ((v >> 32u64) & 0xff) as u8,
        ((v >> 40u64) & 0xff) as u8,
        ((v >> 48u64) & 0xff) as u8,
        ((v >> 56u64) & 0xff) as u8,
    ]
}

/// The two little-endian bytes of `v`.
pub open spec fn u16_le_bytes(v: u16) -> Seq<u8> {
    seq![(v & 0xff) as u8, ((v >> 8u16) & 0xff) as u8]
}

/// The integer whose little-endian bytes are `s[0..8]`.
pub open spec fn u64_from_le(s: Seq<u8>) -> u64 {
    (s[0] as u64) | ((s[1] as u64) << 8u64) | ((s[2] as u64) << 16u64) | ((s[3] as u64)
        << 24u64) | ((s[4] as u64) << 32u64) | ((s[5] as u64) << 40u64) | ((s[6] as u64)
        << 48u64) | ((s[7] as u64) << 56u64)
}

/// The integer whose little-endian bytes are `s[0..2]`.
pub open spec fn u16_from_le(s: Seq<u8>) -> u16 {
    (s[0] as u16) | ((s[1] as u16) << 8u16)
}

/// The key whose bytes are `s[0..32]`.
pub open spec fn key_from(s: Seq<u8>) -> Pubkey {
    Pubkey { bytes: choose|a: [u8; 32]| a@ == s.subrange(0, 32) }
}

/// The persisted layout of a pool record.
pub open spec fn pool_bytes(p: StakingManager) -> Seq<u8> {
    seq![if p.is_initialized { 1u8 } else { 0u8 }] + p.owner.bytes@ + p.stake_token.bytes@
        + p.reward_token.bytes@ + u64_le_bytes(p.tokens_staked) + u64_le_bytes(
        p.current_epoch_reward,
    ) + u64_le_bytes(p.current_epoch_start_time) + u64_le_bytes(p.current_epoch_end_time)
        + u16_le_bytes(p.epoch_id)
}

/// The pool record held by the first `POOL_LEN` bytes of a buffer.
pub open spec fn pool_from(s: Seq<u8>) -> StakingManager {
    StakingManager {
        is_initialized: s[0] != 0,
        owner: key_from(s.subrange(1, 33)),
        stake_token: key_from(s.subrange(33, 65)),
        reward_token: key_from(s.subrange(65, 97)),
        tokens_staked: u64_from_le(s.subrange(97, 105)),
        current_epoch_reward: u64_from_le(s.subrange(105, 113)),
        current_epoch_start_time: u64_from_le(s.subrange(113, 121)),
        current_epoch_end_time: u64_from_le(s.subrange(121, 129)),
        epoch_id: u16_from_le(s.subrange(129, 131)),
    }
}

/// The persisted layout of a position record.
pub open spec fn position_bytes(u: UserStakeInfo) -> Seq<u8> {
    seq![if u.is_initialized { 1u8 } else { 0u8 }] + u.user.bytes@ + u64_le_bytes(
        u.staked_amount,
    )
}

/// The position record held by the first `POSITION_LEN` bytes of a buffer.
pub open spec fn position_from(s: Seq<u8>) -> UserStakeInfo {
    UserStakeInfo {
        is_initialized: s[0] != 0,
        user: key_from(s.subrange(1, 33)),
        staked_amount: u64_from_le(s.subrange(33, 41)),
    }
}

pub proof fn lemma_key_from_array(a: [u8; 32])
    ensures
        key_from(a@) == (Pubkey { bytes: a }),
{
    assert(a@.subrange(0, 32) =~= a@);
    let c = choose|c: [u8; 32]| c@ == a@.subrange(0, 32);
    assert(c@ == a@);
    assert(c =~= a);
}

proof fn lemma_u64_round_trip(v: u64)
    ensures
        u64_from_le(u64_le_bytes(v)) == v,
{
    let b = u64_le_bytes(v);
    assert(((v & 0xff) as u8 as u64) | ((((v >> 8u64) & 0xff) as u8 as u64) << 8u64) | ((((v
        >> 16u64) & 0xff) as u8 as u64) << 16u64) | ((((v >> 24u64) & 0xff) as u8 as u64)
        << 24u64) | ((((v >> 32u64) & 0xff) as u8 as u64) << 32u64) | ((((v >> 40u64) & 0xff)
        as u8 as u64) << 40u64) | ((((v >> 48u64) & 0xff) as u8 as u64) << 48u64) | ((((v
        >> 56u64) & 0xff) as u8 as u64) << 56u64) == v) by (bit_vector);
}

proof fn lemma_u16_round_trip(v: u16)
    ensures
        u16_from_le(u16_le_bytes(v)) == v,
{
    assert(((v & 0xff) as u8 as u16) | ((((v >> 8u16) & 0xff) as u8 as u16) << 8u16) == v)
        by (bit_vector);
}

/// Reading back a written pool record gives the same record.
pub proof fn lemma_pool_round_trip(p: StakingManager)
    ensures
        pool_bytes(p).len() == POOL_LEN,
        pool_from(pool_bytes(p)) == p,
{
    let s = pool_bytes(p);
    lemma_key_from_array(p.owner.bytes);
    lemma_key_from_array(p.stake_token.bytes);
    lemma_key_from_array(p.reward_token.bytes);
    lemma_u64_round_trip(p.tokens_staked);
    lemma_u64_round_trip(p.current_epoch_reward);
    lemma_u64_round_trip(p.current_epoch_start_time);
    lemma_u64_round_trip(p.current_epoch_end_time);
    lemma_u16_round_trip(p.epoch_id);
    assert(s.subrange(1, 33) =~= p.owner.bytes@);
    assert(s.subrange(33, 65) =~= p.stake_token.bytes@);
    assert(s.subrange(65, 97) =~= p.reward_token.bytes@);
    assert(s.subrange(97, 105) =~= u64_le_bytes(p.tokens_staked));
    assert(s.subrange(105, 113) =~= u64_le_bytes(p.current_epoch_reward));
    assert(s.subrange(113, 121) =~= u64_le_bytes(p.current_epoch_start_time));
    assert(s.subrange(121, 129) =~= u64_le_bytes(p.current_epoch_end_time));
    assert(s.subrange(129, 131) =~= u16_le_bytes(p.epoch_id));
}

/// Reading back a written position record gives the same record.
pub proof fn lemma_position_round_trip(u: UserStakeInfo)
    ensures
        position_bytes(u).len() == POSITION_LEN,
        position_from(position_bytes(u)) == u,
{
    let s = position_bytes(u);
    lemma_key_from_array(u.user.bytes);
    lemma_u64_round_trip(u.staked_amount);
    assert(s.subrange(1, 33) =~= u.user.bytes@);
    assert(s.subrange(33, 41) =~= u64_le_bytes(u.staked_amount));
}

impl Pubkey {
    /// Whether the two keys hold the same bytes.
    pub fn same_as(&self, other: &Pubkey) -> (r: bool)
        ensures
            r == (*self == *other),
    {
        let mut i: usize = 0;
        while i < 32
            invariant
                0 <= i <= 32,
                forall|j: int| 0 <= j < i ==> self.bytes@[j] == other.bytes@[j],
            decreases 32 - i,
        {
            if self.bytes[i] != other.bytes[i] {
                return false;
            }
            i = i + 1;
        }
        assert(self.bytes =~= other.bytes);
        true
    }
}

fn push_u64_le(out: &mut Vec<u8>, v: u64)
    ensures
        final(out)@ == old(out)@ + u64_le_bytes(v),
{
    out.push((v & 0xff) as u8);
    out.push(((v >> 8u64) & 0xff) as u8);
    out.push(((v >> 16u64) & 0xff) as u8);
    out.push(((v >> 24u64) & 0xff) as u8);
    out.push(((v >> 32u64) & 0xff) as u8);
    out.push(((v >> 40u64) & 0xff) as u8);
    out.push(((v >> 48u64) & 0xff) as u8);
    out.push(((v >> 56u64) & 0xff) as u8);
    assert(final(out)@ =~= old(out)@ + u64_le_bytes(v));
}

fn push_key(out: &mut Vec<u8>, k: &Pubkey)
    ensures
        final(out)@ == old(out)@ + k.bytes@,
{
    let ghost start = out@;
    let mut i: usize = 0;
    while i < 32
        invariant
            0 <= i <= 32,
            out@ == start + k.bytes@.subrange(0, i as int),
        decreases 32 - i,
    {
        out.push(k.bytes[i]);
        assert(out@ =~= start + k.bytes@.subrange(0, i + 1));
        i = i + 1;
    }
    assert(k.bytes@.subrange(0, 32) =~= k.bytes@);
}

/// Overwrites the first `src.len()` bytes of `dst` with `src`, keeping the rest.
fn write_prefix(dst: &mut Vec<u8>, src: &Vec<u8>)
    requires
        src@.len() <= old(dst)@.len(),
    ensures
        final(dst)@.len() == old(dst)@.len(),
        final(dst)@.subrange(0, src@.len() as int) == src@,
        final(dst)@.subrange(src@.len() as int, old(dst)@.len() as int) == old(dst)@.subrange(
            src@.len() as int,
            old(dst)@.len() as int,
        ),
{
    let ghost start = dst@;
    let mut i: usize = 0;
    while i < src.len()
        invariant
            0 <= i <= src@.len(),
            src@.len() <= start.len(),
            dst@.len() == start.len(),
            forall|j: int| 0 <= j < i ==> dst@[j] == src@[j],
            forall|j: int| src@.len() <= j < start.len() ==> dst@[j] == start[j],
        decreases src@.len() - i,
    {
        dst[i] = src[i];
        i = i + 1;
    }
    assert(dst@.subrange(0, src@.len() as int) =~= src@);
    assert(dst@.subrange(src@.len() as int, start.len() as int) =~= start.subrange(
        src@.len() as int,
        start.len() as int,
    ));
}

/// Reads the little-endian integer at `s[at..at + 8]`.
pub fn read_u64_le(s: &[u8], at: usize) -> (r: u64)
    requires
        at + 8 <= s@.len(),
    ensures
        r == u64_from_le(s@.subrange(at as int, at + 8)),
{
    (s[at] as u64) | ((s[at + 1] as u64) << 8u64) | ((s[at + 2] as u64) << 16u64) | ((s[at
        + 3] as u64) << 24u64) | ((s[at + 4] as u64) << 32u64) | ((s[at + 5] as u64) << 40u64)
        | ((s[at + 6] as u64) << 48u64) | ((s[at + 7] as u64) << 56u64)
}

fn read_key(s: &[u8], at: usize) -> (r: Pubkey)
    requires
        at + 32 <= s@.len(),
    ensures
        r.bytes@ == s@.subrange(at as int, at + 32),
        r == key_from(s@.subrange(at as int, at + 32)),
{
    let mut bytes = [0u8; 32];
    let n = s.len();
    let mut i: usize = 0;
    while i < 32
        invariant
            0 <= i <= 32,
            n == s@.len(),
            at + 32 <= s@.len(),
            forall|j: int| 0 <= j < i ==> bytes@[j] == s@[at + j],
        decreases 32 - i,
    {
        bytes[i] = s[at + i];
        i = i + 1;
    }
    assert(bytes@ =~= s@.subrange(at as int, at + 32));
    proof {
        lemma_key_from_array(bytes);
    }
    Pubkey { bytes }
}

impl StakingManager {
    /// The pool record's layout: flag, owner, stake asset, reward asset,
    /// total staked, epoch reward, epoch start, epoch end, epoch id.
    /// Only the first `POOL_LEN` bytes of `dst` are written.
    pub fn pack_into_slice(&self, dst: &mut Vec<u8>)
        requires
            old(dst)@.len() >= POOL_LEN,
        ensures
            final(dst)@.len() == old(dst)@.len(),
            final(dst)@.subrange(0, POOL_LEN as int) == pool_bytes(*self),
            final(dst)@.subrange(POOL_LEN as int, old(dst)@.len() as int) == old(dst)@.subrange(
                POOL_LEN as int,
                old(dst)@.len() as int,
            ),
    {
        let mut out: Vec<u8> = Vec::new();
        out.push(if self.is_initialized { 1u8 } else { 0u8 });
        push_key(&mut out, &self.owner);
        push_key(&mut out, &self.stake_token);
        push_key(&mut out, &self.reward_token);
        push_u64_le(&mut out, self.tokens_staked);
        push_u64_le(&mut out, self.current_epoch_reward);
        push_u64_le(&mut out, self.current_epoch_start_time);
        push_u64_le(&mut out, self.current_epoch_end_time);
        out.push((self.epoch_id & 0xff) as u8);
        out.push(((self.epoch_id >> 8u16) & 0xff) as u8);
        assert(out@ =~= pool_bytes(*self));
        write_prefix(dst, &out);
    }

    /// Reads a pool record from the first `POOL_LEN` bytes of `src`.
    pub fn unpack_from_slice(src: &[u8]) -> (r: Result<StakingManager, StakingError>)
        ensures
            src@.len() >= POOL_LEN ==> r == Ok::<StakingManager, StakingError>(pool_from(src@)),
            src@.len() < POOL_LEN ==> r == Err::<StakingManager, StakingError>(
                StakingError::InvalidAccountData,
            ),
    {
        if src.len() < POOL_LEN {
            return Err(StakingError::InvalidAccountData);
        }
        let epoch_id = (src[129] as u16) | ((src[130] as u16) << 8u16);
        assert(src@.subrange(129, 131)[0] == src@[129]);
        Ok(
            StakingManager {
                is_initialized: src[0] != 0,
                owner: read_key(src, 1),
                stake_token: read_key(src, 33),
                reward_token: read_key(src, 65),
                tokens_staked: read_u64_le(src, 97),
                current_epoch_reward: read_u64_le(src, 105),
                current_epoch_start_time: read_u64_le(src, 113),
                current_epoch_end_time: read_u64_le(src, 121),
                epoch_id,
            },
        )
    }
}

impl UserStakeInfo {
    /// The position record's layout: flag, owner, staked amount.
    /// Only the first `POSITION_LEN` bytes of `dst` are written.
    pub fn pack_into_slice(&self, dst: &mut Vec<u8>)
        requires
            old(dst)@.len() >= POSITION_LEN,
        ensures
            final(dst)@.len() == old(dst)@.len(),
            final(dst)@.subrange(0, POSITION_LEN as int) == position_bytes(*self),
            final(dst)@.subrange(POSITION_LEN as int, old(dst)@.len() as int) == old(
                dst,
            )@.subrange(POSITION_LEN as int, old(dst)@.len() as int),
    {
        let mut out: Vec<u8> = Vec::new();
        out.push(if self.is_initialized { 1u8 } else { 0u8 });
        push_key(&mut out, &self.user);
        push_u64_le(&mut out, self.staked_amount);
        assert(out@ =~= position_bytes(*self));
        write_prefix(dst, &out);
    }

    /// Reads a position record from the first `POSITION_LEN` bytes of `src`.
    pub fn unpack_from_slice(src: &[u8]) -> (r: Result<UserStakeInfo, StakingError>)
        ensures
            src@.len() >= POSITION_LEN ==> r == Ok::<UserStakeInfo, StakingError>(
                position_from(src@),
            ),
            src@.len() < POSITION_LEN ==> r == Err::<UserStakeInfo, StakingError>(
                StakingError::InvalidAccountData,
            ),
    {
        if src.len() < POSITION_LEN {
            return Err(StakingError::InvalidAccountData);
        }
        Ok(
            UserStakeInfo {
                is_initialized: src[0] != 0,
                user: read_key(src, 1),
                staked_amount: read_u64_le(src, 33),
            },
        )
    }
}

} // verus!
