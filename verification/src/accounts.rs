use vstd::prelude::*;
use vstd::bytes::spec_u64_from_le_bytes;
use vstd::bytes::u64_from_le_bytes;
use vstd::slice::slice_subrange;
use crate::errors::MinerError;

verus! {

/// A reward bus: one of the on-chain partitions mining rewards are drawn
/// from. Its account data holds, after an 8-byte discriminator, the bus id
/// and its distributable rewards, little-endian.
#[derive(Clone, Copy, Debug)]
pub struct BusState {
    pub id: u64,
    pub rewards: u64,
}

/// The treasury account: after an 8-byte discriminator, the admin address,
/// the current difficulty target, then the last reset time, the reward rate
/// and the total claimed rewards, little-endian.
#[derive(Debug)]
pub struct TreasuryState {
    pub admin: Vec<u8>,
    pub difficulty: Vec<u8>,
    pub last_reset_at: u64,
    pub reward_rate: u64,
    pub total_claimed_rewards: u64,
}

/// Copies `data[lo..hi]` into a fresh buffer.
fn copy_range(data: &[u8], lo: usize, hi: usize) -> (r: Vec<u8>)
    requires
        lo <= hi <= data@.len(),
    ensures
        r@ == data@.subrange(lo as int, hi as int),
{
    let part = slice_subrange(data, lo, hi);
    vstd::slice::slice_to_vec(part)
}

/// Reads the little-endian word at `data[lo..lo + 8]`.
fn read_u64_le(data: &[u8], lo: usize) -> (r: u64)
    requires
        lo + 8 <= data@.len(),
    ensures
        r == spec_u64_from_le_bytes(data@.subrange(lo as int, lo as int + 8)),
{
    let n = data.len();
    proof {
        assert(lo + 8 <= n);
    }
    let part = slice_subrange(data, lo, lo + 8);
    u64_from_le_bytes(part)
}

/// Parses a bus account: exactly the fields at their fixed offsets. Data too
/// short for the layout is malformed and rejected.
pub fn parse_bus(data: &[u8]) -> (r: Result<BusState, MinerError>)
    ensures
        data@.len() >= 24 <==> r is Ok,
        r is Err ==> r->Err_0 == MinerError::InvalidConfig,
        r is Ok ==> (r->Ok_0).id == spec_u64_from_le_bytes(data@.subrange(8, 16)),
        r is Ok ==> (r->Ok_0).rewards == spec_u64_from_le_bytes(data@.subrange(16, 24)),
{
    if data.len() < 24 {
        return Err(MinerError::InvalidConfig);
    }
    let id = read_u64_le(data, 8);
    let rewards = read_u64_le(data, 16);
    Ok(BusState { id, rewards })
}

/// Parses the treasury account: exactly the fields at their fixed offsets,
/// the difficulty target as its full 32-byte width. Data too short for the
/// layout is malformed and rejected.
pub fn parse_treasury(data: &[u8]) -> (r: Result<TreasuryState, MinerError>)
    ensures
        data@.len() >= 96 <==> r is Ok,
        r is Err ==> r->Err_0 == MinerError::InvalidConfig,
        r is Ok ==> {
            let t = r->Ok_0;
            &&& t.admin@ == data@.subrange(8, 40)
            &&& t.difficulty@ == data@.subrange(40, 72)
            &&& t.difficulty@.len() == 32
            &&& t.last_reset_at == spec_u64_from_le_bytes(data@.subrange(72, 80))
            &&& t.reward_rate == spec_u64_from_le_bytes(data@.subrange(80, 88))
            &&& t.total_claimed_rewards == spec_u64_from_le_bytes(data@.subrange(88, 96))
        },
{
    if data.len() < 96 {
        return Err(MinerError::InvalidConfig);
    }
    let admin = copy_range(data, 8, 40);
    let difficulty = copy_range(data, 40, 72);
    let last_reset_at = read_u64_le(data, 72);
    let reward_rate = read_u64_le(data, 80);
    let total_claimed_rewards = read_u64_le(data, 88);
    Ok(TreasuryState { admin, difficulty, last_reset_at, reward_rate, total_claimed_rewards })
}

} // verus!
