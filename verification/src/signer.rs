//! The seeds by which a pool signs for transfers out of its own balance.

use vstd::prelude::*;
use crate::accounts::StakingPool;

verus! {

/// The text `staking_pool`, first seed of every pool's derived address.
pub const POOL_SEED: [u8; 12] = [115, 116, 97, 107, 105, 110, 103, 95, 112, 111, 111, 108];

/// Seeds of a pool's derived address, which let the program sign on the
/// pool's behalf: the fixed text, the pool id and the bump seed.
#[derive(Clone, Copy, Debug, PartialEq, Eq)]
pub struct SignerSeeds {
    pub seed: [u8; 12],
    pub pool_id: [u8; 8],
    pub bump: [u8; 1],
}

/// The number that eight bytes spell, least significant byte first.
pub open spec fn le_value(bytes: Seq<u8>) -> int
    recommends
        bytes.len() == 8,
{
    bytes[0] + bytes[1] * 0x100 + bytes[2] * 0x1_0000 + bytes[3] * 0x100_0000 + bytes[4]
        * 0x1_0000_0000 + bytes[5] * 0x100_0000_0000 + bytes[6] * 0x1_0000_0000_0000 + bytes[7]
        * 0x100_0000_0000_0000
}

/// The eight bytes of `value`, least significant first.
pub fn le_bytes(value: u64) -> (bytes: [u8; 8])
    ensures
        le_value(bytes@) == value,
{
    let b0: u8 = (value % 256) as u8;
    let v1: u64 = value / 256;
    let b1: u8 = (v1 % 256) as u8;
    let v2: u64 = v1 / 256;
    let b2: u8 = (v2 % 256) as u8;
    let v3: u64 = v2 / 256;
    let b3: u8 = (v3 % 256) as u8;
    let v4: u64 = v3 / 256;
    let b4: u8 = (v4 % 256) as u8;
    let v5: u64 = v4 / 256;
    let b5: u8 = (v5 % 256) as u8;
    let v6: u64 = v5 / 256;
    let b6: u8 = (v6 % 256) as u8;
    let v7: u64 = v6 / 256;
    let b7: u8 = (v7 % 256) as u8;
    [b0, b1, b2, b3, b4, b5, b6, b7]
}

/// The signer seeds of `pool`.
pub fn pool_signer_seeds(pool: &StakingPool) -> (seeds: SignerSeeds)
    ensures
        seeds.seed == POOL_SEED,
        le_value(seeds.pool_id@) == pool.pool_id,
        seeds.bump@ == seq![pool.bump],
{
    SignerSeeds { seed: POOL_SEED, pool_id: le_bytes(pool.pool_id), bump: [pool.bump] }
}

} // verus!
