use vstd::prelude::*;

use crate::address::Address;
use crate::uint256::{U256, u256_bound, u256_checked_add, u256_checked_div, u256_checked_mul};

verus! {

/// Snapshot of a constant-product pool: two token reserves whose product
/// the on-chain contract keeps approximately constant. The snapshot is a
/// read-only copy of chain state, not an enforcement of that invariant.
#[derive(Clone, Copy, Debug, PartialEq, Eq, Structural)]
pub struct PoolStateV2 {
    pub address: Address,
    pub token0: Address,
    pub token1: Address,
    pub reserve0: U256,
    pub reserve1: U256,
}

/// Snapshot of a concentrated-liquidity pool: the current price as
/// sqrt(price) in Q96 fixed point, the liquidity active at the current
/// tick, and the tick index (base 1.0001). The fields are stored and
/// reported independently; no consistency between tick and price is
/// checked.
#[derive(Clone, Debug, PartialEq, Eq, Structural)]
pub struct PoolStateV3 {
    pub address: Address,
    pub token0: Address,
    pub token1: Address,
    pub sqrt_price_x96: U256,
    pub liquidity: u128,
    pub tick: i32,
}

/// The pair (reserve in, reserve out) a swap draws on: token0 pays for
/// token1 when `zero_for_one` holds, and the other way round otherwise.
pub open spec fn swap_reserves(p: PoolStateV2, zero_for_one: bool) -> (nat, nat) {
    if zero_for_one {
        (p.reserve0@, p.reserve1@)
    } else {
        (p.reserve1@, p.reserve0@)
    }
}

/// Output of a constant-product swap with a 0.3% fee:
/// `(997 * amount_in * reserve_out) / (1000 * reserve_in + 997 * amount_in)`,
/// rounded down, and `0` when the denominator is zero.
pub open spec fn swap_output(reserve_in: nat, reserve_out: nat, amount_in: nat) -> nat {
    let with_fee = amount_in * 997;
    let denominator = reserve_in * 1000 + with_fee;
    if denominator == 0 {
        0
    } else {
        (with_fee * reserve_out) / denominator
    }
}

/// Whether every intermediate product of the swap formula fits in 256
/// bits, so that the computation is exact.
pub open spec fn swap_fits(p: PoolStateV2, amount_in: nat, zero_for_one: bool) -> bool {
    let reserve_in = swap_reserves(p, zero_for_one).0;
    let reserve_out = swap_reserves(p, zero_for_one).1;
    amount_in * 997 * reserve_out < u256_bound()
        && reserve_in * 1000 + amount_in * 997 < u256_bound()
}

impl PoolStateV2 {
    /// Output amount of a hypothetical swap of `amount_in` against the
    /// constant-product curve with a fixed 0.3% fee; the stored state is
    /// not touched. The quote is rounded down, and zero when both the
    /// paying reserve and the input are zero.
    pub fn simulate_swap(&self, amount_in: U256, zero_for_one: bool) -> (r: U256)
        requires
            swap_fits(*self, amount_in@, zero_for_one),
        ensures
            r@ == swap_output(
                swap_reserves(*self, zero_for_one).0,
                swap_reserves(*self, zero_for_one).1,
                amount_in@,
            ),
    {
        let (reserve_in, reserve_out) = if zero_for_one {
            (self.reserve0, self.reserve1)
        } else {
            (self.reserve1, self.reserve0)
        };
        let fee_multiplier = U256::from_u64(997);
        let fee_divisor = U256::from_u64(1000);

        let amount_in_with_fee = u256_checked_mul(&amount_in, &fee_multiplier).unwrap();
        proof {
            assert(amount_in_with_fee@ * reserve_out@ == amount_in@ * 997 * reserve_out@)
                by (nonlinear_arith)
            requires
                amount_in_with_fee@ == amount_in@ * 997,
            ;
        }
        let numerator = u256_checked_mul(&amount_in_with_fee, &reserve_out).unwrap();
        let scaled_reserve_in = u256_checked_mul(&reserve_in, &fee_divisor).unwrap();
        let denominator = u256_checked_add(&scaled_reserve_in, &amount_in_with_fee).unwrap();

        if denominator.is_zero() {
            U256::from_u64(0)
        } else {
            u256_checked_div(&numerator, &denominator).unwrap()
        }
    }
}

} // verus!
