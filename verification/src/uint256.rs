use vstd::prelude::*;

verus! {

/// An unsigned 256-bit integer, used for token reserves, fixed-point
/// prices and swap amounts. The value is held as four 64-bit limbs,
/// least significant first, the layout on-chain quantities use.
#[derive(Clone, Copy, Debug, PartialEq, Eq, Hash, Structural)]
pub struct U256 {
    pub limb0: u64,
    pub limb1: u64,
    pub limb2: u64,
    pub limb3: u64,
}

/// `2^256`, the first value the type cannot hold.
pub open spec fn u256_bound() -> int {
    0x1_0000_0000_0000_0000_0000_0000_0000_0000_0000_0000_0000_0000_0000_0000_0000_0000int
}

impl View for U256 {
    type V = nat;

    open spec fn view(&self) -> nat {
        (self.limb0
            + self.limb1 * 0x1_0000_0000_0000_0000int
            + self.limb2 * 0x1_0000_0000_0000_0000_0000_0000_0000_0000int
            + self.limb3 * 0x1_0000_0000_0000_0000_0000_0000_0000_0000_0000_0000_0000_0000int) as nat
    }
}

impl U256 {
    /// Builds the 256-bit value equal to `x`.
    pub fn from_u64(x: u64) -> (r: U256)
        ensures
            r@ == x,
    {
        U256 { limb0: x, limb1: 0, limb2: 0, limb3: 0 }
    }

    /// Builds the 256-bit value equal to `x`.
    pub fn from_u128(x: u128) -> (r: U256)
        ensures
            r@ == x,
    {
        let low: u64 = (x % 0x1_0000_0000_0000_0000) as u64;
        let high: u64 = (x / 0x1_0000_0000_0000_0000) as u64;
        proof {
            vstd::arithmetic::div_mod::lemma_fundamental_div_mod(
                x as int,
                0x1_0000_0000_0000_0000,
            );
        }
        U256 { limb0: low, limb1: high, limb2: 0, limb3: 0 }
    }

    /// The value as a `u128`, when it fits.
    pub fn to_u128(&self) -> (r: Option<u128>)
        ensures
            match r {
                Some(v) => v == self@,
                None => self@ >= 0x1_0000_0000_0000_0000_0000_0000_0000_0000int,
            },
    {
        if self.limb2 == 0 && self.limb3 == 0 {
            Some(self.limb0 as u128 + (self.limb1 as u128) * 0x1_0000_0000_0000_0000)
        } else {
            None
        }
    }

    /// Whether the value is zero.
    pub fn is_zero(&self) -> (r: bool)
        ensures
            r == (self@ == 0),
    {
        self.limb0 == 0 && self.limb1 == 0 && self.limb2 == 0 && self.limb3 == 0
    }
}

/// Relies on `alloy::primitives::U256::checked_mul` (ruint's
/// `Uint::checked_mul`): the exact 256-bit product, or `None` when the
/// product does not fit in 256 bits.
#[verifier::external_body]
pub(crate) fn u256_checked_mul(a: &U256, b: &U256) -> (r: Option<U256>)
    ensures
        match r {
            Some(c) => c@ == a@ * b@ && a@ * b@ < u256_bound(),
            None => a@ * b@ >= u256_bound(),
        },
{
    let x = alloy::primitives::U256::from_limbs([a.limb0, a.limb1, a.limb2, a.limb3]);
    let y = alloy::primitives::U256::from_limbs([b.limb0, b.limb1, b.limb2, b.limb3]);
    match x.checked_mul(y) {
        Some(c) => {
            let l = c.into_limbs();
            Some(U256 { limb0: l[0], limb1: l[1], limb2: l[2], limb3: l[3] })
        }
        None => None,
    }
}

/// Relies on `alloy::primitives::U256::checked_add` (ruint's
/// `Uint::checked_add`): the exact 256-bit sum, or `None` when the sum
/// does not fit in 256 bits.
#[verifier::external_body]
pub(crate) fn u256_checked_add(a: &U256, b: &U256) -> (r: Option<U256>)
    ensures
        match r {
            Some(c) => c@ == a@ + b@ && a@ + b@ < u256_bound(),
            None => a@ + b@ >= u256_bound(),
        },
{
    let x = alloy::primitives::U256::from_limbs([a.limb0, a.limb1, a.limb2, a.limb3]);
    let y = alloy::primitives::U256::from_limbs([b.limb0, b.limb1, b.limb2, b.limb3]);
    match x.checked_add(y) {
        Some(c) => {
            let l = c.into_limbs();
            Some(U256 { limb0: l[0], limb1: l[1], limb2: l[2], limb3: l[3] })
        }
        None => None,
    }
}

/// Relies on `alloy::primitives::U256::checked_div` (ruint's
/// `Uint::checked_div`): the quotient rounded towards zero, or `None`
/// exactly when the divisor is zero.
#[verifier::external_body]
pub(crate) fn u256_checked_div(a: &U256, b: &U256) -> (r: Option<U256>)
    ensures
        match r {
            Some(c) => c@ == a@ / b@ && b@ != 0,
            None => b@ == 0,
        },
{
    let x = alloy::primitives::U256::from_limbs([a.limb0, a.limb1, a.limb2, a.limb3]);
    let y = alloy::primitives::U256::from_limbs([b.limb0, b.limb1, b.limb2, b.limb3]);
    match x.checked_div(y) {
        Some(c) => {
            let l = c.into_limbs();
            Some(U256 { limb0: l[0], limb1: l[1], limb2: l[2], limb3: l[3] })
        }
        None => None,
    }
}

} // verus!
