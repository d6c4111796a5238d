use vstd::prelude::*;

verus! {

/// A fixed 20-byte (160-bit) account identifier: the address of a pool
/// contract or of a token. The 160 bits are held as one 128-bit word and
/// one 32-bit word. Equality is exact equality of the bits; the store
/// derives no meaning from them.
#[derive(Clone, Copy, Debug, PartialEq, Eq, Hash, Structural)]
pub struct Address {
    pub hi: u128,
    pub lo: u32,
}

impl View for Address {
    type V = (u128, u32);

    open spec fn view(&self) -> (u128, u32) {
        (self.hi, self.lo)
    }
}

impl Address {
    /// Builds the address whose high 128 bits are `hi` and low 32 bits are `lo`.
    pub fn new(hi: u128, lo: u32) -> (r: Address)
        ensures
            r@ == (hi, lo),
    {
        Address { hi, lo }
    }

    /// The all-zero address.
    pub fn zero() -> (r: Address)
        ensures
            r@ == (0u128, 0u32),
    {
        Address { hi: 0, lo: 0 }
    }
}

} // verus!
