use vstd::prelude::*;

verus! {

/// 2^128, the weight of the high half of the wide integers below.
pub open spec fn pow2_128() -> nat {
    0x1_0000_0000_0000_0000_0000_0000_0000_0000nat
}

/// A 20-byte account identifier, split into its first 4 bytes (`high`)
/// and its last 16 bytes (`low`), both read big-endian.
#[derive(Clone, Copy, Debug, PartialEq, Eq, Structural, Hash)]
pub struct Address {
    pub high: u32,
    pub low: u128,
}

impl Address {
    /// The account number that the 20 bytes spell.
    pub open spec fn value(self) -> nat {
        self.high as nat * pow2_128() + self.low as nat
    }

    pub open spec fn spec_is_zero(self) -> bool {
        self.high == 0 && self.low == 0
    }

    /// The zero (null) address.
    pub fn zero() -> (r: Address)
        ensures
            r.spec_is_zero(),
            r.value() == 0,
    {
        Address { high: 0, low: 0 }
    }

    pub fn from_parts(high: u32, low: u128) -> (r: Address)
        ensures
            r.high == high,
            r.low == low,
            r.value() == high as nat * pow2_128() + low as nat,
    {
        Address { high, low }
    }

    /// An address whose number fits in 128 bits.
    pub fn from_u128(low: u128) -> (r: Address)
        ensures
            r.value() == low as nat,
            r.high == 0,
            r.low == low,
    {
        Address { high: 0, low }
    }

    pub fn is_zero(&self) -> (r: bool)
        ensures
            r == self.spec_is_zero(),
            r == (self.value() == 0),
    {
        self.high == 0 && self.low == 0
    }
}

/// A 256-bit unsigned integer, as two 128-bit halves.
#[derive(Clone, Copy, Debug, PartialEq, Eq, Structural, Hash)]
pub struct U256 {
    pub high: u128,
    pub low: u128,
}

impl View for U256 {
    type V = nat;

    open spec fn view(&self) -> nat {
        self.high as nat * pow2_128() + self.low as nat
    }
}

impl U256 {
    pub fn from_parts(high: u128, low: u128) -> (r: U256)
        ensures
            r.high == high,
            r.low == low,
            r@ == high as nat * pow2_128() + low as nat,
    {
        U256 { high, low }
    }

    pub fn from_u128(low: u128) -> (r: U256)
        ensures
            r@ == low as nat,
    {
        U256 { high: 0, low }
    }

    /// The value as a position `i` counted from one, `i - 1`, when it lies
    /// in `1..=n`.
    pub fn to_index(&self, n: usize) -> (r: Option<usize>)
        ensures
            r matches Some(i) ==> i as nat + 1 == self@ && i < n,
            r is None ==> !(1 <= self@ <= n),
    {
        if self.high == 0 && 1 <= self.low && self.low <= n as u128 {
            Some((self.low - 1) as usize)
        } else {
            None
        }
    }
}

} // verus!
