//! Unsigned integer types.

use vstd::prelude::*;

use crate::internal::Sealed;

verus! {

/// Generic trait for the built-in Rust unsigned integer types (e.g. `u8`, `u32`, ...).
///
/// The trait is sealed: it is implemented for `u8`, `u16`, `u32` and `u64`,
/// and for nothing else.
pub trait Uint: Sealed + Sized + Copy + PartialEq + Eq + PartialOrd + Ord {
    /// The integer value of `0`.
    const ZERO: Self;

    /// The maximum value of the integer type.
    const MAX: Self;

    /// The number that a value of the type stands for.
    spec fn as_nat(self) -> nat;

    /// `ZERO` stands for 0, and no value of the type stands for more than
    /// `MAX` does.
    proof fn lemma_bounds(value: Self)
        ensures
            Self::ZERO.as_nat() == 0,
            value.as_nat() <= Self::MAX.as_nat(),
    ;
}

impl Sealed for u8 {

}

impl Uint for u8 {
    const ZERO: Self = 0;

    const MAX: Self = u8::MAX;

    open spec fn as_nat(self) -> nat {
        self as nat
    }

    proof fn lemma_bounds(value: Self) {
        assert(<u8 as Uint>::ZERO == 0);
        assert(<u8 as Uint>::MAX == 0xFF);
    }
}

impl Sealed for u16 {

}

impl Uint for u16 {
    const ZERO: Self = 0;

    const MAX: Self = u16::MAX;

    open spec fn as_nat(self) -> nat {
        self as nat
    }

    proof fn lemma_bounds(value: Self) {
        assert(<u16 as Uint>::ZERO == 0);
        assert(<u16 as Uint>::MAX == 0xFFFF);
    }
}

impl Sealed for u32 {

}

impl Uint for u32 {
    const ZERO: Self = 0;

    const MAX: Self = u32::MAX;

    open spec fn as_nat(self) -> nat {
        self as nat
    }

    proof fn lemma_bounds(value: Self) {
        assert(<u32 as Uint>::ZERO == 0);
        assert(<u32 as Uint>::MAX == 0xFFFF_FFFF);
    }
}

impl Sealed for u64 {

}

impl Uint for u64 {
    const ZERO: Self = 0;

    const MAX: Self = u64::MAX;

    open spec fn as_nat(self) -> nat {
        self as nat
    }

    proof fn lemma_bounds(value: Self) {
        assert(<u64 as Uint>::ZERO == 0);
        assert(<u64 as Uint>::MAX == 0xFFFF_FFFF_FFFF_FFFF);
    }
}

} // verus!
