//! Monetary values in zatoshis, bounded by the total supply.
//!
//! A signed balance may range over `-MAX_MONEY ..= MAX_MONEY`; a non-negative
//! amount over `0 ..= MAX_MONEY`. Constructors reject anything outside those
//! bounds, exactly as the wallet engine's value types do.

use vstd::prelude::*;

verus! {

/// One hundred million zatoshis make one coin.
pub const COIN: u64 = 100_000_000;

/// The maximum possible monetary value: the total supply, in zatoshis.
pub const MAX_MONEY: u64 = 21_000_000 * COIN;

/// The same bound as a signed quantity.
pub const MAX_BALANCE: i64 = 2_100_000_000_000_000;

/// Why a monetary value was rejected.
#[derive(Clone, Copy, Debug, PartialEq, Eq, Structural)]
pub enum ZcashBalanceError {
    /// The value lay below the smallest representable one.
    Underflow,
    /// The value lay above the largest representable one.
    Overflow,
}

/// A signed value delta in zatoshis, within `-MAX_MONEY ..= MAX_MONEY`.
#[derive(Clone, Copy, Debug)]
pub struct ZcashAmount {
    value: i64,
}

impl ZcashAmount {
    /// The amount in zatoshis.
    pub closed spec fn spec_value(&self) -> i64 {
        self.value
    }

    #[verifier::type_invariant]
    spec fn range_inv(&self) -> bool {
        -MAX_BALANCE <= self.value <= MAX_BALANCE
    }

    /// Accepts exactly the values in `-MAX_MONEY ..= MAX_MONEY`; reports which
    /// side of the range anything else fell on.
    pub fn from_i64(amount: i64) -> (r: Result<Self, ZcashBalanceError>)
        ensures
            -MAX_BALANCE <= amount <= MAX_BALANCE ==> (r matches Ok(a) && a.spec_value()
                == amount),
            amount < -MAX_BALANCE ==> r matches Err(ZcashBalanceError::Underflow),
            amount > MAX_BALANCE ==> r matches Err(ZcashBalanceError::Overflow),
    {
        if -MAX_BALANCE <= amount && amount <= MAX_BALANCE {
            Ok(ZcashAmount { value: amount })
        } else if amount < -MAX_BALANCE {
            Err(ZcashBalanceError::Underflow)
        } else {
            Err(ZcashBalanceError::Overflow)
        }
    }

    /// Accepts exactly the values in `0 ..= MAX_MONEY`.
    pub fn from_u64(amount: u64) -> (r: Result<Self, ZcashBalanceError>)
        ensures
            amount <= MAX_MONEY ==> (r matches Ok(a) && a.spec_value() == amount),
            amount > MAX_MONEY ==> r matches Err(ZcashBalanceError::Overflow),
    {
        if amount <= MAX_MONEY {
            Ok(ZcashAmount { value: amount as i64 })
        } else {
            Err(ZcashBalanceError::Overflow)
        }
    }

    /// The zero amount.
    pub fn zero() -> (r: Self)
        ensures
            r.spec_value() == 0,
    {
        ZcashAmount { value: 0 }
    }

    /// The amount in zatoshis; always within `-MAX_MONEY ..= MAX_MONEY`.
    pub fn value(&self) -> (r: i64)
        ensures
            r == self.spec_value(),
            -MAX_BALANCE <= r <= MAX_BALANCE,
    {
        proof {
            use_type_invariant(self);
        }
        self.value
    }
}

/// A non-negative amount in zatoshis, within `0 ..= MAX_MONEY`.
#[derive(Clone, Copy, Debug)]
pub struct ZcashNonNegativeAmount {
    value: u64,
}

impl ZcashNonNegativeAmount {
    /// The amount in zatoshis.
    pub closed spec fn spec_value(&self) -> u64 {
        self.value
    }

    #[verifier::type_invariant]
    spec fn range_inv(&self) -> bool {
        self.value <= MAX_MONEY
    }

    /// Accepts exactly the values in `0 ..= MAX_MONEY`.
    pub fn from_u64(amount: u64) -> (r: Result<Self, ZcashBalanceError>)
        ensures
            amount <= MAX_MONEY ==> (r matches Ok(a) && a.spec_value() == amount),
            amount > MAX_MONEY ==> r matches Err(ZcashBalanceError::Overflow),
    {
        if amount <= MAX_MONEY {
            Ok(ZcashNonNegativeAmount { value: amount })
        } else {
            Err(ZcashBalanceError::Overflow)
        }
    }

    /// Accepts exactly the values in `0 ..= MAX_MONEY`; a negative value is an
    /// underflow, one beyond the supply an overflow.
    pub fn from_nonnegative_i64(amount: i64) -> (r: Result<Self, ZcashBalanceError>)
        ensures
            0 <= amount <= MAX_MONEY ==> (r matches Ok(a) && a.spec_value() == amount),
            amount < 0 ==> r matches Err(ZcashBalanceError::Underflow),
            amount > MAX_BALANCE ==> r matches Err(ZcashBalanceError::Overflow),
    {
        if amount < 0 {
            Err(ZcashBalanceError::Underflow)
        } else if amount as u64 <= MAX_MONEY {
            Ok(ZcashNonNegativeAmount { value: amount as u64 })
        } else {
            Err(ZcashBalanceError::Overflow)
        }
    }

    /// The zero amount.
    pub fn zero() -> (r: Self)
        ensures
            r.spec_value() == 0,
    {
        ZcashNonNegativeAmount { value: 0 }
    }

    /// The amount in zatoshis; never more than `MAX_MONEY`.
    pub fn value(&self) -> (r: u64)
        ensures
            r == self.spec_value(),
            r <= MAX_MONEY,
    {
        proof {
            use_type_invariant(self);
        }
        self.value
    }
}

} // verus!
