use cosmwasm_std::{CheckedMultiplyFractionError, StdError};
use vstd::prelude::*;

verus! {

/// The denominator of the fixed-point fractions used for shares: eighteen decimal places.
pub const DECIMAL_FRACTIONAL: u128 = 1_000_000_000_000_000_000;

/// An amount of one denomination of funds.
#[derive(Clone, Debug, PartialEq, Eq)]
pub struct Coin {
    pub denom: String,
    pub amount: u128,
}

/// The mathematical model of a `Coin`.
pub struct CoinView {
    pub denom: Seq<char>,
    pub amount: u128,
}

impl View for Coin {
    type V = CoinView;

    open spec fn view(&self) -> CoinView {
        CoinView { denom: self.denom@, amount: self.amount }
    }
}

/// The models of a list of coins.
pub open spec fn coins_view(coins: Seq<Coin>) -> Seq<CoinView> {
    coins.map_values(|c: Coin| c@)
}

/// A non-negative fixed-point fraction: `atomics / DECIMAL_FRACTIONAL`.
#[derive(Clone, Copy, Debug, PartialEq, Eq)]
pub struct Decimal {
    pub atomics: u128,
}

/// The share `part` of `amount`, rounded down.
pub open spec fn part_of(amount: u128, part: Decimal) -> int {
    (amount as int * part.atomics as int) / (DECIMAL_FRACTIONAL as int)
}

impl Decimal {
    /// The fraction `atomics / DECIMAL_FRACTIONAL`.
    pub fn raw(atomics: u128) -> (r: Decimal)
        ensures
            r.atomics == atomics,
    {
        Decimal { atomics }
    }

    /// The fraction `x / 100`.
    pub fn percent(x: u64) -> (r: Decimal)
        ensures
            r.atomics == x * 10_000_000_000_000_000,
    {
        Decimal { atomics: x as u128 * 10_000_000_000_000_000 }
    }
}

impl Coin {
    /// A copy of this coin.
    pub fn duplicate(&self) -> (r: Coin)
        ensures
            r == *self,
    {
        Coin { denom: self.denom.clone(), amount: self.amount }
    }
}

/// Relies on `cosmwasm_std::Uint128::checked_mul_floor` with a
/// `cosmwasm_std::Decimal` of the same atomics: the product rounded down, or an
/// error when it does not fit in 128 bits.
#[verifier::external_body]
pub(crate) fn checked_mul_floor(amount: u128, part: Decimal) -> (r: Result<u128, StdError>)
    ensures
        r is Ok <==> part_of(amount, part) <= u128::MAX,
        r is Ok ==> r->Ok_0 == part_of(amount, part),
{
    cosmwasm_std::Uint128::new(amount)
        .checked_mul_floor(cosmwasm_std::Decimal::raw(part.atomics))
        .map(|v| v.u128())
        .map_err(|e| match e {
            CheckedMultiplyFractionError::ConversionOverflow(c) => StdError::from(c),
            CheckedMultiplyFractionError::Overflow(o) => StdError::from(o),
            CheckedMultiplyFractionError::DivideByZero(d) => StdError::from(d),
        })
}

} // verus!
