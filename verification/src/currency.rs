//! The two currencies prices arrive in. Conversion rates are fixed
//! rationals; every cross-currency comparison goes through a single
//! canonical value, never through the raw amounts.
use vstd::prelude::*;

verus! {

#[derive(Debug, PartialEq, Eq, Structural, Clone, Copy)]
pub enum Currency {
    EUR,
    SEK,
}

/// One euro is `EUR_TO_SEK_NUM / EUR_TO_SEK_DEN` kronor.
pub const EUR_TO_SEK_NUM: u64 = 110304;

pub const EUR_TO_SEK_DEN: u64 = 10000;

/// One krona is `SEK_TO_EUR_NUM / SEK_TO_EUR_DEN` euros.
pub const SEK_TO_EUR_NUM: u64 = 90658791;

pub const SEK_TO_EUR_DEN: u64 = 1000000000;

} // verus!
