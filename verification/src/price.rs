//! A currency-tagged amount. Amounts are integers counted in
//! billionths (nano-units) of the currency unit, so the fixed rational
//! exchange rates convert without floating point. Equality and order
//! compare the canonical euro value of both operands; amounts in
//! different currencies are never compared directly.
use vstd::prelude::*;

use crate::currency::Currency;
use crate::currency::EUR_TO_SEK_DEN;
use crate::currency::EUR_TO_SEK_NUM;
use crate::currency::SEK_TO_EUR_DEN;
use crate::currency::SEK_TO_EUR_NUM;

verus! {

/// Amount granularity: one billionth of a currency unit.
pub const NANOS_PER_UNIT: u64 = 1000000000;

/// Bound on stored price amounts (one hundred million currency units),
/// chosen so that conversions, differences and canonical comparisons
/// all fit their machine types.
pub const MAX_PRICE_AMOUNT: u64 = 100000000000000000;

/// Bound on amounts handed to a single conversion.
pub const MAX_CONVERT_INPUT: u64 = 1600000000000000000;

#[derive(Debug, Clone, Copy)]
pub struct Price {
    /// Nano-units of `currency`.
    pub amount: u64,
    pub currency: Currency,
}

/// The converted amount, truncated to nano-units.
pub open spec fn convert_amount_spec(a: int, from: Currency, to: Currency) -> int {
    if from == to {
        a
    } else if from == Currency::EUR {
        a * EUR_TO_SEK_NUM / EUR_TO_SEK_DEN as int
    } else {
        a * SEK_TO_EUR_NUM / SEK_TO_EUR_DEN as int
    }
}

/// The canonical value of a price: its euro value scaled by
/// `SEK_TO_EUR_DEN`, kept as an exact integer.
pub open spec fn canonical_value_spec(p: Price) -> int {
    if p.currency == Currency::EUR {
        p.amount * SEK_TO_EUR_DEN
    } else {
        p.amount * SEK_TO_EUR_NUM
    }
}

/// Whole currency units of an amount in nano-units, truncated.
pub open spec fn whole_units_spec(a: int) -> int {
    a / NANOS_PER_UNIT as int
}

impl Price {
    pub open spec fn wf(&self) -> bool {
        self.amount <= MAX_PRICE_AMOUNT
    }

    pub fn new(amount: u64, currency: Currency) -> (r: Price)
        requires
            amount <= MAX_PRICE_AMOUNT,
        ensures
            r.amount == amount,
            r.currency == currency,
            r.wf(),
    {
        Price { amount, currency }
    }

    /// The same value expressed in `target`, truncated to nano-units.
    pub fn convert_to(&self, target: Currency) -> (r: Price)
        requires
            self.amount <= MAX_CONVERT_INPUT,
        ensures
            r.amount == convert_amount_spec(self.amount as int, self.currency, target),
            r.currency == target,
    {
        if self.currency == target {
            Price { amount: self.amount, currency: target }
        } else if self.currency == Currency::EUR {
            let v: u128 = (self.amount as u128) * (EUR_TO_SEK_NUM as u128) / (
            EUR_TO_SEK_DEN as u128);
            proof {
                assert((self.amount as int) * (EUR_TO_SEK_NUM as int) <= (MAX_CONVERT_INPUT as int)
                    * (EUR_TO_SEK_NUM as int)) by (nonlinear_arith)
                    requires
                        self.amount <= MAX_CONVERT_INPUT,
                ;
            }
            Price { amount: v as u64, currency: target }
        } else {
            let v: u128 = (self.amount as u128) * (SEK_TO_EUR_NUM as u128) / (
            SEK_TO_EUR_DEN as u128);
            proof {
                assert((self.amount as int) * (SEK_TO_EUR_NUM as int) <= (MAX_CONVERT_INPUT as int)
                    * (SEK_TO_EUR_NUM as int)) by (nonlinear_arith)
                    requires
                        self.amount <= MAX_CONVERT_INPUT,
                ;
            }
            Price { amount: v as u64, currency: target }
        }
    }

    /// The whole currency units of this price, truncated.
    pub fn whole_units(&self) -> (r: u64)
        ensures
            r == whole_units_spec(self.amount as int),
    {
        self.amount / NANOS_PER_UNIT
    }
}

impl PartialEq for Price {
    fn eq(&self, other: &Price) -> (r: bool) {
        canonical_value_exec(self) == canonical_value_exec(other)
    }
}

impl vstd::std_specs::cmp::PartialEqSpecImpl for Price {
    open spec fn obeys_eq_spec() -> bool {
        true
    }

    open spec fn eq_spec(&self, other: &Price) -> bool {
        canonical_value_spec(*self) == canonical_value_spec(*other)
    }
}

impl PartialOrd for Price {
    fn partial_cmp(&self, other: &Price) -> (r: Option<core::cmp::Ordering>) {
        let a = canonical_value_exec(self);
        let b = canonical_value_exec(other);
        if a < b {
            Some(core::cmp::Ordering::Less)
        } else if a == b {
            Some(core::cmp::Ordering::Equal)
        } else {
            Some(core::cmp::Ordering::Greater)
        }
    }
}

impl vstd::std_specs::cmp::PartialOrdSpecImpl for Price {
    open spec fn obeys_partial_cmp_spec() -> bool {
        true
    }

    open spec fn partial_cmp_spec(&self, other: &Price) -> Option<core::cmp::Ordering> {
        if canonical_value_spec(*self) < canonical_value_spec(*other) {
            Some(core::cmp::Ordering::Less)
        } else if canonical_value_spec(*self) == canonical_value_spec(*other) {
            Some(core::cmp::Ordering::Equal)
        } else {
            Some(core::cmp::Ordering::Greater)
        }
    }
}

fn canonical_value_exec(p: &Price) -> (r: u128)
    ensures
        r == canonical_value_spec(*p),
{
    match p.currency {
        Currency::EUR => {
            let v: u128 = (p.amount as u128) * (SEK_TO_EUR_DEN as u128);
            proof {
                assert((p.amount as int) * (SEK_TO_EUR_DEN as int) <= (u64::MAX as int) * (
                SEK_TO_EUR_DEN as int)) by (nonlinear_arith)
                    requires
                        p.amount <= u64::MAX,
                ;
            }
            v
        },
        Currency::SEK => {
            let v: u128 = (p.amount as u128) * (SEK_TO_EUR_NUM as u128);
            proof {
                assert((p.amount as int) * (SEK_TO_EUR_NUM as int) <= (u64::MAX as int) * (
                SEK_TO_EUR_NUM as int)) by (nonlinear_arith)
                    requires
                        p.amount <= u64::MAX,
                ;
            }
            v
        },
    }
}

/// Converting a price to the other currency and back lands within a
/// relative tolerance of three hundred-thousandths plus a constant of
/// thirteen nano-units; truncation is the only loss.
pub proof fn lemma_convert_round_trip(a: int, c1: Currency, c2: Currency)
    requires
        0 <= a <= MAX_PRICE_AMOUNT,
    ensures
        convert_amount_spec(convert_amount_spec(a, c1, c2), c2, c1) - a <= a / 300000 + 13,
        a - convert_amount_spec(convert_amount_spec(a, c1, c2), c2, c1) <= a / 300000 + 13,
{
    if c1 == c2 {
    } else if c1 == Currency::EUR {
        lemma_round_trip_dirs(a, 110304, 10000, 90658791, 1000000000);
    } else {
        lemma_round_trip_dirs(a, 90658791, 1000000000, 110304, 10000);
    }
}

/// The two-step truncated conversion `a * n1/d1`, then `* n2/d2`,
/// stays within the stated tolerance of `a` for the two rate pairs the
/// library uses.
proof fn lemma_round_trip_dirs(a: int, n1: int, d1: int, n2: int, d2: int)
    requires
        0 <= a <= MAX_PRICE_AMOUNT,
        (n1 == 110304 && d1 == 10000 && n2 == 90658791 && d2 == 1000000000) || (n1 == 90658791
            && d1 == 1000000000 && n2 == 110304 && d2 == 10000),
    ensures
        (a * n1 / d1) * n2 / d2 - a <= a / 300000 + 13,
        a - (a * n1 / d1) * n2 / d2 <= a / 300000 + 13,
{
    let q1 = a * n1 / d1;
    let q2 = q1 * n2 / d2;
    vstd::arithmetic::div_mod::lemma_fundamental_div_mod(a * n1, d1);
    vstd::arithmetic::mul::lemma_mul_nonnegative(a, n1);
    vstd::arithmetic::div_mod::lemma_div_pos_is_pos(a * n1, d1);
    vstd::arithmetic::div_mod::lemma_fundamental_div_mod(q1 * n2, d2);
    vstd::arithmetic::mul::lemma_mul_nonnegative(q1, n2);
    vstd::arithmetic::div_mod::lemma_div_pos_is_pos(q1 * n2, d2);
    vstd::arithmetic::div_mod::lemma_fundamental_div_mod(a, 300000);
    assert(q2 - a <= a / 300000 + 13 && a - q2 <= a / 300000 + 13) by (nonlinear_arith)
        requires
            0 <= a <= MAX_PRICE_AMOUNT,
            (n1 == 110304 && d1 == 10000 && n2 == 90658791 && d2 == 1000000000) || (n1 == 90658791
                && d1 == 1000000000 && n2 == 110304 && d2 == 10000),
            q1 == a * n1 / d1,
            q2 == q1 * n2 / d2,
            a * n1 == d1 * q1 + (a * n1) % d1,
            0 <= (a * n1) % d1 < d1,
            0 <= q1,
            q1 * n2 == d2 * q2 + (q1 * n2) % d2,
            0 <= (q1 * n2) % d2 < d2,
            0 <= q2,
            a == 300000 * (a / 300000) + a % 300000,
            0 <= a % 300000 < 300000,
    ;
}

} // verus!
