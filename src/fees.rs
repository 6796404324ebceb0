//! The fee schedule: the weight-to-fee polynomial and the per-second rates of
//! the assets that pay for cross-chain execution, all in integer arithmetic.
use vstd::prelude::*;
use vstd::arithmetic::div_mod::{
    lemma_div_is_ordered, lemma_fundamental_div_mod, lemma_hoist_over_denominator, lemma_mod_pos_bound,
};

verus! {

/// An amount of currency.
pub type Balance = u128;

pub const IMBU: Balance = 1_000_000_000_000;
pub const DOLLARS: Balance = IMBU;
pub const CENTS: Balance = DOLLARS / 100;
pub const MILLI_IMBU: Balance = CENTS / 10;
pub const MICRO_IMBU: Balance = MILLI_IMBU / 1000;
pub const EXISTENTIAL_DEPOSIT: Balance = MICRO_IMBU;

/// Minimum vesting amount, in IMBU.
pub const MIN_VESTING: Balance = 10;

/// Additional fee charged when moving native tokens to other chains.
pub const NATIVE_TOKEN_TRANSFER_FEE: Balance = 10 * CENTS;

/// The weight of one second of execution.
pub const WEIGHT_PER_SECOND: u64 = 1_000_000_000_000;

/// The weight of the smallest extrinsic: the base unit of execution weight.
pub const EXTRINSIC_BASE_WEIGHT: u64 = 86_298_000;

/// The relay chain's asset is charged the baseline rate divided by this.
pub const KSM_RATE_DIVISOR: Balance = 50;

/// AUSD is charged the baseline rate times this.
pub const AUSD_RATE_MULTIPLIER: Balance = 50;

/// MGX is charged the baseline rate times this.
pub const MGX_RATE_MULTIPLIER: Balance = 50;

/// KAR is charged the baseline rate times this.
pub const KAR_RATE_MULTIPLIER: Balance = 100;

/// Storage deposit for `items` items holding `bytes` bytes.
pub fn deposit(items: u32, bytes: u32) -> (r: Balance)
    ensures
        r == items as int * 15 * CENTS + bytes as int * 6 * CENTS,
{
    assert(CENTS == 10_000_000_000);
    assert(items as int * 15 * CENTS <= 0xffff_ffff * 15 * 10_000_000_000int) by (nonlinear_arith)
        requires CENTS == 10_000_000_000, items <= 0xffff_ffff;
    assert(bytes as int * 6 * CENTS <= 0xffff_ffff * 6 * 10_000_000_000int) by (nonlinear_arith)
        requires CENTS == 10_000_000_000, bytes <= 0xffff_ffff;
    items as Balance * 15 * CENTS + (bytes as Balance) * 6 * CENTS
}

pub open spec fn spec_base_tx_in_imbu() -> int {
    CENTS as int / 10
}

/// The baseline fee for one second of execution: how many base units of
/// weight fit in a second, times the price of one base unit.
pub open spec fn spec_default_per_second() -> int {
    (WEIGHT_PER_SECOND / EXTRINSIC_BASE_WEIGHT) as int * spec_base_tx_in_imbu()
}

/// The baseline rate of this chain's constants.
pub proof fn lemma_default_per_second_value()
    ensures
        spec_default_per_second() == 11_587_000_000_000,
{
    let x = WEIGHT_PER_SECOND as int;
    let d = EXTRINSIC_BASE_WEIGHT as int;
    lemma_fundamental_div_mod(x, d);
    lemma_mod_pos_bound(x, d);
    assert(x / d == 11587);
    assert(CENTS == 10_000_000_000);
}

/// The price of one base unit of weight: a tenth of a cent.
pub fn base_tx_in_imbu() -> (r: Balance)
    ensures
        r == spec_base_tx_in_imbu(),
{
    CENTS / 10
}

/// The fee for one second of execution where nothing overrides it.
pub fn default_per_second() -> (r: Balance)
    ensures
        r == spec_default_per_second(),
{
    proof {
        lemma_default_per_second_value();
    }
    let base_weight = EXTRINSIC_BASE_WEIGHT as Balance;
    let per_second = (WEIGHT_PER_SECOND as Balance) / base_weight;
    per_second * base_tx_in_imbu()
}

/// The fee per second in the native asset.
pub fn native_per_second() -> (r: Balance)
    ensures
        r == spec_default_per_second(),
{
    default_per_second()
}

/// The fee per second in the relay chain's asset.
pub fn ksm_per_second() -> (r: Balance)
    ensures
        r == spec_default_per_second() / KSM_RATE_DIVISOR as int,
{
    default_per_second() / KSM_RATE_DIVISOR
}

/// The baseline fee per second of KAR, where KAR is not charged its own rate.
pub fn kar_per_second() -> (r: Balance)
    ensures
        r == spec_default_per_second(),
{
    default_per_second()
}

/// The rate charged to AUSD.
pub fn ausd_fixed_rate() -> (r: Balance)
    ensures
        r == spec_default_per_second() * AUSD_RATE_MULTIPLIER,
{
    proof {
        lemma_default_per_second_value();
    }
    default_per_second() * AUSD_RATE_MULTIPLIER
}

/// The rate charged to MGX.
pub fn mgx_fixed_rate() -> (r: Balance)
    ensures
        r == spec_default_per_second() * MGX_RATE_MULTIPLIER,
{
    proof {
        lemma_default_per_second_value();
    }
    default_per_second() * MGX_RATE_MULTIPLIER
}

/// The rate charged to KAR.
pub fn kar_fixed_rate() -> (r: Balance)
    ensures
        r == spec_default_per_second() * KAR_RATE_MULTIPLIER,
{
    proof {
        lemma_default_per_second_value();
    }
    default_per_second() * KAR_RATE_MULTIPLIER
}

/// `weight * base_fee / base_weight`, rounded down, clamped to the largest
/// balance.
pub open spec fn spec_weight_to_fee(weight: u64, base_fee: u128, base_weight: u64) -> u128 {
    let exact = weight as int * base_fee as int / base_weight as int;
    if exact > u128::MAX {
        u128::MAX
    } else {
        exact as u128
    }
}

/// The fee never wraps: it grows with the weight, and where the exact fee of
/// the largest weight exceeds the largest balance, that weight costs exactly
/// the largest balance.
pub proof fn lemma_weight_to_fee_saturates(base_fee: u128, base_weight: u64, w1: u64, w2: u64)
    requires
        base_weight > 0,
        w1 <= w2,
    ensures
        spec_weight_to_fee(w1, base_fee, base_weight) <= spec_weight_to_fee(w2, base_fee, base_weight),
        u64::MAX as int * base_fee as int / base_weight as int > u128::MAX ==> spec_weight_to_fee(
            u64::MAX,
            base_fee,
            base_weight,
        ) == u128::MAX,
{
    let q = base_weight as int;
    assert(w1 as int * base_fee as int <= w2 as int * base_fee as int) by (nonlinear_arith)
        requires w1 <= w2, base_fee >= 0;
    lemma_div_is_ordered(w1 as int * base_fee as int, w2 as int * base_fee as int, q);
}

/// The one term of the weight-to-fee polynomial: `fee = weight^degree * coeff`,
/// where `coeff = coeff_integer + coeff_frac_numerator / coeff_frac_denominator`.
#[derive(Clone, Copy, PartialEq, Eq, Debug, Structural)]
pub struct WeightToFeeCoefficient {
    pub degree: u8,
    pub negative: bool,
    pub coeff_integer: Balance,
    pub coeff_frac_numerator: Balance,
    pub coeff_frac_denominator: Balance,
}

/// Converts execution weight to a fee: the price of a base unit of weight,
/// spread evenly over that unit.
#[derive(Clone, Copy, PartialEq, Eq, Debug, Structural)]
pub struct WeightToFee {
    /// The price of one base unit of weight.
    pub base_fee_per_execution_unit: Balance,
    /// The weight of one base unit; never zero.
    pub base_execution_unit_weight: u64,
}

impl WeightToFee {
    /// This chain's schedule: a tenth of a cent per extrinsic base weight.
    pub fn runtime() -> (r: WeightToFee)
        ensures
            r.base_fee_per_execution_unit == spec_base_tx_in_imbu(),
            r.base_execution_unit_weight == EXTRINSIC_BASE_WEIGHT,
    {
        WeightToFee {
            base_fee_per_execution_unit: base_tx_in_imbu(),
            base_execution_unit_weight: EXTRINSIC_BASE_WEIGHT,
        }
    }

    /// The polynomial's single first-degree term, with its coefficient split
    /// into an integer part and a fraction in `[0, 1)`.
    pub fn polynomial(&self) -> (r: WeightToFeeCoefficient)
        requires
            self.base_execution_unit_weight > 0,
        ensures
            r.degree == 1,
            !r.negative,
            r.coeff_integer == self.base_fee_per_execution_unit / (self.base_execution_unit_weight as u128),
            r.coeff_frac_numerator == self.base_fee_per_execution_unit % (self.base_execution_unit_weight as u128),
            r.coeff_frac_denominator == self.base_execution_unit_weight,
    {
        let p = self.base_fee_per_execution_unit;
        let q = self.base_execution_unit_weight as Balance;
        WeightToFeeCoefficient {
            degree: 1,
            negative: false,
            coeff_integer: p / q,
            coeff_frac_numerator: p % q,
            coeff_frac_denominator: q,
        }
    }

    /// The fee for `weight`, saturating at the largest balance.
    pub fn weight_to_fee(&self, weight: u64) -> (r: Balance)
        requires
            self.base_execution_unit_weight > 0,
        ensures
            r == spec_weight_to_fee(weight, self.base_fee_per_execution_unit, self.base_execution_unit_weight),
    {
        let c = self.polynomial();
        let w = weight as Balance;
        proof {
            let p = self.base_fee_per_execution_unit as int;
            let q = self.base_execution_unit_weight as int;
            let ip = c.coeff_integer as int;
            let fp = c.coeff_frac_numerator as int;
            lemma_fundamental_div_mod(p, q);
            assert(w * fp + w * ip * q == w * p) by (nonlinear_arith)
                requires p == q * ip + fp;
            lemma_hoist_over_denominator(w * fp, w * ip, q as nat);
            assert(w * fp / q >= 0) by (nonlinear_arith)
                requires w >= 0, fp >= 0, q > 0;
            assert(w * fp < 0x1_0000_0000_0000_0000 * 0x1_0000_0000_0000_0000) by (nonlinear_arith)
                requires 0 <= w < 0x1_0000_0000_0000_0000, 0 <= fp < q, q < 0x1_0000_0000_0000_0000;
        }
        match c.coeff_integer.checked_mul(w) {
            None => {
                Balance::MAX
            },
            Some(integer) => {
                let frac = w * c.coeff_frac_numerator / c.coeff_frac_denominator;
                integer.saturating_add(frac)
            },
        }
    }
}

} // verus!
