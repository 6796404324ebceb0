use imbue_assets::fees::{
    base_tx_in_imbu, default_per_second, deposit, kar_per_second, ksm_per_second, native_per_second, WeightToFee,
    CENTS, EXTRINSIC_BASE_WEIGHT,
};
use imbue_assets::trader::charge_for;

#[test]
fn deposit_counts_items_and_bytes() {
    assert_eq!(deposit(0, 0), 0);
    assert_eq!(deposit(1, 0), 15 * CENTS);
    assert_eq!(deposit(2, 10), 900_000_000_000);
    assert_eq!(deposit(u32::MAX, u32::MAX), u32::MAX as u128 * 21 * CENTS);
}

#[test]
fn base_rates_of_this_chain() {
    assert_eq!(base_tx_in_imbu(), 1_000_000_000);
    assert_eq!(default_per_second(), 11_587_000_000_000);
    assert_eq!(native_per_second(), default_per_second());
    assert_eq!(kar_per_second(), default_per_second());
    assert_eq!(ksm_per_second(), 231_740_000_000);
}

#[test]
fn weight_to_fee_exact_coefficient() {
    let w = WeightToFee { base_fee_per_execution_unit: 1000, base_execution_unit_weight: 100 };
    let c = w.polynomial();
    assert_eq!(c.coeff_integer, 10);
    assert_eq!(c.coeff_frac_numerator, 0);
    assert_eq!(w.weight_to_fee(250), 2500);
}

#[test]
fn weight_to_fee_runtime_polynomial() {
    let w = WeightToFee::runtime();
    assert_eq!(w.base_execution_unit_weight, EXTRINSIC_BASE_WEIGHT);
    let c = w.polynomial();
    assert_eq!(c.degree, 1);
    assert!(!c.negative);
    assert_eq!(c.coeff_integer, 11);
    assert_eq!(c.coeff_frac_numerator, 50_722_000);
    assert_eq!(c.coeff_frac_denominator, 86_298_000);
    assert_eq!(w.weight_to_fee(86_298_000), 1_000_000_000);
    assert_eq!(w.weight_to_fee(1000), 11_587);
    assert_eq!(w.weight_to_fee(0), 0);
}

#[test]
fn weight_to_fee_fraction_rounds_down() {
    let w = WeightToFee { base_fee_per_execution_unit: 7, base_execution_unit_weight: 3 };
    assert_eq!(w.weight_to_fee(1), 2);
    assert_eq!(w.weight_to_fee(2), 4);
    assert_eq!(w.weight_to_fee(3), 7);
}

#[test]
fn weight_to_fee_saturates() {
    let w = WeightToFee { base_fee_per_execution_unit: u128::MAX, base_execution_unit_weight: 1 };
    assert_eq!(w.weight_to_fee(u64::MAX), u128::MAX);
    assert_eq!(w.weight_to_fee(1), u128::MAX);
    let big = WeightToFee { base_fee_per_execution_unit: 1u128 << 70, base_execution_unit_weight: 3 };
    assert_eq!(big.weight_to_fee(u64::MAX), u128::MAX);
}

#[test]
fn weight_to_fee_largest_weight_on_this_chain_does_not_wrap() {
    let w = WeightToFee::runtime();
    let fee = w.weight_to_fee(u64::MAX);
    assert_eq!(fee, u64::MAX as u128 * 1_000_000_000 / 86_298_000);
    assert!(fee >= w.weight_to_fee(u64::MAX - 1));
}

#[test]
fn charge_for_rounds_down_and_saturates() {
    assert_eq!(charge_for(default_per_second(), 1_000_000_000_000), default_per_second());
    assert_eq!(charge_for(default_per_second(), 500_000_000_000), default_per_second() / 2);
    assert_eq!(charge_for(999, 1), 0);
    assert_eq!(charge_for(u128::MAX, 2), 680_564_733_841_876_926_926_749_214);
    assert_eq!(charge_for(1u128 << 127, 4), 680_564_733_841_876_926_926_749_214);
    assert_eq!(charge_for(u128::MAX, u64::MAX), u128::MAX);
}
