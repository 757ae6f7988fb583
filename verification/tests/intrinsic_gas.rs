use vm_gas::algebra::{AbstractMemorySize, GasCarrier, HasGasCarrier};
use vm_gas::constants::{
    MAXIMUM_NUMBER_OF_GAS_UNITS, MAX_ABSTRACT_MEMORY_SIZE, MAX_TRANSACTION_SIZE_IN_BYTES,
    MIN_TRANSACTION_GAS_UNITS, WORD_SIZE,
};
use vm_gas::intrinsic::{calculate_intrinsic_gas, round_up_div, words_in};

fn size(n: u64) -> AbstractMemorySize<GasCarrier> {
    AbstractMemorySize::new(n)
}

fn intrinsic(n: u64) -> u64 {
    calculate_intrinsic_gas(size(n)).get()
}

#[test]
fn words_in_rounds_up() {
    assert_eq!(words_in(size(0)).get(), 0);
    assert_eq!(words_in(size(1)).get(), 1);
    assert_eq!(words_in(size(7)).get(), 1);
    assert_eq!(words_in(size(8)).get(), 1);
    assert_eq!(words_in(size(9)).get(), 2);
    assert_eq!(words_in(size(16)).get(), 2);
    assert_eq!(words_in(size(17)).get(), 3);
}

#[test]
fn words_in_at_its_largest_input() {
    let largest = MAX_ABSTRACT_MEMORY_SIZE - (WORD_SIZE + 1);
    let words = words_in(size(largest)).get();
    assert_eq!(words, largest / WORD_SIZE + 1);
    assert!(words * WORD_SIZE >= largest);
    assert!(words * WORD_SIZE < largest + WORD_SIZE);
}

#[test]
fn round_up_div_values() {
    assert_eq!(round_up_div(0, 8), 0);
    assert_eq!(round_up_div(25, 8), 4);
    assert_eq!(round_up_div(24, 8), 3);
    assert_eq!(round_up_div(5, 1), 5);
}

#[test]
fn small_transactions_pay_the_minimum() {
    assert_eq!(intrinsic(0), MIN_TRANSACTION_GAS_UNITS);
    assert_eq!(intrinsic(1), 600);
    assert_eq!(intrinsic(600), 600);
}

#[test]
fn large_transactions_pay_per_byte_beyond_the_cutoff() {
    assert_eq!(intrinsic(601), 608);
    assert_eq!(intrinsic(608), 664);
    assert_eq!(intrinsic(609), 672);
    assert_eq!(intrinsic(616), 728);
    assert_eq!(intrinsic(1000), 600 + 8 * 400);
    assert_eq!(intrinsic(MAX_TRANSACTION_SIZE_IN_BYTES), 28_568);
}

#[test]
fn intrinsic_gas_is_monotone_and_bounded() {
    let mut previous = 0;
    for n in 0..=MAX_TRANSACTION_SIZE_IN_BYTES {
        let gas = intrinsic(n);
        assert!(gas >= previous);
        assert!(gas >= MIN_TRANSACTION_GAS_UNITS);
        assert!(gas <= MAXIMUM_NUMBER_OF_GAS_UNITS);
        if n > 600 {
            assert_eq!(gas, 600 + 8 * (n - 600));
            assert_eq!(gas, previous + 8);
        }
        previous = gas;
    }
}
