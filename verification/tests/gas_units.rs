use vm_gas::algebra::{
    carrier_add, carrier_div, carrier_mul, carrier_sub, AbstractMemorySize, GasAlgebra, GasCarrier,
    GasPrice, GasUnits, HasGasCarrier,
};
use vm_gas::constants::{MAXIMUM_NUMBER_OF_GAS_UNITS, MAX_PRICE_PER_GAS_UNIT, MIN_PRICE_PER_GAS_UNIT};

#[test]
fn new_then_get_gives_the_carrier_back() {
    let g: GasUnits<GasCarrier> = GasUnits::new(42);
    assert_eq!(g.get(), 42);
    let p: GasPrice<GasCarrier> = GasPrice::new(7);
    assert_eq!(p.get(), 7);
    let m: AbstractMemorySize<GasCarrier> = AbstractMemorySize::new(u64::MAX);
    assert_eq!(m.get(), u64::MAX);
}

#[test]
fn arithmetic_goes_through_the_carriers() {
    let g: GasUnits<GasCarrier> = GasUnits::new(12);
    let m: AbstractMemorySize<GasCarrier> = AbstractMemorySize::new(5);
    assert_eq!(g.add(m).get(), 17);
    assert_eq!(g.sub(m).get(), 7);
    assert_eq!(g.mul(m).get(), 60);
    assert_eq!(g.div(m).get(), 2);
}

#[test]
fn sub_undoes_add() {
    let a: GasUnits<GasCarrier> = GasUnits::new(1_000);
    let b: GasPrice<GasCarrier> = GasPrice::new(234);
    assert_eq!(a.add(b).sub(b), a);
}

#[test]
fn arithmetic_at_the_edges_of_the_carrier() {
    let top: GasUnits<GasCarrier> = GasUnits::new(u64::MAX - 1);
    let one: GasUnits<GasCarrier> = GasUnits::new(1);
    assert_eq!(top.add(one).get(), u64::MAX);
    assert_eq!(one.sub(one).get(), 0);
    assert_eq!(top.div(top).get(), 1);
    let zero: GasUnits<GasCarrier> = GasUnits::new(0);
    assert_eq!(top.mul(zero).get(), 0);
}

#[test]
fn map_and_map2_apply_the_function() {
    let g: GasUnits<GasCarrier> = GasUnits::new(9);
    let doubled = g.map(|c| c * 2);
    assert_eq!(doubled.get(), 18);
    let m: AbstractMemorySize<GasCarrier> = AbstractMemorySize::new(4);
    assert_eq!(g.map2(m, carrier_mul).get(), 36);
    assert_eq!(g.map2(m, |a, b| a - b).get(), 5);
}

#[test]
fn app_returns_the_result_unwrapped() {
    let g: GasUnits<GasCarrier> = GasUnits::new(9);
    let m: AbstractMemorySize<GasCarrier> = AbstractMemorySize::new(4);
    assert!(g.app(&m, |a, b| a > b));
    assert_eq!(g.app(&m, carrier_sub), 5);
}

#[test]
fn unitary_cast_keeps_the_carrier() {
    let g: GasUnits<GasCarrier> = GasUnits::new(77);
    let p: GasPrice<GasCarrier> = g.unitary_cast();
    assert_eq!(p.get(), 77);
    let back: GasUnits<GasCarrier> = p.unitary_cast();
    assert_eq!(back, g);
}

#[test]
fn carrier_functions() {
    assert_eq!(carrier_add(2, 3), 5);
    assert_eq!(carrier_sub(9, 3), 6);
    assert_eq!(carrier_mul(4, 3), 12);
    assert_eq!(carrier_div(10, 3), 3);
    assert_eq!(carrier_div(0, 3), 0);
}

#[test]
fn max_fee_fits_in_the_carrier() {
    assert!(MAXIMUM_NUMBER_OF_GAS_UNITS.checked_mul(MAX_PRICE_PER_GAS_UNIT).is_some());
    assert!(MAXIMUM_NUMBER_OF_GAS_UNITS * MAX_PRICE_PER_GAS_UNIT < u64::MAX);
    assert!(MIN_PRICE_PER_GAS_UNIT <= MAX_PRICE_PER_GAS_UNIT);
}
