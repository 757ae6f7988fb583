//! Gas units: newtypes over the carrier `u64`, and the operations allowed on them.

use vstd::prelude::*;

verus! {

/// The underlying carrier for gas-related units and costs.
pub type GasCarrier = u64;

/// Sum of two carriers.
pub fn carrier_add(a: GasCarrier, b: GasCarrier) -> (c: GasCarrier)
    requires
        a + b <= GasCarrier::MAX,
    ensures
        c == a + b,
{
    a + b
}

/// Difference of two carriers.
pub fn carrier_sub(a: GasCarrier, b: GasCarrier) -> (c: GasCarrier)
    requires
        b <= a,
    ensures
        c == a - b,
{
    a - b
}

/// Product of two carriers.
pub fn carrier_mul(a: GasCarrier, b: GasCarrier) -> (c: GasCarrier)
    requires
        a * b <= GasCarrier::MAX,
    ensures
        c == a * b,
{
    a * b
}

/// Quotient of two carriers, rounded down.
pub fn carrier_div(a: GasCarrier, b: GasCarrier) -> (c: GasCarrier)
    requires
        b != 0,
    ensures
        c == a / b,
{
    a / b
}

/// A gas unit: a value that wraps a carrier.
pub trait HasGasCarrier: Sized {
    /// The carrier value held by this unit.
    spec fn carrier(&self) -> GasCarrier;

    /// Project a value into the gas algebra.
    fn new(carrier: GasCarrier) -> (r: Self)
        ensures
            r.carrier() == carrier,
    ;

    /// Get the carrier.
    fn get(&self) -> (r: GasCarrier)
        ensures
            r == self.carrier(),
    ;
}

/// The operations permitted on a gas unit. Two units can be combined as long as
/// they share the carrier; arithmetic goes through the carriers.
pub trait GasAlgebra: HasGasCarrier {
    /// Map a function `f` of one argument over the underlying data.
    fn map<F: Fn(GasCarrier) -> GasCarrier>(self, f: F) -> (r: Self)
        requires
            f.requires((self.carrier(),)),
        ensures
            f.ensures((self.carrier(),), r.carrier()),
    {
        let c = self.get();
        Self::new(f(c))
    }

    /// Map a function `f` of two arguments over the carriers of `self` and `other`.
    fn map2<G: HasGasCarrier, F: Fn(GasCarrier, GasCarrier) -> GasCarrier>(self, other: G, f: F) -> (r: Self)
        requires
            f.requires((self.carrier(), other.carrier())),
        ensures
            f.ensures((self.carrier(), other.carrier()), r.carrier()),
    {
        let a = self.get();
        let b = other.get();
        Self::new(f(a, b))
    }

    /// Apply a function `f` of two arguments to the carriers and return its result as is.
    fn app<G: HasGasCarrier, T, F: Fn(GasCarrier, GasCarrier) -> T>(&self, other: &G, f: F) -> (r: T)
        requires
            f.requires((self.carrier(), other.carrier())),
        ensures
            f.ensures((self.carrier(), other.carrier()), r),
    {
        let a = self.get();
        let b = other.get();
        f(a, b)
    }

    /// Cast between two units with the same carrier.
    fn unitary_cast<T: HasGasCarrier>(self) -> (r: T)
        ensures
            r.carrier() == self.carrier(),
    {
        T::new(self.get())
    }

    /// Add the two units together.
    fn add<G: HasGasCarrier>(self, right: G) -> (r: Self)
        requires
            self.carrier() + right.carrier() <= GasCarrier::MAX,
        ensures
            r.carrier() == self.carrier() + right.carrier(),
    {
        self.map2(right, carrier_add)
    }

    /// Subtract one unit from the other.
    fn sub<G: HasGasCarrier>(self, right: G) -> (r: Self)
        requires
            right.carrier() <= self.carrier(),
        ensures
            r.carrier() == self.carrier() - right.carrier(),
    {
        self.map2(right, carrier_sub)
    }

    /// Multiply two units together.
    fn mul<G: HasGasCarrier>(self, right: G) -> (r: Self)
        requires
            self.carrier() * right.carrier() <= GasCarrier::MAX,
        ensures
            r.carrier() == self.carrier() * right.carrier(),
    {
        self.map2(right, carrier_mul)
    }

    /// Divide one unit by the other, rounding down.
    fn div<G: HasGasCarrier>(self, right: G) -> (r: Self)
        requires
            right.carrier() != 0,
        ensures
            r.carrier() == self.carrier() / right.carrier(),
    {
        self.map2(right, carrier_div)
    }
}

/// The (abstract) memory size that an instruction will take up.
#[derive(Debug, Hash, Eq, PartialEq, Copy, Clone)]
pub struct AbstractMemorySize<C>(C);

/// The gas cost, in units of gas.
#[derive(Debug, Hash, Eq, PartialEq, Copy, Clone)]
pub struct GasUnits<C>(C);

/// The gas price for each unit of gas consumed.
#[derive(Debug, Hash, Eq, PartialEq, Copy, Clone)]
pub struct GasPrice<C>(C);

impl HasGasCarrier for AbstractMemorySize<GasCarrier> {
    closed spec fn carrier(&self) -> GasCarrier {
        self.0
    }

    fn new(c: GasCarrier) -> (r: Self) {
        AbstractMemorySize(c)
    }

    fn get(&self) -> (r: GasCarrier) {
        self.0
    }
}

impl GasAlgebra for AbstractMemorySize<GasCarrier> {}

impl HasGasCarrier for GasUnits<GasCarrier> {
    closed spec fn carrier(&self) -> GasCarrier {
        self.0
    }

    fn new(c: GasCarrier) -> (r: Self) {
        GasUnits(c)
    }

    fn get(&self) -> (r: GasCarrier) {
        self.0
    }
}

impl GasAlgebra for GasUnits<GasCarrier> {}

impl HasGasCarrier for GasPrice<GasCarrier> {
    closed spec fn carrier(&self) -> GasCarrier {
        self.0
    }

    fn new(c: GasCarrier) -> (r: Self) {
        GasPrice(c)
    }

    fn get(&self) -> (r: GasCarrier) {
        self.0
    }
}

impl GasAlgebra for GasPrice<GasCarrier> {}

} // verus!
