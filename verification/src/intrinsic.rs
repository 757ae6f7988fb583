//! Rounding sizes to words, and the intrinsic gas that a transaction is charged
//! for its size.

use vstd::prelude::*;
use crate::algebra::{AbstractMemorySize, GasAlgebra, GasCarrier, GasUnits, HasGasCarrier};
use crate::constants::{
    INTRINSIC_GAS_PER_BYTE, LARGE_TRANSACTION_CUTOFF, MAX_ABSTRACT_MEMORY_SIZE,
    MAXIMUM_NUMBER_OF_GAS_UNITS, MAX_TRANSACTION_SIZE_IN_BYTES, MIN_TRANSACTION_GAS_UNITS, WORD_SIZE,
};

verus! {

/// `size` divided by `word_size`, rounded up.
pub fn round_up_div(size: GasCarrier, word_size: GasCarrier) -> (words: GasCarrier)
    requires
        word_size > 0,
        size + word_size <= GasCarrier::MAX,
    ensures
        words == (size + (word_size - 1)) / word_size as int,
{
    (size + (word_size - 1)) / word_size
}

/// The number of words that `size` bytes take up, rounded up.
pub open spec fn words_for(size: int) -> int {
    (size + WORD_SIZE - 1) / WORD_SIZE as int
}

/// Computes the number of words rounded up.
pub fn words_in(size: AbstractMemorySize<GasCarrier>) -> (words: AbstractMemorySize<GasCarrier>)
    requires
        size.carrier() <= MAX_ABSTRACT_MEMORY_SIZE - (WORD_SIZE + 1),
    ensures
        words.carrier() == words_for(size.carrier() as int),
        words.carrier() * WORD_SIZE >= size.carrier(),
        words.carrier() * WORD_SIZE < size.carrier() + WORD_SIZE,
{
    size.map2(AbstractMemorySize::new(WORD_SIZE), round_up_div)
}

/// The intrinsic gas of a transaction of `size` bytes: the flat minimum, plus,
/// past the cutoff, `INTRINSIC_GAS_PER_BYTE` for every byte beyond it.
pub open spec fn intrinsic_gas(size: int) -> int {
    if size > LARGE_TRANSACTION_CUTOFF {
        MIN_TRANSACTION_GAS_UNITS + INTRINSIC_GAS_PER_BYTE * (size - LARGE_TRANSACTION_CUTOFF)
    } else {
        MIN_TRANSACTION_GAS_UNITS as int
    }
}

/// Calculate the intrinsic gas for the transaction based upon its size in bytes/words.
pub fn calculate_intrinsic_gas(transaction_size: AbstractMemorySize<GasCarrier>) -> (gas: GasUnits<GasCarrier>)
    requires
        transaction_size.carrier() <= MAX_TRANSACTION_SIZE_IN_BYTES,
    ensures
        gas.carrier() == intrinsic_gas(transaction_size.carrier() as int),
{
    let min_transaction_fee: GasUnits<GasCarrier> = GasUnits::new(MIN_TRANSACTION_GAS_UNITS);
    if transaction_size.get() > LARGE_TRANSACTION_CUTOFF {
        let cutoff: AbstractMemorySize<GasCarrier> = AbstractMemorySize::new(LARGE_TRANSACTION_CUTOFF);
        let excess = transaction_size.sub(cutoff);
        let per_byte: GasUnits<GasCarrier> = GasUnits::new(INTRINSIC_GAS_PER_BYTE);
        min_transaction_fee.add(per_byte.mul(excess))
    } else {
        min_transaction_fee.unitary_cast()
    }
}

/// A larger transaction is never charged less intrinsic gas.
pub proof fn lemma_intrinsic_gas_monotone(smaller: int, larger: int)
    requires
        0 <= smaller <= larger,
    ensures
        intrinsic_gas(smaller) <= intrinsic_gas(larger),
{
}

/// Every transaction is charged at least the minimum, and one of admissible size
/// at most the maximum number of gas units.
pub proof fn lemma_intrinsic_gas_bounds(size: int)
    requires
        0 <= size <= MAX_TRANSACTION_SIZE_IN_BYTES,
    ensures
        MIN_TRANSACTION_GAS_UNITS <= intrinsic_gas(size) <= MAXIMUM_NUMBER_OF_GAS_UNITS,
{
}

/// Up to the cutoff every transaction pays the minimum; past it, every further
/// byte adds exactly `INTRINSIC_GAS_PER_BYTE`.
pub proof fn lemma_intrinsic_gas_per_byte(size: int)
    requires
        0 <= size,
    ensures
        size <= LARGE_TRANSACTION_CUTOFF ==> intrinsic_gas(size) == MIN_TRANSACTION_GAS_UNITS,
        size >= LARGE_TRANSACTION_CUTOFF ==> intrinsic_gas(size + 1) == intrinsic_gas(size)
            + INTRINSIC_GAS_PER_BYTE,
{
}

} // verus!
