//! The constants of the gas schedule, each given as the carrier of its unit.

use vstd::prelude::*;

verus! {

/// The cost per byte written to global storage, in gas units.
pub const GLOBAL_MEMORY_PER_BYTE_COST: u64 = 8;

/// The cost per byte written to storage, in gas units.
pub const GLOBAL_MEMORY_PER_BYTE_WRITE_COST: u64 = 8;

/// The maximum size representable by an abstract memory size.
pub const MAX_ABSTRACT_MEMORY_SIZE: u64 = 0xFFFF_FFFF_FFFF_FFFF;

/// The units of gas that are charged per byte for every transaction.
pub const INTRINSIC_GAS_PER_BYTE: u64 = 8;

/// The minimum gas price that a transaction can be submitted with.
pub const MIN_PRICE_PER_GAS_UNIT: u64 = 0;

/// The maximum gas unit price that a transaction can be submitted with.
pub const MAX_PRICE_PER_GAS_UNIT: u64 = 10_000;

/// One nanosecond is one unit of computational gas; the computational time of a
/// transaction is bounded at 10 milliseconds.
pub const MAXIMUM_NUMBER_OF_GAS_UNITS: u64 = 1_000_000;

/// The flat charge of every transaction, in gas units, which pays for its first bytes.
pub const MIN_TRANSACTION_GAS_UNITS: u64 = 600;

/// The word size that is charged by, in bytes.
pub const WORD_SIZE: u64 = 8;

/// The size in words of a non-string, non-address constant on the stack.
pub const CONST_SIZE: u64 = 1;

/// The size in words of a reference on the stack.
pub const REFERENCE_SIZE: u64 = 8;

/// The size of a struct in words.
pub const STRUCT_SIZE: u64 = 2;

/// The size of an account in words.
pub const DEFAULT_ACCOUNT_SIZE: u64 = 32;

/// Any transaction over this size, in bytes, is charged `INTRINSIC_GAS_PER_BYTE`
/// for every further byte.
pub const LARGE_TRANSACTION_CUTOFF: u64 = 600;

/// The largest transaction that can be submitted, in bytes.
pub const MAX_TRANSACTION_SIZE_IN_BYTES: u64 = 4096;

/// The most gas a transaction can pay for at the highest price fits in the carrier:
/// `MAXIMUM_NUMBER_OF_GAS_UNITS * MAX_PRICE_PER_GAS_UNIT < u64::MAX`.
pub proof fn lemma_max_fee_fits()
    ensures
        MAXIMUM_NUMBER_OF_GAS_UNITS * MAX_PRICE_PER_GAS_UNIT < u64::MAX,
        MIN_PRICE_PER_GAS_UNIT <= MAX_PRICE_PER_GAS_UNIT,
{
}

} // verus!
