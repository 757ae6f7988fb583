//! The cost tables: what each bytecode instruction and each native function costs.

use vstd::prelude::*;
use crate::algebra::{
    AbstractMemorySize, GasAlgebra, GasCarrier, GasUnits, HasGasCarrier, carrier_mul,
};
use crate::bytecode::{
    Bytecode, NO_TYPE_ACTUALS, NUMBER_OF_BYTECODE_INSTRUCTIONS, NUMBER_OF_NATIVE_FUNCTIONS,
    instruction_key, lemma_key_disregards_operands, lemma_key_range,
};

verus! {

/// The cost of an instruction or native function:
/// - instruction cost: how much time/computational power is needed to perform it
/// - memory cost: how much memory it requires, and its storage overhead
#[derive(Debug, Clone, Copy)]
pub struct GasCost {
    pub instruction_gas: GasUnits<GasCarrier>,
    pub memory_gas: GasUnits<GasCarrier>,
}

impl GasCost {
    /// A cost of `instr_gas` instruction gas and `mem_gas` memory gas.
    pub fn new(instr_gas: GasCarrier, mem_gas: GasCarrier) -> (cost: Self)
        ensures
            cost.instruction_gas.carrier() == instr_gas,
            cost.memory_gas.carrier() == mem_gas,
    {
        GasCost { instruction_gas: GasUnits::new(instr_gas), memory_gas: GasUnits::new(mem_gas) }
    }

    /// The total charge of this cost in gas units: instruction gas plus memory gas.
    pub fn total(&self) -> (total: GasUnits<GasCarrier>)
        requires
            self.instruction_gas.carrier() + self.memory_gas.carrier() <= GasCarrier::MAX,
        ensures
            total.carrier() == self.instruction_gas.carrier() + self.memory_gas.carrier(),
    {
        self.instruction_gas.add(self.memory_gas)
    }
}

/// The native functions that have an entry in the native cost table.
#[allow(non_camel_case_types)]
#[derive(Clone, Copy, Debug, Eq, Hash, PartialEq, PartialOrd, Ord)]
pub enum NativeCostIndex {
    SHA2_256,
    SHA3_256,
    ED25519_VERIFY,
    ED25519_THRESHOLD_VERIFY,
    ADDRESS_TO_BYTES,
    U64_TO_BYTES,
    BYTEARRAY_CONCAT,
    LENGTH,
    EMPTY,
    BORROW,
    BORROW_MUT,
    PUSH_BACK,
    POP_BACK,
    DESTROY_EMPTY,
    SWAP,
    WRITE_TO_EVENT_STORE,
    SAVE_ACCOUNT,
}

impl NativeCostIndex {
    /// The position of the native function in the native cost table.
    pub open spec fn position(self) -> int {
        match self {
            NativeCostIndex::SHA2_256 => 0,
            NativeCostIndex::SHA3_256 => 1,
            NativeCostIndex::ED25519_VERIFY => 2,
            NativeCostIndex::ED25519_THRESHOLD_VERIFY => 3,
            NativeCostIndex::ADDRESS_TO_BYTES => 4,
            NativeCostIndex::U64_TO_BYTES => 5,
            NativeCostIndex::BYTEARRAY_CONCAT => 6,
            NativeCostIndex::LENGTH => 7,
            NativeCostIndex::EMPTY => 8,
            NativeCostIndex::BORROW => 9,
            NativeCostIndex::BORROW_MUT => 10,
            NativeCostIndex::PUSH_BACK => 11,
            NativeCostIndex::POP_BACK => 12,
            NativeCostIndex::DESTROY_EMPTY => 13,
            NativeCostIndex::SWAP => 14,
            NativeCostIndex::WRITE_TO_EVENT_STORE => 15,
            NativeCostIndex::SAVE_ACCOUNT => 16,
        }
    }

    /// The position of the native function in the native cost table.
    pub fn index(self) -> (i: usize)
        ensures
            i == self.position(),
            i < NUMBER_OF_NATIVE_FUNCTIONS,
    {
        match self {
            NativeCostIndex::SHA2_256 => 0,
            NativeCostIndex::SHA3_256 => 1,
            NativeCostIndex::ED25519_VERIFY => 2,
            NativeCostIndex::ED25519_THRESHOLD_VERIFY => 3,
            NativeCostIndex::ADDRESS_TO_BYTES => 4,
            NativeCostIndex::U64_TO_BYTES => 5,
            NativeCostIndex::BYTEARRAY_CONCAT => 6,
            NativeCostIndex::LENGTH => 7,
            NativeCostIndex::EMPTY => 8,
            NativeCostIndex::BORROW => 9,
            NativeCostIndex::BORROW_MUT => 10,
            NativeCostIndex::PUSH_BACK => 11,
            NativeCostIndex::POP_BACK => 12,
            NativeCostIndex::DESTROY_EMPTY => 13,
            NativeCostIndex::SWAP => 14,
            NativeCostIndex::WRITE_TO_EVENT_STORE => 15,
            NativeCostIndex::SAVE_ACCOUNT => 16,
        }
    }
}

/// The native functions in the order in which they are declared.
pub open spec fn natives_in_declared_order() -> Seq<NativeCostIndex> {
    seq![
        NativeCostIndex::SHA2_256,
        NativeCostIndex::SHA3_256,
        NativeCostIndex::ED25519_VERIFY,
        NativeCostIndex::ED25519_THRESHOLD_VERIFY,
        NativeCostIndex::ADDRESS_TO_BYTES,
        NativeCostIndex::U64_TO_BYTES,
        NativeCostIndex::BYTEARRAY_CONCAT,
        NativeCostIndex::LENGTH,
        NativeCostIndex::EMPTY,
        NativeCostIndex::BORROW,
        NativeCostIndex::BORROW_MUT,
        NativeCostIndex::PUSH_BACK,
        NativeCostIndex::POP_BACK,
        NativeCostIndex::DESTROY_EMPTY,
        NativeCostIndex::SWAP,
        NativeCostIndex::WRITE_TO_EVENT_STORE,
        NativeCostIndex::SAVE_ACCOUNT,
    ]
}

/// A native function's row in the native cost table is its place in the declaration:
/// `SHA2_256` has the first row, `SHA3_256` the second, and so on to `SAVE_ACCOUNT`.
/// So rows grow strictly with declaration order and fill `0..NUMBER_OF_NATIVE_FUNCTIONS`.
pub proof fn lemma_native_position_is_declaration_order()
    ensures
        NativeCostIndex::SHA2_256.position() == 0,
        NativeCostIndex::SHA3_256.position() == 1,
        NativeCostIndex::ED25519_VERIFY.position() == 2,
        NativeCostIndex::ED25519_THRESHOLD_VERIFY.position() == 3,
        NativeCostIndex::ADDRESS_TO_BYTES.position() == 4,
        NativeCostIndex::U64_TO_BYTES.position() == 5,
        NativeCostIndex::BYTEARRAY_CONCAT.position() == 6,
        NativeCostIndex::LENGTH.position() == 7,
        NativeCostIndex::EMPTY.position() == 8,
        NativeCostIndex::BORROW.position() == 9,
        NativeCostIndex::BORROW_MUT.position() == 10,
        NativeCostIndex::PUSH_BACK.position() == 11,
        NativeCostIndex::POP_BACK.position() == 12,
        NativeCostIndex::DESTROY_EMPTY.position() == 13,
        NativeCostIndex::SWAP.position() == 14,
        NativeCostIndex::WRITE_TO_EVENT_STORE.position() == 15,
        NativeCostIndex::SAVE_ACCOUNT.position() == 16,
        natives_in_declared_order().len() == NUMBER_OF_NATIVE_FUNCTIONS,
        forall|i: int|
            0 <= i < NUMBER_OF_NATIVE_FUNCTIONS ==> (#[trigger] natives_in_declared_order()[i]).position() == i,
        forall|i: int, j: int|
            0 <= i < j < NUMBER_OF_NATIVE_FUNCTIONS ==> (#[trigger] natives_in_declared_order()[i]).position()
                < (#[trigger] natives_in_declared_order()[j]).position(),
        forall|n: NativeCostIndex| 0 <= #[trigger] n.position() < NUMBER_OF_NATIVE_FUNCTIONS,
{
    let order = natives_in_declared_order();
        assert(order[0] == NativeCostIndex::SHA2_256);
        assert(order[1] == NativeCostIndex::SHA3_256);
        assert(order[2] == NativeCostIndex::ED25519_VERIFY);
        assert(order[3] == NativeCostIndex::ED25519_THRESHOLD_VERIFY);
        assert(order[4] == NativeCostIndex::ADDRESS_TO_BYTES);
        assert(order[5] == NativeCostIndex::U64_TO_BYTES);
        assert(order[6] == NativeCostIndex::BYTEARRAY_CONCAT);
        assert(order[7] == NativeCostIndex::LENGTH);
        assert(order[8] == NativeCostIndex::EMPTY);
        assert(order[9] == NativeCostIndex::BORROW);
        assert(order[10] == NativeCostIndex::BORROW_MUT);
        assert(order[11] == NativeCostIndex::PUSH_BACK);
        assert(order[12] == NativeCostIndex::POP_BACK);
        assert(order[13] == NativeCostIndex::DESTROY_EMPTY);
        assert(order[14] == NativeCostIndex::SWAP);
        assert(order[15] == NativeCostIndex::WRITE_TO_EVENT_STORE);
        assert(order[16] == NativeCostIndex::SAVE_ACCOUNT);
    assert forall|i: int| 0 <= i < NUMBER_OF_NATIVE_FUNCTIONS implies (#[trigger] order[i]).position() == i by {
    }
}

/// The costs that the first `n` entries of `instrs` give to instructions whose key
/// is `key`, in the order in which they stand in `instrs`.
pub open spec fn costs_with_key_in_prefix(instrs: Seq<(Bytecode, GasCost)>, key: int, n: int) -> Seq<GasCost>
    decreases n,
{
    if n <= 0 {
        Seq::empty()
    } else {
        let rest = costs_with_key_in_prefix(instrs, key, n - 1);
        if instrs[n - 1].0.opcode() == key {
            rest.push(instrs[n - 1].1)
        } else {
            rest
        }
    }
}

/// The costs that `instrs` gives to instructions whose key is `key`, in the order
/// in which they stand in `instrs`.
pub open spec fn costs_with_key(instrs: Seq<(Bytecode, GasCost)>, key: int) -> Seq<GasCost> {
    costs_with_key_in_prefix(instrs, key, instrs.len() as int)
}

/// The costs in `instrs` of the instructions whose key is below `key`, ordered by
/// key and, among equal keys, in the order in which they stand in `instrs`.
pub open spec fn costs_sorted_below(instrs: Seq<(Bytecode, GasCost)>, key: int) -> Seq<GasCost>
    decreases key,
{
    if key <= 1 {
        Seq::empty()
    } else {
        costs_sorted_below(instrs, key - 1) + costs_with_key(instrs, key - 1)
    }
}

/// The costs in `instrs`, stably sorted by the key of their instruction.
pub open spec fn sorted_costs(instrs: Seq<(Bytecode, GasCost)>) -> Seq<GasCost> {
    costs_sorted_below(instrs, NUMBER_OF_BYTECODE_INSTRUCTIONS + 1)
}

/// Every instruction has an entry: sorted by key, the entry at position `i` has
/// key `i + 1` for every instruction. So each key has exactly one entry, but for
/// the last key, which may have more.
pub open spec fn covers_all_instructions(instrs: Seq<(Bytecode, GasCost)>) -> bool {
    &&& forall|key: int|
        1 <= key < NUMBER_OF_BYTECODE_INSTRUCTIONS ==> #[trigger] costs_with_key(instrs, key).len() == 1
    &&& costs_with_key(instrs, NUMBER_OF_BYTECODE_INSTRUCTIONS as int).len() >= 1
}

/// An empty bucket means that no entry of the prefix has that key.
proof fn lemma_no_cost_with_key(instrs: Seq<(Bytecode, GasCost)>, key: int, n: int)
    requires
        0 <= n <= instrs.len(),
        costs_with_key_in_prefix(instrs, key, n).len() == 0,
    ensures
        forall|j: int| 0 <= j < n ==> #[trigger] instrs[j].0.opcode() != key,
    decreases n,
{
    if n > 0 {
        lemma_no_cost_with_key(instrs, key, n - 1);
    }
}

/// The first cost with a key is the cost of the first entry with that key.
proof fn lemma_first_cost_with_key(instrs: Seq<(Bytecode, GasCost)>, key: int, n: int) -> (i: int)
    requires
        0 <= n <= instrs.len(),
        costs_with_key_in_prefix(instrs, key, n).len() >= 1,
    ensures
        0 <= i < n,
        instrs[i].0.opcode() == key,
        costs_with_key_in_prefix(instrs, key, n)[0] == instrs[i].1,
        forall|j: int| 0 <= j < i ==> #[trigger] instrs[j].0.opcode() != key,
    decreases n,
{
    if costs_with_key_in_prefix(instrs, key, n - 1).len() >= 1 {
        lemma_first_cost_with_key(instrs, key, n - 1)
    } else {
        lemma_no_cost_with_key(instrs, key, n - 1);
        n - 1
    }
}

/// Two entries with the same key make a bucket of at least two.
proof fn lemma_two_entries_with_key(instrs: Seq<(Bytecode, GasCost)>, key: int, n: int, i: int, j: int)
    requires
        0 <= n <= instrs.len(),
        0 <= i < n,
        0 <= j < n,
        i != j,
        instrs[i].0.opcode() == key,
        instrs[j].0.opcode() == key,
    ensures
        costs_with_key_in_prefix(instrs, key, n).len() >= 2,
    decreases n,
{
    if i != n - 1 && j != n - 1 {
        lemma_two_entries_with_key(instrs, key, n - 1, i, j);
    } else {
        if costs_with_key_in_prefix(instrs, key, n - 1).len() == 0 {
            lemma_no_cost_with_key(instrs, key, n - 1);
        }
    }
}

/// Below a key that every instruction covers, the sorted costs hold one entry per key.
proof fn lemma_sorted_below_len(instrs: Seq<(Bytecode, GasCost)>, key: int)
    requires
        covers_all_instructions(instrs),
        1 <= key <= NUMBER_OF_BYTECODE_INSTRUCTIONS,
    ensures
        costs_sorted_below(instrs, key).len() == key - 1,
    decreases key,
{
    if key > 1 {
        lemma_sorted_below_len(instrs, key - 1);
        assert(costs_with_key(instrs, key - 1).len() == 1);
    }
}

/// Sorting the costs below a larger key keeps those below a smaller key in front.
proof fn lemma_sorted_below_prefix(instrs: Seq<(Bytecode, GasCost)>, key: int, larger: int, j: int)
    requires
        1 <= key <= larger,
        0 <= j < costs_sorted_below(instrs, key).len(),
    ensures
        j < costs_sorted_below(instrs, larger).len(),
        costs_sorted_below(instrs, larger)[j] == costs_sorted_below(instrs, key)[j],
    decreases larger - key,
{
    if larger > key {
        lemma_sorted_below_prefix(instrs, key, larger - 1, j);
    }
}

/// Where every instruction has an entry, the sorted costs hold at position `k - 1`
/// the cost of the first entry whose instruction has key `k`; for every key but
/// the last, that entry is the only one with that key.
pub proof fn lemma_sorted_costs_lookup(instrs: Seq<(Bytecode, GasCost)>, b: Bytecode) -> (i: int)
    requires
        covers_all_instructions(instrs),
    ensures
        sorted_costs(instrs).len() >= NUMBER_OF_BYTECODE_INSTRUCTIONS,
        0 <= i < instrs.len(),
        instrs[i].0.without_operands() == b.without_operands(),
        sorted_costs(instrs)[b.opcode() - 1] == instrs[i].1,
        forall|j: int| 0 <= j < i ==> #[trigger] instrs[j].0.opcode() != b.opcode(),
        b.opcode() < NUMBER_OF_BYTECODE_INSTRUCTIONS ==> forall|j: int|
            0 <= j < instrs.len() && j != i ==> #[trigger] instrs[j].0.opcode() != b.opcode(),
{
    let n = NUMBER_OF_BYTECODE_INSTRUCTIONS as int;
    let k = b.opcode() as int;
    lemma_key_range(b);
    lemma_sorted_below_len(instrs, n);
    lemma_sorted_below_len(instrs, k);
    assert(costs_with_key(instrs, k).len() >= 1);
    let i = lemma_first_cost_with_key(instrs, k, instrs.len() as int);
    lemma_key_disregards_operands(instrs[i].0, b);
    assert(costs_sorted_below(instrs, k + 1)[k - 1] == instrs[i].1);
    lemma_sorted_below_prefix(instrs, k + 1, n + 1, k - 1);
    lemma_sorted_below_prefix(instrs, n, n + 1, 0);
    if k < n {
        assert forall|j: int| 0 <= j < instrs.len() && j != i implies #[trigger] instrs[j].0.opcode() != k by {
            if instrs[j].0.opcode() == k {
                lemma_two_entries_with_key(instrs, k, instrs.len() as int, i, j);
            }
        }
    }
    i
}

/// The number of entries, among the first `n` of `instrs`, whose key is below `key`.
spec fn count_below(instrs: Seq<(Bytecode, GasCost)>, key: int, n: int) -> int
    decreases key,
{
    if key <= 1 {
        0
    } else {
        count_below(instrs, key - 1, n) + costs_with_key_in_prefix(instrs, key - 1, n).len()
    }
}

proof fn lemma_sorted_below_count(instrs: Seq<(Bytecode, GasCost)>, key: int)
    ensures
        costs_sorted_below(instrs, key).len() == count_below(instrs, key, instrs.len() as int),
    decreases key,
{
    if key > 1 {
        lemma_sorted_below_count(instrs, key - 1);
    }
}

proof fn lemma_count_below_step(instrs: Seq<(Bytecode, GasCost)>, key: int, n: int)
    requires
        1 <= n <= instrs.len(),
    ensures
        count_below(instrs, key, n) == count_below(instrs, key, n - 1) + (if 1 <= instrs[n
            - 1].0.opcode() < key {
            1int
        } else {
            0int
        }),
    decreases key,
{
    if key > 1 {
        lemma_count_below_step(instrs, key - 1, n);
    }
}

proof fn lemma_count_below_all(instrs: Seq<(Bytecode, GasCost)>, n: int)
    requires
        0 <= n <= instrs.len(),
    ensures
        count_below(instrs, NUMBER_OF_BYTECODE_INSTRUCTIONS + 1, n) == n,
    decreases n,
{
    if n > 0 {
        lemma_count_below_all(instrs, n - 1);
        lemma_count_below_step(instrs, NUMBER_OF_BYTECODE_INSTRUCTIONS + 1, n);
        lemma_key_range(instrs[n - 1].0);
    } else {
        lemma_count_below_empty(instrs, NUMBER_OF_BYTECODE_INSTRUCTIONS + 1);
    }
}

proof fn lemma_count_below_empty(instrs: Seq<(Bytecode, GasCost)>, key: int)
    ensures
        count_below(instrs, key, 0) == 0,
    decreases key,
{
    if key > 1 {
        lemma_count_below_empty(instrs, key - 1);
    }
}

/// Sorting keeps every entry: there are as many sorted costs as entries.
pub proof fn lemma_sorted_costs_len(instrs: Seq<(Bytecode, GasCost)>)
    ensures
        sorted_costs(instrs).len() == instrs.len(),
{
    lemma_sorted_below_count(instrs, NUMBER_OF_BYTECODE_INSTRUCTIONS + 1);
    lemma_count_below_all(instrs, instrs.len() as int);
}

proof fn lemma_bucket_uniform(instrs: Seq<(Bytecode, GasCost)>, key: int, n: int, pred: spec_fn(GasCost) -> bool)
    requires
        0 <= n <= instrs.len(),
        forall|i: int| 0 <= i < instrs.len() ==> pred(#[trigger] instrs[i].1),
    ensures
        forall|j: int|
            0 <= j < costs_with_key_in_prefix(instrs, key, n).len() ==> pred(
                #[trigger] costs_with_key_in_prefix(instrs, key, n)[j],
            ),
    decreases n,
{
    if n > 0 {
        lemma_bucket_uniform(instrs, key, n - 1, pred);
        let rest = costs_with_key_in_prefix(instrs, key, n - 1);
        assert(pred(instrs[n - 1].1));
        assert forall|j: int|
            0 <= j < costs_with_key_in_prefix(instrs, key, n).len() implies pred(
                #[trigger] costs_with_key_in_prefix(instrs, key, n)[j],
            ) by {
            if j < rest.len() {
                assert(pred(rest[j]));
            }
        }
    }
}

/// What holds of every entry's cost holds of every sorted cost.
pub proof fn lemma_sorted_costs_uniform(instrs: Seq<(Bytecode, GasCost)>, key: int, pred: spec_fn(GasCost) -> bool)
    requires
        forall|i: int| 0 <= i < instrs.len() ==> pred(#[trigger] instrs[i].1),
    ensures
        forall|j: int|
            0 <= j < costs_sorted_below(instrs, key).len() ==> pred(
                #[trigger] costs_sorted_below(instrs, key)[j],
            ),
    decreases key,
{
    if key > 1 {
        lemma_sorted_costs_uniform(instrs, key - 1, pred);
        lemma_bucket_uniform(instrs, key - 1, instrs.len() as int, pred);
        let a = costs_sorted_below(instrs, key - 1);
        let b = costs_with_key(instrs, key - 1);
        assert forall|j: int|
            0 <= j < costs_sorted_below(instrs, key).len() implies pred(
                #[trigger] costs_sorted_below(instrs, key)[j],
            ) by {
            if j < a.len() {
                assert(pred(a[j]));
            } else {
                assert(pred(b[j - a.len()]));
            }
        }
    }
}

/// The entries of the zero table, which list every instruction once, cover every instruction.
proof fn lemma_zero_entries_cover(s: Seq<(Bytecode, GasCost)>)
    requires
        s.len() == NUMBER_OF_BYTECODE_INSTRUCTIONS,
        s[0].0.opcode() == 49,
        s[1].0.opcode() == 44,
        s[2].0.opcode() == 48,
        s[3].0.opcode() == 3,
        s[4].0.opcode() == 22,
        s[5].0.opcode() == 25,
        s[6].0.opcode() == 11,
        s[7].0.opcode() == 32,
        s[8].0.opcode() == 51,
        s[9].0.opcode() == 1,
        s[10].0.opcode() == 29,
        s[11].0.opcode() == 21,
        s[12].0.opcode() == 24,
        s[13].0.opcode() == 15,
        s[14].0.opcode() == 16,
        s[15].0.opcode() == 23,
        s[16].0.opcode() == 10,
        s[17].0.opcode() == 12,
        s[18].0.opcode() == 2,
        s[19].0.opcode() == 36,
        s[20].0.opcode() == 6,
        s[21].0.opcode() == 40,
        s[22].0.opcode() == 13,
        s[23].0.opcode() == 14,
        s[24].0.opcode() == 7,
        s[25].0.opcode() == 39,
        s[26].0.opcode() == 30,
        s[27].0.opcode() == 35,
        s[28].0.opcode() == 33,
        s[29].0.opcode() == 18,
        s[30].0.opcode() == 38,
        s[31].0.opcode() == 5,
        s[32].0.opcode() == 20,
        s[33].0.opcode() == 31,
        s[34].0.opcode() == 9,
        s[35].0.opcode() == 8,
        s[36].0.opcode() == 41,
        s[37].0.opcode() == 26,
        s[38].0.opcode() == 4,
        s[39].0.opcode() == 45,
        s[40].0.opcode() == 43,
        s[41].0.opcode() == 28,
        s[42].0.opcode() == 42,
        s[43].0.opcode() == 50,
        s[44].0.opcode() == 52,
        s[45].0.opcode() == 46,
        s[46].0.opcode() == 47,
        s[47].0.opcode() == 27,
        s[48].0.opcode() == 34,
        s[49].0.opcode() == 17,
        s[50].0.opcode() == 37,
        s[51].0.opcode() == 19,
    ensures
        covers_all_instructions(s),
{
    reveal_with_fuel(costs_with_key_in_prefix, 53);
}

/// The cost tables, keyed by the serialized form of the bytecode instruction.
/// The instruction with key `k` has its cost at position `k - 1`.
pub struct CostTable {
    pub instruction_table: Vec<GasCost>,
    pub native_table: Vec<GasCost>,
}

impl CostTable {
    /// Builds the table from instructions paired with their costs, in any order,
    /// and from the native costs, indexed by native function.
    pub fn new(instrs: Vec<(Bytecode, GasCost)>, native_table: Vec<GasCost>) -> (table: Self)
        requires
            covers_all_instructions(instrs@),
        ensures
            table.instruction_table@ == sorted_costs(instrs@),
            table.native_table@ == native_table@,
    {
        let mut instruction_table: Vec<GasCost> = Vec::new();
        let mut key: u8 = 1;
        while (key as usize) <= NUMBER_OF_BYTECODE_INSTRUCTIONS
            invariant
                1 <= key <= NUMBER_OF_BYTECODE_INSTRUCTIONS + 1,
                instruction_table@ == costs_sorted_below(instrs@, key as int),
            decreases NUMBER_OF_BYTECODE_INSTRUCTIONS + 1 - key,
        {
            let mut i: usize = 0;
            while i < instrs.len()
                invariant
                    i <= instrs.len(),
                    1 <= key <= NUMBER_OF_BYTECODE_INSTRUCTIONS,
                    instruction_table@ == costs_sorted_below(instrs@, key as int)
                        + costs_with_key_in_prefix(instrs@, key as int, i as int),
                decreases instrs.len() - i,
            {
                if instruction_key(&instrs[i].0) == key {
                    instruction_table.push(instrs[i].1);
                }
                i += 1;
            }
            key += 1;
        }
        CostTable { instruction_table, native_table }
    }

    /// The cost of the instruction whose key is `instr_index`.
    pub fn instruction_cost(&self, instr_index: u8) -> (cost: &GasCost)
        requires
            1 <= instr_index <= self.instruction_table.len(),
        ensures
            *cost == self.instruction_table@[instr_index - 1],
    {
        &self.instruction_table[(instr_index - 1) as usize]
    }

    /// The cost of the native function `native_index`.
    pub fn native_cost(&self, native_index: NativeCostIndex) -> (cost: &GasCost)
        requires
            native_index.position() < self.native_table.len(),
        ensures
            *cost == self.native_table@[native_index.position()],
    {
        &self.native_table[native_index.index()]
    }

    /// The table entry of `instr`: the one at its key less one.
    pub open spec fn entry_for(self, instr: Bytecode) -> GasCost {
        self.instruction_table@[instr.opcode() - 1]
    }

    /// The gas that `instr` costs on data of size `size_provider`: the table entry
    /// of the instruction, both of its parts multiplied by the size.
    pub fn get_gas(&self, instr: &Bytecode, size_provider: AbstractMemorySize<GasCarrier>) -> (cost: GasCost)
        requires
            instr.opcode() <= self.instruction_table.len(),
            self.entry_for(*instr).instruction_gas.carrier() * size_provider.carrier() <= GasCarrier::MAX,
            self.entry_for(*instr).memory_gas.carrier() * size_provider.carrier() <= GasCarrier::MAX,
        ensures
            cost.instruction_gas.carrier() == self.entry_for(*instr).instruction_gas.carrier()
                * size_provider.carrier(),
            cost.memory_gas.carrier() == self.entry_for(*instr).memory_gas.carrier()
                * size_provider.carrier(),
    {
        // Instruction keys are 1-indexed: the cost of an instruction stands at its key less one.
        let key = instruction_key(instr);
        let good_cost = &self.instruction_table[(key - 1) as usize];
        GasCost {
            instruction_gas: good_cost.instruction_gas.map2(size_provider, carrier_mul),
            memory_gas: good_cost.memory_gas.map2(size_provider, carrier_mul),
        }
    }

    /// A table in which every instruction and every native function costs nothing.
    /// The costs do not matter here; what matters is that every instruction has an entry.
    pub fn zero() -> (table: Self)
        ensures
            table.instruction_table.len() == NUMBER_OF_BYTECODE_INSTRUCTIONS,
            table.native_table.len() == NUMBER_OF_NATIVE_FUNCTIONS,
            forall|i: int| 0 <= i < table.instruction_table.len() ==> {
                &&& (#[trigger] table.instruction_table@[i]).instruction_gas.carrier() == 0
                &&& table.instruction_table@[i].memory_gas.carrier() == 0
            },
            forall|i: int| 0 <= i < table.native_table.len() ==> {
                &&& (#[trigger] table.native_table@[i]).instruction_gas.carrier() == 0
                &&& table.native_table@[i].memory_gas.carrier() == 0
            },
    {
        let instrs = vec![
            (Bytecode::MoveToSender(0, NO_TYPE_ACTUALS), GasCost::new(0, 0)),
            (Bytecode::GetTxnSenderAddress, GasCost::new(0, 0)),
            (Bytecode::MoveFrom(0, NO_TYPE_ACTUALS), GasCost::new(0, 0)),
            (Bytecode::BrTrue(0), GasCost::new(0, 0)),
            (Bytecode::WriteRef, GasCost::new(0, 0)),
            (Bytecode::Mul, GasCost::new(0, 0)),
            (Bytecode::MoveLoc(0), GasCost::new(0, 0)),
            (Bytecode::And, GasCost::new(0, 0)),
            (Bytecode::GetTxnPublicKey, GasCost::new(0, 0)),
            (Bytecode::Pop, GasCost::new(0, 0)),
            (Bytecode::BitAnd, GasCost::new(0, 0)),
            (Bytecode::ReadRef, GasCost::new(0, 0)),
            (Bytecode::Sub, GasCost::new(0, 0)),
            (Bytecode::MutBorrowField(0), GasCost::new(0, 0)),
            (Bytecode::ImmBorrowField(0), GasCost::new(0, 0)),
            (Bytecode::Add, GasCost::new(0, 0)),
            (Bytecode::CopyLoc(0), GasCost::new(0, 0)),
            (Bytecode::StLoc(0), GasCost::new(0, 0)),
            (Bytecode::Ret, GasCost::new(0, 0)),
            (Bytecode::Lt, GasCost::new(0, 0)),
            (Bytecode::LdConst(0), GasCost::new(0, 0)),
            (Bytecode::Abort, GasCost::new(0, 0)),
            (Bytecode::MutBorrowLoc(0), GasCost::new(0, 0)),
            (Bytecode::ImmBorrowLoc(0), GasCost::new(0, 0)),
            (Bytecode::LdAddr(0), GasCost::new(0, 0)),
            (Bytecode::Ge, GasCost::new(0, 0)),
            (Bytecode::Xor, GasCost::new(0, 0)),
            (Bytecode::Neq, GasCost::new(0, 0)),
            (Bytecode::Not, GasCost::new(0, 0)),
            (Bytecode::Call(0, NO_TYPE_ACTUALS), GasCost::new(0, 0)),
            (Bytecode::Le, GasCost::new(0, 0)),
            (Bytecode::Branch(0), GasCost::new(0, 0)),
            (Bytecode::Unpack(0, NO_TYPE_ACTUALS), GasCost::new(0, 0)),
            (Bytecode::Or, GasCost::new(0, 0)),
            (Bytecode::LdFalse, GasCost::new(0, 0)),
            (Bytecode::LdTrue, GasCost::new(0, 0)),
            (Bytecode::GetTxnGasUnitPrice, GasCost::new(0, 0)),
            (Bytecode::Mod, GasCost::new(0, 0)),
            (Bytecode::BrFalse(0), GasCost::new(0, 0)),
            (Bytecode::Exists(0, NO_TYPE_ACTUALS), GasCost::new(0, 0)),
            (Bytecode::GetGasRemaining, GasCost::new(0, 0)),
            (Bytecode::BitOr, GasCost::new(0, 0)),
            (Bytecode::GetTxnMaxGasUnits, GasCost::new(0, 0)),
            (Bytecode::GetTxnSequenceNumber, GasCost::new(0, 0)),
            (Bytecode::FreezeRef, GasCost::new(0, 0)),
            (Bytecode::MutBorrowGlobal(0, NO_TYPE_ACTUALS), GasCost::new(0, 0)),
            (Bytecode::ImmBorrowGlobal(0, NO_TYPE_ACTUALS), GasCost::new(0, 0)),
            (Bytecode::Div, GasCost::new(0, 0)),
            (Bytecode::Eq, GasCost::new(0, 0)),
            (Bytecode::LdByteArray(0), GasCost::new(0, 0)),
            (Bytecode::Gt, GasCost::new(0, 0)),
            (Bytecode::Pack(0, NO_TYPE_ACTUALS), GasCost::new(0, 0)),
        ];
        let mut native_table: Vec<GasCost> = Vec::new();
        let mut n: usize = 0;
        while n < NUMBER_OF_NATIVE_FUNCTIONS
            invariant
                n <= NUMBER_OF_NATIVE_FUNCTIONS,
                native_table.len() == n,
                forall|i: int| 0 <= i < n ==> {
                    &&& (#[trigger] native_table@[i]).instruction_gas.carrier() == 0
                    &&& native_table@[i].memory_gas.carrier() == 0
                },
            decreases NUMBER_OF_NATIVE_FUNCTIONS - n,
        {
            native_table.push(GasCost::new(0, 0));
            n += 1;
        }
        proof {
            lemma_zero_entries_cover(instrs@);
            lemma_sorted_costs_len(instrs@);
            let zero = |c: GasCost| c.instruction_gas.carrier() == 0 && c.memory_gas.carrier() == 0;
            assert forall|i: int| 0 <= i < instrs@.len() implies zero(#[trigger] instrs@[i].1) by {}
            lemma_sorted_costs_uniform(instrs@, NUMBER_OF_BYTECODE_INSTRUCTIONS + 1, zero);
        }
        CostTable::new(instrs, native_table)
    }
}

/// What `get_gas` reads of a table that `new` built: for every instruction, the
/// cost that the entries pair with an instruction of the same kind (the first
/// such entry; the only one, for every key but the last).
pub proof fn lemma_built_table_entry(table: CostTable, instrs: Seq<(Bytecode, GasCost)>, b: Bytecode) -> (i: int)
    requires
        covers_all_instructions(instrs),
        table.instruction_table@ == sorted_costs(instrs),
    ensures
        1 <= b.opcode() <= table.instruction_table.len(),
        0 <= i < instrs.len(),
        instrs[i].0.without_operands() == b.without_operands(),
        table.entry_for(b) == instrs[i].1,
        forall|j: int| 0 <= j < i ==> #[trigger] instrs[j].0.opcode() != b.opcode(),
{
    lemma_key_range(b);
    lemma_sorted_costs_lookup(instrs, b)
}

} // verus!
