use vm_gas::algebra::{AbstractMemorySize, GasCarrier, HasGasCarrier};
use vm_gas::bytecode::{instruction_key, Bytecode, NO_TYPE_ACTUALS, NUMBER_OF_BYTECODE_INSTRUCTIONS, NUMBER_OF_NATIVE_FUNCTIONS};
use vm_gas::cost::{CostTable, GasCost, NativeCostIndex};
use vm_gas::opcodes;

fn all_instructions() -> Vec<Bytecode> {
    vec![
        Bytecode::Pop,
        Bytecode::Ret,
        Bytecode::BrTrue(3),
        Bytecode::BrFalse(4),
        Bytecode::Branch(5),
        Bytecode::LdConst(6),
        Bytecode::LdAddr(7),
        Bytecode::LdByteArray(8),
        Bytecode::LdTrue,
        Bytecode::LdFalse,
        Bytecode::CopyLoc(1),
        Bytecode::MoveLoc(2),
        Bytecode::StLoc(3),
        Bytecode::Call(1, NO_TYPE_ACTUALS),
        Bytecode::Pack(2, 1),
        Bytecode::Unpack(3, 2),
        Bytecode::ReadRef,
        Bytecode::WriteRef,
        Bytecode::FreezeRef,
        Bytecode::MutBorrowLoc(4),
        Bytecode::ImmBorrowLoc(5),
        Bytecode::MutBorrowField(6),
        Bytecode::ImmBorrowField(7),
        Bytecode::MutBorrowGlobal(8, 0),
        Bytecode::ImmBorrowGlobal(9, 0),
        Bytecode::Add,
        Bytecode::Sub,
        Bytecode::Mul,
        Bytecode::Mod,
        Bytecode::Div,
        Bytecode::BitOr,
        Bytecode::BitAnd,
        Bytecode::Xor,
        Bytecode::Or,
        Bytecode::And,
        Bytecode::Not,
        Bytecode::Eq,
        Bytecode::Neq,
        Bytecode::Lt,
        Bytecode::Gt,
        Bytecode::Le,
        Bytecode::Ge,
        Bytecode::Abort,
        Bytecode::GetTxnGasUnitPrice,
        Bytecode::GetTxnMaxGasUnits,
        Bytecode::GetGasRemaining,
        Bytecode::GetTxnSenderAddress,
        Bytecode::Exists(1, 0),
        Bytecode::MoveFrom(2, 0),
        Bytecode::MoveToSender(3, 0),
        Bytecode::GetTxnSequenceNumber,
        Bytecode::GetTxnPublicKey,
    ]
}

/// A distinct cost for each instruction, derived from its position in `all_instructions`.
fn cost_of_position(i: usize) -> GasCost {
    GasCost::new(100 + i as u64, 1000 + 2 * i as u64)
}

/// The instructions with their costs, in an order different from that of their keys.
fn shuffled_entries() -> Vec<(Bytecode, GasCost)> {
    let instrs = all_instructions();
    let n = instrs.len();
    (0..n).map(|j| {
        let i = (j * 5 + 3) % n;
        (instrs[i], cost_of_position(i))
    }).collect()
}

#[test]
fn keys_are_one_to_number_of_instructions_without_gaps() {
    let mut keys: Vec<u8> = all_instructions().iter().map(instruction_key).collect();
    keys.sort();
    let expected: Vec<u8> = (1..=NUMBER_OF_BYTECODE_INSTRUCTIONS as u8).collect();
    assert_eq!(keys, expected);
}

#[test]
fn keys_disregard_operands() {
    assert_eq!(instruction_key(&Bytecode::BrTrue(0)), instruction_key(&Bytecode::BrTrue(900)));
    assert_eq!(instruction_key(&Bytecode::Pack(0, 0)), instruction_key(&Bytecode::Pack(7, 3)));
    assert_ne!(instruction_key(&Bytecode::BrTrue(0)), instruction_key(&Bytecode::BrFalse(0)));
    assert_ne!(instruction_key(&Bytecode::Pack(1, 1)), instruction_key(&Bytecode::Unpack(1, 1)));
}

#[test]
fn keys_are_the_opcodes() {
    assert_eq!(instruction_key(&Bytecode::Pop), opcodes::POP);
    assert_eq!(instruction_key(&Bytecode::Pop), 1);
    assert_eq!(instruction_key(&Bytecode::Ret), 2);
    assert_eq!(instruction_key(&Bytecode::LdConst(9)), opcodes::LD_CONST);
    assert_eq!(instruction_key(&Bytecode::MoveToSender(0, 0)), opcodes::MOVE_TO);
    assert_eq!(instruction_key(&Bytecode::GetTxnSenderAddress), opcodes::GET_TXN_SENDER);
    assert_eq!(instruction_key(&Bytecode::FreezeRef), NUMBER_OF_BYTECODE_INSTRUCTIONS as u8);
}

#[test]
fn new_places_each_cost_at_its_key() {
    let table = CostTable::new(shuffled_entries(), vec![GasCost::new(1, 2)]);
    assert_eq!(table.instruction_table.len(), NUMBER_OF_BYTECODE_INSTRUCTIONS);
    for (i, instr) in all_instructions().iter().enumerate() {
        let cost = table.instruction_cost(instruction_key(instr));
        assert_eq!(cost.instruction_gas.get(), 100 + i as u64);
        assert_eq!(cost.memory_gas.get(), 1000 + 2 * i as u64);
    }
    assert_eq!(table.native_table.len(), 1);
}

#[test]
fn new_keeps_the_first_of_repeated_last_keys() {
    let mut entries = shuffled_entries();
    let last = Bytecode::FreezeRef;
    entries.push((last, GasCost::new(5, 5)));
    let table = CostTable::new(entries, vec![]);
    assert_eq!(table.instruction_table.len(), NUMBER_OF_BYTECODE_INSTRUCTIONS + 1);
    let at_key = table.instruction_cost(instruction_key(&last));
    assert_eq!(at_key.instruction_gas.get(), 100 + 18);
    assert_eq!(table.instruction_table[NUMBER_OF_BYTECODE_INSTRUCTIONS].instruction_gas.get(), 5);
}

#[test]
fn get_gas_multiplies_the_entry_by_the_size() {
    let table = CostTable::new(shuffled_entries(), vec![]);
    let size: AbstractMemorySize<GasCarrier> = AbstractMemorySize::new(3);
    for (i, instr) in all_instructions().iter().enumerate() {
        let gas = table.get_gas(instr, size);
        assert_eq!(gas.instruction_gas.get(), 3 * (100 + i as u64));
        assert_eq!(gas.memory_gas.get(), 3 * (1000 + 2 * i as u64));
    }
    let none: AbstractMemorySize<GasCarrier> = AbstractMemorySize::new(0);
    let gas = table.get_gas(&Bytecode::Add, none);
    assert_eq!(gas.instruction_gas.get(), 0);
    assert_eq!(gas.memory_gas.get(), 0);
}

#[test]
fn get_gas_disregards_operands() {
    let table = CostTable::new(shuffled_entries(), vec![]);
    let size: AbstractMemorySize<GasCarrier> = AbstractMemorySize::new(2);
    let a = table.get_gas(&Bytecode::Call(0, 0), size);
    let b = table.get_gas(&Bytecode::Call(40, 9), size);
    assert_eq!(a.instruction_gas, b.instruction_gas);
    assert_eq!(a.memory_gas, b.memory_gas);
}

#[test]
fn zero_costs_nothing() {
    let table = CostTable::zero();
    assert_eq!(table.instruction_table.len(), NUMBER_OF_BYTECODE_INSTRUCTIONS);
    assert_eq!(table.native_table.len(), NUMBER_OF_NATIVE_FUNCTIONS);
    let size: AbstractMemorySize<GasCarrier> = AbstractMemorySize::new(1_000);
    for instr in all_instructions() {
        let gas = table.get_gas(&instr, size);
        assert_eq!(gas.instruction_gas.get(), 0);
        assert_eq!(gas.memory_gas.get(), 0);
    }
    let native = table.native_cost(NativeCostIndex::SAVE_ACCOUNT);
    assert_eq!(native.total().get(), 0);
}

#[test]
fn native_cost_is_indexed_by_native_function() {
    let natives: Vec<GasCost> = (0..NUMBER_OF_NATIVE_FUNCTIONS as u64).map(|i| GasCost::new(i, 2 * i)).collect();
    let table = CostTable::new(shuffled_entries(), natives);
    assert_eq!(table.native_cost(NativeCostIndex::SHA2_256).instruction_gas.get(), 0);
    assert_eq!(table.native_cost(NativeCostIndex::LENGTH).instruction_gas.get(), 7);
    assert_eq!(table.native_cost(NativeCostIndex::SWAP).memory_gas.get(), 28);
    assert_eq!(table.native_cost(NativeCostIndex::SAVE_ACCOUNT).instruction_gas.get(), 16);
    assert_eq!(NativeCostIndex::WRITE_TO_EVENT_STORE.index(), 15);
}

#[test]
fn gas_cost_total_adds_its_parts() {
    let cost = GasCost::new(30, 12);
    assert_eq!(cost.instruction_gas.get(), 30);
    assert_eq!(cost.memory_gas.get(), 12);
    assert_eq!(cost.total().get(), 42);
    assert_eq!(GasCost::new(0, 0).total().get(), 0);
}
