//! Bytecode instructions, as far as gas accounting reads them: which kind an
//! instruction is. The operands are carried as plain table indices.

use vstd::prelude::*;
use crate::opcodes;

verus! {

/// An offset into a function's code.
pub type CodeOffset = u16;

/// An index of a local variable.
pub type LocalIndex = u8;

/// An index into the address pool.
pub type AddressPoolIndex = u16;

/// An index into the byte array pool.
pub type ByteArrayPoolIndex = u16;

/// An index into the function handle table.
pub type FunctionHandleIndex = u16;

/// An index into the struct definition table.
pub type StructDefinitionIndex = u16;

/// An index into the field definition table.
pub type FieldDefinitionIndex = u16;

/// An index into the locals signature table (the type actuals of a generic call).
pub type LocalsSignatureIndex = u16;

/// The locals signature index that stands for "no type actuals".
pub const NO_TYPE_ACTUALS: LocalsSignatureIndex = 0;

/// The number of distinct bytecode instructions (and of opcodes).
pub const NUMBER_OF_BYTECODE_INSTRUCTIONS: usize = 52;

/// The number of native functions that have an entry in the native cost table.
pub const NUMBER_OF_NATIVE_FUNCTIONS: usize = 17;

/// A bytecode instruction.
#[derive(Debug, Clone, Copy, Hash, Eq, PartialEq)]
pub enum Bytecode {
    Pop,
    Ret,
    BrTrue(CodeOffset),
    BrFalse(CodeOffset),
    Branch(CodeOffset),
    LdConst(u64),
    LdAddr(AddressPoolIndex),
    LdByteArray(ByteArrayPoolIndex),
    LdTrue,
    LdFalse,
    CopyLoc(LocalIndex),
    MoveLoc(LocalIndex),
    StLoc(LocalIndex),
    Call(FunctionHandleIndex, LocalsSignatureIndex),
    Pack(StructDefinitionIndex, LocalsSignatureIndex),
    Unpack(StructDefinitionIndex, LocalsSignatureIndex),
    ReadRef,
    WriteRef,
    FreezeRef,
    MutBorrowLoc(LocalIndex),
    ImmBorrowLoc(LocalIndex),
    MutBorrowField(FieldDefinitionIndex),
    ImmBorrowField(FieldDefinitionIndex),
    MutBorrowGlobal(StructDefinitionIndex, LocalsSignatureIndex),
    ImmBorrowGlobal(StructDefinitionIndex, LocalsSignatureIndex),
    Add,
    Sub,
    Mul,
    Mod,
    Div,
    BitOr,
    BitAnd,
    Xor,
    Or,
    And,
    Not,
    Eq,
    Neq,
    Lt,
    Gt,
    Le,
    Ge,
    Abort,
    GetTxnGasUnitPrice,
    GetTxnMaxGasUnits,
    GetGasRemaining,
    GetTxnSenderAddress,
    Exists(StructDefinitionIndex, LocalsSignatureIndex),
    MoveFrom(StructDefinitionIndex, LocalsSignatureIndex),
    MoveToSender(StructDefinitionIndex, LocalsSignatureIndex),
    GetTxnSequenceNumber,
    GetTxnPublicKey,
}

impl Bytecode {
    /// The serialized opcode of the instruction, disregarding its operands.
    pub open spec fn opcode(self) -> u8 {
        match self {
            Bytecode::Pop => opcodes::POP,
            Bytecode::Ret => opcodes::RET,
            Bytecode::BrTrue(_) => opcodes::BR_TRUE,
            Bytecode::BrFalse(_) => opcodes::BR_FALSE,
            Bytecode::Branch(_) => opcodes::BRANCH,
            Bytecode::LdConst(_) => opcodes::LD_CONST,
            Bytecode::LdAddr(_) => opcodes::LD_ADDR,
            Bytecode::LdByteArray(_) => opcodes::LD_BYTEARRAY,
            Bytecode::LdTrue => opcodes::LD_TRUE,
            Bytecode::LdFalse => opcodes::LD_FALSE,
            Bytecode::CopyLoc(_) => opcodes::COPY_LOC,
            Bytecode::MoveLoc(_) => opcodes::MOVE_LOC,
            Bytecode::StLoc(_) => opcodes::ST_LOC,
            Bytecode::Call(_, _) => opcodes::CALL,
            Bytecode::Pack(_, _) => opcodes::PACK,
            Bytecode::Unpack(_, _) => opcodes::UNPACK,
            Bytecode::ReadRef => opcodes::READ_REF,
            Bytecode::WriteRef => opcodes::WRITE_REF,
            Bytecode::FreezeRef => opcodes::FREEZE_REF,
            Bytecode::MutBorrowLoc(_) => opcodes::MUT_BORROW_LOC,
            Bytecode::ImmBorrowLoc(_) => opcodes::IMM_BORROW_LOC,
            Bytecode::MutBorrowField(_) => opcodes::MUT_BORROW_FIELD,
            Bytecode::ImmBorrowField(_) => opcodes::IMM_BORROW_FIELD,
            Bytecode::MutBorrowGlobal(_, _) => opcodes::MUT_BORROW_GLOBAL,
            Bytecode::ImmBorrowGlobal(_, _) => opcodes::IMM_BORROW_GLOBAL,
            Bytecode::Add => opcodes::ADD,
            Bytecode::Sub => opcodes::SUB,
            Bytecode::Mul => opcodes::MUL,
            Bytecode::Mod => opcodes::MOD,
            Bytecode::Div => opcodes::DIV,
            Bytecode::BitOr => opcodes::BIT_OR,
            Bytecode::BitAnd => opcodes::BIT_AND,
            Bytecode::Xor => opcodes::XOR,
            Bytecode::Or => opcodes::OR,
            Bytecode::And => opcodes::AND,
            Bytecode::Not => opcodes::NOT,
            Bytecode::Eq => opcodes::EQ,
            Bytecode::Neq => opcodes::NEQ,
            Bytecode::Lt => opcodes::LT,
            Bytecode::Gt => opcodes::GT,
            Bytecode::Le => opcodes::LE,
            Bytecode::Ge => opcodes::GE,
            Bytecode::Abort => opcodes::ABORT,
            Bytecode::GetTxnGasUnitPrice => opcodes::GET_TXN_GAS_UNIT_PRICE,
            Bytecode::GetTxnMaxGasUnits => opcodes::GET_TXN_MAX_GAS_UNITS,
            Bytecode::GetGasRemaining => opcodes::GET_GAS_REMAINING,
            Bytecode::GetTxnSenderAddress => opcodes::GET_TXN_SENDER,
            Bytecode::Exists(_, _) => opcodes::EXISTS,
            Bytecode::MoveFrom(_, _) => opcodes::MOVE_FROM,
            Bytecode::MoveToSender(_, _) => opcodes::MOVE_TO,
            Bytecode::GetTxnSequenceNumber => opcodes::GET_TXN_SEQUENCE_NUMBER,
            Bytecode::GetTxnPublicKey => opcodes::GET_TXN_PUBLIC_KEY,
        }
    }

    /// The same instruction with every operand set to zero.
    pub open spec fn without_operands(self) -> Bytecode {
        match self {
            Bytecode::Pop => Bytecode::Pop,
            Bytecode::Ret => Bytecode::Ret,
            Bytecode::BrTrue(_) => Bytecode::BrTrue(0),
            Bytecode::BrFalse(_) => Bytecode::BrFalse(0),
            Bytecode::Branch(_) => Bytecode::Branch(0),
            Bytecode::LdConst(_) => Bytecode::LdConst(0),
            Bytecode::LdAddr(_) => Bytecode::LdAddr(0),
            Bytecode::LdByteArray(_) => Bytecode::LdByteArray(0),
            Bytecode::LdTrue => Bytecode::LdTrue,
            Bytecode::LdFalse => Bytecode::LdFalse,
            Bytecode::CopyLoc(_) => Bytecode::CopyLoc(0),
            Bytecode::MoveLoc(_) => Bytecode::MoveLoc(0),
            Bytecode::StLoc(_) => Bytecode::StLoc(0),
            Bytecode::Call(_, _) => Bytecode::Call(0, 0),
            Bytecode::Pack(_, _) => Bytecode::Pack(0, 0),
            Bytecode::Unpack(_, _) => Bytecode::Unpack(0, 0),
            Bytecode::ReadRef => Bytecode::ReadRef,
            Bytecode::WriteRef => Bytecode::WriteRef,
            Bytecode::FreezeRef => Bytecode::FreezeRef,
            Bytecode::MutBorrowLoc(_) => Bytecode::MutBorrowLoc(0),
            Bytecode::ImmBorrowLoc(_) => Bytecode::ImmBorrowLoc(0),
            Bytecode::MutBorrowField(_) => Bytecode::MutBorrowField(0),
            Bytecode::ImmBorrowField(_) => Bytecode::ImmBorrowField(0),
            Bytecode::MutBorrowGlobal(_, _) => Bytecode::MutBorrowGlobal(0, 0),
            Bytecode::ImmBorrowGlobal(_, _) => Bytecode::ImmBorrowGlobal(0, 0),
            Bytecode::Add => Bytecode::Add,
            Bytecode::Sub => Bytecode::Sub,
            Bytecode::Mul => Bytecode::Mul,
            Bytecode::Mod => Bytecode::Mod,
            Bytecode::Div => Bytecode::Div,
            Bytecode::BitOr => Bytecode::BitOr,
            Bytecode::BitAnd => Bytecode::BitAnd,
            Bytecode::Xor => Bytecode::Xor,
            Bytecode::Or => Bytecode::Or,
            Bytecode::And => Bytecode::And,
            Bytecode::Not => Bytecode::Not,
            Bytecode::Eq => Bytecode::Eq,
            Bytecode::Neq => Bytecode::Neq,
            Bytecode::Lt => Bytecode::Lt,
            Bytecode::Gt => Bytecode::Gt,
            Bytecode::Le => Bytecode::Le,
            Bytecode::Ge => Bytecode::Ge,
            Bytecode::Abort => Bytecode::Abort,
            Bytecode::GetTxnGasUnitPrice => Bytecode::GetTxnGasUnitPrice,
            Bytecode::GetTxnMaxGasUnits => Bytecode::GetTxnMaxGasUnits,
            Bytecode::GetGasRemaining => Bytecode::GetGasRemaining,
            Bytecode::GetTxnSenderAddress => Bytecode::GetTxnSenderAddress,
            Bytecode::Exists(_, _) => Bytecode::Exists(0, 0),
            Bytecode::MoveFrom(_, _) => Bytecode::MoveFrom(0, 0),
            Bytecode::MoveToSender(_, _) => Bytecode::MoveToSender(0, 0),
            Bytecode::GetTxnSequenceNumber => Bytecode::GetTxnSequenceNumber,
            Bytecode::GetTxnPublicKey => Bytecode::GetTxnPublicKey,
        }
    }
}

/// The encoding of the instruction is its serialized opcode, disregarding the
/// serialization of the instruction's argument(s).
pub fn instruction_key(instruction: &Bytecode) -> (key: u8)
    ensures
        key == instruction.opcode(),
        1 <= key <= NUMBER_OF_BYTECODE_INSTRUCTIONS,
{
    match instruction {
        Bytecode::Pop => opcodes::POP,
        Bytecode::Ret => opcodes::RET,
        Bytecode::BrTrue(_) => opcodes::BR_TRUE,
        Bytecode::BrFalse(_) => opcodes::BR_FALSE,
        Bytecode::Branch(_) => opcodes::BRANCH,
        Bytecode::LdConst(_) => opcodes::LD_CONST,
        Bytecode::LdAddr(_) => opcodes::LD_ADDR,
        Bytecode::LdByteArray(_) => opcodes::LD_BYTEARRAY,
        Bytecode::LdTrue => opcodes::LD_TRUE,
        Bytecode::LdFalse => opcodes::LD_FALSE,
        Bytecode::CopyLoc(_) => opcodes::COPY_LOC,
        Bytecode::MoveLoc(_) => opcodes::MOVE_LOC,
        Bytecode::StLoc(_) => opcodes::ST_LOC,
        Bytecode::Call(_, _) => opcodes::CALL,
        Bytecode::Pack(_, _) => opcodes::PACK,
        Bytecode::Unpack(_, _) => opcodes::UNPACK,
        Bytecode::ReadRef => opcodes::READ_REF,
        Bytecode::WriteRef => opcodes::WRITE_REF,
        Bytecode::FreezeRef => opcodes::FREEZE_REF,
        Bytecode::MutBorrowLoc(_) => opcodes::MUT_BORROW_LOC,
        Bytecode::ImmBorrowLoc(_) => opcodes::IMM_BORROW_LOC,
        Bytecode::MutBorrowField(_) => opcodes::MUT_BORROW_FIELD,
        Bytecode::ImmBorrowField(_) => opcodes::IMM_BORROW_FIELD,
        Bytecode::MutBorrowGlobal(_, _) => opcodes::MUT_BORROW_GLOBAL,
        Bytecode::ImmBorrowGlobal(_, _) => opcodes::IMM_BORROW_GLOBAL,
        Bytecode::Add => opcodes::ADD,
        Bytecode::Sub => opcodes::SUB,
        Bytecode::Mul => opcodes::MUL,
        Bytecode::Mod => opcodes::MOD,
        Bytecode::Div => opcodes::DIV,
        Bytecode::BitOr => opcodes::BIT_OR,
        Bytecode::BitAnd => opcodes::BIT_AND,
        Bytecode::Xor => opcodes::XOR,
        Bytecode::Or => opcodes::OR,
        Bytecode::And => opcodes::AND,
        Bytecode::Not => opcodes::NOT,
        Bytecode::Eq => opcodes::EQ,
        Bytecode::Neq => opcodes::NEQ,
        Bytecode::Lt => opcodes::LT,
        Bytecode::Gt => opcodes::GT,
        Bytecode::Le => opcodes::LE,
        Bytecode::Ge => opcodes::GE,
        Bytecode::Abort => opcodes::ABORT,
        Bytecode::GetTxnGasUnitPrice => opcodes::GET_TXN_GAS_UNIT_PRICE,
        Bytecode::GetTxnMaxGasUnits => opcodes::GET_TXN_MAX_GAS_UNITS,
        Bytecode::GetGasRemaining => opcodes::GET_GAS_REMAINING,
        Bytecode::GetTxnSenderAddress => opcodes::GET_TXN_SENDER,
        Bytecode::Exists(_, _) => opcodes::EXISTS,
        Bytecode::MoveFrom(_, _) => opcodes::MOVE_FROM,
        Bytecode::MoveToSender(_, _) => opcodes::MOVE_TO,
        Bytecode::GetTxnSequenceNumber => opcodes::GET_TXN_SEQUENCE_NUMBER,
        Bytecode::GetTxnPublicKey => opcodes::GET_TXN_PUBLIC_KEY,
    }
}

/// Two instructions have the same key exactly when they differ in their operands
/// alone: the key identifies the kind of instruction and nothing more.
pub proof fn lemma_key_disregards_operands(a: Bytecode, b: Bytecode)
    ensures
        (a.opcode() == b.opcode()) <==> (a.without_operands() == b.without_operands()),
{
}

/// Every key lies between one and the number of instructions.
pub proof fn lemma_key_range(b: Bytecode)
    ensures
        1 <= b.opcode() <= NUMBER_OF_BYTECODE_INSTRUCTIONS,
{
}

/// An instruction of each key, with every operand zero.
pub open spec fn instruction_with_key(key: int) -> Bytecode {
    if key == opcodes::POP {
        Bytecode::Pop
    } else if key == opcodes::RET {
        Bytecode::Ret
    } else if key == opcodes::BR_TRUE {
        Bytecode::BrTrue(0)
    } else if key == opcodes::BR_FALSE {
        Bytecode::BrFalse(0)
    } else if key == opcodes::BRANCH {
        Bytecode::Branch(0)
    } else if key == opcodes::LD_CONST {
        Bytecode::LdConst(0)
    } else if key == opcodes::LD_ADDR {
        Bytecode::LdAddr(0)
    } else if key == opcodes::LD_TRUE {
        Bytecode::LdTrue
    } else if key == opcodes::LD_FALSE {
        Bytecode::LdFalse
    } else if key == opcodes::COPY_LOC {
        Bytecode::CopyLoc(0)
    } else if key == opcodes::MOVE_LOC {
        Bytecode::MoveLoc(0)
    } else if key == opcodes::ST_LOC {
        Bytecode::StLoc(0)
    } else if key == opcodes::MUT_BORROW_LOC {
        Bytecode::MutBorrowLoc(0)
    } else if key == opcodes::IMM_BORROW_LOC {
        Bytecode::ImmBorrowLoc(0)
    } else if key == opcodes::MUT_BORROW_FIELD {
        Bytecode::MutBorrowField(0)
    } else if key == opcodes::IMM_BORROW_FIELD {
        Bytecode::ImmBorrowField(0)
    } else if key == opcodes::LD_BYTEARRAY {
        Bytecode::LdByteArray(0)
    } else if key == opcodes::CALL {
        Bytecode::Call(0, 0)
    } else if key == opcodes::PACK {
        Bytecode::Pack(0, 0)
    } else if key == opcodes::UNPACK {
        Bytecode::Unpack(0, 0)
    } else if key == opcodes::READ_REF {
        Bytecode::ReadRef
    } else if key == opcodes::WRITE_REF {
        Bytecode::WriteRef
    } else if key == opcodes::ADD {
        Bytecode::Add
    } else if key == opcodes::SUB {
        Bytecode::Sub
    } else if key == opcodes::MUL {
        Bytecode::Mul
    } else if key == opcodes::MOD {
        Bytecode::Mod
    } else if key == opcodes::DIV {
        Bytecode::Div
    } else if key == opcodes::BIT_OR {
        Bytecode::BitOr
    } else if key == opcodes::BIT_AND {
        Bytecode::BitAnd
    } else if key == opcodes::XOR {
        Bytecode::Xor
    } else if key == opcodes::OR {
        Bytecode::Or
    } else if key == opcodes::AND {
        Bytecode::And
    } else if key == opcodes::NOT {
        Bytecode::Not
    } else if key == opcodes::EQ {
        Bytecode::Eq
    } else if key == opcodes::NEQ {
        Bytecode::Neq
    } else if key == opcodes::LT {
        Bytecode::Lt
    } else if key == opcodes::GT {
        Bytecode::Gt
    } else if key == opcodes::LE {
        Bytecode::Le
    } else if key == opcodes::GE {
        Bytecode::Ge
    } else if key == opcodes::ABORT {
        Bytecode::Abort
    } else if key == opcodes::GET_TXN_GAS_UNIT_PRICE {
        Bytecode::GetTxnGasUnitPrice
    } else if key == opcodes::GET_TXN_MAX_GAS_UNITS {
        Bytecode::GetTxnMaxGasUnits
    } else if key == opcodes::GET_GAS_REMAINING {
        Bytecode::GetGasRemaining
    } else if key == opcodes::GET_TXN_SENDER {
        Bytecode::GetTxnSenderAddress
    } else if key == opcodes::EXISTS {
        Bytecode::Exists(0, 0)
    } else if key == opcodes::MUT_BORROW_GLOBAL {
        Bytecode::MutBorrowGlobal(0, 0)
    } else if key == opcodes::IMM_BORROW_GLOBAL {
        Bytecode::ImmBorrowGlobal(0, 0)
    } else if key == opcodes::MOVE_FROM {
        Bytecode::MoveFrom(0, 0)
    } else if key == opcodes::MOVE_TO {
        Bytecode::MoveToSender(0, 0)
    } else if key == opcodes::GET_TXN_SEQUENCE_NUMBER {
        Bytecode::GetTxnSequenceNumber
    } else if key == opcodes::GET_TXN_PUBLIC_KEY {
        Bytecode::GetTxnPublicKey
    } else {
        Bytecode::FreezeRef
    }
}

/// Keys have no gaps: every number from one to the number of instructions is
/// the key of some instruction.
pub proof fn lemma_every_key_used(key: int)
    requires
        1 <= key <= NUMBER_OF_BYTECODE_INSTRUCTIONS,
    ensures
        instruction_with_key(key).opcode() == key,
{
}

/// The key of every kind of instruction, whatever its operands: `Pop` is 1,
/// `Ret` 2, and so on to `FreezeRef`, 52.
pub proof fn lemma_key_of_each_instruction()
    ensures
        Bytecode::Pop.opcode() == 1,
        Bytecode::Ret.opcode() == 2,
        forall|x: CodeOffset| #![auto] Bytecode::BrTrue(x).opcode() == 3,
        forall|x: CodeOffset| #![auto] Bytecode::BrFalse(x).opcode() == 4,
        forall|x: CodeOffset| #![auto] Bytecode::Branch(x).opcode() == 5,
        forall|x: u64| #![auto] Bytecode::LdConst(x).opcode() == 6,
        forall|x: AddressPoolIndex| #![auto] Bytecode::LdAddr(x).opcode() == 7,
        Bytecode::LdTrue.opcode() == 8,
        Bytecode::LdFalse.opcode() == 9,
        forall|x: LocalIndex| #![auto] Bytecode::CopyLoc(x).opcode() == 10,
        forall|x: LocalIndex| #![auto] Bytecode::MoveLoc(x).opcode() == 11,
        forall|x: LocalIndex| #![auto] Bytecode::StLoc(x).opcode() == 12,
        forall|x: LocalIndex| #![auto] Bytecode::MutBorrowLoc(x).opcode() == 13,
        forall|x: LocalIndex| #![auto] Bytecode::ImmBorrowLoc(x).opcode() == 14,
        forall|x: FieldDefinitionIndex| #![auto] Bytecode::MutBorrowField(x).opcode() == 15,
        forall|x: FieldDefinitionIndex| #![auto] Bytecode::ImmBorrowField(x).opcode() == 16,
        forall|x: ByteArrayPoolIndex| #![auto] Bytecode::LdByteArray(x).opcode() == 17,
        forall|x: FunctionHandleIndex, y: LocalsSignatureIndex| #![auto] Bytecode::Call(x, y).opcode() == 18,
        forall|x: StructDefinitionIndex, y: LocalsSignatureIndex| #![auto] Bytecode::Pack(x, y).opcode() == 19,
        forall|x: StructDefinitionIndex, y: LocalsSignatureIndex| #![auto] Bytecode::Unpack(x, y).opcode() == 20,
        Bytecode::ReadRef.opcode() == 21,
        Bytecode::WriteRef.opcode() == 22,
        Bytecode::Add.opcode() == 23,
        Bytecode::Sub.opcode() == 24,
        Bytecode::Mul.opcode() == 25,
        Bytecode::Mod.opcode() == 26,
        Bytecode::Div.opcode() == 27,
        Bytecode::BitOr.opcode() == 28,
        Bytecode::BitAnd.opcode() == 29,
        Bytecode::Xor.opcode() == 30,
        Bytecode::Or.opcode() == 31,
        Bytecode::And.opcode() == 32,
        Bytecode::Not.opcode() == 33,
        Bytecode::Eq.opcode() == 34,
        Bytecode::Neq.opcode() == 35,
        Bytecode::Lt.opcode() == 36,
        Bytecode::Gt.opcode() == 37,
        Bytecode::Le.opcode() == 38,
        Bytecode::Ge.opcode() == 39,
        Bytecode::Abort.opcode() == 40,
        Bytecode::GetTxnGasUnitPrice.opcode() == 41,
        Bytecode::GetTxnMaxGasUnits.opcode() == 42,
        Bytecode::GetGasRemaining.opcode() == 43,
        Bytecode::GetTxnSenderAddress.opcode() == 44,
        forall|x: StructDefinitionIndex, y: LocalsSignatureIndex| #![auto] Bytecode::Exists(x, y).opcode() == 45,
        forall|x: StructDefinitionIndex, y: LocalsSignatureIndex| #![auto] Bytecode::MutBorrowGlobal(x, y).opcode() == 46,
        forall|x: StructDefinitionIndex, y: LocalsSignatureIndex| #![auto] Bytecode::ImmBorrowGlobal(x, y).opcode() == 47,
        forall|x: StructDefinitionIndex, y: LocalsSignatureIndex| #![auto] Bytecode::MoveFrom(x, y).opcode() == 48,
        forall|x: StructDefinitionIndex, y: LocalsSignatureIndex| #![auto] Bytecode::MoveToSender(x, y).opcode() == 49,
        Bytecode::GetTxnSequenceNumber.opcode() == 50,
        Bytecode::GetTxnPublicKey.opcode() == 51,
        Bytecode::FreezeRef.opcode() == 52,
{
}

} // verus!
