//! The serialized opcode of each bytecode instruction. Opcodes are numbered
//! from one, with no gaps, so that an opcode less one indexes a cost table.

use vstd::prelude::*;

verus! {

pub const POP: u8 = 0x01;

pub const RET: u8 = 0x02;

pub const BR_TRUE: u8 = 0x03;

pub const BR_FALSE: u8 = 0x04;

pub const BRANCH: u8 = 0x05;

pub const LD_CONST: u8 = 0x06;

pub const LD_ADDR: u8 = 0x07;

pub const LD_TRUE: u8 = 0x08;

pub const LD_FALSE: u8 = 0x09;

pub const COPY_LOC: u8 = 0x0A;

pub const MOVE_LOC: u8 = 0x0B;

pub const ST_LOC: u8 = 0x0C;

pub const MUT_BORROW_LOC: u8 = 0x0D;

pub const IMM_BORROW_LOC: u8 = 0x0E;

pub const MUT_BORROW_FIELD: u8 = 0x0F;

pub const IMM_BORROW_FIELD: u8 = 0x10;

pub const LD_BYTEARRAY: u8 = 0x11;

pub const CALL: u8 = 0x12;

pub const PACK: u8 = 0x13;

pub const UNPACK: u8 = 0x14;

pub const READ_REF: u8 = 0x15;

pub const WRITE_REF: u8 = 0x16;

pub const ADD: u8 = 0x17;

pub const SUB: u8 = 0x18;

pub const MUL: u8 = 0x19;

pub const MOD: u8 = 0x1A;

pub const DIV: u8 = 0x1B;

pub const BIT_OR: u8 = 0x1C;

pub const BIT_AND: u8 = 0x1D;

pub const XOR: u8 = 0x1E;

pub const OR: u8 = 0x1F;

pub const AND: u8 = 0x20;

pub const NOT: u8 = 0x21;

pub const EQ: u8 = 0x22;

pub const NEQ: u8 = 0x23;

pub const LT: u8 = 0x24;

pub const GT: u8 = 0x25;

pub const LE: u8 = 0x26;

pub const GE: u8 = 0x27;

pub const ABORT: u8 = 0x28;

pub const GET_TXN_GAS_UNIT_PRICE: u8 = 0x29;

pub const GET_TXN_MAX_GAS_UNITS: u8 = 0x2A;

pub const GET_GAS_REMAINING: u8 = 0x2B;

pub const GET_TXN_SENDER: u8 = 0x2C;

pub const EXISTS: u8 = 0x2D;

pub const MUT_BORROW_GLOBAL: u8 = 0x2E;

pub const IMM_BORROW_GLOBAL: u8 = 0x2F;

pub const MOVE_FROM: u8 = 0x30;

pub const MOVE_TO: u8 = 0x31;

pub const GET_TXN_SEQUENCE_NUMBER: u8 = 0x32;

pub const GET_TXN_PUBLIC_KEY: u8 = 0x33;

pub const FREEZE_REF: u8 = 0x34;

} // verus!
