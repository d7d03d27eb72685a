//! Instructions and their packing into one 16-bit word: the opcode's code
//! in the top five bits, an eleven-bit operand field below it.

use vstd::prelude::*;
use crate::isa::{
    condition_code, condition_of_code, opcode_code, opcode_of_code, register_code,
    register_of_code, Condition, OpCode, Register,
};

verus! {

/// The operand part of an instruction. `Immediate1Reference` names a label
/// whose address is not known yet; it never reaches the encoder.
#[derive(Clone, Debug)]
pub enum InstructionData {
    NoOperand,
    Immediate1(u16),
    Register2(Register, Register),
    Jump(Condition, Register),
    Immediate1Reference(String),
}

/// The mathematical value of an operand: registers are (target, source),
/// a jump is (condition, register), a reference holds a label's name.
pub enum Payload {
    NoOperand,
    Immediate(u16),
    Registers(Register, Register),
    Jump(Condition, Register),
    Reference(Seq<char>),
}

impl View for InstructionData {
    type V = Payload;

    open spec fn view(&self) -> Payload {
        match self {
            InstructionData::NoOperand => Payload::NoOperand,
            InstructionData::Immediate1(v) => Payload::Immediate(*v),
            InstructionData::Register2(t, s) => Payload::Registers(*t, *s),
            InstructionData::Jump(c, r) => Payload::Jump(*c, *r),
            InstructionData::Immediate1Reference(name) => Payload::Reference(name@),
        }
    }
}

pub struct InstructionModel {
    pub opcode: OpCode,
    pub data: Payload,
}

/// One machine instruction; it always takes one word.
#[derive(Clone, Debug)]
pub struct Instruction {
    pub opcode: OpCode,
    pub data: InstructionData,
}

impl View for Instruction {
    type V = InstructionModel;

    open spec fn view(&self) -> InstructionModel {
        InstructionModel { opcode: self.opcode, data: self.data@ }
    }
}

/// The operand bits of a payload, before they are cut to the field width.
pub open spec fn payload_bits(p: Payload) -> u16 {
    match p {
        Payload::NoOperand => 0,
        Payload::Immediate(v) => v,
        Payload::Registers(t, s) => ((register_code(s) << 3u16) | register_code(t)) as u16,
        Payload::Jump(c, r) => ((register_code(r) << 3u16) | condition_code(c)) as u16,
        Payload::Reference(_) => 0,
    }
}

pub const OPERAND_MASK: u16 = 0x7ff;

/// The word an instruction is encoded as.
pub open spec fn encode_word(i: InstructionModel) -> u16 {
    ((opcode_code(i.opcode) << 11u16) | (payload_bits(i.data) & OPERAND_MASK)) as u16
}

impl InstructionData {
    pub fn encode(&self) -> (r: u16)
        requires
            !(self is Immediate1Reference),
        ensures
            r == payload_bits(self@),
    {
        match self {
            InstructionData::NoOperand => 0x0000,
            InstructionData::Immediate1(value) => *value,
            InstructionData::Register2(target, source) => (source.code() << 3) | target.code(),
            InstructionData::Jump(cond, reg) => (reg.code() << 3) | cond.code(),
            InstructionData::Immediate1Reference(_) => 0,
        }
    }
}

impl Instruction {
    pub fn new(opcode: OpCode, data: InstructionData) -> (r: Instruction)
        ensures
            r.opcode == opcode,
            r.data == data,
    {
        Instruction { opcode, data }
    }

    /// The number of words the instruction takes.
    pub fn size(&self) -> (r: u16)
        ensures
            r == 1,
    {
        1
    }

    pub fn encode(&self) -> (r: u16)
        requires
            !(self.data is Immediate1Reference),
        ensures
            r == encode_word(self@),
    {
        (self.opcode.code() << 11) | (self.data.encode() & OPERAND_MASK)
    }
}

/// Opcodes that take no operand.
pub open spec fn is_implicit(op: OpCode) -> bool {
    op == OpCode::LD || op == OpCode::ST || op == OpCode::AND || op == OpCode::OR
        || op == OpCode::XOR || op == OpCode::NOT || op == OpCode::ADD || op == OpCode::SUB
        || op == OpCode::SL || op == OpCode::SR || op == OpCode::CMP
}

/// Opcodes that take one immediate value.
pub open spec fn is_immediate(op: OpCode) -> bool {
    op == OpCode::LDI || op == OpCode::ANDI || op == OpCode::ORI || op == OpCode::XORI
        || op == OpCode::ADDI || op == OpCode::SLI || op == OpCode::SRI || op == OpCode::CMPI
}

/// An instruction whose operand has the shape its opcode calls for and no
/// pending reference.
pub open spec fn well_shaped(i: InstructionModel) -> bool {
    match i.data {
        Payload::NoOperand => is_implicit(i.opcode),
        Payload::Immediate(_) => is_immediate(i.opcode),
        Payload::Registers(_, _) => i.opcode == OpCode::MOV,
        Payload::Jump(_, _) => i.opcode == OpCode::JMP,
        Payload::Reference(_) => false,
    }
}

/// The opcode in the top five bits of a word.
pub open spec fn decode_opcode(w: u16) -> Option<OpCode> {
    opcode_of_code((w >> 11u16) as u16)
}

/// Reads the operand field of a word back, as the opcode's shape says.
pub open spec fn decode_payload(op: OpCode, w: u16) -> Option<Payload> {
    let f = (w & OPERAND_MASK) as u16;
    let low = (f & 7u16) as u16;
    let high = ((f >> 3u16) & 7u16) as u16;
    if op == OpCode::MOV {
        match (register_of_code(low), register_of_code(high)) {
            (Some(t), Some(s)) => Some(Payload::Registers(t, s)),
            _ => None,
        }
    } else if op == OpCode::JMP {
        match register_of_code(high) {
            Some(r) => Some(Payload::Jump(condition_of_code(low), r)),
            None => None,
        }
    } else if is_immediate(op) {
        Some(Payload::Immediate(f))
    } else {
        Some(Payload::NoOperand)
    }
}

proof fn lemma_fields(c: u16, f: u16)
    requires
        c < 32,
    ensures
        ((((c << 11u16) | (f & 0x7ffu16)) as u16) >> 11u16) as u16 == c,
        (((c << 11u16) | (f & 0x7ffu16)) as u16 & 0x7ffu16) as u16 == f & 0x7ffu16,
{
    assert(((((c << 11u16) | (f & 0x7ffu16)) as u16) >> 11u16) as u16 == c) by (bit_vector)
        requires c < 32u16;
    assert((((c << 11u16) | (f & 0x7ffu16)) as u16 & 0x7ffu16) as u16 == f & 0x7ffu16)
        by (bit_vector);
}

proof fn lemma_pair(hi: u16, lo: u16)
    requires
        hi < 8,
        lo < 8,
    ensures
        (((hi << 3u16) | lo) as u16) < 0x800,
        (((hi << 3u16) | lo) as u16) & 0x7ffu16 == ((hi << 3u16) | lo) as u16,
        ((((hi << 3u16) | lo) as u16) & 7u16) as u16 == lo,
        (((((hi << 3u16) | lo) as u16) >> 3u16) & 7u16) as u16 == hi,
{
    assert((((hi << 3u16) | lo) as u16) < 0x800u16) by (bit_vector)
        requires hi < 8u16, lo < 8u16;
    assert((((hi << 3u16) | lo) as u16) & 0x7ffu16 == ((hi << 3u16) | lo) as u16) by (bit_vector)
        requires hi < 8u16, lo < 8u16;
    assert(((((hi << 3u16) | lo) as u16) & 7u16) as u16 == lo) by (bit_vector)
        requires hi < 8u16, lo < 8u16;
    assert((((((hi << 3u16) | lo) as u16) >> 3u16) & 7u16) as u16 == hi) by (bit_vector)
        requires hi < 8u16, lo < 8u16;
}

/// Encoding and decoding agree: the word of a well-shaped instruction gives
/// back its opcode and its operand, provided an immediate fits in the
/// eleven-bit field.
pub proof fn lemma_encode_decode(i: InstructionModel)
    requires
        well_shaped(i),
        i.data is Immediate ==> (i.data->Immediate_0 as int) < 0x800,
    ensures
        decode_opcode(encode_word(i)) == Some(i.opcode),
        decode_payload(i.opcode, encode_word(i)) == Some(i.data),
{
    let c = opcode_code(i.opcode);
    let f = payload_bits(i.data);
    lemma_fields(c, f);
    let w = encode_word(i);
    assert((w & OPERAND_MASK) as u16 == f & 0x7ffu16);
    match i.data {
        Payload::Registers(t, s) => {
            lemma_pair(register_code(s), register_code(t));
        },
        Payload::Jump(cd, r) => {
            lemma_pair(register_code(r), condition_code(cd));
        },
        Payload::Immediate(v) => {
            assert(v & 0x7ffu16 == v) by (bit_vector)
                requires v < 0x800u16;
        },
        _ => {},
    }
}

/// `mov` packs the source register's code above the target's.
pub proof fn lemma_mov_word(target: Register, source: Register)
    ensures
        decode_opcode(encode_word(InstructionModel { opcode: OpCode::MOV, data: Payload::Registers(target, source) }))
            == Some(OpCode::MOV),
        encode_word(InstructionModel { opcode: OpCode::MOV, data: Payload::Registers(target, source) }) & OPERAND_MASK
            == ((register_code(source) << 3u16) | register_code(target)) as u16,
{
    let i = InstructionModel { opcode: OpCode::MOV, data: Payload::Registers(target, source) };
    lemma_fields(opcode_code(i.opcode), payload_bits(i.data));
    lemma_pair(register_code(source), register_code(target));
}

} // verus!
