//! Turns a mnemonic and its operand tokens into an instruction, or into
//! the diagnostic that says what is wrong with them.

use vstd::prelude::*;
use crate::error::{AssemblerError, Failure};
use crate::instruction::{Instruction, InstructionData, InstructionModel, Payload};
use crate::isa::{
    ascii_lower, condition_named, register_named, same_text, to_ascii_lowercase, Condition,
    OpCode, Register,
};
use crate::literal::{literal_value, parse_u16};

verus! {

/// Whether a character is alphabetic in Unicode's sense.
pub uninterp spec fn alphabetic(c: char) -> bool;

/// Relies on `char::is_alphabetic`: whether `c` has Unicode's `Alphabetic`
/// property.
#[verifier::external_body]
fn is_alphabetic(c: char) -> (r: bool)
    ensures
        r == alphabetic(c),
{
    c.is_alphabetic()
}

/// The mnemonics that take no operand.
pub open spec fn implicit_named(m: Seq<char>) -> Option<OpCode> {
    if m == "ld"@ { Some(OpCode::LD) }
    else if m == "st"@ { Some(OpCode::ST) }
    else if m == "and"@ { Some(OpCode::AND) }
    else if m == "or"@ { Some(OpCode::OR) }
    else if m == "xor"@ { Some(OpCode::XOR) }
    else if m == "not"@ { Some(OpCode::NOT) }
    else if m == "add"@ { Some(OpCode::ADD) }
    else if m == "sub"@ { Some(OpCode::SUB) }
    else if m == "sl"@ { Some(OpCode::SL) }
    else if m == "sr"@ { Some(OpCode::SR) }
    else if m == "cmp"@ { Some(OpCode::CMP) }
    else { None }
}

/// The mnemonics that take one immediate value.
pub open spec fn immediate_named(m: Seq<char>) -> Option<OpCode> {
    if m == "ldi"@ { Some(OpCode::LDI) }
    else if m == "andi"@ { Some(OpCode::ANDI) }
    else if m == "ori"@ { Some(OpCode::ORI) }
    else if m == "xori"@ { Some(OpCode::XORI) }
    else if m == "addi"@ { Some(OpCode::ADDI) }
    else if m == "sli"@ { Some(OpCode::SLI) }
    else if m == "sri"@ { Some(OpCode::SRI) }
    else if m == "cmpi"@ { Some(OpCode::CMPI) }
    else { None }
}

/// The operand of an immediate instruction: for `ldi` a token that begins
/// with a letter names a label, anything else must be a numeric literal.
pub open spec fn immediate_operand(n: usize, op: OpCode, v: Seq<char>) -> Result<Payload, Failure> {
    if op == OpCode::LDI && v.len() > 0 && alphabetic(v[0]) {
        Ok(Payload::Reference(v))
    } else {
        match literal_value(v) {
            Some(x) => Ok(Payload::Immediate(x)),
            None => Err(Failure::InvalidIntegerLiteral(n, v)),
        }
    }
}

pub open spec fn is_jump(m: Seq<char>) -> bool {
    m == "jmp"@ || (m.len() >= 4 && m.take(4) == "jmp."@)
}

/// The condition of a jump mnemonic: none for bare `jmp`, else its suffix.
pub open spec fn jump_condition(m: Seq<char>) -> Option<Condition> {
    if m == "jmp"@ {
        Some(Condition::Always)
    } else {
        condition_named(m.skip(4))
    }
}

/// The instruction that a line with mnemonic `mnemonic` and the operand
/// tokens `ops` stands for, or its first error, on line `n`.
pub open spec fn build_spec(n: usize, mnemonic: Seq<char>, ops: Seq<Seq<char>>) -> Result<InstructionModel, Failure> {
    let m = ascii_lower(mnemonic);
    if m == "mov"@ {
        if ops.len() < 1 {
            Err(Failure::MissingOperand(n, "target register"@))
        } else if ops.len() < 2 {
            Err(Failure::MissingOperand(n, "source register"@))
        } else if ops.len() > 2 {
            Err(Failure::TooManyOperands(n))
        } else {
            match (register_named(ops[0]), register_named(ops[1])) {
                (None, _) => Err(Failure::InvalidRegister(n, ops[0])),
                (Some(_), None) => Err(Failure::InvalidRegister(n, ops[1])),
                (Some(t), Some(s)) => Ok(InstructionModel { opcode: OpCode::MOV, data: Payload::Registers(t, s) }),
            }
        }
    } else if implicit_named(m) is Some {
        if ops.len() > 0 {
            Err(Failure::TooManyOperands(n))
        } else {
            Ok(InstructionModel { opcode: implicit_named(m)->Some_0, data: Payload::NoOperand })
        }
    } else if immediate_named(m) is Some {
        let op = immediate_named(m)->Some_0;
        if ops.len() < 1 {
            Err(Failure::MissingOperand(n, "value"@))
        } else if ops.len() > 1 {
            Err(Failure::TooManyOperands(n))
        } else {
            match immediate_operand(n, op, ops[0]) {
                Ok(p) => Ok(InstructionModel { opcode: op, data: p }),
                Err(e) => Err(e),
            }
        }
    } else if is_jump(m) {
        match jump_condition(m) {
            None => Err(Failure::InvalidCondition(n, m)),
            Some(c) => if ops.len() < 1 {
                Err(Failure::MissingOperand(n, "source register"@))
            } else if ops.len() > 1 {
                Err(Failure::TooManyOperands(n))
            } else {
                match register_named(ops[0]) {
                    None => Err(Failure::InvalidRegister(n, ops[0])),
                    Some(r) => Ok(InstructionModel { opcode: OpCode::JMP, data: Payload::Jump(c, r) }),
                }
            },
        }
    } else {
        Err(Failure::InvalidInstruction(n, m))
    }
}

fn implicit_opcode(m: &str) -> (r: Option<OpCode>)
    ensures
        r == implicit_named(m@),
{
    if same_text(m, "ld") { Some(OpCode::LD) }
    else if same_text(m, "st") { Some(OpCode::ST) }
    else if same_text(m, "and") { Some(OpCode::AND) }
    else if same_text(m, "or") { Some(OpCode::OR) }
    else if same_text(m, "xor") { Some(OpCode::XOR) }
    else if same_text(m, "not") { Some(OpCode::NOT) }
    else if same_text(m, "add") { Some(OpCode::ADD) }
    else if same_text(m, "sub") { Some(OpCode::SUB) }
    else if same_text(m, "sl") { Some(OpCode::SL) }
    else if same_text(m, "sr") { Some(OpCode::SR) }
    else if same_text(m, "cmp") { Some(OpCode::CMP) }
    else { None }
}

fn immediate_opcode(m: &str) -> (r: Option<OpCode>)
    ensures
        r == immediate_named(m@),
{
    if same_text(m, "ldi") { Some(OpCode::LDI) }
    else if same_text(m, "andi") { Some(OpCode::ANDI) }
    else if same_text(m, "ori") { Some(OpCode::ORI) }
    else if same_text(m, "xori") { Some(OpCode::XORI) }
    else if same_text(m, "addi") { Some(OpCode::ADDI) }
    else if same_text(m, "sli") { Some(OpCode::SLI) }
    else if same_text(m, "sri") { Some(OpCode::SRI) }
    else if same_text(m, "cmpi") { Some(OpCode::CMPI) }
    else { None }
}

fn register_operand(line_number: usize, text: &String) -> (r: Result<Register, AssemblerError>)
    ensures
        match r {
            Ok(reg) => register_named(text@) == Some(reg),
            Err(e) => register_named(text@) is None && e@ == Failure::InvalidRegister(line_number, text@),
        },
{
    match Register::from_str(text.as_str()) {
        Some(reg) => Ok(reg),
        None => Err(AssemblerError::InvalidRegister(line_number, text.clone())),
    }
}

fn value_operand(line_number: usize, op: OpCode, text: &String) -> (r: Result<InstructionData, AssemblerError>)
    ensures
        match r {
            Ok(d) => immediate_operand(line_number, op, text@) == Ok::<Payload, Failure>(d@),
            Err(e) => immediate_operand(line_number, op, text@) == Err::<Payload, Failure>(e@),
        },
{
    let s = text.as_str();
    if op == OpCode::LDI && s.unicode_len() > 0 && is_alphabetic(s.get_char(0)) {
        return Ok(InstructionData::Immediate1Reference(text.clone()));
    }
    match parse_u16(s) {
        Ok(v) => Ok(InstructionData::Immediate1(v)),
        Err(err) => Err(AssemblerError::InvalidIntegerLiteral(line_number, text.clone(), err)),
    }
}

/// Builds the instruction for one mnemonic and its operand tokens.
pub fn build_instruction(line_number: usize, mnemonic: &str, operands: &Vec<String>) -> (r: Result<Instruction, AssemblerError>)
    ensures
        match r {
            Ok(i) => build_spec(line_number, mnemonic@, operands@.map_values(|o: String| o@)) == Ok::<InstructionModel, Failure>(i@),
            Err(e) => build_spec(line_number, mnemonic@, operands@.map_values(|o: String| o@)) == Err::<InstructionModel, Failure>(e@),
        },
{
    let ghost ops = operands@.map_values(|o: String| o@);
    assert(ops.len() == operands@.len());
    let lower = to_ascii_lowercase(mnemonic);
    let m = lower.as_str();
    let count = operands.len();
    if same_text(m, "mov") {
        if count < 1 {
            return Err(AssemblerError::MissingOperand(line_number, String::from_str("target register")));
        }
        if count < 2 {
            return Err(AssemblerError::MissingOperand(line_number, String::from_str("source register")));
        }
        if count > 2 {
            return Err(AssemblerError::TooManyOperands(line_number));
        }
        assert(ops[0] == operands[0]@ && ops[1] == operands[1]@);
        let target = register_operand(line_number, &operands[0])?;
        let source = register_operand(line_number, &operands[1])?;
        return Ok(Instruction::new(OpCode::MOV, InstructionData::Register2(target, source)));
    }
    if let Some(op) = implicit_opcode(m) {
        if count > 0 {
            return Err(AssemblerError::TooManyOperands(line_number));
        }
        return Ok(Instruction::new(op, InstructionData::NoOperand));
    }
    if let Some(op) = immediate_opcode(m) {
        if count < 1 {
            return Err(AssemblerError::MissingOperand(line_number, String::from_str("value")));
        }
        if count > 1 {
            return Err(AssemblerError::TooManyOperands(line_number));
        }
        assert(ops[0] == operands[0]@);
        let data = value_operand(line_number, op, &operands[0])?;
        return Ok(Instruction::new(op, data));
    }
    let len = m.unicode_len();
    let bare = same_text(m, "jmp");
    let dotted = len >= 4 && same_text(m.substring_char(0, 4), "jmp.");
    if bare || dotted {
        let cond = if bare {
            Condition::Always
        } else {
            match Condition::from_suffix(m.substring_char(4, len)) {
                Some(c) => c,
                None => return Err(AssemblerError::InvalidCondition(line_number, lower.clone())),
            }
        };
        if count < 1 {
            return Err(AssemblerError::MissingOperand(line_number, String::from_str("source register")));
        }
        if count > 1 {
            return Err(AssemblerError::TooManyOperands(line_number));
        }
        assert(ops[0] == operands[0]@);
        let source = register_operand(line_number, &operands[0])?;
        return Ok(Instruction::new(OpCode::JMP, InstructionData::Jump(cond, source)));
    }
    Err(AssemblerError::InvalidInstruction(line_number, lower.clone()))
}

} // verus!
