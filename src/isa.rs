//! The instruction set: opcodes, registers, branch conditions and the
//! packing of an instruction into one machine word.

use vstd::prelude::*;

verus! {

/// The operation of an instruction. Its numeric code fills the top five
/// bits of the encoded word.
#[derive(Copy, Clone, Debug, PartialEq, Eq, Structural)]
pub enum OpCode {
    MOV,
    LD,
    LDI,
    ST,
    AND,
    ANDI,
    OR,
    ORI,
    XOR,
    XORI,
    NOT,
    ADD,
    ADDI,
    SUB,
    SL,
    SLI,
    SR,
    SRI,
    CMP,
    CMPI,
    JMP,
}

/// The numeric code of each opcode.
pub open spec fn opcode_code(op: OpCode) -> u16 {
    match op {
        OpCode::MOV => 0x00,
        OpCode::LD => 0x01,
        OpCode::LDI => 0x11,
        OpCode::ST => 0x02,
        OpCode::AND => 0x03,
        OpCode::ANDI => 0x13,
        OpCode::OR => 0x04,
        OpCode::ORI => 0x14,
        OpCode::XOR => 0x05,
        OpCode::XORI => 0x15,
        OpCode::NOT => 0x06,
        OpCode::ADD => 0x07,
        OpCode::ADDI => 0x17,
        OpCode::SUB => 0x08,
        OpCode::SL => 0x09,
        OpCode::SLI => 0x19,
        OpCode::SR => 0x0A,
        OpCode::SRI => 0x1A,
        OpCode::CMP => 0x0B,
        OpCode::CMPI => 0x1B,
        OpCode::JMP => 0x0C,
    }
}

/// The opcode whose numeric code is `c`, if there is one.
pub open spec fn opcode_of_code(c: u16) -> Option<OpCode> {
    if c == 0x00 { Some(OpCode::MOV) }
    else if c == 0x01 { Some(OpCode::LD) }
    else if c == 0x11 { Some(OpCode::LDI) }
    else if c == 0x02 { Some(OpCode::ST) }
    else if c == 0x03 { Some(OpCode::AND) }
    else if c == 0x13 { Some(OpCode::ANDI) }
    else if c == 0x04 { Some(OpCode::OR) }
    else if c == 0x14 { Some(OpCode::ORI) }
    else if c == 0x05 { Some(OpCode::XOR) }
    else if c == 0x15 { Some(OpCode::XORI) }
    else if c == 0x06 { Some(OpCode::NOT) }
    else if c == 0x07 { Some(OpCode::ADD) }
    else if c == 0x17 { Some(OpCode::ADDI) }
    else if c == 0x08 { Some(OpCode::SUB) }
    else if c == 0x09 { Some(OpCode::SL) }
    else if c == 0x19 { Some(OpCode::SLI) }
    else if c == 0x0A { Some(OpCode::SR) }
    else if c == 0x1A { Some(OpCode::SRI) }
    else if c == 0x0B { Some(OpCode::CMP) }
    else if c == 0x1B { Some(OpCode::CMPI) }
    else if c == 0x0C { Some(OpCode::JMP) }
    else { None }
}

impl OpCode {
    pub fn code(&self) -> (r: u16)
        ensures
            r == opcode_code(*self),
            r < 32,
    {
        match self {
            OpCode::MOV => 0x00,
            OpCode::LD => 0x01,
            OpCode::LDI => 0x11,
            OpCode::ST => 0x02,
            OpCode::AND => 0x03,
            OpCode::ANDI => 0x13,
            OpCode::OR => 0x04,
            OpCode::ORI => 0x14,
            OpCode::XOR => 0x05,
            OpCode::XORI => 0x15,
            OpCode::NOT => 0x06,
            OpCode::ADD => 0x07,
            OpCode::ADDI => 0x17,
            OpCode::SUB => 0x08,
            OpCode::SL => 0x09,
            OpCode::SLI => 0x19,
            OpCode::SR => 0x0A,
            OpCode::SRI => 0x1A,
            OpCode::CMP => 0x0B,
            OpCode::CMPI => 0x1B,
            OpCode::JMP => 0x0C,
        }
    }
}

/// A machine register, named without regard to case.
#[derive(Copy, Clone, Debug, PartialEq, Eq, Structural)]
pub enum Register {
    A,
    B,
    Addr,
    SP,
    SR,
    PC,
}

pub open spec fn register_code(r: Register) -> u16 {
    match r {
        Register::A => 0x0,
        Register::B => 0x1,
        Register::Addr => 0x2,
        Register::SP => 0x3,
        Register::SR => 0x4,
        Register::PC => 0x5,
    }
}

pub open spec fn register_of_code(c: u16) -> Option<Register> {
    if c == 0 { Some(Register::A) }
    else if c == 1 { Some(Register::B) }
    else if c == 2 { Some(Register::Addr) }
    else if c == 3 { Some(Register::SP) }
    else if c == 4 { Some(Register::SR) }
    else if c == 5 { Some(Register::PC) }
    else { None }
}

/// ASCII letters map to lower case; every other character is kept.
pub open spec fn ascii_lower_char(c: char) -> char {
    if 'A' <= c && c <= 'Z' {
        ((c as u32) + 32) as char
    } else {
        c
    }
}

pub open spec fn ascii_lower(s: Seq<char>) -> Seq<char> {
    s.map_values(|c: char| ascii_lower_char(c))
}

/// The register that a name denotes once it is brought to lower case.
pub open spec fn register_named(s: Seq<char>) -> Option<Register> {
    let l = ascii_lower(s);
    if l == "a"@ { Some(Register::A) }
    else if l == "b"@ { Some(Register::B) }
    else if l == "addr"@ { Some(Register::Addr) }
    else if l == "sp"@ { Some(Register::SP) }
    else if l == "sr"@ { Some(Register::SR) }
    else if l == "pc"@ { Some(Register::PC) }
    else { None }
}

/// Relies on `str::to_ascii_lowercase`: `'A'..='Z'` become `'a'..='z'`,
/// every other character is copied unchanged.
#[verifier::external_body]
pub(crate) fn to_ascii_lowercase(s: &str) -> (r: String)
    ensures
        r@ == ascii_lower(s@),
{
    s.to_ascii_lowercase()
}

/// Whether two strings hold the same characters.
pub fn same_text(a: &str, b: &str) -> (r: bool)
    ensures
        r == (a@ == b@),
{
    let n = a.unicode_len();
    if n != b.unicode_len() {
        return false;
    }
    let mut i: usize = 0;
    while i < n
        invariant
            n == a@.len(),
            n == b@.len(),
            i <= n,
            a@.subrange(0, i as int) == b@.subrange(0, i as int),
        decreases n - i,
    {
        if a.get_char(i) != b.get_char(i) {
            assert(a@[i as int] != b@[i as int]);
            return false;
        }
        assert(a@.subrange(0, i + 1) == a@.subrange(0, i as int).push(a@[i as int]));
        assert(b@.subrange(0, i + 1) == b@.subrange(0, i as int).push(b@[i as int]));
        i = i + 1;
    }
    assert(a@ == a@.subrange(0, n as int));
    assert(b@ == b@.subrange(0, n as int));
    true
}

impl Register {
    /// Looks a register up by name, ignoring the case of ASCII letters.
    pub fn from_str(reg_str: &str) -> (r: Option<Register>)
        ensures
            r == register_named(reg_str@),
    {
        let lower = to_ascii_lowercase(reg_str);
        let l = lower.as_str();
        if same_text(l, "a") {
            Some(Register::A)
        } else if same_text(l, "b") {
            Some(Register::B)
        } else if same_text(l, "addr") {
            Some(Register::Addr)
        } else if same_text(l, "sp") {
            Some(Register::SP)
        } else if same_text(l, "sr") {
            Some(Register::SR)
        } else if same_text(l, "pc") {
            Some(Register::PC)
        } else {
            None
        }
    }

    pub fn code(&self) -> (r: u16)
        ensures
            r == register_code(*self),
            r < 8,
    {
        match self {
            Register::A => 0x0,
            Register::B => 0x1,
            Register::Addr => 0x2,
            Register::SP => 0x3,
            Register::SR => 0x4,
            Register::PC => 0x5,
        }
    }
}

/// A branch condition; `Always` is the bare `jmp`.
#[derive(Copy, Clone, Debug, PartialEq, Eq, Structural)]
pub enum Condition {
    Always,
    Zero,
    Equal,
    NotEqual,
    LessThan,
    LessThanOrEqual,
    GreaterThan,
    GreaterThanOrEqual,
}

pub open spec fn condition_code(c: Condition) -> u16 {
    match c {
        Condition::Always => 0x0,
        Condition::Zero => 0x1,
        Condition::Equal => 0x2,
        Condition::NotEqual => 0x3,
        Condition::LessThan => 0x4,
        Condition::LessThanOrEqual => 0x5,
        Condition::GreaterThan => 0x6,
        Condition::GreaterThanOrEqual => 0x7,
    }
}

pub open spec fn condition_of_code(c: u16) -> Condition {
    if c == 0 { Condition::Always }
    else if c == 1 { Condition::Zero }
    else if c == 2 { Condition::Equal }
    else if c == 3 { Condition::NotEqual }
    else if c == 4 { Condition::LessThan }
    else if c == 5 { Condition::LessThanOrEqual }
    else if c == 6 { Condition::GreaterThan }
    else { Condition::GreaterThanOrEqual }
}

/// The condition that a `jmp.` suffix selects.
pub open spec fn condition_named(s: Seq<char>) -> Option<Condition> {
    if s == "z"@ { Some(Condition::Zero) }
    else if s == "eq"@ { Some(Condition::Equal) }
    else if s == "ne"@ { Some(Condition::NotEqual) }
    else if s == "lt"@ { Some(Condition::LessThan) }
    else if s == "le"@ { Some(Condition::LessThanOrEqual) }
    else if s == "gt"@ { Some(Condition::GreaterThan) }
    else if s == "ge"@ { Some(Condition::GreaterThanOrEqual) }
    else { None }
}

impl Condition {
    pub fn code(&self) -> (r: u16)
        ensures
            r == condition_code(*self),
            r < 8,
    {
        match self {
            Condition::Always => 0x0,
            Condition::Zero => 0x1,
            Condition::Equal => 0x2,
            Condition::NotEqual => 0x3,
            Condition::LessThan => 0x4,
            Condition::LessThanOrEqual => 0x5,
            Condition::GreaterThan => 0x6,
            Condition::GreaterThanOrEqual => 0x7,
        }
    }

    /// Looks up the condition that a `jmp.` suffix names.
    pub fn from_suffix(s: &str) -> (r: Option<Condition>)
        ensures
            r == condition_named(s@),
    {
        if same_text(s, "z") {
            Some(Condition::Zero)
        } else if same_text(s, "eq") {
            Some(Condition::Equal)
        } else if same_text(s, "ne") {
            Some(Condition::NotEqual)
        } else if same_text(s, "lt") {
            Some(Condition::LessThan)
        } else if same_text(s, "le") {
            Some(Condition::LessThanOrEqual)
        } else if same_text(s, "gt") {
            Some(Condition::GreaterThan)
        } else if same_text(s, "ge") {
            Some(Condition::GreaterThanOrEqual)
        } else {
            None
        }
    }
}

} // verus!
