//! The two passes: scanning lines into instructions and a symbol table,
//! then resolving label references and emitting the binary image.

use vstd::prelude::*;
use crate::builder::{build_instruction, build_spec};
use crate::error::{AssemblerError, Failure};
use crate::instruction::{encode_word, Instruction, InstructionData, InstructionModel, Payload};
use crate::line::{parse_line, scan_line, LineModel};

verus! {

/// The highest address a program can reach; an instruction may not push the
/// address counter past it.
pub const ADDRESS_LIMIT: u16 = 0xffff;

/// A label and the address it stands for.
#[derive(Clone, Debug)]
pub struct Label {
    pub name: String,
    pub address: u16,
}

/// The address of the last entry named `name`.
pub open spec fn lookup(ls: Seq<(Seq<char>, u16)>, name: Seq<char>) -> Option<u16>
    decreases ls.len(),
{
    if ls.len() == 0 {
        None
    } else if ls.last().0 == name {
        Some(ls.last().1)
    } else {
        lookup(ls.drop_last(), name)
    }
}

pub open spec fn names_unique(ls: Seq<(Seq<char>, u16)>) -> bool {
    forall|i: int, j: int| 0 <= i < j < ls.len() ==> ls[i].0 != ls[j].0
}

/// What the first pass has built so far. The next instruction's address is
/// the number of instructions.
pub struct ScanState {
    pub instructions: Seq<InstructionModel>,
    pub labels: Seq<(Seq<char>, u16)>,
}

pub open spec fn initial_state() -> ScanState {
    ScanState { instructions: seq![], labels: seq![] }
}

/// The symbol table once a line's label, if any, is defined at the current
/// address.
pub open spec fn define_label(st: ScanState, n: usize, label: Option<Seq<char>>) -> Result<Seq<(Seq<char>, u16)>, Failure> {
    match label {
        None => Ok(st.labels),
        Some(l) => if lookup(st.labels, l) is Some {
            Err(Failure::DuplicateLabel(n, l))
        } else {
            Ok(st.labels.push((l, st.instructions.len() as u16)))
        },
    }
}

/// The first pass on line `n`, whose text is `line`.
pub open spec fn step(st: ScanState, n: usize, line: Seq<char>) -> Result<ScanState, Failure> {
    match scan_line(line) {
        None => Err(Failure::Syntax(n, line)),
        Some(pl) => match define_label(st, n, pl.label) {
            Err(e) => Err(e),
            Ok(ls) => match pl.mnemonic {
                None => Ok(ScanState { instructions: st.instructions, labels: ls }),
                Some(m) => match build_spec(n, m, pl.operands) {
                    Err(e) => Err(e),
                    Ok(i) => if st.instructions.len() >= ADDRESS_LIMIT {
                        Err(Failure::AddressSpaceExhausted)
                    } else {
                        Ok(ScanState { instructions: st.instructions.push(i), labels: ls })
                    },
                },
            },
        },
    }
}

/// The first pass over a whole file; line `k` is `lines[k]`.
pub open spec fn scan_lines(lines: Seq<Seq<char>>) -> Result<ScanState, Failure>
    decreases lines.len(),
{
    if lines.len() == 0 {
        Ok(initial_state())
    } else {
        match scan_lines(lines.drop_last()) {
            Err(e) => Err(e),
            Ok(st) => step(st, (lines.len() - 1) as usize, lines.last()),
        }
    }
}

/// One instruction with its reference, if any, replaced by the label's address.
pub open spec fn resolve_one(ls: Seq<(Seq<char>, u16)>, i: InstructionModel) -> Result<InstructionModel, Failure> {
    match i.data {
        Payload::Reference(name) => match lookup(ls, name) {
            Some(a) => Ok(InstructionModel { opcode: i.opcode, data: Payload::Immediate(a) }),
            None => Err(Failure::UndefinedLabel(name)),
        },
        _ => Ok(i),
    }
}

/// The second pass: every reference resolved, or the first that cannot be.
pub open spec fn resolve_all(ls: Seq<(Seq<char>, u16)>, is: Seq<InstructionModel>) -> Result<Seq<InstructionModel>, Failure>
    decreases is.len(),
{
    if is.len() == 0 {
        Ok(seq![])
    } else {
        match resolve_all(ls, is.drop_last()) {
            Err(e) => Err(e),
            Ok(r) => match resolve_one(ls, is.last()) {
                Err(e) => Err(e),
                Ok(x) => Ok(r.push(x)),
            },
        }
    }
}

/// The two bytes of a word, low byte first.
pub open spec fn word_bytes(w: u16) -> Seq<u8> {
    seq![(w & 0xff) as u8, (w >> 8u16) as u8]
}

/// The binary image: each instruction's word, little-endian, in order.
pub open spec fn image(is: Seq<InstructionModel>) -> Seq<u8>
    decreases is.len(),
{
    if is.len() == 0 {
        seq![]
    } else {
        image(is.drop_last()) + word_bytes(encode_word(is.last()))
    }
}

/// What assembling a file gives: its image, or the first failure.
pub open spec fn assemble_spec(lines: Seq<Seq<char>>) -> Result<Seq<u8>, Failure> {
    match scan_lines(lines) {
        Err(e) => Err(e),
        Ok(st) => match resolve_all(st.labels, st.instructions) {
            Err(e) => Err(e),
            Ok(r) => Ok(image(r)),
        },
    }
}

pub open spec fn no_references(is: Seq<InstructionModel>) -> bool {
    forall|k: int| 0 <= k < is.len() ==> !(#[trigger] is[k].data is Reference)
}

/// The first pass, run one line at a time.
pub struct Assembler {
    instructions: Vec<Instruction>,
    labels: Vec<Label>,
    current_address: u16,
}

impl Assembler {
    pub closed spec fn view(&self) -> ScanState {
        ScanState {
            instructions: self.instructions@.map_values(|i: Instruction| i@),
            labels: self.labels@.map_values(|l: Label| (l.name@, l.address)),
        }
    }

    pub closed spec fn wf(&self) -> bool {
        &&& self.current_address as int == self.instructions@.len()
        &&& self.instructions@.len() <= ADDRESS_LIMIT
        &&& names_unique(self@.labels)
    }

    pub fn new() -> (r: Assembler)
        ensures
            r.wf(),
            r@ == initial_state(),
    {
        let r = Assembler { instructions: Vec::new(), labels: Vec::new(), current_address: 0 };
        assert(r@.instructions =~= seq![]);
        assert(r@.labels =~= seq![]);
        r
    }

    /// The address the label `name` was defined at.
    pub fn address_of(&self, name: &String) -> (r: Option<u16>)
        ensures
            r == lookup(self@.labels, name@),
    {
        let ghost ls = self@.labels;
        let mut i = self.labels.len();
        assert(ls.take(i as int) =~= ls);
        while i > 0
            invariant
                i <= self.labels@.len(),
                ls == self@.labels,
                lookup(ls, name@) == lookup(ls.take(i as int), name@),
            decreases i,
        {
            let ghost t = ls.take(i as int);
            assert(t.drop_last() =~= ls.take(i - 1));
            assert(t.last() == ls[i - 1]);
            if self.labels[i - 1].name == *name {
                return Some(self.labels[i - 1].address);
            }
            i = i - 1;
        }
        assert(ls.take(0) =~= seq![]);
        None
    }

    /// Runs the first pass on line `line_number`, whose text is `line`.
    pub fn add_line(&mut self, line_number: usize, line: &str) -> (r: Result<(), AssemblerError>)
        requires
            old(self).wf(),
        ensures
            final(self).wf(),
            match r {
                Ok(()) => step(old(self)@, line_number, line@) == Ok::<ScanState, Failure>(final(self)@),
                Err(e) => step(old(self)@, line_number, line@) == Err::<ScanState, Failure>(e@),
            },
    {
        let parsed = match parse_line(line) {
            Some(p) => p,
            None => return Err(AssemblerError::Syntax(line_number, String::from_str(line))),
        };
        let ghost pl: LineModel = parsed@;
        let ghost st0 = self@;
        if let Some(label) = &parsed.label {
            if self.address_of(label).is_some() {
                return Err(AssemblerError::DuplicateLabel(line_number, label.clone()));
            }
            proof {
                lemma_lookup_none(st0.labels, label@);
            }
            self.labels.push(Label { name: label.clone(), address: self.current_address });
            assert(self@.labels =~= st0.labels.push((label@, st0.instructions.len() as u16)));
        }
        let ghost ls = self@.labels;
        assert(define_label(st0, line_number, pl.label) == Ok::<Seq<(Seq<char>, u16)>, Failure>(ls));
        if let Some(mnemonic) = &parsed.mnemonic {
            let instr = build_instruction(line_number, mnemonic.as_str(), &parsed.operands)?;
            if self.current_address >= ADDRESS_LIMIT {
                return Err(AssemblerError::AddressSpaceExhausted());
            }
            self.current_address = self.current_address + instr.size();
            self.instructions.push(instr);
            assert(self@.instructions =~= st0.instructions.push(instr@));
        } else {
            assert(self@.instructions == st0.instructions);
        }
        Ok(())
    }

    /// The second pass: a copy of the instructions with every reference
    /// replaced by its label's address.
    pub fn resolve(&self) -> (r: Result<Vec<Instruction>, AssemblerError>)
        ensures
            match r {
                Ok(v) => resolve_all(self@.labels, self@.instructions)
                    == Ok::<Seq<InstructionModel>, Failure>(v@.map_values(|i: Instruction| i@))
                    && no_references(v@.map_values(|i: Instruction| i@)),
                Err(e) => resolve_all(self@.labels, self@.instructions) == Err::<Seq<InstructionModel>, Failure>(e@),
            },
    {
        let ghost ls = self@.labels;
        let ghost is = self@.instructions;
        let mut out: Vec<Instruction> = Vec::new();
        let mut k: usize = 0;
        assert(is.take(0) =~= seq![]);
        assert(out@.map_values(|i: Instruction| i@) =~= seq![]);
        while k < self.instructions.len()
            invariant
                k <= self.instructions@.len(),
                ls == self@.labels,
                is == self@.instructions,
                resolve_all(ls, is.take(k as int)) == Ok::<Seq<InstructionModel>, Failure>(out@.map_values(|i: Instruction| i@)),
                no_references(out@.map_values(|i: Instruction| i@)),
            decreases self.instructions@.len() - k,
        {
            let ghost t = is.take(k + 1);
            assert(t.drop_last() =~= is.take(k as int));
            assert(t.last() == is[k as int]);
            let ins = &self.instructions[k];
            let resolved = match &ins.data {
                InstructionData::Immediate1Reference(name) => {
                    match self.address_of(name) {
                        Some(a) => Instruction::new(ins.opcode, InstructionData::Immediate1(a)),
                        None => {
                            proof {
                                lemma_resolve_error_persists(ls, is, k as int + 1);
                            }
                            return Err(AssemblerError::UndefinedLabel(name.clone()));
                        },
                    }
                },
                InstructionData::NoOperand => Instruction::new(ins.opcode, InstructionData::NoOperand),
                InstructionData::Immediate1(v) => Instruction::new(ins.opcode, InstructionData::Immediate1(*v)),
                InstructionData::Register2(a, b) => Instruction::new(ins.opcode, InstructionData::Register2(*a, *b)),
                InstructionData::Jump(c, g) => Instruction::new(ins.opcode, InstructionData::Jump(*c, *g)),
            };
            let ghost before = out@.map_values(|i: Instruction| i@);
            out.push(resolved);
            assert(out@.map_values(|i: Instruction| i@) =~= before.push(resolved@));
            k = k + 1;
        }
        assert(is.take(k as int) =~= is);
        Ok(out)
    }

    /// Runs the second pass and emits the binary image.
    pub fn finish(&self) -> (r: Result<Vec<u8>, AssemblerError>)
        ensures
            match r {
                Ok(bytes) => match resolve_all(self@.labels, self@.instructions) {
                    Ok(is) => bytes@ == image(is),
                    Err(_) => false,
                },
                Err(e) => resolve_all(self@.labels, self@.instructions) == Err::<Seq<InstructionModel>, Failure>(e@),
            },
    {
        let resolved = self.resolve()?;
        Ok(encode_program(&resolved))
    }
}

proof fn lemma_lookup_none(ls: Seq<(Seq<char>, u16)>, name: Seq<char>)
    requires
        lookup(ls, name) is None,
    ensures
        forall|i: int| 0 <= i < ls.len() ==> ls[i].0 != name,
    decreases ls.len(),
{
    if ls.len() > 0 {
        lemma_lookup_none(ls.drop_last(), name);
        assert forall|i: int| 0 <= i < ls.len() implies ls[i].0 != name by {
            if i < ls.len() - 1 {
                assert(ls[i] == ls.drop_last()[i]);
            }
        }
    }
}

/// The binary image of resolved instructions.
pub fn encode_program(instructions: &Vec<Instruction>) -> (r: Vec<u8>)
    requires
        no_references(instructions@.map_values(|i: Instruction| i@)),
    ensures
        r@ == image(instructions@.map_values(|i: Instruction| i@)),
{
    let ghost is = instructions@.map_values(|i: Instruction| i@);
    let mut out: Vec<u8> = Vec::new();
    let mut k: usize = 0;
    while k < instructions.len()
        invariant
            k <= instructions@.len(),
            is == instructions@.map_values(|i: Instruction| i@),
            no_references(is),
            out@ == image(is.take(k as int)),
        decreases instructions@.len() - k,
    {
        let ghost t = is.take(k + 1);
        assert(t.drop_last() =~= is.take(k as int));
        assert(t.last() == instructions[k as int]@);
        assert(!(is[k as int].data is Reference));
        let w = instructions[k].encode();
        out.push((w & 0xff) as u8);
        out.push((w >> 8) as u8);
        assert(out@ =~= image(is.take(k as int)) + word_bytes(w));
        k = k + 1;
    }
    assert(is.take(k as int) =~= is);
    out
}

pub open spec fn lines_view(lines: Seq<String>) -> Seq<Seq<char>> {
    lines.map_values(|l: String| l@)
}

/// Assembles a whole file, given as its lines, into its binary image.
pub fn assemble(lines: &Vec<String>) -> (r: Result<Vec<u8>, AssemblerError>)
    ensures
        match r {
            Ok(bytes) => assemble_spec(lines_view(lines@)) == Ok::<Seq<u8>, Failure>(bytes@),
            Err(e) => assemble_spec(lines_view(lines@)) == Err::<Seq<u8>, Failure>(e@),
        },
{
    let ghost ls = lines_view(lines@);
    let mut pass = Assembler::new();
    let mut k: usize = 0;
    while k < lines.len()
        invariant
            k <= lines@.len(),
            ls == lines_view(lines@),
            pass.wf(),
            scan_lines(ls.take(k as int)) == Ok::<ScanState, Failure>(pass@),
        decreases lines@.len() - k,
    {
        let ghost t = ls.take(k + 1);
        assert(t.drop_last() =~= ls.take(k as int));
        assert(t.last() == lines[k as int]@);
        match pass.add_line(k, lines[k].as_str()) {
            Ok(()) => {},
            Err(e) => {
                proof {
                    lemma_scan_error_persists(ls, k as int + 1);
                }
                return Err(e);
            },
        }
        k = k + 1;
    }
    assert(ls.take(k as int) =~= ls);
    pass.finish()
}

/// A reference that cannot be resolved among the first `k` instructions
/// fails the whole second pass.
proof fn lemma_resolve_error_persists(ls: Seq<(Seq<char>, u16)>, is: Seq<InstructionModel>, k: int)
    requires
        0 <= k <= is.len(),
        resolve_all(ls, is.take(k)) is Err,
    ensures
        resolve_all(ls, is) == resolve_all(ls, is.take(k)),
    decreases is.len() - k,
{
    if k < is.len() {
        let t = is.take(k + 1);
        assert(t.drop_last() =~= is.take(k));
        lemma_resolve_error_persists(ls, is, k + 1);
    } else {
        assert(is.take(k) =~= is);
    }
}

/// A failure in the first `k` lines is the failure of the whole file.
pub proof fn lemma_scan_error_persists(lines: Seq<Seq<char>>, k: int)
    requires
        0 <= k <= lines.len(),
        scan_lines(lines.take(k)) is Err,
    ensures
        scan_lines(lines) == scan_lines(lines.take(k)),
    decreases lines.len() - k,
{
    if k < lines.len() {
        let t = lines.take(k + 1);
        assert(t.drop_last() =~= lines.take(k));
        lemma_scan_error_persists(lines, k + 1);
    } else {
        assert(lines.take(k) =~= lines);
    }
}

} // verus!
