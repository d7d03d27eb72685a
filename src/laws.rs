//! Facts about whole files that follow from the two passes.

use vstd::prelude::*;
use crate::assembler::{
    assemble_spec, define_label, lookup, resolve_all, resolve_one, scan_lines, step, ScanState,
    ADDRESS_LIMIT,
};
use crate::builder::build_spec;
use crate::error::Failure;
use crate::instruction::{
    decode_opcode, decode_payload, encode_word, lemma_encode_decode, well_shaped, InstructionModel,
    Payload,
};
use crate::line::scan_line;

verus! {

/// Whether a line matches the grammar and holds a mnemonic, that is, emits
/// one instruction once it builds.
pub open spec fn emits(line: Seq<char>) -> bool {
    scan_line(line) is Some && scan_line(line)->Some_0.mnemonic is Some
}

/// The number of lines among `lines` that emit an instruction.
pub open spec fn emitted(lines: Seq<Seq<char>>) -> nat
    decreases lines.len(),
{
    if lines.len() == 0 {
        0
    } else {
        emitted(lines.drop_last()) + if emits(lines.last()) { 1nat } else { 0nat }
    }
}

/// Whether line `k` of `lines` defines the label `name`.
pub open spec fn defines(lines: Seq<Seq<char>>, k: int, name: Seq<char>) -> bool {
    0 <= k < lines.len() && scan_line(lines[k]) is Some
        && scan_line(lines[k])->Some_0.label == Some(name)
}

proof fn lemma_scanned(lines: Seq<Seq<char>>)
    requires
        scan_lines(lines) is Ok,
    ensures
        scan_lines(lines)->Ok_0.instructions.len() == emitted(lines),
        emitted(lines) <= ADDRESS_LIMIT,
        forall|k: int, name: Seq<char>| #[trigger] defines(lines, k, name)
            ==> lookup(scan_lines(lines)->Ok_0.labels, name) == Some(emitted(lines.take(k)) as u16),
    decreases lines.len(),
{
    if lines.len() > 0 {
        let prev = lines.drop_last();
        let n = lines.len() - 1;
        lemma_scanned(prev);
        let st = scan_lines(prev)->Ok_0;
        let st2 = scan_lines(lines)->Ok_0;
        let pl = scan_line(lines.last())->Some_0;
        assert(lines.take(n) =~= prev);
        let ls = define_label(st, n as usize, pl.label)->Ok_0;
        assert(st2.labels == ls);
        match pl.label {
            Some(l) => {
                assert(ls == st.labels.push((l, st.instructions.len() as u16)));
                assert(ls.drop_last() =~= st.labels);
            },
            None => {},
        }
        assert forall|k: int, name: Seq<char>| #[trigger] defines(lines, k, name)
            implies lookup(st2.labels, name) == Some(emitted(lines.take(k)) as u16) by {
            if k < n {
                assert(lines[k] == prev[k]);
                assert(defines(prev, k, name));
                assert(prev.take(k) =~= lines.take(k));
                if pl.label == Some(name) {
                    assert(lookup(st.labels, name) is Some);
                    assert(false);
                }
            } else {
                assert(lines[k] == lines.last());
            }
        }
    }
}

/// Every label that is defined once stands for its word index: the number
/// of instructions emitted by the lines before its own. The address counter
/// never wraps: a scanned file holds at most `ADDRESS_LIMIT` instructions.
pub proof fn lemma_label_address(lines: Seq<Seq<char>>, k: int, name: Seq<char>)
    requires
        scan_lines(lines) is Ok,
        defines(lines, k, name),
    ensures
        lookup(scan_lines(lines)->Ok_0.labels, name) == Some(emitted(lines.take(k)) as u16),
        scan_lines(lines)->Ok_0.instructions.len() == emitted(lines) <= ADDRESS_LIMIT,
{
    lemma_scanned(lines);
}

proof fn lemma_resolved_at(ls: Seq<(Seq<char>, u16)>, is: Seq<InstructionModel>, j: int)
    requires
        resolve_all(ls, is) is Ok,
        0 <= j < is.len(),
    ensures
        resolve_all(ls, is)->Ok_0.len() == is.len(),
        resolve_one(ls, is[j]) == Ok::<InstructionModel, Failure>(resolve_all(ls, is)->Ok_0[j]),
    decreases is.len(),
{
    lemma_resolved_len(ls, is);
    if j < is.len() - 1 {
        lemma_resolved_at(ls, is.drop_last(), j);
    }
}

proof fn lemma_resolved_len(ls: Seq<(Seq<char>, u16)>, is: Seq<InstructionModel>)
    requires
        resolve_all(ls, is) is Ok,
    ensures
        resolve_all(ls, is)->Ok_0.len() == is.len(),
    decreases is.len(),
{
    if is.len() > 0 {
        lemma_resolved_len(ls, is.drop_last());
    }
}

/// A reference resolves to the word index of its label's line, whether the
/// label is defined before the reference or after it.
pub proof fn lemma_reference_resolves(lines: Seq<Seq<char>>, j: int, k: int, name: Seq<char>)
    requires
        scan_lines(lines) is Ok,
        0 <= j < scan_lines(lines)->Ok_0.instructions.len(),
        scan_lines(lines)->Ok_0.instructions[j].data == Payload::Reference(name),
        defines(lines, k, name),
    ensures
        ({
            let st = scan_lines(lines)->Ok_0;
            let resolved = InstructionModel {
                opcode: st.instructions[j].opcode,
                data: Payload::Immediate(emitted(lines.take(k)) as u16),
            };
            &&& resolve_one(st.labels, st.instructions[j]) == Ok::<InstructionModel, Failure>(resolved)
            &&& resolve_all(st.labels, st.instructions) is Ok
                ==> resolve_all(st.labels, st.instructions)->Ok_0[j] == resolved
        }),
{
    let st = scan_lines(lines)->Ok_0;
    lemma_scanned(lines);
    if resolve_all(st.labels, st.instructions) is Ok {
        lemma_resolved_at(st.labels, st.instructions, j);
    }
}

proof fn lemma_resolve_fails(ls: Seq<(Seq<char>, u16)>, is: Seq<InstructionModel>)
    requires
        resolve_all(ls, is) is Err,
    ensures
        resolve_all(ls, is)->Err_0 is UndefinedLabel,
        lookup(ls, resolve_all(ls, is)->Err_0->UndefinedLabel_0) is None,
    decreases is.len(),
{
    if resolve_all(ls, is.drop_last()) is Err {
        lemma_resolve_fails(ls, is.drop_last());
    }
}

/// A second definition of a label fails on its own line, naming the label,
/// provided every line before it was accepted.
pub proof fn lemma_duplicate_label(lines: Seq<Seq<char>>, j: int, k: int, name: Seq<char>)
    requires
        0 <= j < k < lines.len(),
        defines(lines, j, name),
        defines(lines, k, name),
        scan_lines(lines.take(k)) is Ok,
    ensures
        scan_lines(lines) == Err::<ScanState, Failure>(Failure::DuplicateLabel(k as usize, name)),
        assemble_spec(lines) == Err::<Seq<u8>, Failure>(Failure::DuplicateLabel(k as usize, name)),
{
    let pre = lines.take(k);
    assert(defines(pre, j, name));
    lemma_scanned(pre);
    let t = lines.take(k + 1);
    assert(t.drop_last() =~= pre);
    assert(t.last() == lines[k]);
    crate::assembler::lemma_scan_error_persists(lines, k + 1);
}

/// An undefined label is reported only by the second pass: when assembly
/// fails on one, every line was scanned and accepted, and no line defines
/// it.
pub proof fn lemma_undefined_label(lines: Seq<Seq<char>>, name: Seq<char>)
    requires
        assemble_spec(lines) == Err::<Seq<u8>, Failure>(Failure::UndefinedLabel(name)),
    ensures
        scan_lines(lines) is Ok,
        forall|k: int| !defines(lines, k, name),
{
    lemma_scan_never_undefined(lines);
    let st = scan_lines(lines)->Ok_0;
    lemma_resolve_fails(st.labels, st.instructions);
    lemma_scanned(lines);
    assert forall|k: int| !defines(lines, k, name) by {
        if defines(lines, k, name) {
            assert(lookup(st.labels, name) is Some);
        }
    }
}

proof fn lemma_scan_never_undefined(lines: Seq<Seq<char>>)
    ensures
        scan_lines(lines) is Err ==> !(scan_lines(lines)->Err_0 is UndefinedLabel),
    decreases lines.len(),
{
    if lines.len() > 0 {
        lemma_scan_never_undefined(lines.drop_last());
        if scan_lines(lines.drop_last()) is Ok {
            let st = scan_lines(lines.drop_last())->Ok_0;
            let line = lines.last();
            let n = (lines.len() - 1) as usize;
            if scan_line(line) is Some {
                let pl = scan_line(line)->Some_0;
                if define_label(st, n, pl.label) is Ok && pl.mnemonic is Some {
                    lemma_build_never_undefined(n, pl.mnemonic->Some_0, pl.operands);
                }
            }
        }
    }
}

proof fn lemma_build_never_undefined(n: usize, m: Seq<char>, ops: Seq<Seq<char>>)
    ensures
        build_spec(n, m, ops) is Err ==> !(build_spec(n, m, ops)->Err_0 is UndefinedLabel),
{
}

/// Once a file has emitted `ADDRESS_LIMIT` instructions, a line that would
/// emit one more fails with the address space exhausted instead of wrapping.
pub proof fn lemma_address_space_exhausted(lines: Seq<Seq<char>>, k: int)
    requires
        0 <= k < lines.len(),
        scan_lines(lines.take(k)) is Ok,
        emitted(lines.take(k)) == ADDRESS_LIMIT,
        emits(lines[k]),
        define_label(scan_lines(lines.take(k))->Ok_0, k as usize, scan_line(lines[k])->Some_0.label) is Ok,
        build_spec(k as usize, scan_line(lines[k])->Some_0.mnemonic->Some_0, scan_line(lines[k])->Some_0.operands) is Ok,
    ensures
        scan_lines(lines) == Err::<ScanState, Failure>(Failure::AddressSpaceExhausted),
{
    let pre = lines.take(k);
    lemma_scanned(pre);
    let t = lines.take(k + 1);
    assert(t.drop_last() =~= pre);
    assert(t.last() == lines[k]);
    crate::assembler::lemma_scan_error_persists(lines, k + 1);
}

/// Every instruction the builder accepts, once its reference (if any) is
/// resolved, has the operand shape of its opcode; its word decodes back to
/// the same opcode and operand when an immediate fits in eleven bits.
pub proof fn lemma_built_round_trip(n: usize, m: Seq<char>, ops: Seq<Seq<char>>)
    requires
        build_spec(n, m, ops) is Ok,
        !(build_spec(n, m, ops)->Ok_0.data is Reference),
        build_spec(n, m, ops)->Ok_0.data is Immediate
            ==> (build_spec(n, m, ops)->Ok_0.data->Immediate_0 as int) < 0x800,
    ensures
        well_shaped(build_spec(n, m, ops)->Ok_0),
        decode_opcode(encode_word(build_spec(n, m, ops)->Ok_0)) == Some(build_spec(n, m, ops)->Ok_0.opcode),
        decode_payload(build_spec(n, m, ops)->Ok_0.opcode, encode_word(build_spec(n, m, ops)->Ok_0))
            == Some(build_spec(n, m, ops)->Ok_0.data),
{
    lemma_encode_decode(build_spec(n, m, ops)->Ok_0);
}

} // verus!
