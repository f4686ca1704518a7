//! Facts about the instruction set that follow from the semantics of the
//! operation kernel.
use vstd::prelude::*;
use crate::word::{FL_POS, FL_ZRO, FL_NEG, is_flag, sext, wadd};
use crate::machine::{Vm, Errors, KBSR, MEM_MAX};
use crate::decode::{opcode, dr, sr1, sr2, imm_mode, imm5, off9, off11, long_mode, lemma_field_bounds};
use crate::operations::{pc_relative, load_from, branch_taken};
use crate::traps::{scan, word_bytes};
use crate::execute::{exec_spec, step_spec, fetched};

verus! {

/// The state that executing `i` on `s` leads to, when it succeeds.
pub open spec fn after(s: Vm, i: u16) -> Vm {
    exec_spec(s, i)->Ok_0.0
}

/// ADD, AND, NOT, LD, LDR, LDI and LEA succeed, and leave in COND exactly
/// one flag: ZRO for a zero result, NEG when bit 15 of the result is set,
/// POS otherwise.
pub proof fn lemma_flags_follow_result(s: Vm, i: u16)
    requires
        s.wf(),
        opcode(i) == 1 || opcode(i) == 5 || opcode(i) == 9 || opcode(i) == 2
            || opcode(i) == 6 || opcode(i) == 10 || opcode(i) == 14,
    ensures
        exec_spec(s, i) is Ok,
        after(s, i).wf(),
        is_flag(after(s, i).cond()),
        after(s, i).reg(dr(i)) == 0 ==> after(s, i).cond() == FL_ZRO,
        after(s, i).reg(dr(i)) >= 0x8000 ==> after(s, i).cond() == FL_NEG,
        0 < after(s, i).reg(dr(i)) < 0x8000 ==> after(s, i).cond() == FL_POS,
{
    lemma_field_bounds(i);
}

/// With the PC advanced past the fetched instruction, PC-relative forms use
/// the address `(PC + 1 + sext(offset, width)) mod 2^16`: LEA loads it, LD
/// reads it, ST writes it, a taken BR and a JSR with an offset jump to it.
pub proof fn lemma_pc_relative_address(s: Vm)
    requires
        s.wf(),
        s.running,
        s.waiting is None,
    ensures
        ({
            let i = s.read_value(s.pc());
            let pc1 = (s.pc() + 1) % 0x10000;
            let ea = ((pc1 + sext(off9(i), 9)) % 0x10000) as u16;
            let t = step_spec(s).0;
            &&& opcode(i) == 14 ==> t.reg(dr(i)) == ea
            &&& opcode(i) == 2 ==> t.reg(dr(i)) == fetched(s).read_value(ea)
            &&& opcode(i) == 3 ==> t.at(ea) == s.reg(dr(i))
            &&& opcode(i) == 0 && branch_taken(i, s.cond()) ==> t.pc() == ea
            &&& opcode(i) == 4 && long_mode(i) ==> t.pc() == (pc1 + sext(off11(i), 11)) % 0x10000
        }),
{
    let i = s.read_value(s.pc());
    lemma_field_bounds(i);
    assert(fetched(s).pc() == (s.pc() + 1) % 0x10000);
}

/// ADD and AND compute the same thing from an immediate operand and from a
/// register operand that holds the sign-extended immediate.
pub proof fn lemma_immediate_matches_register(s: Vm, with_imm: u16, with_reg: u16)
    requires
        s.wf(),
        opcode(with_imm) == opcode(with_reg),
        opcode(with_imm) == 1 || opcode(with_imm) == 5,
        imm_mode(with_imm),
        !imm_mode(with_reg),
        dr(with_imm) == dr(with_reg),
        sr1(with_imm) == sr1(with_reg),
        sext(imm5(with_imm), 5) == s.reg(sr2(with_reg)),
    ensures
        exec_spec(s, with_imm) == exec_spec(s, with_reg),
{
}

/// NOT is an involution: on words, and on a register that a NOT with
/// DR equal to SR is run on twice.
pub proof fn lemma_not_involution(s: Vm, i: u16)
    requires
        s.wf(),
        opcode(i) == 9,
        dr(i) == sr1(i),
    ensures
        forall|x: u16| #[trigger] !(!x) == x,
        after(after(s, i), i).reg(dr(i)) == s.reg(dr(i)),
{
    lemma_field_bounds(i);
    assert(forall|x: u16| #[trigger] !(!x) == x) by (bit_vector);
}

/// LDI is a load through the pointer at its PC-relative address: the
/// pointer is read, then the word it names goes to DR. STI in the same way
/// stores SR through that pointer.
pub proof fn lemma_indirect_through_pointer(s: Vm, i: u16)
    requires
        s.wf(),
        opcode(i) == 10 || opcode(i) == 11,
    ensures
        ({
            let a = pc_relative(s, i);
            let p = s.read_value(a);
            let s1 = s.polled(a);
            &&& opcode(i) == 10 ==> after(s, i) == load_from(s1, dr(i), p)
            &&& opcode(i) == 10 ==> after(s, i).reg(dr(i)) == s1.read_value(p)
            &&& opcode(i) == 11 ==> after(s, i) == s1.with_mem(p, s.reg(dr(i)))
            &&& opcode(i) == 11 ==> after(s, i).at(p) == s.reg(dr(i))
        }),
{
    lemma_field_bounds(i);
}

/// A branch with n, z, p all clear changes nothing; one with all three set
/// always jumps to its PC-relative target.
pub proof fn lemma_branch_never_or_always(s: Vm, i: u16)
    requires
        s.wf(),
        opcode(i) == 0,
    ensures
        (i >> 9) & 7 == 0 ==> exec_spec(s, i) == Ok::<(Vm, Seq<u8>), Errors>((s, Seq::empty())),
        (i >> 9) & 7 == 7 ==> exec_spec(s, i) == Ok::<(Vm, Seq<u8>), Errors>(
            (s.with_pc(pc_relative(s, i)), Seq::empty()),
        ),
{
    let c = s.cond();
    assert((i >> 9) & 7 == 0 ==> !branch_taken(i, c)) by (bit_vector);
    assert((i >> 9) & 7 == 7 && (c == 1 || c == 2 || c == 4) ==> branch_taken(i, c)) by (bit_vector);
}

/// JSR and JSRR both leave the PC they found in R7.
pub proof fn lemma_jsr_links(s: Vm, i: u16)
    requires
        s.wf(),
        opcode(i) == 4,
    ensures
        exec_spec(s, i) is Ok,
        after(s, i).reg(7) == s.pc(),
{
}

/// Address of the `j`-th word of a string that starts at `a`.
pub open spec fn string_address(a: u16, j: int) -> u16 {
    ((a + j) % 0x10000) as u16
}

/// What PUTS (`packed` false) or PUTSP (`packed` true) writes for the words
/// of `text`.
pub open spec fn text_bytes(text: Seq<u16>, packed: bool) -> Seq<u8>
    decreases text.len(),
{
    if text.len() == 0 {
        Seq::empty()
    } else {
        word_bytes(text[0], packed) + text_bytes(text.drop_first(), packed)
    }
}

/// `text` stands in memory from `a` on, followed by a zero word, away from
/// the keyboard status register.
pub open spec fn string_at(s: Vm, a: u16, text: Seq<u16>) -> bool {
    &&& text.len() < MEM_MAX
    &&& forall|j: int| 0 <= j < text.len() ==> #[trigger] text[j] != 0
    &&& forall|j: int| 0 <= j < text.len() ==> s.at(#[trigger] string_address(a, j)) == text[j]
    &&& forall|j: int| 0 <= j <= text.len() ==> #[trigger] string_address(a, j) != KBSR
    &&& s.at(string_address(a, text.len() as int)) == 0
}

proof fn lemma_scan_from(s: Vm, a: u16, text: Seq<u16>, packed: bool, j: int)
    requires
        s.wf(),
        string_at(s, a, text),
        0 <= j <= text.len(),
    ensures
        scan(s, string_address(a, j), (MEM_MAX - j) as nat, packed)
            == (s, text_bytes(text.subrange(j, text.len() as int), packed)),
    decreases text.len() - j,
{
    let addr = string_address(a, j);
    assert(string_address(a, j) != KBSR);
    if j == text.len() {
        assert(text.subrange(j, text.len() as int) =~= Seq::<u16>::empty());
    } else {
        assert(text[j] != 0);
        assert(s.at(addr) == text[j]);
        assert(wadd(addr, 1) == string_address(a, j + 1));
        lemma_scan_from(s, a, text, packed, j + 1);
        assert(text.subrange(j, text.len() as int).drop_first() =~= text.subrange(j + 1, text.len() as int));
    }
}

/// PUTS and PUTSP stop at the first zero word: for a string in memory at
/// R0 they change nothing and write the bytes of its words, where PUTSP
/// writes a word's high byte after its low byte only when it is not zero.
pub proof fn lemma_strings_stop_at_zero(s: Vm, text: Seq<u16>)
    requires
        s.wf(),
        string_at(s, s.reg(0), text),
    ensures
        exec_spec(s, 0xF022) == Ok::<(Vm, Seq<u8>), Errors>((s, text_bytes(text, false))),
        exec_spec(s, 0xF024) == Ok::<(Vm, Seq<u8>), Errors>((s, text_bytes(text, true))),
{
    assert(string_address(s.reg(0), 0) == s.reg(0));
    assert(text.subrange(0, text.len() as int) =~= text);
    lemma_scan_from(s, s.reg(0), text, false, 0);
    lemma_scan_from(s, s.reg(0), text, true, 0);
    assert(opcode(0xF022) == 15 && crate::decode::trap_vector(0xF022) == 0x22) by (bit_vector);
    assert(opcode(0xF024) == 15 && crate::decode::trap_vector(0xF024) == 0x24) by (bit_vector);
}

} // verus!
