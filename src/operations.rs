//! The operation kernel: one function per opcode, each with the transition of
//! the abstract machine that it performs.
use vstd::prelude::*;
use crate::word::{FL_POS, FL_ZRO, FL_NEG, sext, wadd, sign_extend};
use crate::machine::{State, Vm, Registers, Errors};
use crate::decode::{
    dr, sr1, sr2, imm_mode, long_mode, imm5, off6, off9, off11, lemma_field_bounds,
    register_at,
};

verus! {

/// PC plus the sign-extended 9-bit offset.
pub open spec fn pc_relative(s: Vm, i: u16) -> u16 {
    wadd(s.pc(), sext(off9(i), 9))
}

/// BaseR plus the sign-extended 6-bit offset.
pub open spec fn base_relative(s: Vm, i: u16) -> u16 {
    wadd(s.reg(sr1(i)), sext(off6(i), 6))
}

/// The second operand of ADD and AND.
pub open spec fn alu_operand(s: Vm, i: u16) -> u16 {
    if imm_mode(i) {
        sext(imm5(i), 5)
    } else {
        s.reg(sr2(i))
    }
}

/// Reads `a` (with its keyboard side effect) into general register `r`.
pub open spec fn load_from(s: Vm, r: u16, a: u16) -> Vm {
    s.polled(a).set_result(r, s.read_value(a))
}

pub open spec fn add_spec(s: Vm, i: u16) -> Vm {
    s.set_result(dr(i), wadd(s.reg(sr1(i)), alu_operand(s, i)))
}

pub open spec fn and_spec(s: Vm, i: u16) -> Vm {
    s.set_result(dr(i), s.reg(sr1(i)) & alu_operand(s, i))
}

pub open spec fn not_spec(s: Vm, i: u16) -> Vm {
    s.set_result(dr(i), !s.reg(sr1(i)))
}

pub open spec fn ld_spec(s: Vm, i: u16) -> Vm {
    load_from(s, dr(i), pc_relative(s, i))
}

pub open spec fn ldr_spec(s: Vm, i: u16) -> Vm {
    load_from(s, dr(i), base_relative(s, i))
}

/// The pointer at the PC-relative address is read first, then the word it names.
pub open spec fn ldi_spec(s: Vm, i: u16) -> Vm {
    let a = pc_relative(s, i);
    load_from(s.polled(a), dr(i), s.read_value(a))
}

pub open spec fn lea_spec(s: Vm, i: u16) -> Vm {
    s.set_result(dr(i), pc_relative(s, i))
}

pub open spec fn st_spec(s: Vm, i: u16) -> Vm {
    s.with_mem(pc_relative(s, i), s.reg(dr(i)))
}

pub open spec fn str_spec(s: Vm, i: u16) -> Vm {
    s.with_mem(base_relative(s, i), s.reg(dr(i)))
}

pub open spec fn sti_spec(s: Vm, i: u16) -> Vm {
    let a = pc_relative(s, i);
    s.polled(a).with_mem(s.read_value(a), s.reg(dr(i)))
}

pub open spec fn jmp_spec(s: Vm, i: u16) -> Vm {
    s.with_pc(s.reg(sr1(i)))
}

/// R7 takes the PC first; a register target is read after that write.
pub open spec fn jsr_spec(s: Vm, i: u16) -> Vm {
    let linked = s.with_reg(7, s.pc());
    if long_mode(i) {
        linked.with_pc(wadd(s.pc(), sext(off11(i), 11)))
    } else {
        linked.with_pc(linked.reg(sr1(i)))
    }
}

/// The n, z, p bits of a branch select the flags on which it is taken.
pub open spec fn branch_taken(i: u16, cond: u16) -> bool {
    ||| (i >> 11) & 1 == 1 && cond == FL_NEG
    ||| (i >> 10) & 1 == 1 && cond == FL_ZRO
    ||| (i >> 9) & 1 == 1 && cond == FL_POS
}

pub open spec fn br_spec(s: Vm, i: u16) -> Vm {
    if branch_taken(i, s.cond()) {
        s.with_pc(pc_relative(s, i))
    } else {
        s
    }
}

/// Executed with the PC already advanced past the instruction.
fn pc_offset9(instruction: u16, state: &State) -> (r: u16)
    requires
        state@.wf(),
    ensures
        r == pc_relative(state@, instruction),
{
    let offset = sign_extend(instruction & 0x1FF, 9);
    state.register_read(Registers::Pc).wrapping_add(offset)
}

fn base_offset6(instruction: u16, state: &State) -> (r: u16)
    requires
        state@.wf(),
    ensures
        r == base_relative(state@, instruction),
{
    let offset = sign_extend(instruction & 0x3F, 6);
    let base = register_at(instruction, 6);
    state.register_read(base).wrapping_add(offset)
}

/// Writes `value` to general register `register` and sets the flags from it.
fn write_result(state: &mut State, register: Registers, value: u16)
    requires
        old(state)@.wf(),
        register.spec_index() < 8,
    ensures
        final(state)@ == old(state)@.set_result(register.spec_index() as u16, value),
        final(state)@.wf(),
{
    state.register_write(register, value);
    state.update_flags(register);
    assert(final(state)@.regs =~= old(state)@.set_result(register.spec_index() as u16, value).regs);
}

/// The second operand of ADD and AND: the sign-extended imm5, or SR2.
fn operand(instruction: u16, state: &State) -> (r: u16)
    requires
        state@.wf(),
    ensures
        r == alu_operand(state@, instruction),
{
    proof {
        lemma_field_bounds(instruction);
    }
    let mode = (instruction >> 5) & 0x1;
    if mode == 1 {
        sign_extend(instruction & 0x1F, 5)
    } else {
        let source_register_2 = register_at(instruction, 0);
        assert((instruction >> 0u16) & 7 == instruction & 7) by (bit_vector);
        state.register_read(source_register_2)
    }
}

/// ADD: `DR <- SR1 + (imm5 or SR2)`, wrapping; sets the flags.
pub fn add(instruction: u16, state: &mut State) -> (r: Result<(), Errors>)
    requires
        old(state)@.wf(),
    ensures
        r is Ok,
        final(state)@ == add_spec(old(state)@, instruction),
        final(state)@.wf(),
{
    let destination_register = register_at(instruction, 9);
    let source_register_1 = register_at(instruction, 6);
    let value = operand(instruction, state);
    let sum = state.register_read(source_register_1).wrapping_add(value);
    write_result(state, destination_register, sum);
    Ok(())
}

/// AND: `DR <- SR1 & (imm5 or SR2)`; sets the flags.
pub fn and(instruction: u16, state: &mut State) -> (r: Result<(), Errors>)
    requires
        old(state)@.wf(),
    ensures
        r is Ok,
        final(state)@ == and_spec(old(state)@, instruction),
        final(state)@.wf(),
{
    let destination_register = register_at(instruction, 9);
    let source_register_1 = register_at(instruction, 6);
    let value_to_and = operand(instruction, state);
    let value = state.register_read(source_register_1) & value_to_and;
    write_result(state, destination_register, value);
    Ok(())
}

/// NOT: `DR <- !SR`; sets the flags.
pub fn not(instruction: u16, state: &mut State) -> (r: Result<(), Errors>)
    requires
        old(state)@.wf(),
    ensures
        r is Ok,
        final(state)@ == not_spec(old(state)@, instruction),
        final(state)@.wf(),
{
    let source_registry = register_at(instruction, 6);
    let destination_registry = register_at(instruction, 9);
    let value = !state.register_read(source_registry);
    write_result(state, destination_registry, value);
    Ok(())
}

/// LD: `DR <- mem[PC + off9]`; sets the flags.
pub fn load(instruction: u16, state: &mut State) -> (r: Result<(), Errors>)
    requires
        old(state)@.wf(),
    ensures
        r is Ok,
        final(state)@ == ld_spec(old(state)@, instruction),
        final(state)@.wf(),
{
    let destination_register = register_at(instruction, 9);
    let memory_index = pc_offset9(instruction, state);
    let value = state.memory_read(memory_index as usize);
    write_result(state, destination_register, value);
    Ok(())
}

/// LDR: `DR <- mem[BaseR + off6]`; sets the flags.
pub fn load_register(instruction: u16, state: &mut State) -> (r: Result<(), Errors>)
    requires
        old(state)@.wf(),
    ensures
        r is Ok,
        final(state)@ == ldr_spec(old(state)@, instruction),
        final(state)@.wf(),
{
    let destination_register = register_at(instruction, 9);
    let memory_index = base_offset6(instruction, state);
    let value = state.memory_read(memory_index as usize);
    write_result(state, destination_register, value);
    Ok(())
}

/// LDI: `DR <- mem[mem[PC + off9]]`; sets the flags.
pub fn load_indirect(instruction: u16, state: &mut State) -> (r: Result<(), Errors>)
    requires
        old(state)@.wf(),
    ensures
        r is Ok,
        final(state)@ == ldi_spec(old(state)@, instruction),
        final(state)@.wf(),
{
    let destination_register = register_at(instruction, 9);
    let memory_index = pc_offset9(instruction, state);
    let actual_index = state.memory_read(memory_index as usize);
    let value = state.memory_read(actual_index as usize);
    write_result(state, destination_register, value);
    Ok(())
}

/// LEA: `DR <- PC + off9`; sets the flags.
pub fn load_effective_address(instruction: u16, state: &mut State) -> (r: Result<(), Errors>)
    requires
        old(state)@.wf(),
    ensures
        r is Ok,
        final(state)@ == lea_spec(old(state)@, instruction),
        final(state)@.wf(),
{
    let destination_register = register_at(instruction, 9);
    let address = pc_offset9(instruction, state);
    write_result(state, destination_register, address);
    Ok(())
}

/// ST: `mem[PC + off9] <- SR`.
pub fn store(instruction: u16, state: &mut State) -> (r: Result<(), Errors>)
    requires
        old(state)@.wf(),
    ensures
        r is Ok,
        final(state)@ == st_spec(old(state)@, instruction),
        final(state)@.wf(),
{
    let source_register = register_at(instruction, 9);
    let memory_address = pc_offset9(instruction, state);
    let value = state.register_read(source_register);
    state.memory_write(memory_address as usize, value);
    Ok(())
}

/// STR: `mem[BaseR + off6] <- SR`.
pub fn store_register(instruction: u16, state: &mut State) -> (r: Result<(), Errors>)
    requires
        old(state)@.wf(),
    ensures
        r is Ok,
        final(state)@ == str_spec(old(state)@, instruction),
        final(state)@.wf(),
{
    let source_register = register_at(instruction, 9);
    let memory_address = base_offset6(instruction, state);
    let value = state.register_read(source_register);
    state.memory_write(memory_address as usize, value);
    Ok(())
}

/// STI: `mem[mem[PC + off9]] <- SR`.
pub fn store_indirect(instruction: u16, state: &mut State) -> (r: Result<(), Errors>)
    requires
        old(state)@.wf(),
    ensures
        r is Ok,
        final(state)@ == sti_spec(old(state)@, instruction),
        final(state)@.wf(),
{
    let source_register = register_at(instruction, 9);
    let memory_address = pc_offset9(instruction, state);
    let actual_address = state.memory_read(memory_address as usize);
    let value = state.register_read(source_register);
    state.memory_write(actual_address as usize, value);
    Ok(())
}

/// JMP (and RET): `PC <- BaseR`.
pub fn jump(instruction: u16, state: &mut State) -> (r: Result<(), Errors>)
    requires
        old(state)@.wf(),
    ensures
        r is Ok,
        final(state)@ == jmp_spec(old(state)@, instruction),
        final(state)@.wf(),
{
    let base_register = register_at(instruction, 6);
    let target = state.register_read(base_register);
    state.register_write(Registers::Pc, target);
    Ok(())
}

/// JSR and JSRR: `R7 <- PC`, then `PC <- PC + off11` or `PC <- BaseR`.
pub fn jump_to_subrutine(instruction: u16, state: &mut State) -> (r: Result<(), Errors>)
    requires
        old(state)@.wf(),
    ensures
        r is Ok,
        final(state)@ == jsr_spec(old(state)@, instruction),
        final(state)@.wf(),
{
    let pc = state.register_read(Registers::Pc);
    state.register_write(Registers::R7, pc);
    let mode = (instruction >> 11) & 1;
    if mode == 1 {
        let offset = sign_extend(instruction & 0x7FF, 11);
        state.register_write(Registers::Pc, pc.wrapping_add(offset));
    } else {
        let base_register = register_at(instruction, 6);
        let target = state.register_read(base_register);
        state.register_write(Registers::Pc, target);
    }
    Ok(())
}

/// BR: adds the sign-extended off9 to the PC when one of the flags that the
/// n, z, p bits select is set.
pub fn conditional_branch(instruction: u16, state: &mut State)
    requires
        old(state)@.wf(),
    ensures
        final(state)@ == br_spec(old(state)@, instruction),
        final(state)@.wf(),
{
    let negative_indicator = (instruction >> 11) & 1;
    let zero_indicator = (instruction >> 10) & 1;
    let positive_indicator = (instruction >> 9) & 1;
    let current_flags = state.register_read(Registers::Flags);
    let is_negative = (negative_indicator & (current_flags >> 2)) == 1;
    let is_zero = (zero_indicator & (current_flags >> 1)) == 1;
    let is_positive = (positive_indicator & current_flags) == 1;
    assert((is_negative || is_zero || is_positive) == branch_taken(instruction, current_flags))
        by (bit_vector)
        requires
            current_flags == 1 || current_flags == 2 || current_flags == 4,
            negative_indicator == (instruction >> 11) & 1,
            zero_indicator == (instruction >> 10) & 1,
            positive_indicator == (instruction >> 9) & 1,
            is_negative == ((negative_indicator & (current_flags >> 2)) == 1),
            is_zero == ((zero_indicator & (current_flags >> 1)) == 1),
            is_positive == ((positive_indicator & current_flags) == 1),
    ;
    if is_negative || is_zero || is_positive {
        let target = pc_offset9(instruction, state);
        state.register_write(Registers::Pc, target);
    }
}

} // verus!
