//! Instruction fields. Register selectors are three bits wide, so decoding
//! a register never fails.
use vstd::prelude::*;
use crate::machine::{Registers, Errors};

verus! {

/// Bits 15..12.
pub open spec fn opcode(i: u16) -> u16 {
    i >> 12
}

/// Bits 11..9: DR, or SR of a store.
pub open spec fn dr(i: u16) -> u16 {
    (i >> 9) & 7
}

/// Bits 8..6: SR1, SR of NOT, or BaseR.
pub open spec fn sr1(i: u16) -> u16 {
    (i >> 6) & 7
}

/// Bits 2..0: SR2.
pub open spec fn sr2(i: u16) -> u16 {
    i & 7
}

/// Bit 5: ADD and AND take an immediate operand.
pub open spec fn imm_mode(i: u16) -> bool {
    (i >> 5) & 1 == 1
}

/// Bit 11: JSR takes a PC-relative target.
pub open spec fn long_mode(i: u16) -> bool {
    (i >> 11) & 1 == 1
}

pub open spec fn imm5(i: u16) -> u16 {
    i & 0x1F
}

pub open spec fn off6(i: u16) -> u16 {
    i & 0x3F
}

pub open spec fn off9(i: u16) -> u16 {
    i & 0x1FF
}

pub open spec fn off11(i: u16) -> u16 {
    i & 0x7FF
}

pub open spec fn trap_vector(i: u16) -> u16 {
    i & 0xFF
}

/// The widths of the fields.
pub proof fn lemma_field_bounds(i: u16)
    by (bit_vector)
    ensures
        opcode(i) < 16,
        dr(i) < 8,
        sr1(i) < 8,
        sr2(i) < 8,
        imm5(i) < 0x20,
        off6(i) < 0x40,
        off9(i) < 0x200,
        off11(i) < 0x800,
        trap_vector(i) < 0x100,
{
}

/// The sixteen opcodes.
#[derive(Clone, Copy, Debug, PartialEq, Eq, Structural)]
pub enum Operations {
    /// Conditional branch.
    Br,
    Add,
    /// Load, PC-relative.
    Ld,
    /// Store, PC-relative.
    St,
    /// Jump to subroutine.
    Jsr,
    And,
    /// Load, base plus offset.
    Ldr,
    /// Store, base plus offset.
    Str,
    /// Return from interrupt: not executed here.
    Rti,
    Not,
    /// Load indirect.
    Ldi,
    /// Store indirect.
    Sti,
    /// Jump (and RET).
    Jmp,
    /// Reserved: not executed here.
    Res,
    /// Load effective address.
    Lea,
    /// Trap service routine.
    Trap,
}

/// The operation with opcode `v`.
pub open spec fn operation_of(v: u16) -> Result<Operations, Errors> {
    if v == 0 {
        Ok(Operations::Br)
    } else if v == 1 {
        Ok(Operations::Add)
    } else if v == 2 {
        Ok(Operations::Ld)
    } else if v == 3 {
        Ok(Operations::St)
    } else if v == 4 {
        Ok(Operations::Jsr)
    } else if v == 5 {
        Ok(Operations::And)
    } else if v == 6 {
        Ok(Operations::Ldr)
    } else if v == 7 {
        Ok(Operations::Str)
    } else if v == 8 {
        Ok(Operations::Rti)
    } else if v == 9 {
        Ok(Operations::Not)
    } else if v == 10 {
        Ok(Operations::Ldi)
    } else if v == 11 {
        Ok(Operations::Sti)
    } else if v == 12 {
        Ok(Operations::Jmp)
    } else if v == 13 {
        Ok(Operations::Res)
    } else if v == 14 {
        Ok(Operations::Lea)
    } else if v == 15 {
        Ok(Operations::Trap)
    } else {
        Err(Errors::BadOpCode(v))
    }
}

impl TryFrom<u16> for Operations {
    type Error = Errors;

    fn try_from(value: u16) -> Result<Operations, Errors> {
        match value {
            0 => Ok(Operations::Br),
            1 => Ok(Operations::Add),
            2 => Ok(Operations::Ld),
            3 => Ok(Operations::St),
            4 => Ok(Operations::Jsr),
            5 => Ok(Operations::And),
            6 => Ok(Operations::Ldr),
            7 => Ok(Operations::Str),
            8 => Ok(Operations::Rti),
            9 => Ok(Operations::Not),
            10 => Ok(Operations::Ldi),
            11 => Ok(Operations::Sti),
            12 => Ok(Operations::Jmp),
            13 => Ok(Operations::Res),
            14 => Ok(Operations::Lea),
            15 => Ok(Operations::Trap),
            op_code => Err(Errors::BadOpCode(op_code)),
        }
    }
}

impl vstd::std_specs::convert::TryFromSpecImpl<u16> for Operations {
    open spec fn obeys_try_from_spec() -> bool {
        true
    }

    open spec fn try_from_spec(v: u16) -> Result<Operations, Errors> {
        operation_of(v)
    }
}

/// The general register selected by the three bits of `instruction` at `shift`.
pub fn register_at(instruction: u16, shift: u16) -> (r: Registers)
    requires
        shift <= 13,
    ensures
        r.spec_index() == (instruction >> shift) & 7,
        r.spec_index() < 8,
{
    let v: u16 = (instruction >> shift) & 0x7;
    assert(v < 8) by (bit_vector)
        requires
            v == (instruction >> shift) & 7,
    ;
    let r: Result<Registers, Errors> = Registers::try_from(v);
    r.unwrap()
}

} // verus!
