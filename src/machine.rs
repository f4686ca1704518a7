//! Machine state: memory, register file, running flag and the keyboard latch,
//! with the abstract model `Vm` that every contract is stated over.
use vstd::prelude::*;
use crate::word::{FL_ZRO, is_flag, flag_of, wadd, sign_flag};

verus! {

/// Number of words of memory.
pub const MEM_MAX: usize = 0x10000;

/// Where execution starts.
pub const PC_START: u16 = 0x3000;

/// Address of the keyboard status register.
pub const KBSR: u16 = 0xFE00;

/// Address of the keyboard data register.
pub const KBDR: u16 = 0xFE02;

/// Slot of the program counter in the register file.
pub const PC_SLOT: usize = 8;

/// Slot of the condition register in the register file.
pub const COND_SLOT: usize = 9;

/// Registers that live in memory.
#[derive(Clone, Copy, Debug, PartialEq, Eq, Structural)]
pub enum MemoryMappedRegisters {
    /// Keyboard status: bit 15 set when a key is available.
    Kbsr,
    /// Keyboard data: the last key read.
    Kbdr,
}

impl MemoryMappedRegisters {
    pub open spec fn spec_address(self) -> u16 {
        match self {
            MemoryMappedRegisters::Kbsr => KBSR,
            MemoryMappedRegisters::Kbdr => KBDR,
        }
    }

    /// The memory address of the register.
    #[verifier::when_used_as_spec(spec_address)]
    pub fn address(self) -> (r: u16)
        ensures
            r == self.spec_address(),
    {
        match self {
            MemoryMappedRegisters::Kbsr => KBSR,
            MemoryMappedRegisters::Kbdr => KBDR,
        }
    }
}

/// The trap service routines.
#[derive(Clone, Copy, Debug, PartialEq, Eq, Structural)]
pub enum Traps {
    /// Read one byte into R0.
    Getc,
    /// Write the low byte of R0.
    Out,
    /// Write a string of one character per word.
    Puts,
    /// Prompt, read one byte into R0 and echo it.
    In,
    /// Write a string of two characters per word.
    Putsp,
    /// Stop the machine.
    Halt,
}

impl Traps {
    pub open spec fn spec_code(self) -> u16 {
        match self {
            Traps::Getc => 0x20,
            Traps::Out => 0x21,
            Traps::Puts => 0x22,
            Traps::In => 0x23,
            Traps::Putsp => 0x24,
            Traps::Halt => 0x25,
        }
    }

    /// The trap vector of the routine.
    #[verifier::when_used_as_spec(spec_code)]
    pub fn code(self) -> (r: u16)
        ensures
            r == self.spec_code(),
    {
        match self {
            Traps::Getc => 0x20,
            Traps::Out => 0x21,
            Traps::Puts => 0x22,
            Traps::In => 0x23,
            Traps::Putsp => 0x24,
            Traps::Halt => 0x25,
        }
    }
}

/// The routine with trap vector `v`, if any.
pub open spec fn trap_of(v: u16) -> Result<Traps, Errors> {
    if v == 0x20 {
        Ok(Traps::Getc)
    } else if v == 0x21 {
        Ok(Traps::Out)
    } else if v == 0x22 {
        Ok(Traps::Puts)
    } else if v == 0x23 {
        Ok(Traps::In)
    } else if v == 0x24 {
        Ok(Traps::Putsp)
    } else if v == 0x25 {
        Ok(Traps::Halt)
    } else {
        Err(Errors::BadTrapCode(v))
    }
}

impl TryFrom<u16> for Traps {
    type Error = Errors;

    fn try_from(value: u16) -> Result<Traps, Errors> {
        match value {
            0x20 => Ok(Traps::Getc),
            0x21 => Ok(Traps::Out),
            0x22 => Ok(Traps::Puts),
            0x23 => Ok(Traps::In),
            0x24 => Ok(Traps::Putsp),
            0x25 => Ok(Traps::Halt),
            badcode => Err(Errors::BadTrapCode(badcode)),
        }
    }
}

impl vstd::std_specs::convert::TryFromSpecImpl<u16> for Traps {
    open spec fn obeys_try_from_spec() -> bool {
        true
    }

    open spec fn try_from_spec(v: u16) -> Result<Traps, Errors> {
        trap_of(v)
    }
}

/// Everything that can stop the machine or its host.
#[derive(Clone, Copy, Debug, PartialEq, Eq, Structural)]
pub enum Errors {
    /// A register selector outside 0..=7.
    BadRegisterReference(u16),
    /// An opcode that the machine does not execute (RTI, reserved).
    BadOpCode(u16),
    /// An object image that cannot be read, or is shorter than its origin word.
    BadFile,
    /// The console could not be put into raw mode.
    DisableInputBuffering,
    /// The console mode could not be restored.
    RestoreInputBuffering,
    /// A TRAP with an unknown vector.
    BadTrapCode(u16),
    /// Console input or output failed during a trap routine.
    Trap(Traps),
    /// No image was given.
    FewArguments,
    /// The console settings could not be read.
    BadTermios,
    /// An image that does not fit in memory above its origin.
    BadImageSize,
}

/// Slots of the register file.
#[derive(Clone, Copy, Debug, PartialEq, Eq, Structural)]
pub enum Registers {
    R0,
    R1,
    R2,
    R3,
    R4,
    R5,
    R6,
    R7,
    /// Program counter.
    Pc,
    /// Condition flags.
    Flags,
}

impl Registers {
    pub open spec fn spec_index(self) -> usize {
        match self {
            Registers::R0 => 0,
            Registers::R1 => 1,
            Registers::R2 => 2,
            Registers::R3 => 3,
            Registers::R4 => 4,
            Registers::R5 => 5,
            Registers::R6 => 6,
            Registers::R7 => 7,
            Registers::Pc => 8,
            Registers::Flags => 9,
        }
    }

    /// The slot of the register in the register file.
    #[verifier::when_used_as_spec(spec_index)]
    pub fn index(self) -> (r: usize)
        ensures
            r == self.spec_index(),
    {
        match self {
            Registers::R0 => 0,
            Registers::R1 => 1,
            Registers::R2 => 2,
            Registers::R3 => 3,
            Registers::R4 => 4,
            Registers::R5 => 5,
            Registers::R6 => 6,
            Registers::R7 => 7,
            Registers::Pc => 8,
            Registers::Flags => 9,
        }
    }
}

/// The general register with selector `v`, if `v` is one.
pub open spec fn register_of(v: u16) -> Result<Registers, Errors> {
    if v == 0 {
        Ok(Registers::R0)
    } else if v == 1 {
        Ok(Registers::R1)
    } else if v == 2 {
        Ok(Registers::R2)
    } else if v == 3 {
        Ok(Registers::R3)
    } else if v == 4 {
        Ok(Registers::R4)
    } else if v == 5 {
        Ok(Registers::R5)
    } else if v == 6 {
        Ok(Registers::R6)
    } else if v == 7 {
        Ok(Registers::R7)
    } else {
        Err(Errors::BadRegisterReference(v))
    }
}

impl TryFrom<u16> for Registers {
    type Error = Errors;

    fn try_from(value: u16) -> Result<Registers, Errors> {
        match value {
            0 => Ok(Registers::R0),
            1 => Ok(Registers::R1),
            2 => Ok(Registers::R2),
            3 => Ok(Registers::R3),
            4 => Ok(Registers::R4),
            5 => Ok(Registers::R5),
            6 => Ok(Registers::R6),
            7 => Ok(Registers::R7),
            register => Err(Errors::BadRegisterReference(register)),
        }
    }
}

impl vstd::std_specs::convert::TryFromSpecImpl<u16> for Registers {
    open spec fn obeys_try_from_spec() -> bool {
        true
    }

    open spec fn try_from_spec(v: u16) -> Result<Registers, Errors> {
        register_of(v)
    }
}

/// The condition flags as values of the condition register.
#[derive(Clone, Copy, Debug, PartialEq, Eq, Structural)]
pub enum Flags {
    Pos,
    Zro,
    Neg,
}

impl Flags {
    pub open spec fn spec_bits(self) -> u16 {
        match self {
            Flags::Pos => 1,
            Flags::Zro => 2,
            Flags::Neg => 4,
        }
    }

    /// The value of the condition register that holds this flag.
    #[verifier::when_used_as_spec(spec_bits)]
    pub fn bits(self) -> (r: u16)
        ensures
            r == self.spec_bits(),
            is_flag(r),
    {
        match self {
            Flags::Pos => 1,
            Flags::Zro => 2,
            Flags::Neg => 4,
        }
    }
}

/// The machine as a mathematical value.
pub struct Vm {
    /// 65,536 words of memory.
    pub mem: Seq<u16>,
    /// R0 to R7, then the program counter, then the condition register.
    pub regs: Seq<u16>,
    /// Cleared by HALT only.
    pub running: bool,
    /// A byte that the console has made available and the machine has not taken yet.
    pub key: Option<u8>,
    /// GETC or IN, when one of them waits for a byte from the console.
    pub waiting: Option<Traps>,
}

impl Vm {
    pub open spec fn wf(self) -> bool {
        &&& self.mem.len() == MEM_MAX
        &&& self.regs.len() == 10
        &&& is_flag(self.regs[COND_SLOT as int])
        &&& (self.waiting matches Some(t) ==> (t == Traps::Getc || t == Traps::In) && self.key is None)
    }

    pub open spec fn pc(self) -> u16 {
        self.regs[PC_SLOT as int]
    }

    pub open spec fn cond(self) -> u16 {
        self.regs[COND_SLOT as int]
    }

    pub open spec fn reg(self, r: u16) -> u16 {
        self.regs[r as int]
    }

    /// The word at `a`, without side effect.
    pub open spec fn at(self, a: u16) -> u16 {
        self.mem[a as int]
    }

    /// The state after a read of `a`: a read of the keyboard status register
    /// takes the latched key, if any, into the keyboard registers.
    pub open spec fn polled(self, a: u16) -> Vm {
        if a == KBSR {
            match self.key {
                Some(c) => Vm {
                    mem: self.mem.update(KBSR as int, 0x8000).update(KBDR as int, c as u16),
                    key: None,
                    ..self
                },
                None => Vm { mem: self.mem.update(KBSR as int, 0), ..self },
            }
        } else {
            self
        }
    }

    /// The word that a read of `a` returns.
    pub open spec fn read_value(self, a: u16) -> u16 {
        self.polled(a).at(a)
    }

    pub open spec fn with_reg(self, r: int, v: u16) -> Vm {
        Vm { regs: self.regs.update(r, v), ..self }
    }

    pub open spec fn with_pc(self, v: u16) -> Vm {
        self.with_reg(PC_SLOT as int, v)
    }

    pub open spec fn with_mem(self, a: u16, v: u16) -> Vm {
        Vm { mem: self.mem.update(a as int, v), ..self }
    }

    /// Writes general register `r` and sets the condition flag from the value.
    pub open spec fn set_result(self, r: u16, v: u16) -> Vm {
        Vm { regs: self.regs.update(r as int, v).update(COND_SLOT as int, flag_of(v)), ..self }
    }

    /// The state right after construction.
    pub open spec fn initial() -> Vm {
        Vm {
            mem: Seq::new(MEM_MAX as nat, |i: int| 0u16),
            regs: Seq::new(10, |i: int| if i == PC_SLOT { PC_START } else if i == COND_SLOT { FL_ZRO } else { 0u16 }),
            running: true,
            key: None,
            waiting: None,
        }
    }
}

/// The machine.
pub struct State {
    pub(crate) memory: Vec<u16>,
    pub(crate) registers: Vec<u16>,
    pub(crate) running: bool,
    pub(crate) key: Option<u8>,
    pub(crate) waiting: Option<Traps>,
}

impl View for State {
    type V = Vm;

    open(crate) spec fn view(&self) -> Vm {
        Vm {
            mem: self.memory@,
            regs: self.registers@,
            running: self.running,
            key: self.key,
            waiting: self.waiting,
        }
    }
}

impl State {
    /// Memory and registers zero, PC at the start address, flag ZRO, running.
    pub fn default() -> (r: State)
        ensures
            r@ == Vm::initial(),
            r@.wf(),
    {
        let mut registers = vec![0u16; 10];
        registers.set(Registers::Pc.index(), PC_START);
        registers.set(Registers::Flags.index(), Flags::Zro.bits());
        let state = State { memory: vec![0u16; MEM_MAX], registers, running: true, key: None, waiting: None };
        assert(state@.mem =~= Vm::initial().mem);
        assert(state@.regs =~= Vm::initial().regs);
        state
    }

    /// Stores `value` at `address`.
    pub fn memory_write(&mut self, address: usize, value: u16)
        requires
            old(self)@.wf(),
            address < MEM_MAX,
        ensures
            final(self)@ == old(self)@.with_mem(address as u16, value),
            final(self)@.wf(),
    {
        self.memory.set(address, value);
    }

    /// The word at `address`. A read of the keyboard status register first
    /// polls the console: a latched key sets the status to 0x8000 and the data
    /// register to the key; without one the status becomes zero.
    pub fn memory_read(&mut self, address: usize) -> (r: u16)
        requires
            old(self)@.wf(),
            address < MEM_MAX,
        ensures
            final(self)@ == old(self)@.polled(address as u16),
            r == old(self)@.read_value(address as u16),
            final(self)@.wf(),
    {
        if address == KBSR as usize {
            match self.key {
                Some(c) => {
                    self.memory.set(KBSR as usize, 0x8000);
                    self.memory.set(KBDR as usize, c as u16);
                    self.key = None;
                },
                None => {
                    self.memory.set(KBSR as usize, 0);
                },
            }
        }
        self.memory[address]
    }

    /// The value of register `address`.
    pub fn register_read(&self, address: Registers) -> (r: u16)
        requires
            self@.wf(),
        ensures
            r == self@.regs[address.spec_index() as int],
    {
        self.registers[address.index()]
    }

    /// Sets register `address` to `value`.
    pub fn register_write(&mut self, address: Registers, value: u16)
        requires
            old(self)@.wf(),
            address == Registers::Flags ==> is_flag(value),
        ensures
            final(self)@ == old(self)@.with_reg(address.spec_index() as int, value),
            final(self)@.wf(),
    {
        self.registers.set(address.index(), value);
    }

    /// Sets the condition register from the sign of general register `r`.
    pub fn update_flags(&mut self, register: Registers)
        requires
            old(self)@.wf(),
            register.spec_index() < 8,
        ensures
            final(self)@ == old(self)@.with_reg(
                COND_SLOT as int,
                flag_of(old(self)@.regs[register.spec_index() as int]),
            ),
            final(self)@.wf(),
    {
        let flag = sign_flag(self.registers[register.index()]);
        self.registers.set(COND_SLOT, flag);
    }

    /// Advances the program counter by one, wrapping.
    pub fn increment_pc(&mut self)
        requires
            old(self)@.wf(),
        ensures
            final(self)@ == old(self)@.with_pc(wadd(old(self)@.pc(), 1)),
            final(self)@.wf(),
    {
        let pc = self.registers[PC_SLOT];
        self.registers.set(PC_SLOT, pc.wrapping_add(1));
    }

    /// True until HALT.
    pub fn is_running(&self) -> (r: bool)
        ensures
            r == self@.running,
    {
        self.running
    }

    /// True while GETC or IN waits for a byte; hand it over with `accept_key`.
    pub fn is_waiting(&self) -> (r: bool)
        ensures
            r == self@.waiting is Some,
    {
        self.waiting.is_some()
    }

    /// The routine that waits for a byte, if any.
    pub fn waiting_for(&self) -> (r: Option<Traps>)
        ensures
            r == self@.waiting,
    {
        self.waiting
    }

    /// True when the keyboard latch is empty, so that the console may be polled.
    pub fn wants_key(&self) -> (r: bool)
        ensures
            r == self@.key is None,
    {
        self.key.is_none()
    }
}

} // verus!
