//! The trap service routines. Console output is handed back as bytes; console
//! input comes through the keyboard latch, or through `accept_key` while GETC
//! or IN waits.
use vstd::prelude::*;
use crate::word::wadd;
use crate::machine::{State, Vm, Registers, Errors, Traps, trap_of, MEM_MAX};
use crate::decode::trap_vector;

verus! {

/// The low byte of a word.
pub open spec fn lo(w: u16) -> u8 {
    (w % 0x100) as u8
}

/// The high byte of a word.
pub open spec fn hi(w: u16) -> u8 {
    (w / 0x100) as u8
}

/// What PUTS (one byte per word) or PUTSP (two per word) writes for the word `w`.
pub open spec fn word_bytes(w: u16, packed: bool) -> Seq<u8> {
    if packed && hi(w) != 0 {
        seq![lo(w), hi(w)]
    } else {
        seq![lo(w)]
    }
}

/// A string scan from `a`, for at most `fuel` words: each word is read (with
/// its keyboard side effect); the scan stops after the first zero word.
pub open spec fn scan(s: Vm, a: u16, fuel: nat, packed: bool) -> (Vm, Seq<u8>)
    decreases fuel,
{
    if fuel == 0 {
        (s, Seq::empty())
    } else {
        let w = s.read_value(a);
        let s1 = s.polled(a);
        if w == 0 {
            (s1, Seq::empty())
        } else {
            let (s2, rest) = scan(s1, wadd(a, 1), (fuel - 1) as nat, packed);
            (s2, word_bytes(w, packed) + rest)
        }
    }
}

/// "Enter character: "
pub open spec fn prompt() -> Seq<u8> {
    seq![69u8, 110, 116, 101, 114, 32, 99, 104, 97, 114, 97, 99, 116, 101, 114, 58, 32]
}

/// "HALT"
pub open spec fn halt_text() -> Seq<u8> {
    seq![72u8, 65, 76, 84]
}

/// R0 takes the byte `c` and the flags follow it.
pub open spec fn take_byte(s: Vm, c: u8) -> Vm {
    Vm { key: None, waiting: None, ..s }.set_result(0, c as u16)
}

pub open spec fn getc_spec(s: Vm) -> (Vm, Seq<u8>) {
    match s.key {
        Some(c) => (take_byte(s, c), Seq::empty()),
        None => (Vm { waiting: Some(Traps::Getc), ..s }, Seq::empty()),
    }
}

pub open spec fn in_spec(s: Vm) -> (Vm, Seq<u8>) {
    match s.key {
        Some(c) => (take_byte(s, c), prompt().push(c)),
        None => (Vm { waiting: Some(Traps::In), ..s }, prompt()),
    }
}

pub open spec fn out_spec(s: Vm) -> (Vm, Seq<u8>) {
    (s, seq![lo(s.reg(0))])
}

pub open spec fn puts_spec(s: Vm) -> (Vm, Seq<u8>) {
    scan(s, s.reg(0), MEM_MAX as nat, false)
}

pub open spec fn putsp_spec(s: Vm) -> (Vm, Seq<u8>) {
    scan(s, s.reg(0), MEM_MAX as nat, true)
}

pub open spec fn halt_spec(s: Vm) -> (Vm, Seq<u8>) {
    (Vm { running: false, ..s }, halt_text())
}

pub open spec fn routine_spec(s: Vm, t: Traps) -> (Vm, Seq<u8>) {
    match t {
        Traps::Getc => getc_spec(s),
        Traps::Out => out_spec(s),
        Traps::Puts => puts_spec(s),
        Traps::In => in_spec(s),
        Traps::Putsp => putsp_spec(s),
        Traps::Halt => halt_spec(s),
    }
}

/// TRAP: the routine that the low eight bits name, or `BadTrapCode`.
pub open spec fn trap_spec(s: Vm, i: u16) -> Result<(Vm, Seq<u8>), Errors> {
    match trap_of(trap_vector(i)) {
        Ok(t) => Ok(routine_spec(s, t)),
        Err(e) => Err(e),
    }
}

/// The byte `c` from the console: it completes a waiting GETC or IN (IN
/// echoes it), or else fills the keyboard latch.
pub open spec fn accept_spec(s: Vm, c: u8) -> (Vm, Seq<u8>) {
    match s.waiting {
        Some(t) => (take_byte(s, c), if t == Traps::In { seq![c] } else { Seq::empty() }),
        None => (Vm { key: Some(c), ..s }, Seq::empty()),
    }
}

fn push_all(out: &mut Vec<u8>, bytes: &[u8])
    ensures
        final(out)@ == old(out)@ + bytes@,
{
    let mut i: usize = 0;
    while i < bytes.len()
        invariant
            i <= bytes@.len(),
            out@ == old(out)@ + bytes@.subrange(0, i as int),
        decreases bytes@.len() - i,
    {
        out.push(bytes[i]);
        i = i + 1;
        assert(bytes@.subrange(0, i as int) =~= bytes@.subrange(0, i - 1 as int).push(bytes@[i - 1]));
    }
    assert(bytes@.subrange(0, bytes@.len() as int) =~= bytes@);
}

/// R0 takes `c`, the flags follow it, and nothing waits any more.
fn set_r0_from(state: &mut State, c: u8)
    requires
        old(state)@.wf(),
        old(state)@.key is None || old(state)@.waiting is None,
    ensures
        final(state)@ == take_byte(old(state)@, c),
        final(state)@.wf(),
{
    state.key = None;
    state.waiting = None;
    state.register_write(Registers::R0, c as u16);
    state.update_flags(Registers::R0);
    assert(final(state)@.regs =~= take_byte(old(state)@, c).regs);
}

impl State {
    /// Hands the machine a byte from the console. While GETC or IN waits,
    /// it completes that routine and returns IN's echo; otherwise the byte
    /// goes into the keyboard latch, which must be empty.
    pub fn accept_key(&mut self, c: u8) -> (out: Vec<u8>)
        requires
            old(self)@.wf(),
            old(self)@.key is None,
        ensures
            (final(self)@, out@) == accept_spec(old(self)@, c),
            final(self)@.wf(),
    {
        match self.waiting {
            Some(t) => {
                set_r0_from(self, c);
                let mut out: Vec<u8> = Vec::new();
                if t == Traps::In {
                    out.push(c);
                }
                proof {
                    assert(out@ =~= accept_spec(old(self)@, c).1);
                }
                out
            },
            None => {
                self.key = Some(c);
                Vec::new()
            },
        }
    }
}

/// GETC: R0 takes the latched key; without one the machine waits for a byte.
fn trap_routine_getc(state: &mut State, out: &mut Vec<u8>)
    requires
        old(state)@.wf(),
    ensures
        (final(state)@, final(out)@) == {
            let (s, o) = getc_spec(old(state)@);
            (s, old(out)@ + o)
        },
        final(state)@.wf(),
{
    match state.key {
        Some(c) => set_r0_from(state, c),
        None => state.waiting = Some(Traps::Getc),
    }
    assert(out@ =~= old(out)@ + Seq::<u8>::empty());
}

/// IN: prompts, then as GETC, and echoes the byte.
fn trap_routine_in(state: &mut State, out: &mut Vec<u8>)
    requires
        old(state)@.wf(),
    ensures
        (final(state)@, final(out)@) == {
            let (s, o) = in_spec(old(state)@);
            (s, old(out)@ + o)
        },
        final(state)@.wf(),
{
    let text: [u8; 17] = [69, 110, 116, 101, 114, 32, 99, 104, 97, 114, 97, 99, 116, 101, 114, 58, 32];
    assert(text@ =~= prompt());
    push_all(out, &text);
    match state.key {
        Some(c) => {
            set_r0_from(state, c);
            out.push(c);
            assert(out@ =~= old(out)@ + prompt().push(c));
        },
        None => state.waiting = Some(Traps::In),
    }
}

/// OUT: writes the low byte of R0.
fn trap_routine_out(state: &State, out: &mut Vec<u8>)
    requires
        state@.wf(),
    ensures
        final(out)@ == old(out)@ + out_spec(state@).1,
{
    let character = state.register_read(Registers::R0);
    out.push((character & 0xFF) as u8);
    assert(character & 0xFF == character % 0x100) by (bit_vector);
    assert(final(out)@ =~= old(out)@ + out_spec(state@).1);
}

/// PUTS and PUTSP: the string that starts at the address in R0, read through
/// the keyboard-aware read, up to the first zero word and at most one pass
/// over memory. PUTSP writes a word's high byte after its low byte unless
/// it is zero.
fn write_string(state: &mut State, out: &mut Vec<u8>, packed: bool)
    requires
        old(state)@.wf(),
    ensures
        (final(state)@, final(out)@) == {
            let (s, o) = scan(old(state)@, old(state)@.reg(0), MEM_MAX as nat, packed);
            (s, old(out)@ + o)
        },
        final(state)@.wf(),
{
    let ghost s0 = state@;
    let ghost out0 = out@;
    let mut address = state.register_read(Registers::R0);
    let mut left: usize = MEM_MAX;
    while left > 0
        invariant_except_break
            ({
                let (s, o) = scan(state@, address, left as nat, packed);
                let (t, p) = scan(s0, s0.reg(0), MEM_MAX as nat, packed);
                s == t && out@ + o == out0 + p
            }),
        invariant
            state@.wf(),
        ensures
            ({
                let (t, p) = scan(s0, s0.reg(0), MEM_MAX as nat, packed);
                state@ == t && out@ == out0 + p
            }),
        decreases left,
    {
        let ghost before = state@;
        let ghost out_before = out@;
        let character = state.memory_read(address as usize);
        if character == 0 {
            assert(out@ =~= out@ + Seq::<u8>::empty());
            break;
        }
        out.push((character & 0xFF) as u8);
        assert(character & 0xFF == character % 0x100) by (bit_vector);
        let high = character >> 8;
        assert(high == character / 0x100) by (bit_vector)
            requires
                high == character >> 8,
        ;
        if packed && high != 0 {
            out.push(high as u8);
        }
        proof {
            let w = before.read_value(address);
            let (s2, rest) = scan(state@, wadd(address, 1), (left - 1) as nat, packed);
            assert(out@ =~= out_before + word_bytes(w, packed));
            assert(out_before + (word_bytes(w, packed) + rest) =~= out@ + rest);
        }
        address = address.wrapping_add(1);
        left = left - 1;
    }
    proof {
        if left == 0 {
            assert(out@ =~= out@ + Seq::<u8>::empty());
        }
    }
}

/// HALT: writes "HALT" and clears the running flag.
fn trap_routine_halt(state: &mut State, out: &mut Vec<u8>)
    ensures
        final(state)@ == halt_spec(old(state)@).0,
        final(out)@ == old(out)@ + halt_text(),
{
    let text: [u8; 4] = [72, 65, 76, 84];
    assert(text@ =~= halt_text());
    push_all(out, &text);
    state.running = false;
}

/// TRAP: runs the routine that the low eight bits of `instruction` name and
/// returns what it writes to the console. An unknown vector changes nothing.
pub fn trap(instruction: u16, state: &mut State) -> (r: Result<Vec<u8>, Errors>)
    requires
        old(state)@.wf(),
    ensures
        final(state)@.wf(),
        match r {
            Ok(out) => trap_spec(old(state)@, instruction) == Ok::<(Vm, Seq<u8>), Errors>((final(state)@, out@)),
            Err(e) => trap_spec(old(state)@, instruction) == Err::<(Vm, Seq<u8>), Errors>(e)
                && final(state)@ == old(state)@,
        },
{
    let routine = Traps::try_from(instruction & 0xFF)?;
    let mut out: Vec<u8> = Vec::new();
    match routine {
        Traps::Getc => trap_routine_getc(state, &mut out),
        Traps::Out => trap_routine_out(state, &mut out),
        Traps::Puts => write_string(state, &mut out, false),
        Traps::In => trap_routine_in(state, &mut out),
        Traps::Putsp => write_string(state, &mut out, true),
        Traps::Halt => trap_routine_halt(state, &mut out),
    }
    assert(out@ =~= Seq::<u8>::empty() + out@);
    Ok(out)
}

} // verus!
