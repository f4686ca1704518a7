//! Dispatch and the fetch / execute cycle.
use vstd::prelude::*;
use crate::word::wadd;
use crate::machine::{State, Vm, Errors};
use crate::decode::{opcode, Operations, lemma_field_bounds};
use crate::operations::{
    and, not, load, load_register, load_indirect, load_effective_address, store,
    store_register, store_indirect, jump, jump_to_subrutine, conditional_branch, add_spec,
    and_spec, not_spec, ld_spec, ldr_spec, ldi_spec, lea_spec, st_spec, str_spec, sti_spec,
    jmp_spec, jsr_spec, br_spec,
};
use crate::traps::{trap, trap_spec};

verus! {

/// What executing `i` does to `s`, and what it writes to the console.
/// RTI and the reserved opcode are illegal.
pub open spec fn exec_spec(s: Vm, i: u16) -> Result<(Vm, Seq<u8>), Errors> {
    let op = opcode(i);
    if op == 0 {
        Ok((br_spec(s, i), Seq::empty()))
    } else if op == 1 {
        Ok((add_spec(s, i), Seq::empty()))
    } else if op == 2 {
        Ok((ld_spec(s, i), Seq::empty()))
    } else if op == 3 {
        Ok((st_spec(s, i), Seq::empty()))
    } else if op == 4 {
        Ok((jsr_spec(s, i), Seq::empty()))
    } else if op == 5 {
        Ok((and_spec(s, i), Seq::empty()))
    } else if op == 6 {
        Ok((ldr_spec(s, i), Seq::empty()))
    } else if op == 7 {
        Ok((str_spec(s, i), Seq::empty()))
    } else if op == 9 {
        Ok((not_spec(s, i), Seq::empty()))
    } else if op == 10 {
        Ok((ldi_spec(s, i), Seq::empty()))
    } else if op == 11 {
        Ok((sti_spec(s, i), Seq::empty()))
    } else if op == 12 {
        Ok((jmp_spec(s, i), Seq::empty()))
    } else if op == 14 {
        Ok((lea_spec(s, i), Seq::empty()))
    } else if op == 15 {
        trap_spec(s, i)
    } else {
        Err(Errors::BadOpCode(op))
    }
}

/// The state after the fetch: the instruction word has been read at PC
/// and PC advanced by one.
pub open spec fn fetched(s: Vm) -> Vm {
    s.polled(s.pc()).with_pc(wadd(s.pc(), 1))
}

/// One cycle: nothing happens while the machine is halted or waits for a
/// byte; otherwise fetch, advance PC, execute. An illegal instruction
/// leaves the machine as the fetch left it.
pub open spec fn step_spec(s: Vm) -> (Vm, Result<Seq<u8>, Errors>) {
    if !s.running || s.waiting is Some {
        (s, Ok(Seq::empty()))
    } else {
        match exec_spec(fetched(s), s.read_value(s.pc())) {
            Ok((t, out)) => (t, Ok(out)),
            Err(e) => (fetched(s), Err(e)),
        }
    }
}

/// At most `n` cycles, stopping early on HALT, on a wait for input, or on
/// an error; the output is what the cycles wrote, in order.
pub open spec fn run_spec(s: Vm, n: nat) -> (Vm, Result<Seq<u8>, Errors>)
    decreases n,
{
    if n == 0 || !s.running || s.waiting is Some {
        (s, Ok(Seq::empty()))
    } else {
        let (s1, r) = step_spec(s);
        match r {
            Err(e) => (s1, Err(e)),
            Ok(out) => {
                let (s2, r2) = run_spec(s1, (n - 1) as nat);
                match r2 {
                    Ok(rest) => (s2, Ok(out + rest)),
                    Err(e) => (s2, Err(e)),
                }
            },
        }
    }
}

fn quiet(r: Result<(), Errors>) -> (out: Result<Vec<u8>, Errors>)
    requires
        r is Ok,
    ensures
        out matches Ok(v) && v@ == Seq::<u8>::empty(),
{
    Ok(Vec::new())
}

/// Executes `instruction`, whose fetch has already advanced PC, and returns
/// what it writes to the console. On an error the state is unchanged.
pub fn run_step(instruction: u16, state: &mut State) -> (r: Result<Vec<u8>, Errors>)
    requires
        old(state)@.wf(),
    ensures
        final(state)@.wf(),
        match r {
            Ok(out) => exec_spec(old(state)@, instruction) == Ok::<(Vm, Seq<u8>), Errors>((final(state)@, out@)),
            Err(e) => exec_spec(old(state)@, instruction) == Err::<(Vm, Seq<u8>), Errors>(e)
                && final(state)@ == old(state)@,
        },
{
    proof {
        lemma_field_bounds(instruction);
    }
    let op_code = instruction >> 12;
    let operation: Result<Operations, Errors> = Operations::try_from(op_code);
    let operation_code = operation.unwrap();
    match operation_code {
        Operations::Br => {
            conditional_branch(instruction, state);
            Ok(Vec::new())
        },
        Operations::Add => quiet(crate::operations::add(instruction, state)),
        Operations::Ld => quiet(load(instruction, state)),
        Operations::St => quiet(store(instruction, state)),
        Operations::Jsr => quiet(jump_to_subrutine(instruction, state)),
        Operations::And => quiet(and(instruction, state)),
        Operations::Ldr => quiet(load_register(instruction, state)),
        Operations::Str => quiet(store_register(instruction, state)),
        Operations::Rti => Err(Errors::BadOpCode(op_code)),
        Operations::Not => quiet(not(instruction, state)),
        Operations::Ldi => quiet(load_indirect(instruction, state)),
        Operations::Sti => quiet(store_indirect(instruction, state)),
        Operations::Jmp => quiet(jump(instruction, state)),
        Operations::Res => Err(Errors::BadOpCode(op_code)),
        Operations::Lea => quiet(load_effective_address(instruction, state)),
        Operations::Trap => trap(instruction, state),
    }
}

impl State {
    /// One fetch / execute cycle (see `step_spec`); returns what the
    /// instruction writes to the console.
    pub fn step(&mut self) -> (r: Result<Vec<u8>, Errors>)
        requires
            old(self)@.wf(),
        ensures
            final(self)@.wf(),
            final(self)@ == step_spec(old(self)@).0,
            match r {
                Ok(out) => step_spec(old(self)@).1 == Ok::<Seq<u8>, Errors>(out@),
                Err(e) => step_spec(old(self)@).1 == Err::<Seq<u8>, Errors>(e),
            },
    {
        if !self.running || self.waiting.is_some() {
            return Ok(Vec::new());
        }
        let memory_address = self.register_read(crate::machine::Registers::Pc);
        let instruction = self.memory_read(memory_address as usize);
        self.increment_pc();
        run_step(instruction, self)
    }
}

/// Runs at most `max_steps` cycles (see `run_spec`) and returns everything
/// they wrote to the console.
pub fn run_loop(state: &mut State, max_steps: u64) -> (r: Result<Vec<u8>, Errors>)
    requires
        old(state)@.wf(),
    ensures
        final(state)@.wf(),
        final(state)@ == run_spec(old(state)@, max_steps as nat).0,
        match r {
            Ok(out) => run_spec(old(state)@, max_steps as nat).1 == Ok::<Seq<u8>, Errors>(out@),
            Err(e) => run_spec(old(state)@, max_steps as nat).1 == Err::<Seq<u8>, Errors>(e),
        },
{
    let ghost s0 = state@;
    let mut out: Vec<u8> = Vec::new();
    let mut left: u64 = max_steps;
    while left > 0 && state.is_running() && !state.is_waiting()
        invariant
            state@.wf(),
            s0 == old(state)@,
            run_spec(s0, max_steps as nat) == ({
                let (s, r) = run_spec(state@, left as nat);
                (s, match r {
                    Ok(rest) => Ok(out@ + rest),
                    Err(e) => Err(e),
                })
            }),
        decreases left,
    {
        let ghost before = state@;
        let ghost out_before = out@;
        match state.step() {
            Err(e) => {
                assert(run_spec(before, left as nat) == (state@, Err::<Seq<u8>, Errors>(e)));
                return Err(e);
            },
            Ok(mut produced) => {
                out.append(&mut produced);
                proof {
                    let (s2, r2) = run_spec(state@, (left - 1) as nat);
                    match r2 {
                        Ok(rest) => {
                            assert(out_before + (step_spec(before).1->Ok_0 + rest) =~= out@ + rest);
                        },
                        Err(e) => {},
                    }
                }
            },
        }
        left = left - 1;
    }
    proof {
        assert(out@ + Seq::<u8>::empty() =~= out@);
    }
    Ok(out)
}

} // verus!
