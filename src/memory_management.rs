//! Memory access in function form.
use vstd::prelude::*;
use crate::machine::{State, MEM_MAX};

verus! {

/// Stores `value` at `adress`.
pub fn memory_write(adress: usize, value: u16, state: &mut State)
    requires
        old(state)@.wf(),
        adress < MEM_MAX,
    ensures
        final(state)@ == old(state)@.with_mem(adress as u16, value),
        final(state)@.wf(),
{
    state.memory_write(adress, value);
}

/// The word at `address`, with the keyboard poll of `State::memory_read`.
pub fn memory_read(address: usize, state: &mut State) -> (r: u16)
    requires
        old(state)@.wf(),
        address < MEM_MAX,
    ensures
        final(state)@ == old(state)@.polled(address as u16),
        r == old(state)@.read_value(address as u16),
        final(state)@.wf(),
{
    state.memory_read(address)
}

} // verus!
