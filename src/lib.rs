//! An interpreter for the LC-3 instruction set: machine state, decoder,
//! operation kernel, trap services, fetch / execute cycle and the
//! object-image loader. The host supplies console input as bytes and writes
//! out the bytes that the machine hands back.
pub mod word;
pub mod machine;
pub mod decode;
pub mod operations;
pub mod traps;
pub mod execute;
pub mod file_management;
pub mod memory_management;
pub mod theorems;

pub use word::sign_extend;
pub use machine::{State, Registers, Flags, Traps, Errors, MemoryMappedRegisters, MEM_MAX, PC_START};
pub use decode::Operations;
pub use operations::{
    add, and, not, load, load_register, load_indirect, load_effective_address, store,
    store_register, store_indirect, jump, jump_to_subrutine, conditional_branch,
};
pub use traps::trap;
pub use execute::{run_step, run_loop};
pub use file_management::load_image;
