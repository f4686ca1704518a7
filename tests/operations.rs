use lc3_vm::{
    add, and, conditional_branch, jump, jump_to_subrutine, load, load_effective_address,
    load_indirect, load_register, not, store, store_indirect, store_register, Flags, Registers,
    State,
};

fn blank_state() -> State {
    let mut state = State::default();
    state.register_write(Registers::Pc, 0);
    state
}

#[test]
fn add_test_mode_0() {
    let mut state = blank_state();
    let _ = add(0x1E41, &mut state);
    assert_eq!(state.register_read(Registers::R7), 0);
    assert_eq!(state.register_read(Registers::Flags), Flags::Zro.bits());
    state.register_write(Registers::R1, 2);
    let _ = add(0x1E01, &mut state);
    assert_eq!(state.register_read(Registers::R7), 2);
    assert_eq!(state.register_read(Registers::Flags), Flags::Pos.bits());
}

#[test]
fn add_test_mode_1() {
    let mut state = blank_state();
    let _ = add(0x1E61, &mut state);
    assert_eq!(state.register_read(Registers::R7), 1);
    assert_eq!(state.register_read(Registers::Flags), Flags::Pos.bits());
    let _ = add(0x1E3F, &mut state);
    assert_eq!(state.register_read(Registers::R7), 0xFFFF);
    assert_eq!(state.register_read(Registers::Flags), Flags::Neg.bits());
}

#[test]
fn load_indirect_test() {
    let mut state = blank_state();
    state.memory_write(20, 7890);
    state.memory_write(7890, 5);
    state.register_write(Registers::Pc, 5);
    let _ = load_indirect(0xA40F, &mut state);
    assert_eq!(state.register_read(Registers::R2), 5);
    assert_eq!(state.register_read(Registers::Flags), Flags::Pos.bits());
    state.register_write(Registers::Pc, 25);
    let _ = load_indirect(0xA1FB, &mut state);
    assert_eq!(state.register_read(Registers::R0), 5);
    assert_eq!(state.register_read(Registers::Flags), Flags::Pos.bits());
}

#[test]
fn and_test_mode_0() {
    let mut state = blank_state();
    state.register_write(Registers::R5, 0xFFFF);
    state.register_write(Registers::R6, 0x000F);
    let _ = and(0x5F46, &mut state);
    assert_eq!(state.register_read(Registers::R7), 0x000F);
    assert_eq!(state.register_read(Registers::Flags), Flags::Pos.bits());
}

#[test]
fn and_test_mode_1() {
    let mut state = blank_state();
    state.register_write(Registers::R5, 0xFFFF);
    let _ = and(0x5F66, &mut state);
    assert_eq!(state.register_read(Registers::R7), 0x0006);
    assert_eq!(state.register_read(Registers::Flags), Flags::Pos.bits());
    let _ = and(0x5F76, &mut state);
    assert_eq!(state.register_read(Registers::R7), 0xFFF6);
    assert_eq!(state.register_read(Registers::Flags), Flags::Neg.bits());
}

#[test]
fn conditional_branch_test() {
    let mut state = blank_state();
    state.register_write(Registers::Flags, Flags::Neg.bits());
    conditional_branch(0x805, &mut state);
    conditional_branch(0x405, &mut state);
    conditional_branch(0x205, &mut state);
    assert_eq!(state.register_read(Registers::Pc), 5);
    state.register_write(Registers::Flags, Flags::Zro.bits());
    conditional_branch(0x805, &mut state);
    conditional_branch(0x405, &mut state);
    conditional_branch(0x205, &mut state);
    assert_eq!(state.register_read(Registers::Pc), 10);
    state.register_write(Registers::Flags, Flags::Pos.bits());
    conditional_branch(0x805, &mut state);
    conditional_branch(0x405, &mut state);
    conditional_branch(0x205, &mut state);
    assert_eq!(state.register_read(Registers::Pc), 15);
    conditional_branch(0xFFB, &mut state);
    assert_eq!(state.register_read(Registers::Pc), 10);
}

#[test]
fn jump_test() {
    let mut state = blank_state();
    state.register_write(Registers::R5, 25);
    let _ = jump(0xC140, &mut state);
    assert_eq!(state.register_read(Registers::Pc), 25);
}

#[test]
fn jump_to_subrutine_test() {
    let mut state = blank_state();
    state.register_write(Registers::Pc, 15);
    let _ = jump_to_subrutine(0x4FFB, &mut state);
    assert_eq!(state.register_read(Registers::Pc), 10);
    assert_eq!(state.register_read(Registers::R7), 15);
    state.register_write(Registers::R5, 50);
    let _ = jump_to_subrutine(0x4140, &mut state);
    assert_eq!(state.register_read(Registers::R7), 10);
    assert_eq!(state.register_read(Registers::Pc), 50);
}

#[test]
fn load_test() {
    let mut state = blank_state();
    state.memory_write(50, 70);
    let _ = load(0x2E32, &mut state);
    assert_eq!(state.register_read(Registers::R7), 70);
    assert_eq!(state.register_read(Registers::Flags), Flags::Pos.bits());
}

#[test]
fn load_register_test() {
    let mut state = blank_state();
    state.memory_write(50, 78);
    state.register_write(Registers::R2, 25);
    let _ = load_register(0x6A99, &mut state);
    assert_eq!(state.register_read(Registers::R5), 78);
    assert_eq!(state.register_read(Registers::Flags), Flags::Pos.bits());
}

#[test]
fn load_effective_address_test() {
    let mut state = blank_state();
    state.register_write(Registers::Pc, 15);
    let _ = load_effective_address(0xE21F, &mut state);
    assert_eq!(state.register_read(Registers::R1), 46);
}

#[test]
fn not_test() {
    let mut state = blank_state();
    state.register_write(Registers::R5, 0x00FF);
    let _ = not(0x977F, &mut state);
    assert_eq!(state.register_read(Registers::R3), 0xFF00);
    assert_eq!(state.register_read(Registers::Flags), Flags::Neg.bits());
    let _ = not(0x96FF, &mut state);
    assert_eq!(state.register_read(Registers::R3), 0xFF);
    assert_eq!(state.register_read(Registers::Flags), Flags::Pos.bits());
}

#[test]
fn store_test() {
    let mut state = blank_state();
    state.register_write(Registers::R4, 777);
    let _ = store(0x3819, &mut state);
    assert_eq!(state.memory_read(25), 777);
}

#[test]
fn store_indirect_test() {
    let mut state = blank_state();
    state.memory_write(25, 50);
    state.register_write(Registers::R4, 777);
    let _ = store_indirect(0x3819, &mut state);
    assert_eq!(state.memory_read(50), 777);
}

#[test]
fn store_register_test() {
    let mut state = blank_state();
    state.register_write(Registers::R4, 20);
    state.register_write(Registers::R5, 50);
    let _ = store_register(0x7B3B, &mut state);
    assert_eq!(state.memory_read(15), 50);
}
