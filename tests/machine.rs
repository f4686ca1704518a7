use lc3_vm::{
    add, and, load, load_image, load_indirect, not, run_loop, run_step, sign_extend, store,
    store_indirect, trap, Errors, Flags, MemoryMappedRegisters, Operations, Registers, State,
    Traps, PC_START,
};

fn blank_state() -> State {
    let mut state = State::default();
    state.register_write(Registers::Pc, 0);
    state
}

#[test]
fn loop_test() {
    let mut state = State::default();
    state.memory_write(50, 25689);
    state.memory_write(25689, 25);
    state.memory_write(56, 777);
    state.memory_write(9, 50);
    state.register_write(Registers::Pc, 10);
    state.memory_write(10, 0xAA27);
    state.memory_write(11, 0x27FD);
    state.memory_write(12, 0x12C5);
    state.memory_write(13, 0x56E0);
    state.memory_write(14, 0x0405);
    state.memory_write(20, 0x96FF);
    state.memory_write(21, 0xC140);
    state.memory_write(25, 0x635F);
    state.memory_write(26, 0x4048);
    state.memory_write(777, 0xB34C);
    state.memory_write(778, 0x3E03);
    state.memory_write(779, 0x7A40);
    state.memory_write(780, 0xF025);
    let _ = run_loop(&mut state, 1000);
    assert_eq!(state.memory_read(0), 777);
    assert_eq!(state.memory_read(782), 27);
    assert_eq!(state.memory_read(777), 25);
    assert_eq!(state.register_read(Registers::R7), 27);
}

#[test]
fn full_program_halts_with_output() {
    let mut state = State::default();
    state.register_write(Registers::Pc, 10);
    state.memory_write(10, 0xF025);
    let out = run_loop(&mut state, 1000).unwrap();
    assert_eq!(out, b"HALT".to_vec());
    assert!(!state.is_running());
    assert_eq!(state.register_read(Registers::Pc), 11);
    let again = run_loop(&mut state, 1000).unwrap();
    assert!(again.is_empty());
    assert_eq!(state.register_read(Registers::Pc), 11);
}

#[test]
fn default_state() {
    let state = State::default();
    assert_eq!(state.register_read(Registers::Pc), PC_START);
    assert_eq!(state.register_read(Registers::Flags), Flags::Zro.bits());
    assert_eq!(state.register_read(Registers::R3), 0);
    assert!(state.is_running());
    assert!(!state.is_waiting());
    assert!(state.wants_key());
}

#[test]
fn sign_extend_values() {
    assert_eq!(sign_extend(0x1F, 5), 0xFFFF);
    assert_eq!(sign_extend(0x0F, 5), 0x000F);
    assert_eq!(sign_extend(0x10, 5), 0xFFF0);
    assert_eq!(sign_extend(0x1FB, 9), 0xFFFB);
    assert_eq!(sign_extend(0x0FF, 9), 0x00FF);
    assert_eq!(sign_extend(0x7FB, 11), 0xFFFB);
    assert_eq!(sign_extend(0x20, 6), 0xFFE0);
    assert_eq!(sign_extend(0xFFE5, 5), 0x0005);
}

#[test]
fn ldi_chain() {
    let mut state = blank_state();
    state.memory_write(50, 25689);
    state.memory_write(25689, 25);
    state.register_write(Registers::Pc, 35);
    let _ = load_indirect(0xA40F, &mut state);
    assert_eq!(state.register_read(Registers::R2), 25);
    assert_eq!(state.register_read(Registers::Flags), Flags::Pos.bits());
}

#[test]
fn add_immediate_sign_extension() {
    let mut state = blank_state();
    let _ = add(0x1E3F, &mut state);
    assert_eq!(state.register_read(Registers::R7), 0xFFFF);
    assert_eq!(state.register_read(Registers::Flags), Flags::Neg.bits());
}

#[test]
fn add_wraps() {
    let mut state = blank_state();
    state.register_write(Registers::R1, 0xFFFF);
    state.register_write(Registers::R2, 2);
    let _ = add(0x1042, &mut state);
    assert_eq!(state.register_read(Registers::R0), 1);
    assert_eq!(state.register_read(Registers::Flags), Flags::Pos.bits());
}

#[test]
fn immediate_and_register_modes_agree() {
    let mut with_imm = blank_state();
    let mut with_reg = blank_state();
    with_imm.register_write(Registers::R1, 0x1234);
    with_reg.register_write(Registers::R1, 0x1234);
    with_reg.register_write(Registers::R3, 0xFFFA);
    let _ = add(0x1A7A, &mut with_imm);
    let _ = add(0x1A43, &mut with_reg);
    assert_eq!(with_imm.register_read(Registers::R5), 0x122E);
    assert_eq!(with_reg.register_read(Registers::R5), 0x122E);
    let _ = and(0x5A7A, &mut with_imm);
    let _ = and(0x5A43, &mut with_reg);
    assert_eq!(with_imm.register_read(Registers::R5), 0x1230);
    assert_eq!(with_reg.register_read(Registers::R5), 0x1230);
    assert_eq!(with_imm.register_read(Registers::Flags), with_reg.register_read(Registers::Flags));
}

#[test]
fn not_twice_restores() {
    let mut state = blank_state();
    state.register_write(Registers::R4, 0x8001);
    let _ = not(0x993F, &mut state);
    assert_eq!(state.register_read(Registers::R4), 0x7FFE);
    assert_eq!(state.register_read(Registers::Flags), Flags::Pos.bits());
    let _ = not(0x993F, &mut state);
    assert_eq!(state.register_read(Registers::R4), 0x8001);
    assert_eq!(state.register_read(Registers::Flags), Flags::Neg.bits());
}

#[test]
fn ldi_matches_load_through_pointer() {
    let mut indirect = blank_state();
    indirect.memory_write(3, 40);
    indirect.memory_write(40, 0x8000);
    let _ = load_indirect(0xA603, &mut indirect);
    let mut direct = blank_state();
    direct.memory_write(40, 0x8000);
    direct.register_write(Registers::Pc, 0);
    let _ = load(0x2628, &mut direct);
    assert_eq!(indirect.register_read(Registers::R3), 0x8000);
    assert_eq!(direct.register_read(Registers::R3), 0x8000);
    assert_eq!(indirect.register_read(Registers::Flags), Flags::Neg.bits());
    assert_eq!(direct.register_read(Registers::Flags), Flags::Neg.bits());
}

#[test]
fn sti_matches_store_through_pointer() {
    let mut indirect = blank_state();
    indirect.memory_write(3, 40);
    indirect.register_write(Registers::R6, 99);
    let _ = store_indirect(0xBC03, &mut indirect);
    let mut direct = blank_state();
    direct.register_write(Registers::R6, 99);
    let _ = store(0x3C28, &mut direct);
    assert_eq!(indirect.memory_read(40), 99);
    assert_eq!(direct.memory_read(40), 99);
}

#[test]
fn branch_discipline() {
    let mut state = blank_state();
    state.register_write(Registers::Flags, Flags::Neg.bits());
    let _ = run_step(0x0805, &mut state);
    assert_eq!(state.register_read(Registers::Pc), 5);
    let _ = run_step(0x0405, &mut state);
    assert_eq!(state.register_read(Registers::Pc), 5);
    let _ = run_step(0x0FFB, &mut state);
    assert_eq!(state.register_read(Registers::Pc), 0);
    let _ = run_step(0x0FFB, &mut state);
    assert_eq!(state.register_read(Registers::Pc), 0xFFFB);
}

#[test]
fn branch_without_flags_never_taken() {
    for flag in [Flags::Pos, Flags::Zro, Flags::Neg] {
        let mut state = blank_state();
        state.register_write(Registers::Pc, 100);
        state.register_write(Registers::Flags, flag.bits());
        let _ = run_step(0x0005, &mut state);
        assert_eq!(state.register_read(Registers::Pc), 100);
        let _ = run_step(0x0E05, &mut state);
        assert_eq!(state.register_read(Registers::Pc), 105);
    }
}

#[test]
fn jsr_links_in_both_modes() {
    let mut state = blank_state();
    state.register_write(Registers::Pc, 0x3001);
    let _ = run_step(0x4802, &mut state);
    assert_eq!(state.register_read(Registers::R7), 0x3001);
    assert_eq!(state.register_read(Registers::Pc), 0x3003);
    state.register_write(Registers::R2, 0x4000);
    let _ = run_step(0x4080, &mut state);
    assert_eq!(state.register_read(Registers::R7), 0x3003);
    assert_eq!(state.register_read(Registers::Pc), 0x4000);
    let _ = run_step(0x41C0, &mut state);
    assert_eq!(state.register_read(Registers::R7), 0x4000);
    assert_eq!(state.register_read(Registers::Pc), 0x4000);
}

#[test]
fn lea_uses_pc_after_fetch() {
    let mut state = State::default();
    state.memory_write(0x3000, 0xE405);
    let out = state.step().unwrap();
    assert!(out.is_empty());
    assert_eq!(state.register_read(Registers::Pc), 0x3001);
    assert_eq!(state.register_read(Registers::R2), 0x3006);
    assert_eq!(state.register_read(Registers::Flags), Flags::Pos.bits());
}

#[test]
fn pc_wraps_at_end_of_memory() {
    let mut state = State::default();
    state.register_write(Registers::Pc, 0xFFFF);
    state.memory_write(0xFFFF, 0xE1FF);
    let _ = state.step();
    assert_eq!(state.register_read(Registers::Pc), 0);
    assert_eq!(state.register_read(Registers::R0), 0xFFFF);
    state.increment_pc();
    assert_eq!(state.register_read(Registers::Pc), 1);
}

#[test]
fn illegal_opcodes() {
    let mut state = blank_state();
    state.register_write(Registers::R1, 7);
    assert_eq!(run_step(0x8000, &mut state), Err(Errors::BadOpCode(8)));
    assert_eq!(run_step(0xD123, &mut state), Err(Errors::BadOpCode(13)));
    assert_eq!(state.register_read(Registers::R1), 7);
    assert_eq!(state.register_read(Registers::Pc), 0);
    let mut machine = State::default();
    machine.memory_write(0x3000, 0x8000);
    assert_eq!(machine.step(), Err(Errors::BadOpCode(8)));
    assert_eq!(machine.register_read(Registers::Pc), 0x3001);
    assert_eq!(run_loop(&mut machine, 10), Ok(vec![]));
    assert_eq!(machine.register_read(Registers::Pc), 0x300B);
}

#[test]
fn bad_trap_vector() {
    let mut state = blank_state();
    assert_eq!(trap(0xF026, &mut state), Err(Errors::BadTrapCode(0x26)));
    assert_eq!(trap(0xF000, &mut state), Err(Errors::BadTrapCode(0)));
    assert!(state.is_running());
}

#[test]
fn trap_out_writes_low_byte() {
    let mut state = blank_state();
    state.register_write(Registers::R0, 0x1241);
    assert_eq!(trap(0xF021, &mut state), Ok(vec![0x41]));
}

#[test]
fn trap_puts_stops_at_zero() {
    let mut state = blank_state();
    state.register_write(Registers::R0, 0x4000);
    state.memory_write(0x4000, 0x0048);
    state.memory_write(0x4001, 0x0169);
    state.memory_write(0x4002, 0);
    state.memory_write(0x4003, 0x0021);
    assert_eq!(trap(0xF022, &mut state), Ok(vec![0x48, 0x69]));
    state.register_write(Registers::R0, 0x4002);
    assert_eq!(trap(0xF022, &mut state), Ok(vec![]));
}

#[test]
fn trap_putsp_high_byte_zero_ends_word() {
    let mut state = blank_state();
    state.register_write(Registers::R0, 0x4000);
    state.memory_write(0x4000, 0x6548);
    state.memory_write(0x4001, 0x0079);
    state.memory_write(0x4002, 0x4100);
    state.memory_write(0x4003, 0);
    state.memory_write(0x4004, 0x4242);
    assert_eq!(trap(0xF024, &mut state), Ok(vec![0x48, 0x65, 0x79, 0x00, 0x41]));
}

#[test]
fn trap_halt() {
    let mut state = blank_state();
    assert_eq!(trap(0xF025, &mut state), Ok(b"HALT".to_vec()));
    assert!(!state.is_running());
}

#[test]
fn trap_getc_takes_latched_key() {
    let mut state = blank_state();
    assert!(state.accept_key(0x61).is_empty());
    assert!(!state.wants_key());
    assert_eq!(trap(0xF020, &mut state), Ok(vec![]));
    assert_eq!(state.register_read(Registers::R0), 0x61);
    assert_eq!(state.register_read(Registers::Flags), Flags::Pos.bits());
    assert!(state.wants_key());
}

#[test]
fn trap_getc_waits_for_input() {
    let mut state = State::default();
    state.memory_write(0x3000, 0xF020);
    state.memory_write(0x3001, 0xF025);
    assert_eq!(state.step(), Ok(vec![]));
    assert!(state.is_waiting());
    assert_eq!(state.step(), Ok(vec![]));
    assert_eq!(state.register_read(Registers::Pc), 0x3001);
    assert!(state.accept_key(0).is_empty());
    assert!(!state.is_waiting());
    assert_eq!(state.register_read(Registers::R0), 0);
    assert_eq!(state.register_read(Registers::Flags), Flags::Zro.bits());
    assert_eq!(state.step(), Ok(b"HALT".to_vec()));
}

#[test]
fn trap_in_prompts_and_echoes() {
    let mut state = blank_state();
    let out = trap(0xF023, &mut state).unwrap();
    assert_eq!(out, b"Enter character: ".to_vec());
    assert!(state.is_waiting());
    assert_eq!(state.accept_key(0x7A), vec![0x7A]);
    assert_eq!(state.register_read(Registers::R0), 0x7A);
    let mut latched = blank_state();
    latched.accept_key(0x31);
    assert_eq!(trap(0xF023, &mut latched), Ok(b"Enter character: 1".to_vec()));
    assert_eq!(latched.register_read(Registers::R0), 0x31);
}

#[test]
fn keyboard_status_poll() {
    let kbsr = MemoryMappedRegisters::Kbsr.address() as usize;
    let kbdr = MemoryMappedRegisters::Kbdr.address() as usize;
    let mut state = blank_state();
    state.memory_write(kbsr, 0x1234);
    assert_eq!(state.memory_read(kbsr), 0);
    state.accept_key(0x71);
    assert_eq!(state.memory_read(kbdr), 0);
    assert!(!state.wants_key());
    assert_eq!(state.memory_read(kbsr), 0x8000);
    assert_eq!(state.memory_read(kbdr), 0x71);
    assert!(state.wants_key());
    assert_eq!(state.memory_read(kbsr), 0);
}

#[test]
fn ldi_on_keyboard_status_sees_key() {
    let mut state = blank_state();
    state.memory_write(0, 0xFE00);
    state.register_write(Registers::Pc, 1);
    state.accept_key(0x40);
    let _ = load_indirect(0xA1FF, &mut state);
    assert_eq!(state.register_read(Registers::R0), 0x8000);
    assert_eq!(state.register_read(Registers::Flags), Flags::Neg.bits());
}

#[test]
fn image_loader_round_trip() {
    let mut state = State::default();
    let bytes = [0x30, 0x00, 0x12, 0x34, 0x56, 0x78, 0x9A];
    assert_eq!(load_image(&bytes, &mut state), Ok(()));
    assert_eq!(state.memory_read(0x3000), 0x1234);
    assert_eq!(state.memory_read(0x3001), 0x5678);
    assert_eq!(state.memory_read(0x3002), 0x9A00);
    assert_eq!(state.memory_read(0x3003), 0);
    assert_eq!(state.register_read(Registers::Pc), PC_START);
}

#[test]
fn image_loader_errors() {
    let mut state = State::default();
    assert_eq!(load_image(&[], &mut state), Err(Errors::BadFile));
    assert_eq!(load_image(&[0x30], &mut state), Err(Errors::BadFile));
    assert_eq!(load_image(&[0xFF, 0xFF, 1, 2, 3, 4], &mut state), Err(Errors::BadImageSize));
    assert_eq!(state.memory_read(0xFFFF), 0);
    assert_eq!(load_image(&[0xFF, 0xFF, 1, 2], &mut state), Ok(()));
    assert_eq!(state.memory_read(0xFFFF), 0x0102);
    assert_eq!(load_image(&[0x00, 0x10], &mut state), Ok(()));
    assert_eq!(state.memory_read(0x10), 0);
}

#[test]
fn later_images_overwrite() {
    let mut state = State::default();
    assert_eq!(load_image(&[0x30, 0x00, 0x11, 0x11, 0x22, 0x22], &mut state), Ok(()));
    assert_eq!(load_image(&[0x30, 0x01, 0x33, 0x33], &mut state), Ok(()));
    assert_eq!(state.memory_read(0x3000), 0x1111);
    assert_eq!(state.memory_read(0x3001), 0x3333);
}

#[test]
fn decoding_tables() {
    assert_eq!(Traps::try_from(0x22), Ok(Traps::Puts));
    assert_eq!(Traps::Halt.code(), 0x25);
    assert_eq!(Registers::try_from(6), Ok(Registers::R6));
    assert_eq!(Registers::try_from(8), Err(Errors::BadRegisterReference(8)));
    assert_eq!(Operations::try_from(14), Ok(Operations::Lea));
    assert_eq!(Operations::try_from(16), Err(Errors::BadOpCode(16)));
    assert_eq!(Registers::Flags.index(), 9);
}
