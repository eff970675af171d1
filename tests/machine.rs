use chip8::{decode, ErrorKind, Fault, Font, Instruction, CPU};

fn machine() -> CPU {
    CPU::init(Font::standard())
}

fn run(cpu: &mut CPU, ops: &[u16]) {
    for &op in ops {
        assert_eq!(cpu.execute_with(op, 0), Ok(()));
    }
}

#[test]
fn add_reg_sets_carry() {
    let mut cpu = machine();
    run(&mut cpu, &[0x61FA, 0x620A, 0x8124]);
    assert_eq!(cpu.register(0xF), 1);
    assert_eq!(cpu.register(1), 4);
    run(&mut cpu, &[0x6101, 0x6201, 0x8124]);
    assert_eq!(cpu.register(0xF), 0);
    assert_eq!(cpu.register(1), 2);
}

#[test]
fn add_reg_flag_cleared_when_previously_set() {
    let mut cpu = machine();
    run(&mut cpu, &[0x6F01, 0x6103, 0x6204, 0x8124]);
    assert_eq!(cpu.register(0xF), 0);
    assert_eq!(cpu.register(1), 7);
}

#[test]
fn sub_sets_no_borrow() {
    let mut cpu = machine();
    run(&mut cpu, &[0x6105, 0x6203, 0x8125]);
    assert_eq!(cpu.register(0xF), 1);
    assert_eq!(cpu.register(1), 2);
    run(&mut cpu, &[0x6103, 0x6205, 0x8125]);
    assert_eq!(cpu.register(0xF), 0);
    assert_eq!(cpu.register(1), 254);
}

#[test]
fn sub_reverse_mirrors_sub() {
    let mut cpu = machine();
    run(&mut cpu, &[0x6103, 0x6205, 0x8127]);
    assert_eq!(cpu.register(0xF), 1);
    assert_eq!(cpu.register(1), 2);
    run(&mut cpu, &[0x6105, 0x6203, 0x8127]);
    assert_eq!(cpu.register(0xF), 0);
    assert_eq!(cpu.register(1), 254);
}

#[test]
fn shift_right_takes_source_bit() {
    let mut cpu = machine();
    run(&mut cpu, &[0x6203, 0x8126]);
    assert_eq!(cpu.register(0xF), 1);
    assert_eq!(cpu.register(1), 0b0000_0001);
    run(&mut cpu, &[0x6202, 0x8126]);
    assert_eq!(cpu.register(0xF), 0);
    assert_eq!(cpu.register(1), 0b0000_0001);
}

#[test]
fn shift_left_takes_source_bit() {
    let mut cpu = machine();
    run(&mut cpu, &[0x6281, 0x812E]);
    assert_eq!(cpu.register(0xF), 1);
    assert_eq!(cpu.register(1), 0x02);
    run(&mut cpu, &[0x6241, 0x812E]);
    assert_eq!(cpu.register(0xF), 0);
    assert_eq!(cpu.register(1), 0x82);
}

#[test]
fn logic_ops_leave_flag() {
    let mut cpu = machine();
    run(&mut cpu, &[0x6F07, 0x610C, 0x620A, 0x8121]);
    assert_eq!(cpu.register(1), 0x0E);
    run(&mut cpu, &[0x610C, 0x8122]);
    assert_eq!(cpu.register(1), 0x08);
    run(&mut cpu, &[0x610C, 0x8123]);
    assert_eq!(cpu.register(1), 0x06);
    run(&mut cpu, &[0x8120]);
    assert_eq!(cpu.register(1), 0x0A);
    assert_eq!(cpu.register(0xF), 7);
}

#[test]
fn add_immediate_wraps_without_flag() {
    let mut cpu = machine();
    run(&mut cpu, &[0x61FF, 0x7102]);
    assert_eq!(cpu.register(1), 1);
    assert_eq!(cpu.register(0xF), 0);
}

#[test]
fn jumps_land_on_literal_address() {
    let mut cpu = machine();
    run(&mut cpu, &[0x1ABC]);
    assert_eq!(cpu.pc(), 0xABC);
    run(&mut cpu, &[0x60FF, 0x6AFF, 0x1ABC]);
    assert_eq!(cpu.pc(), 0xABC);
    run(&mut cpu, &[0x2345]);
    assert_eq!(cpu.pc(), 0x345);
}

#[test]
fn jump_with_offset_adds_v0() {
    let mut cpu = machine();
    run(&mut cpu, &[0x6005, 0xB300]);
    assert_eq!(cpu.pc(), 0x305);
    run(&mut cpu, &[0x60FF, 0xBFFF]);
    assert_eq!(cpu.pc(), 0x0FE);
}

#[test]
fn call_then_return_restores_pc() {
    let mut cpu = machine();
    assert_eq!(cpu.pc(), 0x200);
    run(&mut cpu, &[0x2ABC]);
    assert_eq!(cpu.pc(), 0xABC);
    assert_eq!(cpu.stack_depth(), 1);
    run(&mut cpu, &[0x00EE]);
    assert_eq!(cpu.pc(), 0x200);
    assert_eq!(cpu.stack_depth(), 0);
}

#[test]
fn return_on_empty_stack_faults() {
    let mut cpu = machine();
    assert_eq!(
        cpu.execute_with(0x00EE, 0),
        Err(Fault { kind: ErrorKind::StackUnderflow, pc: 0x200, opcode: Some(0x00EE) })
    );
    assert_eq!(cpu.pc(), 0x200);
}

#[test]
fn call_beyond_depth_faults() {
    let mut cpu = machine();
    for _ in 0..16 {
        assert_eq!(cpu.execute_with(0x2300, 0), Ok(()));
    }
    assert_eq!(cpu.stack_depth(), 16);
    assert_eq!(
        cpu.execute_with(0x2400, 0),
        Err(Fault { kind: ErrorKind::StackOverflow, pc: 0x300, opcode: Some(0x2400) })
    );
    assert_eq!(cpu.pc(), 0x300);
    assert_eq!(cpu.stack_depth(), 16);
}

#[test]
fn skip_compares_against_immediate() {
    let mut cpu = machine();
    run(&mut cpu, &[0x6142, 0x3142]);
    assert_eq!(cpu.pc(), 0x202);
    run(&mut cpu, &[0x31FF]);
    assert_eq!(cpu.pc(), 0x202);
    run(&mut cpu, &[0x41FF]);
    assert_eq!(cpu.pc(), 0x204);
    run(&mut cpu, &[0x4142]);
    assert_eq!(cpu.pc(), 0x204);
}

#[test]
fn skip_compares_registers() {
    let mut cpu = machine();
    run(&mut cpu, &[0x6107, 0x6207, 0x5120]);
    assert_eq!(cpu.pc(), 0x202);
    run(&mut cpu, &[0x9120]);
    assert_eq!(cpu.pc(), 0x202);
    run(&mut cpu, &[0x6208, 0x9120]);
    assert_eq!(cpu.pc(), 0x204);
}

#[test]
fn fetch_reads_big_endian_and_advances() {
    let mut cpu = machine();
    assert_eq!(cpu.load_program(&vec![0x12, 0x34, 0xAB]), Ok(()));
    assert_eq!(cpu.fetch(), Ok(0x1234));
    assert_eq!(cpu.pc(), 0x202);
    assert_eq!(cpu.memory_at(0x202), 0xAB);
}

#[test]
fn fetch_at_end_of_memory_faults() {
    let mut cpu = machine();
    run(&mut cpu, &[0x1FFF]);
    assert_eq!(
        cpu.fetch(),
        Err(Fault { kind: ErrorKind::MemoryOutOfBounds, pc: 0xFFF, opcode: None })
    );
    assert_eq!(cpu.pc(), 0xFFF);
}

#[test]
fn oversized_program_is_refused() {
    let mut cpu = machine();
    let rom = vec![1u8; 4096 - 0x200 + 1];
    assert_eq!(
        cpu.load_program(&rom),
        Err(Fault { kind: ErrorKind::MemoryOutOfBounds, pc: 0x200, opcode: None })
    );
    assert_eq!(cpu.memory_at(0x200), 0);
    let rom = vec![1u8; 4096 - 0x200];
    assert_eq!(cpu.load_program(&rom), Ok(()));
    assert_eq!(cpu.memory_at(0xFFF), 1);
}

#[test]
fn font_is_loaded_at_zero() {
    let cpu = machine();
    assert_eq!(cpu.memory_at(0), 0xF0);
    assert_eq!(cpu.memory_at(5), 0x20);
    assert_eq!(cpu.memory_at(79), 0x80);
    assert_eq!(cpu.memory_at(80), 0);
    assert_eq!(cpu.pc(), 0x200);
}

#[test]
fn unknown_opcode_is_a_no_op() {
    let mut cpu = machine();
    assert_eq!(cpu.load_program(&vec![0x51, 0x21, 0xE1, 0xFF, 0x01, 0x23, 0x81, 0x28]), Ok(()));
    for k in 1..=4u16 {
        let op = cpu.fetch().unwrap();
        assert_eq!(decode(op), Instruction::Unknown(op));
        assert_eq!(cpu.execute_with(op, 0), Ok(()));
        assert_eq!(cpu.pc(), 0x200 + 2 * k);
    }
    assert_eq!(cpu.stack_depth(), 0);
    assert_eq!(cpu.register(1), 0);
}

#[test]
fn decode_reads_fields() {
    assert_eq!(decode(0x8124), Instruction::AddReg(1, 2));
    assert_eq!(decode(0xD3A5), Instruction::Draw(3, 0xA, 5));
    assert_eq!(decode(0xA123), Instruction::LoadIndex(0x123));
    assert_eq!(decode(0xF20A), Instruction::WaitKey(2));
    assert_eq!(decode(0x00E0), Instruction::ClearScreen);
    assert_eq!(decode(0x00EE), Instruction::Return);
    assert_eq!(decode(0x5121), Instruction::Unknown(0x5121));
    assert_eq!(decode(0x8128), Instruction::Unknown(0x8128));
}

#[test]
fn draw_twice_restores_and_reports_collision() {
    let mut cpu = machine();
    run(&mut cpu, &[0xA000, 0x6005, 0x6107, 0xD015]);
    assert_eq!(cpu.register(0xF), 0);
    let lit = (0..2048).filter(|&i| cpu.display().get(i)).count();
    assert_eq!(lit, 14);
    assert!(cpu.display().get(7 * 64 + 5));
    assert!(!cpu.display().get(8 * 64 + 6));
    run(&mut cpu, &[0xD015]);
    assert_eq!(cpu.register(0xF), 1);
    assert!((0..2048).all(|i| !cpu.display().get(i)));
}

#[test]
fn draw_wraps_at_edges() {
    let mut cpu = machine();
    run(&mut cpu, &[0xA000, 0x603E, 0x611F, 0xD011]);
    let row = 31 * 64;
    assert!(cpu.display().get(row + 62));
    assert!(cpu.display().get(row + 63));
    assert!(cpu.display().get(row));
    assert!(cpu.display().get(row + 1));
    assert!(!cpu.display().get(row + 2));
    assert_eq!(cpu.register(0xF), 0);
}

#[test]
fn draw_past_memory_faults_without_effect() {
    let mut cpu = machine();
    run(&mut cpu, &[0xAFFE, 0x6F09]);
    assert_eq!(
        cpu.execute_with(0xD015, 0),
        Err(Fault { kind: ErrorKind::MemoryOutOfBounds, pc: 0x200, opcode: Some(0xD015) })
    );
    assert_eq!(cpu.register(0xF), 9);
    assert!((0..2048).all(|i| !cpu.display().get(i)));
}

#[test]
fn clear_screen_twice_equals_once() {
    let mut cpu = machine();
    run(&mut cpu, &[0xA000, 0xD005, 0x00E0]);
    assert!((0..2048).all(|i| !cpu.display().get(i)));
    run(&mut cpu, &[0x00E0]);
    assert!((0..2048).all(|i| !cpu.display().get(i)));
}

#[test]
fn wait_for_key_blocks_until_press() {
    let mut cpu = machine();
    assert_eq!(cpu.load_program(&vec![0xF3, 0x0A, 0x61, 0x05]), Ok(()));
    run(&mut cpu, &[0x6409, 0xF415]);
    let op = cpu.fetch().unwrap();
    assert_eq!(cpu.execute_with(op, 0), Ok(()));
    assert_eq!(cpu.waiting_for_key(), Some(3));
    let pc = cpu.pc();
    for _ in 0..3 {
        cpu.set_keys([false; 16]);
        let op = cpu.fetch().unwrap();
        assert_eq!(op, 0x6105);
        assert_eq!(cpu.execute_with(op, 0), Ok(()));
        assert_eq!(cpu.pc(), pc);
        assert_eq!(cpu.register(1), 0);
        assert_eq!(cpu.waiting_for_key(), Some(3));
        cpu.tick_timers();
    }
    assert_eq!(cpu.delay_timer(), 6);
    let mut keys = [false; 16];
    keys[7] = true;
    cpu.set_keys(keys);
    assert_eq!(cpu.register(3), 7);
    assert_eq!(cpu.waiting_for_key(), None);
    let op = cpu.fetch().unwrap();
    assert_eq!(cpu.execute_with(op, 0), Ok(()));
    assert_eq!(cpu.register(1), 5);
    assert_eq!(cpu.pc(), pc + 2);
}

#[test]
fn held_key_does_not_end_wait() {
    let mut cpu = machine();
    let mut keys = [false; 16];
    keys[2] = true;
    cpu.set_keys(keys);
    run(&mut cpu, &[0xF10A]);
    cpu.set_keys(keys);
    assert_eq!(cpu.waiting_for_key(), Some(1));
    keys[9] = true;
    cpu.set_keys(keys);
    assert_eq!(cpu.waiting_for_key(), None);
    assert_eq!(cpu.register(1), 9);
}

#[test]
fn skip_on_keypad_state() {
    let mut cpu = machine();
    let mut keys = [false; 16];
    keys[5] = true;
    cpu.set_keys(keys);
    run(&mut cpu, &[0x6105, 0xE19E]);
    assert_eq!(cpu.pc(), 0x202);
    run(&mut cpu, &[0xE1A1]);
    assert_eq!(cpu.pc(), 0x202);
    run(&mut cpu, &[0x6106, 0xE1A1]);
    assert_eq!(cpu.pc(), 0x204);
    run(&mut cpu, &[0x61FF, 0xE19E]);
    assert_eq!(cpu.pc(), 0x204);
}

#[test]
fn timers_count_down_to_zero() {
    let mut cpu = machine();
    run(&mut cpu, &[0x6102, 0xF115, 0xF118]);
    assert_eq!(cpu.delay_timer(), 2);
    assert!(cpu.sound_active());
    run(&mut cpu, &[0xF207]);
    assert_eq!(cpu.register(2), 2);
    for _ in 0..5 {
        cpu.tick_timers();
    }
    assert_eq!(cpu.delay_timer(), 0);
    assert_eq!(cpu.sound_timer(), 0);
    assert!(!cpu.sound_active());
}

#[test]
fn index_register_ops() {
    let mut cpu = machine();
    run(&mut cpu, &[0xAFFF, 0x6102, 0xF11E]);
    assert_eq!(cpu.index(), 1);
    run(&mut cpu, &[0x610A, 0xF129]);
    assert_eq!(cpu.index(), 50);
}

#[test]
fn store_bcd_digits() {
    let mut cpu = machine();
    run(&mut cpu, &[0xA300, 0x61EA, 0xF133]);
    assert_eq!(cpu.memory_at(0x300), 2);
    assert_eq!(cpu.memory_at(0x301), 3);
    assert_eq!(cpu.memory_at(0x302), 4);
    run(&mut cpu, &[0xAFFE]);
    assert_eq!(
        cpu.execute_with(0xF133, 0),
        Err(Fault { kind: ErrorKind::MemoryOutOfBounds, pc: 0x200, opcode: Some(0xF133) })
    );
}

#[test]
fn register_dump_and_load() {
    let mut cpu = machine();
    run(&mut cpu, &[0x6011, 0x6122, 0x6233, 0x6344, 0xA400, 0xF255]);
    assert_eq!(cpu.memory_at(0x400), 0x11);
    assert_eq!(cpu.memory_at(0x401), 0x22);
    assert_eq!(cpu.memory_at(0x402), 0x33);
    assert_eq!(cpu.memory_at(0x403), 0);
    assert_eq!(cpu.index(), 0x400);
    run(&mut cpu, &[0x6000, 0x6100, 0x6200, 0xF165]);
    assert_eq!(cpu.register(0), 0x11);
    assert_eq!(cpu.register(1), 0x22);
    assert_eq!(cpu.register(2), 0);
    run(&mut cpu, &[0xAFFF]);
    assert_eq!(
        cpu.execute_with(0xF155, 0),
        Err(Fault { kind: ErrorKind::MemoryOutOfBounds, pc: 0x200, opcode: Some(0xF155) })
    );
}

#[test]
fn random_is_masked_by_immediate() {
    let mut cpu = machine();
    run(&mut cpu, &[0x6F03]);
    assert_eq!(cpu.execute_with(0xC10F, 0xAB), Ok(()));
    assert_eq!(cpu.register(1), 0x0B);
    assert_eq!(cpu.execute(0xC200), Ok(()));
    assert_eq!(cpu.register(2), 0);
    for _ in 0..32 {
        assert_eq!(cpu.execute(0xC30F), Ok(()));
        assert!(cpu.register(3) <= 0x0F);
    }
    assert_eq!(cpu.register(0xF), 3);
}

#[test]
fn reset_empties_stack_and_screen() {
    let mut cpu = machine();
    run(&mut cpu, &[0x6107, 0xA000, 0xD005, 0x2400, 0xF20A]);
    assert_eq!(cpu.stack_depth(), 1);
    cpu.reset();
    assert_eq!(cpu.stack_depth(), 0);
    assert_eq!(cpu.pc(), 0x200);
    assert_eq!(cpu.waiting_for_key(), None);
    assert!((0..2048).all(|i| !cpu.display().get(i)));
    assert_eq!(cpu.register(1), 7);
    assert_eq!(cpu.memory_at(0), 0xF0);
}

#[test]
fn default_machine_has_no_font() {
    let cpu = CPU::default();
    assert_eq!(cpu.memory_at(0), 0);
    assert_eq!(cpu.pc(), 0x200);
    assert_eq!(cpu.index(), 0);
    assert!(!cpu.sound_active());
}

#[test]
fn shift_in_place_mode_reads_vx() {
    let mut cpu = machine();
    cpu.set_shift_in_place(true);
    run(&mut cpu, &[0x6103, 0x6280, 0x8126]);
    assert_eq!(cpu.register(0xF), 1);
    assert_eq!(cpu.register(1), 1);
    run(&mut cpu, &[0x6181, 0x6201, 0x812E]);
    assert_eq!(cpu.register(0xF), 1);
    assert_eq!(cpu.register(1), 2);
    cpu.set_shift_in_place(false);
    run(&mut cpu, &[0x6181, 0x6201, 0x812E]);
    assert_eq!(cpu.register(0xF), 0);
    assert_eq!(cpu.register(1), 2);
}
