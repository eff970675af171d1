use chip8::{load_program, Memory, ProgramCounter, Stack};

#[test]
fn memory_starts_zeroed_and_takes_writes() {
    let mut m = Memory::new();
    assert_eq!(m.read(0), 0);
    assert_eq!(m.read(4095), 0);
    m.write(4095, 0x7F);
    assert_eq!(m.read(4095), 0x7F);
}

#[test]
fn program_lands_at_0x200() {
    let mut m = Memory::new();
    load_program(&mut m, &vec![0xAA, 0xBB]);
    assert_eq!(m.read(0x1FF), 0);
    assert_eq!(m.read(0x200), 0xAA);
    assert_eq!(m.read(0x201), 0xBB);
    assert_eq!(m.read(0x202), 0);
}

#[test]
fn program_counter_wraps() {
    let mut pc = ProgramCounter(0x200);
    assert_eq!(pc.increment(2), 0x202);
    let mut pc = ProgramCounter(0xFFE);
    assert_eq!(pc.increment(2), 0);
    assert_eq!(pc.0, 0);
}

#[test]
fn stack_is_last_in_first_out() {
    let mut s = Stack::new();
    assert_eq!(s.pop(), None);
    s.push(0x200);
    s.push(0x300);
    assert_eq!(s.depth(), 2);
    assert_eq!(s.pop(), Some(0x300));
    assert_eq!(s.pop(), Some(0x200));
    assert_eq!(s.pop(), None);
}
