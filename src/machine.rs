use vstd::prelude::*;
use crate::instruction::{decoded, Instruction};
use crate::memory::{MEMORY_SIZE, PROGRAM_START, STACK_DEPTH};
use crate::render::blank;

verus! {

/// Framebuffer width in pixels.
pub const WIDTH: usize = 64;

/// Framebuffer height in pixels.
pub const HEIGHT: usize = 32;

/// Side, in screen units, of the square that presents one pixel.
pub const DISPLAY_SCALE: usize = 10;

/// Number of pixels in the framebuffer.
pub const PIXELS: usize = 2048;

/// Index of the flag register `VF`.
pub const FLAG: u8 = 15;

/// What stopped the machine.
#[derive(PartialEq, Eq, Structural, Clone, Copy, Debug)]
pub enum ErrorKind {
    /// A fetch or an addressed access past the end of memory.
    MemoryOutOfBounds,
    /// A return with an empty call stack.
    StackUnderflow,
    /// A call with a full call stack.
    StackOverflow,
}

/// A fatal error, with the program counter at which it arose and the
/// opcode being executed, if one had been fetched.
#[derive(PartialEq, Eq, Clone, Copy, Debug)]
pub struct Fault {
    pub kind: ErrorKind,
    pub pc: u16,
    pub opcode: Option<u16>,
}

/// The whole observable state of the machine.
pub struct MachineView {
    pub mem: Seq<u8>,
    pub v: Seq<u8>,
    pub i: u16,
    pub pc: u16,
    pub stack: Seq<u16>,
    pub display: Seq<bool>,
    pub delay: u8,
    pub sound: u8,
    pub keys: Seq<bool>,
    pub waiting: Option<u8>,
    /// Shifts read and write `Vx` instead of reading `Vy`.
    pub shift_in_place: bool,
}

impl MachineView {
    pub open spec fn wf(&self) -> bool {
        &&& self.mem.len() == MEMORY_SIZE
        &&& self.v.len() == 16
        &&& (self.i as int) < MEMORY_SIZE
        &&& (self.pc as int) < MEMORY_SIZE
        &&& self.stack.len() <= STACK_DEPTH
        &&& forall|k: int| 0 <= k < self.stack.len() ==> (#[trigger] self.stack[k] as int) < MEMORY_SIZE
        &&& self.display.len() == PIXELS
        &&& self.keys.len() == 16
        &&& self.waiting matches Some(x) ==> x < 16
    }
}

/// The big-endian opcode stored at `a` and `a + 1`.
pub open spec fn opcode_at(mem: Seq<u8>, a: int) -> u16 {
    (mem[a] as int * 256 + mem[a + 1] as int) as u16
}

/// The program counter moved past one instruction.
pub open spec fn advanced(pc: u16) -> u16 {
    ((pc as int + 2) % (MEMORY_SIZE as int)) as u16
}

/// The machine once an instruction has been read: the program counter
/// moves past it unless the machine is waiting for a key.
pub open spec fn after_fetch(s: MachineView) -> MachineView {
    if s.waiting is Some {
        s
    } else {
        MachineView { pc: advanced(s.pc), ..s }
    }
}

/// `s` with `Vx` replaced.
pub open spec fn set_v(s: MachineView, x: u8, val: u8) -> MachineView {
    MachineView { v: s.v.update(x as int, val), ..s }
}

/// `s` with `VF` set to `flag` and then `Vx` to `val`.
pub open spec fn set_flagged(s: MachineView, x: u8, flag: u8, val: u8) -> MachineView {
    MachineView { v: s.v.update(FLAG as int, flag).update(x as int, val), ..s }
}

/// `s` with the next instruction skipped when `cond` holds.
pub open spec fn skip_if(s: MachineView, cond: bool) -> MachineView {
    if cond {
        MachineView { pc: advanced(s.pc), ..s }
    } else {
        s
    }
}

/// The register a shift reads: `Vy`, or `Vx` in the in-place mode.
pub open spec fn shift_source(s: MachineView, x: u8, y: u8) -> u8 {
    if s.shift_in_place {
        s.v[x as int]
    } else {
        s.v[y as int]
    }
}

/// Whether key `k` of the keypad is held; there is no key above 15.
pub open spec fn key_down(keys: Seq<bool>, k: u8) -> bool {
    k < 16 && keys[k as int]
}

/// Pixel `c` (0 is leftmost) of the sprite row `b`.
pub open spec fn sprite_bit(b: u8, c: u8) -> bool {
    (b >> ((7 - c) as u8)) & 1u8 == 1u8
}

/// Column of pixel `p` counted from `vx`, wrapping at the right edge.
pub open spec fn col_offset(p: int, vx: int) -> int {
    (p % (WIDTH as int) + WIDTH as int - vx % (WIDTH as int)) % (WIDTH as int)
}

/// Row of pixel `p` counted from `vy`, wrapping at the bottom edge.
pub open spec fn row_offset(p: int, vy: int) -> int {
    (p / (WIDTH as int) + HEIGHT as int - vy % (HEIGHT as int)) % (HEIGHT as int)
}

/// Whether the `n`-row sprite read from `mem` at `i` and drawn at
/// `(vx, vy)` has a set bit over pixel `p`.
pub open spec fn covers(mem: Seq<u8>, i: int, n: int, vx: int, vy: int, p: int) -> bool {
    let dx = col_offset(p, vx);
    let dy = row_offset(p, vy);
    dx < 8 && dy < n && sprite_bit(mem[i + dy], dx as u8)
}

/// The framebuffer after XOR-ing the sprite onto it.
pub open spec fn drawn(display: Seq<bool>, mem: Seq<u8>, i: int, n: int, vx: int, vy: int) -> Seq<bool> {
    Seq::new(display.len(), |p: int| display[p] != covers(mem, i, n, vx, vy, p))
}

/// Whether drawing the sprite unsets some pixel.
pub open spec fn collides(display: Seq<bool>, mem: Seq<u8>, i: int, n: int, vx: int, vy: int) -> bool {
    exists|p: int| 0 <= p < display.len() && display[p] && #[trigger] covers(mem, i, n, vx, vy, p)
}

/// The lowest key at or above `from` that is held in `after` and was not
/// in `before`.
pub open spec fn first_press(before: Seq<bool>, after: Seq<bool>, from: int) -> Option<u8>
    decreases 16 - from,
{
    if from >= 16 || from < 0 {
        None
    } else if after[from] && !before[from] {
        Some(from as u8)
    } else {
        first_press(before, after, from + 1)
    }
}

/// The machine after the keypad snapshot `keys` arrives: a machine
/// waiting for a key takes the lowest newly pressed one and runs again.
pub open spec fn key_event(s: MachineView, keys: Seq<bool>) -> MachineView {
    let t = MachineView { keys, ..s };
    match s.waiting {
        Some(x) => match first_press(s.keys, keys, 0) {
            Some(k) => MachineView { v: s.v.update(x as int, k), waiting: None, ..t },
            None => t,
        },
        None => t,
    }
}

/// The machine after one timer tick.
pub open spec fn ticked(s: MachineView) -> MachineView {
    MachineView {
        delay: if s.delay > 0 { (s.delay - 1) as u8 } else { 0 },
        sound: if s.sound > 0 { (s.sound - 1) as u8 } else { 0 },
        ..s
    }
}

/// The effect of executing `ins` on `s`, with `rnd` as the random byte.
pub open spec fn next(s: MachineView, ins: Instruction, rnd: u8) -> Result<MachineView, ErrorKind> {
    if s.waiting is Some {
        Ok(s)
    } else {
        match ins {
            Instruction::ClearScreen => Ok(MachineView { display: blank(PIXELS as nat), ..s }),
            Instruction::Return => if s.stack.len() == 0 {
                Err(ErrorKind::StackUnderflow)
            } else {
                Ok(MachineView { pc: s.stack.last(), stack: s.stack.drop_last(), ..s })
            },
            Instruction::Jump(a) => Ok(MachineView { pc: a, ..s }),
            Instruction::Call(a) => if s.stack.len() >= STACK_DEPTH {
                Err(ErrorKind::StackOverflow)
            } else {
                Ok(MachineView { pc: a, stack: s.stack.push(s.pc), ..s })
            },
            Instruction::SkipEqImm(x, kk) => Ok(skip_if(s, s.v[x as int] == kk)),
            Instruction::SkipNeImm(x, kk) => Ok(skip_if(s, s.v[x as int] != kk)),
            Instruction::SkipEqReg(x, y) => Ok(skip_if(s, s.v[x as int] == s.v[y as int])),
            Instruction::SkipNeReg(x, y) => Ok(skip_if(s, s.v[x as int] != s.v[y as int])),
            Instruction::LoadImm(x, kk) => Ok(set_v(s, x, kk)),
            Instruction::AddImm(x, kk) => Ok(set_v(s, x, ((s.v[x as int] + kk) % 256) as u8)),
            Instruction::Move(x, y) => Ok(set_v(s, x, s.v[y as int])),
            Instruction::Or(x, y) => Ok(set_v(s, x, s.v[x as int] | s.v[y as int])),
            Instruction::And(x, y) => Ok(set_v(s, x, s.v[x as int] & s.v[y as int])),
            Instruction::Xor(x, y) => Ok(set_v(s, x, s.v[x as int] ^ s.v[y as int])),
            Instruction::AddReg(x, y) => {
                let sum = s.v[x as int] + s.v[y as int];
                Ok(set_flagged(s, x, if sum > 255 { 1 } else { 0 }, (sum % 256) as u8))
            },
            Instruction::Sub(x, y) => {
                let (a, b) = (s.v[x as int], s.v[y as int]);
                Ok(set_flagged(s, x, if a >= b { 1 } else { 0 }, ((a - b + 256) % 256) as u8))
            },
            Instruction::ShiftRight(x, y) => {
                let b = shift_source(s, x, y);
                Ok(set_flagged(s, x, (b % 2) as u8, (b / 2) as u8))
            },
            Instruction::SubReverse(x, y) => {
                let (a, b) = (s.v[x as int], s.v[y as int]);
                Ok(set_flagged(s, x, if b >= a { 1 } else { 0 }, ((b - a + 256) % 256) as u8))
            },
            Instruction::ShiftLeft(x, y) => {
                let b = shift_source(s, x, y);
                Ok(set_flagged(s, x, (b / 128) as u8, ((b * 2) % 256) as u8))
            },
            Instruction::LoadIndex(a) => Ok(MachineView { i: a, ..s }),
            Instruction::JumpOffset(a) => Ok(
                MachineView { pc: ((a + s.v[0]) % (MEMORY_SIZE as int)) as u16, ..s },
            ),
            Instruction::Random(x, kk) => Ok(set_v(s, x, rnd & kk)),
            Instruction::Draw(x, y, n) => if s.i + n > MEMORY_SIZE {
                Err(ErrorKind::MemoryOutOfBounds)
            } else {
                let (vx, vy) = (s.v[x as int] as int, s.v[y as int] as int);
                Ok(
                    MachineView {
                        display: drawn(s.display, s.mem, s.i as int, n as int, vx, vy),
                        v: s.v.update(
                            FLAG as int,
                            if collides(s.display, s.mem, s.i as int, n as int, vx, vy) {
                                1u8
                            } else {
                                0u8
                            },
                        ),
                        ..s
                    },
                )
            },
            Instruction::SkipKey(x) => Ok(skip_if(s, key_down(s.keys, s.v[x as int]))),
            Instruction::SkipNoKey(x) => Ok(skip_if(s, !key_down(s.keys, s.v[x as int]))),
            Instruction::LoadDelay(x) => Ok(set_v(s, x, s.delay)),
            Instruction::WaitKey(x) => Ok(MachineView { waiting: Some(x), ..s }),
            Instruction::SetDelay(x) => Ok(MachineView { delay: s.v[x as int], ..s }),
            Instruction::SetSound(x) => Ok(MachineView { sound: s.v[x as int], ..s }),
            Instruction::AddIndex(x) => Ok(
                MachineView { i: ((s.i + s.v[x as int]) % (MEMORY_SIZE as int)) as u16, ..s },
            ),
            Instruction::LoadFont(x) => Ok(MachineView { i: (5 * s.v[x as int]) as u16, ..s }),
            Instruction::StoreBcd(x) => if s.i + 3 > MEMORY_SIZE {
                Err(ErrorKind::MemoryOutOfBounds)
            } else {
                let b = s.v[x as int];
                Ok(
                    MachineView {
                        mem: s.mem.update(s.i as int, b / 100).update(s.i + 1, (b / 10) % 10).update(
                            s.i + 2,
                            b % 10,
                        ),
                        ..s
                    },
                )
            },
            Instruction::StoreRegs(x) => if s.i + x + 1 > MEMORY_SIZE {
                Err(ErrorKind::MemoryOutOfBounds)
            } else {
                Ok(
                    MachineView {
                        mem: Seq::new(
                            MEMORY_SIZE as nat,
                            |a: int|
                                if s.i <= a <= s.i + x {
                                    s.v[a - s.i]
                                } else {
                                    s.mem[a]
                                },
                        ),
                        ..s
                    },
                )
            },
            Instruction::LoadRegs(x) => if s.i + x + 1 > MEMORY_SIZE {
                Err(ErrorKind::MemoryOutOfBounds)
            } else {
                Ok(
                    MachineView {
                        v: Seq::new(16, |k: int| if k <= x { s.mem[s.i + k] } else { s.v[k] }),
                        ..s
                    },
                )
            },
            Instruction::Unknown(_) => Ok(s),
        }
    }
}

/// The fault raised by a failed execution of `op` at `pc`.
pub open spec fn fault_of(kind: ErrorKind, pc: u16, op: u16) -> Fault {
    Fault { kind, pc, opcode: Some(op) }
}

/// `t` and `r` are what executing `op` on `s` with random byte `rnd`
/// yields: the new state on success; on a fatal error the fault and the
/// state unchanged.
pub open spec fn outcome(s: MachineView, op: u16, rnd: u8, t: MachineView, r: Result<(), Fault>) -> bool {
    step_matches(s, decoded(op), op, rnd, t, r)
}

/// `t` and `r` are what executing `ins`, fetched as `op`, on `s` yields.
pub open spec fn step_matches(
    s: MachineView,
    ins: Instruction,
    op: u16,
    rnd: u8,
    t: MachineView,
    r: Result<(), Fault>,
) -> bool {
    match next(s, ins, rnd) {
        Ok(u) => r is Ok && t == u,
        Err(k) => r == Err::<(), Fault>(fault_of(k, s.pc, op)) && t == s,
    }
}

/// Jumps, calls, returns and skips.
pub open spec fn is_flow(ins: Instruction) -> bool {
    match ins {
        Instruction::ClearScreen | Instruction::Return | Instruction::Jump(_) | Instruction::Call(_)
        | Instruction::SkipEqImm(_, _) | Instruction::SkipNeImm(_, _) | Instruction::SkipEqReg(_, _)
        | Instruction::SkipNeReg(_, _) | Instruction::JumpOffset(_) | Instruction::SkipKey(_)
        | Instruction::SkipNoKey(_) | Instruction::Unknown(_) => true,
        _ => false,
    }
}

/// Register loads and arithmetic.
pub open spec fn is_arith(ins: Instruction) -> bool {
    match ins {
        Instruction::LoadImm(_, _) | Instruction::AddImm(_, _) | Instruction::Move(_, _)
        | Instruction::Or(_, _) | Instruction::And(_, _) | Instruction::Xor(_, _)
        | Instruction::AddReg(_, _) | Instruction::Sub(_, _) | Instruction::ShiftRight(_, _)
        | Instruction::SubReverse(_, _) | Instruction::ShiftLeft(_, _) | Instruction::Random(_, _) => true,
        _ => false,
    }
}
/// The state `init` produces for the glyphs `font`.
pub open spec fn initial(font: Seq<u8>) -> MachineView {
    MachineView {
        mem: Seq::new(MEMORY_SIZE as nat, |a: int| if a < 80 { font[a] } else { 0u8 }),
        v: Seq::new(16, |k: int| 0u8),
        i: 0,
        pc: PROGRAM_START as u16,
        stack: Seq::empty(),
        display: blank(PIXELS as nat),
        delay: 0,
        sound: 0,
        keys: Seq::new(16, |k: int| false),
        waiting: None,
        shift_in_place: false,
    }
}

} // verus!
