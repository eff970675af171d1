use vstd::prelude::*;
use vstd::arithmetic::div_mod::{lemma_fundamental_div_mod, lemma_fundamental_div_mod_converse};
use crate::entropy::random_byte;
use crate::font::Font;
use crate::instruction::{decode, operands_in_range, Instruction};
use crate::machine::{WIDTH, HEIGHT, DISPLAY_SCALE, PIXELS, FLAG, ErrorKind, Fault, MachineView, opcode_at, after_fetch, set_v, skip_if, sprite_bit, col_offset, row_offset, covers, drawn, collides, first_press, key_event, ticked, next, outcome, shift_source, step_matches, is_flow, is_arith, initial};
use crate::memory::{load_program, Memory, ProgramCounter, Stack, MEMORY_SIZE, PROGRAM_START, STACK_DEPTH};
use crate::render::{blank, wrapped_index, Render};

verus! {

/// A CHIP-8 machine.
pub struct CPU {
    mem: Memory,
    vram: Render,
    pc: ProgramCounter,
    stack: Stack,
    index: u16,
    v: Vec<u8>,
    delay: u8,
    sound: u8,
    keys: [bool; 16],
    waiting: Option<u8>,
    shift_in_place: bool,
}

impl View for CPU {
    type V = MachineView;

    closed spec fn view(&self) -> MachineView {
        MachineView {
            mem: self.mem@,
            v: self.v@,
            i: self.index,
            pc: self.pc.0,
            stack: self.stack@,
            display: self.vram@,
            delay: self.delay,
            sound: self.sound,
            keys: self.keys@,
            waiting: self.waiting,
            shift_in_place: self.shift_in_place,
        }
    }
}

impl CPU {
    /// The representation is consistent: a 64 by 32 framebuffer and a
    /// well-formed view.
    pub closed spec fn wf(&self) -> bool {
        &&& self.mem.wf()
        &&& self.vram.wf()
        &&& self.vram.rows() == HEIGHT
        &&& self.vram.cols() == WIDTH
        &&& self.vram.scale_factor() == DISPLAY_SCALE
        &&& self.stack.wf()
        &&& self@.wf()
    }

    /// A machine with `font` at address 0, everything else zeroed, and the
    /// program counter at the program address.
    pub fn init(font: Font) -> (r: CPU)
        ensures
            r.wf(),
            r@ == initial(font.0@),
    {
        let mut cpu = CPU::default();
        cpu.frontload_font(font);
        assert(cpu@.mem =~= initial(font.0@).mem);
        cpu
    }

    /// Empties the call stack, clears the framebuffer, ends any wait for a
    /// key and puts the program counter back at the program address;
    /// memory, registers and timers are kept.
    pub fn reset(&mut self)
        requires
            old(self).wf(),
        ensures
            final(self).wf(),
            final(self)@ == (MachineView {
                pc: PROGRAM_START as u16,
                stack: Seq::empty(),
                display: blank(PIXELS as nat),
                waiting: None,
                ..old(self)@
            }),
    {
        self.stack = Stack::new();
        self.vram.clear();
        self.pc = ProgramCounter(PROGRAM_START as u16);
        self.waiting = None;
    }

    /// Copies the glyphs to the start of memory.
    fn frontload_font(&mut self, font: Font)
        requires
            old(self).wf(),
        ensures
            final(self).wf(),
            final(self)@ == (MachineView {
                mem: Seq::new(
                    MEMORY_SIZE as nat,
                    |a: int| if a < 80 { font.0@[a] } else { old(self)@.mem[a] },
                ),
                ..old(self)@
            }),
    {
        let mut k: usize = 0;
        while k < 80
            invariant
                self.wf(),
                k <= 80,
                self@ == (MachineView { mem: self@.mem, ..old(self)@ }),
                forall|a: int|
                    0 <= a < MEMORY_SIZE ==> #[trigger] self@.mem[a] == if a < k {
                        font.0@[a]
                    } else {
                        old(self)@.mem[a]
                    },
            decreases 80 - k,
        {
            self.mem.write(k, font.0[k]);
            k = k + 1;
        }
        assert(self@.mem =~= Seq::new(
            MEMORY_SIZE as nat,
            |a: int| if a < 80 { font.0@[a] } else { old(self)@.mem[a] },
        ));
    }

    /// Reads the big-endian opcode at the program counter and moves past
    /// it; a machine waiting for a key reads without moving.
    pub fn fetch(&mut self) -> (r: Result<u16, Fault>)
        requires
            old(self).wf(),
        ensures
            final(self).wf(),
            old(self)@.pc + 1 >= MEMORY_SIZE ==> r == Err::<u16, Fault>(
                Fault { kind: ErrorKind::MemoryOutOfBounds, pc: old(self)@.pc, opcode: None },
            ) && final(self)@ == old(self)@,
            old(self)@.pc + 1 < MEMORY_SIZE ==> r == Ok::<u16, Fault>(
                opcode_at(old(self)@.mem, old(self)@.pc as int),
            ) && final(self)@ == after_fetch(old(self)@),
    {
        let at = self.pc.0 as usize;
        if at + 1 >= MEMORY_SIZE {
            return Err(Fault { kind: ErrorKind::MemoryOutOfBounds, pc: self.pc.0, opcode: None });
        }
        let hi = self.mem.read(at);
        let lo = self.mem.read(at + 1);
        let opcode: u16 = hi as u16 * 256 + lo as u16;
        if self.waiting.is_none() {
            self.pc.increment(2);
        }
        Ok(opcode)
    }
}

/// The sprite pixels over `p` among rows before `row`, and columns before
/// `col` of row `row`.
spec fn covered_before(
    mem: Seq<u8>,
    i: int,
    n: int,
    vx: int,
    vy: int,
    p: int,
    row: int,
    col: int,
) -> bool {
    covers(mem, i, n, vx, vy, p) && (row_offset(p, vy) < row || (row_offset(p, vy) == row
        && col_offset(p, vx) < col))
}

/// The sprite cell `(c, r)` lands on exactly one pixel, the one that
/// `set_pixel` toggles for it.
proof fn lemma_sprite_cell(vx: int, vy: int, c: int, r: int)
    requires
        0 <= vx < 256,
        0 <= vy < 256,
        0 <= c < 8,
        0 <= r < 16,
    ensures
        ({
            let q = wrapped_index(vx + c, vy + r, HEIGHT as int, WIDTH as int);
            &&& 0 <= q < PIXELS
            &&& col_offset(q, vx) == c
            &&& row_offset(q, vy) == r
            &&& forall|p: int|
                0 <= p < PIXELS && col_offset(p, vx) == c && row_offset(p, vy) == r ==> p == q
        }),
{
    let q = wrapped_index(vx + c, vy + r, HEIGHT as int, WIDTH as int);
    let (ax, ay) = (vx % 64, vy % 32);
    let qx = (vx + c) % 64;
    let qy = (vy + r) % 32;
    lemma_fundamental_div_mod_converse(vx, 64, vx / 64, ax);
    lemma_fundamental_div_mod_converse(vy, 32, vy / 32, ay);
    if ax + c < 64 {
        lemma_fundamental_div_mod_converse(vx + c, 64, vx / 64, ax + c);
    } else {
        lemma_fundamental_div_mod_converse(vx + c, 64, vx / 64 + 1, ax + c - 64);
    }
    if ay + r < 32 {
        lemma_fundamental_div_mod_converse(vy + r, 32, vy / 32, ay + r);
    } else {
        lemma_fundamental_div_mod_converse(vy + r, 32, vy / 32 + 1, ay + r - 32);
    }
    assert(q == qy * 64 + qx);
    lemma_fundamental_div_mod_converse(q, 64, qy, qx);
    lemma_fundamental_div_mod_converse(qx + 64 - ax, 64, if ax + c < 64 { 1 } else { 0 }, c);
    lemma_fundamental_div_mod_converse(qy + 32 - ay, 32, if ay + r < 32 { 1 } else { 0 }, r);
    assert forall|p: int|
        0 <= p < PIXELS && col_offset(p, vx) == c && row_offset(p, vy) == r implies p == q by {
        let (px, py) = (p % 64, p / 64);
        lemma_fundamental_div_mod(p, 64);
        assert(0 <= px < 64 && 0 <= py < 32);
        if px + 64 - ax < 64 {
            lemma_fundamental_div_mod_converse(px + 64 - ax, 64, 0, px + 64 - ax);
        } else {
            lemma_fundamental_div_mod_converse(px + 64 - ax, 64, 1, px - ax);
        }
        if py + 32 - ay < 32 {
            lemma_fundamental_div_mod_converse(py + 32 - ay, 32, 0, py + 32 - ay);
        } else {
            lemma_fundamental_div_mod_converse(py + 32 - ay, 32, 1, py - ay);
        }
        assert(px == qx);
        assert(py == qy);
    }
}

impl CPU {
    /// XORs the `n`-row sprite at the index register onto the framebuffer
    /// at `(Vx, Vy)`, wrapping at the edges; returns whether a pixel was
    /// unset.
    fn draw_sprite(&mut self, x: u8, y: u8, n: u8) -> (collided: bool)
        requires
            old(self).wf(),
            x < 16,
            y < 16,
            n < 16,
            old(self)@.i + n <= MEMORY_SIZE,
        ensures
            final(self).wf(),
            ({
                let s = old(self)@;
                let (vx, vy) = (s.v[x as int] as int, s.v[y as int] as int);
                &&& final(self)@ == (MachineView {
                    display: drawn(s.display, s.mem, s.i as int, n as int, vx, vy),
                    ..s
                })
                &&& collided == collides(s.display, s.mem, s.i as int, n as int, vx, vy)
            }),
    {
        let ghost s = self@;
        let vx = self.v[x as usize];
        let vy = self.v[y as usize];
        let base = self.index as usize;
        let ghost (gx, gy, gi, gn) = (vx as int, vy as int, base as int, n as int);
        let mut collided = false;
        let mut row: u8 = 0;
        while row < n
            invariant
                self.wf(),
                s.wf(),
                x < 16,
                y < 16,
                gx == s.v[x as int],
                gy == s.v[y as int],
                gi == s.i,
                gn == n,
                gx == vx,
                gy == vy,
                gi == base,
                base + n <= MEMORY_SIZE,
                n < 16,
                row <= n,
                self@ == (MachineView { display: self@.display, ..s }),
                forall|p: int|
                    0 <= p < PIXELS ==> #[trigger] self@.display[p] == (s.display[p]
                        != covered_before(s.mem, gi, gn, gx, gy, p, row as int, 0)),
                collided == exists|p: int|
                    0 <= p < PIXELS && s.display[p] && #[trigger] covered_before(
                        s.mem,
                        gi,
                        gn,
                        gx,
                        gy,
                        p,
                        row as int,
                        0,
                    ),
            decreases n - row,
        {
            let byte = self.mem.read(base + row as usize);
            let mut col: u8 = 0;
            while col < 8
                invariant
                    self.wf(),
                    s.wf(),
                    gx == vx,
                    gy == vy,
                    gi == base,
                    gn == n,
                    base + n <= MEMORY_SIZE,
                    n < 16,
                    row < n,
                    col <= 8,
                    byte == s.mem[gi + row],
                    self@ == (MachineView { display: self@.display, ..s }),
                    forall|p: int|
                        0 <= p < PIXELS ==> #[trigger] self@.display[p] == (s.display[p]
                            != covered_before(s.mem, gi, gn, gx, gy, p, row as int, col as int)),
                    collided == exists|p: int|
                        0 <= p < PIXELS && s.display[p] && #[trigger] covered_before(
                            s.mem,
                            gi,
                            gn,
                            gx,
                            gy,
                            p,
                            row as int,
                            col as int,
                        ),
                decreases 8 - col,
            {
                let ghost before = self@.display;
                let ghost q = wrapped_index(gx + col, gy + row, HEIGHT as int, WIDTH as int);
                proof {
                    lemma_sprite_cell(gx, gy, col as int, row as int);
                }
                let lit = (byte >> (7 - col)) & 1u8 == 1u8;
                assert(lit == sprite_bit(byte, col));
                if lit {
                    let was = self.vram.set_pixel(vx as usize + col as usize, vy as usize + row as usize);
                    if was == 1 {
                        collided = true;
                    }
                }
                proof {
                    assert(covers(s.mem, gi, gn, gx, gy, q) == lit);
                    assert forall|p: int| 0 <= p < PIXELS implies #[trigger] covered_before(
                        s.mem,
                        gi,
                        gn,
                        gx,
                        gy,
                        p,
                        row as int,
                        col + 1,
                    ) == (covered_before(s.mem, gi, gn, gx, gy, p, row as int, col as int) || (p
                        == q && lit)) by {}
                    assert forall|p: int| 0 <= p < PIXELS implies #[trigger] self@.display[p] == (
                    s.display[p] != covered_before(s.mem, gi, gn, gx, gy, p, row as int, col + 1)) by {
                        if p == q {
                            assert(!covered_before(s.mem, gi, gn, gx, gy, p, row as int, col as int));
                        }
                    }
                    if lit && s.display[q] {
                        assert(covered_before(s.mem, gi, gn, gx, gy, q, row as int, col + 1));
                    }
                    if collided {
                        if !(lit && s.display[q]) {
                            let w = choose|p: int|
                                0 <= p < PIXELS && s.display[p] && #[trigger] covered_before(
                                    s.mem,
                                    gi,
                                    gn,
                                    gx,
                                    gy,
                                    p,
                                    row as int,
                                    col as int,
                                );
                            assert(covered_before(s.mem, gi, gn, gx, gy, w, row as int, col + 1));
                        }
                    }
                }
                col = col + 1;
            }
            proof {
                assert forall|p: int| 0 <= p < PIXELS implies #[trigger] covered_before(
                    s.mem,
                    gi,
                    gn,
                    gx,
                    gy,
                    p,
                    row as int,
                    8,
                ) == covered_before(s.mem, gi, gn, gx, gy, p, row + 1, 0) by {}
                if collided {
                    let w = choose|p: int|
                        0 <= p < PIXELS && s.display[p] && #[trigger] covered_before(
                            s.mem,
                            gi,
                            gn,
                            gx,
                            gy,
                            p,
                            row as int,
                            8,
                        );
                    assert(covered_before(s.mem, gi, gn, gx, gy, w, row + 1, 0));
                }
                if exists|p: int|
                    0 <= p < PIXELS && s.display[p] && #[trigger] covered_before(
                        s.mem,
                        gi,
                        gn,
                        gx,
                        gy,
                        p,
                        row + 1,
                        0,
                    ) {
                    let w = choose|p: int|
                        0 <= p < PIXELS && s.display[p] && #[trigger] covered_before(
                            s.mem,
                            gi,
                            gn,
                            gx,
                            gy,
                            p,
                            row + 1,
                            0,
                        );
                    assert(covered_before(s.mem, gi, gn, gx, gy, w, row as int, 8));
                }
            }
            row = row + 1;
        }
        proof {
            assert forall|p: int| 0 <= p < PIXELS implies #[trigger] covered_before(
                s.mem,
                gi,
                gn,
                gx,
                gy,
                p,
                gn,
                0,
            ) == covers(s.mem, gi, gn, gx, gy, p) by {}
            assert(self@.display =~= drawn(s.display, s.mem, gi, gn, gx, gy));
            if collided {
                let w = choose|p: int|
                    0 <= p < PIXELS && s.display[p] && #[trigger] covered_before(
                        s.mem,
                        gi,
                        gn,
                        gx,
                        gy,
                        p,
                        gn,
                        0,
                    );
                assert(covers(s.mem, gi, gn, gx, gy, w));
            }
            if collides(s.display, s.mem, gi, gn, gx, gy) {
                let w = choose|p: int|
                    0 <= p < s.display.len() && s.display[p] && #[trigger] covers(
                        s.mem,
                        gi,
                        gn,
                        gx,
                        gy,
                        p,
                    );
                assert(covered_before(s.mem, gi, gn, gx, gy, w, gn, 0));
            }
        }
        collided
    }
}

impl CPU {
    /// Executes `opcode`, using `random` as the byte that the random
    /// instruction draws. A machine waiting for a key does nothing.
    pub fn execute_with(&mut self, opcode: u16, random: u8) -> (r: Result<(), Fault>)
        requires
            old(self).wf(),
        ensures
            final(self).wf(),
            outcome(old(self)@, opcode, random, final(self)@, r),
    {
        if self.waiting.is_some() {
            return Ok(());
        }
        let ins = decode(opcode);
        if is_flow_exec(ins) {
            self.run_flow(ins, opcode)
        } else if is_arith_exec(ins) {
            self.run_arith(ins, random);
            Ok(())
        } else {
            self.run_other(ins, opcode)
        }
    }

    /// Executes `opcode` with a freshly drawn random byte; the machine
    /// ends as `execute_with` would leave it for some byte.
    pub fn execute(&mut self, opcode: u16) -> (r: Result<(), Fault>)
        requires
            old(self).wf(),
        ensures
            final(self).wf(),
            exists|b: u8| #[trigger] outcome(old(self)@, opcode, b, final(self)@, r),
    {
        let random = if opcode / 4096 == 0xC {
            random_byte()
        } else {
            0
        };
        let r = self.execute_with(opcode, random);
        assert(outcome(old(self)@, opcode, random, self@, r));
        r
    }

    fn set_reg(&mut self, x: u8, val: u8)
        requires
            old(self).wf(),
            x < 16,
        ensures
            final(self).wf(),
            final(self)@ == set_v(old(self)@, x, val),
    {
        self.v.set(x as usize, val);
    }

    fn shift_operand(&self, x: u8, y: u8) -> (r: u8)
        requires
            self.wf(),
            x < 16,
            y < 16,
        ensures
            r == shift_source(self@, x, y),
    {
        if self.shift_in_place {
            self.v[x as usize]
        } else {
            self.v[y as usize]
        }
    }

    fn skip_when(&mut self, cond: bool)
        requires
            old(self).wf(),
        ensures
            final(self).wf(),
            final(self)@ == skip_if(old(self)@, cond),
    {
        if cond {
            self.pc.increment(2);
        }
    }

    fn run_flow(&mut self, ins: Instruction, opcode: u16) -> (r: Result<(), Fault>)
        requires
            old(self).wf(),
            old(self)@.waiting is None,
            operands_in_range(ins),
            is_flow(ins),
        ensures
            final(self).wf(),
            step_matches(old(self)@, ins, opcode, 0, final(self)@, r),
    {
        let pc = self.pc.0;
        match ins {
            Instruction::ClearScreen => {
                self.vram.clear();
                Ok(())
            },
            Instruction::Return => match self.stack.pop() {
                Some(a) => {
                    self.pc = ProgramCounter(a);
                    Ok(())
                },
                None => Err(Fault { kind: ErrorKind::StackUnderflow, pc, opcode: Some(opcode) }),
            },
            Instruction::Jump(a) => {
                self.pc = ProgramCounter(a);
                Ok(())
            },
            Instruction::Call(a) => {
                if self.stack.depth() >= STACK_DEPTH {
                    Err(Fault { kind: ErrorKind::StackOverflow, pc, opcode: Some(opcode) })
                } else {
                    self.stack.push(pc);
                    self.pc = ProgramCounter(a);
                    Ok(())
                }
            },
            Instruction::SkipEqImm(x, kk) => {
                let c = self.v[x as usize] == kk;
                self.skip_when(c);
                Ok(())
            },
            Instruction::SkipNeImm(x, kk) => {
                let c = self.v[x as usize] != kk;
                self.skip_when(c);
                Ok(())
            },
            Instruction::SkipEqReg(x, y) => {
                let c = self.v[x as usize] == self.v[y as usize];
                self.skip_when(c);
                Ok(())
            },
            Instruction::SkipNeReg(x, y) => {
                let c = self.v[x as usize] != self.v[y as usize];
                self.skip_when(c);
                Ok(())
            },
            Instruction::JumpOffset(a) => {
                let target: u32 = (a as u32 + self.v[0] as u32) % (MEMORY_SIZE as u32);
                self.pc = ProgramCounter(target as u16);
                Ok(())
            },
            Instruction::SkipKey(x) => {
                let k = self.v[x as usize];
                let down = k < 16 && self.keys[k as usize];
                self.skip_when(down);
                Ok(())
            },
            Instruction::SkipNoKey(x) => {
                let k = self.v[x as usize];
                let down = k < 16 && self.keys[k as usize];
                self.skip_when(!down);
                Ok(())
            },
            _ => Ok(()),
        }
    }

    fn run_arith(&mut self, ins: Instruction, random: u8)
        requires
            old(self).wf(),
            old(self)@.waiting is None,
            operands_in_range(ins),
            is_arith(ins),
        ensures
            final(self).wf(),
            next(old(self)@, ins, random) == Ok::<MachineView, ErrorKind>(final(self)@),
    {
        match ins {
            Instruction::LoadImm(x, kk) => self.set_reg(x, kk),
            Instruction::AddImm(x, kk) => {
                let val = ((self.v[x as usize] as u16 + kk as u16) % 256) as u8;
                self.set_reg(x, val);
            },
            Instruction::Move(x, y) => {
                let val = self.v[y as usize];
                self.set_reg(x, val);
            },
            Instruction::Or(x, y) => {
                let val = self.v[x as usize] | self.v[y as usize];
                self.set_reg(x, val);
            },
            Instruction::And(x, y) => {
                let val = self.v[x as usize] & self.v[y as usize];
                self.set_reg(x, val);
            },
            Instruction::Xor(x, y) => {
                let val = self.v[x as usize] ^ self.v[y as usize];
                self.set_reg(x, val);
            },
            Instruction::AddReg(x, y) => {
                let sum: u16 = self.v[x as usize] as u16 + self.v[y as usize] as u16;
                self.set_reg(FLAG, if sum > 255 { 1 } else { 0 });
                self.set_reg(x, (sum % 256) as u8);
            },
            Instruction::Sub(x, y) => {
                let a = self.v[x as usize];
                let b = self.v[y as usize];
                self.set_reg(FLAG, if a >= b { 1 } else { 0 });
                self.set_reg(x, ((a as u16 + 256 - b as u16) % 256) as u8);
            },
            Instruction::ShiftRight(x, y) => {
                let b = self.shift_operand(x, y);
                self.set_reg(FLAG, b % 2);
                self.set_reg(x, b / 2);
            },
            Instruction::SubReverse(x, y) => {
                let a = self.v[x as usize];
                let b = self.v[y as usize];
                self.set_reg(FLAG, if b >= a { 1 } else { 0 });
                self.set_reg(x, ((b as u16 + 256 - a as u16) % 256) as u8);
            },
            Instruction::ShiftLeft(x, y) => {
                let b = self.shift_operand(x, y);
                self.set_reg(FLAG, b / 128);
                self.set_reg(x, ((b as u16 * 2) % 256) as u8);
            },
            Instruction::Random(x, kk) => self.set_reg(x, random & kk),
            _ => {},
        }
    }

    fn run_other(&mut self, ins: Instruction, opcode: u16) -> (r: Result<(), Fault>)
        requires
            old(self).wf(),
            old(self)@.waiting is None,
            operands_in_range(ins),
            !is_flow(ins),
            !is_arith(ins),
        ensures
            final(self).wf(),
            step_matches(old(self)@, ins, opcode, 0, final(self)@, r),
    {
        let pc = self.pc.0;
        let base = self.index as usize;
        match ins {
            Instruction::LoadIndex(a) => {
                self.index = a;
                Ok(())
            },
            Instruction::Draw(x, y, n) => {
                if base + n as usize > MEMORY_SIZE {
                    Err(Fault { kind: ErrorKind::MemoryOutOfBounds, pc, opcode: Some(opcode) })
                } else {
                    let c = self.draw_sprite(x, y, n);
                    self.set_reg(FLAG, if c { 1 } else { 0 });
                    Ok(())
                }
            },
            Instruction::LoadDelay(x) => {
                let d = self.delay;
                self.set_reg(x, d);
                Ok(())
            },
            Instruction::WaitKey(x) => {
                self.waiting = Some(x);
                Ok(())
            },
            Instruction::SetDelay(x) => {
                self.delay = self.v[x as usize];
                Ok(())
            },
            Instruction::SetSound(x) => {
                self.sound = self.v[x as usize];
                Ok(())
            },
            Instruction::AddIndex(x) => {
                let sum: u32 = (self.index as u32 + self.v[x as usize] as u32) % (MEMORY_SIZE as u32);
                self.index = sum as u16;
                Ok(())
            },
            Instruction::LoadFont(x) => {
                self.index = 5 * self.v[x as usize] as u16;
                Ok(())
            },
            Instruction::StoreBcd(x) => {
                if base + 3 > MEMORY_SIZE {
                    Err(Fault { kind: ErrorKind::MemoryOutOfBounds, pc, opcode: Some(opcode) })
                } else {
                    let b = self.v[x as usize];
                    self.mem.write(base, b / 100);
                    self.mem.write(base + 1, (b / 10) % 10);
                    self.mem.write(base + 2, b % 10);
                    Ok(())
                }
            },
            Instruction::StoreRegs(x) => {
                if base + x as usize + 1 > MEMORY_SIZE {
                    Err(Fault { kind: ErrorKind::MemoryOutOfBounds, pc, opcode: Some(opcode) })
                } else {
                    self.store_registers(x);
                    Ok(())
                }
            },
            Instruction::LoadRegs(x) => {
                if base + x as usize + 1 > MEMORY_SIZE {
                    Err(Fault { kind: ErrorKind::MemoryOutOfBounds, pc, opcode: Some(opcode) })
                } else {
                    self.load_registers(x);
                    Ok(())
                }
            },
            _ => Ok(()),
        }
    }

    /// Copies `V0..=Vx` to memory at the index register.
    fn store_registers(&mut self, x: u8)
        requires
            old(self).wf(),
            x < 16,
            old(self)@.i + x + 1 <= MEMORY_SIZE,
        ensures
            final(self).wf(),
            ({
                let s = old(self)@;
                final(self)@ == (MachineView {
                    mem: Seq::new(
                        MEMORY_SIZE as nat,
                        |a: int|
                            if s.i <= a <= s.i + x {
                                s.v[a - s.i]
                            } else {
                                s.mem[a]
                            },
                    ),
                    ..s
                })
            }),
    {
        let ghost s = self@;
        let base = self.index as usize;
        let mut k: usize = 0;
        while k <= x as usize
            invariant
                self.wf(),
                s.wf(),
                x < 16,
                base == s.i,
                base + x + 1 <= MEMORY_SIZE,
                k <= x + 1,
                self@ == (MachineView { mem: self@.mem, ..s }),
                forall|a: int|
                    0 <= a < MEMORY_SIZE ==> #[trigger] self@.mem[a] == if base <= a < base + k {
                        s.v[a - base]
                    } else {
                        s.mem[a]
                    },
            decreases x + 1 - k,
        {
            let val = self.v[k];
            self.mem.write(base + k, val);
            k = k + 1;
        }
        assert(self@.mem =~= Seq::new(
            MEMORY_SIZE as nat,
            |a: int|
                if s.i <= a <= s.i + x {
                    s.v[a - s.i]
                } else {
                    s.mem[a]
                },
        ));
    }

    /// Copies memory at the index register into `V0..=Vx`.
    fn load_registers(&mut self, x: u8)
        requires
            old(self).wf(),
            x < 16,
            old(self)@.i + x + 1 <= MEMORY_SIZE,
        ensures
            final(self).wf(),
            ({
                let s = old(self)@;
                final(self)@ == (MachineView {
                    v: Seq::new(16, |k: int| if k <= x { s.mem[s.i + k] } else { s.v[k] }),
                    ..s
                })
            }),
    {
        let ghost s = self@;
        let base = self.index as usize;
        let mut k: usize = 0;
        while k <= x as usize
            invariant
                self.wf(),
                s.wf(),
                x < 16,
                base == s.i,
                base + x + 1 <= MEMORY_SIZE,
                k <= x + 1,
                self@ == (MachineView { v: self@.v, ..s }),
                forall|j: int|
                    0 <= j < 16 ==> #[trigger] self@.v[j] == if j < k {
                        s.mem[base + j]
                    } else {
                        s.v[j]
                    },
            decreases x + 1 - k,
        {
            let val = self.mem.read(base + k);
            self.v.set(k, val);
            k = k + 1;
        }
        assert(self@.v =~= Seq::new(16, |k: int| if k <= x { s.mem[s.i + k] } else { s.v[k] }));
    }
}

fn is_flow_exec(ins: Instruction) -> (r: bool)
    ensures
        r == is_flow(ins),
{
    match ins {
        Instruction::ClearScreen | Instruction::Return | Instruction::Jump(_) | Instruction::Call(_)
        | Instruction::SkipEqImm(_, _) | Instruction::SkipNeImm(_, _) | Instruction::SkipEqReg(_, _)
        | Instruction::SkipNeReg(_, _) | Instruction::JumpOffset(_) | Instruction::SkipKey(_)
        | Instruction::SkipNoKey(_) | Instruction::Unknown(_) => true,
        _ => false,
    }
}

fn is_arith_exec(ins: Instruction) -> (r: bool)
    ensures
        r == is_arith(ins),
{
    match ins {
        Instruction::LoadImm(_, _) | Instruction::AddImm(_, _) | Instruction::Move(_, _)
        | Instruction::Or(_, _) | Instruction::And(_, _) | Instruction::Xor(_, _)
        | Instruction::AddReg(_, _) | Instruction::Sub(_, _) | Instruction::ShiftRight(_, _)
        | Instruction::SubReverse(_, _) | Instruction::ShiftLeft(_, _) | Instruction::Random(_, _) => true,
        _ => false,
    }
}

impl CPU {
    /// Takes a fresh keypad snapshot. A machine waiting for a key stores
    /// the lowest key that went from released to pressed in the waiting
    /// register and runs again.
    pub fn set_keys(&mut self, keys: [bool; 16])
        requires
            old(self).wf(),
        ensures
            final(self).wf(),
            final(self)@ == key_event(old(self)@, keys@),
    {
        let ghost s = self@;
        if let Some(x) = self.waiting {
            let mut k: usize = 0;
            let mut found: Option<u8> = None;
            while k < 16
                invariant
                    self@ == s,
                    s.wf(),
                    k <= 16,
                    found is None ==> first_press(s.keys, keys@, 0) == first_press(
                        s.keys,
                        keys@,
                        k as int,
                    ),
                    found is Some ==> found == first_press(s.keys, keys@, 0),
                decreases 16 - k,
            {
                if found.is_none() && keys[k] && !self.keys[k] {
                    found = Some(k as u8);
                }
                k = k + 1;
            }
            if let Some(key) = found {
                self.set_reg(x, key);
                self.waiting = None;
            }
        }
        self.keys = keys;
        proof {
            assert(self@.keys =~= key_event(s, keys@).keys);
        }
    }

    /// One tick of the timer clock: each nonzero timer drops by one.
    pub fn tick_timers(&mut self)
        requires
            old(self).wf(),
        ensures
            final(self).wf(),
            final(self)@ == ticked(old(self)@),
    {
        if self.delay > 0 {
            self.delay = self.delay - 1;
        }
        if self.sound > 0 {
            self.sound = self.sound - 1;
        }
    }

    /// Whether the tone should sound: the sound timer is nonzero.
    pub fn sound_active(&self) -> (r: bool)
        ensures
            r == (self@.sound > 0),
    {
        self.sound > 0
    }

    /// Copies `rom` into memory at the program address. A program that
    /// does not fit leaves the machine unchanged and faults.
    pub fn load_program(&mut self, rom: &Vec<u8>) -> (r: Result<(), Fault>)
        requires
            old(self).wf(),
        ensures
            final(self).wf(),
            rom@.len() > MEMORY_SIZE - PROGRAM_START ==> r == Err::<(), Fault>(
                Fault { kind: ErrorKind::MemoryOutOfBounds, pc: old(self)@.pc, opcode: None },
            ) && final(self)@ == old(self)@,
            rom@.len() <= MEMORY_SIZE - PROGRAM_START ==> r is Ok && final(self)@ == (MachineView {
                mem: Seq::new(
                    MEMORY_SIZE as nat,
                    |a: int|
                        if PROGRAM_START <= a < PROGRAM_START + rom@.len() {
                            rom@[a - PROGRAM_START]
                        } else {
                            old(self)@.mem[a]
                        },
                ),
                ..old(self)@
            }),
    {
        if rom.len() > MEMORY_SIZE - PROGRAM_START {
            return Err(Fault { kind: ErrorKind::MemoryOutOfBounds, pc: self.pc.0, opcode: None });
        }
        load_program(&mut self.mem, rom);
        Ok(())
    }

    /// Chooses the shift variant: `true` makes `8xy6` and `8xyE` shift `Vx`
    /// in place, `false` (the default) shifts `Vy` into `Vx`.
    pub fn set_shift_in_place(&mut self, on: bool)
        requires
            old(self).wf(),
        ensures
            final(self).wf(),
            final(self)@ == (MachineView { shift_in_place: on, ..old(self)@ }),
    {
        self.shift_in_place = on;
    }

    /// The program counter.
    pub fn pc(&self) -> (r: u16)
        ensures
            r == self@.pc,
    {
        self.pc.0
    }

    /// The index register `I`.
    pub fn index(&self) -> (r: u16)
        ensures
            r == self@.i,
    {
        self.index
    }

    /// Register `Vx`.
    pub fn register(&self, x: u8) -> (r: u8)
        requires
            self.wf(),
            x < 16,
        ensures
            r == self@.v[x as int],
    {
        self.v[x as usize]
    }

    /// The delay timer.
    pub fn delay_timer(&self) -> (r: u8)
        ensures
            r == self@.delay,
    {
        self.delay
    }

    /// The sound timer.
    pub fn sound_timer(&self) -> (r: u8)
        ensures
            r == self@.sound,
    {
        self.sound
    }

    /// The register awaiting a key press, if the machine is suspended.
    pub fn waiting_for_key(&self) -> (r: Option<u8>)
        ensures
            r == self@.waiting,
    {
        self.waiting
    }

    /// Number of return addresses on the call stack.
    pub fn stack_depth(&self) -> (r: usize)
        ensures
            r == self@.stack.len(),
    {
        self.stack.depth()
    }

    /// The byte at `addr`.
    pub fn memory_at(&self, addr: usize) -> (r: u8)
        requires
            self.wf(),
            addr < MEMORY_SIZE,
        ensures
            r == self@.mem[addr as int],
    {
        self.mem.read(addr)
    }

    /// The framebuffer, for presentation.
    pub fn display(&self) -> (r: &Render)
        requires
            self.wf(),
        ensures
            r@ == self@.display,
            r.wf(),
            r.rows() == HEIGHT,
            r.cols() == WIDTH,
            r.scale_factor() == DISPLAY_SCALE,
    {
        &self.vram
    }
}

impl Default for CPU {
    /// A machine with zeroed memory and registers, a blank framebuffer, an
    /// empty stack and the program counter at the program address.
    fn default() -> (r: CPU)
        ensures
            r.wf(),
            r@ == initial(Seq::new(80, |a: int| 0u8)),
    {
        let cpu = CPU {
            mem: Memory::new(),
            vram: Render::new(DISPLAY_SCALE, HEIGHT, WIDTH),
            pc: ProgramCounter(PROGRAM_START as u16),
            stack: Stack::new(),
            index: 0,
            v: zeroed_registers(),
            delay: 0,
            sound: 0,
            keys: [false; 16],
            waiting: None,
            shift_in_place: false,
        };
        assert(cpu.keys@ =~= Seq::new(16, |k: int| false));
        assert(cpu@.mem =~= initial(Seq::new(80, |a: int| 0u8)).mem);
        cpu
    }
}

fn zeroed_registers() -> (r: Vec<u8>)
    ensures
        r@ == Seq::new(16, |k: int| 0u8),
{
    let mut v: Vec<u8> = Vec::new();
    while v.len() < 16
        invariant
            v@.len() <= 16,
            forall|k: int| 0 <= k < v@.len() ==> v@[k] == 0u8,
        decreases 16 - v@.len(),
    {
        v.push(0u8);
    }
    assert(v@ =~= Seq::new(16, |k: int| 0u8));
    v
}

} // verus!
