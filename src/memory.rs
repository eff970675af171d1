use vstd::prelude::*;

verus! {

/// Size of the byte-addressable memory.
pub const MEMORY_SIZE: usize = 4096;

/// Address at which program bytes are loaded.
pub const PROGRAM_START: usize = 0x200;

/// Largest number of return addresses the call stack holds.
pub const STACK_DEPTH: usize = 16;

/// The machine's flat 4096-byte memory.
pub struct Memory(Vec<u8>);

impl View for Memory {
    type V = Seq<u8>;

    closed spec fn view(&self) -> Seq<u8> {
        self.0@
    }
}

impl Memory {
    pub open spec fn wf(&self) -> bool {
        self@.len() == MEMORY_SIZE
    }

    /// Zero-filled memory.
    pub fn new() -> (m: Memory)
        ensures
            m.wf(),
            m@ == Seq::new(MEMORY_SIZE as nat, |a: int| 0u8),
    {
        let mut bytes: Vec<u8> = Vec::new();
        while bytes.len() < MEMORY_SIZE
            invariant
                bytes@.len() <= MEMORY_SIZE,
                forall|a: int| 0 <= a < bytes@.len() ==> bytes@[a] == 0u8,
            decreases MEMORY_SIZE - bytes@.len(),
        {
            bytes.push(0u8);
        }
        let m = Memory(bytes);
        assert(m@ =~= Seq::new(MEMORY_SIZE as nat, |a: int| 0u8));
        m
    }

    /// The byte at `addr`.
    pub fn read(&self, addr: usize) -> (r: u8)
        requires
            self.wf(),
            addr < MEMORY_SIZE,
        ensures
            r == self@[addr as int],
    {
        self.0[addr]
    }

    /// Stores `val` at `addr`.
    pub fn write(&mut self, addr: usize, val: u8)
        requires
            old(self).wf(),
            addr < MEMORY_SIZE,
        ensures
            final(self)@ == old(self)@.update(addr as int, val),
            final(self).wf(),
    {
        self.0[addr] = val;
    }
}

/// Copies `rom` verbatim into `mem`, starting at the program address.
pub fn load_program(mem: &mut Memory, rom: &Vec<u8>)
    requires
        old(mem).wf(),
        PROGRAM_START + rom@.len() <= MEMORY_SIZE,
    ensures
        final(mem).wf(),
        final(mem)@ == Seq::new(
            MEMORY_SIZE as nat,
            |a: int|
                if PROGRAM_START <= a < PROGRAM_START + rom@.len() {
                    rom@[a - PROGRAM_START]
                } else {
                    old(mem)@[a]
                },
        ),
{
    let mut k: usize = 0;
    while k < rom.len()
        invariant
            mem.wf(),
            PROGRAM_START + rom@.len() <= MEMORY_SIZE,
            k <= rom@.len(),
            forall|a: int|
                0 <= a < MEMORY_SIZE ==> #[trigger] mem@[a] == if PROGRAM_START <= a < PROGRAM_START
                    + k {
                    rom@[a - PROGRAM_START]
                } else {
                    old(mem)@[a]
                },
        decreases rom@.len() - k,
    {
        mem.write(PROGRAM_START + k, rom[k]);
        k = k + 1;
    }
    assert(mem@ =~= Seq::new(
        MEMORY_SIZE as nat,
        |a: int|
            if PROGRAM_START <= a < PROGRAM_START + rom@.len() {
                rom@[a - PROGRAM_START]
            } else {
                old(mem)@[a]
            },
    ));
}

/// A 12-bit program counter.
pub struct ProgramCounter(pub u16);

impl ProgramCounter {
    pub open spec fn wf(&self) -> bool {
        (self.0 as int) < MEMORY_SIZE
    }

    /// Advances the counter by `n`, wrapping at the end of memory, and
    /// returns the new value.
    pub fn increment(&mut self, n: u16) -> (r: u16)
        requires
            old(self).wf(),
        ensures
            final(self).0 as int == (old(self).0 as int + n as int) % (MEMORY_SIZE as int),
            r == final(self).0,
            final(self).wf(),
    {
        let next: u32 = (self.0 as u32 + n as u32) % (MEMORY_SIZE as u32);
        self.0 = next as u16;
        self.0
    }
}

/// The bounded call stack of return addresses; the last element is the top.
pub struct Stack(Vec<u16>);

impl View for Stack {
    type V = Seq<u16>;

    closed spec fn view(&self) -> Seq<u16> {
        self.0@
    }
}

impl Stack {
    pub open spec fn wf(&self) -> bool {
        self@.len() <= STACK_DEPTH
    }

    /// An empty stack.
    pub fn new() -> (s: Stack)
        ensures
            s@ == Seq::<u16>::empty(),
    {
        Stack(Vec::new())
    }

    /// Number of addresses held.
    pub fn depth(&self) -> (r: usize)
        ensures
            r == self@.len(),
    {
        self.0.len()
    }

    /// Removes and returns the most recently pushed address, or `None`
    /// when the stack is empty.
    pub fn pop(&mut self) -> (r: Option<u16>)
        ensures
            old(self)@.len() == 0 ==> r is None && final(self)@ == old(self)@,
            old(self)@.len() > 0 ==> r == Some(old(self)@.last()) && final(self)@
                == old(self)@.drop_last(),
    {
        self.0.pop()
    }

    /// Pushes a return address; the stack must have room for it.
    pub fn push(&mut self, el: u16)
        requires
            old(self)@.len() < STACK_DEPTH,
        ensures
            final(self)@ == old(self)@.push(el),
            final(self).wf(),
    {
        self.0.push(el);
    }
}

} // verus!
