use vstd::prelude::*;
use crate::machine::{
    advanced, after_fetch, collides, covers, first_press, key_event, next, ticked, ErrorKind,
    MachineView, FLAG, PIXELS,
};
use crate::instruction::{address, decoded, family, nib_x, nib_y};
use crate::memory::{MEMORY_SIZE, STACK_DEPTH};

verus! {

/// A jump or a call sets the program counter to the 12-bit address written
/// in the opcode, whatever the registers hold.
pub proof fn lemma_jump_goes_to_literal_address(s: MachineView, op: u16, rnd: u8)
    requires
        s.wf(),
        s.waiting is None,
        family(op) == 1 || (family(op) == 2 && s.stack.len() < STACK_DEPTH),
    ensures
        next(s, decoded(op), rnd) is Ok,
        next(s, decoded(op), rnd)->Ok_0.pc == address(op),
{
}

/// Drawing the same sprite twice at the same place restores the
/// framebuffer, and the second draw reports a collision exactly when the
/// first one set some pixel. (The coordinates must not live in `VF`, which
/// the first draw overwrites.)
pub proof fn lemma_draw_twice_restores(s: MachineView, op: u16, rnd: u8)
    requires
        s.wf(),
        s.waiting is None,
        decoded(op) is Draw,
        nib_x(op) != FLAG,
        nib_y(op) != FLAG,
        s.i + decoded(op)->Draw_2 <= MEMORY_SIZE,
    ensures
        next(s, decoded(op), rnd) is Ok,
        ({
            let s1 = next(s, decoded(op), rnd)->Ok_0;
            &&& next(s1, decoded(op), rnd) is Ok
            &&& next(s1, decoded(op), rnd)->Ok_0.display == s.display
            &&& next(s1, decoded(op), rnd)->Ok_0.v[FLAG as int] == if exists|p: int|
                0 <= p < PIXELS && !s.display[p] && #[trigger] s1.display[p] {
                1u8
            } else {
                0u8
            }
        }),
{
    let (x, y, n) = (nib_x(op), nib_y(op), decoded(op)->Draw_2);
    let s1 = next(s, decoded(op), rnd)->Ok_0;
    let (vx, vy) = (s.v[x as int] as int, s.v[y as int] as int);
    assert(s1.v[x as int] as int == vx && s1.v[y as int] as int == vy);
    let s2 = next(s1, decoded(op), rnd)->Ok_0;
    assert(s2.display =~= s.display);
    let set_some = exists|p: int| 0 <= p < PIXELS && !s.display[p] && #[trigger] s1.display[p];
    let c2 = collides(s1.display, s1.mem, s1.i as int, n as int, vx, vy);
    if set_some {
        let p = choose|p: int| 0 <= p < PIXELS && !s.display[p] && #[trigger] s1.display[p];
        assert(covers(s.mem, s.i as int, n as int, vx, vy, p));
        assert(c2);
    }
    if c2 {
        let p = choose|p: int|
            0 <= p < s1.display.len() && s1.display[p] && #[trigger] covers(
                s1.mem,
                s1.i as int,
                n as int,
                vx,
                vy,
                p,
            );
        assert(!s.display[p] && s1.display[p]);
    }
}

/// Clearing the screen twice leaves the same blank framebuffer as
/// clearing it once.
pub proof fn lemma_clear_idempotent(s: MachineView, rnd: u8)
    requires
        s.wf(),
    ensures
        next(s, decoded(0x00E0), rnd) is Ok,
        next(next(s, decoded(0x00E0), rnd)->Ok_0, decoded(0x00E0), rnd) == next(
            s,
            decoded(0x00E0),
            rnd,
        ),
{
}

/// A call followed by a return puts the program counter back where the
/// call was made from, and the stack back as it was.
pub proof fn lemma_call_then_return(s: MachineView, call: u16, rnd: u8)
    requires
        s.wf(),
        s.waiting is None,
        family(call) == 2,
        s.stack.len() < STACK_DEPTH,
    ensures
        next(s, decoded(call), rnd) is Ok,
        next(next(s, decoded(call), rnd)->Ok_0, decoded(0x00EE), rnd) == Ok::<
            MachineView,
            ErrorKind,
        >(s),
{
    let t = next(s, decoded(call), rnd)->Ok_0;
    assert(t.stack.drop_last() =~= s.stack);
}

/// While the machine waits for a key, neither fetching nor executing any
/// opcode changes it; timer ticks keep it waiting.
pub proof fn lemma_waiting_blocks(s: MachineView, op: u16, rnd: u8)
    requires
        s.wf(),
        s.waiting is Some,
    ensures
        after_fetch(s) == s,
        next(s, decoded(op), rnd) == Ok::<MachineView, ErrorKind>(s),
        ticked(s).waiting == s.waiting,
{
}

/// A keypad snapshot with no newly pressed key changes nothing but the
/// keypad; one in which key `k` alone went down stores `k` in the waiting
/// register and resumes execution.
pub proof fn lemma_key_press_resumes(s: MachineView, keys: Seq<bool>, k: u8)
    requires
        s.wf(),
        s.waiting is Some,
        keys.len() == 16,
        k < 16,
    ensures
        (forall|j: int| 0 <= j < 16 ==> !(keys[j] && !s.keys[j])) ==> key_event(s, keys) == (
        MachineView { keys, ..s }),
        (keys[k as int] && !s.keys[k as int] && forall|j: int|
            0 <= j < 16 && j != k ==> !(#[trigger] keys[j] && !s.keys[j])) ==> ({
            let t = key_event(s, keys);
            &&& t.waiting is None
            &&& t.v == s.v.update(s.waiting->Some_0 as int, k)
            &&& t.keys == keys
            &&& t.pc == s.pc
        }),
{
    if forall|j: int| 0 <= j < 16 ==> !(keys[j] && !s.keys[j]) {
        lemma_no_press(s.keys, keys, 0);
    }
    if keys[k as int] && !s.keys[k as int] && forall|j: int|
        0 <= j < 16 && j != k ==> !(#[trigger] keys[j] && !s.keys[j]) {
        lemma_only_press(s.keys, keys, k, 0);
    }
}

proof fn lemma_no_press(before: Seq<bool>, after: Seq<bool>, from: int)
    requires
        0 <= from <= 16,
        forall|j: int| 0 <= j < 16 ==> !(after[j] && !before[j]),
    ensures
        first_press(before, after, from) is None,
    decreases 16 - from,
{
    if from < 16 {
        lemma_no_press(before, after, from + 1);
    }
}

proof fn lemma_only_press(before: Seq<bool>, after: Seq<bool>, k: u8, from: int)
    requires
        0 <= from <= k < 16,
        after[k as int] && !before[k as int],
        forall|j: int| 0 <= j < 16 && j != k ==> !(#[trigger] after[j] && !before[j]),
    ensures
        first_press(before, after, from) == Some(k),
    decreases k - from,
{
    if from < k {
        lemma_only_press(before, after, k, from + 1);
    }
}

/// An opcode outside the table is a no-op: it raises no fault, and the
/// program counter has moved past it as for any instruction.
pub proof fn lemma_unknown_is_noop(s: MachineView, op: u16, rnd: u8)
    requires
        s.wf(),
        s.waiting is None,
        decoded(op) is Unknown,
    ensures
        next(after_fetch(s), decoded(op), rnd) == Ok::<MachineView, ErrorKind>(
            after_fetch(s),
        ),
        after_fetch(s).pc == advanced(s.pc),
{
}

} // verus!
