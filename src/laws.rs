use vstd::prelude::*;

use crate::instruction::{decode_spec, Fault, Instruction};
use crate::machine::{
    cycle_spec, draw_bits, draw_spec, fetch_spec, flag, lowest_pressed, pixel_index, sprite_bit, step,
    timer_tick, EmulatorState, Machine, DISPLAY_SIZE, lemma_addr_offset,
};

verus! {

/// Some sprite bit below `k` is set and lands on display index `p`.
pub open spec fn sprite_covers(memory: Seq<u8>, i: u16, vx: u8, vy: u8, k: int, p: int) -> bool {
    exists|j: int| 0 <= j < k && sprite_bit(memory, i, j) && #[trigger] pixel_index(vx, vy, j) == p
}

/// Distinct bits of a sprite of at most sixteen rows land on distinct pixels.
proof fn lemma_pixels_distinct(vx: u8, vy: u8, j1: int, j2: int)
    requires
        0 <= j1 < 128,
        0 <= j2 < 128,
        j1 != j2,
    ensures
        pixel_index(vx, vy, j1) != pixel_index(vx, vy, j2),
        0 <= pixel_index(vx, vy, j1) < DISPLAY_SIZE,
{
    let (r1, c1) = (j1 / 8, j1 % 8);
    let (r2, c2) = (j2 / 8, j2 % 8);
    assert(j1 == r1 * 8 + c1 && j2 == r2 * 8 + c2 && 0 <= c1 < 8 && 0 <= c2 < 8);
    assert(0 <= r1 < 16 && 0 <= r2 < 16);
    let py1 = (vy + r1) % 32;
    let py2 = (vy + r2) % 32;
    let px1 = (vx + c1) % 64;
    let px2 = (vx + c2) % 64;
    if py1 * 64 + px1 == py2 * 64 + px2 {
        assert(py1 == py2 && px1 == px2);
        assert(r1 == r2);
        assert(c1 == c2);
    }
}

/// After `k` sprite bits, a pixel differs from its start exactly where some
/// set bit below `k` lands, and the display keeps its size.
proof fn lemma_draw_bits_toggles(
    buffer: Seq<bool>,
    vf: u8,
    memory: Seq<u8>,
    i: u16,
    vx: u8,
    vy: u8,
    k: nat,
)
    requires
        buffer.len() == DISPLAY_SIZE,
        k <= 128,
    ensures
        draw_bits(buffer, vf, memory, i, vx, vy, k).0.len() == DISPLAY_SIZE,
        forall|p: int|
            0 <= p < DISPLAY_SIZE ==> #[trigger] draw_bits(buffer, vf, memory, i, vx, vy, k).0[p]
                == (buffer[p] != sprite_covers(memory, i, vx, vy, k as int, p)),
    decreases k,
{
    if k > 0 {
        let j = k - 1;
        lemma_draw_bits_toggles(buffer, vf, memory, i, vx, vy, j as nat);
        let b = draw_bits(buffer, vf, memory, i, vx, vy, j as nat).0;
        let q = pixel_index(vx, vy, j);
        lemma_pixels_distinct(vx, vy, j, if j == 0 { 1 } else { 0 });
        assert forall|p: int| 0 <= p < DISPLAY_SIZE implies #[trigger] draw_bits(
            buffer,
            vf,
            memory,
            i,
            vx,
            vy,
            k,
        ).0[p] == (buffer[p] != sprite_covers(memory, i, vx, vy, k as int, p)) by {
            if sprite_covers(memory, i, vx, vy, k as int, p) {
                let w = choose|w: int|
                    0 <= w < k && sprite_bit(memory, i, w) && #[trigger] pixel_index(vx, vy, w) == p;
                if w < j {
                    assert(sprite_covers(memory, i, vx, vy, j, p));
                }
            }
            if sprite_bit(memory, i, j) && p == q {
                assert(sprite_covers(memory, i, vx, vy, k as int, p));
                if sprite_covers(memory, i, vx, vy, j, p) {
                    let w = choose|w: int|
                        0 <= w < j && sprite_bit(memory, i, w) && #[trigger] pixel_index(vx, vy, w) == p;
                    lemma_pixels_distinct(vx, vy, w, j);
                }
            } else if sprite_covers(memory, i, vx, vy, j, p) {
                let w = choose|w: int|
                    0 <= w < j && sprite_bit(memory, i, w) && #[trigger] pixel_index(vx, vy, w) == p;
                assert(sprite_covers(memory, i, vx, vy, k as int, p));
            }
        }
    }
}

/// `Draw` wraps each sprite pixel on its own: a display pixel is toggled
/// exactly when some set sprite bit at row `r`, column `c` lands on it, that
/// is on row `(Vy + r) % 32` and column `(Vx + c) % 64`; no other pixel changes.
pub proof fn law_draw_wraps_per_pixel(m: Machine, x: usize, y: usize, n: u8)
    requires
        m.wf(),
        x < 16,
        y < 16,
        n < 16,
    ensures
        draw_spec(m, x as int, y as int, n).buffer.len() == DISPLAY_SIZE,
        forall|p: int|
            0 <= p < DISPLAY_SIZE ==> #[trigger] draw_spec(m, x as int, y as int, n).buffer[p] == (
            m.buffer[p] != sprite_covers(m.memory, m.i, m.v[x as int], m.v[y as int], n * 8, p)),
{
    lemma_draw_bits_toggles(m.buffer, m.v[15], m.memory, m.i, m.v[x as int], m.v[y as int], (n * 8) as nat);
}

/// Drawing the same sprite at the same place twice gives back the display as
/// it was. (With `x` or `y` equal to 15 the first draw rewrites `VF`, so the
/// second one lands elsewhere.)
pub proof fn law_draw_twice_restores(m: Machine, x: usize, y: usize, n: u8, random: u8)
    requires
        m.wf(),
        x < 15,
        y < 15,
        n < 16,
    ensures
        step(m, Instruction::Draw { x, y, nibble: n }, random) is Ok,
        step(m, Instruction::Draw { x, y, nibble: n }, random)->Ok_0.wf(),
        step(step(m, Instruction::Draw { x, y, nibble: n }, random)->Ok_0, Instruction::Draw { x, y, nibble: n }, random) is Ok,
        step(step(m, Instruction::Draw { x, y, nibble: n }, random)->Ok_0, Instruction::Draw { x, y, nibble: n }, random)->Ok_0.buffer
            == m.buffer,
{
    let m1 = draw_spec(m, x as int, y as int, n);
    law_draw_wraps_per_pixel(m, x, y, n);
    assert(m1.v[x as int] == m.v[x as int] && m1.v[y as int] == m.v[y as int]);
    law_draw_wraps_per_pixel(m1, x, y, n);
    let m2 = draw_spec(m1, x as int, y as int, n);
    assert(m2.buffer =~= m.buffer);
}

/// The carry, borrow and shifted-out flags land in `VF`, whatever the operand
/// values: `AddRegister` sets it to 1 exactly on unsigned overflow,
/// `SubtractRegister` and `SubtractReverseRegister` to 1 exactly when no
/// borrow occurs, `ShiftRight` to the low bit and `ShiftLeft` to the high bit
/// of `Vx` before the shift. `Vx` gets the result wrapped to eight bits, unless
/// `x` is 15, where the flag is written last and wins.
pub proof fn law_arithmetic_flags(m: Machine, x: usize, y: usize, random: u8)
    requires
        m.wf(),
        x < 16,
        y < 16,
    ensures
        ({
            let (a, b) = (m.v[x as int], m.v[y as int]);
            let r = step(m, Instruction::AddRegister { x, y }, random);
            &&& r is Ok
            &&& r->Ok_0.v[15] == flag(a + b > 255)
            &&& x != 15 ==> r->Ok_0.v[x as int] == (a + b) % 256
        }),
        ({
            let (a, b) = (m.v[x as int], m.v[y as int]);
            let r = step(m, Instruction::SubtractRegister { x, y }, random);
            &&& r is Ok
            &&& r->Ok_0.v[15] == flag(a >= b)
            &&& x != 15 ==> r->Ok_0.v[x as int] == (a - b + 256) % 256
        }),
        ({
            let (a, b) = (m.v[x as int], m.v[y as int]);
            let r = step(m, Instruction::SubtractReverseRegister { x, y }, random);
            &&& r is Ok
            &&& r->Ok_0.v[15] == flag(b >= a)
            &&& x != 15 ==> r->Ok_0.v[x as int] == (b - a + 256) % 256
        }),
        ({
            let a = m.v[x as int];
            let r = step(m, Instruction::ShiftRight { x }, random);
            &&& r is Ok
            &&& r->Ok_0.v[15] == a % 2
            &&& x != 15 ==> r->Ok_0.v[x as int] == a / 2
        }),
        ({
            let a = m.v[x as int];
            let r = step(m, Instruction::ShiftLeft { x }, random);
            &&& r is Ok
            &&& r->Ok_0.v[15] == a / 128
            &&& x != 15 ==> r->Ok_0.v[x as int] == (a * 2) % 256
        }),
{
}

/// `Add Vx, byte` wraps modulo 256 and leaves every other register, `VF`
/// included, as it was.
pub proof fn law_add_byte_wraps(m: Machine, x: usize, byte: u8, random: u8)
    requires
        m.wf(),
        x < 16,
    ensures
        step(m, Instruction::Add { x, byte }, random) is Ok,
        step(m, Instruction::Add { x, byte }, random)->Ok_0.v[x as int] == (m.v[x as int] + byte) % 256,
        forall|j: int|
            0 <= j < 16 && j != x ==> #[trigger] step(m, Instruction::Add { x, byte }, random)->Ok_0.v[j]
                == m.v[j],
{
}

/// `Jump` sets `pc` to the address, `JumpOffset` to the address plus `V0`;
/// `Call` pushes `pc` and jumps, and fails with `StackOverflow` when all
/// sixteen slots are in use; `Return` pops `pc`, and fails with
/// `StackUnderflow` on an empty stack.
pub proof fn law_control_flow(m: Machine, address: u16, random: u8)
    requires
        m.wf(),
        address < 4096,
    ensures
        step(m, Instruction::Jump { address }, random) == Ok::<Machine, Fault>(Machine { pc: address, ..m }),
        step(m, Instruction::JumpOffset { address }, random) == Ok::<Machine, Fault>(Machine { pc: (address + m.v[0]) as u16, ..m }),
        m.sp < 16 ==> step(m, Instruction::Call { address }, random) == Ok::<Machine, Fault>(Machine {
            stack: m.stack.update(m.sp as int, m.pc),
            sp: (m.sp + 1) as u8,
            pc: address,
            ..m
        }),
        m.sp == 16 ==> step(m, Instruction::Call { address }, random) == Err::<Machine, Fault>(Fault::StackOverflow),
        m.sp > 0 ==> step(m, Instruction::Return, random) == Ok::<Machine, Fault>(Machine {
            sp: (m.sp - 1) as u8,
            pc: m.stack[m.sp - 1],
            ..m
        }),
        m.sp == 0 ==> step(m, Instruction::Return, random) == Err::<Machine, Fault>(Fault::StackUnderflow),
{
}

/// A `Call` followed by a `Return` comes back to the `pc` and stack depth of
/// before the call.
pub proof fn law_call_then_return(m: Machine, address: u16, random: u8)
    requires
        m.wf(),
        address < 4096,
        m.sp < 16,
    ensures
        ({
            let called = step(m, Instruction::Call { address }, random)->Ok_0;
            let back = step(called, Instruction::Return, random);
            &&& back is Ok
            &&& back->Ok_0.pc == m.pc
            &&& back->Ok_0.sp == m.sp
        }),
{
}

/// Every valid instruction keeps the machine well formed; in particular the
/// stack pointer stays within 0..=16.
pub proof fn law_step_keeps_wf(m: Machine, ins: Instruction, random: u8)
    requires
        m.wf(),
        ins.is_valid(),
        step(m, ins, random) is Ok,
    ensures
        step(m, ins, random)->Ok_0.wf(),
        step(m, ins, random)->Ok_0.sp <= 16,
{
    if let Instruction::Draw { x, y, nibble } = ins {
        law_draw_wraps_per_pixel(m, x, y, nibble);
    }
}

/// The lowest pressed key at or above `from`, if there is one, is pressed and
/// every key between `from` and it is up; with none, every key from `from` on
/// is up.
proof fn lemma_lowest_pressed(keys: Seq<bool>, from: int)
    requires
        0 <= from <= keys.len(),
    ensures
        match lowest_pressed(keys, from) {
            Some(k) => from <= k < keys.len() && keys[k] && forall|j: int| from <= j < k ==> !keys[j],
            None => forall|j: int| from <= j < keys.len() ==> !keys[j],
        },
    decreases keys.len() - from,
{
    if from < keys.len() && !keys[from] {
        lemma_lowest_pressed(keys, from + 1);
    }
}

/// After `WaitKeyPress Vx`, a tick with no key pressed changes nothing: `Vx`
/// keeps its value and no instruction is fetched. A tick with keys pressed
/// writes the lowest pressed key's index into `Vx` and resumes running,
/// without fetching.
pub proof fn law_wait_key_press(m: Machine, x: usize, random: u8)
    requires
        m.wf(),
        x < 16,
    ensures
        ({
            let waiting = step(m, Instruction::WaitKeyPress { x }, random)->Ok_0;
            &&& waiting.state == EmulatorState::WaitingKeyPress { x }
            &&& (forall|k: int| 0 <= k < 16 ==> !m.keys[k]) ==> cycle_spec(waiting, random) == Ok::<Machine, Fault>(waiting)
            &&& forall|k: int|
                0 <= k < 16 && #[trigger] m.keys[k] && (forall|j: int| 0 <= j < k ==> !m.keys[j]) ==> cycle_spec(waiting, random)
                    == Ok::<Machine, Fault>(Machine { state: EmulatorState::Running, ..waiting.with_v(x as int, k as u8) })
        }),
{
    lemma_lowest_pressed(m.keys, 0);
    assert forall|k: int|
        0 <= k < 16 && #[trigger] m.keys[k] && (forall|j: int| 0 <= j < k ==> !m.keys[j]) implies lowest_pressed(m.keys, 0) == Some(k) by {
        match lowest_pressed(m.keys, 0) {
            Some(w) => {
                if w < k {
                    assert(!m.keys[w]);
                } else if w > k {
                    assert(!m.keys[k]);
                }
            },
            None => {
                assert(!m.keys[k]);
            },
        }
    }
}

/// A timer at zero stays at zero on a tick; any other value drops by one.
pub proof fn law_timer_saturates(t: u8)
    ensures
        t == 0 ==> timer_tick(t) == 0,
        t > 0 ==> timer_tick(t) == t - 1,
{
}

/// Storing `V0..=Vx` at `I` and loading them back from the same address
/// gives back the registers as they were.
pub proof fn law_store_load_round_trip(m: Machine, x: usize, random: u8)
    requires
        m.wf(),
        x < 16,
    ensures
        ({
            let stored = step(m, Instruction::StoreRegisters { x }, random);
            let loaded = step(stored->Ok_0, Instruction::LoadRegisters { x }, random);
            &&& stored is Ok
            &&& loaded is Ok
            &&& forall|j: int| 0 <= j <= x ==> #[trigger] loaded->Ok_0.v[j] == m.v[j]
            &&& loaded->Ok_0.v == m.v
        }),
{
    let stored = step(m, Instruction::StoreRegisters { x }, random)->Ok_0;
    let loaded = step(stored, Instruction::LoadRegisters { x }, random)->Ok_0;
    assert forall|j: int| 0 <= j <= x implies #[trigger] loaded.v[j] == m.v[j] by {
        lemma_addr_offset(m.i as int, j);
    }
    assert(loaded.v =~= m.v);
}

/// The only faults of a tick are an unknown opcode and a stack overflow or
/// underflow; every other instruction, whatever the registers and memory
/// hold, runs without error.
pub proof fn law_cycle_faults(m: Machine, random: u8)
    requires
        m.wf(),
    ensures
        cycle_spec(m, random) is Err ==> m.state == EmulatorState::Running && match decode_spec(
            fetch_spec(m),
        ) {
            Err(e) => cycle_spec(m, random) == Err::<Machine, Fault>(e),
            Ok(ins) => (ins == Instruction::Return && m.sp == 0 && cycle_spec(m, random) == Err::<
                Machine,
                Fault,
            >(Fault::StackUnderflow)) || (ins is Call && m.sp == 16 && cycle_spec(m, random)
                == Err::<Machine, Fault>(Fault::StackOverflow)),
        },
{
}

/// A tick that runs an instruction other than a jump, call, return or skip
/// succeeds and moves `pc` on by exactly 2.
pub proof fn law_cycle_advances_pc(m: Machine, random: u8)
    requires
        m.wf(),
        m.state == EmulatorState::Running,
        decode_spec(fetch_spec(m)) is Ok,
        !(decode_spec(fetch_spec(m))->Ok_0 is Jump || decode_spec(fetch_spec(m))->Ok_0 is Call
            || decode_spec(fetch_spec(m))->Ok_0 is Return || decode_spec(fetch_spec(m))->Ok_0 is JumpOffset
            || decode_spec(fetch_spec(m))->Ok_0 is SkipEqual || decode_spec(fetch_spec(m))->Ok_0 is SkipNotEqual
            || decode_spec(fetch_spec(m))->Ok_0 is SkipEqualRegister
            || decode_spec(fetch_spec(m))->Ok_0 is SkipNotEqualRegister
            || decode_spec(fetch_spec(m))->Ok_0 is SkipKeyPressed
            || decode_spec(fetch_spec(m))->Ok_0 is SkipKeyNotPressed),
    ensures
        cycle_spec(m, random) is Ok,
        cycle_spec(m, random)->Ok_0.pc == (m.pc + 2) % 0x10000,
{
}

} // verus!
