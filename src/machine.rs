use vstd::prelude::*;

use crate::instruction::{decode_spec, Fault, Instruction};

verus! {

/// Width of the display in pixels.
pub const DISPLAY_WIDTH: usize = 64;

/// Height of the display in pixels.
pub const DISPLAY_HEIGHT: usize = 32;

/// Number of pixels on the display, `DISPLAY_WIDTH * DISPLAY_HEIGHT`.
pub const DISPLAY_SIZE: usize = 2048;

/// Size of the address space in bytes.
pub const MEMORY_SIZE: usize = 4096;

/// Address at which a program is loaded and execution starts.
pub const PROGRAM_START: usize = 0x200;

/// Largest program that fits between `PROGRAM_START` and the end of memory.
pub const MAX_PROGRAM_SIZE: usize = 3584;

/// Whether the CPU executes instructions or waits for a key.
#[derive(Clone, Copy, Debug, PartialEq, Eq, Structural)]
pub enum EmulatorState {
    Running,
    /// Blocked until a key is pressed; its index then goes to register `x`.
    WaitingKeyPress { x: usize },
}

/// The abstract state of a CHIP-8 machine.
pub ghost struct Machine {
    pub v: Seq<u8>,
    pub i: u16,
    pub pc: u16,
    pub sp: u8,
    pub stack: Seq<u16>,
    pub delay_timer: u8,
    pub sound_timer: u8,
    pub memory: Seq<u8>,
    pub buffer: Seq<bool>,
    pub keys: Seq<bool>,
    pub state: EmulatorState,
}

/// The built-in font: sixteen glyphs of five bytes each, for 0..F.
pub open spec fn font() -> Seq<u8> {
    seq![
        0xF0u8, 0x90, 0x90, 0x90, 0xF0,
        0x20, 0x60, 0x20, 0x20, 0x70,
        0xF0, 0x10, 0xF0, 0x80, 0xF0,
        0xF0, 0x10, 0xF0, 0x10, 0xF0,
        0x90, 0x90, 0xF0, 0x10, 0x10,
        0xF0, 0x80, 0xF0, 0x10, 0xF0,
        0xF0, 0x80, 0xF0, 0x90, 0xF0,
        0xF0, 0x10, 0x20, 0x40, 0x40,
        0xF0, 0x90, 0xF0, 0x90, 0xF0,
        0xF0, 0x90, 0xF0, 0x10, 0xF0,
        0xF0, 0x90, 0xF0, 0x90, 0x90,
        0xE0, 0x90, 0xE0, 0x90, 0xE0,
        0xF0, 0x80, 0x80, 0x80, 0xF0,
        0xE0, 0x90, 0x90, 0x90, 0xE0,
        0xF0, 0x80, 0xF0, 0x80, 0xF0,
        0xF0, 0x80, 0xF0, 0x80, 0x80,
    ]
}

impl Machine {
    /// Sizes of the register file, stack, memory, display and keypad, the
    /// stack pointer's range, and a register index for a pending key wait.
    pub open spec fn wf(self) -> bool {
        &&& self.v.len() == 16
        &&& self.stack.len() == 16
        &&& self.memory.len() == MEMORY_SIZE
        &&& self.buffer.len() == DISPLAY_SIZE
        &&& self.keys.len() == 16
        &&& self.sp <= 16
        &&& (self.state matches EmulatorState::WaitingKeyPress { x } ==> x < 16)
    }

    /// A freshly built machine: everything zero or false, `pc` at `PROGRAM_START`.
    pub open spec fn initial() -> Machine {
        Machine {
            v: Seq::new(16, |k: int| 0u8),
            i: 0,
            pc: PROGRAM_START as u16,
            sp: 0,
            stack: Seq::new(16, |k: int| 0u16),
            delay_timer: 0,
            sound_timer: 0,
            memory: Seq::new(MEMORY_SIZE as nat, |a: int| 0u8),
            buffer: Seq::new(DISPLAY_SIZE as nat, |p: int| false),
            keys: Seq::new(16, |k: int| false),
            state: EmulatorState::Running,
        }
    }

    /// The machine with register `x` set to `val`.
    pub open spec fn with_v(self, x: int, val: u8) -> Machine {
        Machine { v: self.v.update(x, val), ..self }
    }

    /// The machine with `pc` moved past the next instruction when `cond` holds.
    pub open spec fn skip_if(self, cond: bool) -> Machine {
        if cond {
            Machine { pc: ((self.pc + 2) % 0x10000) as u16, ..self }
        } else {
            self
        }
    }
}

/// 1 when `b` holds, else 0.
pub open spec fn flag(b: bool) -> u8 {
    if b {
        1
    } else {
        0
    }
}

/// A memory address: only the low 12 bits of `a` count.
pub open spec fn addr(a: int) -> int {
    a % (MEMORY_SIZE as int)
}

/// Offset `k` from `base` lands on `addr(base + k)` and on no other address.
pub proof fn lemma_addr_offset(base: int, k: int)
    requires
        0 <= base,
        0 <= k < 16,
    ensures
        addr(addr(base + k) - base) == k,
        forall|a: int|
            0 <= a < MEMORY_SIZE && a != addr(base + k) ==> #[trigger] addr(a - base) != k,
{
    assert(addr(addr(base + k) - base) == k) by (nonlinear_arith)
        requires
            0 <= base,
            0 <= k < 16,
    ;
    assert forall|a: int| 0 <= a < MEMORY_SIZE && a != addr(base + k) implies #[trigger] addr(
        a - base,
    ) != k by {
        assert(addr(a - base) == k ==> a == addr(base + k)) by (nonlinear_arith)
            requires
                0 <= a < 4096,
                0 <= base,
                0 <= k < 16,
        ;
    }
}

/// Bit `k % 8` (most significant first) of sprite row `k / 8`, read from
/// memory at `i + k / 8`.
pub open spec fn sprite_bit(memory: Seq<u8>, i: u16, k: int) -> bool {
    (memory[addr(i + k / 8)] >> ((7 - k % 8) as u8)) & 1u8 == 1u8
}

/// The display index that sprite bit `k` lands on for a sprite at `(vx, vy)`,
/// each coordinate wrapped on its own.
pub open spec fn pixel_index(vx: u8, vy: u8, k: int) -> int {
    ((vy + k / 8) % (DISPLAY_HEIGHT as int)) * (DISPLAY_WIDTH as int) + (vx + k % 8) % (
    DISPLAY_WIDTH as int)
}

/// The display and `VF` after the first `k` sprite bits, row by row: each set
/// bit stores the prior value of its pixel in `VF` and then toggles the pixel.
pub open spec fn draw_bits(
    buffer: Seq<bool>,
    vf: u8,
    memory: Seq<u8>,
    i: u16,
    vx: u8,
    vy: u8,
    k: nat,
) -> (Seq<bool>, u8)
    decreases k,
{
    if k == 0 {
        (buffer, vf)
    } else {
        let (b, f) = draw_bits(buffer, vf, memory, i, vx, vy, (k - 1) as nat);
        if sprite_bit(memory, i, k - 1) {
            let p = pixel_index(vx, vy, k - 1);
            (b.update(p, !b[p]), flag(b[p]))
        } else {
            (b, f)
        }
    }
}

/// `m` after the first `k` bits of the sprite at memory `I` have been drawn
/// at `(vx, vy)`.
pub open spec fn draw_partial(m: Machine, vx: u8, vy: u8, k: nat) -> Machine {
    let (b, f) = draw_bits(m.buffer, m.v[15], m.memory, m.i, vx, vy, k);
    Machine { buffer: b, v: m.v.update(15, f), ..m }
}

/// `m` after drawing the `n`-row sprite at memory `I` at `(Vx, Vy)`.
pub open spec fn draw_spec(m: Machine, x: int, y: int, n: u8) -> Machine {
    draw_partial(m, m.v[x], m.v[y], (n * 8) as nat)
}

/// The lowest index at or above `from` of a pressed key.
pub open spec fn lowest_pressed(keys: Seq<bool>, from: int) -> Option<int>
    decreases keys.len() - from,
{
    if from < 0 || from >= keys.len() {
        None
    } else if keys[from] {
        Some(from)
    } else {
        lowest_pressed(keys, from + 1)
    }
}

/// The effect of one instruction on `m`, with `random` as the random byte
/// that `Random` draws. Memory addresses wrap modulo `MEMORY_SIZE` and a key
/// index counts by its low four bits. A fault leaves nothing applied.
pub open spec fn step(m: Machine, ins: Instruction, random: u8) -> Result<Machine, Fault> {
    match ins {
        Instruction::System { address } => Ok(m),
        Instruction::Clear => Ok(Machine { buffer: Seq::new(DISPLAY_SIZE as nat, |p: int| false), ..m }),
        Instruction::Return => if m.sp == 0 {
            Err(Fault::StackUnderflow)
        } else {
            Ok(Machine { sp: (m.sp - 1) as u8, pc: m.stack[m.sp - 1], ..m })
        },
        Instruction::Jump { address } => Ok(Machine { pc: address, ..m }),
        Instruction::Call { address } => if m.sp >= 16 {
            Err(Fault::StackOverflow)
        } else {
            Ok(Machine { stack: m.stack.update(m.sp as int, m.pc), sp: (m.sp + 1) as u8, pc: address, ..m })
        },
        Instruction::SkipEqual { x, byte } => Ok(m.skip_if(m.v[x as int] == byte)),
        Instruction::SkipNotEqual { x, byte } => Ok(m.skip_if(m.v[x as int] != byte)),
        Instruction::SkipEqualRegister { x, y } => Ok(m.skip_if(m.v[x as int] == m.v[y as int])),
        Instruction::Load { x, byte } => Ok(m.with_v(x as int, byte)),
        Instruction::Add { x, byte } => Ok(m.with_v(x as int, ((m.v[x as int] + byte) % 256) as u8)),
        Instruction::LoadRegister { x, y } => Ok(m.with_v(x as int, m.v[y as int])),
        Instruction::OrRegister { x, y } => Ok(m.with_v(x as int, m.v[x as int] | m.v[y as int])),
        Instruction::AndRegister { x, y } => Ok(m.with_v(x as int, m.v[x as int] & m.v[y as int])),
        Instruction::XorRegister { x, y } => Ok(m.with_v(x as int, m.v[x as int] ^ m.v[y as int])),
        Instruction::AddRegister { x, y } => {
            let sum = m.v[x as int] + m.v[y as int];
            Ok(m.with_v(x as int, (sum % 256) as u8).with_v(15, flag(sum > 255)))
        },
        Instruction::SubtractRegister { x, y } => {
            let (a, b) = (m.v[x as int], m.v[y as int]);
            Ok(m.with_v(x as int, ((a - b + 256) % 256) as u8).with_v(15, flag(a >= b)))
        },
        Instruction::ShiftRight { x } => {
            let a = m.v[x as int];
            Ok(m.with_v(x as int, a / 2).with_v(15, a % 2))
        },
        Instruction::SubtractReverseRegister { x, y } => {
            let (a, b) = (m.v[x as int], m.v[y as int]);
            Ok(m.with_v(x as int, ((b - a + 256) % 256) as u8).with_v(15, flag(b >= a)))
        },
        Instruction::ShiftLeft { x } => {
            let a = m.v[x as int];
            Ok(m.with_v(x as int, ((a * 2) % 256) as u8).with_v(15, a / 128))
        },
        Instruction::SkipNotEqualRegister { x, y } => Ok(m.skip_if(m.v[x as int] != m.v[y as int])),
        Instruction::LoadIndex { address } => Ok(Machine { i: address, ..m }),
        Instruction::JumpOffset { address } => Ok(Machine { pc: (address + m.v[0]) as u16, ..m }),
        Instruction::Random { x, byte } => Ok(m.with_v(x as int, random & byte)),
        Instruction::Draw { x, y, nibble } => Ok(draw_spec(m, x as int, y as int, nibble)),
        Instruction::SkipKeyPressed { x } => Ok(m.skip_if(m.keys[(m.v[x as int] % 16) as int])),
        Instruction::SkipKeyNotPressed { x } => Ok(m.skip_if(!m.keys[(m.v[x as int] % 16) as int])),
        Instruction::LoadDelay { x } => Ok(m.with_v(x as int, m.delay_timer)),
        Instruction::WaitKeyPress { x } => Ok(Machine { state: EmulatorState::WaitingKeyPress { x }, ..m }),
        Instruction::SetDelay { x } => Ok(Machine { delay_timer: m.v[x as int], ..m }),
        Instruction::SetSound { x } => Ok(Machine { sound_timer: m.v[x as int], ..m }),
        Instruction::AddIndex { x } => Ok(Machine { i: ((m.i + m.v[x as int]) % 0x10000) as u16, ..m }),
        Instruction::LoadSprite { x } => Ok(Machine { i: (m.v[x as int] * 5) as u16, ..m }),
        Instruction::LoadBCD { x } => {
            let val = m.v[x as int];
            Ok(Machine {
                memory: m.memory.update(addr(m.i as int), val / 100).update(addr(m.i + 1), (val / 10) % 10).update(
                    addr(m.i + 2),
                    val % 10,
                ),
                ..m
            })
        },
        Instruction::StoreRegisters { x } => Ok(Machine {
            memory: Seq::new(
                MEMORY_SIZE as nat,
                |a: int| if addr(a - m.i) <= x { m.v[addr(a - m.i)] } else { m.memory[a] },
            ),
            ..m
        }),
        Instruction::LoadRegisters { x } => Ok(Machine {
            v: Seq::new(16, |j: int| if j <= x { m.memory[addr(m.i + j)] } else { m.v[j] }),
            ..m
        }),
    }
}

/// The big-endian word at `pc`, each byte's address taken modulo the memory
/// size.
pub open spec fn fetch_spec(m: Machine) -> u16 {
    (m.memory[addr(m.pc as int)] * 256 + m.memory[addr(m.pc + 1)]) as u16
}

/// One CPU tick. While running: fetch the word at `pc`, decode it, move `pc`
/// past it and execute it. While waiting for a key: take the lowest pressed
/// key into the waiting register and run again, or, with no key pressed,
/// change nothing.
pub open spec fn cycle_spec(m: Machine, random: u8) -> Result<Machine, Fault> {
    match m.state {
        EmulatorState::WaitingKeyPress { x } => match lowest_pressed(m.keys, 0) {
            Some(k) => Ok(Machine { state: EmulatorState::Running, ..m.with_v(x as int, k as u8) }),
            None => Ok(m),
        },
        EmulatorState::Running => match decode_spec(fetch_spec(m)) {
            Ok(ins) => step(Machine { pc: ((m.pc + 2) % 0x10000) as u16, ..m }, ins, random),
            Err(e) => Err(e),
        },
    }
}

/// A timer after one tick: one less, but never below zero.
pub open spec fn timer_tick(t: u8) -> u8 {
    if t == 0 {
        0
    } else {
        (t - 1) as u8
    }
}

/// Memory after loading `program`: the font at address 0, the program at
/// `PROGRAM_START`, every other byte as it was.
pub open spec fn loaded_memory(memory: Seq<u8>, program: Seq<u8>) -> Seq<u8> {
    Seq::new(
        memory.len(),
        |a: int|
            if a < font().len() {
                font()[a]
            } else if PROGRAM_START <= a < PROGRAM_START + program.len() {
                program[a - PROGRAM_START]
            } else {
                memory[a]
            },
    )
}

/// `after` and the returned `r` are what `expected` calls for: on success the
/// new machine, on a fault that fault with the machine left as `before`.
pub open spec fn outcome(
    before: Machine,
    after: Machine,
    r: Result<(), Fault>,
    expected: Result<Machine, Fault>,
) -> bool {
    match expected {
        Ok(m) => r is Ok && after == m,
        Err(e) => r == Err::<(), Fault>(e) && after == before,
    }
}

} // verus!
