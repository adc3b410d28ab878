use vstd::prelude::*;

use crate::instruction::{decode_spec, Fault, Instruction};
use crate::machine::{
    addr, cycle_spec, draw_bits, lemma_addr_offset, draw_partial, draw_spec, fetch_spec, font, loaded_memory,
    lowest_pressed, outcome, pixel_index, sprite_bit, step, timer_tick, EmulatorState, Machine,
    DISPLAY_HEIGHT, DISPLAY_SIZE, DISPLAY_WIDTH, MAX_PROGRAM_SIZE, MEMORY_SIZE, PROGRAM_START,
};

verus! {

/// Why a program could not be loaded.
#[derive(Clone, Copy, Debug, PartialEq, Eq, Structural)]
pub enum LoadError {
    /// The program is longer than `MAX_PROGRAM_SIZE` bytes.
    ProgramTooLarge,
}

const FONT_SPRITES: [u8; 80] = [
    0xF0, 0x90, 0x90, 0x90, 0xF0, // 0
    0x20, 0x60, 0x20, 0x20, 0x70, // 1
    0xF0, 0x10, 0xF0, 0x80, 0xF0, // 2
    0xF0, 0x10, 0xF0, 0x10, 0xF0, // 3
    0x90, 0x90, 0xF0, 0x10, 0x10, // 4
    0xF0, 0x80, 0xF0, 0x10, 0xF0, // 5
    0xF0, 0x80, 0xF0, 0x90, 0xF0, // 6
    0xF0, 0x10, 0x20, 0x40, 0x40, // 7
    0xF0, 0x90, 0xF0, 0x90, 0xF0, // 8
    0xF0, 0x90, 0xF0, 0x10, 0xF0, // 9
    0xF0, 0x90, 0xF0, 0x90, 0x90, // A
    0xE0, 0x90, 0xE0, 0x90, 0xE0, // B
    0xF0, 0x80, 0x80, 0x80, 0xF0, // C
    0xE0, 0x90, 0x90, 0x90, 0xE0, // D
    0xF0, 0x80, 0xF0, 0x80, 0xF0, // E
    0xF0, 0x80, 0xF0, 0x80, 0x80, // F
];

/// A CHIP-8 machine: registers, stack, timers, memory, display and keypad.
pub struct Emulator {
    v: [u8; 16],
    i: u16,
    pc: u16,
    sp: u8,
    stack: [u16; 16],
    delay_timer: u8,
    sound_timer: u8,
    memory: [u8; MEMORY_SIZE],
    state: EmulatorState,
    buffer: [bool; DISPLAY_SIZE],
    keys: [bool; 16],
}

impl View for Emulator {
    type V = Machine;

    closed spec fn view(&self) -> Machine {
        Machine {
            v: self.v@,
            i: self.i,
            pc: self.pc,
            sp: self.sp,
            stack: self.stack@,
            delay_timer: self.delay_timer,
            sound_timer: self.sound_timer,
            memory: self.memory@,
            buffer: self.buffer@,
            keys: self.keys@,
            state: self.state,
        }
    }
}

/// Relies on rand::random::<u8>: a byte from the thread-local generator.
/// Nothing is promised of its value.
#[verifier::external_body]
fn random_byte() -> (r: u8) {
    rand::random::<u8>()
}

impl Emulator {
    /// A machine with every register, timer, memory byte, pixel and key
    /// cleared, `pc` at `PROGRAM_START`, running.
    pub fn new() -> (r: Self)
        ensures
            r@ == Machine::initial(),
            r@.wf(),
    {
        let r = Emulator {
            v: [0; 16],
            i: 0,
            pc: PROGRAM_START as u16,
            sp: 0,
            stack: [0; 16],
            delay_timer: 0,
            sound_timer: 0,
            memory: [0; MEMORY_SIZE],
            state: EmulatorState::Running,
            buffer: [false; DISPLAY_SIZE],
            keys: [false; 16],
        };
        assert(r@.v =~= Machine::initial().v);
        assert(r@.stack =~= Machine::initial().stack);
        assert(r@.memory =~= Machine::initial().memory);
        assert(r@.buffer =~= Machine::initial().buffer);
        assert(r@.keys =~= Machine::initial().keys);
        r
    }

    /// The instruction that `opcode` stands for, or `UnknownOpcode` with the
    /// opcode where it matches none.
    pub fn decode(&self, opcode: u16) -> (r: Result<Instruction, Fault>)
        ensures
            r == decode_spec(opcode),
            r is Ok ==> r->Ok_0.is_valid(),
    {
        let address: u16 = opcode % 4096;
        let byte: u8 = (opcode % 256) as u8;
        let x: usize = ((opcode / 256) % 16) as usize;
        let y: usize = ((opcode / 16) % 16) as usize;
        let nibble: u8 = (opcode % 16) as u8;
        let unknown = Err(Fault::UnknownOpcode { opcode });
        match opcode / 4096 {
            0x0 => match byte {
                0xE0 => Ok(Instruction::Clear),
                0xEE => Ok(Instruction::Return),
                _ => Ok(Instruction::System { address }),
            },
            0x1 => Ok(Instruction::Jump { address }),
            0x2 => Ok(Instruction::Call { address }),
            0x3 => Ok(Instruction::SkipEqual { x, byte }),
            0x4 => Ok(Instruction::SkipNotEqual { x, byte }),
            0x5 => Ok(Instruction::SkipEqualRegister { x, y }),
            0x6 => Ok(Instruction::Load { x, byte }),
            0x7 => Ok(Instruction::Add { x, byte }),
            0x8 => match nibble {
                0x0 => Ok(Instruction::LoadRegister { x, y }),
                0x1 => Ok(Instruction::OrRegister { x, y }),
                0x2 => Ok(Instruction::AndRegister { x, y }),
                0x3 => Ok(Instruction::XorRegister { x, y }),
                0x4 => Ok(Instruction::AddRegister { x, y }),
                0x5 => Ok(Instruction::SubtractRegister { x, y }),
                0x6 => Ok(Instruction::ShiftRight { x }),
                0x7 => Ok(Instruction::SubtractReverseRegister { x, y }),
                0xE => Ok(Instruction::ShiftLeft { x }),
                _ => unknown,
            },
            0x9 => Ok(Instruction::SkipNotEqualRegister { x, y }),
            0xA => Ok(Instruction::LoadIndex { address }),
            0xB => Ok(Instruction::JumpOffset { address }),
            0xC => Ok(Instruction::Random { x, byte }),
            0xD => Ok(Instruction::Draw { x, y, nibble }),
            0xE => match byte {
                0x9E => Ok(Instruction::SkipKeyPressed { x }),
                0xA1 => Ok(Instruction::SkipKeyNotPressed { x }),
                _ => unknown,
            },
            _ => match byte {
                0x07 => Ok(Instruction::LoadDelay { x }),
                0x0A => Ok(Instruction::WaitKeyPress { x }),
                0x15 => Ok(Instruction::SetDelay { x }),
                0x18 => Ok(Instruction::SetSound { x }),
                0x1E => Ok(Instruction::AddIndex { x }),
                0x29 => Ok(Instruction::LoadSprite { x }),
                0x33 => Ok(Instruction::LoadBCD { x }),
                0x55 => Ok(Instruction::StoreRegisters { x }),
                0x65 => Ok(Instruction::LoadRegisters { x }),
                _ => unknown,
            },
        }
    }

    /// Moves `pc` past the next instruction when `cond` holds.
    fn skip_if(&mut self, cond: bool)
        ensures
            final(self)@ == old(self)@.skip_if(cond),
    {
        if cond {
            self.pc = ((self.pc as u32 + 2) % 0x10000) as u16;
        }
    }

    /// XOR-draws the `nibble`-row sprite at memory `I` at `(Vx, Vy)`.
    fn draw(&mut self, x: usize, y: usize, nibble: u8)
        requires
            old(self)@.wf(),
            x < 16,
            y < 16,
            nibble < 16,
        ensures
            final(self)@ == draw_spec(old(self)@, x as int, y as int, nibble),
    {
        let ghost m0 = self@;
        let vx = self.v[x];
        let vy = self.v[y];
        assert(m0.v.update(15, m0.v[15]) =~= m0.v);
        let mut row: u8 = 0;
        while row < nibble
            invariant
                row <= nibble,
                nibble < 16,
                m0.wf(),
                vx == m0.v[x as int],
                vy == m0.v[y as int],
                self@ == draw_partial(m0, vx, vy, (row * 8) as nat),
            decreases nibble - row,
        {
            let byte = self.memory[(self.i as usize + row as usize) % MEMORY_SIZE];
            let py: usize = (vy as usize + row as usize) % DISPLAY_HEIGHT;
            let mut col: u8 = 0;
            while col < 8
                invariant
                    row < nibble,
                    nibble < 16,
                    col <= 8,
                    m0.wf(),
                    vx == m0.v[x as int],
                    vy == m0.v[y as int],
                    byte == m0.memory[addr(m0.i + row)],
                    py == (vy + row) % (DISPLAY_HEIGHT as int),
                    self@ == draw_partial(m0, vx, vy, (row * 8 + col) as nat),
                decreases 8 - col,
            {
                let ghost k: int = row * 8 + col;
                assert(k / 8 == row && k % 8 == col) by (nonlinear_arith)
                    requires
                        k == row * 8 + col,
                        col < 8,
                ;
                let bit = (byte >> (7 - col)) & 1;
                let px: usize = (vx as usize + col as usize) % DISPLAY_WIDTH;
                assert(sprite_bit(m0.memory, m0.i, k) == (bit == 1));
                assert(pixel_index(vx, vy, k) == py * 64 + px);
                if bit == 1 {
                    let index = py * DISPLAY_WIDTH + px;
                    self.v[15] = if self.buffer[index] { 1 } else { 0 };
                    self.buffer[index] = !self.buffer[index];
                }
                let ghost next = draw_bits(m0.buffer, m0.v[15], m0.memory, m0.i, vx, vy, (k + 1) as nat);
                assert(self@.v =~= m0.v.update(15, next.1));
                assert(self@.buffer =~= next.0);
                col += 1;
            }
            row += 1;
        }
    }

    /// Copies `V0..=Vx` to memory from `I` on, addresses wrapping.
    fn store_registers(&mut self, x: usize)
        requires
            old(self)@.wf(),
            x < 16,
        ensures
            final(self)@ == (Machine {
                memory: Seq::new(
                    MEMORY_SIZE as nat,
                    |a: int|
                        if addr(a - old(self)@.i) <= x {
                            old(self)@.v[addr(a - old(self)@.i)]
                        } else {
                            old(self)@.memory[a]
                        },
                ),
                ..old(self)@
            }),
    {
        let ghost m0 = self@;
        let base = self.i as usize;
        let mut k: usize = 0;
        assert(self@.memory =~= Seq::new(
            MEMORY_SIZE as nat,
            |a: int| if addr(a - base) < k { m0.v[addr(a - base)] } else { m0.memory[a] },
        ));
        while k <= x
            invariant
                k <= x + 1,
                x < 16,
                base == m0.i,
                m0.wf(),
                self@ == (Machine {
                    memory: Seq::new(
                        MEMORY_SIZE as nat,
                        |a: int| if addr(a - base) < k { m0.v[addr(a - base)] } else { m0.memory[a] },
                    ),
                    ..m0
                }),
            decreases x + 1 - k,
        {
            let target = (base + k) % MEMORY_SIZE;
            proof {
                lemma_addr_offset(base as int, k as int);
            }
            self.memory[target] = self.v[k];
            k += 1;
            assert(self@.memory =~= Seq::new(
                MEMORY_SIZE as nat,
                |a: int| if addr(a - base) < k { m0.v[addr(a - base)] } else { m0.memory[a] },
            ));
        }
        assert(self@.memory =~= Seq::new(
            MEMORY_SIZE as nat,
            |a: int| if addr(a - m0.i) <= x { m0.v[addr(a - m0.i)] } else { m0.memory[a] },
        ));
    }

    /// Fills `V0..=Vx` from memory at `I` on, addresses wrapping.
    fn load_registers(&mut self, x: usize)
        requires
            old(self)@.wf(),
            x < 16,
        ensures
            final(self)@ == (Machine {
                v: Seq::new(
                    16,
                    |j: int| if j <= x { old(self)@.memory[addr(old(self)@.i + j)] } else { old(self)@.v[j] },
                ),
                ..old(self)@
            }),
    {
        let ghost m0 = self@;
        let base = self.i as usize;
        let mut k: usize = 0;
        assert(self@.v =~= Seq::new(16, |j: int| if j < k { m0.memory[addr(base + j)] } else { m0.v[j] }));
        while k <= x
            invariant
                k <= x + 1,
                x < 16,
                base == m0.i,
                m0.wf(),
                self@ == (Machine {
                    v: Seq::new(16, |j: int| if j < k { m0.memory[addr(base + j)] } else { m0.v[j] }),
                    ..m0
                }),
            decreases x + 1 - k,
        {
            self.v[k] = self.memory[(base + k) % MEMORY_SIZE];
            k += 1;
            assert(self@.v =~= Seq::new(16, |j: int| if j < k { m0.memory[addr(base + j)] } else { m0.v[j] }));
        }
        assert(self@.v =~= Seq::new(16, |j: int| if j <= x { m0.memory[addr(m0.i + j)] } else { m0.v[j] }));
    }

    /// Applies `instruction`, taking `random` as the byte that `Random` draws.
    /// On a fault nothing is applied.
    pub fn execute_with(&mut self, instruction: Instruction, random: u8) -> (r: Result<(), Fault>)
        requires
            old(self)@.wf(),
            instruction.is_valid(),
        ensures
            final(self)@.wf(),
            outcome(old(self)@, final(self)@, r, step(old(self)@, instruction, random)),
    {
        match instruction {
            Instruction::System { address: _ } => {},
            Instruction::Clear => {
                self.buffer = [false; DISPLAY_SIZE];
                assert(self@.buffer =~= Seq::new(DISPLAY_SIZE as nat, |p: int| false));
            },
            Instruction::Return => {
                if self.sp == 0 {
                    return Err(Fault::StackUnderflow);
                }
                self.sp = self.sp - 1;
                self.pc = self.stack[self.sp as usize];
            },
            Instruction::Jump { address } => {
                self.pc = address;
            },
            Instruction::Call { address } => {
                if self.sp >= 16 {
                    return Err(Fault::StackOverflow);
                }
                self.stack[self.sp as usize] = self.pc;
                self.sp = self.sp + 1;
                self.pc = address;
            },
            Instruction::SkipEqual { x, byte } => {
                let cond = self.v[x] == byte;
                self.skip_if(cond);
            },
            Instruction::SkipNotEqual { x, byte } => {
                let cond = self.v[x] != byte;
                self.skip_if(cond);
            },
            Instruction::SkipEqualRegister { x, y } => {
                let cond = self.v[x] == self.v[y];
                self.skip_if(cond);
            },
            Instruction::Load { x, byte } => {
                self.v[x] = byte;
            },
            Instruction::Add { x, byte } => {
                self.v[x] = ((self.v[x] as u16 + byte as u16) % 256) as u8;
            },
            Instruction::LoadRegister { x, y } => {
                self.v[x] = self.v[y];
            },
            Instruction::OrRegister { x, y } => {
                self.v[x] = self.v[x] | self.v[y];
            },
            Instruction::AndRegister { x, y } => {
                self.v[x] = self.v[x] & self.v[y];
            },
            Instruction::XorRegister { x, y } => {
                self.v[x] = self.v[x] ^ self.v[y];
            },
            Instruction::AddRegister { x, y } => {
                let sum: u16 = self.v[x] as u16 + self.v[y] as u16;
                self.v[x] = (sum % 256) as u8;
                self.v[15] = if sum > 255 { 1 } else { 0 };
            },
            Instruction::SubtractRegister { x, y } => {
                let a = self.v[x];
                let b = self.v[y];
                self.v[x] = ((a as u16 + 256 - b as u16) % 256) as u8;
                self.v[15] = if a >= b { 1 } else { 0 };
            },
            Instruction::ShiftRight { x } => {
                let a = self.v[x];
                self.v[x] = a / 2;
                self.v[15] = a % 2;
            },
            Instruction::SubtractReverseRegister { x, y } => {
                let a = self.v[x];
                let b = self.v[y];
                self.v[x] = ((b as u16 + 256 - a as u16) % 256) as u8;
                self.v[15] = if b >= a { 1 } else { 0 };
            },
            Instruction::ShiftLeft { x } => {
                let a = self.v[x];
                self.v[x] = ((a as u16 * 2) % 256) as u8;
                self.v[15] = a / 128;
            },
            Instruction::SkipNotEqualRegister { x, y } => {
                let cond = self.v[x] != self.v[y];
                self.skip_if(cond);
            },
            Instruction::LoadIndex { address } => {
                self.i = address;
            },
            Instruction::JumpOffset { address } => {
                self.pc = address + self.v[0] as u16;
            },
            Instruction::Random { x, byte } => {
                self.v[x] = random & byte;
            },
            Instruction::Draw { x, y, nibble } => {
                self.draw(x, y, nibble);
            },
            Instruction::SkipKeyPressed { x } => {
                let cond = self.keys[(self.v[x] % 16) as usize];
                self.skip_if(cond);
            },
            Instruction::SkipKeyNotPressed { x } => {
                let cond = !self.keys[(self.v[x] % 16) as usize];
                self.skip_if(cond);
            },
            Instruction::LoadDelay { x } => {
                self.v[x] = self.delay_timer;
            },
            Instruction::WaitKeyPress { x } => {
                self.state = EmulatorState::WaitingKeyPress { x };
            },
            Instruction::SetDelay { x } => {
                self.delay_timer = self.v[x];
            },
            Instruction::SetSound { x } => {
                self.sound_timer = self.v[x];
            },
            Instruction::AddIndex { x } => {
                self.i = ((self.i as u32 + self.v[x] as u32) % 0x10000) as u16;
            },
            Instruction::LoadSprite { x } => {
                self.i = self.v[x] as u16 * 5;
            },
            Instruction::LoadBCD { x } => {
                let value = self.v[x];
                let base = self.i as usize;
                self.memory[base % MEMORY_SIZE] = value / 100;
                self.memory[(base + 1) % MEMORY_SIZE] = (value / 10) % 10;
                self.memory[(base + 2) % MEMORY_SIZE] = value % 10;
            },
            Instruction::StoreRegisters { x } => {
                self.store_registers(x);
            },
            Instruction::LoadRegisters { x } => {
                self.load_registers(x);
            },
        }
        Ok(())
    }

    /// Applies `instruction`; `Random` draws its byte from the thread-local
    /// generator. On a fault nothing is applied.
    pub fn execute(&mut self, instruction: Instruction) -> (r: Result<(), Fault>)
        requires
            old(self)@.wf(),
            instruction.is_valid(),
        ensures
            final(self)@.wf(),
            exists|random: u8|
                outcome(old(self)@, final(self)@, r, #[trigger] step(old(self)@, instruction, random)),
            !(instruction is Random) ==> outcome(
                old(self)@,
                final(self)@,
                r,
                step(old(self)@, instruction, 0),
            ),
    {
        let random = if matches!(instruction, Instruction::Random { .. }) {
            random_byte()
        } else {
            0
        };
        let ghost before = self@;
        let r = self.execute_with(instruction, random);
        assert(outcome(before, self@, r, step(before, instruction, random)));
        r
    }

    /// The big-endian word at `pc`, addresses wrapping.
    fn fetch(&self) -> (r: u16)
        requires
            self@.wf(),
        ensures
            r == fetch_spec(self@),
    {
        let high_byte = self.memory[self.pc as usize % MEMORY_SIZE] as u16;
        let low_byte = self.memory[(self.pc as usize + 1) % MEMORY_SIZE] as u16;
        high_byte * 256 + low_byte
    }

    /// The lowest index of a pressed key, if any key is pressed.
    fn lowest_pressed_key(&self) -> (r: Option<u8>)
        requires
            self@.wf(),
        ensures
            match lowest_pressed(self@.keys, 0) {
                Some(k) => r == Some(k as u8),
                None => r is None,
            },
    {
        let mut k: u8 = 0;
        while k < 16
            invariant
                k <= 16,
                self@.wf(),
                lowest_pressed(self@.keys, 0) == lowest_pressed(self@.keys, k as int),
            decreases 16 - k,
        {
            if self.keys[k as usize] {
                return Some(k);
            }
            k += 1;
        }
        None
    }

    /// Whether the next tick executes a `Random` instruction.
    fn next_is_random(&self) -> bool
        requires
            self@.wf(),
    {
        match self.state {
            EmulatorState::Running => {
                let opcode = self.fetch();
                matches!(self.decode(opcode), Ok(Instruction::Random { .. }))
            },
            EmulatorState::WaitingKeyPress { .. } => false,
        }
    }

    /// One CPU tick, taking `random` as the byte that a `Random` instruction
    /// draws. On a fault nothing is applied.
    pub fn cycle_with(&mut self, random: u8) -> (r: Result<(), Fault>)
        requires
            old(self)@.wf(),
        ensures
            final(self)@.wf(),
            outcome(old(self)@, final(self)@, r, cycle_spec(old(self)@, random)),
    {
        match self.state {
            EmulatorState::WaitingKeyPress { x } => {
                if let Some(key) = self.lowest_pressed_key() {
                    self.v[x] = key;
                    self.state = EmulatorState::Running;
                }
                Ok(())
            },
            EmulatorState::Running => {
                let opcode = self.fetch();
                let instruction = match self.decode(opcode) {
                    Ok(instruction) => instruction,
                    Err(e) => return Err(e),
                };
                let pc = self.pc;
                self.pc = ((pc as u32 + 2) % 0x10000) as u16;
                let r = self.execute_with(instruction, random);
                if r.is_err() {
                    self.pc = pc;
                }
                r
            },
        }
    }

    /// One CPU tick; a `Random` instruction draws its byte from the
    /// thread-local generator. On a fault nothing is applied.
    pub fn cycle(&mut self) -> (r: Result<(), Fault>)
        requires
            old(self)@.wf(),
        ensures
            final(self)@.wf(),
            exists|random: u8|
                outcome(old(self)@, final(self)@, r, #[trigger] cycle_spec(old(self)@, random)),
    {
        let random = if self.next_is_random() {
            random_byte()
        } else {
            0
        };
        let ghost before = self@;
        let r = self.cycle_with(random);
        assert(outcome(before, self@, r, cycle_spec(before, random)));
        r
    }

    /// Decrements both timers by one, stopping at zero.
    pub fn timers_cycle(&mut self)
        requires
            old(self)@.wf(),
        ensures
            final(self)@ == (Machine {
                delay_timer: timer_tick(old(self)@.delay_timer),
                sound_timer: timer_tick(old(self)@.sound_timer),
                ..old(self)@
            }),
            old(self)@.delay_timer == 0 ==> final(self)@.delay_timer == 0,
            old(self)@.sound_timer == 0 ==> final(self)@.sound_timer == 0,
            final(self)@.wf(),
    {
        self.delay_timer = self.delay_timer.saturating_sub(1);
        self.sound_timer = self.sound_timer.saturating_sub(1);
    }

    /// Puts the font at address 0 and `program` at `PROGRAM_START`; fails,
    /// changing nothing, when the program does not fit in memory.
    pub fn load(&mut self, program: &[u8]) -> (r: Result<(), LoadError>)
        requires
            old(self)@.wf(),
        ensures
            final(self)@.wf(),
            r is Ok <==> program@.len() <= MAX_PROGRAM_SIZE,
            r is Ok ==> final(self)@ == (Machine {
                memory: loaded_memory(old(self)@.memory, program@),
                ..old(self)@
            }),
            r is Err ==> r == Err::<(), LoadError>(LoadError::ProgramTooLarge) && final(self)@
                == old(self)@,
    {
        if program.len() > MAX_PROGRAM_SIZE {
            return Err(LoadError::ProgramTooLarge);
        }
        let ghost m0 = self@;
        assert(FONT_SPRITES@ =~= font());
        let mut a: usize = 0;
        assert(self@.memory =~= Seq::new(
            MEMORY_SIZE as nat,
            |b: int| if b < a { font()[b] } else { m0.memory[b] },
        ));
        while a < 80
            invariant
                a <= 80,
                m0.wf(),
                FONT_SPRITES@ == font(),
                self@ == (Machine {
                    memory: Seq::new(
                        MEMORY_SIZE as nat,
                        |b: int| if b < a { font()[b] } else { m0.memory[b] },
                    ),
                    ..m0
                }),
            decreases 80 - a,
        {
            self.memory[a] = FONT_SPRITES[a];
            a += 1;
            assert(self@.memory =~= Seq::new(
                MEMORY_SIZE as nat,
                |b: int| if b < a { font()[b] } else { m0.memory[b] },
            ));
        }
        let mut k: usize = 0;
        assert(self@.memory =~= Seq::new(
            MEMORY_SIZE as nat,
            |b: int|
                if b < 80 {
                    font()[b]
                } else if PROGRAM_START <= b < PROGRAM_START + k {
                    program@[b - PROGRAM_START]
                } else {
                    m0.memory[b]
                },
        ));
        while k < program.len()
            invariant
                k <= program.len(),
                program.len() <= MAX_PROGRAM_SIZE,
                m0.wf(),
                self@ == (Machine {
                    memory: Seq::new(
                        MEMORY_SIZE as nat,
                        |b: int|
                            if b < 80 {
                                font()[b]
                            } else if PROGRAM_START <= b < PROGRAM_START + k {
                                program@[b - PROGRAM_START]
                            } else {
                                m0.memory[b]
                            },
                    ),
                    ..m0
                }),
            decreases program.len() - k,
        {
            self.memory[PROGRAM_START + k] = program[k];
            k += 1;
            assert(self@.memory =~= Seq::new(
                MEMORY_SIZE as nat,
                |b: int|
                    if b < 80 {
                        font()[b]
                    } else if PROGRAM_START <= b < PROGRAM_START + k {
                        program@[b - PROGRAM_START]
                    } else {
                        m0.memory[b]
                    },
            ));
        }
        assert(self@.memory =~= loaded_memory(m0.memory, program@));
        Ok(())
    }

    /// Marks `key` as pressed.
    pub fn key_down(&mut self, key: u8)
        requires
            old(self)@.wf(),
            key < 16,
        ensures
            final(self)@ == (Machine { keys: old(self)@.keys.update(key as int, true), ..old(self)@ }),
            final(self)@.wf(),
    {
        self.keys[key as usize] = true;
    }

    /// Marks `key` as released.
    pub fn key_up(&mut self, key: u8)
        requires
            old(self)@.wf(),
            key < 16,
        ensures
            final(self)@ == (Machine { keys: old(self)@.keys.update(key as int, false), ..old(self)@ }),
            final(self)@.wf(),
    {
        self.keys[key as usize] = false;
    }

    /// The display, row-major, `DISPLAY_WIDTH` pixels to a row.
    pub fn get_buffer(&self) -> (r: &[bool])
        ensures
            r@ == self@.buffer,
    {
        self.buffer.as_slice()
    }

    /// Register `Vx`.
    pub fn register(&self, x: usize) -> (r: u8)
        requires
            x < 16,
        ensures
            r == self@.v[x as int],
    {
        self.v[x]
    }

    /// The index register `I`.
    pub fn index(&self) -> (r: u16)
        ensures
            r == self@.i,
    {
        self.i
    }

    /// The program counter.
    pub fn pc(&self) -> (r: u16)
        ensures
            r == self@.pc,
    {
        self.pc
    }

    /// The number of return addresses on the stack.
    pub fn sp(&self) -> (r: u8)
        ensures
            r == self@.sp,
    {
        self.sp
    }

    /// The delay timer.
    pub fn delay_timer(&self) -> (r: u8)
        ensures
            r == self@.delay_timer,
    {
        self.delay_timer
    }

    /// The sound timer.
    pub fn sound_timer(&self) -> (r: u8)
        ensures
            r == self@.sound_timer,
    {
        self.sound_timer
    }

    /// The byte at `address`.
    pub fn memory_at(&self, address: usize) -> (r: u8)
        requires
            address < MEMORY_SIZE,
        ensures
            r == self@.memory[address as int],
    {
        self.memory[address]
    }

    /// Whether the CPU runs or waits for a key.
    pub fn state(&self) -> (r: EmulatorState)
        ensures
            r == self@.state,
    {
        self.state
    }
}

} // verus!
