use vstd::prelude::*;

verus! {

/// One decoded CHIP-8 instruction.
///
/// `x` and `y` name registers (0..16), `byte` is an 8-bit immediate,
/// `address` a 12-bit address and `nibble` a 4-bit immediate.
#[derive(Clone, Copy, Debug, PartialEq, Eq, Structural)]
pub enum Instruction {
    System { address: u16 },
    Clear,
    Return,
    Jump { address: u16 },
    Call { address: u16 },
    SkipEqual { x: usize, byte: u8 },
    SkipNotEqual { x: usize, byte: u8 },
    SkipEqualRegister { x: usize, y: usize },
    Load { x: usize, byte: u8 },
    Add { x: usize, byte: u8 },
    LoadRegister { x: usize, y: usize },
    OrRegister { x: usize, y: usize },
    AndRegister { x: usize, y: usize },
    XorRegister { x: usize, y: usize },
    AddRegister { x: usize, y: usize },
    SubtractRegister { x: usize, y: usize },
    ShiftRight { x: usize },
    SubtractReverseRegister { x: usize, y: usize },
    ShiftLeft { x: usize },
    SkipNotEqualRegister { x: usize, y: usize },
    LoadIndex { address: u16 },
    JumpOffset { address: u16 },
    Random { x: usize, byte: u8 },
    Draw { x: usize, y: usize, nibble: u8 },
    SkipKeyPressed { x: usize },
    SkipKeyNotPressed { x: usize },
    LoadDelay { x: usize },
    WaitKeyPress { x: usize },
    SetDelay { x: usize },
    SetSound { x: usize },
    AddIndex { x: usize },
    LoadSprite { x: usize },
    LoadBCD { x: usize },
    StoreRegisters { x: usize },
    LoadRegisters { x: usize },
}

/// A condition that stops the machine for good.
#[derive(Clone, Copy, Debug, PartialEq, Eq, Structural)]
pub enum Fault {
    /// The opcode matches no instruction.
    UnknownOpcode { opcode: u16 },
    /// `Call` with all sixteen stack slots in use.
    StackOverflow,
    /// `Return` with an empty stack.
    StackUnderflow,
}

impl Instruction {
    /// Register operands are below 16, addresses below 4096, nibbles below 16:
    /// what every decoded instruction satisfies.
    pub open spec fn is_valid(self) -> bool {
        match self {
            Instruction::System { address } => address < 4096,
            Instruction::Clear => true,
            Instruction::Return => true,
            Instruction::Jump { address } => address < 4096,
            Instruction::Call { address } => address < 4096,
            Instruction::SkipEqual { x, byte } => x < 16,
            Instruction::SkipNotEqual { x, byte } => x < 16,
            Instruction::SkipEqualRegister { x, y } => x < 16 && y < 16,
            Instruction::Load { x, byte } => x < 16,
            Instruction::Add { x, byte } => x < 16,
            Instruction::LoadRegister { x, y } => x < 16 && y < 16,
            Instruction::OrRegister { x, y } => x < 16 && y < 16,
            Instruction::AndRegister { x, y } => x < 16 && y < 16,
            Instruction::XorRegister { x, y } => x < 16 && y < 16,
            Instruction::AddRegister { x, y } => x < 16 && y < 16,
            Instruction::SubtractRegister { x, y } => x < 16 && y < 16,
            Instruction::ShiftRight { x } => x < 16,
            Instruction::SubtractReverseRegister { x, y } => x < 16 && y < 16,
            Instruction::ShiftLeft { x } => x < 16,
            Instruction::SkipNotEqualRegister { x, y } => x < 16 && y < 16,
            Instruction::LoadIndex { address } => address < 4096,
            Instruction::JumpOffset { address } => address < 4096,
            Instruction::Random { x, byte } => x < 16,
            Instruction::Draw { x, y, nibble } => x < 16 && y < 16 && nibble < 16,
            Instruction::SkipKeyPressed { x } => x < 16,
            Instruction::SkipKeyNotPressed { x } => x < 16,
            Instruction::LoadDelay { x } => x < 16,
            Instruction::WaitKeyPress { x } => x < 16,
            Instruction::SetDelay { x } => x < 16,
            Instruction::SetSound { x } => x < 16,
            Instruction::AddIndex { x } => x < 16,
            Instruction::LoadSprite { x } => x < 16,
            Instruction::LoadBCD { x } => x < 16,
            Instruction::StoreRegisters { x } => x < 16,
            Instruction::LoadRegisters { x } => x < 16,
        }
    }
}

/// The low 12 bits of an opcode.
pub open spec fn op_address(op: u16) -> u16 {
    (op % 4096) as u16
}

/// The low 8 bits of an opcode.
pub open spec fn op_byte(op: u16) -> u8 {
    (op % 256) as u8
}

/// Bits 8..12 of an opcode.
pub open spec fn op_x(op: u16) -> usize {
    ((op / 256) % 16) as usize
}

/// Bits 4..8 of an opcode.
pub open spec fn op_y(op: u16) -> usize {
    ((op / 16) % 16) as usize
}

/// The low 4 bits of an opcode.
pub open spec fn op_nibble(op: u16) -> u8 {
    (op % 16) as u8
}

/// The instruction that a 16-bit opcode stands for, dispatched on its high
/// nibble and, in the 0x0, 0x8, 0xE and 0xF families, on its low byte or
/// nibble.
pub open spec fn decode_spec(op: u16) -> Result<Instruction, Fault> {
    let address = op_address(op);
    let byte = op_byte(op);
    let x = op_x(op);
    let y = op_y(op);
    let nibble = op_nibble(op);
    let unknown = Err(Fault::UnknownOpcode { opcode: op });
    let high = op / 4096;
    if high == 0x0 {
        if byte == 0xE0 {
            Ok(Instruction::Clear)
        } else if byte == 0xEE {
            Ok(Instruction::Return)
        } else {
            Ok(Instruction::System { address })
        }
    } else if high == 0x1 {
        Ok(Instruction::Jump { address })
    } else if high == 0x2 {
        Ok(Instruction::Call { address })
    } else if high == 0x3 {
        Ok(Instruction::SkipEqual { x, byte })
    } else if high == 0x4 {
        Ok(Instruction::SkipNotEqual { x, byte })
    } else if high == 0x5 {
        Ok(Instruction::SkipEqualRegister { x, y })
    } else if high == 0x6 {
        Ok(Instruction::Load { x, byte })
    } else if high == 0x7 {
        Ok(Instruction::Add { x, byte })
    } else if high == 0x8 {
        if nibble == 0x0 {
            Ok(Instruction::LoadRegister { x, y })
        } else if nibble == 0x1 {
            Ok(Instruction::OrRegister { x, y })
        } else if nibble == 0x2 {
            Ok(Instruction::AndRegister { x, y })
        } else if nibble == 0x3 {
            Ok(Instruction::XorRegister { x, y })
        } else if nibble == 0x4 {
            Ok(Instruction::AddRegister { x, y })
        } else if nibble == 0x5 {
            Ok(Instruction::SubtractRegister { x, y })
        } else if nibble == 0x6 {
            Ok(Instruction::ShiftRight { x })
        } else if nibble == 0x7 {
            Ok(Instruction::SubtractReverseRegister { x, y })
        } else if nibble == 0xE {
            Ok(Instruction::ShiftLeft { x })
        } else {
            unknown
        }
    } else if high == 0x9 {
        Ok(Instruction::SkipNotEqualRegister { x, y })
    } else if high == 0xA {
        Ok(Instruction::LoadIndex { address })
    } else if high == 0xB {
        Ok(Instruction::JumpOffset { address })
    } else if high == 0xC {
        Ok(Instruction::Random { x, byte })
    } else if high == 0xD {
        Ok(Instruction::Draw { x, y, nibble })
    } else if high == 0xE {
        if byte == 0x9E {
            Ok(Instruction::SkipKeyPressed { x })
        } else if byte == 0xA1 {
            Ok(Instruction::SkipKeyNotPressed { x })
        } else {
            unknown
        }
    } else if byte == 0x07 {
        Ok(Instruction::LoadDelay { x })
    } else if byte == 0x0A {
        Ok(Instruction::WaitKeyPress { x })
    } else if byte == 0x15 {
        Ok(Instruction::SetDelay { x })
    } else if byte == 0x18 {
        Ok(Instruction::SetSound { x })
    } else if byte == 0x1E {
        Ok(Instruction::AddIndex { x })
    } else if byte == 0x29 {
        Ok(Instruction::LoadSprite { x })
    } else if byte == 0x33 {
        Ok(Instruction::LoadBCD { x })
    } else if byte == 0x55 {
        Ok(Instruction::StoreRegisters { x })
    } else if byte == 0x65 {
        Ok(Instruction::LoadRegisters { x })
    } else {
        unknown
    }
}

} // verus!
