//! Decoded instructions: an opcode tag, an addressing-mode tag, and up to
//! two operand bytes, built fresh every fetch cycle from the three bytes at
//! the program counter.

use vstd::prelude::*;
use vstd::pervasive::unreached;
use crate::address_mode::AddressMode;
use crate::cpu::{Cpu, CpuModel};

verus! {

#[derive(Debug, Clone, Copy, PartialEq, Eq, Structural)]
pub enum Opcode {
    /// LoaD Accumulator
    LDA,
    /// LoaD X register
    LDX,
    /// LoaD Y register
    LDY,
    /// STore Accumulator
    STA,
    /// STore X register
    STX,
    /// STore Y register
    STY,
    /// BReaK
    BRK,
    /// No OPeration
    NOP,
}

#[derive(Debug, Clone, Copy, PartialEq, Eq)]
pub struct Instruction {
    pub opcode: Opcode,
    pub address_mode: AddressMode,
    pub operands: (Option<u8>, Option<u8>),
}

impl Instruction {
    /// The static decode table: what an opcode byte and the two bytes after
    /// it decode to, or `None` for a byte absent from the table.
    pub open spec fn spec_decode(op: u8, a: u8, b: u8) -> Option<Instruction> {
        if op == 0x00 {
            Some(Instruction {
                opcode: Opcode::BRK,
                address_mode: AddressMode::Implicit,
                operands: (None, None),
            })
        } else if op == 0xA9 {
            Some(Instruction {
                opcode: Opcode::LDA,
                address_mode: AddressMode::Immediate,
                operands: (Some(a), None),
            })
        } else {
            None
        }
    }

    /// Whether the instruction carries everything its addressing mode needs
    /// to produce an effective operand value: a mode that has a value at
    /// all, and the operand byte present when the mode consumes one.
    pub open spec fn resolvable(self) -> bool {
        self.address_mode != AddressMode::Implicit
            && (self.address_mode.spec_operand_count() == 1 ==> self.operands.0 is Some)
    }

    /// The effective operand value under the addressing-mode table, read
    /// against live register and memory state; `None` when the mode has no
    /// value or the operand byte is missing.
    pub open spec fn spec_operand_value(self, cpu: CpuModel) -> Option<u8> {
        match self.address_mode {
            AddressMode::Implicit => None,
            AddressMode::Accumulator => Some(cpu.acc),
            AddressMode::Immediate => self.operands.0,
            AddressMode::ZeroPage => match self.operands.0 {
                Some(z) => Some(cpu.mem[z as int]),
                None => None,
            },
            AddressMode::ZeroPageX => match self.operands.0 {
                Some(z) => Some(cpu.mem[z.wrapping_add(cpu.x) as int]),
                None => None,
            },
            AddressMode::ZeroPageY => match self.operands.0 {
                Some(z) => Some(cpu.mem[z.wrapping_add(cpu.y) as int]),
                None => None,
            },
            AddressMode::Relative => self.operands.0,
        }
    }

    pub fn new(opcode: Opcode, mode: AddressMode, operands: (Option<u8>, Option<u8>)) -> (r: Self)
        ensures
            r == (Instruction { opcode, address_mode: mode, operands }),
    {
        Self {
            opcode,
            address_mode: mode,
            operands,
        }
    }

    /// Looks the opcode byte up in the decode table and packages the operand
    /// bytes the table's mode consumes; `None` for an unimplemented opcode.
    pub fn decode(op: u8, a: u8, b: u8) -> (r: Option<Self>)
        ensures
            r == Self::spec_decode(op, a, b),
    {
        match op {
            0x00 => Some(Self::new(Opcode::BRK, AddressMode::Implicit, (None, None))),
            0xA9 => Some(Self::new(Opcode::LDA, AddressMode::Immediate, (Some(a), None))),
            _ => None,
        }
    }

    /// Whether the operand slots satisfy the addressing mode, as the
    /// dispatch step checks them before resolving.
    pub fn is_resolvable(&self) -> (b: bool)
        ensures
            b == self.resolvable(),
    {
        match self.address_mode {
            AddressMode::Implicit => false,
            AddressMode::Accumulator => true,
            _ => self.operands.0.is_some(),
        }
    }

    /// Applies the addressing-mode table using register and memory state
    /// current at execution time, not at decode time.
    pub fn resolve_operand_value(&self, cpu: &Cpu) -> (v: u8)
        requires
            self.resolvable(),
        ensures
            self.spec_operand_value(cpu@) == Some(v),
    {
        match self.address_mode {
            AddressMode::Implicit => unreached(),
            AddressMode::Accumulator => cpu.acc,
            AddressMode::Immediate => match self.operands.0 {
                Some(v) => v,
                None => unreached(),
            },
            AddressMode::ZeroPage => match self.operands.0 {
                Some(z) => cpu.memory.read_byte(z as u16),
                None => unreached(),
            },
            AddressMode::ZeroPageX => match self.operands.0 {
                Some(z) => cpu.memory.read_byte(z.wrapping_add(cpu.x) as u16),
                None => unreached(),
            },
            AddressMode::ZeroPageY => match self.operands.0 {
                Some(z) => cpu.memory.read_byte(z.wrapping_add(cpu.y) as u16),
                None => unreached(),
            },
            AddressMode::Relative => match self.operands.0 {
                Some(v) => v,
                None => unreached(),
            },
        }
    }
}

/// Decoding opcode byte 0xA9 always yields LDA with immediate addressing:
/// the first operand slot holds the byte after the opcode, the second is
/// absent, whatever the two following bytes are.
pub proof fn lemma_decode_lda_immediate(a: u8, b: u8)
    ensures
        Instruction::spec_decode(0xA9, a, b) == Some((Instruction {
            opcode: Opcode::LDA,
            address_mode: AddressMode::Immediate,
            operands: (Some(a), None),
        })),
{
}

} // verus!
