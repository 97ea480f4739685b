//! The closed enumeration of operand-fetch strategies. Each mode fixes how
//! many operand bytes follow an opcode and how the effective operand value
//! is computed at execution time.

use vstd::prelude::*;

verus! {

#[derive(Debug, Clone, Copy, PartialEq, Eq, Structural)]
pub enum AddressMode {
    /// No operand; control instructions only.
    Implicit,
    /// The current accumulator value.
    Accumulator,
    /// The literal operand byte.
    Immediate,
    /// Memory at the operand byte taken as a page-zero address.
    ZeroPage,
    /// Memory at (operand byte + X), wrapped to 8 bits before address formation.
    ZeroPageX,
    /// Memory at (operand byte + Y), wrapped to 8 bits before address formation.
    ZeroPageY,
    /// The operand byte taken as a signed branch offset, not a value to load.
    Relative,
}

impl AddressMode {
    /// How many operand bytes follow the opcode byte in this mode.
    pub open spec fn spec_operand_count(self) -> nat {
        match self {
            AddressMode::Implicit => 0,
            AddressMode::Accumulator => 0,
            _ => 1,
        }
    }

    /// The number of operand bytes the mode requires; an instruction's total
    /// encoded length is one more than this.
    pub fn operand_count(self) -> (n: u16)
        ensures
            n as nat == self.spec_operand_count(),
    {
        match self {
            AddressMode::Implicit => 0,
            AddressMode::Accumulator => 0,
            _ => 1,
        }
    }
}

} // verus!
