//! The memory bus: a fixed 65536-byte addressable space covering the full
//! 16-bit address range, with logically reserved sub-regions (stack page,
//! program RAM, interrupt-vector slot).

use vstd::prelude::*;

verus! {

/// Number of one-byte cells on the bus; addresses run 0x0000-0xFFFF.
pub const MEMORY_SIZE: usize = 0x10000;

/// First cell of the stack page (0x0100-0x01FF).
pub const MEMORY_STACK_START: u16 = 0x0100;

/// First cell of program RAM.
pub const MEMORY_ADDRESS_RAM_START: u16 = 0x0200;

/// Last cell of program RAM, one below the interrupt-vector slot
/// (the slot itself occupies 0xFFFE-0xFFFF).
pub const MEMORY_ADDRESS_RAM_END: u16 = 0xFFFD;

/// Number of cells in the program RAM region.
pub const MEMORY_RAM_SIZE: u16 = MEMORY_ADDRESS_RAM_END - MEMORY_ADDRESS_RAM_START + 1;

/// A fixed-size array of byte cells, allocated zero-filled and mutated only
/// through `read_byte` and `write_byte`. Its view is the sequence of cell
/// values, always exactly `MEMORY_SIZE` long.
#[derive(Debug)]
pub struct Memory(Vec<u8>);

impl View for Memory {
    type V = Seq<u8>;

    closed spec fn view(&self) -> Seq<u8> {
        self.0@
    }
}

impl Memory {
    #[verifier::type_invariant]
    spec fn size_fixed(self) -> bool {
        self.0@.len() == MEMORY_SIZE
    }

    /// A zero-filled memory space.
    pub fn new() -> (m: Self)
        ensures
            m@.len() == MEMORY_SIZE,
            forall|a: int| 0 <= a < MEMORY_SIZE ==> m@[a] == 0u8,
    {
        let mut cells: Vec<u8> = Vec::new();
        let mut i: usize = 0;
        while i < MEMORY_SIZE
            invariant
                i <= MEMORY_SIZE,
                cells@.len() == i,
                forall|a: int| 0 <= a < i ==> cells@[a] == 0u8,
            decreases MEMORY_SIZE - i,
        {
            cells.push(0);
            i = i + 1;
        }
        Memory(cells)
    }

    /// The cell at `address`; no side effects. Every address is valid: the
    /// space covers the full 16-bit range.
    pub fn read_byte(&self, address: u16) -> (b: u8)
        ensures
            self@.len() == MEMORY_SIZE,
            b == self@[address as int],
    {
        proof {
            use_type_invariant(self);
        }
        self.0[address as usize]
    }

    /// Overwrites the cell at `address`, leaving every other cell unchanged.
    pub fn write_byte(&mut self, address: u16, value: u8)
        ensures
            old(self)@.len() == MEMORY_SIZE,
            final(self)@ == old(self)@.update(address as int, value),
    {
        proof {
            use_type_invariant(&*self);
        }
        self.0[address as usize] = value;
    }
}

} // verus!
