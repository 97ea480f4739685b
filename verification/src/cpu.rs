//! The CPU execution core: scalar registers, the status flag register, and
//! the fetch-decode-execute loop over the owned memory bus.

use vstd::prelude::*;
use crate::instructions::{Instruction, Opcode};
use crate::memory::{Memory, MEMORY_ADDRESS_RAM_START, MEMORY_RAM_SIZE, MEMORY_SIZE, MEMORY_STACK_START};

verus! {

/// A failure of the execution core. `ProgramTooLarge` is not here: loading
/// reports it as a plain message at the call boundary, before any run
/// starts.
#[derive(Debug, Clone, Copy, PartialEq, Eq, Structural)]
pub enum CpuError {
    /// The opcode byte read at `pc` is absent from the decode table; fatal
    /// to the current run, reported without applying any execute step.
    UnimplementedOpcode { opcode: u8, pc: u16 },
    /// Decode produced an opcode/mode pairing that the dispatch step has no
    /// handler for: an internal-consistency fault, never data-driven.
    UnhandledInstruction,
}

/// The fixed interrupt-vector address: the slot whose contents execution
/// jumps to on a software interrupt, and the run loop's halt sentinel.
pub const IRQ_ADDRESS: u16 = 0xFFFE;

/// Seven independent hardware condition flags. Serialization packs them
/// into fixed bit positions of one byte (bit 0 carry, bit 1 zero, bit 2
/// interrupt-disable, bit 3 decimal-mode, bit 4 break-command, bit 5
/// unused and always one, bit 6 overflow, bit 7 negative).
#[derive(Debug, Clone, Copy, PartialEq, Eq, Structural)]
pub struct CpuStatusRegister {
    pub carry: bool,
    pub zero: bool,
    pub interrupt_disable: bool,
    pub decimal_mode: bool,
    pub break_command: bool,
    pub overflow: bool,
    pub negative: bool,
}

impl CpuStatusRegister {
    /// The flag record a byte unpacks to: bits 0, 1, 2, 3, 4, 6 and 7 become
    /// the seven named flags; bit 5 is discarded.
    pub open spec fn unpacked(byte: u8) -> CpuStatusRegister {
        CpuStatusRegister {
            carry: (byte & 0x01) != 0,
            zero: (byte & 0x02) != 0,
            interrupt_disable: (byte & 0x04) != 0,
            decimal_mode: (byte & 0x08) != 0,
            break_command: (byte & 0x10) != 0,
            overflow: (byte & 0x40) != 0,
            negative: (byte & 0x80) != 0,
        }
    }

    /// The byte form of the flags: each flag at its fixed bit position, with
    /// bit 5 forced to one.
    pub open spec fn packed(self) -> u8 {
        (if self.carry { 0x01u8 } else { 0u8 })
        | (if self.zero { 0x02u8 } else { 0u8 })
        | (if self.interrupt_disable { 0x04u8 } else { 0u8 })
        | (if self.decimal_mode { 0x08u8 } else { 0u8 })
        | (if self.break_command { 0x10u8 } else { 0u8 })
        | 0x20u8
        | (if self.overflow { 0x40u8 } else { 0u8 })
        | (if self.negative { 0x80u8 } else { 0u8 })
    }

    /// The power-on flag state: interrupt-disable set, every other flag clear.
    pub fn new() -> (r: Self)
        ensures
            r == (CpuStatusRegister {
                carry: false,
                zero: false,
                interrupt_disable: true,
                decimal_mode: false,
                break_command: false,
                overflow: false,
                negative: false,
            }),
    {
        Self {
            carry: false,
            zero: false,
            interrupt_disable: true,
            decimal_mode: false,
            break_command: false,
            overflow: false,
            negative: false,
        }
    }

    /// Unpacks a byte into the seven flags, discarding bit 5.
    pub fn from_byte(byte: u8) -> (r: Self)
        ensures
            r == Self::unpacked(byte),
    {
        Self {
            carry: (byte & 0x01) != 0,
            zero: (byte & 0x02) != 0,
            interrupt_disable: (byte & 0x04) != 0,
            decimal_mode: (byte & 0x08) != 0,
            break_command: (byte & 0x10) != 0,
            overflow: (byte & 0x40) != 0,
            negative: (byte & 0x80) != 0,
        }
    }

    /// Packs the seven flags back into their bit positions; bit 5 of the
    /// result is always one, whatever the flags hold.
    pub fn as_byte(&self) -> (byte: u8)
        ensures
            byte == self.packed(),
    {
        (if self.carry { 0x01u8 } else { 0u8 })
        | (if self.zero { 0x02u8 } else { 0u8 })
        | (if self.interrupt_disable { 0x04u8 } else { 0u8 })
        | (if self.decimal_mode { 0x08u8 } else { 0u8 })
        | (if self.break_command { 0x10u8 } else { 0u8 })
        | 0x20u8
        | (if self.overflow { 0x40u8 } else { 0u8 })
        | (if self.negative { 0x80u8 } else { 0u8 })
    }
}

/// Packing after unpacking returns the original byte with bit 5 forced to
/// one and every other bit unchanged.
pub proof fn lemma_status_byte_round_trip(b: u8)
    ensures
        CpuStatusRegister::unpacked(b).packed() == (b | 0x20),
{
    assert(((if (b & 0x01) != 0 { 0x01u8 } else { 0u8 })
        | (if (b & 0x02) != 0 { 0x02u8 } else { 0u8 })
        | (if (b & 0x04) != 0 { 0x04u8 } else { 0u8 })
        | (if (b & 0x08) != 0 { 0x08u8 } else { 0u8 })
        | (if (b & 0x10) != 0 { 0x10u8 } else { 0u8 })
        | 0x20u8
        | (if (b & 0x40) != 0 { 0x40u8 } else { 0u8 })
        | (if (b & 0x80) != 0 { 0x80u8 } else { 0u8 })) == (b | 0x20)) by (bit_vector);
}

/// The mathematical value of a whole CPU: every register, every flag, and
/// the full contents of the memory bus.
#[verifier::ext_equal]
pub ghost struct CpuModel {
    pub mem: Seq<u8>,
    pub pc: u16,
    pub sp: u8,
    pub acc: u8,
    pub x: u8,
    pub y: u8,
    pub status: CpuStatusRegister,
}

/// The processor: program counter, stack pointer, accumulator, two index
/// registers, one owned status register and one owned memory bus.
#[derive(Debug)]
pub struct Cpu {
    pub memory: Memory,
    /// The program counter
    pub pc: u16,
    /// The stack pointer
    pub sp: u8,
    /// The accumulator
    pub acc: u8,
    /// The X register
    pub x: u8,
    /// The Y register
    pub y: u8,
    /// The status register
    pub status: CpuStatusRegister,
}

impl View for Cpu {
    type V = CpuModel;

    open spec fn view(&self) -> CpuModel {
        CpuModel {
            mem: self.memory@,
            pc: self.pc,
            sp: self.sp,
            acc: self.acc,
            x: self.x,
            y: self.y,
            status: self.status,
        }
    }
}

impl Cpu {
    /// A freshly powered-on CPU: zero-filled memory, program counter at the
    /// start of program RAM, stack pointer at the top of the stack page,
    /// cleared registers, interrupt-disable set.
    pub fn new() -> (cpu: Self)
        ensures
            cpu.pc == MEMORY_ADDRESS_RAM_START,
            cpu.sp == 0xFF,
            cpu.acc == 0,
            cpu.x == 0,
            cpu.y == 0,
            cpu.status == (CpuStatusRegister {
                carry: false,
                zero: false,
                interrupt_disable: true,
                decimal_mode: false,
                break_command: false,
                overflow: false,
                negative: false,
            }),
            cpu@.mem.len() == MEMORY_SIZE,
            forall|a: int| 0 <= a < MEMORY_SIZE ==> cpu@.mem[a] == 0u8,
    {
        Self {
            memory: Memory::new(),
            pc: MEMORY_ADDRESS_RAM_START,
            sp: 0xFF,
            acc: 0,
            x: 0,
            y: 0,
            status: CpuStatusRegister::new(),
        }
    }

    /// What one stack push does to the model: the pushed byte lands at the
    /// stack pointer's cell of the stack page, and the pointer steps down
    /// with 8-bit wraparound.
    pub open spec fn spec_push(c: CpuModel, value: u8) -> CpuModel {
        CpuModel {
            mem: c.mem.update(MEMORY_STACK_START as int + c.sp as int, value),
            sp: c.sp.wrapping_sub(1),
            ..c
        }
    }

    /// What executing BRK does to the model: the program counter advances
    /// past the opcode and its reserved operand byte, break-command and
    /// interrupt-disable are set, the counter's high byte, low byte and the
    /// serialized status byte are pushed in that order, and execution
    /// vectors to the interrupt address.
    pub open spec fn spec_brk(c: CpuModel) -> CpuModel {
        let pc2 = (c.pc + 2) as u16;
        let st = CpuStatusRegister { break_command: true, interrupt_disable: true, ..c.status };
        let after_hi = Self::spec_push(c, ((pc2 >> 8) & 0xFF) as u8);
        let after_lo = Self::spec_push(after_hi, (pc2 & 0xFF) as u8);
        let after_st = Self::spec_push(CpuModel { status: st, ..after_lo }, st.packed());
        CpuModel { pc: IRQ_ADDRESS, ..after_st }
    }

    /// What executing LDA does to the model: the resolved operand value
    /// lands in the accumulator, the zero flag records whether it is zero,
    /// the negative flag records its sign bit, and the program counter
    /// advances by the instruction's encoded length.
    pub open spec fn spec_lda(c: CpuModel, instruction: Instruction) -> CpuModel {
        let value = instruction.spec_operand_value(c).unwrap();
        CpuModel {
            acc: value,
            pc: (c.pc + 1 + instruction.address_mode.spec_operand_count()) as u16,
            status: CpuStatusRegister {
                zero: value == 0,
                negative: (value & 0x80) != 0,
                ..c.status
            },
            ..c
        }
    }

    /// The dispatch table over decoded instructions: BRK and LDA have
    /// handlers; anything else decode could hand over is an
    /// internal-consistency fault.
    pub open spec fn spec_execute(c: CpuModel, instruction: Instruction) -> Result<CpuModel, CpuError> {
        match instruction.opcode {
            Opcode::BRK => Ok(Self::spec_brk(c)),
            Opcode::LDA => if instruction.resolvable() {
                Ok(Self::spec_lda(c, instruction))
            } else {
                Err(CpuError::UnhandledInstruction)
            },
            _ => Err(CpuError::UnhandledInstruction),
        }
    }

    /// One full machine cycle over the model: decode the three bytes at the
    /// program counter, then execute the decoded instruction.
    pub open spec fn spec_step(c: CpuModel) -> Result<CpuModel, CpuError> {
        let op = c.mem[c.pc as int];
        let a = c.mem[c.pc as int + 1];
        let b = c.mem[c.pc as int + 2];
        match Instruction::spec_decode(op, a, b) {
            Some(instruction) => Self::spec_execute(c, instruction),
            None => Err(CpuError::UnimplementedOpcode { opcode: op, pc: c.pc }),
        }
    }

    /// `n` machine cycles in sequence, stopping at the first failure.
    pub open spec fn spec_steps(c: CpuModel, n: nat) -> Result<CpuModel, CpuError>
        decreases n,
    {
        if n == 0 {
            Ok(c)
        } else {
            match Self::spec_step(c) {
                Ok(c2) => Self::spec_steps(c2, (n - 1) as nat),
                Err(e) => Err(e),
            }
        }
    }

    /// Writes byte `i` of the program to `MEMORY_ADDRESS_RAM_START + i` for
    /// every index. A program longer than the program-RAM region is
    /// rejected whole, leaving the CPU untouched; cells outside the written
    /// range are never cleared.
    pub fn load_program(&mut self, program: Vec<u8>) -> (r: Result<(), &'static str>)
        ensures
            r is Ok <==> program@.len() <= MEMORY_RAM_SIZE,
            r matches Err(m) ==> m@ == "Program is too large to fit in memory"@ && final(self)@ == old(self)@,
            r is Ok ==> {
                &&& final(self)@.mem.len() == old(self)@.mem.len()
                &&& forall|i: int| 0 <= i < program@.len()
                    ==> final(self)@.mem[MEMORY_ADDRESS_RAM_START + i] == program@[i]
                &&& forall|a: int| 0 <= a < old(self)@.mem.len()
                    && !(MEMORY_ADDRESS_RAM_START <= a < MEMORY_ADDRESS_RAM_START + program@.len())
                    ==> final(self)@.mem[a] == old(self)@.mem[a]
                &&& final(self)@ == (CpuModel { mem: final(self)@.mem, ..old(self)@ })
            },
    {
        if program.len() > MEMORY_RAM_SIZE as usize {
            return Err("Program is too large to fit in memory");
        }

        let mut i: usize = 0;
        while i < program.len()
            invariant
                i <= program@.len(),
                program@.len() <= MEMORY_RAM_SIZE,
                self@.mem.len() == old(self)@.mem.len(),
                forall|j: int| 0 <= j < i
                    ==> self@.mem[MEMORY_ADDRESS_RAM_START + j] == program@[j],
                forall|a: int| 0 <= a < old(self)@.mem.len()
                    && !(MEMORY_ADDRESS_RAM_START <= a < MEMORY_ADDRESS_RAM_START + i)
                    ==> self@.mem[a] == old(self)@.mem[a],
                self@ == (CpuModel { mem: self@.mem, ..old(self)@ }),
            decreases program@.len() - i,
        {
            let address: u16 = MEMORY_ADDRESS_RAM_START + (i as u16);
            self.memory.write_byte(address, program[i]);
            i = i + 1;
        }

        Ok(())
    }

    /// The run loop: fetch-decode then execute, repeatedly, until the
    /// program counter equals the interrupt-vector address — the halt
    /// sentinel a vectoring instruction leaves behind. The final state is
    /// exactly what iterating the machine cycle from the starting state
    /// gives; a decode failure stops the run cleanly on the state that
    /// produced it, with no partial execute step applied.
    ///
    /// Every modeled instruction either vectors or advances the counter by
    /// exactly two, so the loop can only ever land on the sentinel from an
    /// even counter below it; from any other state the hardware would run
    /// (or wrap) forever.
    #[verifier::loop_isolation(false)]
    pub fn tick(&mut self) -> (r: Result<(), CpuError>)
        requires
            old(self).pc < IRQ_ADDRESS,
            old(self).pc % 2 == 0,
        ensures
            match r {
                Ok(()) => exists|n: nat|
                    1 <= n
                    && Self::spec_steps(old(self)@, n) == Ok::<CpuModel, CpuError>(final(self)@)
                    && final(self)@.pc == IRQ_ADDRESS,
                Err(e) => exists|n: nat|
                    Self::spec_steps(old(self)@, n) == Ok::<CpuModel, CpuError>(final(self)@)
                    && Self::spec_step(final(self)@) == Err::<CpuModel, CpuError>(e),
            },
    {
        let ghost mut n: nat = 0;
        loop
            invariant
                Self::spec_steps(old(self)@, n) == Ok::<CpuModel, CpuError>(self@),
                self.pc < IRQ_ADDRESS,
                self.pc % 2 == 0,
            decreases IRQ_ADDRESS - self.pc,
        {
            match self.fetch_and_decode() {
                Err(e) => {
                    return Err(e);
                }
                Ok(instruction) => {
                    match self.execute(instruction) {
                        Err(e) => {
                            return Err(e);
                        }
                        Ok(()) => {
                            proof {
                                lemma_steps_add_one(old(self)@, n);
                                n = n + 1;
                            }
                            if self.pc == IRQ_ADDRESS {
                                return Ok(());
                            }
                        }
                    }
                }
            }
        }
    }

    /// Reads the three bytes starting at the program counter and decodes
    /// them; an opcode byte absent from the decode table is reported with
    /// the byte and the counter it was met at.
    pub fn fetch_and_decode(&self) -> (r: Result<Instruction, CpuError>)
        requires
            self.pc + 2 <= u16::MAX,
        ensures
            match r {
                Ok(instruction) => Instruction::spec_decode(
                    self@.mem[self.pc as int],
                    self@.mem[self.pc as int + 1],
                    self@.mem[self.pc as int + 2],
                ) == Some(instruction),
                Err(e) => {
                    &&& Instruction::spec_decode(
                        self@.mem[self.pc as int],
                        self@.mem[self.pc as int + 1],
                        self@.mem[self.pc as int + 2],
                    ) is None
                    &&& e == (CpuError::UnimplementedOpcode {
                        opcode: self@.mem[self.pc as int],
                        pc: self.pc,
                    })
                },
            },
    {
        let opcode: u8 = self.memory.read_byte(self.pc);
        let a: u8 = self.memory.read_byte(self.pc + 1);
        let b: u8 = self.memory.read_byte(self.pc + 2);
        match Instruction::decode(opcode, a, b) {
            Some(instruction) => Ok(instruction),
            None => Err(CpuError::UnimplementedOpcode { opcode, pc: self.pc }),
        }
    }

    /// Dispatches a decoded instruction to its handler. An opcode or an
    /// ill-formed opcode/mode pairing with no handler is an
    /// internal-consistency fault: the state is left exactly as it was.
    pub fn execute(&mut self, instruction: Instruction) -> (r: Result<(), CpuError>)
        requires
            old(self).pc + 2 <= u16::MAX,
        ensures
            match r {
                Ok(()) => Self::spec_execute(old(self)@, instruction)
                    == Ok::<CpuModel, CpuError>(final(self)@),
                Err(e) => {
                    &&& Self::spec_execute(old(self)@, instruction)
                        == Err::<CpuModel, CpuError>(e)
                    &&& final(self)@ == old(self)@
                },
            },
    {
        match instruction.opcode {
            Opcode::BRK => {
                self.execute_opcode_brk();
                Ok(())
            }
            Opcode::LDA => {
                if instruction.is_resolvable() {
                    self.execute_opcode_lda(instruction);
                    Ok(())
                } else {
                    Err(CpuError::UnhandledInstruction)
                }
            }
            _ => Err(CpuError::UnhandledInstruction),
        }
    }

    /// The BRK handler: advance past the reserved operand byte, set the
    /// break-command and interrupt-disable flags, push the counter's high
    /// byte, low byte and the serialized status byte, then vector to the
    /// interrupt address.
    fn execute_opcode_brk(&mut self)
        requires
            old(self).pc + 2 <= u16::MAX,
        ensures
            final(self)@ == Self::spec_brk(old(self)@),
    {
        self.pc = self.pc + 2;
        self.status_flag_update_break(true);
        self.status_flag_update_interrupt(true);
        let hi: u8 = ((self.pc >> 8) & 0xFF) as u8;
        let lo: u8 = (self.pc & 0xFF) as u8;
        self.stack_push(hi);
        self.stack_push(lo);
        let status_byte: u8 = self.status.as_byte();
        self.stack_push(status_byte);
        self.pc = IRQ_ADDRESS;
        proof {
            assert(self@ =~= Self::spec_brk(old(self)@));
        }
    }

    /// The LDA handler: resolve the operand value, store it in the
    /// accumulator, record the zero and sign outcomes in the flags, and
    /// advance the counter by the instruction's encoded length.
    fn execute_opcode_lda(&mut self, instruction: Instruction)
        requires
            instruction.opcode == Opcode::LDA,
            instruction.resolvable(),
            old(self).pc + 2 <= u16::MAX,
        ensures
            final(self)@ == Self::spec_lda(old(self)@, instruction),
    {
        let value: u8 = instruction.resolve_operand_value(self);
        self.acc = value;
        let length: u16 = 1 + instruction.address_mode.operand_count();
        self.pc = self.pc + length;
        self.status_flag_update_negative(value);
        self.status_flag_update_zero(value);
        proof {
            assert(self@ =~= Self::spec_lda(old(self)@, instruction));
        }
    }

    /// Pushes one byte: writes it at the stack pointer's cell of the stack
    /// page, then steps the pointer down with 8-bit wraparound.
    fn stack_push(&mut self, value: u8)
        ensures
            final(self)@ == Self::spec_push(old(self)@, value),
    {
        self.memory.write_byte(MEMORY_STACK_START + self.sp as u16, value);
        self.sp = self.sp.wrapping_sub(1);
        proof {
            assert(self@ =~= Self::spec_push(old(self)@, value));
        }
    }

    /// Sets the negative flag to the operand's sign bit, touching nothing
    /// else.
    fn status_flag_update_negative(&mut self, value: u8)
        ensures
            final(self)@ == (CpuModel {
                status: (CpuStatusRegister {
                    negative: (value & 0x80) != 0,
                    ..old(self).status
                }),
                ..old(self)@
            }),
    {
        self.status.negative = (value & 0x80) != 0;
    }

    /// Sets the zero flag to whether the operand is zero, touching nothing
    /// else.
    fn status_flag_update_zero(&mut self, value: u8)
        ensures
            final(self)@ == (CpuModel {
                status: (CpuStatusRegister { zero: value == 0, ..old(self).status }),
                ..old(self)@
            }),
    {
        self.status.zero = value == 0;
    }

    /// Sets the interrupt-disable flag, touching nothing else.
    fn status_flag_update_interrupt(&mut self, value: bool)
        ensures
            final(self)@ == (CpuModel {
                status: (CpuStatusRegister { interrupt_disable: value, ..old(self).status }),
                ..old(self)@
            }),
    {
        self.status.interrupt_disable = value;
    }

    /// Sets the break-command flag, touching nothing else.
    fn status_flag_update_break(&mut self, value: bool)
        ensures
            final(self)@ == (CpuModel {
                status: (CpuStatusRegister { break_command: value, ..old(self).status }),
                ..old(self)@
            }),
    {
        self.status.break_command = value;
    }
}

/// A software interrupt pushes exactly three bytes — the advanced program
/// counter's high byte, its low byte, then the serialized status byte — at
/// descending stack-pointer positions, steps the pointer down by three with
/// 8-bit wraparound, and vectors to the interrupt address with break-command
/// and interrupt-disable set.
pub proof fn lemma_brk_stack_effects(c: CpuModel)
    requires
        c.mem.len() == MEMORY_SIZE,
    ensures
        Cpu::spec_brk(c).pc == IRQ_ADDRESS,
        Cpu::spec_brk(c).sp == c.sp.wrapping_sub(3),
        Cpu::spec_brk(c).status == (CpuStatusRegister {
            break_command: true,
            interrupt_disable: true,
            ..c.status
        }),
        Cpu::spec_brk(c).mem[MEMORY_STACK_START as int + c.sp as int]
            == ((((c.pc + 2) as u16) >> 8) & 0xFF) as u8,
        Cpu::spec_brk(c).mem[MEMORY_STACK_START as int + c.sp.wrapping_sub(1) as int]
            == (((c.pc + 2) as u16) & 0xFF) as u8,
        Cpu::spec_brk(c).mem[MEMORY_STACK_START as int + c.sp.wrapping_sub(2) as int]
            == (CpuStatusRegister {
                break_command: true,
                interrupt_disable: true,
                ..c.status
            }).packed(),
        forall|a: int| 0 <= a < c.mem.len()
            && a != MEMORY_STACK_START as int + c.sp as int
            && a != MEMORY_STACK_START as int + c.sp.wrapping_sub(1) as int
            && a != MEMORY_STACK_START as int + c.sp.wrapping_sub(2) as int
            ==> Cpu::spec_brk(c).mem[a] == c.mem[a],
        Cpu::spec_brk(c).acc == c.acc,
        Cpu::spec_brk(c).x == c.x,
        Cpu::spec_brk(c).y == c.y,
{
}

/// Appending one more cycle to a run: `n + 1` cycles are `n` cycles
/// followed by a single step of whatever state they reached.
pub proof fn lemma_steps_add_one(c: CpuModel, n: nat)
    ensures
        Cpu::spec_steps(c, n + 1) == (match Cpu::spec_steps(c, n) {
            Ok(d) => Cpu::spec_step(d),
            Err(e) => Err(e),
        }),
    decreases n,
{
    if n == 0 {
        assert(Cpu::spec_steps(c, 1) == (match Cpu::spec_step(c) {
            Ok(c2) => Cpu::spec_steps(c2, 0),
            Err(e) => Err(e),
        }));
    } else {
        match Cpu::spec_step(c) {
            Ok(c2) => {
                lemma_steps_add_one(c2, (n - 1) as nat);
                assert(Cpu::spec_steps(c, n + 1) == (match Cpu::spec_step(c) {
                    Ok(d) => Cpu::spec_steps(d, n),
                    Err(e) => Err(e),
                }));
            }
            Err(_) => {}
        }
    }
}

} // verus!
