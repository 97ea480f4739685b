use cpu_core::address_mode::AddressMode;
use cpu_core::cpu::{Cpu, CpuError, IRQ_ADDRESS};
use cpu_core::instructions::{Instruction, Opcode};
use cpu_core::memory::MEMORY_RAM_SIZE;

#[test]
fn should_create_a_new_cpu() {
    let cpu = Cpu::new();

    assert_eq!(cpu.pc, 0x0200);
    assert_eq!(cpu.sp, 0x00FF);
    assert_eq!(cpu.acc, 0);
    assert_eq!(cpu.x, 0);
    assert_eq!(cpu.y, 0);
    // bit 5 of the serialized form is always one
    assert_eq!(cpu.status.as_byte(), 0b0010_0100);
}

#[test]
fn should_load_a_program_into_memory() {
    let mut cpu = Cpu::new();
    let program = vec![0x42, 0x43, 0x44];

    cpu.load_program(program).unwrap();

    assert_eq!(cpu.memory.read_byte(0x0200), 0x42);
    assert_eq!(cpu.memory.read_byte(0x0201), 0x43);
    assert_eq!(cpu.memory.read_byte(0x0202), 0x44);
}

#[test]
fn should_not_load_a_program_into_memory_if_it_is_too_large() {
    let mut cpu = Cpu::new();
    let program = vec![0x42; MEMORY_RAM_SIZE as usize + 1];

    let result = cpu.load_program(program);

    assert_eq!(result, Err("Program is too large to fit in memory"));
}

#[test]
fn should_fetch_and_decode_an_instruction() {
    let mut cpu = Cpu::new();
    let program = vec![0xA9, 0x42, 0x00];
    cpu.load_program(program).unwrap();

    let instruction = cpu.fetch_and_decode().unwrap();

    assert_eq!(instruction.opcode, Opcode::LDA);
    assert_eq!(instruction.address_mode, AddressMode::Immediate);
    assert_eq!(instruction.operands, (Some(0x42), None));
}

#[test]
fn should_execute_an_instruction() {
    let mut cpu = Cpu::new();
    let program = vec![0xA9, 0x42, 0x00];
    cpu.load_program(program).unwrap();
    cpu.tick().unwrap();

    assert_eq!(cpu.acc, 0x42);
    assert_eq!(cpu.pc, IRQ_ADDRESS);
}

#[test]
fn loading_a_program_that_exactly_fills_program_ram_succeeds() {
    let mut cpu = Cpu::new();
    let program = vec![0x11; MEMORY_RAM_SIZE as usize];

    cpu.load_program(program).unwrap();

    assert_eq!(cpu.memory.read_byte(0x0200), 0x11);
    assert_eq!(cpu.memory.read_byte(0xFFFD), 0x11);
    // the interrupt-vector slot sits above program RAM and stays untouched
    assert_eq!(cpu.memory.read_byte(0xFFFE), 0x00);
    assert_eq!(cpu.memory.read_byte(0xFFFF), 0x00);
}

#[test]
fn rejecting_an_oversized_program_leaves_memory_unmodified() {
    let mut cpu = Cpu::new();
    let program = vec![0x42; MEMORY_RAM_SIZE as usize + 1];

    let result = cpu.load_program(program);

    assert!(result.is_err());
    assert_eq!(cpu.memory.read_byte(0x0200), 0x00);
    assert_eq!(cpu.memory.read_byte(0xFFFD), 0x00);
}

#[test]
fn lda_immediate_with_a_zero_operand_sets_the_zero_flag() {
    let mut cpu = Cpu::new();
    cpu.load_program(vec![0xA9, 0x00, 0x00]).unwrap();
    cpu.tick().unwrap();

    assert_eq!(cpu.acc, 0x00);
    assert!(cpu.status.zero);
    assert!(!cpu.status.negative);
}

#[test]
fn lda_immediate_with_a_sign_bit_operand_sets_the_negative_flag() {
    let mut cpu = Cpu::new();
    cpu.load_program(vec![0xA9, 0x80, 0x00]).unwrap();
    cpu.tick().unwrap();

    assert_eq!(cpu.acc, 0x80);
    assert!(!cpu.status.zero);
    assert!(cpu.status.negative);
}

#[test]
fn brk_from_the_initial_state_vectors_and_pushes_three_bytes() {
    let mut cpu = Cpu::new();
    cpu.load_program(vec![0x00]).unwrap();

    cpu.tick().unwrap();

    // the counter advanced by 2 from its pre-BRK value of 0x0200 before
    // vectoring, and the pushed bytes record that value
    assert_eq!(cpu.pc, IRQ_ADDRESS);
    assert!(cpu.status.break_command);
    assert!(cpu.status.interrupt_disable);
    assert_eq!(cpu.memory.read_byte(0x01FF), 0x02); // counter high byte
    assert_eq!(cpu.memory.read_byte(0x01FE), 0x02); // counter low byte
    assert_eq!(cpu.memory.read_byte(0x01FD), 0b0011_0100); // status byte
    assert_eq!(cpu.sp, 0xFC);
}

#[test]
fn loading_and_running_a_program_to_halt() {
    let mut cpu = Cpu::new();
    cpu.load_program(vec![0xA9, 0x42, 0x00]).unwrap();

    cpu.tick().unwrap();

    assert_eq!(cpu.acc, 0x42);
    assert!(!cpu.status.zero);
    assert!(!cpu.status.negative);
    assert_eq!(cpu.pc, IRQ_ADDRESS);
    // BRK at 0x0202 pushed its advanced counter 0x0204, then the status
    assert_eq!(cpu.memory.read_byte(0x01FF), 0x02);
    assert_eq!(cpu.memory.read_byte(0x01FE), 0x04);
    assert_eq!(cpu.memory.read_byte(0x01FD), 0b0011_0100);
}

#[test]
fn an_opcode_absent_from_the_decode_table_stops_the_run() {
    let mut cpu = Cpu::new();
    cpu.load_program(vec![0xFF]).unwrap();

    let result = cpu.tick();

    assert_eq!(
        result,
        Err(CpuError::UnimplementedOpcode { opcode: 0xFF, pc: 0x0200 })
    );
    // the run stopped cleanly: no execute step was applied
    assert_eq!(cpu.pc, 0x0200);
    assert_eq!(cpu.sp, 0xFF);
}

#[test]
fn dispatching_an_instruction_without_a_handler_is_a_fault() {
    let mut cpu = Cpu::new();

    let nop = Instruction::new(Opcode::NOP, AddressMode::Implicit, (None, None));
    assert_eq!(cpu.execute(nop), Err(CpuError::UnhandledInstruction));

    let lda_without_operand = Instruction::new(Opcode::LDA, AddressMode::Immediate, (None, None));
    assert_eq!(
        cpu.execute(lda_without_operand),
        Err(CpuError::UnhandledInstruction)
    );

    // the fault corrupted nothing
    assert_eq!(cpu.pc, 0x0200);
    assert_eq!(cpu.acc, 0);
    assert_eq!(cpu.sp, 0xFF);
}

#[test]
fn stack_pushes_wrap_within_the_stack_page() {
    let mut cpu = Cpu::new();
    cpu.sp = 0x01;

    let brk = Instruction::new(Opcode::BRK, AddressMode::Implicit, (None, None));
    cpu.execute(brk).unwrap();

    assert_eq!(cpu.memory.read_byte(0x0101), 0x02); // counter high byte
    assert_eq!(cpu.memory.read_byte(0x0100), 0x02); // counter low byte
    assert_eq!(cpu.memory.read_byte(0x01FF), 0b0011_0100); // status, after wrap
    assert_eq!(cpu.sp, 0xFE);
}
