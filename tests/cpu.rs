use chip_cpu::instruction::{decode, decode_instruction, Instruction};
use chip_cpu::machine::{CPU, CpuError, Status};

fn machine_with(at: usize, program: &[u8]) -> CPU {
    let mut cpu = CPU::new();
    assert_eq!(cpu.load(at, program), Ok(()));
    cpu
}

#[test]
fn decode_8014() {
    let f = decode(0x8014);
    assert_eq!((f.c, f.x, f.y, f.d), (8, 0, 1, 4));
    assert_eq!(f.nnn, 0x014);
    assert_eq!(f.kk, 0x14);
}

#[test]
fn decoding_opcode_nibbles() {
    assert_eq!(CPU::decoding_opcode(0x8014), (8, 0, 1, 4));
    assert_eq!(CPU::decoding_opcode(0x00EE), (0, 0, 0xE, 0xE));
    assert_eq!(CPU::decoding_opcode(0xF2A7), (0xF, 0x2, 0xA, 0x7));
}

#[test]
fn read_opcode_is_big_endian() {
    let mut cpu = machine_with(0x20, &[0x12, 0x34]);
    cpu.set_program_counter(0x20);
    assert_eq!(cpu.read_opcode(), 0x1234);
    assert_eq!(cpu.program_counter(), 0x20);
}

#[test]
fn decode_distinct_nibbles() {
    let f = decode(0xABCD);
    assert_eq!((f.c, f.x, f.y, f.d), (0xA, 0xB, 0xC, 0xD));
    assert_eq!(f.nnn, 0xBCD);
    assert_eq!(f.kk, 0xCD);
}

#[test]
fn decode_every_word_by_masking() {
    for op in 0..=u16::MAX {
        let f = decode(op);
        assert_eq!(f.c as u16, (op & 0xF000) >> 12);
        assert_eq!(f.x as u16, (op & 0x0F00) >> 8);
        assert_eq!(f.y as u16, (op & 0x00F0) >> 4);
        assert_eq!(f.d as u16, op & 0x000F);
        assert_eq!(f.nnn, op & 0x0FFF);
        assert_eq!(f.kk as u16, op & 0x00FF);
    }
}

#[test]
fn decode_instruction_patterns() {
    assert_eq!(decode_instruction(0x0000), Some(Instruction::Halt));
    assert_eq!(decode_instruction(0x00EE), Some(Instruction::Return));
    assert_eq!(decode_instruction(0x2ABC), Some(Instruction::Call { addr: 0xABC }));
    assert_eq!(decode_instruction(0x8A34), Some(Instruction::AddXY { x: 0xA, y: 0x3 }));
    assert_eq!(decode_instruction(0x00E0), None);
    assert_eq!(decode_instruction(0x8015), None);
    assert_eq!(decode_instruction(0x1234), None);
}

#[test]
fn new_machine_is_zeroed() {
    let cpu = CPU::new();
    for i in 0..16 {
        assert_eq!(cpu.register(i), 0);
    }
    for a in 0..0x1000 {
        assert_eq!(cpu.memory_byte(a), 0);
    }
    assert_eq!(cpu.program_counter(), 0);
    assert_eq!(cpu.stack_depth(), 0);
    let d = CPU::default();
    assert_eq!(d.program_counter(), 0);
    assert_eq!(d.stack_depth(), 0);
}

#[test]
fn add_without_overflow() {
    let mut cpu = machine_with(0, &[0x80, 0x14]);
    cpu.set_register(0, 5);
    cpu.set_register(1, 10);
    cpu.set_register(0xF, 7);
    assert_eq!(cpu.step(), Ok(Status::Running));
    assert_eq!(cpu.register(0), 15);
    assert_eq!(cpu.register(1), 10);
    assert_eq!(cpu.register(0xF), 0);
    assert_eq!(cpu.program_counter(), 2);
}

#[test]
fn add_with_overflow() {
    let mut cpu = machine_with(0, &[0x80, 0x14]);
    cpu.set_register(0, 250);
    cpu.set_register(1, 10);
    assert_eq!(cpu.step(), Ok(Status::Running));
    assert_eq!(cpu.register(0), 4);
    assert_eq!(cpu.register(0xF), 1);
}

#[test]
fn add_handler_directly() {
    let mut cpu = CPU::new();
    cpu.set_register(3, 200);
    cpu.set_register(7, 55);
    cpu.add_xy(3, 7);
    assert_eq!(cpu.register(3), 255);
    assert_eq!(cpu.register(0xF), 0);
    cpu.add_xy(3, 3);
    assert_eq!(cpu.register(3), 254);
    assert_eq!(cpu.register(0xF), 1);
}

#[test]
fn add_into_flag_register_keeps_the_carry() {
    let mut cpu = CPU::new();
    cpu.set_register(0xF, 200);
    cpu.set_register(1, 100);
    cpu.add_xy(0xF, 1);
    assert_eq!(cpu.register(0xF), 1);
}

#[test]
fn call_then_return() {
    let mut cpu = machine_with(0x10, &[0x23, 0x00]);
    assert_eq!(cpu.load(0x300, &[0x00, 0xEE]), Ok(()));
    cpu.set_program_counter(0x10);
    assert_eq!(cpu.step(), Ok(Status::Running));
    assert_eq!(cpu.program_counter(), 0x300);
    assert_eq!(cpu.stack_depth(), 1);
    assert_eq!(cpu.stack_entry(0), 0x12);
    assert_eq!(cpu.step(), Ok(Status::Running));
    assert_eq!(cpu.program_counter(), 0x12);
    assert_eq!(cpu.stack_depth(), 0);
}

#[test]
fn call_and_ret_handlers() {
    let mut cpu = CPU::new();
    cpu.set_program_counter(0x40);
    assert_eq!(cpu.call(0x200), Ok(()));
    assert_eq!(cpu.program_counter(), 0x200);
    assert_eq!(cpu.stack_entry(0), 0x40);
    assert_eq!(cpu.ret(), Ok(()));
    assert_eq!(cpu.program_counter(), 0x40);
    assert_eq!(cpu.ret(), Err(CpuError::StackUnderflow));
    assert_eq!(cpu.program_counter(), 0x40);
}

#[test]
fn double_add_via_subroutine() {
    let mut cpu = machine_with(0, &[0x21, 0x00, 0x21, 0x00, 0x00, 0x00]);
    assert_eq!(cpu.load(0x100, &[0x80, 0x14, 0x80, 0x14, 0x00, 0xEE]), Ok(()));
    cpu.set_register(0, 5);
    cpu.set_register(1, 10);
    assert_eq!(cpu.run(), Ok(Status::Halted));
    assert_eq!(cpu.register(0), 45);
    assert_eq!(cpu.stack_depth(), 0);
}

#[test]
fn inline_adds() {
    let mut cpu = machine_with(0, &[0x80, 0x14, 0x80, 0x24, 0x80, 0x34, 0x00, 0x00]);
    cpu.set_register(0, 5);
    cpu.set_register(1, 10);
    cpu.set_register(2, 10);
    cpu.set_register(3, 10);
    assert_eq!(cpu.run(), Ok(Status::Halted));
    assert_eq!(cpu.register(0), 35);
    assert_eq!(cpu.register(0xF), 0);
    assert_eq!(cpu.program_counter(), 8);
}

#[test]
fn seventeenth_call_overflows() {
    // A subroutine at 0 that calls itself.
    let mut cpu = machine_with(0, &[0x20, 0x00]);
    assert_eq!(cpu.run_steps(16), Ok(Status::Running));
    assert_eq!(cpu.stack_depth(), 16);
    assert_eq!(cpu.step(), Err(CpuError::StackOverflow));
    assert_eq!(cpu.stack_depth(), 16);

    let mut again = machine_with(0, &[0x20, 0x00]);
    assert_eq!(again.run(), Err(CpuError::StackOverflow));
}

#[test]
fn nested_calls_through_distinct_addresses() {
    // Seventeen CALLs, each to the next word.
    let mut program = Vec::new();
    for i in 0..17u16 {
        let target = 2 * (i + 1);
        program.push(0x20 | (target >> 8) as u8);
        program.push((target & 0xFF) as u8);
    }
    let mut cpu = machine_with(0, &program);
    assert_eq!(cpu.run(), Err(CpuError::StackOverflow));
    assert_eq!(cpu.stack_depth(), 16);
    assert_eq!(cpu.program_counter(), 34);
}

#[test]
fn unimplemented_opcode_carries_the_word() {
    for op in [0x1234u16, 0x8015, 0x00E0, 0xF00F, 0x0001] {
        let mut cpu = machine_with(0, &[(op >> 8) as u8, (op & 0xFF) as u8]);
        assert_eq!(cpu.run(), Err(CpuError::UnimplementedOpcode(op)));
        assert_eq!(cpu.program_counter(), 2);
    }
}

#[test]
fn return_on_empty_stack_underflows() {
    let mut cpu = machine_with(0, &[0x00, 0xEE]);
    assert_eq!(cpu.run(), Err(CpuError::StackUnderflow));
}

#[test]
fn fetch_past_the_end_is_refused() {
    let mut cpu = CPU::new();
    cpu.set_program_counter(0xFFF);
    assert_eq!(cpu.step(), Err(CpuError::ProgramCounterOutOfRange(0xFFF)));
    assert_eq!(cpu.program_counter(), 0xFFF);

    let mut last = machine_with(0xFFE, &[0x80, 0x14]);
    last.set_program_counter(0xFFE);
    assert_eq!(last.run(), Err(CpuError::ProgramCounterOutOfRange(0x1000)));
}

#[test]
fn load_writes_and_bounds() {
    let mut cpu = CPU::new();
    assert_eq!(cpu.load(0xFFE, &[1, 2]), Ok(()));
    assert_eq!(cpu.memory_byte(0xFFE), 1);
    assert_eq!(cpu.memory_byte(0xFFF), 2);
    assert_eq!(cpu.load(0xFFF, &[3, 4]), Err(CpuError::LoadOutOfRange));
    assert_eq!(cpu.memory_byte(0xFFF), 2);
    assert_eq!(cpu.load(usize::MAX, &[5]), Err(CpuError::LoadOutOfRange));
    assert_eq!(cpu.load(0x1000, &[]), Ok(()));
}

#[test]
fn run_steps_stops_at_budget() {
    let mut cpu = machine_with(0, &[0x80, 0x14, 0x80, 0x14, 0x80, 0x14, 0x00, 0x00]);
    cpu.set_register(1, 1);
    assert_eq!(cpu.run_steps(2), Ok(Status::Running));
    assert_eq!(cpu.register(0), 2);
    assert_eq!(cpu.program_counter(), 4);
    assert_eq!(cpu.run_steps(0), Ok(Status::Running));
    assert_eq!(cpu.run_steps(10), Ok(Status::Halted));
    assert_eq!(cpu.register(0), 3);
}
