use tinyvm::isa::{Instruction, StopReason, VmError, MEM_SIZE};
use tinyvm::machine::VM;

/// A limit far above what any test program needs.
const PLENTY: usize = 1_000_000;

#[test]
fn load_immediate_sets_register() {
    let mut vm = VM::new();
    assert!(vm.load_program(&vec![0x01, 0x02, 77, 0xFF]));
    assert_eq!(vm.run(PLENTY), Some(StopReason::Halted));
    assert_eq!(vm.register(0), 0);
    assert_eq!(vm.register(1), 0);
    assert_eq!(vm.register(2), 77);
    assert_eq!(vm.register(3), 0);
    assert_eq!(vm.program_counter(), 3);
}

#[test]
fn load_immediate_into_each_register() {
    let mut vm = VM::new();
    let program = vec![
        0x01, 0x00, 11, //
        0x01, 0x01, 22, //
        0x01, 0x02, 33, //
        0x01, 0x03, 44, //
        0xFF,
    ];
    assert!(vm.load_program(&program));
    assert_eq!(vm.run(PLENTY), Some(StopReason::Halted));
    assert_eq!(vm.register(0), 11);
    assert_eq!(vm.register(1), 22);
    assert_eq!(vm.register(2), 33);
    assert_eq!(vm.register(3), 44);
}

#[test]
fn add_registers_wraps_modulo_256() {
    let mut vm = VM::new();
    let program = vec![
        0x01, 0x00, 200, //
        0x01, 0x01, 100, //
        0x02, 0x00, 0x01, //
        0xFF,
    ];
    assert!(vm.load_program(&program));
    assert_eq!(vm.run(PLENTY), Some(StopReason::Halted));
    // (200 + 100) mod 256 == 44, and the source register is unchanged.
    assert_eq!(vm.register(0), 44);
    assert_eq!(vm.register(1), 100);
}

#[test]
fn subtract_registers_wraps_below_zero() {
    let mut vm = VM::new();
    let program = vec![
        0x01, 0x00, 10, //
        0x01, 0x01, 20, //
        0x04, 0x00, 0x01, //
        0xFF,
    ];
    assert!(vm.load_program(&program));
    assert_eq!(vm.run(PLENTY), Some(StopReason::Halted));
    // (10 - 20) mod 256 == 246, and the source register is unchanged.
    assert_eq!(vm.register(0), 246);
    assert_eq!(vm.register(1), 20);
}

#[test]
fn invalid_register_index_is_a_no_op_that_advances() {
    let mut vm = VM::new();
    let program = vec![
        0x01, 0x00, 9, // load a marker into a valid register first
        0x01, 0x09, 55, // load into an index outside the register file
        0x02, 0x00, 0x07, // add with an invalid source index
        0x04, 0x06, 0x00, // subtract with an invalid destination index
        0xFF,
    ];
    assert!(vm.load_program(&program));
    // Step over the first load, then check that each invalid instruction
    // leaves every register alone while the program counter still advances
    // by three.
    assert_eq!(vm.exec(), None);
    assert_eq!(vm.program_counter(), 3);
    for step in 0..3usize {
        assert_eq!(vm.exec(), None);
        assert_eq!(vm.program_counter(), 6 + 3 * step);
        assert_eq!(vm.register(0), 9);
        assert_eq!(vm.register(1), 0);
        assert_eq!(vm.register(2), 0);
        assert_eq!(vm.register(3), 0);
    }
    assert_eq!(vm.exec(), Some(StopReason::Halted));
}

#[test]
fn jump_sets_program_counter_only() {
    let mut vm = VM::new();
    let program = vec![0x03, 0x05, 0x00, 0x00, 0x00, 0xFF];
    assert!(vm.load_program(&program));
    assert_eq!(vm.exec(), None);
    assert_eq!(vm.program_counter(), 5);
    for i in 0..4usize {
        assert_eq!(vm.register(i), 0);
    }
    assert_eq!(vm.exec(), Some(StopReason::Halted));
    assert_eq!(vm.program_counter(), 5);
}

#[test]
fn halt_preserves_all_state() {
    let mut vm = VM::new();
    let program = vec![0x01, 0x01, 42, 0xFF];
    assert!(vm.load_program(&program));
    assert_eq!(vm.exec(), None);
    let before = (
        vm.register(0),
        vm.register(1),
        vm.register(2),
        vm.register(3),
        vm.program_counter(),
    );
    assert_eq!(vm.exec(), Some(StopReason::Halted));
    let after = (
        vm.register(0),
        vm.register(1),
        vm.register(2),
        vm.register(3),
        vm.program_counter(),
    );
    assert_eq!(before, after);
    // A further cycle still sees the halt instruction: the machine stays
    // stopped rather than moving on.
    assert_eq!(vm.exec(), Some(StopReason::Halted));
}

#[test]
fn unrecognized_opcode_stops_and_reports_the_address() {
    let mut vm = VM::new();
    let program = vec![0x01, 0x00, 5, 0xAB];
    assert!(vm.load_program(&program));
    assert_eq!(vm.run(PLENTY), Some(StopReason::UnrecognizedOpcode(3)));
    assert_eq!(vm.register(0), 5);
    assert_eq!(vm.program_counter(), 3);
}

#[test]
fn zeroed_memory_decodes_as_unrecognized() {
    let mut vm = VM::new();
    assert_eq!(vm.run(PLENTY), Some(StopReason::UnrecognizedOpcode(0)));
}

#[test]
fn jump_to_unloaded_memory_stops_on_the_zero_byte() {
    let mut vm = VM::new();
    let program = vec![0x03, 100];
    assert!(vm.load_program(&program));
    assert_eq!(vm.run(PLENTY), Some(StopReason::UnrecognizedOpcode(100)));
}

#[test]
fn decode_past_the_end_of_memory_fails_cleanly() {
    let mut vm = VM::new();
    // 341 three-byte loads march the program counter to 1023, where a final
    // load opcode would need operand bytes at 1024 and 1025 — outside the
    // memory. The machine must stop with an address error, not read beyond
    // the buffer.
    let mut program = Vec::new();
    for _ in 0..341 {
        program.extend_from_slice(&[0x01, 0x00, 0x00]);
    }
    program.push(0x01);
    assert_eq!(program.len(), MEM_SIZE);
    assert!(vm.load_program(&program));
    assert_eq!(vm.run(PLENTY), Some(StopReason::AddressOutOfRange(1023)));
    assert_eq!(vm.program_counter(), 1023);
}

#[test]
fn decode_is_idempotent_without_an_execute() {
    let mut vm = VM::new();
    assert!(vm.load_program(&vec![0x01, 0x00, 10, 0xFF]));
    let first = vm.decode();
    let second = vm.decode();
    assert_eq!(first, Ok(Instruction::LoadImmediate(0, 10)));
    assert_eq!(first, second);
}

#[test]
fn truncated_jump_reports_address_out_of_range() {
    // A jump opcode in the very last memory cell has its operand byte
    // outside the memory: the run stops with an address error at that cell.
    let mut program = vec![0x01, 0x00, 0x00].repeat(341);
    program.push(0x03);
    assert_eq!(program.len(), MEM_SIZE);
    let mut vm = VM::new();
    assert!(vm.load_program(&program));
    assert_eq!(vm.run(PLENTY), Some(StopReason::AddressOutOfRange(1023)));
}

#[test]
fn load_program_longer_than_memory_is_rejected_whole() {
    let mut vm = VM::new();
    let program = vec![0x01; MEM_SIZE + 1];
    assert!(!vm.load_program(&program));
    // Nothing changed: the zeroed memory still stops at once on opcode 0.
    assert_eq!(vm.run(PLENTY), Some(StopReason::UnrecognizedOpcode(0)));
    for i in 0..4usize {
        assert_eq!(vm.register(i), 0);
    }
}

#[test]
fn load_program_of_exactly_memory_size_is_accepted() {
    let mut vm = VM::new();
    let mut program = vec![0x00; MEM_SIZE];
    program[0] = 0xFF;
    assert!(vm.load_program(&program));
    assert_eq!(vm.run(PLENTY), Some(StopReason::Halted));
}

#[test]
fn run_returns_none_when_the_step_limit_is_exhausted() {
    let mut vm = VM::new();
    // A jump to itself runs forever; a bounded run reports that it is still
    // running.
    assert!(vm.load_program(&vec![0x03, 0x00]));
    assert_eq!(vm.run(10), None);
    assert_eq!(vm.program_counter(), 0);
    assert_eq!(vm.run(0), None);
}

#[test]
fn decode_reads_the_instruction_after_a_jump() {
    let mut vm = VM::new();
    let mut image = vec![0x00; MEM_SIZE];
    image[0] = 0x03;
    image[1] = 0xFF; // jump to 255
    image[255] = 0x01; // a load at 255: operand bytes at 256 and 257 are zero
    assert!(vm.load_program(&image));
    assert_eq!(vm.exec(), None);
    assert_eq!(vm.decode(), Ok(Instruction::LoadImmediate(0, 0)));
    assert_ne!(vm.decode(), Err(VmError::AddressOutOfRange));
}

#[test]
fn end_to_end_sample_program() {
    let mut vm = VM::new();
    let program = vec![
        0x01, 0x00, 10, // load 10 into register 0
        0x01, 0x01, 20, // load 20 into register 1
        0x01, 0x02, 30, // load 30 into register 2
        0x02, 0x00, 0x01, // register 0 += register 1
        0x04, 0x00, 0x02, // register 0 -= register 2
        0xFF, // halt
    ];
    assert!(vm.load_program(&program));

    let expected_traces: [[u8; 4]; 5] = [
        [10, 0, 0, 0],
        [10, 20, 0, 0],
        [10, 20, 30, 0],
        [30, 20, 30, 0],
        [0, 20, 30, 0],
    ];
    for expected in expected_traces.iter() {
        assert_eq!(vm.exec(), None);
        let regs = [
            vm.register(0),
            vm.register(1),
            vm.register(2),
            vm.register(3),
        ];
        assert_eq!(&regs, expected);
    }
    assert_eq!(vm.exec(), Some(StopReason::Halted));
    assert_eq!(vm.register(0), 0);
    assert_eq!(vm.program_counter(), 15);
}
