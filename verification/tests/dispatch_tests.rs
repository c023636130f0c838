use hachi::dispatch::decode;
use hachi::dispatch::ExecuteError;
use hachi::dispatch::Instruction;
use hachi::Chip8;

#[test]
fn decode_maps_each_family_to_its_instruction() {
    assert_eq!(decode(0x00E0), Instruction::ClearDisplay);
    assert_eq!(decode(0x00EE), Instruction::Ret);
    assert_eq!(decode(0x1A59), Instruction::Jump);
    assert_eq!(decode(0x2A59), Instruction::Call);
    assert_eq!(decode(0x3055), Instruction::SkipEqualVxByte);
    assert_eq!(decode(0x4056), Instruction::SkipNotEqualVxByte);
    assert_eq!(decode(0x5010), Instruction::SkipEqualVxVy);
    assert_eq!(decode(0x6A55), Instruction::LoadVxByte);
    assert_eq!(decode(0x7A12), Instruction::AddVxByte);
    assert_eq!(decode(0x8AB0), Instruction::LoadVxVy);
    assert_eq!(decode(0x8AB1), Instruction::OrVxVy);
    assert_eq!(decode(0x8AB2), Instruction::AndVxVy);
    assert_eq!(decode(0x8AB3), Instruction::XorVxVy);
    assert_eq!(decode(0x8AB4), Instruction::AddVxVy);
    assert_eq!(decode(0x8AB5), Instruction::SubVxVy);
    assert_eq!(decode(0x8A06), Instruction::ShrVx);
    assert_eq!(decode(0x8AB7), Instruction::SubnVxVy);
    assert_eq!(decode(0x8A0E), Instruction::ShlVx);
    assert_eq!(decode(0x9010), Instruction::SkipNotEqualVxVy);
}

#[test]
fn decode_rejects_what_is_out_of_scope() {
    // Families with no defined operation here decode to Unknown.
    assert_eq!(decode(0xA22A), Instruction::Unknown);
    assert_eq!(decode(0xD015), Instruction::Unknown);
    assert_eq!(decode(0xE09E), Instruction::Unknown);
    assert_eq!(decode(0xF518), Instruction::Unknown);
    assert_eq!(decode(0x0000), Instruction::Unknown);
    // A 5/8/9-family opcode with a low nibble no instruction uses.
    assert_eq!(decode(0x5011), Instruction::Unknown);
    assert_eq!(decode(0x8AB8), Instruction::Unknown);
    assert_eq!(decode(0x9011), Instruction::Unknown);
}

#[test]
fn fetch_forms_the_opcode_high_byte_first() {
    let mut chip8 = Chip8::default();
    chip8.load_rom(&[0x6A, 0x55]).expect("two bytes fit");

    chip8.fetch();

    assert_eq!(chip8.opcode, 0x6A55);
    assert_eq!(chip8.pc, 0x200, "Fetch itself must not advance the program counter");
}

#[test]
fn execute_reports_an_unknown_opcode_and_changes_nothing() {
    let mut chip8 = Chip8 { opcode: 0xA22A, ..Default::default() };
    let before_registers = chip8.registers;
    let before_pc = chip8.pc;

    let result = chip8.execute();

    let error = result.unwrap_err();
    assert_eq!(error, ExecuteError::UnknownOpcode);
    assert_eq!(error.message(), "unknown opcode");
    assert_eq!(chip8.registers, before_registers);
    assert_eq!(chip8.pc, before_pc);
}

#[test]
fn cycle_runs_a_short_program() {
    let mut chip8 = Chip8::default();
    // Load 0x05 into VA, then add 0x03 to it.
    chip8.load_rom(&[0x6A, 0x05, 0x7A, 0x03]).expect("four bytes fit");

    chip8.cycle().expect("load immediate is implemented");
    assert_eq!(chip8.registers[0xA], 0x05);
    assert_eq!(chip8.pc, 0x202);

    chip8.cycle().expect("add immediate is implemented");
    assert_eq!(chip8.registers[0xA], 0x08);
    assert_eq!(chip8.pc, 0x204);
}

#[test]
fn cycle_jump_suppresses_the_default_advance() {
    let mut chip8 = Chip8::default();
    chip8.load_rom(&[0x13, 0x00]).expect("two bytes fit");

    chip8.cycle().expect("jump is implemented");

    assert_eq!(chip8.pc, 0x300, "A jump lands exactly on its target");
}

#[test]
fn cycle_call_then_ret_resumes_after_the_call() {
    let mut chip8 = Chip8::default();
    // At 0x200: call 0x300. At 0x300: return.
    chip8.load_rom(&[0x23, 0x00]).expect("two bytes fit");
    chip8.memory[0x300] = 0x00;
    chip8.memory[0x301] = 0xEE;

    chip8.cycle().expect("call is implemented");
    assert_eq!(chip8.pc, 0x300);
    assert_eq!(chip8.sp, 1);
    assert_eq!(chip8.stack[0], 0x200, "Call pushes the pre-advance counter");

    chip8.cycle().expect("return is implemented");
    assert_eq!(chip8.pc, 0x202, "Execution resumes after the call");
    assert_eq!(chip8.sp, 0);
}

#[test]
fn cycle_skip_advances_by_a_net_4_or_2() {
    // Condition holds: V0 == 0x55, net advance of 4.
    let mut chip8 = Chip8::default();
    chip8.registers[0] = 0x55;
    chip8.load_rom(&[0x30, 0x55]).expect("two bytes fit");
    chip8.cycle().expect("skip is implemented");
    assert_eq!(chip8.pc, 0x204);

    // Condition fails: net advance of 2.
    let mut chip8 = Chip8::default();
    chip8.registers[0] = 0x55;
    chip8.load_rom(&[0x30, 0x56]).expect("two bytes fit");
    chip8.cycle().expect("skip is implemented");
    assert_eq!(chip8.pc, 0x202);
}

#[test]
fn cycle_reports_an_unknown_opcode_without_advancing() {
    let mut chip8 = Chip8::default();
    chip8.load_rom(&[0xA2, 0x2A]).expect("two bytes fit");

    let result = chip8.cycle();

    assert_eq!(result.unwrap_err(), ExecuteError::UnknownOpcode);
    assert_eq!(chip8.pc, 0x200, "An unknown opcode leaves the counter in place");
    assert_eq!(chip8.opcode, 0xA22A, "The fetched opcode stays visible for the host");
}
