use lc3_vm::cpu::{StepEffect, VmCPU, FL_NEG, FL_POS, FL_ZRO};
use lc3_vm::instructions::Instructions;
use lc3_vm::memory::{Memory, KEY_BOARD_DATA, KEY_BOARD_STATUS};
use lc3_vm::register::{General, Registers};
use lc3_vm::VmError;

/// A machine whose program, the given words, is loaded at origin 0x3000.
fn boot(words: &[u16]) -> VmCPU {
    let mut bytes: Vec<u8> = vec![0x30, 0x00];
    for word in words {
        bytes.push((word >> 8) as u8);
        bytes.push((word & 0xFF) as u8);
    }
    let memory = Memory::from_image(&bytes).unwrap();
    VmCPU::new([0; 10], memory)
}

/// The general-purpose register of a slot.
fn gp(slot: u16) -> Registers {
    Registers::get_register(slot).unwrap()
}

#[test]
fn test_image_run_halts_with_zero() {
    // Origin 0x3000, then AND R0, R0, #0 and TRAP HALT.
    let bytes: Vec<u8> = vec![0x30, 0x00, 0x50, 0x20, 0xF0, 0x25];
    let memory = Memory::from_image(&bytes).unwrap();
    let mut vm = VmCPU::new([0; 10], memory);
    assert_eq!(vm.read_register(Registers::ProgramCounter), 0x3000);
    assert_eq!(vm.step(None), Ok(StepEffect::Continue));
    assert_eq!(vm.step(None), Ok(StepEffect::Halt));
    assert_eq!(vm.read_register(gp(0)), 0);
    assert_eq!(vm.read_register(Registers::Condition), FL_ZRO);
}

#[test]
fn test_add_register_form() {
    let mut vm = boot(&[0x1042]); // ADD R0, R1, R2
    vm.update_register(gp(1), 5);
    vm.update_register(gp(2), 7);
    assert_eq!(vm.step(None), Ok(StepEffect::Continue));
    assert_eq!(vm.read_register(gp(0)), 12);
    assert_eq!(vm.read_register(Registers::Condition), FL_POS);
}

#[test]
fn test_add_immediate_wraps() {
    let mut vm = boot(&[0x1262]); // ADD R1, R1, #2
    vm.update_register(gp(1), 0xFFFF);
    assert_eq!(vm.step(None), Ok(StepEffect::Continue));
    assert_eq!(vm.read_register(gp(1)), 1);
    assert_eq!(vm.read_register(Registers::Condition), FL_POS);
}

#[test]
fn test_add_negative_immediate() {
    let mut vm = boot(&[0x127F]); // ADD R1, R1, #-1
    vm.update_register(gp(1), 5);
    assert_eq!(vm.step(None), Ok(StepEffect::Continue));
    assert_eq!(vm.read_register(gp(1)), 4);
}

#[test]
fn test_add_sets_negative_flag() {
    let mut vm = boot(&[0x1261]); // ADD R1, R1, #1
    vm.update_register(gp(1), 0x7FFF);
    assert_eq!(vm.step(None), Ok(StepEffect::Continue));
    assert_eq!(vm.read_register(gp(1)), 0x8000);
    assert_eq!(vm.read_register(Registers::Condition), FL_NEG);
}

#[test]
fn test_and_register_and_immediate() {
    let mut vm = boot(&[0x5042, 0x5260]); // AND R0, R1, R2; AND R1, R1, #0
    vm.update_register(gp(1), 0b1100);
    vm.update_register(gp(2), 0b1010);
    assert_eq!(vm.step(None), Ok(StepEffect::Continue));
    assert_eq!(vm.read_register(gp(0)), 0b1000);
    assert_eq!(vm.read_register(Registers::Condition), FL_POS);
    assert_eq!(vm.step(None), Ok(StepEffect::Continue));
    assert_eq!(vm.read_register(gp(1)), 0);
    assert_eq!(vm.read_register(Registers::Condition), FL_ZRO);
}

#[test]
fn test_not_complements() {
    let mut vm = boot(&[0x903F]); // NOT R0, R0
    vm.update_register(gp(0), 0x00FF);
    assert_eq!(vm.step(None), Ok(StepEffect::Continue));
    assert_eq!(vm.read_register(gp(0)), 0xFF00);
    assert_eq!(vm.read_register(Registers::Condition), FL_NEG);
}

#[test]
fn test_flag_rule_by_value() {
    let mut vm = boot(&[]);
    vm.update_register(gp(0), 0);
    vm.update_flag(0);
    assert_eq!(vm.read_register(Registers::Condition), FL_ZRO);
    vm.update_register(gp(0), 0x8000);
    vm.update_flag(0);
    assert_eq!(vm.read_register(Registers::Condition), FL_NEG);
    vm.update_register(gp(0), 1);
    vm.update_flag(0);
    assert_eq!(vm.read_register(Registers::Condition), FL_POS);
}

#[test]
fn test_branch_all_bits_always_taken() {
    for cond in [FL_POS, FL_ZRO, FL_NEG] {
        let mut vm = boot(&[0x0E05]); // BR (n, z and p all set) #5
        vm.update_register(Registers::Condition, cond);
        assert_eq!(vm.step(None), Ok(StepEffect::Continue));
        assert_eq!(vm.read_register(Registers::ProgramCounter), 0x3006);
    }
}

#[test]
fn test_branch_not_taken_leaves_pc() {
    let mut vm = boot(&[0x0405]); // BRz #5
    vm.update_register(Registers::Condition, FL_POS);
    assert_eq!(vm.step(None), Ok(StepEffect::Continue));
    assert_eq!(vm.read_register(Registers::ProgramCounter), 0x3001);
}

#[test]
fn test_jump_register_offset_links_r7() {
    let mut vm = boot(&[0x4805]); // JSR #5
    assert_eq!(vm.step(None), Ok(StepEffect::Continue));
    // R7 holds the address after the jump instruction, not the target.
    assert_eq!(vm.read_register(gp(7)), 0x3001);
    assert_eq!(vm.read_register(Registers::ProgramCounter), 0x3006);
}

#[test]
fn test_jump_register_from_register() {
    let mut vm = boot(&[0x4080]); // JSRR R2
    vm.update_register(gp(2), 0x4000);
    assert_eq!(vm.step(None), Ok(StepEffect::Continue));
    assert_eq!(vm.read_register(gp(7)), 0x3001);
    assert_eq!(vm.read_register(Registers::ProgramCounter), 0x4000);
}

#[test]
fn test_jump_register_from_r7_reads_the_saved_link() {
    // The link is written first, so a base of R7 jumps to the saved address.
    let mut vm = boot(&[0x41C0]); // JSRR R7
    vm.update_register(gp(7), 0x5000);
    assert_eq!(vm.step(None), Ok(StepEffect::Continue));
    assert_eq!(vm.read_register(gp(7)), 0x3001);
    assert_eq!(vm.read_register(Registers::ProgramCounter), 0x3001);
}

#[test]
fn test_jump_and_return() {
    let mut vm = boot(&[0xC080]); // JMP R2
    vm.update_register(gp(2), 0x2000);
    assert_eq!(vm.step(None), Ok(StepEffect::Continue));
    assert_eq!(vm.read_register(Registers::ProgramCounter), 0x2000);

    let mut vm = boot(&[0xC1C0]); // RET
    vm.update_register(gp(7), 0x1234);
    assert_eq!(vm.step(None), Ok(StepEffect::Continue));
    assert_eq!(vm.read_register(Registers::ProgramCounter), 0x1234);
}

#[test]
fn test_load_direct() {
    let mut vm = boot(&[0x2001, 0xF025, 0xABCD]); // LD R0, #1
    assert_eq!(vm.step(None), Ok(StepEffect::Continue));
    assert_eq!(vm.read_register(gp(0)), 0xABCD);
    assert_eq!(vm.read_register(Registers::Condition), FL_NEG);
}

#[test]
fn test_store_direct() {
    let mut vm = boot(&[0x3001]); // ST R0, #1
    vm.update_register(gp(0), 99);
    assert_eq!(vm.step(None), Ok(StepEffect::Continue));
    assert_eq!(vm.memory().read_memory(0x3002), 99);
    // A store does not touch the flags.
    assert_eq!(vm.read_register(Registers::Condition), 0);
}

#[test]
fn test_load_register() {
    let mut memory = Memory::new();
    memory.write_memory(0x3000, 0x6045); // LDR R0, R1, #5
    memory.write_memory(0x4005, 0x1234);
    let mut vm = VmCPU::new([0; 10], memory);
    vm.update_register(Registers::ProgramCounter, 0x3000);
    vm.update_register(gp(1), 0x4000);
    assert_eq!(vm.step(None), Ok(StepEffect::Continue));
    assert_eq!(vm.read_register(gp(0)), 0x1234);
}

#[test]
fn test_store_register() {
    let mut vm = boot(&[0x7045]); // STR R0, R1, #5
    vm.update_register(gp(0), 0x5555);
    vm.update_register(gp(1), 0x4000);
    assert_eq!(vm.step(None), Ok(StepEffect::Continue));
    assert_eq!(vm.memory().read_memory(0x4005), 0x5555);
}

#[test]
fn test_load_indirect() {
    let mut memory = Memory::new();
    memory.write_memory(0x3000, 0xA001); // LDI R0, #1
    memory.write_memory(0x3002, 0x4000);
    memory.write_memory(0x4000, 0x5678);
    let mut vm = VmCPU::new([0; 10], memory);
    vm.update_register(Registers::ProgramCounter, 0x3000);
    assert_eq!(vm.step(None), Ok(StepEffect::Continue));
    assert_eq!(vm.read_register(gp(0)), 0x5678);
}

#[test]
fn test_store_indirect() {
    let mut memory = Memory::new();
    memory.write_memory(0x3000, 0xB001); // STI R0, #1
    memory.write_memory(0x3002, 0x4000);
    let mut vm = VmCPU::new([0; 10], memory);
    vm.update_register(Registers::ProgramCounter, 0x3000);
    vm.update_register(gp(0), 42);
    assert_eq!(vm.step(None), Ok(StepEffect::Continue));
    assert_eq!(vm.memory().read_memory(0x4000), 42);
}

#[test]
fn test_load_effective_address() {
    let mut vm = boot(&[0xE005]); // LEA R0, #5
    assert_eq!(vm.step(None), Ok(StepEffect::Continue));
    assert_eq!(vm.read_register(gp(0)), 0x3006);
    assert_eq!(vm.read_register(Registers::Condition), FL_POS);
}

#[test]
fn test_trap_getc_blocks_then_reads() {
    let mut vm = boot(&[0xF020]); // TRAP GETC
    assert_eq!(vm.step(None), Ok(StepEffect::NeedInput));
    assert_eq!(vm.read_register(gp(7)), 0x3001);
    // Without a byte the machine stays put and asks again.
    assert_eq!(vm.step(None), Ok(StepEffect::NeedInput));
    assert_eq!(vm.step(Some(97)), Ok(StepEffect::Continue));
    assert_eq!(vm.read_register(gp(0)), 97);
    assert_eq!(vm.read_register(Registers::Condition), FL_POS);
}

#[test]
fn test_trap_out_writes_low_byte() {
    let mut vm = boot(&[0xF021]); // TRAP OUT
    vm.update_register(gp(0), 0x0148);
    assert_eq!(vm.step(None), Ok(StepEffect::Output(0x48)));
}

#[test]
fn test_trap_puts_collects_until_zero() {
    let mut memory = Memory::new();
    memory.write_memory(0x3000, 0xF022); // TRAP PUTS
    memory.write_memory(0x4000, 72);
    memory.write_memory(0x4001, 105);
    memory.write_memory(0x4002, 0);
    let mut vm = VmCPU::new([0; 10], memory);
    vm.update_register(Registers::ProgramCounter, 0x3000);
    vm.update_register(gp(0), 0x4000);
    assert_eq!(vm.step(None), Ok(StepEffect::OutputString(vec![72, 105])));
}

#[test]
fn test_trap_puts_empty_string() {
    let mut vm = boot(&[0xF022]); // TRAP PUTS
    vm.update_register(gp(0), 0x4000);
    assert_eq!(vm.step(None), Ok(StepEffect::OutputString(Vec::new())));
}

#[test]
fn test_trap_errors() {
    let mut vm = boot(&[0xF030]);
    assert_eq!(vm.step(None), Err(VmError::InvalidTrapVector(0x30)));
    // The link register was still written: effects are not rolled back.
    assert_eq!(vm.read_register(gp(7)), 0x3001);

    let mut vm = boot(&[0xF023]); // TRAP IN, unsupported
    assert_eq!(vm.step(None), Err(VmError::UnimplementedOpcode(0x23)));

    let mut vm = boot(&[0xF024]); // TRAP PUTSP, unsupported
    assert_eq!(vm.step(None), Err(VmError::UnimplementedOpcode(0x24)));
}

#[test]
fn test_reserved_opcodes_are_errors() {
    let mut vm = boot(&[0x8123]);
    assert_eq!(vm.step(None), Err(VmError::UnimplementedOpcode(8)));

    let mut vm = boot(&[0xD555]);
    assert_eq!(vm.step(None), Err(VmError::UnimplementedOpcode(13)));
}

#[test]
fn test_keyboard_status_load_polls() {
    let mut vm = boot(&[0x6040, 0x6042]); // LDR R0, R1, #0; LDR R0, R1, #2
    vm.update_register(gp(1), KEY_BOARD_STATUS);
    let before = vm.memory().read_memory(0x3000);
    assert_eq!(vm.step(None), Ok(StepEffect::NeedInput));
    assert_eq!(vm.step(None), Ok(StepEffect::NeedInput));
    assert_eq!(vm.step(Some(65)), Ok(StepEffect::Continue));
    // The ready sentinel was stored and loaded; the byte sits in the data
    // register; other storage is untouched.
    assert_eq!(vm.read_register(gp(0)), 0x8000);
    assert_eq!(vm.read_register(Registers::Condition), FL_NEG);
    assert_eq!(vm.memory().read_memory(KEY_BOARD_STATUS), 0x8000);
    assert_eq!(vm.memory().read_memory(KEY_BOARD_DATA), 65);
    assert_eq!(vm.memory().read_memory(0x3000), before);
    // The data register is ordinary storage: reading it does not poll.
    assert_eq!(vm.step(None), Ok(StepEffect::Continue));
    assert_eq!(vm.read_register(gp(0)), 65);
}

#[test]
fn test_keyboard_poll_with_zero_byte() {
    let mut vm = boot(&[0x6040]); // LDR R0, R1, #0
    vm.update_register(gp(1), KEY_BOARD_STATUS);
    assert_eq!(vm.step(None), Ok(StepEffect::NeedInput));
    assert_eq!(vm.step(Some(0)), Ok(StepEffect::Continue));
    assert_eq!(vm.read_register(gp(0)), 0);
    assert_eq!(vm.read_register(Registers::Condition), FL_ZRO);
    assert_eq!(vm.memory().read_memory(KEY_BOARD_STATUS), 0);
}

#[test]
fn test_load_indirect_through_keyboard_status() {
    let mut memory = Memory::new();
    memory.write_memory(0x3000, 0xA001); // LDI R0, #1
    memory.write_memory(0x3002, KEY_BOARD_STATUS);
    let mut vm = VmCPU::new([0; 10], memory);
    vm.update_register(Registers::ProgramCounter, 0x3000);
    assert_eq!(vm.step(None), Ok(StepEffect::NeedInput));
    assert_eq!(vm.step(Some(7)), Ok(StepEffect::Continue));
    assert_eq!(vm.read_register(gp(0)), 0x8000);
    assert_eq!(vm.memory().read_memory(KEY_BOARD_DATA), 7);
}

#[test]
fn test_store_to_keyboard_status_is_passive() {
    let mut vm = boot(&[0x7040]); // STR R0, R1, #0
    vm.update_register(gp(0), 5);
    vm.update_register(gp(1), KEY_BOARD_STATUS);
    assert_eq!(vm.step(None), Ok(StepEffect::Continue));
    assert_eq!(vm.memory().read_memory(KEY_BOARD_STATUS), 5);
}

#[test]
fn test_fetch_from_keyboard_status_polls() {
    let mut vm = boot(&[]);
    vm.update_register(Registers::ProgramCounter, KEY_BOARD_STATUS);
    assert_eq!(vm.step(None), Ok(StepEffect::NeedInput));
    // A zero byte clears the status word, which then executes as a branch
    // with no test bits: never taken.
    assert_eq!(vm.step(Some(0)), Ok(StepEffect::Continue));
    assert_eq!(vm.read_register(Registers::ProgramCounter), 0xFE01);
}

#[test]
fn test_get_instruction_decodes_and_advances() {
    let mut vm = boot(&[0x5020]);
    let instruction = vm.get_instruction();
    assert!(matches!(instruction, Instructions::And { .. }));
    assert_eq!(vm.read_register(Registers::ProgramCounter), 0x3001);
}
