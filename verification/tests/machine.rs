use x86emu::emulator::{
    Emulator, HaltReason, RunOutcome, StepEvent, MEMORY_SIZE, REG_EAX, REG_EBP, REG_EBX, REG_ECX,
    REG_ESP,
};
use x86emu::fault::Fault;
use x86emu::memory::Memory;

const LOAD: u32 = 0x7c00;

const CARRY: u32 = 1 << 1;
const ZERO: u32 = 1 << 6;
const SIGN: u32 = 1 << 7;
const OVERFLOW: u32 = 1 << 11;

fn boot(prog: &[u8]) -> Emulator {
    let mut emu = Emulator::new(MEMORY_SIZE, LOAD, LOAD);
    emu.mem.load_bin(prog, LOAD as usize).unwrap();
    emu
}

#[test]
fn reg_write_read_roundtrip() {
    let mut emu = Emulator::new(0x1000, 0, 0);
    for i in 0..8 {
        emu.write_reg(i, 0x1234_0000 + i as u32);
    }
    for i in 0..8 {
        assert_eq!(emu.read_reg(i), 0x1234_0000 + i as u32);
    }
}

#[test]
fn mem_u32_roundtrip() {
    let mut mem = Memory::new(0x1000);
    mem.write_u32(0x10, 0x12345678);
    assert_eq!(mem.read_u32(0x10), 0x12345678);
    mem.write_u32(0, 0xFFFF_FFFF);
    assert_eq!(mem.read_u32(0), 0xFFFF_FFFF);
    mem.write_u32(0xFFC, 0);
    assert_eq!(mem.read_u32(0xFFC), 0);
}

#[test]
fn mem_little_endian_bytes() {
    let mut mem = Memory::new(0x100);
    mem.write_u32(4, 0x12345678);
    assert_eq!(mem.read_u8(4), 0x78);
    assert_eq!(mem.read_u8(5), 0x56);
    assert_eq!(mem.read_u8(6), 0x34);
    assert_eq!(mem.read_u8(7), 0x12);
}

#[test]
fn mem_signed_reads() {
    let mut mem = Memory::new(0x100);
    mem.write_u32(0, 0xFFFF_FFFE);
    assert_eq!(mem.read_i8(0), -2);
    assert_eq!(mem.read_i32(0), -2);
    mem.write_u32(8, 0x7F);
    assert_eq!(mem.read_i8(8), 127);
    assert_eq!(mem.read_i32(8), 127);
}

#[test]
fn load_bin_rejects_overflow() {
    let mut mem = Memory::new(0x10);
    assert_eq!(mem.load_bin(&[1, 2], 0xF), Err(Fault::OutOfBounds));
    assert_eq!(mem.read_u8(0xF), 0);
    assert!(mem.load_bin(&[1, 2], 0xE).is_ok());
    assert_eq!(mem.read_u8(0xE), 1);
    assert_eq!(mem.read_u8(0xF), 2);
}

#[test]
fn push_pop_restores_pointer_and_value() {
    let mut emu = Emulator::new(0x1000, 0, 0x800);
    emu.push(0xDEAD_BEEF).unwrap();
    assert_eq!(emu.read_reg(REG_ESP), 0x7FC);
    let v = emu.pop().unwrap();
    assert_eq!(v, 0xDEAD_BEEF);
    assert_eq!(emu.read_reg(REG_ESP), 0x800);
}

#[test]
fn push_fails_when_stack_pointer_too_low() {
    let mut emu = Emulator::new(0x1000, 0, 2);
    assert_eq!(emu.push(7), Err(Fault::OutOfBounds));
    assert_eq!(emu.read_reg(REG_ESP), 2);
}

#[test]
fn mov_eax_imm32_one_step() {
    let mut emu = boot(&[0xB8, 0x78, 0x56, 0x34, 0x12]);
    assert_eq!(emu.step(), Ok(StepEvent::Running));
    assert_eq!(emu.read_reg(REG_EAX), 0x12345678);
    assert_eq!(emu.eip, LOAD + 5);
}

#[test]
fn short_jump_minus_two_lands_on_itself() {
    let mut emu = boot(&[0xEB, 0xFE]);
    assert_eq!(emu.step(), Ok(StepEvent::Running));
    assert_eq!(emu.eip, LOAD);
}

#[test]
fn exec_stops_at_step_budget() {
    let mut emu = boot(&[0xEB, 0xFE]);
    assert_eq!(emu.exec(5), Ok(RunOutcome::OutOfSteps));
    assert_eq!(emu.eip, LOAD);
}

#[test]
fn jmp_to_zero_halts_naturally() {
    // JMP rel32 with displacement -(LOAD + 5): the target is address 0.
    let mut emu = boot(&[0xE9, 0xFB, 0x83, 0xFF, 0xFF]);
    assert_eq!(emu.exec(10), Ok(RunOutcome::Halted(HaltReason::NaturalEnd)));
    assert_eq!(emu.eip, 0);
}

#[test]
fn unknown_opcode_halts_without_touching_state() {
    let mut emu = boot(&[0x90]);
    assert_eq!(
        emu.exec(10),
        Ok(RunOutcome::Halted(HaltReason::UnknownOpcode))
    );
    assert_eq!(emu.eip, LOAD);
    assert_eq!(emu.eflags, 0);
    for i in 0..8 {
        assert_eq!(emu.read_reg(i), if i == 4 { LOAD } else { 0 });
    }
    assert_eq!(emu.mem.read_u8(LOAD), 0x90);
    assert_eq!(emu.mem.read_u8(0), 0);
}

#[test]
fn instruction_pointer_out_of_range_halts() {
    let mut emu = Emulator::new(0x1000, 0x1000, 0x800);
    assert_eq!(
        emu.exec(10),
        Ok(RunOutcome::Halted(HaltReason::IpOutOfRange))
    );
}

#[test]
fn call_then_ret_comes_back() {
    // CALL +3 (target LOAD+8), where a RET waits; the return lands at LOAD+5.
    let mut emu = boot(&[0xE8, 0x03, 0x00, 0x00, 0x00, 0x00, 0x00, 0x00, 0xC3]);
    assert_eq!(emu.step(), Ok(StepEvent::Running));
    assert_eq!(emu.eip, LOAD + 8);
    assert_eq!(emu.read_reg(REG_ESP), LOAD - 4);
    assert_eq!(emu.mem.read_u32(LOAD - 4), LOAD + 5);
    assert_eq!(emu.step(), Ok(StepEvent::Running));
    assert_eq!(emu.eip, LOAD + 5);
    assert_eq!(emu.read_reg(REG_ESP), LOAD);
}

#[test]
fn ret_to_zero_is_natural_end() {
    // The stack holds zeroed memory: RET pops 0 and the machine ends.
    let mut emu = Emulator::new(MEMORY_SIZE, LOAD, 0x7000);
    emu.mem.load_bin(&[0xC3], LOAD as usize).unwrap();
    assert_eq!(emu.exec(10), Ok(RunOutcome::Halted(HaltReason::NaturalEnd)));
    assert_eq!(emu.eip, 0);
    assert_eq!(emu.read_reg(REG_ESP), 0x7004);
}

#[test]
fn push_imm8_zero_extends() {
    let mut emu = boot(&[0x6A, 0xFF]);
    assert_eq!(emu.step(), Ok(StepEvent::Running));
    assert_eq!(emu.read_reg(REG_ESP), LOAD - 4);
    assert_eq!(emu.mem.read_u32(LOAD - 4), 0xFF);
    assert_eq!(emu.eip, LOAD + 2);
}

#[test]
fn push_imm32_then_pop_into_register() {
    let mut emu = boot(&[0x68, 0x78, 0x56, 0x34, 0x12, 0x59]);
    assert_eq!(emu.step(), Ok(StepEvent::Running));
    assert_eq!(emu.step(), Ok(StepEvent::Running));
    assert_eq!(emu.read_reg(REG_ECX), 0x12345678);
    assert_eq!(emu.read_reg(REG_ESP), LOAD);
}

#[test]
fn push_r32_then_pop_r32() {
    let mut emu = boot(&[0x50, 0x5B]);
    emu.write_reg(REG_EAX, 0xCAFE_F00D);
    assert_eq!(emu.step(), Ok(StepEvent::Running));
    assert_eq!(emu.step(), Ok(StepEvent::Running));
    assert_eq!(emu.read_reg(REG_EBX), 0xCAFE_F00D);
    assert_eq!(emu.read_reg(REG_ESP), LOAD);
}

#[test]
fn pop_into_stack_pointer_keeps_popped_value() {
    // PUSH imm32 then POP ESP: the popped value wins over the increment.
    let mut emu = boot(&[0x68, 0x00, 0x70, 0x00, 0x00, 0x5C]);
    assert_eq!(emu.step(), Ok(StepEvent::Running));
    assert_eq!(emu.step(), Ok(StepEvent::Running));
    assert_eq!(emu.read_reg(REG_ESP), 0x7000);
}

#[test]
fn near_jump_forward() {
    // JMP rel32 +0x10 from LOAD lands at LOAD + 5 + 0x10.
    let mut emu = boot(&[0xE9, 0x10, 0x00, 0x00, 0x00]);
    assert_eq!(emu.step(), Ok(StepEvent::Running));
    assert_eq!(emu.eip, LOAD + 0x15);
}

#[test]
fn mov_rm32_r32_register_direct() {
    // MOV EAX, ECX through opcode 0x89 (destination coded in rm).
    let mut emu = boot(&[0x89, 0xC8]);
    emu.write_reg(REG_ECX, 0x55AA_55AA);
    assert_eq!(emu.step(), Ok(StepEvent::Running));
    assert_eq!(emu.read_reg(REG_EAX), 0x55AA_55AA);
}

#[test]
fn mov_register_direct() {
    // MOV EAX, ECX through the ModRM register-direct mode.
    let mut emu = boot(&[0x8B, 0xC1]);
    emu.write_reg(REG_ECX, 7);
    assert_eq!(emu.step(), Ok(StepEvent::Running));
    assert_eq!(emu.read_reg(REG_EAX), 7);
    assert_eq!(emu.eip, LOAD + 2);
}

#[test]
fn mov_store_then_load_with_disp8() {
    // MOV [EAX+8], imm32; then MOV EBX, [EAX+8].
    let mut emu = boot(&[
        0xC7, 0x40, 0x08, 0xEF, 0xBE, 0xAD, 0xDE, 0x8B, 0x58, 0x08,
    ]);
    emu.write_reg(REG_EAX, 0x8000);
    assert_eq!(emu.step(), Ok(StepEvent::Running));
    assert_eq!(emu.mem.read_u32(0x8008), 0xDEAD_BEEF);
    assert_eq!(emu.eip, LOAD + 7);
    assert_eq!(emu.step(), Ok(StepEvent::Running));
    assert_eq!(emu.read_reg(REG_EBX), 0xDEAD_BEEF);
}

#[test]
fn mov_store_with_negative_disp8() {
    // MOV [EAX-4], ECX.
    let mut emu = boot(&[0x89, 0x48, 0xFC]);
    emu.write_reg(REG_EAX, 0x9000);
    emu.write_reg(REG_ECX, 0x1122_3344);
    assert_eq!(emu.step(), Ok(StepEvent::Running));
    assert_eq!(emu.mem.read_u32(0x8FFC), 0x1122_3344);
}

#[test]
fn mov_absolute_disp32() {
    // MOV [0x9000], imm32 through the absolute "disp32 only" pattern.
    let mut emu = boot(&[
        0xC7, 0x05, 0x00, 0x90, 0x00, 0x00, 0x44, 0x33, 0x22, 0x11,
    ]);
    assert_eq!(emu.step(), Ok(StepEvent::Running));
    assert_eq!(emu.mem.read_u32(0x9000), 0x1122_3344);
    assert_eq!(emu.eip, LOAD + 10);
}

#[test]
fn add_rm32_r32_wraps_and_leaves_flags() {
    // ADD EAX, ECX; full-width ADD deliberately leaves the flags alone.
    let mut emu = boot(&[0x01, 0xC8]);
    emu.write_reg(REG_EAX, 0xFFFF_FFFF);
    emu.write_reg(REG_ECX, 2);
    assert_eq!(emu.step(), Ok(StepEvent::Running));
    assert_eq!(emu.read_reg(REG_EAX), 1);
    assert_eq!(emu.eflags, 0);
}

#[test]
fn inc_wraps_around() {
    let mut emu = boot(&[0xFF, 0xC0]);
    emu.write_reg(REG_EAX, 0xFFFF_FFFF);
    assert_eq!(emu.step(), Ok(StepEvent::Running));
    assert_eq!(emu.read_reg(REG_EAX), 0);
    assert_eq!(emu.eflags, 0);
}

#[test]
fn cmp_equal_values_sets_only_zero() {
    // CMP EAX, 5 with EAX = 5.
    let mut emu = boot(&[0x83, 0xF8, 0x05]);
    emu.write_reg(REG_EAX, 5);
    assert_eq!(emu.step(), Ok(StepEvent::Running));
    assert_eq!(emu.eflags & ZERO, ZERO);
    assert_eq!(emu.eflags & CARRY, 0);
    assert_eq!(emu.eflags & SIGN, 0);
    assert_eq!(emu.eflags & OVERFLOW, 0);
    assert_eq!(emu.read_reg(REG_EAX), 5);
}

#[test]
fn cmp_zero_against_one_borrows() {
    // CMP EAX, ECX with EAX = 0, ECX = 1: 0 - 1 borrows.
    let mut emu = boot(&[0x3B, 0xC1]);
    emu.write_reg(REG_EAX, 0);
    emu.write_reg(REG_ECX, 1);
    emu.cmp_r32_rm32().unwrap();
    assert_eq!(emu.eflags & CARRY, CARRY);
    assert_eq!(emu.eflags & ZERO, 0);
    assert_eq!(emu.eflags & SIGN, SIGN);
}

#[test]
fn group83_add_with_negative_immediate() {
    // ADD EAX, -2 with EAX = 5: result 3, carry out of bit 32, no overflow.
    let mut emu = boot(&[0x83, 0xC0, 0xFE]);
    emu.write_reg(REG_EAX, 5);
    assert_eq!(emu.step(), Ok(StepEvent::Running));
    assert_eq!(emu.read_reg(REG_EAX), 3);
    assert_eq!(emu.eflags & CARRY, CARRY);
    assert_eq!(emu.eflags & ZERO, 0);
    assert_eq!(emu.eflags & SIGN, 0);
    assert_eq!(emu.eflags & OVERFLOW, 0);
}

#[test]
fn group83_sub_borrows_below_zero() {
    // SUB EAX, 1 with EAX = 0.
    let mut emu = boot(&[0x83, 0xE8, 0x01]);
    assert_eq!(emu.step(), Ok(StepEvent::Running));
    assert_eq!(emu.read_reg(REG_EAX), 0xFFFF_FFFF);
    assert_eq!(emu.eflags & CARRY, CARRY);
    assert_eq!(emu.eflags & ZERO, 0);
    assert_eq!(emu.eflags & SIGN, SIGN);
}

#[test]
fn group83_cmp_leaves_operand() {
    // CMP [EAX], 1 with [EAX] = 9: memory operand is read, not written.
    let mut emu = boot(&[0x83, 0x38, 0x01]);
    emu.write_reg(REG_EAX, 0x8000);
    emu.mem.write_u32(0x8000, 9);
    assert_eq!(emu.step(), Ok(StepEvent::Running));
    assert_eq!(emu.mem.read_u32(0x8000), 9);
    assert_eq!(emu.eflags & ZERO, 0);
    assert_eq!(emu.eflags & CARRY, 0);
}

#[test]
fn leave_restores_frame() {
    let mut emu = boot(&[0xC9]);
    emu.write_reg(REG_EBP, 0x7B00);
    emu.mem.write_u32(0x7B00, 0x7C50);
    assert_eq!(emu.step(), Ok(StepEvent::Running));
    assert_eq!(emu.read_reg(REG_ESP), 0x7B04);
    assert_eq!(emu.read_reg(REG_EBP), 0x7C50);
    assert_eq!(emu.eip, LOAD + 1);
}

#[test]
fn sib_addressing_faults() {
    // MOV EAX, [..] with rm = 100: the mode needs the SIB byte resolved.
    let mut emu = boot(&[0x8B, 0x04, 0x00]);
    assert_eq!(emu.step(), Err(Fault::SibUnsupported));
}

#[test]
fn group83_bad_selector_faults() {
    let mut emu = boot(&[0x83, 0xD8, 0x01]);
    assert_eq!(emu.step(), Err(Fault::GroupUnsupported));
}

#[test]
fn group_ff_bad_selector_faults() {
    let mut emu = boot(&[0xFF, 0xC8]);
    assert_eq!(emu.step(), Err(Fault::GroupUnsupported));
}

#[test]
fn immediate_past_end_of_memory_faults() {
    let mut emu = Emulator::new(0x100, 0xFF, 0x80);
    emu.mem.load_bin(&[0xB8], 0xFF).unwrap();
    assert_eq!(emu.step(), Err(Fault::OutOfBounds));
}

#[test]
fn push_without_stack_room_faults() {
    let mut emu = Emulator::new(0x1000, 0x10, 2);
    emu.mem.load_bin(&[0x50], 0x10).unwrap();
    assert_eq!(emu.step(), Err(Fault::OutOfBounds));
}

#[test]
fn store_out_of_bounds_faults() {
    // MOV [EAX], imm32 with EAX pointing past the end of memory.
    let mut emu = boot(&[0xC7, 0x00, 0x01, 0x02, 0x03, 0x04]);
    emu.write_reg(REG_EAX, MEMORY_SIZE - 2);
    assert_eq!(emu.step(), Err(Fault::OutOfBounds));
}
