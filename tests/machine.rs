use vm::cpu::Cpu;
use vm::device::{AnyDevice, Read, Write};
use vm::instructions::constants::{
    ADD_REG_REG, AND_REG_LIT, CAL_LIT, DEC_REG, HLT, INC_REG, JNE_LIT, LSF_REG_LIT, MOV_LIT_OFF_REG, MOV_LIT_REG,
    MOV_MEM_REG, MOV_REG_MEM, MOV_REG_PTR_REG, MUL_REG_REG, NOT, OR_REG_REG, POP, PSH_LIT, RET, RSF_REG_REG,
    SUB_REG_REG, XOR_REG_LIT,
};
use vm::memory::{Memory, MemoryMapper, MemoryRegion};
use vm::registers::constants::{ACC, R1, R2, R3, R4, R8};
use vm::registers::RegisterVariant;
use vm::types::Fault;

fn load(program: &[u8]) -> Cpu {
    let mut memory = Memory::with_capacity(0x10000);
    memory.set_bytes(program);
    Cpu::from(memory)
}

fn all_registers() -> Vec<RegisterVariant> {
    vec![
        RegisterVariant::Ip,
        RegisterVariant::Acc,
        RegisterVariant::R1,
        RegisterVariant::R2,
        RegisterVariant::R3,
        RegisterVariant::R4,
        RegisterVariant::R5,
        RegisterVariant::R6,
        RegisterVariant::R7,
        RegisterVariant::R8,
        RegisterVariant::Sp,
        RegisterVariant::Fp,
    ]
}

#[test]
fn power_on_registers() {
    let cpu = load(&[]);
    for reg in all_registers() {
        let expected = match reg {
            RegisterVariant::Sp | RegisterVariant::Fp => 0xFFFE,
            _ => 0,
        };
        assert_eq!(cpu.get_register_val(reg), expected);
    }
}

#[test]
fn add_wraps_around() {
    let mut cpu = load(&[MOV_LIT_REG, 0xFF, 0xFF, R1, MOV_LIT_REG, 0x00, 0x02, R2, ADD_REG_REG, R1, R2]);
    for _ in 0..3 {
        assert_eq!(cpu.step(), Ok(false));
    }
    assert_eq!(cpu.get_register_val(RegisterVariant::Acc), 0x0001);
}

#[test]
fn end_to_end_add() {
    let mut cpu = load(&[MOV_LIT_REG, 0x12, 0x34, R1, MOV_LIT_REG, 0xAB, 0xCD, R2, ADD_REG_REG, R1, R2]);
    cpu.step().unwrap();
    cpu.step().unwrap();
    cpu.step().unwrap();
    assert_eq!(cpu.get_register_val(RegisterVariant::Acc), 0xBE01);
    assert_eq!(cpu.get_register_val(RegisterVariant::Ip), 11);
}

#[test]
fn end_to_end_counting_loop() {
    let program = [
        MOV_MEM_REG, 0x01, 0x00, R1, MOV_LIT_REG, 0x00, 0x01, R2, ADD_REG_REG, R1, R2, MOV_REG_MEM, ACC, 0x01,
        0x00, JNE_LIT, 0x00, 0x03, 0x00, 0x00, HLT,
    ];
    let mut cpu = load(&program);
    assert_eq!(cpu.run(), Ok(()));
    assert_eq!(cpu.get_u16(0x0100), Ok(0x0003));
    assert_eq!(cpu.get_register_val(RegisterVariant::Ip), 0x0015);
}

#[test]
fn halt_only_program() {
    let mut cpu = load(&[HLT]);
    assert_eq!(cpu.run(), Ok(()));
    assert_eq!(cpu.get_register_val(RegisterVariant::Ip), 1);
    for reg in all_registers() {
        if reg != RegisterVariant::Ip {
            let expected = match reg {
                RegisterVariant::Sp | RegisterVariant::Fp => 0xFFFE,
                _ => 0,
            };
            assert_eq!(cpu.get_register_val(reg), expected);
        }
    }
}

#[test]
fn step_reports_halt() {
    let mut cpu = load(&[HLT]);
    assert_eq!(cpu.step(), Ok(true));
}

#[test]
fn stack_restores_in_reverse() {
    let mut program = Vec::new();
    let values: [u16; 5] = [0x1111, 0x2222, 0x3333, 0x4444, 0x5555];
    for v in values.iter() {
        program.push(PSH_LIT);
        program.push((v >> 8) as u8);
        program.push((v & 0xFF) as u8);
    }
    for reg in [R1, R2, R3, R4, R8].iter() {
        program.push(POP);
        program.push(*reg);
    }
    program.push(HLT);
    let mut cpu = load(&program);
    let sp_before = cpu.get_register_val(RegisterVariant::Sp);
    assert_eq!(cpu.run(), Ok(()));
    assert_eq!(cpu.get_register_val(RegisterVariant::R1), 0x5555);
    assert_eq!(cpu.get_register_val(RegisterVariant::R2), 0x4444);
    assert_eq!(cpu.get_register_val(RegisterVariant::R3), 0x3333);
    assert_eq!(cpu.get_register_val(RegisterVariant::R4), 0x2222);
    assert_eq!(cpu.get_register_val(RegisterVariant::R8), 0x1111);
    assert_eq!(cpu.get_register_val(RegisterVariant::Sp), sp_before);
}

#[test]
fn call_return_keeps_caller_registers() {
    let mut memory = Memory::with_capacity(0x10000);
    memory.set_bytes(&[MOV_LIT_REG, 0x12, 0x34, R1, MOV_LIT_REG, 0x56, 0x78, R4, PSH_LIT, 0x00, 0x00, CAL_LIT, 0x30, 0x00, HLT]);
    for (i, b) in [MOV_LIT_REG, 0x07, 0x08, R1, MOV_LIT_REG, 0x09, 0x0A, R8, RET].iter().enumerate() {
        memory.set_u8(0x3000 + i as u16, *b).unwrap();
    }
    let mut cpu = Cpu::from(memory);
    let sp_before = cpu.get_register_val(RegisterVariant::Sp);
    assert_eq!(cpu.run(), Ok(()));
    assert_eq!(cpu.get_register_val(RegisterVariant::R1), 0x1234);
    assert_eq!(cpu.get_register_val(RegisterVariant::R4), 0x5678);
    assert_eq!(cpu.get_register_val(RegisterVariant::R8), 0x0000);
    assert_eq!(cpu.get_register_val(RegisterVariant::Ip), 15);
    assert_eq!(cpu.get_register_val(RegisterVariant::Sp), sp_before);
}

#[test]
fn call_frame_layout() {
    let mut memory = Memory::with_capacity(0x10000);
    memory.set_bytes(&[MOV_LIT_REG, 0xAA, 0xBB, R1, CAL_LIT, 0x01, 0x00]);
    let mut cpu = Cpu::from(memory);
    cpu.step().unwrap();
    cpu.step().unwrap();
    assert_eq!(cpu.get_register_val(RegisterVariant::Ip), 0x0100);
    assert_eq!(cpu.get_u16(0xFFFE), Ok(0xAABB));
    assert_eq!(cpu.get_u16(0xFFFE - 14), Ok(0x0000));
    assert_eq!(cpu.get_u16(0xFFFE - 16), Ok(0x0007));
    assert_eq!(cpu.get_u16(0xFFFE - 18), Ok(20));
    assert_eq!(cpu.get_register_val(RegisterVariant::Fp), 0xFFFE - 20);
    assert_eq!(cpu.get_register_val(RegisterVariant::Sp), 0xFFFE - 20);
}

#[test]
fn arithmetic_and_logic_results() {
    let mut cpu = load(&[
        MOV_LIT_REG, 0x00, 0x05, R1, MOV_LIT_REG, 0x00, 0x07, R2, SUB_REG_REG, R1, R2, MOV_REG_MEM, ACC, 0x01, 0x00,
        MUL_REG_REG, R1, R2, MOV_REG_MEM, ACC, 0x01, 0x02, OR_REG_REG, R1, R2, MOV_REG_MEM, ACC, 0x01, 0x04,
        XOR_REG_LIT, R1, 0x00, 0x0F, MOV_REG_MEM, ACC, 0x01, 0x06, AND_REG_LIT, R2, 0x00, 0x03, HLT,
    ]);
    assert_eq!(cpu.run(), Ok(()));
    assert_eq!(cpu.get_u16(0x0100), Ok(0xFFFE));
    assert_eq!(cpu.get_u16(0x0102), Ok(35));
    assert_eq!(cpu.get_u16(0x0104), Ok(0x0007));
    assert_eq!(cpu.get_u16(0x0106), Ok(0x000A));
    assert_eq!(cpu.get_register_val(RegisterVariant::Acc), 0x0003);
}

#[test]
fn register_operations_write_back() {
    let mut cpu = load(&[
        MOV_LIT_REG, 0x80, 0x01, R1, LSF_REG_LIT, R1, 0x00, 0x01, MOV_LIT_REG, 0x00, 0x04, R2, RSF_REG_REG, R2, R2,
        NOT, R3, INC_REG, R4, DEC_REG, R8, HLT,
    ]);
    assert_eq!(cpu.run(), Ok(()));
    assert_eq!(cpu.get_register_val(RegisterVariant::R1), 0x0002);
    assert_eq!(cpu.get_register_val(RegisterVariant::R2), 0x0000);
    assert_eq!(cpu.get_register_val(RegisterVariant::R3), 0xFFFF);
    assert_eq!(cpu.get_register_val(RegisterVariant::R4), 0x0001);
    assert_eq!(cpu.get_register_val(RegisterVariant::R8), 0xFFFF);
}

#[test]
fn pointer_and_offset_moves() {
    let mut memory = Memory::with_capacity(0x10000);
    memory.set_bytes(&[MOV_LIT_REG, 0x02, 0x00, R1, MOV_REG_PTR_REG, R1, R2, MOV_LIT_REG, 0x00, 0x02, R3, MOV_LIT_OFF_REG, 0x02, 0x00, R3, R4, HLT]);
    memory.set_u16(0x0200, 0xCAFE).unwrap();
    memory.set_u16(0x0202, 0xBEEF).unwrap();
    let mut cpu = Cpu::from(memory);
    assert_eq!(cpu.run(), Ok(()));
    assert_eq!(cpu.get_register_val(RegisterVariant::R2), 0xCAFE);
    assert_eq!(cpu.get_register_val(RegisterVariant::R4), 0xBEEF);
}

#[test]
fn unknown_opcode_faults() {
    let mut cpu = load(&[0x00]);
    assert_eq!(cpu.step(), Err(Fault::UnknownOpcode(0x00)));
}

#[test]
fn unknown_register_faults() {
    let mut cpu = load(&[MOV_LIT_REG, 0x00, 0x01, 0x0C]);
    assert_eq!(cpu.step(), Err(Fault::UnknownRegister(0x0C)));
}

#[test]
fn fetch_past_capacity_faults() {
    let mut memory = Memory::with_capacity(2);
    memory.set_bytes(&[MOV_LIT_REG, 0x00]);
    let mut cpu = Cpu::from(memory);
    assert_eq!(cpu.step(), Err(Fault::OutOfBounds(0x0001)));
}

#[test]
fn unmapped_address_faults() {
    let mut memory = Memory::with_capacity(0x10);
    memory.set_bytes(&[MOV_MEM_REG, 0x10, 0x00, R1]);
    let mut cpu = Cpu::from(memory);
    assert_eq!(cpu.step(), Err(Fault::Unmapped(0x1000)));
}

#[test]
fn run_for_stops_at_its_budget() {
    let mut cpu = load(&[JNE_LIT, 0x00, 0x01, 0x00, 0x00]);
    assert_eq!(cpu.run_for(3), Ok(false));
    assert_eq!(cpu.get_register_val(RegisterVariant::Ip), 0);
}

#[test]
fn first_added_region_wins() {
    let mut a = Memory::with_capacity(0x100);
    a.set_u8(0x10, 0xAA).unwrap();
    let mut b = Memory::with_capacity(0x100);
    b.set_u8(0x10, 0xBB).unwrap();
    let mut mapper = MemoryMapper::new();
    mapper.add_region(MemoryRegion::builder().device(AnyDevice::Memory(a)).range(0x00..=0xFF).finalize().unwrap());
    mapper.add_region(MemoryRegion::builder().device(AnyDevice::Memory(b)).range(0x00..=0xFF).finalize().unwrap());
    assert_eq!(mapper.get_u8(0x10), Ok(0xAA));
    assert_eq!(mapper.find_index(0x10), Some(0));
    let region = mapper.find_region_from_addr(0x10).unwrap();
    assert_eq!(region.get_u8(0x10), Ok(0xAA));
    mapper.set_u8(0x10, 0xCC).unwrap();
    assert_eq!(mapper.get_u8(0x10), Ok(0xCC));
    assert_eq!(mapper.find_region_from_addr(0x100).err(), Some(Fault::Unmapped(0x100)));
}

#[test]
fn second_region_answers_outside_the_first() {
    let mut a = Memory::with_capacity(0x100);
    a.set_u8(0x80, 0xAA).unwrap();
    let mut b = Memory::with_capacity(0x200);
    b.set_u8(0x180, 0xBB).unwrap();
    let mut mapper = MemoryMapper::new();
    mapper.add_region(MemoryRegion::builder().device(AnyDevice::Memory(a)).range(0x00..=0xFF).finalize().unwrap());
    mapper.add_region(MemoryRegion::builder().device(AnyDevice::Memory(b)).range(0x100..=0x1FF).finalize().unwrap());
    assert_eq!(mapper.get_u8(0x180), Ok(0xBB));
    let region = mapper.find_region_from_addr_mut(0x180);
    region.set_u8(0x181, 0x11).unwrap();
    assert_eq!(mapper.get_u8(0x181), Ok(0x11));
    assert_eq!(mapper.get_u8(0x80), Ok(0xAA));
}
