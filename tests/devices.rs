use vm::device::{AnyDevice, Read, Write};
use vm::instructions::constants::{HLT, MOV_LIT_MEM, MOV_LIT_REG};
use vm::instructions::{InstructionArguments, InstructionVariant};
use vm::memory::{Memory, MemoryMapper, MemoryRegion, MemoryRegionBuilderError};
use vm::registers::constants::R1;
use vm::registers::{Register, RegisterVariant};
use vm::screen_device::{ScreenCommand, ScreenDevice, ScreenWrite};
use vm::types::Fault;
use vm::cpu::Cpu;

#[test]
fn memory_starts_zeroed() {
    let memory = Memory::with_capacity(8);
    assert_eq!(memory.0, vec![0u8; 8]);
    assert_eq!(memory.get_range(), 0..=8);
}

#[test]
fn set_bytes_copies_from_zero() {
    let mut memory = Memory::with_capacity(4);
    memory.set_u8(3, 9).unwrap();
    memory.set_bytes(&[1, 2]);
    assert_eq!(memory.0, vec![1, 2, 0, 9]);
}

#[test]
fn word_round_trip_is_big_endian() {
    let mut memory = Memory::with_capacity(0x100);
    for addr in [0u16, 0x7F, 0xFE].iter() {
        for v in [0u16, 0x1234, 0xFFFF, 0x00FF, 0xFF00].iter() {
            memory.set_u16(*addr, *v).unwrap();
            assert_eq!(memory.get_u16(*addr), Ok(*v));
            assert_eq!(memory.get_u8(*addr), Ok((*v >> 8) as u8));
            assert_eq!(memory.get_u8(*addr + 1), Ok((*v & 0xFF) as u8));
        }
    }
}

#[test]
fn word_at_last_byte_is_out_of_bounds() {
    let mut memory = Memory::with_capacity(0x100);
    assert_eq!(memory.set_u16(0xFF, 0x1234), Err(Fault::OutOfBounds(0xFF)));
    assert_eq!(memory.get_u16(0xFF), Err(Fault::OutOfBounds(0xFF)));
    assert_eq!(memory.get_u8(0x100), Err(Fault::OutOfBounds(0x100)));
    assert_eq!(memory.set_u8(0x100, 1), Err(Fault::OutOfBounds(0x100)));
    assert_eq!(memory.0, vec![0u8; 0x100]);
}

#[test]
fn register_holds_a_word() {
    let mut register = Register::new();
    assert_eq!(register.get(), 0);
    register.set(0xBEEF);
    assert_eq!(register.get(), 0xBEEF);
    assert_eq!(register.get_u16(0), Ok(0xBEEF));
    assert_eq!(register.get_u8(1), Ok(0xEF));
    assert_eq!(register.get_u16(1), Err(Fault::OutOfBounds(1)));
}

#[test]
fn register_ids_round_trip() {
    for b in 0u8..=255 {
        match RegisterVariant::from_byte(b) {
            Ok(reg) => assert_eq!(reg.id(), b),
            Err(e) => {
                assert!(b >= 0x0C);
                assert_eq!(e, Fault::UnknownRegister(b));
            }
        }
    }
    assert_eq!(RegisterVariant::from_byte(0x0A), Ok(RegisterVariant::Sp));
}

#[test]
fn opcodes_round_trip() {
    let mut count = 0;
    for b in 0u8..=255 {
        match InstructionVariant::from_byte(b) {
            Ok(v) => {
                count += 1;
                assert_eq!(v.to_byte(), b);
            }
            Err(e) => assert_eq!(e, Fault::UnknownOpcode(b)),
        }
    }
    assert_eq!(count, 46);
    assert_eq!(InstructionVariant::from_byte(0x3F), Ok(InstructionVariant::AddLitReg));
    assert_eq!(InstructionVariant::from_byte(0xFF), Ok(InstructionVariant::Halt));
}

#[test]
fn mnemonics_and_shapes() {
    assert_eq!(InstructionVariant::MoveLitOffReg.as_str(), "mov");
    assert_eq!(InstructionVariant::JumpLteLit.as_str(), "jle");
    assert_eq!(InstructionVariant::CallReg.as_str(), "cal");
    let shape = InstructionArguments::from_variant(InstructionVariant::MoveLitOffReg);
    assert_eq!(shape, InstructionArguments::LitOffReg);
    assert_eq!(shape.bytes(), 4);
    assert_eq!(InstructionArguments::from_variant(InstructionVariant::JumpEqReg), InstructionArguments::RegMem);
    assert_eq!(InstructionArguments::from_variant(InstructionVariant::Halt).bytes(), 0);
    assert_eq!(InstructionArguments::from_variant(InstructionVariant::Pop).bytes(), 1);
}

#[test]
fn builder_requires_device_and_range() {
    let missing_device = MemoryRegion::builder().range(0..=1).finalize();
    assert_eq!(missing_device.err(), Some(MemoryRegionBuilderError::MissingDevice));
    let missing_range = MemoryRegion::builder().device(AnyDevice::Memory(Memory::with_capacity(1))).finalize();
    assert_eq!(missing_range.err(), Some(MemoryRegionBuilderError::MissingRange));
    let empty = MemoryRegion::builder()
        .device(AnyDevice::Memory(Memory::with_capacity(1)))
        .range(5..=4)
        .finalize();
    assert_eq!(empty.err(), Some(MemoryRegionBuilderError::EmptyRange));
    let single = MemoryRegion::builder()
        .device(AnyDevice::Memory(Memory::with_capacity(1)))
        .range(4..=4)
        .should_remap(false)
        .finalize()
        .unwrap();
    assert!(single.covers(4));
    assert!(!single.covers(5));
    assert_eq!(MemoryRegionBuilderError::MissingRange.message(), "missing field `range`");
}

#[test]
fn screen_records_cells() {
    let mut screen = ScreenDevice::new();
    assert_eq!(screen.set_u16(0x23, 0x0141), Ok(()));
    assert_eq!(screen.set_u16(0x05, 0x0042), Ok(()));
    assert_eq!(screen.set_u16(0x05, 0x0342), Err(Fault::UnknownScreenCommand(0x03)));
    assert_eq!(screen.get_u16(0x05), Err(Fault::UnsupportedAccess(0x05)));
    assert_eq!(screen.set_u8(0x05, 1), Err(Fault::UnsupportedAccess(0x05)));
    let cells = screen.take_writes();
    assert_eq!(
        cells,
        vec![
            ScreenWrite { command: ScreenCommand::Bold, x: 3, y: 2, ch: 0x41 },
            ScreenWrite { command: ScreenCommand::Keep, x: 5, y: 0, ch: 0x42 },
        ]
    );
    assert!(screen.take_writes().is_empty());
}

#[test]
fn screen_behind_the_mapper() {
    let mut memory = Memory::with_capacity(0x3000);
    memory.set_bytes(&[MOV_LIT_MEM, 0xFF, 0x21, 0x30, 0x12, MOV_LIT_REG, 0x00, 0x07, R1, HLT]);
    let mut mapper = MemoryMapper::new();
    mapper.add_region(MemoryRegion::builder().device(AnyDevice::Screen(ScreenDevice::new())).range(0x3000..=0x30FF).finalize().unwrap());
    mapper.add_region(MemoryRegion::builder().device(AnyDevice::Memory(memory)).range(0x0000..=0x2FFF).finalize().unwrap());
    let mut cpu = Cpu::from_mapper(mapper);
    assert_eq!(cpu.run(), Ok(()));
    assert_eq!(cpu.get_register_val(RegisterVariant::R1), 7);
    let region = cpu.mapper_mut().find_region_from_addr_mut(0x3012);
    let cells = match &mut region.device {
        AnyDevice::Screen(screen) => screen.take_writes(),
        _ => Vec::new(),
    };
    assert_eq!(cells, vec![ScreenWrite { command: ScreenCommand::Clear, x: 2, y: 1, ch: 0x21 }]);
}
