use vm::cpu::Cpu;
use vm::device::Write;
use vm::instructions::constants::{
    ADD_REG_REG, CAL_LIT, JNE_LIT, MOV_LIT_REG, MOV_MEM_REG, MOV_REG_MEM, POP, PSH_LIT, PSH_REG, RET,
};
use vm::memory::Memory;
use vm::registers::constants::{ACC, R1, R2, R4, R8};
use vm::registers::RegisterVariant;
use vm::types::Addr;

#[test]
fn can_fetch_u8() {
    let mut cpu = Cpu::from(Memory::with_capacity(0x100));
    assert_eq!(cpu.fetch_u8(), Ok(0));
}

#[test]
fn can_fetch_u16() {
    let mut cpu = Cpu::from(Memory::with_capacity(0x100));
    assert_eq!(cpu.fetch_u16(), Ok(0));
}

#[test]
fn can_move_lit_reg() {
    let mut memory = Memory::with_capacity(0x100);

    // move lit (0x1234) reg (r1)
    memory.set_u8(0x0000, MOV_LIT_REG).unwrap();
    memory.set_u8(0x0001, 0x12).unwrap();
    memory.set_u8(0x0002, 0x34).unwrap();
    memory.set_u8(0x0003, R1).unwrap();

    let mut cpu = Cpu::from(memory);
    cpu.step().unwrap();


    assert_eq!(cpu.get_register_val(RegisterVariant::R1), 0x1234);
}

#[test]
fn can_add() {
    let mut memory = Memory::with_capacity(0x100);

    // move lit (0x1234) reg (r1)
    memory.set_u8(0x0000, MOV_LIT_REG).unwrap();
    memory.set_u8(0x0001, 0x12).unwrap();
    memory.set_u8(0x0002, 0x34).unwrap();
    memory.set_u8(0x0003, R1).unwrap();

    // move lit (0xABCD) reg (r2)
    memory.set_u8(0x0004, MOV_LIT_REG).unwrap();
    memory.set_u8(0x0005, 0xAB).unwrap();
    memory.set_u8(0x0006, 0xCD).unwrap();
    memory.set_u8(0x0007, R2).unwrap();

    // add reg (r1) reg (r2)
    memory.set_u8(0x0008, ADD_REG_REG).unwrap();
    memory.set_u8(0x0009, R1).unwrap();
    memory.set_u8(0x000A, R2).unwrap();

    let mut cpu = Cpu::from(memory);

    cpu.step().unwrap();
    cpu.step().unwrap();
    cpu.step().unwrap();


    assert_eq!(cpu.get_register_val(RegisterVariant::Acc), 0xBE01);
}

#[test]
fn can_move_reg_mem() {
    let mut memory = Memory::with_capacity(0x10000);

    // move lit (0x1234) reg (r1)
    memory.set_u8(0x0000, MOV_LIT_REG).unwrap();
    memory.set_u8(0x0001, 0x12).unwrap();
    memory.set_u8(0x0002, 0x34).unwrap();
    memory.set_u8(0x0003, R1).unwrap();

    // move lit (0xABCD) reg (r2)
    memory.set_u8(0x0004, MOV_LIT_REG).unwrap();
    memory.set_u8(0x0005, 0xAB).unwrap();
    memory.set_u8(0x0006, 0xCD).unwrap();
    memory.set_u8(0x0007, R2).unwrap();

    // add reg (r1) reg (r2)
    memory.set_u8(0x0008, ADD_REG_REG).unwrap();
    memory.set_u8(0x0009, R1).unwrap();
    memory.set_u8(0x000A, R2).unwrap();

    // move reg (acc) to mem (addr 0x0100)
    memory.set_u8(0x000B, MOV_REG_MEM).unwrap();
    memory.set_u8(0x000C, ACC).unwrap();
    memory.set_u8(0x000D, 0x01).unwrap();
    memory.set_u8(0x000E, 0x00).unwrap();

    let mut cpu = Cpu::from(memory);

    cpu.step().unwrap();
    cpu.step().unwrap();
    cpu.step().unwrap();
    cpu.step().unwrap();


    assert_eq!(cpu.get_u16(0x0100), Ok(0xBE01));
}

#[test]
fn can_jump() {
    let mut memory = Memory::with_capacity(0x10000);

    // move mem (addr 0x0100) reg (r1)
    memory.set_u8(0x0000, MOV_MEM_REG).unwrap();
    memory.set_u8(0x0001, 0x01).unwrap();
    memory.set_u8(0x0002, 0x00).unwrap();
    memory.set_u8(0x0003, R1).unwrap();

    // move lit (0x0001) reg (r2)
    memory.set_u8(0x0004, MOV_LIT_REG).unwrap();
    memory.set_u8(0x0005, 0x00).unwrap();
    memory.set_u8(0x0006, 0x01).unwrap();
    memory.set_u8(0x0007, R2).unwrap();

    // add reg (r1) reg (r2)
    memory.set_u8(0x0008, ADD_REG_REG).unwrap();
    memory.set_u8(0x0009, R1).unwrap();
    memory.set_u8(0x000A, R2).unwrap();

    // move reg (acc) to mem (addr 0x0100)
    memory.set_u8(0x000B, MOV_REG_MEM).unwrap();
    memory.set_u8(0x000C, ACC).unwrap();
    memory.set_u8(0x000D, 0x01).unwrap();
    memory.set_u8(0x000E, 0x00).unwrap();

    // jump (addr 0x0000) if acc != lit (0x0003)
    memory.set_u8(0x000F, JNE_LIT).unwrap();
    memory.set_u8(0x0010, 0x00).unwrap();
    memory.set_u8(0x0011, 0x03).unwrap();
    memory.set_u8(0x0012, 0x00).unwrap();
    memory.set_u8(0x0013, 0x00).unwrap();

    let mut cpu = Cpu::from(memory);

    cpu.step().unwrap();
    cpu.step().unwrap();
    cpu.step().unwrap();
    cpu.step().unwrap();
    cpu.step().unwrap();

    cpu.step().unwrap();
    cpu.step().unwrap();
    cpu.step().unwrap();
    cpu.step().unwrap();
    cpu.step().unwrap();

    cpu.step().unwrap();
    cpu.step().unwrap();
    cpu.step().unwrap();
    cpu.step().unwrap();
    cpu.step().unwrap();


    assert_eq!(cpu.get_u16(0x0100), Ok(0x0003));
}

#[test]
fn can_push_pop() {
    let mut memory = Memory::with_capacity(0x10000);

    // move lit (0x5151) reg (r1)
    memory.set_u8(0x0000, MOV_LIT_REG).unwrap();
    memory.set_u8(0x0001, 0x51).unwrap();
    memory.set_u8(0x0002, 0x51).unwrap();
    memory.set_u8(0x0003, R1).unwrap();

    // move lit (0x5151) reg (r2)
    memory.set_u8(0x0004, MOV_LIT_REG).unwrap();
    memory.set_u8(0x0005, 0x42).unwrap();
    memory.set_u8(0x0006, 0x42).unwrap();
    memory.set_u8(0x0007, R2).unwrap();

    // push reg (r1)
    memory.set_u8(0x0008, PSH_REG).unwrap();
    memory.set_u8(0x0009, R1).unwrap();

    // push reg (r2)
    memory.set_u8(0x000A, PSH_REG).unwrap();
    memory.set_u8(0x000B, R2).unwrap();

    // pop reg (r1)
    memory.set_u8(0x000C, POP).unwrap();
    memory.set_u8(0x000D, R1).unwrap();

    // pop reg (r2)
    memory.set_u8(0x000E, POP).unwrap();
    memory.set_u8(0x000F, R2).unwrap();

    let mut cpu = Cpu::from(memory);

    cpu.step().unwrap();
    cpu.step().unwrap();
    cpu.step().unwrap();
    cpu.step().unwrap();
    cpu.step().unwrap();
    cpu.step().unwrap();


    assert_eq!(cpu.get_register_val(RegisterVariant::R1), 0x4242);
    assert_eq!(cpu.get_register_val(RegisterVariant::R2), 0x5151);
}

#[test]
fn can_subroutine() {
    let mut memory = Memory::with_capacity(0x10000);

    // push lit (0x3333)
    memory.set_u8(0x0000, PSH_LIT).unwrap();
    memory.set_u8(0x0001, 0x33).unwrap();
    memory.set_u8(0x0002, 0x33).unwrap();

    // push lit (0x2222)
    memory.set_u8(0x0003, PSH_LIT).unwrap();
    memory.set_u8(0x0004, 0x22).unwrap();
    memory.set_u8(0x0005, 0x22).unwrap();

    // push lit (0x1111)
    memory.set_u8(0x0006, PSH_LIT).unwrap();
    memory.set_u8(0x0007, 0x11).unwrap();
    memory.set_u8(0x0008, 0x11).unwrap();

    // move lit (0x1234) reg (r1)
    memory.set_u8(0x0009, MOV_LIT_REG).unwrap();
    memory.set_u8(0x000A, 0x12).unwrap();
    memory.set_u8(0x000B, 0x34).unwrap();
    memory.set_u8(0x000C, R1).unwrap();

    // move lit (0x5678) reg (r4)
    memory.set_u8(0x000D, MOV_LIT_REG).unwrap();
    memory.set_u8(0x000E, 0x56).unwrap();
    memory.set_u8(0x000F, 0x78).unwrap();
    memory.set_u8(0x0010, R4).unwrap();

    // push lit (0x0000)
    memory.set_u8(0x0011, PSH_LIT).unwrap();
    memory.set_u8(0x0012, 0x00).unwrap();
    memory.set_u8(0x0013, 0x00).unwrap();

    // call subroutine (0x3000)
    memory.set_u8(0x0014, CAL_LIT).unwrap();
    memory.set_u8(0x0015, 0x30).unwrap();
    memory.set_u8(0x0016, 0x00).unwrap();

    // push lit (0x4444)
    memory.set_u8(0x0017, PSH_LIT).unwrap();
    memory.set_u8(0x0018, 0x44).unwrap();
    memory.set_u8(0x0019, 0x44).unwrap();

    // BEGIN SUBROUTINE -- ADDR 0x3000

    // push lit (0x0102)
    memory.set_u8(0x3000, PSH_LIT).unwrap();
    memory.set_u8(0x3001, 0x01).unwrap();
    memory.set_u8(0x3002, 0x02).unwrap();

    // push lit (0x0304)
    memory.set_u8(0x3003, PSH_LIT).unwrap();
    memory.set_u8(0x3004, 0x03).unwrap();
    memory.set_u8(0x3005, 0x04).unwrap();

    // push lit (0x0506)
    memory.set_u8(0x3006, PSH_LIT).unwrap();
    memory.set_u8(0x3007, 0x05).unwrap();
    memory.set_u8(0x3008, 0x06).unwrap();

    // move lit (0x0708) reg (r1)
    memory.set_u8(0x3009, MOV_LIT_REG).unwrap();
    memory.set_u8(0x300A, 0x07).unwrap();
    memory.set_u8(0x300B, 0x08).unwrap();
    memory.set_u8(0x300C, R1).unwrap();

    // move lit (0x090A) reg (r8)
    memory.set_u8(0x300D, MOV_LIT_REG).unwrap();
    memory.set_u8(0x300E, 0x09).unwrap();
    memory.set_u8(0x300F, 0x0A).unwrap();
    memory.set_u8(0x3010, R8).unwrap();

    memory.set_u8(0x3011, RET).unwrap();

    // END SUBROUTINE

    let mut cpu = Cpu::from(memory);

    cpu.step().unwrap();
    cpu.step().unwrap();
    cpu.step().unwrap();
    cpu.step().unwrap();
    cpu.step().unwrap();
    cpu.step().unwrap();

    // about to enter subroutine...
    println!("about to enter subroutine...");

    assert_eq!(cpu.get_register_val(RegisterVariant::R1), 0x1234);
    assert_eq!(cpu.get_register_val(RegisterVariant::R4), 0x5678);

    cpu.step().unwrap();

    // now in subroutine
    println!("now in subroutine");

    cpu.step().unwrap();
    cpu.step().unwrap();
    cpu.step().unwrap();
    cpu.step().unwrap();
    cpu.step().unwrap();

    // about to exit subroutine...
    println!("about to exit subroutine...");

    assert_eq!(cpu.get_register_val(RegisterVariant::R1), 0x0708);
    assert_eq!(cpu.get_register_val(RegisterVariant::R8), 0x090A);

    cpu.step().unwrap();

    // exited subroutine
    println!("exited subroutine");

    assert_eq!(cpu.get_register_val(RegisterVariant::R1), 0x1234);
    assert_eq!(cpu.get_register_val(RegisterVariant::R4), 0x5678);

    cpu.step().unwrap();
}

#[test]
fn binary() {
    // mov $4200, r1; mov r1, &0060; mov $1300, r1; mov &0060, r2; add r1, r2; hlt
    let bytes: [u8; 20] = [
        0x10, 0x42, 0x00, 0x02, 0x12, 0x02, 0x00, 0x60, 0x10, 0x13, 0x00, 0x02, 0x13, 0x00, 0x60, 0x03, 0x14, 0x02,
        0x03, 0xFF,
    ];

    println!("{:02X?}", bytes);

    let mut memory = Memory::with_capacity(0x10000);
    memory.set_bytes(&bytes);

    let mut cpu = Cpu::from(memory);

    cpu.step().unwrap();
    cpu.step().unwrap();
    cpu.step().unwrap();
    cpu.step().unwrap();
    cpu.step().unwrap();

    assert_eq!(cpu.get_register_val(RegisterVariant::Acc), 0x5500);
}

#[test]
fn binary_loop() {
    // mov $000A, &0050
    // loop: mov &0050, acc; dec acc; mov acc, &0050; inc r2; inc r2; inc r2; jne $0000, &loop
    // hlt
    let bytes: [u8; 27] = [
        0x1B, 0x00, 0x0A, 0x00, 0x50, 0x13, 0x00, 0x50, 0x01, 0x36, 0x01, 0x12, 0x01, 0x00, 0x50, 0x35, 0x03, 0x35,
        0x03, 0x35, 0x03, 0x15, 0x00, 0x00, 0x00, 0x05, 0xFF,
    ];

    println!("{:02X?}", &bytes[..]);

    let mut memory = Memory::with_capacity(0x10000);
    memory.set_bytes(&bytes);

    let mut cpu = Cpu::from(memory);

    cpu.run().unwrap();

    assert_eq!(cpu.get_register_val(RegisterVariant::R2), 0x001E);
    assert_eq!(cpu.get_register_val(RegisterVariant::Ip), bytes.len() as Addr);
}
