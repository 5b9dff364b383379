use mos6502::{AddressingModes, Fault, CPU};

fn cpu_at(pc: u16, operand: &[u8]) -> CPU {
    let mut cpu = CPU::new();
    cpu.pc = pc;
    let mut addr = pc;
    for byte in operand {
        cpu.mem_write(addr, *byte);
        addr = addr.wrapping_add(1);
    }
    cpu
}

#[test]
fn operand_lengths() {
    assert_eq!(AddressingModes::Immediate.operand_len(), 1);
    assert_eq!(AddressingModes::ZeroPage.operand_len(), 1);
    assert_eq!(AddressingModes::ZeroPage_X.operand_len(), 1);
    assert_eq!(AddressingModes::ZeroPage_Y.operand_len(), 1);
    assert_eq!(AddressingModes::Absolute.operand_len(), 2);
    assert_eq!(AddressingModes::Absolute_X.operand_len(), 2);
    assert_eq!(AddressingModes::Absolute_Y.operand_len(), 2);
    assert_eq!(AddressingModes::Indirect_X.operand_len(), 1);
    assert_eq!(AddressingModes::Indirect_Y.operand_len(), 1);
    assert_eq!(AddressingModes::NoneAddressing.operand_len(), 0);
}

#[test]
fn immediate_is_the_operand_byte_itself() {
    let mut cpu = cpu_at(0x8001, &[0x42]);
    assert_eq!(cpu.resolve(AddressingModes::Immediate), Ok(0x8001));
    assert_eq!(cpu.pc, 0x8002);
}

#[test]
fn immediate_at_the_last_address_wraps_the_counter() {
    let mut cpu = cpu_at(0xFFFF, &[0x42]);
    assert_eq!(cpu.resolve(AddressingModes::Immediate), Ok(0xFFFF));
    assert_eq!(cpu.pc, 0x0000);
}

#[test]
fn zero_page_is_the_operand() {
    let mut cpu = cpu_at(0x8001, &[0x42]);
    cpu.reg_x = 5;
    cpu.reg_y = 7;
    assert_eq!(cpu.resolve(AddressingModes::ZeroPage), Ok(0x0042));
    assert_eq!(cpu.pc, 0x8002);
}

#[test]
fn zero_page_x_adds_x() {
    let mut cpu = cpu_at(0x8001, &[0x42]);
    cpu.reg_x = 5;
    cpu.reg_y = 7;
    assert_eq!(cpu.resolve(AddressingModes::ZeroPage_X), Ok(0x0047));
    assert_eq!(cpu.pc, 0x8002);
}

#[test]
fn zero_page_y_adds_y() {
    let mut cpu = cpu_at(0x8001, &[0x42]);
    cpu.reg_x = 5;
    cpu.reg_y = 7;
    assert_eq!(cpu.resolve(AddressingModes::ZeroPage_Y), Ok(0x0049));
    assert_eq!(cpu.pc, 0x8002);
}

#[test]
fn zero_page_x_wraps_at_256() {
    let mut cpu = cpu_at(0x8001, &[0xFF]);
    cpu.reg_x = 1;
    assert_eq!(cpu.resolve(AddressingModes::ZeroPage_X), Ok(0x0000));
    let mut cpu = cpu_at(0x8001, &[0x80]);
    cpu.reg_x = 0xFF;
    assert_eq!(cpu.resolve(AddressingModes::ZeroPage_X), Ok(0x007F));
}

#[test]
fn zero_page_y_wraps_at_256() {
    let mut cpu = cpu_at(0x8001, &[0xFF]);
    cpu.reg_y = 1;
    assert_eq!(cpu.resolve(AddressingModes::ZeroPage_Y), Ok(0x0000));
    let mut cpu = cpu_at(0x8001, &[0xF0]);
    cpu.reg_y = 0x20;
    assert_eq!(cpu.resolve(AddressingModes::ZeroPage_Y), Ok(0x0010));
}

#[test]
fn absolute_is_the_little_endian_operand() {
    let mut cpu = cpu_at(0x8001, &[0x00, 0x02]);
    cpu.reg_x = 5;
    cpu.reg_y = 7;
    assert_eq!(cpu.resolve(AddressingModes::Absolute), Ok(0x0200));
    assert_eq!(cpu.pc, 0x8003);
}

#[test]
fn absolute_x_adds_x() {
    let mut cpu = cpu_at(0x8001, &[0x34, 0x12]);
    cpu.reg_x = 5;
    cpu.reg_y = 7;
    assert_eq!(cpu.resolve(AddressingModes::Absolute_X), Ok(0x1239));
    assert_eq!(cpu.pc, 0x8003);
}

#[test]
fn absolute_y_adds_y() {
    let mut cpu = cpu_at(0x8001, &[0x34, 0x12]);
    cpu.reg_x = 5;
    cpu.reg_y = 7;
    assert_eq!(cpu.resolve(AddressingModes::Absolute_Y), Ok(0x123B));
    assert_eq!(cpu.pc, 0x8003);
}

#[test]
fn absolute_x_wraps_at_65536() {
    let mut cpu = cpu_at(0x8001, &[0xFF, 0xFF]);
    cpu.reg_x = 1;
    assert_eq!(cpu.resolve(AddressingModes::Absolute_X), Ok(0x0000));
    let mut cpu = cpu_at(0x8001, &[0xF0, 0xFF]);
    cpu.reg_x = 0xFF;
    assert_eq!(cpu.resolve(AddressingModes::Absolute_X), Ok(0x00EF));
}

#[test]
fn absolute_y_wraps_at_65536() {
    let mut cpu = cpu_at(0x8001, &[0xFF, 0xFF]);
    cpu.reg_y = 1;
    assert_eq!(cpu.resolve(AddressingModes::Absolute_Y), Ok(0x0000));
    let mut cpu = cpu_at(0x8001, &[0xFE, 0xFF]);
    cpu.reg_y = 0x03;
    assert_eq!(cpu.resolve(AddressingModes::Absolute_Y), Ok(0x0001));
}

#[test]
fn indirect_x_indexes_the_pointer() {
    let mut cpu = cpu_at(0x8001, &[0x20]);
    cpu.reg_x = 4;
    cpu.reg_y = 9;
    cpu.mem_write(0x0024, 0x74);
    cpu.mem_write(0x0025, 0x20);
    cpu.mem_write(0x0020, 0xEE);
    cpu.mem_write(0x0021, 0xEE);
    assert_eq!(cpu.resolve(AddressingModes::Indirect_X), Ok(0x2074));
    assert_eq!(cpu.pc, 0x8002);
}

#[test]
fn indirect_x_pointer_sum_wraps_within_the_zero_page() {
    let mut cpu = cpu_at(0x8001, &[0xFE]);
    cpu.reg_x = 4;
    cpu.mem_write(0x0002, 0xCD);
    cpu.mem_write(0x0003, 0xAB);
    cpu.mem_write(0x0102, 0x11);
    cpu.mem_write(0x0103, 0x11);
    assert_eq!(cpu.resolve(AddressingModes::Indirect_X), Ok(0xABCD));
}

#[test]
fn indirect_x_pointer_read_wraps_within_the_zero_page() {
    let mut cpu = cpu_at(0x8001, &[0xFE]);
    cpu.reg_x = 1;
    cpu.mem_write(0x00FF, 0x34);
    cpu.mem_write(0x0000, 0x12);
    cpu.mem_write(0x0100, 0x99);
    assert_eq!(cpu.resolve(AddressingModes::Indirect_X), Ok(0x1234));
}

#[test]
fn indirect_y_indexes_the_target() {
    let mut cpu = cpu_at(0x8001, &[0x86]);
    cpu.reg_x = 9;
    cpu.reg_y = 0x10;
    cpu.mem_write(0x0086, 0x28);
    cpu.mem_write(0x0087, 0x40);
    assert_eq!(cpu.resolve(AddressingModes::Indirect_Y), Ok(0x4038));
    assert_eq!(cpu.pc, 0x8002);
}

#[test]
fn indirect_y_pointer_read_wraps_within_the_zero_page() {
    let mut cpu = cpu_at(0x8001, &[0xFF]);
    cpu.reg_y = 2;
    cpu.mem_write(0x00FF, 0x00);
    cpu.mem_write(0x0000, 0x30);
    cpu.mem_write(0x0100, 0x99);
    assert_eq!(cpu.resolve(AddressingModes::Indirect_Y), Ok(0x3002));
}

#[test]
fn indirect_y_target_wraps_at_65536() {
    let mut cpu = cpu_at(0x8001, &[0x10]);
    cpu.reg_y = 0x02;
    cpu.mem_write(0x0010, 0xFF);
    cpu.mem_write(0x0011, 0xFF);
    assert_eq!(cpu.resolve(AddressingModes::Indirect_Y), Ok(0x0001));
}

#[test]
fn none_addressing_cannot_be_resolved() {
    let mut cpu = cpu_at(0x8001, &[0x42, 0x43]);
    cpu.reg_a = 1;
    cpu.reg_x = 2;
    cpu.reg_y = 3;
    cpu.status = 0x81;
    assert_eq!(
        cpu.resolve(AddressingModes::NoneAddressing),
        Err(Fault::InvalidAddressingMode(AddressingModes::NoneAddressing))
    );
    assert_eq!(cpu.pc, 0x8001);
    assert_eq!((cpu.reg_a, cpu.reg_x, cpu.reg_y, cpu.status), (1, 2, 3, 0x81));
}

#[test]
fn resolve_changes_only_the_program_counter() {
    let mut cpu = cpu_at(0x8001, &[0x34, 0x12]);
    cpu.reg_a = 1;
    cpu.reg_x = 2;
    cpu.reg_y = 3;
    cpu.status = 0x81;
    let before = cpu.memory;
    assert_eq!(cpu.resolve(AddressingModes::Absolute_X), Ok(0x1236));
    assert_eq!((cpu.reg_a, cpu.reg_x, cpu.reg_y, cpu.status), (1, 2, 3, 0x81));
    assert!(cpu.memory == before);
}
