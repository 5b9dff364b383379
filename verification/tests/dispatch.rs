use mos6502::{decode, AddressingModes, Fault, Mnemonic, OpcodeEntry, StepOutcome, CPU};

fn entry(mnemonic: Mnemonic, mode: AddressingModes) -> Option<OpcodeEntry> {
    Some(OpcodeEntry { mnemonic, mode })
}

const ALL_MODES: [AddressingModes; 10] = [
    AddressingModes::Immediate,
    AddressingModes::ZeroPage,
    AddressingModes::ZeroPage_X,
    AddressingModes::ZeroPage_Y,
    AddressingModes::Absolute,
    AddressingModes::Absolute_X,
    AddressingModes::Absolute_Y,
    AddressingModes::Indirect_X,
    AddressingModes::Indirect_Y,
    AddressingModes::NoneAddressing,
];

#[test]
fn table_entries() {
    assert_eq!(decode(0x00), entry(Mnemonic::BRK, AddressingModes::NoneAddressing));
    assert_eq!(decode(0xE8), entry(Mnemonic::INX, AddressingModes::NoneAddressing));
    assert_eq!(decode(0xAA), entry(Mnemonic::TAX, AddressingModes::NoneAddressing));
    assert_eq!(decode(0xA9), entry(Mnemonic::LDA, AddressingModes::Immediate));
    assert_eq!(decode(0xA5), entry(Mnemonic::LDA, AddressingModes::ZeroPage));
    assert_eq!(decode(0xB5), entry(Mnemonic::LDA, AddressingModes::ZeroPage_X));
    assert_eq!(decode(0xAD), entry(Mnemonic::LDA, AddressingModes::Absolute));
    assert_eq!(decode(0xBD), entry(Mnemonic::LDA, AddressingModes::Absolute_X));
    assert_eq!(decode(0xB9), entry(Mnemonic::LDA, AddressingModes::Absolute_Y));
    assert_eq!(decode(0xA1), entry(Mnemonic::LDA, AddressingModes::Indirect_X));
    assert_eq!(decode(0xB1), entry(Mnemonic::LDA, AddressingModes::Indirect_Y));
    assert_eq!(decode(0x85), entry(Mnemonic::STA, AddressingModes::ZeroPage));
    assert_eq!(decode(0x95), entry(Mnemonic::STA, AddressingModes::ZeroPage_X));
    assert_eq!(decode(0x8D), entry(Mnemonic::STA, AddressingModes::Absolute));
    assert_eq!(decode(0x9D), entry(Mnemonic::STA, AddressingModes::Absolute_X));
    assert_eq!(decode(0x99), entry(Mnemonic::STA, AddressingModes::Absolute_Y));
    assert_eq!(decode(0x81), entry(Mnemonic::STA, AddressingModes::Indirect_X));
    assert_eq!(decode(0x91), entry(Mnemonic::STA, AddressingModes::Indirect_Y));
}

#[test]
fn table_covers_every_byte() {
    let mut implemented = 0;
    for opcode in 0..=255u8 {
        if let Some(found) = decode(opcode) {
            implemented += 1;
            assert!(found.mnemonic.supports(found.mode));
        }
    }
    assert_eq!(implemented, 18);
    assert_eq!(decode(0x89), None);
    assert_eq!(decode(0xEA), None);
    assert_eq!(decode(0xFF), None);
}

#[test]
fn supported_modes() {
    for mode in ALL_MODES {
        let implied = mode == AddressingModes::NoneAddressing;
        assert_eq!(Mnemonic::BRK.supports(mode), implied);
        assert_eq!(Mnemonic::INX.supports(mode), implied);
        assert_eq!(Mnemonic::TAX.supports(mode), implied);
        let zero_page_y = mode == AddressingModes::ZeroPage_Y;
        let immediate = mode == AddressingModes::Immediate;
        assert_eq!(Mnemonic::LDA.supports(mode), !implied && !zero_page_y);
        assert_eq!(Mnemonic::STA.supports(mode), !implied && !zero_page_y && !immediate);
    }
}

#[test]
fn step_reports_an_unimplemented_opcode() {
    let mut cpu = CPU::new();
    cpu.mem_write(0x0600, 0xEA);
    cpu.pc = 0x0600;
    cpu.reg_a = 1;
    cpu.reg_x = 2;
    cpu.reg_y = 3;
    cpu.status = 0x41;
    let before = cpu.memory;
    assert_eq!(cpu.step(), Err(Fault::UnimplementedOpcode(0xEA)));
    assert_eq!(cpu.pc, 0x0601);
    assert_eq!((cpu.reg_a, cpu.reg_x, cpu.reg_y, cpu.status), (1, 2, 3, 0x41));
    assert!(cpu.memory == before);
}

#[test]
fn step_faults_on_every_byte_without_entry() {
    for opcode in 0..=255u8 {
        let mut cpu = CPU::new();
        cpu.mem_write(0x0600, opcode);
        cpu.pc = 0x0600;
        match decode(opcode) {
            Some(found) => {
                let expected = if found.mnemonic == Mnemonic::BRK {
                    StepOutcome::Halt
                } else {
                    StepOutcome::Continue
                };
                assert_eq!(cpu.step(), Ok(expected));
                assert_eq!(cpu.pc, 0x0601 + found.mode.operand_len());
            }
            None => {
                assert_eq!(cpu.step(), Err(Fault::UnimplementedOpcode(opcode)));
                assert_eq!(cpu.pc, 0x0601);
            }
        }
    }
}

#[test]
fn step_halts_on_break_and_changes_only_the_counter() {
    let mut cpu = CPU::new();
    cpu.pc = 0x0600;
    cpu.reg_a = 1;
    cpu.reg_x = 2;
    cpu.reg_y = 3;
    cpu.status = 0xC1;
    assert_eq!(cpu.step(), Ok(StepOutcome::Halt));
    assert_eq!(cpu.pc, 0x0601);
    assert_eq!((cpu.reg_a, cpu.reg_x, cpu.reg_y, cpu.status), (1, 2, 3, 0xC1));
}

#[test]
fn execute_refuses_an_operand_for_an_implied_instruction() {
    for mnemonic in [Mnemonic::BRK, Mnemonic::INX, Mnemonic::TAX] {
        let mut cpu = CPU::new();
        cpu.reg_a = 7;
        cpu.pc = 0x0600;
        let result = cpu.execute(OpcodeEntry { mnemonic, mode: AddressingModes::Immediate });
        assert_eq!(result, Err(Fault::InvalidAddressingMode(AddressingModes::Immediate)));
        assert_eq!(cpu.pc, 0x0600);
        assert_eq!(cpu.reg_x, 0);
        assert_eq!(cpu.status, 0);
    }
}

#[test]
fn execute_refuses_a_load_without_operand() {
    let mut cpu = CPU::new();
    cpu.pc = 0x0600;
    let result = cpu
        .execute(OpcodeEntry { mnemonic: Mnemonic::LDA, mode: AddressingModes::NoneAddressing });
    assert_eq!(result, Err(Fault::InvalidAddressingMode(AddressingModes::NoneAddressing)));
    assert_eq!(cpu.pc, 0x0600);
}

#[test]
fn execute_refuses_an_immediate_store() {
    let mut cpu = CPU::new();
    cpu.pc = 0x0600;
    cpu.reg_a = 0x77;
    let result =
        cpu.execute(OpcodeEntry { mnemonic: Mnemonic::STA, mode: AddressingModes::Immediate });
    assert_eq!(result, Err(Fault::InvalidAddressingMode(AddressingModes::Immediate)));
    assert_eq!(cpu.pc, 0x0600);
    assert_eq!(cpu.mem_read(0x0600), 0x00);
}

#[test]
fn execute_refuses_a_pair_that_has_no_opcode() {
    for mnemonic in [Mnemonic::LDA, Mnemonic::STA] {
        let mut cpu = CPU::new();
        cpu.pc = 0x0600;
        cpu.reg_a = 0x77;
        cpu.mem_write(0x0600, 0x10);
        cpu.mem_write(0x0010, 0x55);
        let result = cpu.execute(OpcodeEntry { mnemonic, mode: AddressingModes::ZeroPage_Y });
        assert_eq!(result, Err(Fault::InvalidAddressingMode(AddressingModes::ZeroPage_Y)));
        assert_eq!(cpu.pc, 0x0600);
        assert_eq!(cpu.reg_a, 0x77);
        assert_eq!(cpu.mem_read(0x0010), 0x55);
    }
}

#[test]
fn every_supported_pair_has_exactly_one_opcode() {
    let mnemonics = [Mnemonic::BRK, Mnemonic::INX, Mnemonic::LDA, Mnemonic::STA, Mnemonic::TAX];
    for mnemonic in mnemonics {
        for mode in ALL_MODES {
            let wanted = Some(OpcodeEntry { mnemonic, mode });
            let opcodes = (0..=255u8).filter(|opcode| decode(*opcode) == wanted).count();
            assert_eq!(opcodes, if mnemonic.supports(mode) { 1 } else { 0 });
        }
    }
}

#[test]
fn execute_runs_a_supported_pair() {
    let mut cpu = CPU::new();
    cpu.pc = 0x0600;
    cpu.reg_x = 2;
    cpu.mem_write(0x0600, 0x10);
    cpu.mem_write(0x0012, 0x9A);
    let result =
        cpu.execute(OpcodeEntry { mnemonic: Mnemonic::LDA, mode: AddressingModes::ZeroPage_X });
    assert_eq!(result, Ok(StepOutcome::Continue));
    assert_eq!(cpu.reg_a, 0x9A);
    assert_eq!(cpu.pc, 0x0601);
    let result =
        cpu.execute(OpcodeEntry { mnemonic: Mnemonic::BRK, mode: AddressingModes::NoneAddressing });
    assert_eq!(result, Ok(StepOutcome::Halt));
    assert_eq!(cpu.pc, 0x0601);
}
