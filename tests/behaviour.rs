use nes_cpu::cpu::CPU;
use nes_cpu::opcodes::{AddressingMode, Mnemonic, OpCode, OpcodeTable};
use nes_cpu::state::{CpuError, StepOutcome};
use nes_cpu::status::{
    STATUS_BREAK, STATUS_CARRY, STATUS_DECIMAL_MODE, STATUS_INTERRUPT_DISABLE, STATUS_NEGATIVE,
    STATUS_OVERFLOW, STATUS_ZERO,
};

#[test]
fn zero_negative_update_for_every_byte_and_status() {
    let others = [
        0u8,
        0xff,
        STATUS_CARRY | STATUS_OVERFLOW,
        STATUS_INTERRUPT_DISABLE | STATUS_DECIMAL_MODE | STATUS_BREAK,
    ];
    for &before in others.iter() {
        for v in 0..=255u8 {
            let mut cpu = CPU::new();
            cpu.status = before;
            cpu.update_zero_and_negative_flags(v);
            assert_eq!(cpu.status & STATUS_ZERO != 0, v == 0);
            assert_eq!(cpu.status & STATUS_NEGATIVE != 0, v & 0x80 != 0);
            assert_eq!(cpu.status & 0b0111_1101, before & 0b0111_1101);
        }
    }
}

#[test]
fn lda_immediate_sets_no_flags_for_positive_value() {
    let mut cpu = CPU::new();
    cpu.load_and_run(vec![0xa9, 0x05, 0x00]).unwrap();
    assert_eq!(cpu.register_a, 0x05);
    assert_eq!(cpu.status & STATUS_ZERO, 0);
    assert_eq!(cpu.status & STATUS_NEGATIVE, 0);
    assert_eq!(cpu.program_counter, 0x8003);
}

#[test]
fn adc_positive_overflow_into_sign_bit() {
    let mut cpu = CPU::new();
    cpu.register_a = 0x7f;
    cpu.mem_write(0x0000, 0x10);
    cpu.adc(&AddressingMode::Immediate);
    assert_eq!(cpu.register_a, 0x8f);
    assert_ne!(cpu.status & STATUS_OVERFLOW, 0);
    assert_ne!(cpu.status & STATUS_NEGATIVE, 0);
    assert_eq!(cpu.status & STATUS_CARRY, 0);
}

#[test]
fn adc_unsigned_carry_out_to_zero() {
    let mut cpu = CPU::new();
    cpu.register_a = 0xff;
    cpu.mem_write(0x0000, 0x01);
    cpu.adc(&AddressingMode::Immediate);
    assert_eq!(cpu.register_a, 0x00);
    assert_ne!(cpu.status & STATUS_CARRY, 0);
    assert_ne!(cpu.status & STATUS_ZERO, 0);
    assert_eq!(cpu.status & STATUS_OVERFLOW, 0);
}

#[test]
fn adc_carry_in_with_operand_ff_carries_out() {
    let mut cpu = CPU::new();
    cpu.register_a = 0x00;
    cpu.status = STATUS_CARRY | STATUS_OVERFLOW;
    cpu.mem_write(0x0000, 0xff);
    cpu.adc(&AddressingMode::Immediate);
    assert_eq!(cpu.register_a, 0x00);
    assert_eq!(cpu.status, STATUS_CARRY | STATUS_ZERO);
}

#[test]
fn inx_wraps_to_zero() {
    let mut cpu = CPU::new();
    cpu.register_x = 0xff;
    cpu.inx();
    assert_eq!(cpu.register_x, 0x00);
    assert_ne!(cpu.status & STATUS_ZERO, 0);
    assert_eq!(cpu.status & STATUS_NEGATIVE, 0);
}

#[test]
fn indirect_y_adds_y_to_the_stored_word() {
    let mut cpu = CPU::new();
    cpu.program_counter = 0x0200;
    cpu.mem_write(0x0200, 0x12);
    cpu.mem_write_u16(0x12, 0x3345);
    cpu.register_y = 0x02;
    assert_eq!(cpu.get_operand_address(&AddressingMode::Indirect_Y), 0x3347);
}

#[test]
fn zero_page_x_wraps_within_page_zero() {
    let mut cpu = CPU::new();
    cpu.program_counter = 0x0200;
    cpu.mem_write(0x0200, 0xff);
    cpu.register_x = 0x02;
    assert_eq!(cpu.get_operand_address(&AddressingMode::ZeroPage_X), 0x01);
}

#[test]
fn zero_page_y_wraps_within_page_zero() {
    let mut cpu = CPU::new();
    cpu.program_counter = 0x0200;
    cpu.mem_write(0x0200, 0xf0);
    cpu.register_y = 0x20;
    assert_eq!(cpu.get_operand_address(&AddressingMode::ZeroPage_Y), 0x10);
}

#[test]
fn indirect_x_pointer_high_byte_wraps_within_page_zero() {
    let mut cpu = CPU::new();
    cpu.program_counter = 0x0200;
    cpu.mem_write(0x0200, 0xfe);
    cpu.register_x = 0x01;
    cpu.mem_write(0x00ff, 0x34);
    cpu.mem_write(0x0000, 0x12);
    cpu.mem_write(0x0100, 0x99);
    assert_eq!(cpu.get_operand_address(&AddressingMode::Indirect_X), 0x1234);
}

#[test]
fn absolute_x_wraps_around_the_address_space() {
    let mut cpu = CPU::new();
    cpu.program_counter = 0x0200;
    cpu.mem_write_u16(0x0200, 0xfffe);
    cpu.register_x = 0x03;
    assert_eq!(cpu.get_operand_address(&AddressingMode::Absolute_X), 0x0001);
    cpu.register_y = 0x01;
    assert_eq!(cpu.get_operand_address(&AddressingMode::Absolute_Y), 0xffff);
}

#[test]
fn immediate_and_absolute_addresses() {
    let mut cpu = CPU::new();
    cpu.program_counter = 0x0300;
    cpu.mem_write(0x0300, 0x34);
    cpu.mem_write(0x0301, 0x12);
    assert_eq!(cpu.get_operand_address(&AddressingMode::Immediate), 0x0300);
    assert_eq!(cpu.get_operand_address(&AddressingMode::ZeroPage), 0x0034);
    assert_eq!(cpu.get_operand_address(&AddressingMode::Absolute), 0x1234);
}

#[test]
fn word_access_wraps_at_the_top_of_memory() {
    let mut cpu = CPU::new();
    cpu.mem_write_u16(0xffff, 0xabcd);
    assert_eq!(cpu.mem_read(0xffff), 0xcd);
    assert_eq!(cpu.mem_read(0x0000), 0xab);
    assert_eq!(cpu.mem_read_u16(0xffff), 0xabcd);
}

#[test]
fn lda_tax_inx_sequence() {
    let mut cpu = CPU::new();
    cpu.load(vec![0xa9, 0xc0, 0xaa, 0xe8, 0x00]);
    cpu.reset();
    cpu.register_x = 0xff;
    assert_eq!(cpu.run(), Ok(()));
    assert_eq!(cpu.register_x, 0xc1);
    assert_eq!(cpu.status & STATUS_NEGATIVE, STATUS_NEGATIVE);
}

#[test]
fn unrecognized_opcode_halts_without_touching_registers() {
    let mut cpu = CPU::new();
    cpu.load(vec![0xa9, 0x42, 0x02, 0xe8, 0x00]);
    cpu.reset();
    cpu.register_x = 0x07;
    cpu.register_y = 0x09;
    let r = cpu.run();
    assert_eq!(r, Err(CpuError::UnrecognizedOpcode { code: 0x02, program_counter: 0x8002 }));
    assert_eq!(cpu.register_a, 0x42);
    assert_eq!(cpu.register_x, 0x07);
    assert_eq!(cpu.register_y, 0x09);
    assert_eq!(cpu.status, 0);
    assert_eq!(cpu.program_counter, 0x8003);
}

#[test]
fn known_opcode_without_handler_is_not_implemented() {
    let mut cpu = CPU::new();
    let r = cpu.load_and_run(vec![0xe8, 0xea, 0x00]);
    assert_eq!(r, Err(CpuError::NotImplemented { code: 0xea, program_counter: 0x8001 }));
    assert_eq!(cpu.register_x, 1);
}

#[test]
fn metadata_with_a_placeholder_mode_is_reported() {
    let mut table = OpcodeTable::empty();
    table.insert(OpCode::new(0x00, Mnemonic::BRK, 1, 7, AddressingMode::NoneAddressing));
    table.insert(OpCode::new(0xa9, Mnemonic::LDA, 2, 2, AddressingMode::Relative));
    let mut cpu = CPU::new();
    cpu.load(vec![0xa9, 0x05, 0x00]);
    cpu.reset();
    let r = cpu.run_with(&table);
    assert_eq!(
        r,
        Err(CpuError::UnsupportedAddressingMode { code: 0xa9, program_counter: 0x8000 })
    );
    assert_eq!(cpu.register_a, 0);
}

#[test]
fn alternate_table_changes_what_is_recognized() {
    let mut table = OpcodeTable::empty();
    table.insert(OpCode::new(0x00, Mnemonic::BRK, 1, 7, AddressingMode::NoneAddressing));
    let mut cpu = CPU::new();
    cpu.load(vec![0xe8, 0x00]);
    cpu.reset();
    let r = cpu.run_with(&table);
    assert_eq!(r, Err(CpuError::UnrecognizedOpcode { code: 0xe8, program_counter: 0x8000 }));
    assert_eq!(cpu.register_x, 0);
}

#[test]
fn counter_cannot_run_past_the_address_space() {
    let mut cpu = CPU::new();
    cpu.program_counter = 0xffff;
    cpu.mem_write(0xffff, 0xe8);
    let r = cpu.run();
    assert_eq!(r, Err(CpuError::CounterOverflow { code: 0xe8, program_counter: 0xffff }));
    assert_eq!(cpu.register_x, 0);

    let mut cpu = CPU::new();
    cpu.program_counter = 0xfffe;
    cpu.mem_write(0xfffe, 0xad);
    let r = cpu.run();
    assert_eq!(r, Err(CpuError::CounterOverflow { code: 0xad, program_counter: 0xfffe }));
}

#[test]
fn step_reports_continue_and_break() {
    let table = OpcodeTable::standard();
    let mut cpu = CPU::new();
    cpu.load(vec![0xa9, 0x01, 0x00]);
    cpu.reset();
    assert_eq!(cpu.step(&table), Ok(StepOutcome::Continue));
    assert_eq!(cpu.program_counter, 0x8002);
    assert_eq!(cpu.step(&table), Ok(StepOutcome::Break));
    assert_eq!(cpu.program_counter, 0x8003);
}

#[test]
fn load_places_program_and_reset_vector() {
    let mut cpu = CPU::new();
    cpu.load(vec![0x11, 0x22, 0x33]);
    assert_eq!(cpu.mem_read(0x8000), 0x11);
    assert_eq!(cpu.mem_read(0x8002), 0x33);
    assert_eq!(cpu.mem_read(0x8003), 0x00);
    assert_eq!(cpu.mem_read_u16(0xfffc), 0x8000);
    assert_eq!(cpu.program_counter, 0);
}

#[test]
fn load_of_the_largest_program() {
    let mut cpu = CPU::new();
    let program = vec![0xea; 0x8000];
    cpu.load(program);
    assert_eq!(cpu.mem_read(0x8000), 0xea);
    assert_eq!(cpu.mem_read(0xfffb), 0xea);
    assert_eq!(cpu.mem_read(0xfffc), 0x00);
    assert_eq!(cpu.mem_read(0xfffd), 0x80);
    assert_eq!(cpu.mem_read(0xffff), 0xea);
}

#[test]
fn empty_program_stops_on_the_zero_byte() {
    let mut cpu = CPU::new();
    assert_eq!(cpu.load_and_run(vec![]), Ok(()));
    assert_eq!(cpu.program_counter, 0x8001);
}

#[test]
fn reset_keeps_register_y() {
    let mut cpu = CPU::new();
    cpu.load(vec![0x00]);
    cpu.register_a = 1;
    cpu.register_x = 2;
    cpu.register_y = 3;
    cpu.status = 0xff;
    cpu.reset();
    assert_eq!(cpu.register_a, 0);
    assert_eq!(cpu.register_x, 0);
    assert_eq!(cpu.register_y, 3);
    assert_eq!(cpu.status, 0);
    assert_eq!(cpu.program_counter, 0x8000);
}

#[test]
fn sta_changes_no_flag() {
    let mut cpu = CPU::new();
    cpu.register_a = 0x80;
    cpu.status = STATUS_CARRY;
    cpu.program_counter = 0x0400;
    cpu.mem_write(0x0400, 0x20);
    cpu.sta(&AddressingMode::ZeroPage);
    assert_eq!(cpu.mem_read(0x20), 0x80);
    assert_eq!(cpu.status, STATUS_CARRY);
}

#[test]
fn standard_table_metadata() {
    let table = OpcodeTable::standard();
    assert_eq!(
        table.lookup(0xb1),
        Some(OpCode::new(0xb1, Mnemonic::LDA, 2, 5, AddressingMode::Indirect_Y))
    );
    assert_eq!(
        table.lookup(0x8d),
        Some(OpCode::new(0x8d, Mnemonic::STA, 3, 4, AddressingMode::Absolute))
    );
    assert_eq!(table.lookup(0x02), None);
    assert!(AddressingMode::Absolute_X.is_addressable());
    assert!(!AddressingMode::NoneAddressing.is_addressable());
}
