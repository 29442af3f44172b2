use twenty_six::bus::{Bus, BusFault};
use twenty_six::cpu::{
    decode, AddressMode, CpuError, Instruction, Mos6507, Op, CARRY_MASK, NEGATIVE_MASK,
    OVERFLOW_MASK, ZERO_RESULT_MASK,
};
use twenty_six::pia::Pia6532;
use twenty_six::tia::Tia1A;
use twenty_six::Atari2600;

#[test]
fn it_works() {
    assert_eq!(4, 4);
}

/// A full 4096-byte cartridge image with `program` at its start
/// (address 0xF000) and the reset vector pointing there.
fn cart_with(program: &[u8]) -> Vec<u8> {
    let mut cart = vec![0u8; 4096];
    cart[..program.len()].copy_from_slice(program);
    cart[0xFFC] = 0x00;
    cart[0xFFD] = 0xF0;
    cart
}

#[test]
fn bus_ram_round_trip() {
    let mut bus = Bus::new(vec![0]);
    assert_eq!(bus.write_byte(0x0085, 0xAB), Ok(()));
    assert_eq!(bus.read_byte(0x0085), Ok(0xAB));
}

#[test]
fn bus_tia_round_trip() {
    let mut bus = Bus::new(vec![0]);
    assert_eq!(bus.write_byte(0x0010, 0x5A), Ok(()));
    assert_eq!(bus.read_byte(0x0010), Ok(0x5A));
}

#[test]
fn bus_cartridge_write_fault_leaves_bytes() {
    let mut bus = Bus::new(vec![1, 2, 3]);
    assert_eq!(bus.write_byte(0xF001, 9), Err(BusFault::ReadOnly(0xF001)));
    assert_eq!(bus.read_byte(0xF001), Ok(2));
}

#[test]
fn bus_unmapped_fault() {
    let mut bus = Bus::new(vec![1, 2, 3]);
    assert_eq!(bus.read_byte(0x4000), Err(BusFault::Unmapped(0x4000)));
    assert_eq!(bus.write_byte(0x4000, 1), Err(BusFault::Unmapped(0x4000)));
    // Past the end of a short cartridge the window is unmapped too.
    assert_eq!(bus.read_byte(0xF003), Err(BusFault::Unmapped(0xF003)));
}

#[test]
fn bus_empty_cartridge_is_unmapped() {
    let bus = Bus::new(vec![]);
    assert_eq!(bus.read_byte(0xF000), Err(BusFault::Unmapped(0xF000)));
}

#[test]
fn bus_read_word_little_endian() {
    let bus = Bus::new(vec![0x34, 0x12]);
    assert_eq!(bus.read_word(0xF000), Ok(0x1234));
}

#[test]
fn bus_read_word_wraps_at_top() {
    let mut cart = vec![0u8; 4096];
    cart[0xFFF] = 0x77;
    let mut bus = Bus::new(cart);
    assert_eq!(bus.write_byte(0x0000, 0x55), Ok(()));
    assert_eq!(bus.read_word(0xFFFF), Ok(0x5577));
}

#[test]
fn reset_loads_vector() {
    let mut cart = vec![0u8; 4096];
    cart[0xFFC] = 0x34;
    cart[0xFFD] = 0x12;
    let bus = Bus::new(cart);
    let mut cpu = Mos6507::new();
    cpu.pc = 0xBEEF;
    assert_eq!(cpu.reset(&bus), Ok(()));
    assert_eq!(cpu.pc, 0x1234);
    cpu.pc = 0x0007;
    assert_eq!(cpu.reset(&bus), Ok(()));
    assert_eq!(cpu.pc, 0x1234);
}

#[test]
fn reset_fault_without_vector() {
    let bus = Bus::new(vec![0]);
    let mut cpu = Mos6507::new();
    cpu.pc = 0x0042;
    assert_eq!(
        cpu.reset(&bus),
        Err(CpuError::Fault(BusFault::Unmapped(0xFFFC)))
    );
    assert_eq!(cpu.pc, 0x0042);
}

#[test]
fn step_invalid_opcode_leaves_state() {
    let mut bus = Bus::new(cart_with(&[0xFF]));
    let mut cpu = Mos6507::new();
    cpu.pc = 0xF000;
    cpu.a = 7;
    cpu.x = 8;
    cpu.y = 9;
    cpu.flags = CARRY_MASK | NEGATIVE_MASK;
    assert_eq!(cpu.step(&mut bus), Err(CpuError::InvalidOpcode(0xFF)));
    assert_eq!(cpu.pc, 0xF000);
    assert_eq!(cpu.a, 7);
    assert_eq!(cpu.x, 8);
    assert_eq!(cpu.y, 9);
    assert_eq!(cpu.flags, CARRY_MASK | NEGATIVE_MASK);
}

#[test]
fn step_adc_immediate() {
    let mut bus = Bus::new(cart_with(&[0x69, 0x05]));
    let mut cpu = Mos6507::new();
    cpu.pc = 0xF000;
    cpu.a = 3;
    assert_eq!(cpu.step(&mut bus), Ok(()));
    assert_eq!(cpu.a, 8);
    assert_eq!(cpu.pc, 0xF002);
}

#[test]
fn step_adc_zero_page() {
    let mut bus = Bus::new(cart_with(&[0x65, 0x85]));
    assert_eq!(bus.write_byte(0x0085, 7), Ok(()));
    let mut cpu = Mos6507::new();
    cpu.pc = 0xF000;
    cpu.a = 5;
    assert_eq!(cpu.step(&mut bus), Ok(()));
    assert_eq!(cpu.a, 12);
    assert_eq!(cpu.pc, 0xF002);
}

#[test]
fn step_adc_zero_page_x_wraps_in_page() {
    let mut bus = Bus::new(cart_with(&[0x75, 0xF0]));
    assert_eq!(bus.write_byte(0x0010, 4), Ok(()));
    let mut cpu = Mos6507::new();
    cpu.pc = 0xF000;
    cpu.a = 1;
    cpu.x = 0x20;
    assert_eq!(cpu.step(&mut bus), Ok(()));
    assert_eq!(cpu.a, 5);
    assert_eq!(cpu.pc, 0xF002);
}

#[test]
fn step_adc_absolute() {
    let mut bus = Bus::new(cart_with(&[0x6D, 0x90, 0x00]));
    assert_eq!(bus.write_byte(0x0090, 9), Ok(()));
    let mut cpu = Mos6507::new();
    cpu.pc = 0xF000;
    cpu.a = 1;
    assert_eq!(cpu.step(&mut bus), Ok(()));
    assert_eq!(cpu.a, 10);
    assert_eq!(cpu.pc, 0xF003);
}

#[test]
fn step_adc_absolute_x() {
    let mut bus = Bus::new(cart_with(&[0x7D, 0x80, 0x00]));
    assert_eq!(bus.write_byte(0x0090, 9), Ok(()));
    let mut cpu = Mos6507::new();
    cpu.pc = 0xF000;
    cpu.a = 2;
    cpu.x = 0x10;
    assert_eq!(cpu.step(&mut bus), Ok(()));
    assert_eq!(cpu.a, 11);
    assert_eq!(cpu.pc, 0xF003);
}

#[test]
fn step_adc_indirect_x() {
    let mut bus = Bus::new(cart_with(&[0x61, 0x10]));
    assert_eq!(bus.write_byte(0x0015, 0x90), Ok(()));
    assert_eq!(bus.write_byte(0x0016, 0x00), Ok(()));
    assert_eq!(bus.write_byte(0x0090, 9), Ok(()));
    let mut cpu = Mos6507::new();
    cpu.pc = 0xF000;
    cpu.a = 1;
    cpu.x = 0x05;
    assert_eq!(cpu.step(&mut bus), Ok(()));
    assert_eq!(cpu.a, 10);
    assert_eq!(cpu.pc, 0xF002);
}

#[test]
fn step_adc_indirect_y() {
    let mut bus = Bus::new(cart_with(&[0x71, 0x20]));
    assert_eq!(bus.write_byte(0x0020, 0x8A), Ok(()));
    assert_eq!(bus.write_byte(0x0021, 0x00), Ok(()));
    assert_eq!(bus.write_byte(0x0090, 9), Ok(()));
    let mut cpu = Mos6507::new();
    cpu.pc = 0xF000;
    cpu.a = 2;
    cpu.y = 0x06;
    assert_eq!(cpu.step(&mut bus), Ok(()));
    assert_eq!(cpu.a, 11);
    assert_eq!(cpu.pc, 0xF002);
}

#[test]
fn step_asl_memory_writes_back() {
    let mut bus = Bus::new(cart_with(&[0x06, 0x90]));
    assert_eq!(bus.write_byte(0x0090, 0x41), Ok(()));
    let mut cpu = Mos6507::new();
    cpu.pc = 0xF000;
    cpu.a = 0x77;
    assert_eq!(cpu.step(&mut bus), Ok(()));
    assert_eq!(bus.read_byte(0x0090), Ok(0x82));
    assert_eq!(cpu.a, 0x77);
    assert_eq!(cpu.flag_set(CARRY_MASK), false);
    assert_eq!(cpu.flag_set(NEGATIVE_MASK), true);
    assert_eq!(cpu.flag_set(ZERO_RESULT_MASK), false);
    assert_eq!(cpu.pc, 0xF002);
}

#[test]
fn step_asl_accumulator() {
    let mut bus = Bus::new(cart_with(&[0x0A]));
    let mut cpu = Mos6507::new();
    cpu.pc = 0xF000;
    cpu.a = 0x40;
    assert_eq!(cpu.step(&mut bus), Ok(()));
    assert_eq!(cpu.a, 0x80);
    assert_eq!(cpu.pc, 0xF001);
}

#[test]
fn step_asl_cartridge_target_faults() {
    // An ASL aimed at the read-only cartridge cannot store its result:
    // the write faults and nothing changes.
    let mut bus = Bus::new(cart_with(&[0x0E, 0x00, 0xF0]));
    let mut cpu = Mos6507::new();
    cpu.pc = 0xF000;
    assert_eq!(
        cpu.step(&mut bus),
        Err(CpuError::Fault(BusFault::ReadOnly(0xF000)))
    );
    assert_eq!(cpu.pc, 0xF000);
    assert_eq!(bus.read_byte(0xF000), Ok(0x0E));
}

#[test]
fn step_branch_taken_relative_to_next_instruction() {
    let mut bus = Bus::new(cart_with(&[0x90, 0x10]));
    let mut cpu = Mos6507::new();
    cpu.pc = 0xF000;
    assert_eq!(cpu.step(&mut bus), Ok(()));
    // Displacement counts from 0xF002, the address right after the
    // two-byte branch instruction.
    assert_eq!(cpu.pc, 0xF012);
}

#[test]
fn step_branch_not_taken() {
    let mut bus = Bus::new(cart_with(&[0x90, 0x10]));
    let mut cpu = Mos6507::new();
    cpu.pc = 0xF000;
    cpu.set_flag(true, CARRY_MASK);
    assert_eq!(cpu.step(&mut bus), Ok(()));
    assert_eq!(cpu.pc, 0xF002);
}

#[test]
fn step_branch_wraps_past_top_of_address_space() {
    let mut cart = vec![0u8; 4096];
    cart[0xFFE] = 0x90;
    cart[0xFFF] = 0x80; // -128
    let mut bus = Bus::new(cart);
    let mut cpu = Mos6507::new();
    cpu.pc = 0xFFFE;
    assert_eq!(cpu.step(&mut bus), Ok(()));
    // 0xFFFE + 2 wraps to 0x0000; minus 128 wraps back to 0xFF80.
    assert_eq!(cpu.pc, 0xFF80);
}

#[test]
fn step_inx_wraps() {
    let mut bus = Bus::new(cart_with(&[0xE8]));
    let mut cpu = Mos6507::new();
    cpu.pc = 0xF000;
    cpu.x = 255;
    assert_eq!(cpu.step(&mut bus), Ok(()));
    assert_eq!(cpu.x, 0);
    assert_eq!(cpu.flag_set(ZERO_RESULT_MASK), true);
    assert_eq!(cpu.pc, 0xF001);
}

#[test]
fn iny_wraps_and_sets_zero() {
    let mut cpu = Mos6507::new();
    cpu.y = 255;

    cpu.iny();

    assert_eq!(cpu.y, 0);
    assert_eq!(cpu.flag_set(NEGATIVE_MASK), false);
    assert_eq!(cpu.flag_set(ZERO_RESULT_MASK), true);
}

#[test]
fn dey_wraps_to_255() {
    let mut cpu = Mos6507::new();
    cpu.y = 0;

    cpu.dey();

    assert_eq!(cpu.y, 255);
    assert_eq!(cpu.flag_set(NEGATIVE_MASK), true);
    assert_eq!(cpu.flag_set(ZERO_RESULT_MASK), false);
}

#[test]
fn run_reports_invalid_opcode() {
    let mut bus = Bus::new(cart_with(&[0xE8, 0xFF]));
    let mut cpu = Mos6507::new();
    assert_eq!(
        cpu.run(&mut bus, 1000),
        Err(CpuError::InvalidOpcode(0xFF))
    );
    assert_eq!(cpu.x, 1);
    assert_eq!(cpu.pc, 0xF001);
}

#[test]
fn run_exhausts_budget() {
    let mut cart = vec![0xE8u8; 4096];
    cart[0xFFC] = 0x00;
    cart[0xFFD] = 0xF0;
    let mut bus = Bus::new(cart);
    let mut cpu = Mos6507::new();
    assert_eq!(cpu.run(&mut bus, 5), Ok(()));
    assert_eq!(cpu.x, 5);
    assert_eq!(cpu.pc, 0xF005);
}

#[test]
fn run_until_predicate_holds() {
    let mut bus = Bus::new(cart_with(&[0xE8, 0xE8, 0xE8, 0xE8]));
    let mut cpu = Mos6507::new();
    cpu.pc = 0xF000;
    let r = cpu.run_until(&mut bus, |c: Mos6507| c.x == 3, 100);
    assert_eq!(r, Ok(true));
    assert_eq!(cpu.x, 3);
    assert_eq!(cpu.pc, 0xF003);
}

#[test]
fn run_until_budget_runs_out() {
    let mut bus = Bus::new(cart_with(&[0xE8, 0xE8, 0xE8, 0xE8]));
    let mut cpu = Mos6507::new();
    cpu.pc = 0xF000;
    let r = cpu.run_until(&mut bus, |c: Mos6507| c.x == 200, 3);
    assert_eq!(r, Ok(false));
    assert_eq!(cpu.x, 3);
}

#[test]
fn power_on_reports_ready() {
    let machine = Atari2600::new();
    assert_eq!(machine.power_on(), Ok(1));
}

#[test]
fn insert_cartridge_replaces_image() {
    let mut machine = Atari2600::new();
    machine.insert_cartridge(vec![1, 2, 3]);
    assert_eq!(machine.bus.cartridge, vec![1, 2, 3]);
    assert_eq!(machine.bus.read_byte(0xF002), Ok(3));
}

#[test]
fn decode_table_entries() {
    assert_eq!(
        decode(0x69),
        Instruction { op: Op::Adc, mode: AddressMode::Immediate }
    );
    assert_eq!(
        decode(0x0A),
        Instruction { op: Op::Asl, mode: AddressMode::Accumulator }
    );
    assert_eq!(
        decode(0x90),
        Instruction { op: Op::Bcc, mode: AddressMode::Relative }
    );
    assert_eq!(
        decode(0x2C),
        Instruction { op: Op::Bit, mode: AddressMode::Absolute }
    );
    assert_eq!(
        decode(0xD1),
        Instruction { op: Op::Cmp, mode: AddressMode::IndirectY }
    );
    assert_eq!(
        decode(0xC8),
        Instruction { op: Op::Iny, mode: AddressMode::Implied }
    );
    assert_eq!(
        decode(0x88),
        Instruction { op: Op::Dey, mode: AddressMode::Implied }
    );
    assert_eq!(decode(0xFF).op, Op::Invalid);
    assert_eq!(decode(0x00).op, Op::Invalid);
}

#[test]
fn get_address_mode_matches_table() {
    let cpu = Mos6507::new();
    assert_eq!(cpu.get_address_mode(0x65), AddressMode::ZeroPage);
    assert_eq!(cpu.get_address_mode(0x7D), AddressMode::AbsoluteX);
    assert_eq!(cpu.get_address_mode(0x61), AddressMode::IndirectX);
}

#[test]
fn get_pc_offset_by_mode() {
    let cpu = Mos6507::new();
    assert_eq!(cpu.get_pc_offset(AddressMode::Absolute), 3);
    assert_eq!(cpu.get_pc_offset(AddressMode::AbsoluteX), 3);
    assert_eq!(cpu.get_pc_offset(AddressMode::AbsoluteY), 3);
    assert_eq!(cpu.get_pc_offset(AddressMode::Accumulator), 1);
    assert_eq!(cpu.get_pc_offset(AddressMode::Implied), 1);
    assert_eq!(cpu.get_pc_offset(AddressMode::Immediate), 2);
    assert_eq!(cpu.get_pc_offset(AddressMode::ZeroPage), 2);
    assert_eq!(cpu.get_pc_offset(AddressMode::Relative), 2);
}

#[test]
fn peripherals_power_on_zeroed() {
    let pia = Pia6532::new();
    assert_eq!(pia.read(0), 0);
    assert_eq!(pia.read(127), 0);
    let tia = Tia1A::new();
    assert_eq!(tia.read(0), 0);
    assert_eq!(tia.read(63), 0);
}

#[test]
fn adc_binary_matches_formula() {
    for &a in &[0u8, 1, 42, 127, 128, 200, 255] {
        for &operand in &[0u8, 1, 9, 127, 128, 255] {
            for &carry in &[0u8, 1] {
                let mut cpu = Mos6507::new();
                cpu.a = a;
                cpu.flags = carry;
                cpu.adc(operand);
                let wide = a as u16 + operand as u16 + carry as u16;
                assert_eq!(cpu.a, (wide % 256) as u8);
                assert_eq!(cpu.flag_set(CARRY_MASK), wide > 255);
                let expected_overflow =
                    (a >= 0x80) == (operand >= 0x80) && ((cpu.a >= 0x80) != (a >= 0x80));
                assert_eq!(cpu.flag_set(OVERFLOW_MASK), expected_overflow);
                assert_eq!(cpu.flag_set(ZERO_RESULT_MASK), cpu.a == 0);
                assert_eq!(cpu.flag_set(NEGATIVE_MASK), cpu.a >= 0x80);
            }
        }
    }
}
