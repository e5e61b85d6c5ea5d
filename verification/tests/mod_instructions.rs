use nestify::bus::Bus;
use nestify::cartridge::Cartridge;
use nestify::clock::Clock;
use nestify::cpu::AddressingMode;
use nestify::cpu::Cpu;
use nestify::registers::cpu_status::CpuStatusRegisterFlags;

fn fresh_cpu() -> Cpu {
    let cartridge = Cartridge::empty();
    let bus = Bus::new(&cartridge);
    let clock = Clock::new();
    Cpu::new(bus, clock)
}

#[test]
fn mod_test_adc_instruction() {
        let mut cpu = fresh_cpu();
        cpu.register_a = 127;
        cpu.write(0x0000, 0x69);
        cpu.write(0x0001, 0x7F);
        cpu.program_counter = 0x0001;
        cpu.status.set_flag(CpuStatusRegisterFlags::Carry, false);

        cpu.execute_adc(&AddressingMode::Immediate);
        assert_eq!(cpu.register_a, 254, "Register A should be 254!");
        assert!(!cpu.status.get_flag(CpuStatusRegisterFlags::Carry), "CPU Status: Carry should be unset!");
        assert!(cpu.status.get_flag(CpuStatusRegisterFlags::Negative), "CPU Status: Negative flag should be set!");
        assert!(!cpu.status.get_flag(CpuStatusRegisterFlags::Zero), "CPU Status: Zero should be unset!");
        assert!(cpu.status.get_flag(CpuStatusRegisterFlags::Overflow), "CPU Status: Overflow flag should be set!");

        cpu.register_a = 128;
        cpu.write(0x0000, 0x69);
        cpu.write(0x0001, 0x80);
        cpu.status.set_flag(CpuStatusRegisterFlags::Carry, true);

        cpu.execute_adc(&AddressingMode::Immediate);
        assert_eq!(cpu.register_a, 1, "Register A should be 1!");
        assert!(cpu.status.get_flag(CpuStatusRegisterFlags::Carry), "CPU Status: Carry should be set!");
        assert!(!cpu.status.get_flag(CpuStatusRegisterFlags::Negative), "CPU Status: Negative flag should be unset!");
        assert!(!cpu.status.get_flag(CpuStatusRegisterFlags::Zero), "CPU Status: Zero should be unset!");
        assert!(cpu.status.get_flag(CpuStatusRegisterFlags::Overflow), "CPU Status: Overflow flag should be set!");
}

#[test]
fn mod_test_and_instruction() {
        let mut cpu = fresh_cpu();
        cpu.register_a = 127;
        cpu.write(0x0000, 0x29);
        cpu.write(0x0001, 0x7E);
        cpu.program_counter = 0x0001;

        cpu.execute_and(&AddressingMode::Immediate);
        assert_eq!(cpu.register_a, 0x7E, "Register A should be 126!");
        assert!(!cpu.status.get_flag(CpuStatusRegisterFlags::Negative), "CPU Status: Negative flag should be unset!");
        assert!(!cpu.status.get_flag(CpuStatusRegisterFlags::Zero), "CPU Status: Zero should be unset!");
}

#[test]
fn mod_test_asl_instruction() {
        let mut cpu = fresh_cpu();
        cpu.register_a = 0x80;
        cpu.execute_asl(&AddressingMode::Accumulator);

        assert_eq!(cpu.register_a, 0x00, "Register A should be 0!");
        assert!(!cpu.status.get_flag(CpuStatusRegisterFlags::Negative), "CPU Status: Negative flag should be unset!");
        assert!(cpu.status.get_flag(CpuStatusRegisterFlags::Zero), "CPU Status: Zero should be set!");
        assert!(cpu.status.get_flag(CpuStatusRegisterFlags::Carry), "CPU Status: Carry should be set!");
}

#[test]
fn mod_test_bit_instruction() {
        let mut cpu = fresh_cpu();

        cpu.register_a = 0xFF;
        cpu.program_counter = 0x0001;
        cpu.write(0x0000, 0xC0);

        // 0x0001 - lobyte of 0x0000, 0x0002 - hibyte of 0x0000
        cpu.write(0x0001, 0x00);
        cpu.write(0x0002, 0x00);
        cpu.execute_bit(&AddressingMode::Absolute);
        assert!(cpu.status.get_flag(CpuStatusRegisterFlags::Negative), "CPU Status: Negative should be set!");
        assert!(cpu.status.get_flag(CpuStatusRegisterFlags::Overflow), "CPU Status: Overflow should be set!");

        cpu.write(0x0000, 0x80);
        cpu.execute_bit(&AddressingMode::Absolute);
        assert!(cpu.status.get_flag(CpuStatusRegisterFlags::Negative), "CPU Status: Negative should be set!");
        assert!(!cpu.status.get_flag(CpuStatusRegisterFlags::Overflow), "CPU Status: Overflow should be unset!");

        cpu.write(0x0000, 0x40);
        cpu.execute_bit(&AddressingMode::Absolute);
        assert!(!cpu.status.get_flag(CpuStatusRegisterFlags::Negative), "CPU Status: Negative should be set!");
        assert!(cpu.status.get_flag(CpuStatusRegisterFlags::Overflow), "CPU Status: Overflow should be unset!");

        cpu.write(0x0000, 0x3F);
        cpu.execute_bit(&AddressingMode::Absolute);
        assert!(!cpu.status.get_flag(CpuStatusRegisterFlags::Negative), "CPU Status: Negative should be unset!");
        assert!(!cpu.status.get_flag(CpuStatusRegisterFlags::Overflow), "CPU Status: Overflow should be unset!");
}

#[test]
fn mod_test_clc_instruction() {
        let mut cpu = fresh_cpu();
        cpu.status.set_flag(CpuStatusRegisterFlags::Carry, true);
        cpu.execute_clc(&AddressingMode::Implicit);

        assert!(!cpu.status.get_flag(CpuStatusRegisterFlags::Carry), "Carry flag should be unset!");
}

#[test]
fn mod_test_cld_instruction() {
        let mut cpu = fresh_cpu();
        cpu.status.set_flag(CpuStatusRegisterFlags::DecimalMode, true);
        cpu.execute_cld(&AddressingMode::Implicit);

        assert!(!cpu.status.get_flag(CpuStatusRegisterFlags::DecimalMode), "Decimal mode flag should be unset!");
}

#[test]
fn mod_test_cli_instruction() {
        let mut cpu = fresh_cpu();
        cpu.status.set_flag(CpuStatusRegisterFlags::InterruptDisable, true);
        cpu.execute_cli(&AddressingMode::Implicit);

        assert!(!cpu.status.get_flag(CpuStatusRegisterFlags::InterruptDisable), "Interrupt disable flag should be unset!");
}

#[test]
fn mod_test_clv_instruction() {
        let mut cpu = fresh_cpu();
        cpu.status.set_flag(CpuStatusRegisterFlags::Overflow, true);
        cpu.execute_clv(&AddressingMode::Implicit);

        assert!(!cpu.status.get_flag(CpuStatusRegisterFlags::Overflow), "Overflow flag should be unset!");
}

#[test]
fn mod_test_cmp_instruction() {
        let mut cpu = fresh_cpu();
        cpu.register_a = 100;
        cpu.write(0x0000, 99);
        cpu.program_counter = 0x0000;
        cpu.execute_cmp(&AddressingMode::Immediate);

        assert!(cpu.status.get_flag(CpuStatusRegisterFlags::Carry), "Carry flag should be set, A >= M!");
        assert!(!cpu.status.get_flag(CpuStatusRegisterFlags::Zero), "Zero flag should be unset, A - M == 1!");
        assert!(!cpu.status.get_flag(CpuStatusRegisterFlags::Negative), "Negative flag should be unset, A - M <= 127!");

        cpu.register_a = 98;
        cpu.program_counter = 0x0000;
        cpu.execute_cmp(&AddressingMode::Immediate);

        assert!(!cpu.status.get_flag(CpuStatusRegisterFlags::Carry), "Carry flag should be set, A >= M!");
        assert!(!cpu.status.get_flag(CpuStatusRegisterFlags::Zero), "Zero flag should be unset, A - M == 1!");
        assert!(cpu.status.get_flag(CpuStatusRegisterFlags::Negative), "Negative flag should be unset, A - M <= 127!");

        cpu.register_a = 99;
        cpu.program_counter = 0x0000;
        cpu.execute_cmp(&AddressingMode::Immediate);

        assert!(cpu.status.get_flag(CpuStatusRegisterFlags::Carry), "Carry flag should be set, A >= M!");
        assert!(cpu.status.get_flag(CpuStatusRegisterFlags::Zero), "Zero flag should be unset, A - M == 1!");
        assert!(!cpu.status.get_flag(CpuStatusRegisterFlags::Negative), "Negative flag should be unset, A - M <= 127!");
}

#[test]
fn mod_test_cpx_instruction() {
        let mut cpu = fresh_cpu();
        cpu.register_x = 100;
        cpu.write(0x0000, 99);
        cpu.program_counter = 0x0000;
        cpu.execute_cpx(&AddressingMode::Immediate);

        assert!(cpu.status.get_flag(CpuStatusRegisterFlags::Carry), "Carry flag should be set, A >= M!");
        assert!(!cpu.status.get_flag(CpuStatusRegisterFlags::Zero), "Zero flag should be unset, A - M == 1!");
        assert!(!cpu.status.get_flag(CpuStatusRegisterFlags::Negative), "Negative flag should be unset, A - M <= 127!");

        cpu.register_x = 98;
        cpu.program_counter = 0x0000;
        cpu.execute_cpx(&AddressingMode::Immediate);

        assert!(!cpu.status.get_flag(CpuStatusRegisterFlags::Carry), "Carry flag should be set, A >= M!");
        assert!(!cpu.status.get_flag(CpuStatusRegisterFlags::Zero), "Zero flag should be unset, A - M == 1!");
        assert!(cpu.status.get_flag(CpuStatusRegisterFlags::Negative), "Negative flag should be unset, A - M <= 127!");

        cpu.register_x = 99;
        cpu.program_counter = 0x0000;
        cpu.execute_cpx(&AddressingMode::Immediate);

        assert!(cpu.status.get_flag(CpuStatusRegisterFlags::Carry), "Carry flag should be set, A >= M!");
        assert!(cpu.status.get_flag(CpuStatusRegisterFlags::Zero), "Zero flag should be unset, A - M == 1!");
        assert!(!cpu.status.get_flag(CpuStatusRegisterFlags::Negative), "Negative flag should be unset, A - M <= 127!");
}

#[test]
fn mod_test_cpy_instruction() {
        let mut cpu = fresh_cpu();
        cpu.register_y = 100;
        cpu.write(0x0000, 99);
        cpu.program_counter = 0x0000;
        cpu.execute_cpy(&AddressingMode::Immediate);

        assert!(cpu.status.get_flag(CpuStatusRegisterFlags::Carry), "Carry flag should be set, A >= M!");
        assert!(!cpu.status.get_flag(CpuStatusRegisterFlags::Zero), "Zero flag should be unset, A - M == 1!");
        assert!(!cpu.status.get_flag(CpuStatusRegisterFlags::Negative), "Negative flag should be unset, A - M <= 127!");

        cpu.register_y = 98;
        cpu.program_counter = 0x0000;
        cpu.execute_cpy(&AddressingMode::Immediate);

        assert!(!cpu.status.get_flag(CpuStatusRegisterFlags::Carry), "Carry flag should be set, A >= M!");
        assert!(!cpu.status.get_flag(CpuStatusRegisterFlags::Zero), "Zero flag should be unset, A - M == 1!");
        assert!(cpu.status.get_flag(CpuStatusRegisterFlags::Negative), "Negative flag should be unset, A - M <= 127!");

        cpu.register_y = 99;
        cpu.program_counter = 0x0000;
        cpu.execute_cpy(&AddressingMode::Immediate);

        assert!(cpu.status.get_flag(CpuStatusRegisterFlags::Carry), "Carry flag should be set, A >= M!");
        assert!(cpu.status.get_flag(CpuStatusRegisterFlags::Zero), "Zero flag should be unset, A - M == 1!");
        assert!(!cpu.status.get_flag(CpuStatusRegisterFlags::Negative), "Negative flag should be unset, A - M <= 127!");
}

#[test]
fn mod_test_dec_instruction() {
        let mut cpu = fresh_cpu();
        cpu.write(0x0001, 129);
        cpu.write(0x0002, 0x1);
        cpu.program_counter = 0x0002;
        cpu.execute_dec(&AddressingMode::ZeroPageX);

        let memory_value = cpu.read(0x0001);
        assert_eq!(memory_value, 128, "Memory value at 0x0001 should be 128!");
        assert!(!cpu.status.get_flag(CpuStatusRegisterFlags::Zero), "Zero flag should be unset!");
        assert!(cpu.status.get_flag(CpuStatusRegisterFlags::Negative), "Negative flag should be set!");
}

#[test]
fn mod_test_dex_instruction() {
        let mut cpu = fresh_cpu();
        cpu.register_x = 128;
        cpu.execute_dex(&AddressingMode::Implicit);

        assert_eq!(cpu.register_x, 127, "Register X should be 127!");
        assert!(!cpu.status.get_flag(CpuStatusRegisterFlags::Zero), "Zero flag should be unset!");
        assert!(!cpu.status.get_flag(CpuStatusRegisterFlags::Negative), "Negative flag should be unset!");
}

#[test]
fn mod_test_dey_instruction() {
        let mut cpu = fresh_cpu();
        cpu.register_y = 128;
        cpu.execute_dey(&AddressingMode::Implicit);

        assert_eq!(cpu.register_y, 127, "Register Y should be 127!");
        assert!(!cpu.status.get_flag(CpuStatusRegisterFlags::Zero), "Zero flag should be unset!");
        assert!(!cpu.status.get_flag(CpuStatusRegisterFlags::Negative), "Negative flag should be unset!");
}

#[test]
fn mod_test_eor_instruction() {
        let mut cpu = fresh_cpu();
        cpu.register_a = 12;
        cpu.write(0x0000, 37);
        cpu.program_counter = 0x0000;
        cpu.execute_eor(&AddressingMode::Immediate);

        assert_eq!(cpu.register_a, 41, "Register A should contain result of 12 ^ 37!");
        assert!(!cpu.status.get_flag(CpuStatusRegisterFlags::Zero), "Zero flag should be unset!");
        assert!(!cpu.status.get_flag(CpuStatusRegisterFlags::Negative), "Negative flag should be unset!");
}

#[test]
fn mod_test_inc_instruction() {
        let mut cpu = fresh_cpu();
        cpu.write(0x0001, 129);
        cpu.write(0x0002, 0x1);
        cpu.program_counter = 0x0002;
        cpu.execute_inc(&AddressingMode::ZeroPageX);

        let memory_value = cpu.read(0x0001);
        assert_eq!(memory_value, 130, "Memory value at 0x0001 should be 130!");
        assert!(!cpu.status.get_flag(CpuStatusRegisterFlags::Zero), "Zero flag should be unset!");
        assert!(cpu.status.get_flag(CpuStatusRegisterFlags::Negative), "Negative flag should be set!");
}

#[test]
fn mod_test_inx_instruction() {
        let mut cpu = fresh_cpu();
        cpu.register_x = 128;
        cpu.execute_inx(&AddressingMode::Implicit);

        assert_eq!(cpu.register_x, 129, "Register X should be 127!");
        assert!(!cpu.status.get_flag(CpuStatusRegisterFlags::Zero), "Zero flag should be unset!");
        assert!(cpu.status.get_flag(CpuStatusRegisterFlags::Negative), "Negative flag should be set!");
}

#[test]
fn mod_test_iny_instruction() {
        let mut cpu = fresh_cpu();

        cpu.register_y = 128;
        cpu.execute_iny(&AddressingMode::Implicit);

        assert_eq!(cpu.register_y, 129, "Register Y should be 127!");
        assert!(!cpu.status.get_flag(CpuStatusRegisterFlags::Zero), "Zero flag should be unset!");
        assert!(cpu.status.get_flag(CpuStatusRegisterFlags::Negative), "Negative flag should be set!");
}

#[test]
fn mod_test_jmp_instruction() {
        let mut cpu = fresh_cpu();

        cpu.program_counter = 0x0000;
        cpu.write(0x0000, 0xFF);
        cpu.write(0x0001, 0xAA);
        cpu.execute_jmp(&AddressingMode::Absolute);

        assert_eq!(cpu.program_counter, 0xAAFF, "Program counter should be 0xAAFF!");
}

#[test]
fn mod_test_lda_instruction() {
        let mut cpu = fresh_cpu();

        cpu.program_counter = 0x0000;
        cpu.write(0x0000, 0xAA);
        cpu.execute_lda(&AddressingMode::Immediate);

        assert_eq!(cpu.register_a, 0xAA, "Register A should be 0xAA!");
        assert!(cpu.status.get_flag(CpuStatusRegisterFlags::Negative), "Negative flag should be set!");
        assert!(!cpu.status.get_flag(CpuStatusRegisterFlags::Zero), "Negative flag should be unset!");

        cpu.write(0x0000, 0x00);
        cpu.execute_lda(&AddressingMode::Immediate);

        assert_eq!(cpu.register_a, 0x00, "Register A should be 0x00!");
        assert!(!cpu.status.get_flag(CpuStatusRegisterFlags::Negative), "Negative flag should be unset!");
        assert!(cpu.status.get_flag(CpuStatusRegisterFlags::Zero), "Negative flag should be set!");
}

#[test]
fn mod_test_ldx_instruction() {
        let mut cpu = fresh_cpu();

        cpu.program_counter = 0x0000;
        cpu.write(0x0000, 0xAA);
        cpu.execute_ldx(&AddressingMode::Immediate);

        assert_eq!(cpu.register_x, 0xAA, "Register A should be 0xAA!");
        assert!(cpu.status.get_flag(CpuStatusRegisterFlags::Negative), "Negative flag should be set!");
        assert!(!cpu.status.get_flag(CpuStatusRegisterFlags::Zero), "Negative flag should be unset!");

        cpu.write(0x0000, 0x00);
        cpu.execute_ldx(&AddressingMode::Immediate);

        assert_eq!(cpu.register_x, 0x00, "Register A should be 0x00!");
        assert!(!cpu.status.get_flag(CpuStatusRegisterFlags::Negative), "Negative flag should be unset!");
        assert!(cpu.status.get_flag(CpuStatusRegisterFlags::Zero), "Negative flag should be set!");
}

#[test]
fn mod_test_ldy_instruction() {
        let mut cpu = fresh_cpu();

        cpu.program_counter = 0x0000;
        cpu.write(0x0000, 0xAA);
        cpu.execute_ldy(&AddressingMode::Immediate);

        assert_eq!(cpu.register_y, 0xAA, "Register A should be 0xAA!");
        assert!(cpu.status.get_flag(CpuStatusRegisterFlags::Negative), "Negative flag should be set!");
        assert!(!cpu.status.get_flag(CpuStatusRegisterFlags::Zero), "Negative flag should be unset!");

        cpu.write(0x0000, 0x00);
        cpu.execute_ldy(&AddressingMode::Immediate);

        assert_eq!(cpu.register_y, 0x00, "Register A should be 0x00!");
        assert!(!cpu.status.get_flag(CpuStatusRegisterFlags::Negative), "Negative flag should be unset!");
        assert!(cpu.status.get_flag(CpuStatusRegisterFlags::Zero), "Negative flag should be set!");
}

#[test]
fn mod_test_lsr_instruction() {
        let mut cpu = fresh_cpu();

        cpu.register_a = 0x81;
        cpu.execute_lsr(&AddressingMode::Accumulator);

        assert_eq!(cpu.register_a, 0x40, "Register A should be 0x40!");
        assert!(!cpu.status.get_flag(CpuStatusRegisterFlags::Negative), "CPU Status: Negative flag should be unset!");
        assert!(!cpu.status.get_flag(CpuStatusRegisterFlags::Zero), "CPU Status: Zero should be unset!");
        assert!(cpu.status.get_flag(CpuStatusRegisterFlags::Carry), "CPU Status: Carry should be set!");
}

#[test]
fn mod_test_ora_instruction() {
        let mut cpu = fresh_cpu();

        cpu.register_a = 0x81;
        cpu.program_counter = 0x0000;
        cpu.write(0x0000, 0xFF);
        cpu.execute_ora(&AddressingMode::Immediate);

        assert_eq!(cpu.register_a, 0xFF, "Register A should be 0xFF!");
        assert!(!cpu.status.get_flag(CpuStatusRegisterFlags::Zero), "Zero flag should be unset!");
        assert!(cpu.status.get_flag(CpuStatusRegisterFlags::Negative), "Negative flag should be set!");
}

#[test]
fn mod_test_pha_instruction() {
        let mut cpu = fresh_cpu();

        let stack_pointer_buf = cpu.stack_pointer;

        cpu.execute_pha(&AddressingMode::Implicit);
        assert_eq!(cpu.stack_pointer, stack_pointer_buf.wrapping_sub(1), "Invalid Stack pointer!");

        let register_from_stack = cpu.read(0x0100 + stack_pointer_buf as u16);
        assert_eq!(cpu.register_a, register_from_stack, "Invalid value of register inside Stack!");
}

#[test]
fn mod_test_pla_instruction() {
        let mut cpu = fresh_cpu();

        cpu.write(0x150, 0xFF);
        cpu.stack_pointer = 0x4F;
        cpu.execute_pla(&AddressingMode::Implicit);

        assert_eq!(cpu.register_a, 0xFF, "Register A should have 0xFF!");
        assert!(cpu.status.get_flag(CpuStatusRegisterFlags::Negative), "Negative flag should be set!");
        assert!(!cpu.status.get_flag(CpuStatusRegisterFlags::Zero), "Zero flag should be unset!");

        cpu.write(0x150, 0x00);
        cpu.stack_pointer = 0x4F;
        cpu.execute_pla(&AddressingMode::Implicit);

        assert_eq!(cpu.register_a, 0x00, "Register A should have 0x00!");
        assert!(!cpu.status.get_flag(CpuStatusRegisterFlags::Negative), "Negative flag should be unset!");
        assert!(cpu.status.get_flag(CpuStatusRegisterFlags::Zero), "Zero flag should be set!");
}

#[test]
fn mod_test_ror_instruction() {
        let mut cpu = fresh_cpu();

        cpu.status.set_flag(CpuStatusRegisterFlags::Zero, true);
        cpu.write(0x0000, 0xAA);
        cpu.execute_ror(&AddressingMode::ZeroPage);

        let zeropage_value = cpu.read(0x0000);
        assert_eq!(zeropage_value, 0xAAu8.rotate_left(1), "Invalid value in ZeroPage!");
        assert!(!cpu.status.get_flag(CpuStatusRegisterFlags::Carry), "Carry flag should be set!");
        assert!(!cpu.status.get_flag(CpuStatusRegisterFlags::Zero), "Zero flag should follow the non-zero result!");
        assert!(!cpu.status.get_flag(CpuStatusRegisterFlags::Negative), "Negative flag should be unset!");

        cpu.register_a = 0xAA;
        cpu.execute_ror(&AddressingMode::Accumulator);

        assert_eq!(cpu.register_a, 0xAAu8.rotate_left(1), "Invalid value in Register A!");
        assert!(!cpu.status.get_flag(CpuStatusRegisterFlags::Carry), "Carry flag should be set!");
        assert!(!cpu.status.get_flag(CpuStatusRegisterFlags::Zero), "Zero flag should be unset!");
        assert!(!cpu.status.get_flag(CpuStatusRegisterFlags::Negative), "Negative flag should be unset!");
}

#[test]
fn mod_test_rti_instruction() {
        let mut cpu = fresh_cpu();

        cpu.write(0x0152, 0xFF);
        cpu.write(0x0151, 0xAB);
        cpu.write(0x0150, 0b1010_1010);
        cpu.stack_pointer = 0x4F;
        cpu.execute_rti(&AddressingMode::Implicit);

        assert_eq!(cpu.program_counter, 0xFFAB, "Program counter should have 0xAAFF!");
        assert_eq!(cpu.status.get(), 0b1010_1010, "Status should have 0b10101010!");
}

#[test]
fn mod_test_sbc_instruction() {
        let mut cpu = fresh_cpu();

        cpu.register_a = 0x01;
        cpu.program_counter = 0x0000;
        cpu.write(0x0000, 0x80);
        cpu.status.set_flag(CpuStatusRegisterFlags::Carry, false);
        cpu.execute_sbc(&AddressingMode::Immediate);

        assert_eq!(cpu.register_a, 0x80, "Register A should have 0x80!");
        assert!(!cpu.status.get_flag(CpuStatusRegisterFlags::Carry), "Carry flag should be set!");
        assert!(!cpu.status.get_flag(CpuStatusRegisterFlags::Zero), "Zero flag should be unset!");
        assert!(cpu.status.get_flag(CpuStatusRegisterFlags::Overflow), "Overflow flag should be set!");
        assert!(cpu.status.get_flag(CpuStatusRegisterFlags::Negative), "Negative flag should be set!");

        cpu.register_a = 0x80;
        cpu.program_counter = 0x0000;
        cpu.write(0x0000, 0x01);
        cpu.status.set_flag(CpuStatusRegisterFlags::Carry, false);
        cpu.execute_sbc(&AddressingMode::Immediate);

        assert_eq!(cpu.register_a, 0x7E, "Register A should have 0x80!");
        assert!(cpu.status.get_flag(CpuStatusRegisterFlags::Carry), "Carry flag should be set!");
        assert!(!cpu.status.get_flag(CpuStatusRegisterFlags::Zero), "Zero flag should be unset!");
        assert!(cpu.status.get_flag(CpuStatusRegisterFlags::Overflow), "Overflow flag should be set!");
        assert!(!cpu.status.get_flag(CpuStatusRegisterFlags::Negative), "Negative flag should be set!");
}

#[test]
fn mod_test_sec_instruction() {
        let mut cpu = fresh_cpu();

        cpu.status.set_flag(CpuStatusRegisterFlags::Carry, false);
        cpu.execute_sec(&AddressingMode::Implicit);

        assert!(cpu.status.get_flag(CpuStatusRegisterFlags::Carry), "Carry flag should be set!");
}

#[test]
fn mod_test_sed_instruction() {
        let mut cpu = fresh_cpu();

        cpu.status.set_flag(CpuStatusRegisterFlags::DecimalMode, false);
        cpu.execute_sed(&AddressingMode::Implicit);

        assert!(cpu.status.get_flag(CpuStatusRegisterFlags::DecimalMode), "Decimal mode flag should be set!");
}

#[test]
fn mod_test_sei_instruction() {
        let mut cpu = fresh_cpu();

        cpu.status.set_flag(CpuStatusRegisterFlags::InterruptDisable, false);
        cpu.execute_sei(&AddressingMode::Implicit);

        assert!(cpu.status.get_flag(CpuStatusRegisterFlags::InterruptDisable), "Interrupt disable flag should be set!");
}

#[test]
fn mod_test_sta_instruction() {
        let mut cpu = fresh_cpu();

        cpu.register_a = 0xFF;
        cpu.write(0x0001, 0x00);
        cpu.program_counter = 0x0001;
        cpu.execute_sta(&AddressingMode::ZeroPage);

        let result = cpu.read(0x0000);
        assert_eq!(result, 0xFF, "Zero page value should have 0xFF!");
}

#[test]
fn mod_test_stx_instruction() {
        let mut cpu = fresh_cpu();

        cpu.register_x = 0xFF;
        cpu.write(0x0001, 0x00);
        cpu.program_counter = 0x0001;
        cpu.execute_stx(&AddressingMode::ZeroPage);

        let result = cpu.read(0x0000);
        assert_eq!(result, 0xFF, "Zero page value should have 0xFF!");
}

#[test]
fn mod_test_sty_instruction() {
        let mut cpu = fresh_cpu();

        cpu.register_y = 0xFF;
        cpu.write(0x0001, 0x00);
        cpu.program_counter = 0x0001;
        cpu.execute_sty(&AddressingMode::ZeroPage);

        let result = cpu.read(0x0000);
        assert_eq!(result, 0xFF, "Zero page value should have 0xFF!");
}

#[test]
fn mod_test_tax_instruction() {
        let mut cpu = fresh_cpu();

        cpu.register_a = 0xFF;
        cpu.execute_tax(&AddressingMode::Implicit);

        assert_eq!(cpu.register_x, 0xFF, "Register X should have 0xFF!");
        assert!(cpu.status.get_flag(CpuStatusRegisterFlags::Negative), "Negative flag should be set!");
        assert!(!cpu.status.get_flag(CpuStatusRegisterFlags::Zero), "Negative flag should be unset!");

        cpu.register_a = 0x00;
        cpu.execute_tax(&AddressingMode::Implicit);
        assert_eq!(cpu.register_x, 0x00, "Register X should have 0x00!");
        assert!(!cpu.status.get_flag(CpuStatusRegisterFlags::Negative), "Negative flag should be unset!");
        assert!(cpu.status.get_flag(CpuStatusRegisterFlags::Zero), "Negative flag should be set!");
}

#[test]
fn mod_test_tay_instruction() {
        let mut cpu = fresh_cpu();

        cpu.register_a = 0xFF;
        cpu.execute_tay(&AddressingMode::Implicit);

        assert_eq!(cpu.register_y, 0xFF, "Register Y should have 0xFF!");
        assert!(cpu.status.get_flag(CpuStatusRegisterFlags::Negative), "Negative flag should be set!");
        assert!(!cpu.status.get_flag(CpuStatusRegisterFlags::Zero), "Negative flag should be unset!");

        cpu.register_a = 0x00;
        cpu.execute_tay(&AddressingMode::Implicit);
        assert_eq!(cpu.register_y, 0x00, "Register Y should have 0x00!");
        assert!(!cpu.status.get_flag(CpuStatusRegisterFlags::Negative), "Negative flag should be unset!");
        assert!(cpu.status.get_flag(CpuStatusRegisterFlags::Zero), "Negative flag should be set!");
}

#[test]
fn mod_test_tsx_instruction() {
        let mut cpu = fresh_cpu();

        cpu.stack_pointer = 0xAB;
        cpu.execute_tsx(&AddressingMode::Implicit);

        assert_eq!(cpu.register_x, 0xAB, "Register X should have 0xAB!");
        assert!(cpu.status.get_flag(CpuStatusRegisterFlags::Negative), "Negative flag should be set!");
        assert!(!cpu.status.get_flag(CpuStatusRegisterFlags::Zero), "Negative flag should be unset!");

        cpu.stack_pointer = 0x00;
        cpu.execute_tsx(&AddressingMode::Implicit);
        assert_eq!(cpu.register_x, 0x00, "Register X should have 0x00!");
        assert!(!cpu.status.get_flag(CpuStatusRegisterFlags::Negative), "Negative flag should be unset!");
        assert!(cpu.status.get_flag(CpuStatusRegisterFlags::Zero), "Negative flag should be set!");
}

#[test]
fn mod_test_txa_instruction() {
        let mut cpu = fresh_cpu();

        cpu.register_x = 0xAB;
        cpu.execute_txa(&AddressingMode::Implicit);

        assert_eq!(cpu.register_a, 0xAB, "Register A should have 0xAB!");
        assert!(cpu.status.get_flag(CpuStatusRegisterFlags::Negative), "Negative flag should be set!");
        assert!(!cpu.status.get_flag(CpuStatusRegisterFlags::Zero), "Negative flag should be unset!");

        cpu.register_x = 0x00;
        cpu.execute_txa(&AddressingMode::Implicit);
        assert_eq!(cpu.register_a, 0x00, "Register A should have 0x00!");
        assert!(!cpu.status.get_flag(CpuStatusRegisterFlags::Negative), "Negative flag should be unset!");
        assert!(cpu.status.get_flag(CpuStatusRegisterFlags::Zero), "Negative flag should be set!");
}

#[test]
fn mod_test_txs_instruction() {
        let mut cpu = fresh_cpu();

        cpu.register_x = 0xAB;
        cpu.execute_txs(&AddressingMode::Implicit);

        assert_eq!(cpu.stack_pointer, 0xAB, "Stack pointer should have 0xAB!");
}

#[test]
fn mod_test_tya_instruction() {
        let mut cpu = fresh_cpu();

        cpu.register_y = 0xAB;
        cpu.execute_tya(&AddressingMode::Implicit);

        assert_eq!(cpu.register_a, 0xAB, "Register A should have 0xAB!");
        assert!(cpu.status.get_flag(CpuStatusRegisterFlags::Negative), "Negative flag should be set!");
        assert!(!cpu.status.get_flag(CpuStatusRegisterFlags::Zero), "Negative flag should be unset!");

        cpu.register_y = 0x00;
        cpu.execute_tya(&AddressingMode::Implicit);
        assert_eq!(cpu.register_a, 0x00, "Register A should have 0x00!");
        assert!(!cpu.status.get_flag(CpuStatusRegisterFlags::Negative), "Negative flag should be unset!");
        assert!(cpu.status.get_flag(CpuStatusRegisterFlags::Zero), "Negative flag should be set!");
}
