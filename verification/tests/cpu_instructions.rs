use nestify::bus::Bus;
use nestify::cartridge::Cartridge;
use nestify::clock::Clock;
use nestify::cpu::AddressingMode;
use nestify::cpu::Cpu;
use nestify::registers::cpu_status::CpuStatusRegisterFlags;

fn fresh_cpu() -> Cpu {
    let cartridge = Cartridge::empty();
    let bus = Bus::new(&cartridge);
    let clock = Clock::new();
    Cpu::new(bus, clock)
}

#[test]
fn cpu_test_adc_instruction() {
        let mut cpu = fresh_cpu();
        cpu.register_a = 127;
        cpu.write(0x0000, 0x69);
        cpu.write(0x0001, 0x7F);
        cpu.program_counter = 0x0001;
        cpu.status.set_flag(CpuStatusRegisterFlags::Carry, false);

        cpu.execute_adc(&AddressingMode::Immediate);
        assert_eq!(cpu.register_a, 254, "Register A should be 254!");
        assert!(!cpu.status.get_flag(CpuStatusRegisterFlags::Carry), "CPU Status: Carry should be unset!");
        assert!(cpu.status.get_flag(CpuStatusRegisterFlags::Negative), "CPU Status: Negative flag should be set!");
        assert!(!cpu.status.get_flag(CpuStatusRegisterFlags::Zero), "CPU Status: Zero should be unset!");
        assert!(cpu.status.get_flag(CpuStatusRegisterFlags::Overflow), "CPU Status: Overflow flag should be set!");

        cpu.register_a = 128;
        cpu.write(0x0000, 0x69);
        cpu.write(0x0001, 0x80);
        cpu.status.set_flag(CpuStatusRegisterFlags::Carry, true);

        cpu.execute_adc(&AddressingMode::Immediate);
        assert_eq!(cpu.register_a, 1, "Register A should be 1!");
        assert!(cpu.status.get_flag(CpuStatusRegisterFlags::Carry), "CPU Status: Carry should be set!");
        assert!(!cpu.status.get_flag(CpuStatusRegisterFlags::Negative), "CPU Status: Negative flag should be unset!");
        assert!(!cpu.status.get_flag(CpuStatusRegisterFlags::Zero), "CPU Status: Zero should be unset!");
        assert!(cpu.status.get_flag(CpuStatusRegisterFlags::Overflow), "CPU Status: Overflow flag should be set!");
}

#[test]
fn cpu_test_and_instruction() {
        let mut cpu = fresh_cpu();
        cpu.register_a = 127;
        cpu.write(0x0000, 0x29);
        cpu.write(0x0001, 0x7E);
        cpu.program_counter = 0x0001;

        cpu.execute_and(&AddressingMode::Immediate);
        assert_eq!(cpu.register_a, 0x7E, "Register A should be 126!");
        assert!(!cpu.status.get_flag(CpuStatusRegisterFlags::Negative), "CPU Status: Negative flag should be unset!");
        assert!(!cpu.status.get_flag(CpuStatusRegisterFlags::Zero), "CPU Status: Zero should be unset!");
}

#[test]
fn cpu_test_asl_instruction() {
        let mut cpu = fresh_cpu();
        cpu.register_a = 0x80;
        cpu.execute_asl(&AddressingMode::Accumulator);

        assert_eq!(cpu.register_a, 0x00, "Register A should be 0!");
        assert!(!cpu.status.get_flag(CpuStatusRegisterFlags::Negative), "CPU Status: Negative flag should be unset!");
        assert!(cpu.status.get_flag(CpuStatusRegisterFlags::Zero), "CPU Status: Zero should be set!");
        assert!(cpu.status.get_flag(CpuStatusRegisterFlags::Carry), "CPU Status: Carry should be set!");
}

#[test]
fn cpu_test_bcc_instruction() {
        let mut cpu = fresh_cpu();

        cpu.program_counter = 0x0001;
        cpu.write(0x0001, 0x04);
        cpu.status.set_flag(CpuStatusRegisterFlags::Carry, false);
        cpu.execute_bcc();
        assert_eq!(cpu.program_counter, 0x0006, "CPU PC should be 0x0006 after BCC with inactive Carry flag!");

        cpu.program_counter = 0x0001;
        cpu.status.set_flag(CpuStatusRegisterFlags::Carry, true);
        cpu.execute_bcc();
        assert_eq!(cpu.program_counter, 0x0001, "CPU PC should be 0x0001 after BCC with active Carry flag!");
}

#[test]
fn cpu_test_bcs_instruction() {
        let mut cpu = fresh_cpu();

        cpu.program_counter = 0x0001;
        cpu.write(0x0001, 0x04);
        cpu.status.set_flag(CpuStatusRegisterFlags::Carry, false);
        cpu.execute_bcs();
        assert_eq!(cpu.program_counter, 0x0001, "CPU PC should be 0x0001 after BCS with inactive Carry flag!");

        cpu.program_counter = 0x0001;
        cpu.status.set_flag(CpuStatusRegisterFlags::Carry, true);
        cpu.execute_bcs();
        assert_eq!(cpu.program_counter, 0x0006, "CPU PC should be 0x0006 after BCS with active Carry flag!");
}

#[test]
fn cpu_test_beq_instruction() {
        let mut cpu = fresh_cpu();

        cpu.program_counter = 0x0001;
        cpu.write(0x0001, 0x04);
        cpu.status.set_flag(CpuStatusRegisterFlags::Zero, false);
        cpu.execute_beq();
        assert_eq!(cpu.program_counter, 0x0001, "CPU PC should be 0x0001 after BEQ with inactive Zero flag!");

        cpu.program_counter = 0x0001;
        cpu.status.set_flag(CpuStatusRegisterFlags::Zero, true);
        cpu.execute_beq();
        assert_eq!(cpu.program_counter, 0x0006, "CPU PC should be 0x0006 after BEQ with active Zero flag!");
}

#[test]
fn cpu_test_bit_instruction() {
        let mut cpu = fresh_cpu();

        cpu.register_a = 0xFF;
        cpu.program_counter = 0x0001;
        cpu.write(0x0000, 0xC0);

        // 0x0001 - lobyte of 0x0000, 0x0002 - hibyte of 0x0000
        cpu.write(0x0001, 0x00);
        cpu.write(0x0002, 0x00);
        cpu.execute_bit(&AddressingMode::Absolute);
        assert!(cpu.status.get_flag(CpuStatusRegisterFlags::Negative), "CPU Status: Negative should be set!");
        assert!(cpu.status.get_flag(CpuStatusRegisterFlags::Overflow), "CPU Status: Overflow should be set!");

        cpu.write(0x0000, 0x80);
        cpu.execute_bit(&AddressingMode::Absolute);
        assert!(cpu.status.get_flag(CpuStatusRegisterFlags::Negative), "CPU Status: Negative should be set!");
        assert!(!cpu.status.get_flag(CpuStatusRegisterFlags::Overflow), "CPU Status: Overflow should be unset!");

        cpu.write(0x0000, 0x40);
        cpu.execute_bit(&AddressingMode::Absolute);
        assert!(!cpu.status.get_flag(CpuStatusRegisterFlags::Negative), "CPU Status: Negative should be set!");
        assert!(cpu.status.get_flag(CpuStatusRegisterFlags::Overflow), "CPU Status: Overflow should be unset!");

        cpu.write(0x0000, 0x3F);
        cpu.execute_bit(&AddressingMode::Absolute);
        assert!(!cpu.status.get_flag(CpuStatusRegisterFlags::Negative), "CPU Status: Negative should be unset!");
        assert!(!cpu.status.get_flag(CpuStatusRegisterFlags::Overflow), "CPU Status: Overflow should be unset!");
}

#[test]
fn cpu_test_bmi_instruction() {
        let mut cpu = fresh_cpu();

        cpu.program_counter = 0x0001;
        cpu.write(0x0001, 0x04);
        cpu.status.set_flag(CpuStatusRegisterFlags::Negative, false);
        cpu.execute_bmi();
        assert_eq!(cpu.program_counter, 0x0001, "CPU PC should be 0x0001 after BMI with inactive Negative flag!");

        cpu.program_counter = 0x0001;
        cpu.status.set_flag(CpuStatusRegisterFlags::Negative, true);
        cpu.execute_bmi();
        assert_eq!(cpu.program_counter, 0x0006, "CPU PC should be 0x0006 after BMI with active negative flag!");
}

#[test]
fn cpu_test_bne_instruction() {
        let mut cpu = fresh_cpu();

        cpu.program_counter = 0x0001;
        cpu.write(0x0001, 0x04);
        cpu.status.set_flag(CpuStatusRegisterFlags::Zero, false);
        cpu.execute_bne();
        assert_eq!(cpu.program_counter, 0x0006, "CPU PC should be 0x0006 after BNE with inactive Zero flag!");

        cpu.program_counter = 0x0001;
        cpu.status.set_flag(CpuStatusRegisterFlags::Zero, true);
        cpu.execute_bne();
        assert_eq!(cpu.program_counter, 0x0001, "CPU PC should be 0x0001 after BNE with active Zero flag!");
}

#[test]
fn cpu_test_bpl_instruction() {
        let mut cpu = fresh_cpu();

        cpu.program_counter = 0x0001;
        cpu.write(0x0001, 0x04);
        cpu.status.set_flag(CpuStatusRegisterFlags::Negative, false);
        cpu.execute_bpl();
        assert_eq!(cpu.program_counter, 0x0006, "CPU PC should be 0x0006 after BPL with inactive Negative flag!");

        cpu.program_counter = 0x0001;
        cpu.status.set_flag(CpuStatusRegisterFlags::Negative, true);
        cpu.execute_bpl();
        assert_eq!(cpu.program_counter, 0x0001, "CPU PC should be 0x0001 after BPL with active Negative flag!");
}

#[test]
fn cpu_test_bvc_instruction() {
        let mut cpu = fresh_cpu();

        cpu.program_counter = 0x0001;
        cpu.write(0x0001, 0x04);
        cpu.status.set_flag(CpuStatusRegisterFlags::Overflow, false);
        cpu.execute_bvc();
        assert_eq!(cpu.program_counter, 0x0006, "CPU PC should be 0x0006 after BVC with inactive Overflow flag!");

        cpu.program_counter = 0x0001;
        cpu.status.set_flag(CpuStatusRegisterFlags::Overflow, true);
        cpu.execute_bvc();
        assert_eq!(cpu.program_counter, 0x0001, "CPU PC should be 0x0001 after BVC with active Overflow flag!");
}

#[test]
fn cpu_test_bvs_instruction() {
        let mut cpu = fresh_cpu();

        cpu.program_counter = 0x0001;
        cpu.write(0x0001, 0x04);
        cpu.status.set_flag(CpuStatusRegisterFlags::Overflow, true);
        cpu.execute_bvs();
        assert_eq!(cpu.program_counter, 0x0006, "CPU PC should be 0x0006 after BVC with active Overflow flag!");

        cpu.program_counter = 0x0001;
        cpu.status.set_flag(CpuStatusRegisterFlags::Overflow, false);
        cpu.execute_bvs();
        assert_eq!(cpu.program_counter, 0x0001, "CPU PC should be 0x0001 after BVC with inactive Overflow flag!");
}

#[test]
fn cpu_test_clc_instruction() {
        let mut cpu = fresh_cpu();
        cpu.status.set_flag(CpuStatusRegisterFlags::Carry, true);
        cpu.execute_clc(&AddressingMode::Implicit);

        assert!(!cpu.status.get_flag(CpuStatusRegisterFlags::Carry), "Carry flag should be unset!");
}

#[test]
fn cpu_test_cld_instruction() {
        let mut cpu = fresh_cpu();
        cpu.status.set_flag(CpuStatusRegisterFlags::DecimalMode, true);
        cpu.execute_cld(&AddressingMode::Implicit);

        assert!(!cpu.status.get_flag(CpuStatusRegisterFlags::DecimalMode), "Decimal mode flag should be unset!");
}

#[test]
fn cpu_test_cli_instruction() {
        let mut cpu = fresh_cpu();
        cpu.status.set_flag(CpuStatusRegisterFlags::InterruptDisable, true);
        cpu.execute_cli(&AddressingMode::Implicit);

        assert!(!cpu.status.get_flag(CpuStatusRegisterFlags::InterruptDisable), "Interrupt disable flag should be unset!");
}

#[test]
fn cpu_test_clv_instruction() {
        let mut cpu = fresh_cpu();
        cpu.status.set_flag(CpuStatusRegisterFlags::Overflow, true);
        cpu.execute_clv(&AddressingMode::Implicit);

        assert!(!cpu.status.get_flag(CpuStatusRegisterFlags::Overflow), "Overflow flag should be unset!");
}

#[test]
fn cpu_test_cmp_instruction() {
        let mut cpu = fresh_cpu();
        cpu.register_a = 100;
        cpu.write(0x0000, 99);
        cpu.program_counter = 0x0000;
        cpu.execute_cmp(&AddressingMode::Immediate);

        assert!(cpu.status.get_flag(CpuStatusRegisterFlags::Carry), "Carry flag should be set, A >= M!");
        assert!(!cpu.status.get_flag(CpuStatusRegisterFlags::Zero), "Zero flag should be unset, A - M == 1!");
        assert!(!cpu.status.get_flag(CpuStatusRegisterFlags::Negative), "Negative flag should be unset, A - M <= 127!");

        cpu.register_a = 98;
        cpu.program_counter = 0x0000;
        cpu.execute_cmp(&AddressingMode::Immediate);

        assert!(!cpu.status.get_flag(CpuStatusRegisterFlags::Carry), "Carry flag should be set, A >= M!");
        assert!(!cpu.status.get_flag(CpuStatusRegisterFlags::Zero), "Zero flag should be unset, A - M == 1!");
        assert!(cpu.status.get_flag(CpuStatusRegisterFlags::Negative), "Negative flag should be unset, A - M <= 127!");

        cpu.register_a = 99;
        cpu.program_counter = 0x0000;
        cpu.execute_cmp(&AddressingMode::Immediate);

        assert!(cpu.status.get_flag(CpuStatusRegisterFlags::Carry), "Carry flag should be set, A >= M!");
        assert!(cpu.status.get_flag(CpuStatusRegisterFlags::Zero), "Zero flag should be unset, A - M == 1!");
        assert!(!cpu.status.get_flag(CpuStatusRegisterFlags::Negative), "Negative flag should be unset, A - M <= 127!");
}

#[test]
fn cpu_test_cpx_instruction() {
        let mut cpu = fresh_cpu();
        cpu.register_x = 100;
        cpu.write(0x0000, 99);
        cpu.program_counter = 0x0000;
        cpu.execute_cpx(&AddressingMode::Immediate);

        assert!(cpu.status.get_flag(CpuStatusRegisterFlags::Carry), "Carry flag should be set, A >= M!");
        assert!(!cpu.status.get_flag(CpuStatusRegisterFlags::Zero), "Zero flag should be unset, A - M == 1!");
        assert!(!cpu.status.get_flag(CpuStatusRegisterFlags::Negative), "Negative flag should be unset, A - M <= 127!");

        cpu.register_x = 98;
        cpu.program_counter = 0x0000;
        cpu.execute_cpx(&AddressingMode::Immediate);

        assert!(!cpu.status.get_flag(CpuStatusRegisterFlags::Carry), "Carry flag should be set, A >= M!");
        assert!(!cpu.status.get_flag(CpuStatusRegisterFlags::Zero), "Zero flag should be unset, A - M == 1!");
        assert!(cpu.status.get_flag(CpuStatusRegisterFlags::Negative), "Negative flag should be unset, A - M <= 127!");

        cpu.register_x = 99;
        cpu.program_counter = 0x0000;
        cpu.execute_cpx(&AddressingMode::Immediate);

        assert!(cpu.status.get_flag(CpuStatusRegisterFlags::Carry), "Carry flag should be set, A >= M!");
        assert!(cpu.status.get_flag(CpuStatusRegisterFlags::Zero), "Zero flag should be unset, A - M == 1!");
        assert!(!cpu.status.get_flag(CpuStatusRegisterFlags::Negative), "Negative flag should be unset, A - M <= 127!");
}

#[test]
fn cpu_test_cpy_instruction() {
        let mut cpu = fresh_cpu();
        cpu.register_y = 100;
        cpu.write(0x0000, 99);
        cpu.program_counter = 0x0000;
        cpu.execute_cpy(&AddressingMode::Immediate);

        assert!(cpu.status.get_flag(CpuStatusRegisterFlags::Carry), "Carry flag should be set, A >= M!");
        assert!(!cpu.status.get_flag(CpuStatusRegisterFlags::Zero), "Zero flag should be unset, A - M == 1!");
        assert!(!cpu.status.get_flag(CpuStatusRegisterFlags::Negative), "Negative flag should be unset, A - M <= 127!");

        cpu.register_y = 98;
        cpu.program_counter = 0x0000;
        cpu.execute_cpy(&AddressingMode::Immediate);

        assert!(!cpu.status.get_flag(CpuStatusRegisterFlags::Carry), "Carry flag should be set, A >= M!");
        assert!(!cpu.status.get_flag(CpuStatusRegisterFlags::Zero), "Zero flag should be unset, A - M == 1!");
        assert!(cpu.status.get_flag(CpuStatusRegisterFlags::Negative), "Negative flag should be unset, A - M <= 127!");

        cpu.register_y = 99;
        cpu.program_counter = 0x0000;
        cpu.execute_cpy(&AddressingMode::Immediate);

        assert!(cpu.status.get_flag(CpuStatusRegisterFlags::Carry), "Carry flag should be set, A >= M!");
        assert!(cpu.status.get_flag(CpuStatusRegisterFlags::Zero), "Zero flag should be unset, A - M == 1!");
        assert!(!cpu.status.get_flag(CpuStatusRegisterFlags::Negative), "Negative flag should be unset, A - M <= 127!");
}

#[test]
fn cpu_test_dec_instruction() {
        let mut cpu = fresh_cpu();
        cpu.write(0x0001, 129);
        cpu.write(0x0002, 0x1);
        cpu.program_counter = 0x0002;
        cpu.execute_dec(&AddressingMode::ZeroPageX);

        let memory_value = cpu.read(0x0001);
        assert_eq!(memory_value, 128, "Memory value at 0x0001 should be 128!");
        assert!(!cpu.status.get_flag(CpuStatusRegisterFlags::Zero), "Zero flag should be unset!");
        assert!(cpu.status.get_flag(CpuStatusRegisterFlags::Negative), "Negative flag should be set!");
}

#[test]
fn cpu_test_dex_instruction() {
        let mut cpu = fresh_cpu();
        cpu.register_x = 128;
        cpu.execute_dex(&AddressingMode::Implicit);

        assert_eq!(cpu.register_x, 127, "Register X should be 127!");
        assert!(!cpu.status.get_flag(CpuStatusRegisterFlags::Zero), "Zero flag should be unset!");
        assert!(!cpu.status.get_flag(CpuStatusRegisterFlags::Negative), "Negative flag should be unset!");
}

#[test]
fn cpu_test_dey_instruction() {
        let mut cpu = fresh_cpu();
        cpu.register_y = 128;
        cpu.execute_dey(&AddressingMode::Implicit);

        assert_eq!(cpu.register_y, 127, "Register Y should be 127!");
        assert!(!cpu.status.get_flag(CpuStatusRegisterFlags::Zero), "Zero flag should be unset!");
        assert!(!cpu.status.get_flag(CpuStatusRegisterFlags::Negative), "Negative flag should be unset!");
}

#[test]
fn cpu_test_eor_instruction() {
        let mut cpu = fresh_cpu();
        cpu.register_a = 12;
        cpu.write(0x0000, 37);
        cpu.program_counter = 0x0000;
        cpu.execute_eor(&AddressingMode::Immediate);

        assert_eq!(cpu.register_a, 41, "Register A should contain result of 12 ^ 37!");
        assert!(!cpu.status.get_flag(CpuStatusRegisterFlags::Zero), "Zero flag should be unset!");
        assert!(!cpu.status.get_flag(CpuStatusRegisterFlags::Negative), "Negative flag should be unset!");
}

#[test]
fn cpu_test_inc_instruction() {
        let mut cpu = fresh_cpu();
        cpu.write(0x0001, 129);
        cpu.write(0x0002, 0x1);
        cpu.program_counter = 0x0002;
        cpu.execute_inc(&AddressingMode::ZeroPageX);

        let memory_value = cpu.read(0x0001);
        assert_eq!(memory_value, 130, "Memory value at 0x0001 should be 130!");
        assert!(!cpu.status.get_flag(CpuStatusRegisterFlags::Zero), "Zero flag should be unset!");
        assert!(cpu.status.get_flag(CpuStatusRegisterFlags::Negative), "Negative flag should be set!");
}

#[test]
fn cpu_test_inx_instruction() {
        let mut cpu = fresh_cpu();
        cpu.register_x = 128;
        cpu.execute_inx(&AddressingMode::Implicit);

        assert_eq!(cpu.register_x, 129, "Register X should be 127!");
        assert!(!cpu.status.get_flag(CpuStatusRegisterFlags::Zero), "Zero flag should be unset!");
        assert!(cpu.status.get_flag(CpuStatusRegisterFlags::Negative), "Negative flag should be set!");
}

#[test]
fn cpu_test_iny_instruction() {
        let mut cpu = fresh_cpu();

        cpu.register_y = 128;
        cpu.execute_iny(&AddressingMode::Implicit);

        assert_eq!(cpu.register_y, 129, "Register Y should be 127!");
        assert!(!cpu.status.get_flag(CpuStatusRegisterFlags::Zero), "Zero flag should be unset!");
        assert!(cpu.status.get_flag(CpuStatusRegisterFlags::Negative), "Negative flag should be set!");
}

#[test]
fn cpu_test_jmp_instruction() {
        let mut cpu = fresh_cpu();

        cpu.program_counter = 0x0000;
        cpu.write(0x0000, 0xFF);
        cpu.write(0x0001, 0xAA);
        cpu.execute_jmp(&AddressingMode::Absolute);

        assert_eq!(cpu.program_counter, 0xAAFF, "Program counter should be 0xAAFF!");
}

#[test]
fn cpu_test_jsr_instruction() {
        let mut cpu = fresh_cpu();

        let stack_pointer_buf = cpu.stack_pointer;
        cpu.program_counter = 0x0400;
        cpu.write(0x0400, 0xFF);
        cpu.write(0x0401, 0xAA);
        cpu.execute_jsr();

        assert_eq!(cpu.program_counter, 0xAAFF, "Program counter should be 0xAAFF");
        assert_eq!(cpu.stack_pointer, stack_pointer_buf.wrapping_sub(2), "Invalid stack pointer!");

        let lo = cpu.read(0x0100 + cpu.stack_pointer.wrapping_add(1) as u16);
        let hi = cpu.read(0x0100 + cpu.stack_pointer.wrapping_add(2) as u16);
        assert_eq!(lo, 0x01, "Invalid lobyte of PC in Stack!");
        assert_eq!(hi, 0x04, "Invalid hibyte of PC in Stack!");
}

#[test]
fn cpu_test_lda_instruction() {
        let mut cpu = fresh_cpu();

        cpu.program_counter = 0x0000;
        cpu.write(0x0000, 0xAA);
        cpu.execute_lda(&AddressingMode::Immediate);

        assert_eq!(cpu.register_a, 0xAA, "Register A should be 0xAA!");
        assert!(cpu.status.get_flag(CpuStatusRegisterFlags::Negative), "Negative flag should be set!");
        assert!(!cpu.status.get_flag(CpuStatusRegisterFlags::Zero), "Negative flag should be unset!");

        cpu.write(0x0000, 0x00);
        cpu.execute_lda(&AddressingMode::Immediate);

        assert_eq!(cpu.register_a, 0x00, "Register A should be 0x00!");
        assert!(!cpu.status.get_flag(CpuStatusRegisterFlags::Negative), "Negative flag should be unset!");
        assert!(cpu.status.get_flag(CpuStatusRegisterFlags::Zero), "Negative flag should be set!");
}

#[test]
fn cpu_test_ldx_instruction() {
        let mut cpu = fresh_cpu();

        cpu.program_counter = 0x0000;
        cpu.write(0x0000, 0xAA);
        cpu.execute_ldx(&AddressingMode::Immediate);

        assert_eq!(cpu.register_x, 0xAA, "Register A should be 0xAA!");
        assert!(cpu.status.get_flag(CpuStatusRegisterFlags::Negative), "Negative flag should be set!");
        assert!(!cpu.status.get_flag(CpuStatusRegisterFlags::Zero), "Negative flag should be unset!");

        cpu.write(0x0000, 0x00);
        cpu.execute_ldx(&AddressingMode::Immediate);

        assert_eq!(cpu.register_x, 0x00, "Register A should be 0x00!");
        assert!(!cpu.status.get_flag(CpuStatusRegisterFlags::Negative), "Negative flag should be unset!");
        assert!(cpu.status.get_flag(CpuStatusRegisterFlags::Zero), "Negative flag should be set!");
}

#[test]
fn cpu_test_ldy_instruction() {
        let mut cpu = fresh_cpu();

        cpu.program_counter = 0x0000;
        cpu.write(0x0000, 0xAA);
        cpu.execute_ldy(&AddressingMode::Immediate);

        assert_eq!(cpu.register_y, 0xAA, "Register A should be 0xAA!");
        assert!(cpu.status.get_flag(CpuStatusRegisterFlags::Negative), "Negative flag should be set!");
        assert!(!cpu.status.get_flag(CpuStatusRegisterFlags::Zero), "Negative flag should be unset!");

        cpu.write(0x0000, 0x00);
        cpu.execute_ldy(&AddressingMode::Immediate);

        assert_eq!(cpu.register_y, 0x00, "Register A should be 0x00!");
        assert!(!cpu.status.get_flag(CpuStatusRegisterFlags::Negative), "Negative flag should be unset!");
        assert!(cpu.status.get_flag(CpuStatusRegisterFlags::Zero), "Negative flag should be set!");
}

#[test]
fn cpu_test_lsr_instruction() {
        let mut cpu = fresh_cpu();

        cpu.register_a = 0x81;
        cpu.execute_lsr(&AddressingMode::Accumulator);

        assert_eq!(cpu.register_a, 0x40, "Register A should be 0x40!");
        assert!(!cpu.status.get_flag(CpuStatusRegisterFlags::Negative), "CPU Status: Negative flag should be unset!");
        assert!(!cpu.status.get_flag(CpuStatusRegisterFlags::Zero), "CPU Status: Zero should be unset!");
        assert!(cpu.status.get_flag(CpuStatusRegisterFlags::Carry), "CPU Status: Carry should be set!");
}

#[test]
fn cpu_test_ora_instruction() {
        let mut cpu = fresh_cpu();

        cpu.register_a = 0x81;
        cpu.program_counter = 0x0000;
        cpu.write(0x0000, 0xFF);
        cpu.execute_ora(&AddressingMode::Immediate);

        assert_eq!(cpu.register_a, 0xFF, "Register A should be 0xFF!");
        assert!(!cpu.status.get_flag(CpuStatusRegisterFlags::Zero), "Zero flag should be unset!");
        assert!(cpu.status.get_flag(CpuStatusRegisterFlags::Negative), "Negative flag should be set!");
}

#[test]
fn cpu_test_pha_instruction() {
        let mut cpu = fresh_cpu();

        let stack_pointer_buf = cpu.stack_pointer;

        cpu.execute_pha(&AddressingMode::Implicit);
        assert_eq!(cpu.stack_pointer, stack_pointer_buf.wrapping_sub(1), "Invalid Stack pointer!");

        let register_from_stack = cpu.read(0x0100 + stack_pointer_buf as u16);
        assert_eq!(cpu.register_a, register_from_stack, "Invalid value of register inside Stack!");
}

#[test]
fn cpu_test_php_instruction() {
        let mut cpu = fresh_cpu();

        let stack_pointer_buf = cpu.stack_pointer;
        
        cpu.execute_php(&AddressingMode::Implicit);
        assert_eq!(cpu.stack_pointer, stack_pointer_buf.wrapping_sub(1), "Invalid Stack pointer!");

        let status_from_stack = cpu.read(0x0100 + stack_pointer_buf as u16);

        assert_eq!(
            cpu.status.get() | CpuStatusRegisterFlags::Break.mask(),
            status_from_stack,
            "Invalid value of register inside Stack!"
        );
}

#[test]
fn cpu_test_pla_instruction() {
        let mut cpu = fresh_cpu();

        cpu.write(0x150, 0xFF);
        cpu.stack_pointer = 0x4F;
        cpu.execute_pla(&AddressingMode::Implicit);

        assert_eq!(cpu.register_a, 0xFF, "Register A should have 0xFF!");
        assert!(cpu.status.get_flag(CpuStatusRegisterFlags::Negative), "Negative flag should be set!");
        assert!(!cpu.status.get_flag(CpuStatusRegisterFlags::Zero), "Zero flag should be unset!");

        cpu.write(0x150, 0x00);
        cpu.stack_pointer = 0x4F;
        cpu.execute_pla(&AddressingMode::Implicit);

        assert_eq!(cpu.register_a, 0x00, "Register A should have 0x00!");
        assert!(!cpu.status.get_flag(CpuStatusRegisterFlags::Negative), "Negative flag should be unset!");
        assert!(cpu.status.get_flag(CpuStatusRegisterFlags::Zero), "Zero flag should be set!");
}

#[test]
fn cpu_test_plp_instruction() {
        let mut cpu = fresh_cpu();

        cpu.write(0x150, 0xFF);
        cpu.stack_pointer = 0x4F;
        cpu.execute_plp(&AddressingMode::Implicit);

        assert_eq!(cpu.status.get(), 0b1110_1111, "Status should have 0b1110_1111!");
}

#[test]
fn cpu_test_rol_instruction() {
        let mut cpu = fresh_cpu();

        cpu.status.set_flag(CpuStatusRegisterFlags::Zero, true);
        cpu.write(0x0000, 0xAA);
        cpu.execute_rol(&AddressingMode::ZeroPage);

        let zeropage_value = cpu.read(0x0000);
        let expected_result = 0xAAu8.rotate_left(1) - 0x1;
        assert_eq!(zeropage_value, expected_result, "Invalid value in ZeroPage!");
        assert!(cpu.status.get_flag(CpuStatusRegisterFlags::Carry), "Carry flag should be set!");
        assert!(!cpu.status.get_flag(CpuStatusRegisterFlags::Zero), "Zero flag should follow the non-zero result!");
        assert!(!cpu.status.get_flag(CpuStatusRegisterFlags::Negative), "Negative flag should be unset!");

        cpu.register_a = 0xAA;
        cpu.execute_rol(&AddressingMode::Accumulator);

        assert_eq!(cpu.register_a, 0xAAu8.rotate_left(1), "Invalid value in Register A!");
        assert!(cpu.status.get_flag(CpuStatusRegisterFlags::Carry), "Carry flag should be set!");
        assert!(!cpu.status.get_flag(CpuStatusRegisterFlags::Zero), "Zero flag should be unset!");
        assert!(!cpu.status.get_flag(CpuStatusRegisterFlags::Negative), "Negative flag should be unset!");
}

#[test]
fn cpu_test_ror_instruction() {
        let mut cpu = fresh_cpu();

        cpu.status.set_flag(CpuStatusRegisterFlags::Zero, true);
        cpu.write(0x0000, 0xAA);
        cpu.execute_ror(&AddressingMode::ZeroPage);

        let zeropage_value = cpu.read(0x0000);
        assert_eq!(zeropage_value, 0xAAu8.rotate_left(1), "Invalid value in ZeroPage!");
        assert!(!cpu.status.get_flag(CpuStatusRegisterFlags::Carry), "Carry flag should be set!");
        assert!(!cpu.status.get_flag(CpuStatusRegisterFlags::Zero), "Zero flag should follow the non-zero result!");
        assert!(!cpu.status.get_flag(CpuStatusRegisterFlags::Negative), "Negative flag should be unset!");

        cpu.register_a = 0xAA;
        cpu.execute_ror(&AddressingMode::Accumulator);

        assert_eq!(cpu.register_a, 0xAAu8.rotate_left(1), "Invalid value in Register A!");
        assert!(!cpu.status.get_flag(CpuStatusRegisterFlags::Carry), "Carry flag should be set!");
        assert!(!cpu.status.get_flag(CpuStatusRegisterFlags::Zero), "Zero flag should be unset!");
        assert!(!cpu.status.get_flag(CpuStatusRegisterFlags::Negative), "Negative flag should be unset!");
}

#[test]
fn cpu_test_rti_instruction() {
        let mut cpu = fresh_cpu();

        cpu.write(0x0152, 0xFF);
        cpu.write(0x0151, 0xAB);
        cpu.write(0x0150, 0b1010_1010);
        cpu.stack_pointer = 0x4F;
        cpu.execute_rti(&AddressingMode::Implicit);

        assert_eq!(cpu.program_counter, 0xFFAB, "Program counter should have 0xAAFF!");
        assert_eq!(cpu.status.get(), 0b1010_1010, "Status should have 0b10101010!");
}

#[test]
fn cpu_test_rts_instruction() {
        let mut cpu = fresh_cpu();

        cpu.write(0x0151, 0xFF);
        cpu.write(0x0150, 0xAA);
        cpu.stack_pointer = 0x4F;
        cpu.execute_rts(&AddressingMode::Implicit);

        assert_eq!(cpu.program_counter, 0xFFAB, "Program counter should have 0xAAFF!");
}

#[test]
fn cpu_test_sbc_instruction() {
        let mut cpu = fresh_cpu();

        cpu.register_a = 0x01;
        cpu.program_counter = 0x0000;
        cpu.write(0x0000, 0x80);
        cpu.status.set_flag(CpuStatusRegisterFlags::Carry, false);
        cpu.execute_sbc(&AddressingMode::Immediate);

        assert_eq!(cpu.register_a, 0x80, "Register A should have 0x80!");
        assert!(!cpu.status.get_flag(CpuStatusRegisterFlags::Carry), "Carry flag should be set!");
        assert!(!cpu.status.get_flag(CpuStatusRegisterFlags::Zero), "Zero flag should be unset!");
        assert!(cpu.status.get_flag(CpuStatusRegisterFlags::Overflow), "Overflow flag should be set!");
        assert!(cpu.status.get_flag(CpuStatusRegisterFlags::Negative), "Negative flag should be set!");

        cpu.register_a = 0x80;
        cpu.program_counter = 0x0000;
        cpu.write(0x0000, 0x01);
        cpu.status.set_flag(CpuStatusRegisterFlags::Carry, false);
        cpu.execute_sbc(&AddressingMode::Immediate);

        assert_eq!(cpu.register_a, 0x7E, "Register A should have 0x80!");
        assert!(cpu.status.get_flag(CpuStatusRegisterFlags::Carry), "Carry flag should be set!");
        assert!(!cpu.status.get_flag(CpuStatusRegisterFlags::Zero), "Zero flag should be unset!");
        assert!(cpu.status.get_flag(CpuStatusRegisterFlags::Overflow), "Overflow flag should be set!");
        assert!(!cpu.status.get_flag(CpuStatusRegisterFlags::Negative), "Negative flag should be set!");
}

#[test]
fn cpu_test_sec_instruction() {
        let mut cpu = fresh_cpu();

        cpu.status.set_flag(CpuStatusRegisterFlags::Carry, false);
        cpu.execute_sec(&AddressingMode::Implicit);

        assert!(cpu.status.get_flag(CpuStatusRegisterFlags::Carry), "Carry flag should be set!");
}

#[test]
fn cpu_test_sed_instruction() {
        let mut cpu = fresh_cpu();

        cpu.status.set_flag(CpuStatusRegisterFlags::DecimalMode, false);
        cpu.execute_sed(&AddressingMode::Implicit);

        assert!(cpu.status.get_flag(CpuStatusRegisterFlags::DecimalMode), "Decimal mode flag should be set!");
}

#[test]
fn cpu_test_sei_instruction() {
        let mut cpu = fresh_cpu();

        cpu.status.set_flag(CpuStatusRegisterFlags::InterruptDisable, false);
        cpu.execute_sei(&AddressingMode::Implicit);

        assert!(cpu.status.get_flag(CpuStatusRegisterFlags::InterruptDisable), "Interrupt disable flag should be set!");
}

#[test]
fn cpu_test_sta_instruction() {
        let mut cpu = fresh_cpu();

        cpu.register_a = 0xFF;
        cpu.write(0x0001, 0x00);
        cpu.program_counter = 0x0001;
        cpu.execute_sta(&AddressingMode::ZeroPage);

        let result = cpu.read(0x0000);
        assert_eq!(result, 0xFF, "Zero page value should have 0xFF!");
}

#[test]
fn cpu_test_stx_instruction() {
        let mut cpu = fresh_cpu();

        cpu.register_x = 0xFF;
        cpu.write(0x0001, 0x00);
        cpu.program_counter = 0x0001;
        cpu.execute_stx(&AddressingMode::ZeroPage);

        let result = cpu.read(0x0000);
        assert_eq!(result, 0xFF, "Zero page value should have 0xFF!");
}

#[test]
fn cpu_test_sty_instruction() {
        let mut cpu = fresh_cpu();

        cpu.register_y = 0xFF;
        cpu.write(0x0001, 0x00);
        cpu.program_counter = 0x0001;
        cpu.execute_sty(&AddressingMode::ZeroPage);

        let result = cpu.read(0x0000);
        assert_eq!(result, 0xFF, "Zero page value should have 0xFF!");
}

#[test]
fn cpu_test_tax_instruction() {
        let mut cpu = fresh_cpu();

        cpu.register_a = 0xFF;
        cpu.execute_tax(&AddressingMode::Implicit);

        assert_eq!(cpu.register_x, 0xFF, "Register X should have 0xFF!");
        assert!(cpu.status.get_flag(CpuStatusRegisterFlags::Negative), "Negative flag should be set!");
        assert!(!cpu.status.get_flag(CpuStatusRegisterFlags::Zero), "Negative flag should be unset!");

        cpu.register_a = 0x00;
        cpu.execute_tax(&AddressingMode::Implicit);
        assert_eq!(cpu.register_x, 0x00, "Register X should have 0x00!");
        assert!(!cpu.status.get_flag(CpuStatusRegisterFlags::Negative), "Negative flag should be unset!");
        assert!(cpu.status.get_flag(CpuStatusRegisterFlags::Zero), "Negative flag should be set!");
}

#[test]
fn cpu_test_tay_instruction() {
        let mut cpu = fresh_cpu();

        cpu.register_a = 0xFF;
        cpu.execute_tay(&AddressingMode::Implicit);

        assert_eq!(cpu.register_y, 0xFF, "Register Y should have 0xFF!");
        assert!(cpu.status.get_flag(CpuStatusRegisterFlags::Negative), "Negative flag should be set!");
        assert!(!cpu.status.get_flag(CpuStatusRegisterFlags::Zero), "Negative flag should be unset!");

        cpu.register_a = 0x00;
        cpu.execute_tay(&AddressingMode::Implicit);
        assert_eq!(cpu.register_y, 0x00, "Register Y should have 0x00!");
        assert!(!cpu.status.get_flag(CpuStatusRegisterFlags::Negative), "Negative flag should be unset!");
        assert!(cpu.status.get_flag(CpuStatusRegisterFlags::Zero), "Negative flag should be set!");
}

#[test]
fn cpu_test_tsx_instruction() {
        let mut cpu = fresh_cpu();

        cpu.stack_pointer = 0xAB;
        cpu.execute_tsx(&AddressingMode::Implicit);

        assert_eq!(cpu.register_x, 0xAB, "Register X should have 0xAB!");
        assert!(cpu.status.get_flag(CpuStatusRegisterFlags::Negative), "Negative flag should be set!");
        assert!(!cpu.status.get_flag(CpuStatusRegisterFlags::Zero), "Negative flag should be unset!");

        cpu.stack_pointer = 0x00;
        cpu.execute_tsx(&AddressingMode::Implicit);
        assert_eq!(cpu.register_x, 0x00, "Register X should have 0x00!");
        assert!(!cpu.status.get_flag(CpuStatusRegisterFlags::Negative), "Negative flag should be unset!");
        assert!(cpu.status.get_flag(CpuStatusRegisterFlags::Zero), "Negative flag should be set!");
}

#[test]
fn cpu_test_txa_instruction() {
        let mut cpu = fresh_cpu();

        cpu.register_x = 0xAB;
        cpu.execute_txa(&AddressingMode::Implicit);

        assert_eq!(cpu.register_a, 0xAB, "Register A should have 0xAB!");
        assert!(cpu.status.get_flag(CpuStatusRegisterFlags::Negative), "Negative flag should be set!");
        assert!(!cpu.status.get_flag(CpuStatusRegisterFlags::Zero), "Negative flag should be unset!");

        cpu.register_x = 0x00;
        cpu.execute_txa(&AddressingMode::Implicit);
        assert_eq!(cpu.register_a, 0x00, "Register A should have 0x00!");
        assert!(!cpu.status.get_flag(CpuStatusRegisterFlags::Negative), "Negative flag should be unset!");
        assert!(cpu.status.get_flag(CpuStatusRegisterFlags::Zero), "Negative flag should be set!");
}

#[test]
fn cpu_test_txs_instruction() {
        let mut cpu = fresh_cpu();

        cpu.register_x = 0xAB;
        cpu.execute_txs(&AddressingMode::Implicit);

        assert_eq!(cpu.stack_pointer, 0xAB, "Stack pointer should have 0xAB!");
}

#[test]
fn cpu_test_tya_instruction() {
        let mut cpu = fresh_cpu();

        cpu.register_y = 0xAB;
        cpu.execute_tya(&AddressingMode::Implicit);

        assert_eq!(cpu.register_a, 0xAB, "Register A should have 0xAB!");
        assert!(cpu.status.get_flag(CpuStatusRegisterFlags::Negative), "Negative flag should be set!");
        assert!(!cpu.status.get_flag(CpuStatusRegisterFlags::Zero), "Negative flag should be unset!");

        cpu.register_y = 0x00;
        cpu.execute_tya(&AddressingMode::Implicit);
        assert_eq!(cpu.register_a, 0x00, "Register A should have 0x00!");
        assert!(!cpu.status.get_flag(CpuStatusRegisterFlags::Negative), "Negative flag should be unset!");
        assert!(cpu.status.get_flag(CpuStatusRegisterFlags::Zero), "Negative flag should be set!");
}
