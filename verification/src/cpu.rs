//! The 6502 interpreter: the 256-entry instruction table, addressing
//! mode resolution, the instruction semantics, and the fetch loop that
//! drives the whole machine, charging cycles and servicing the NMI.

use vstd::prelude::*;

use crate::bus::Bus;
use crate::bus::EmuFault;
use crate::clock::Clock;
use crate::registers::cpu_status::CpuStatusRegister;
use crate::registers::cpu_status::CpuStatusRegisterFlags;
use crate::registers::cpu_status::spec_flag_mask;
use crate::registers::cpu_status::spec_flag_set;
use vstd::string::StringExecFns;
use vstd::wrapping::u16_specs;
use vstd::wrapping::u8_specs;

verus! {

/// The thirteen 6502 addressing modes.
#[derive(Clone, Copy, PartialEq, Eq, Structural)]
pub enum AddressingMode {
    Implicit,
    Accumulator,
    Immediate,
    ZeroPage,
    ZeroPageX,
    ZeroPageY,
    Relative,
    Absolute,
    AbsoluteX,
    AbsoluteY,
    Indirect,
    IndexedIndirect,
    IndirectIndexed,
}

/// Every mnemonic the instruction table names, official and illegal.
#[derive(Clone, Copy, PartialEq, Eq, Structural)]
pub enum Mnemonic {
    Adc,
    Ahx,
    Anc,
    And,
    Arr,
    Asl,
    Asr,
    Axs,
    Bcc,
    Bcs,
    Beq,
    Bit,
    Bmi,
    Bne,
    Bpl,
    Brk,
    Bvc,
    Bvs,
    Clc,
    Cld,
    Cli,
    Clv,
    Cmp,
    Cpx,
    Cpy,
    Dcp,
    Dec,
    Dex,
    Dey,
    Eor,
    Inc,
    Inx,
    Iny,
    Isc,
    Jmp,
    Jsr,
    Kil,
    Las,
    Lax,
    Lda,
    Ldx,
    Ldy,
    Lsr,
    Nop,
    Ora,
    Pha,
    Php,
    Pla,
    Plp,
    Rla,
    Rol,
    Ror,
    Rra,
    Rti,
    Rts,
    Sax,
    Sbc,
    Sec,
    Sed,
    Sei,
    Shx,
    Shy,
    Slo,
    Sre,
    Sta,
    Stx,
    Sty,
    Tas,
    Tax,
    Tay,
    Tsx,
    Txa,
    Txs,
    Tya,
    Xaa,
}

/// One row of the instruction table: mnemonic, operand length in
/// bytes (including the opcode), base cycle count, and addressing mode.
#[derive(Clone, Copy, PartialEq, Eq, Structural)]
pub struct Instruction {
    pub opcode: u8,
    pub name: Mnemonic,
    pub bytes: u8,
    pub cycles: u8,
    pub addressing_mode: AddressingMode,
}

impl Instruction {
    pub fn new(
        opcode: u8,
        name: Mnemonic,
        bytes: u8,
        cycles: u8,
        addressing_mode: AddressingMode,
    ) -> (r: Self)
        ensures
            r == (Instruction { opcode, name, bytes, cycles, addressing_mode }),
    {
        Self { opcode, name, bytes, cycles, addressing_mode }
    }
}

/// The instruction table: what each of the 256 opcodes decodes to.
pub open spec fn spec_instruction(opcode: u8) -> Instruction {
    match opcode {
        0u8 => Instruction { opcode: 0x00, name: Mnemonic::Brk, bytes: 1, cycles: 7, addressing_mode: AddressingMode::Implicit },
        1u8 => Instruction { opcode: 0x01, name: Mnemonic::Ora, bytes: 2, cycles: 6, addressing_mode: AddressingMode::IndexedIndirect },
        2u8 => Instruction { opcode: 0x02, name: Mnemonic::Kil, bytes: 1, cycles: 1, addressing_mode: AddressingMode::Implicit },
        3u8 => Instruction { opcode: 0x03, name: Mnemonic::Slo, bytes: 2, cycles: 8, addressing_mode: AddressingMode::IndexedIndirect },
        4u8 => Instruction { opcode: 0x04, name: Mnemonic::Nop, bytes: 2, cycles: 3, addressing_mode: AddressingMode::ZeroPage },
        5u8 => Instruction { opcode: 0x05, name: Mnemonic::Ora, bytes: 2, cycles: 3, addressing_mode: AddressingMode::ZeroPage },
        6u8 => Instruction { opcode: 0x06, name: Mnemonic::Asl, bytes: 2, cycles: 5, addressing_mode: AddressingMode::ZeroPage },
        7u8 => Instruction { opcode: 0x07, name: Mnemonic::Slo, bytes: 2, cycles: 5, addressing_mode: AddressingMode::ZeroPage },
        8u8 => Instruction { opcode: 0x08, name: Mnemonic::Php, bytes: 1, cycles: 3, addressing_mode: AddressingMode::Implicit },
        9u8 => Instruction { opcode: 0x09, name: Mnemonic::Ora, bytes: 2, cycles: 2, addressing_mode: AddressingMode::Immediate },
        10u8 => Instruction { opcode: 0x0A, name: Mnemonic::Asl, bytes: 1, cycles: 2, addressing_mode: AddressingMode::Accumulator },
        11u8 => Instruction { opcode: 0x0B, name: Mnemonic::Anc, bytes: 2, cycles: 2, addressing_mode: AddressingMode::Immediate },
        12u8 => Instruction { opcode: 0x0C, name: Mnemonic::Nop, bytes: 3, cycles: 4, addressing_mode: AddressingMode::Absolute },
        13u8 => Instruction { opcode: 0x0D, name: Mnemonic::Ora, bytes: 3, cycles: 4, addressing_mode: AddressingMode::Absolute },
        14u8 => Instruction { opcode: 0x0E, name: Mnemonic::Asl, bytes: 3, cycles: 6, addressing_mode: AddressingMode::Absolute },
        15u8 => Instruction { opcode: 0x0F, name: Mnemonic::Slo, bytes: 3, cycles: 6, addressing_mode: AddressingMode::Absolute },
        16u8 => Instruction { opcode: 0x10, name: Mnemonic::Bpl, bytes: 2, cycles: 2, addressing_mode: AddressingMode::Relative },
        17u8 => Instruction { opcode: 0x11, name: Mnemonic::Ora, bytes: 2, cycles: 5, addressing_mode: AddressingMode::IndirectIndexed },
        18u8 => Instruction { opcode: 0x12, name: Mnemonic::Kil, bytes: 1, cycles: 1, addressing_mode: AddressingMode::Implicit },
        19u8 => Instruction { opcode: 0x13, name: Mnemonic::Slo, bytes: 2, cycles: 8, addressing_mode: AddressingMode::IndirectIndexed },
        20u8 => Instruction { opcode: 0x14, name: Mnemonic::Nop, bytes: 2, cycles: 4, addressing_mode: AddressingMode::ZeroPageX },
        21u8 => Instruction { opcode: 0x15, name: Mnemonic::Ora, bytes: 2, cycles: 4, addressing_mode: AddressingMode::ZeroPageX },
        22u8 => Instruction { opcode: 0x16, name: Mnemonic::Asl, bytes: 2, cycles: 6, addressing_mode: AddressingMode::ZeroPageX },
        23u8 => Instruction { opcode: 0x17, name: Mnemonic::Slo, bytes: 2, cycles: 6, addressing_mode: AddressingMode::ZeroPageX },
        24u8 => Instruction { opcode: 0x18, name: Mnemonic::Clc, bytes: 1, cycles: 2, addressing_mode: AddressingMode::Implicit },
        25u8 => Instruction { opcode: 0x19, name: Mnemonic::Ora, bytes: 3, cycles: 4, addressing_mode: AddressingMode::AbsoluteY },
        26u8 => Instruction { opcode: 0x1A, name: Mnemonic::Nop, bytes: 1, cycles: 2, addressing_mode: AddressingMode::Implicit },
        27u8 => Instruction { opcode: 0x1B, name: Mnemonic::Slo, bytes: 3, cycles: 7, addressing_mode: AddressingMode::AbsoluteY },
        28u8 => Instruction { opcode: 0x1C, name: Mnemonic::Nop, bytes: 3, cycles: 4, addressing_mode: AddressingMode::AbsoluteX },
        29u8 => Instruction { opcode: 0x1D, name: Mnemonic::Ora, bytes: 3, cycles: 4, addressing_mode: AddressingMode::AbsoluteX },
        30u8 => Instruction { opcode: 0x1E, name: Mnemonic::Asl, bytes: 3, cycles: 7, addressing_mode: AddressingMode::AbsoluteX },
        31u8 => Instruction { opcode: 0x1F, name: Mnemonic::Slo, bytes: 3, cycles: 7, addressing_mode: AddressingMode::AbsoluteX },
        32u8 => Instruction { opcode: 0x20, name: Mnemonic::Jsr, bytes: 3, cycles: 6, addressing_mode: AddressingMode::Absolute },
        33u8 => Instruction { opcode: 0x21, name: Mnemonic::And, bytes: 2, cycles: 6, addressing_mode: AddressingMode::IndexedIndirect },
        34u8 => Instruction { opcode: 0x22, name: Mnemonic::Kil, bytes: 1, cycles: 1, addressing_mode: AddressingMode::Implicit },
        35u8 => Instruction { opcode: 0x23, name: Mnemonic::Rla, bytes: 2, cycles: 8, addressing_mode: AddressingMode::IndexedIndirect },
        36u8 => Instruction { opcode: 0x24, name: Mnemonic::Bit, bytes: 2, cycles: 3, addressing_mode: AddressingMode::ZeroPage },
        37u8 => Instruction { opcode: 0x25, name: Mnemonic::And, bytes: 2, cycles: 3, addressing_mode: AddressingMode::ZeroPage },
        38u8 => Instruction { opcode: 0x26, name: Mnemonic::Rol, bytes: 2, cycles: 5, addressing_mode: AddressingMode::ZeroPage },
        39u8 => Instruction { opcode: 0x27, name: Mnemonic::Rla, bytes: 2, cycles: 5, addressing_mode: AddressingMode::ZeroPage },
        40u8 => Instruction { opcode: 0x28, name: Mnemonic::Plp, bytes: 1, cycles: 4, addressing_mode: AddressingMode::Implicit },
        41u8 => Instruction { opcode: 0x29, name: Mnemonic::And, bytes: 2, cycles: 2, addressing_mode: AddressingMode::Immediate },
        42u8 => Instruction { opcode: 0x2A, name: Mnemonic::Rol, bytes: 1, cycles: 2, addressing_mode: AddressingMode::Accumulator },
        43u8 => Instruction { opcode: 0x2B, name: Mnemonic::Anc, bytes: 2, cycles: 2, addressing_mode: AddressingMode::Immediate },
        44u8 => Instruction { opcode: 0x2C, name: Mnemonic::Bit, bytes: 3, cycles: 4, addressing_mode: AddressingMode::Absolute },
        45u8 => Instruction { opcode: 0x2D, name: Mnemonic::And, bytes: 3, cycles: 4, addressing_mode: AddressingMode::Absolute },
        46u8 => Instruction { opcode: 0x2E, name: Mnemonic::Rol, bytes: 3, cycles: 6, addressing_mode: AddressingMode::Absolute },
        47u8 => Instruction { opcode: 0x2F, name: Mnemonic::Rla, bytes: 3, cycles: 6, addressing_mode: AddressingMode::Absolute },
        48u8 => Instruction { opcode: 0x30, name: Mnemonic::Bmi, bytes: 2, cycles: 2, addressing_mode: AddressingMode::Relative },
        49u8 => Instruction { opcode: 0x31, name: Mnemonic::And, bytes: 2, cycles: 5, addressing_mode: AddressingMode::IndirectIndexed },
        50u8 => Instruction { opcode: 0x32, name: Mnemonic::Kil, bytes: 1, cycles: 1, addressing_mode: AddressingMode::Implicit },
        51u8 => Instruction { opcode: 0x33, name: Mnemonic::Rla, bytes: 2, cycles: 8, addressing_mode: AddressingMode::IndirectIndexed },
        52u8 => Instruction { opcode: 0x34, name: Mnemonic::Nop, bytes: 2, cycles: 4, addressing_mode: AddressingMode::ZeroPageX },
        53u8 => Instruction { opcode: 0x35, name: Mnemonic::And, bytes: 2, cycles: 4, addressing_mode: AddressingMode::ZeroPageX },
        54u8 => Instruction { opcode: 0x36, name: Mnemonic::Rol, bytes: 2, cycles: 6, addressing_mode: AddressingMode::ZeroPageX },
        55u8 => Instruction { opcode: 0x37, name: Mnemonic::Rla, bytes: 2, cycles: 6, addressing_mode: AddressingMode::ZeroPageX },
        56u8 => Instruction { opcode: 0x38, name: Mnemonic::Sec, bytes: 1, cycles: 2, addressing_mode: AddressingMode::Implicit },
        57u8 => Instruction { opcode: 0x39, name: Mnemonic::And, bytes: 3, cycles: 4, addressing_mode: AddressingMode::AbsoluteY },
        58u8 => Instruction { opcode: 0x3A, name: Mnemonic::Nop, bytes: 1, cycles: 2, addressing_mode: AddressingMode::Implicit },
        59u8 => Instruction { opcode: 0x3B, name: Mnemonic::Rla, bytes: 3, cycles: 7, addressing_mode: AddressingMode::AbsoluteY },
        60u8 => Instruction { opcode: 0x3C, name: Mnemonic::Nop, bytes: 3, cycles: 4, addressing_mode: AddressingMode::AbsoluteX },
        61u8 => Instruction { opcode: 0x3D, name: Mnemonic::And, bytes: 3, cycles: 4, addressing_mode: AddressingMode::AbsoluteX },
        62u8 => Instruction { opcode: 0x3E, name: Mnemonic::Rol, bytes: 3, cycles: 7, addressing_mode: AddressingMode::AbsoluteX },
        63u8 => Instruction { opcode: 0x3F, name: Mnemonic::Rla, bytes: 3, cycles: 7, addressing_mode: AddressingMode::AbsoluteX },
        64u8 => Instruction { opcode: 0x40, name: Mnemonic::Rti, bytes: 1, cycles: 6, addressing_mode: AddressingMode::Implicit },
        65u8 => Instruction { opcode: 0x41, name: Mnemonic::Eor, bytes: 2, cycles: 6, addressing_mode: AddressingMode::IndexedIndirect },
        66u8 => Instruction { opcode: 0x42, name: Mnemonic::Kil, bytes: 1, cycles: 1, addressing_mode: AddressingMode::Implicit },
        67u8 => Instruction { opcode: 0x43, name: Mnemonic::Sre, bytes: 2, cycles: 8, addressing_mode: AddressingMode::IndexedIndirect },
        68u8 => Instruction { opcode: 0x44, name: Mnemonic::Nop, bytes: 2, cycles: 3, addressing_mode: AddressingMode::ZeroPage },
        69u8 => Instruction { opcode: 0x45, name: Mnemonic::Eor, bytes: 2, cycles: 3, addressing_mode: AddressingMode::ZeroPage },
        70u8 => Instruction { opcode: 0x46, name: Mnemonic::Lsr, bytes: 2, cycles: 5, addressing_mode: AddressingMode::ZeroPage },
        71u8 => Instruction { opcode: 0x47, name: Mnemonic::Sre, bytes: 2, cycles: 5, addressing_mode: AddressingMode::ZeroPage },
        72u8 => Instruction { opcode: 0x48, name: Mnemonic::Pha, bytes: 1, cycles: 3, addressing_mode: AddressingMode::Implicit },
        73u8 => Instruction { opcode: 0x49, name: Mnemonic::Eor, bytes: 2, cycles: 2, addressing_mode: AddressingMode::Immediate },
        74u8 => Instruction { opcode: 0x4A, name: Mnemonic::Lsr, bytes: 1, cycles: 2, addressing_mode: AddressingMode::Accumulator },
        75u8 => Instruction { opcode: 0x4B, name: Mnemonic::Asr, bytes: 2, cycles: 2, addressing_mode: AddressingMode::Immediate },
        76u8 => Instruction { opcode: 0x4C, name: Mnemonic::Jmp, bytes: 3, cycles: 3, addressing_mode: AddressingMode::Absolute },
        77u8 => Instruction { opcode: 0x4D, name: Mnemonic::Eor, bytes: 3, cycles: 4, addressing_mode: AddressingMode::Absolute },
        78u8 => Instruction { opcode: 0x4E, name: Mnemonic::Lsr, bytes: 3, cycles: 6, addressing_mode: AddressingMode::Absolute },
        79u8 => Instruction { opcode: 0x4F, name: Mnemonic::Sre, bytes: 3, cycles: 6, addressing_mode: AddressingMode::Absolute },
        80u8 => Instruction { opcode: 0x50, name: Mnemonic::Bvc, bytes: 2, cycles: 2, addressing_mode: AddressingMode::Relative },
        81u8 => Instruction { opcode: 0x51, name: Mnemonic::Eor, bytes: 2, cycles: 5, addressing_mode: AddressingMode::IndirectIndexed },
        82u8 => Instruction { opcode: 0x52, name: Mnemonic::Kil, bytes: 1, cycles: 1, addressing_mode: AddressingMode::Implicit },
        83u8 => Instruction { opcode: 0x53, name: Mnemonic::Sre, bytes: 2, cycles: 8, addressing_mode: AddressingMode::IndirectIndexed },
        84u8 => Instruction { opcode: 0x54, name: Mnemonic::Nop, bytes: 2, cycles: 4, addressing_mode: AddressingMode::ZeroPageX },
        85u8 => Instruction { opcode: 0x55, name: Mnemonic::Eor, bytes: 2, cycles: 4, addressing_mode: AddressingMode::ZeroPageX },
        86u8 => Instruction { opcode: 0x56, name: Mnemonic::Lsr, bytes: 2, cycles: 6, addressing_mode: AddressingMode::ZeroPageX },
        87u8 => Instruction { opcode: 0x57, name: Mnemonic::Sre, bytes: 2, cycles: 6, addressing_mode: AddressingMode::ZeroPageX },
        88u8 => Instruction { opcode: 0x58, name: Mnemonic::Cli, bytes: 1, cycles: 2, addressing_mode: AddressingMode::Implicit },
        89u8 => Instruction { opcode: 0x59, name: Mnemonic::Eor, bytes: 3, cycles: 4, addressing_mode: AddressingMode::AbsoluteY },
        90u8 => Instruction { opcode: 0x5A, name: Mnemonic::Nop, bytes: 1, cycles: 2, addressing_mode: AddressingMode::Implicit },
        91u8 => Instruction { opcode: 0x5B, name: Mnemonic::Sre, bytes: 3, cycles: 7, addressing_mode: AddressingMode::AbsoluteY },
        92u8 => Instruction { opcode: 0x5C, name: Mnemonic::Nop, bytes: 3, cycles: 4, addressing_mode: AddressingMode::AbsoluteX },
        93u8 => Instruction { opcode: 0x5D, name: Mnemonic::Eor, bytes: 3, cycles: 4, addressing_mode: AddressingMode::AbsoluteX },
        94u8 => Instruction { opcode: 0x5E, name: Mnemonic::Lsr, bytes: 3, cycles: 7, addressing_mode: AddressingMode::AbsoluteX },
        95u8 => Instruction { opcode: 0x5F, name: Mnemonic::Sre, bytes: 3, cycles: 7, addressing_mode: AddressingMode::AbsoluteX },
        96u8 => Instruction { opcode: 0x60, name: Mnemonic::Rts, bytes: 1, cycles: 6, addressing_mode: AddressingMode::Implicit },
        97u8 => Instruction { opcode: 0x61, name: Mnemonic::Adc, bytes: 2, cycles: 6, addressing_mode: AddressingMode::IndexedIndirect },
        98u8 => Instruction { opcode: 0x62, name: Mnemonic::Kil, bytes: 1, cycles: 1, addressing_mode: AddressingMode::Implicit },
        99u8 => Instruction { opcode: 0x63, name: Mnemonic::Rra, bytes: 2, cycles: 8, addressing_mode: AddressingMode::IndexedIndirect },
        100u8 => Instruction { opcode: 0x64, name: Mnemonic::Nop, bytes: 2, cycles: 3, addressing_mode: AddressingMode::ZeroPage },
        101u8 => Instruction { opcode: 0x65, name: Mnemonic::Adc, bytes: 2, cycles: 3, addressing_mode: AddressingMode::ZeroPage },
        102u8 => Instruction { opcode: 0x66, name: Mnemonic::Ror, bytes: 2, cycles: 5, addressing_mode: AddressingMode::ZeroPage },
        103u8 => Instruction { opcode: 0x67, name: Mnemonic::Rra, bytes: 2, cycles: 5, addressing_mode: AddressingMode::ZeroPage },
        104u8 => Instruction { opcode: 0x68, name: Mnemonic::Pla, bytes: 1, cycles: 4, addressing_mode: AddressingMode::Implicit },
        105u8 => Instruction { opcode: 0x69, name: Mnemonic::Adc, bytes: 2, cycles: 2, addressing_mode: AddressingMode::Immediate },
        106u8 => Instruction { opcode: 0x6A, name: Mnemonic::Ror, bytes: 1, cycles: 2, addressing_mode: AddressingMode::Accumulator },
        107u8 => Instruction { opcode: 0x6B, name: Mnemonic::Arr, bytes: 2, cycles: 2, addressing_mode: AddressingMode::Immediate },
        108u8 => Instruction { opcode: 0x6C, name: Mnemonic::Jmp, bytes: 3, cycles: 5, addressing_mode: AddressingMode::Indirect },
        109u8 => Instruction { opcode: 0x6D, name: Mnemonic::Adc, bytes: 3, cycles: 4, addressing_mode: AddressingMode::Absolute },
        110u8 => Instruction { opcode: 0x6E, name: Mnemonic::Ror, bytes: 3, cycles: 6, addressing_mode: AddressingMode::Absolute },
        111u8 => Instruction { opcode: 0x6F, name: Mnemonic::Rra, bytes: 3, cycles: 6, addressing_mode: AddressingMode::Absolute },
        112u8 => Instruction { opcode: 0x70, name: Mnemonic::Bvs, bytes: 2, cycles: 2, addressing_mode: AddressingMode::Relative },
        113u8 => Instruction { opcode: 0x71, name: Mnemonic::Adc, bytes: 2, cycles: 5, addressing_mode: AddressingMode::IndirectIndexed },
        114u8 => Instruction { opcode: 0x72, name: Mnemonic::Kil, bytes: 1, cycles: 1, addressing_mode: AddressingMode::Implicit },
        115u8 => Instruction { opcode: 0x73, name: Mnemonic::Rra, bytes: 2, cycles: 8, addressing_mode: AddressingMode::IndirectIndexed },
        116u8 => Instruction { opcode: 0x74, name: Mnemonic::Nop, bytes: 2, cycles: 4, addressing_mode: AddressingMode::ZeroPageX },
        117u8 => Instruction { opcode: 0x75, name: Mnemonic::Adc, bytes: 2, cycles: 4, addressing_mode: AddressingMode::ZeroPageX },
        118u8 => Instruction { opcode: 0x76, name: Mnemonic::Ror, bytes: 2, cycles: 6, addressing_mode: AddressingMode::ZeroPageX },
        119u8 => Instruction { opcode: 0x77, name: Mnemonic::Rra, bytes: 2, cycles: 6, addressing_mode: AddressingMode::ZeroPageX },
        120u8 => Instruction { opcode: 0x78, name: Mnemonic::Sei, bytes: 1, cycles: 2, addressing_mode: AddressingMode::Implicit },
        121u8 => Instruction { opcode: 0x79, name: Mnemonic::Adc, bytes: 3, cycles: 4, addressing_mode: AddressingMode::AbsoluteY },
        122u8 => Instruction { opcode: 0x7A, name: Mnemonic::Nop, bytes: 1, cycles: 2, addressing_mode: AddressingMode::Implicit },
        123u8 => Instruction { opcode: 0x7B, name: Mnemonic::Rra, bytes: 3, cycles: 7, addressing_mode: AddressingMode::AbsoluteY },
        124u8 => Instruction { opcode: 0x7C, name: Mnemonic::Nop, bytes: 3, cycles: 4, addressing_mode: AddressingMode::AbsoluteX },
        125u8 => Instruction { opcode: 0x7D, name: Mnemonic::Adc, bytes: 3, cycles: 4, addressing_mode: AddressingMode::AbsoluteX },
        126u8 => Instruction { opcode: 0x7E, name: Mnemonic::Ror, bytes: 3, cycles: 7, addressing_mode: AddressingMode::AbsoluteX },
        127u8 => Instruction { opcode: 0x7F, name: Mnemonic::Rra, bytes: 3, cycles: 7, addressing_mode: AddressingMode::AbsoluteX },
        128u8 => Instruction { opcode: 0x80, name: Mnemonic::Nop, bytes: 2, cycles: 2, addressing_mode: AddressingMode::Immediate },
        129u8 => Instruction { opcode: 0x81, name: Mnemonic::Sta, bytes: 2, cycles: 6, addressing_mode: AddressingMode::IndexedIndirect },
        130u8 => Instruction { opcode: 0x82, name: Mnemonic::Nop, bytes: 2, cycles: 2, addressing_mode: AddressingMode::Immediate },
        131u8 => Instruction { opcode: 0x83, name: Mnemonic::Sax, bytes: 2, cycles: 6, addressing_mode: AddressingMode::IndexedIndirect },
        132u8 => Instruction { opcode: 0x84, name: Mnemonic::Sty, bytes: 2, cycles: 3, addressing_mode: AddressingMode::ZeroPage },
        133u8 => Instruction { opcode: 0x85, name: Mnemonic::Sta, bytes: 2, cycles: 3, addressing_mode: AddressingMode::ZeroPage },
        134u8 => Instruction { opcode: 0x86, name: Mnemonic::Stx, bytes: 2, cycles: 3, addressing_mode: AddressingMode::ZeroPage },
        135u8 => Instruction { opcode: 0x87, name: Mnemonic::Sax, bytes: 2, cycles: 3, addressing_mode: AddressingMode::ZeroPage },
        136u8 => Instruction { opcode: 0x88, name: Mnemonic::Dey, bytes: 1, cycles: 2, addressing_mode: AddressingMode::Implicit },
        137u8 => Instruction { opcode: 0x89, name: Mnemonic::Nop, bytes: 2, cycles: 2, addressing_mode: AddressingMode::Immediate },
        138u8 => Instruction { opcode: 0x8A, name: Mnemonic::Txa, bytes: 1, cycles: 2, addressing_mode: AddressingMode::Implicit },
        139u8 => Instruction { opcode: 0x8B, name: Mnemonic::Xaa, bytes: 2, cycles: 2, addressing_mode: AddressingMode::Immediate },
        140u8 => Instruction { opcode: 0x8C, name: Mnemonic::Sty, bytes: 3, cycles: 4, addressing_mode: AddressingMode::Absolute },
        141u8 => Instruction { opcode: 0x8D, name: Mnemonic::Sta, bytes: 3, cycles: 4, addressing_mode: AddressingMode::Absolute },
        142u8 => Instruction { opcode: 0x8E, name: Mnemonic::Stx, bytes: 3, cycles: 4, addressing_mode: AddressingMode::Absolute },
        143u8 => Instruction { opcode: 0x8F, name: Mnemonic::Sax, bytes: 3, cycles: 4, addressing_mode: AddressingMode::Absolute },
        144u8 => Instruction { opcode: 0x90, name: Mnemonic::Bcc, bytes: 2, cycles: 2, addressing_mode: AddressingMode::Relative },
        145u8 => Instruction { opcode: 0x91, name: Mnemonic::Sta, bytes: 2, cycles: 6, addressing_mode: AddressingMode::IndirectIndexed },
        146u8 => Instruction { opcode: 0x92, name: Mnemonic::Kil, bytes: 1, cycles: 1, addressing_mode: AddressingMode::Implicit },
        147u8 => Instruction { opcode: 0x93, name: Mnemonic::Ahx, bytes: 2, cycles: 6, addressing_mode: AddressingMode::IndirectIndexed },
        148u8 => Instruction { opcode: 0x94, name: Mnemonic::Sty, bytes: 2, cycles: 4, addressing_mode: AddressingMode::ZeroPageX },
        149u8 => Instruction { opcode: 0x95, name: Mnemonic::Sta, bytes: 2, cycles: 4, addressing_mode: AddressingMode::ZeroPageX },
        150u8 => Instruction { opcode: 0x96, name: Mnemonic::Stx, bytes: 2, cycles: 4, addressing_mode: AddressingMode::ZeroPageY },
        151u8 => Instruction { opcode: 0x97, name: Mnemonic::Sax, bytes: 2, cycles: 4, addressing_mode: AddressingMode::ZeroPageY },
        152u8 => Instruction { opcode: 0x98, name: Mnemonic::Tya, bytes: 1, cycles: 2, addressing_mode: AddressingMode::Implicit },
        153u8 => Instruction { opcode: 0x99, name: Mnemonic::Sta, bytes: 3, cycles: 5, addressing_mode: AddressingMode::AbsoluteY },
        154u8 => Instruction { opcode: 0x9A, name: Mnemonic::Txs, bytes: 1, cycles: 2, addressing_mode: AddressingMode::Implicit },
        155u8 => Instruction { opcode: 0x9B, name: Mnemonic::Tas, bytes: 3, cycles: 5, addressing_mode: AddressingMode::AbsoluteY },
        156u8 => Instruction { opcode: 0x9C, name: Mnemonic::Shy, bytes: 3, cycles: 5, addressing_mode: AddressingMode::AbsoluteX },
        157u8 => Instruction { opcode: 0x9D, name: Mnemonic::Sta, bytes: 3, cycles: 5, addressing_mode: AddressingMode::AbsoluteX },
        158u8 => Instruction { opcode: 0x9E, name: Mnemonic::Shx, bytes: 3, cycles: 5, addressing_mode: AddressingMode::AbsoluteY },
        159u8 => Instruction { opcode: 0x9F, name: Mnemonic::Ahx, bytes: 3, cycles: 5, addressing_mode: AddressingMode::AbsoluteY },
        160u8 => Instruction { opcode: 0xA0, name: Mnemonic::Ldy, bytes: 2, cycles: 2, addressing_mode: AddressingMode::Immediate },
        161u8 => Instruction { opcode: 0xA1, name: Mnemonic::Lda, bytes: 2, cycles: 6, addressing_mode: AddressingMode::IndexedIndirect },
        162u8 => Instruction { opcode: 0xA2, name: Mnemonic::Ldx, bytes: 2, cycles: 2, addressing_mode: AddressingMode::Immediate },
        163u8 => Instruction { opcode: 0xA3, name: Mnemonic::Lax, bytes: 2, cycles: 6, addressing_mode: AddressingMode::IndexedIndirect },
        164u8 => Instruction { opcode: 0xA4, name: Mnemonic::Ldy, bytes: 2, cycles: 3, addressing_mode: AddressingMode::ZeroPage },
        165u8 => Instruction { opcode: 0xA5, name: Mnemonic::Lda, bytes: 2, cycles: 3, addressing_mode: AddressingMode::ZeroPage },
        166u8 => Instruction { opcode: 0xA6, name: Mnemonic::Ldx, bytes: 2, cycles: 3, addressing_mode: AddressingMode::ZeroPage },
        167u8 => Instruction { opcode: 0xA7, name: Mnemonic::Lax, bytes: 2, cycles: 3, addressing_mode: AddressingMode::ZeroPage },
        168u8 => Instruction { opcode: 0xA8, name: Mnemonic::Tay, bytes: 1, cycles: 2, addressing_mode: AddressingMode::Implicit },
        169u8 => Instruction { opcode: 0xA9, name: Mnemonic::Lda, bytes: 2, cycles: 2, addressing_mode: AddressingMode::Immediate },
        170u8 => Instruction { opcode: 0xAA, name: Mnemonic::Tax, bytes: 1, cycles: 2, addressing_mode: AddressingMode::Implicit },
        171u8 => Instruction { opcode: 0xAB, name: Mnemonic::Lax, bytes: 2, cycles: 2, addressing_mode: AddressingMode::Immediate },
        172u8 => Instruction { opcode: 0xAC, name: Mnemonic::Ldy, bytes: 3, cycles: 4, addressing_mode: AddressingMode::Absolute },
        173u8 => Instruction { opcode: 0xAD, name: Mnemonic::Lda, bytes: 3, cycles: 4, addressing_mode: AddressingMode::Absolute },
        174u8 => Instruction { opcode: 0xAE, name: Mnemonic::Ldx, bytes: 3, cycles: 4, addressing_mode: AddressingMode::Absolute },
        175u8 => Instruction { opcode: 0xAF, name: Mnemonic::Lax, bytes: 3, cycles: 4, addressing_mode: AddressingMode::Absolute },
        176u8 => Instruction { opcode: 0xB0, name: Mnemonic::Bcs, bytes: 2, cycles: 2, addressing_mode: AddressingMode::Relative },
        177u8 => Instruction { opcode: 0xB1, name: Mnemonic::Lda, bytes: 2, cycles: 5, addressing_mode: AddressingMode::IndirectIndexed },
        178u8 => Instruction { opcode: 0xB2, name: Mnemonic::Kil, bytes: 1, cycles: 1, addressing_mode: AddressingMode::Implicit },
        179u8 => Instruction { opcode: 0xB3, name: Mnemonic::Lax, bytes: 2, cycles: 5, addressing_mode: AddressingMode::IndirectIndexed },
        180u8 => Instruction { opcode: 0xB4, name: Mnemonic::Ldy, bytes: 2, cycles: 4, addressing_mode: AddressingMode::ZeroPageX },
        181u8 => Instruction { opcode: 0xB5, name: Mnemonic::Lda, bytes: 2, cycles: 4, addressing_mode: AddressingMode::ZeroPageX },
        182u8 => Instruction { opcode: 0xB6, name: Mnemonic::Ldx, bytes: 2, cycles: 4, addressing_mode: AddressingMode::ZeroPageY },
        183u8 => Instruction { opcode: 0xB7, name: Mnemonic::Lax, bytes: 2, cycles: 4, addressing_mode: AddressingMode::ZeroPageY },
        184u8 => Instruction { opcode: 0xB8, name: Mnemonic::Clv, bytes: 1, cycles: 2, addressing_mode: AddressingMode::Implicit },
        185u8 => Instruction { opcode: 0xB9, name: Mnemonic::Lda, bytes: 3, cycles: 4, addressing_mode: AddressingMode::AbsoluteY },
        186u8 => Instruction { opcode: 0xBA, name: Mnemonic::Tsx, bytes: 1, cycles: 2, addressing_mode: AddressingMode::Implicit },
        187u8 => Instruction { opcode: 0xBB, name: Mnemonic::Las, bytes: 3, cycles: 4, addressing_mode: AddressingMode::AbsoluteY },
        188u8 => Instruction { opcode: 0xBC, name: Mnemonic::Ldy, bytes: 3, cycles: 4, addressing_mode: AddressingMode::AbsoluteX },
        189u8 => Instruction { opcode: 0xBD, name: Mnemonic::Lda, bytes: 3, cycles: 4, addressing_mode: AddressingMode::AbsoluteX },
        190u8 => Instruction { opcode: 0xBE, name: Mnemonic::Ldx, bytes: 3, cycles: 4, addressing_mode: AddressingMode::AbsoluteY },
        191u8 => Instruction { opcode: 0xBF, name: Mnemonic::Lax, bytes: 3, cycles: 4, addressing_mode: AddressingMode::AbsoluteY },
        192u8 => Instruction { opcode: 0xC0, name: Mnemonic::Cpy, bytes: 2, cycles: 2, addressing_mode: AddressingMode::Immediate },
        193u8 => Instruction { opcode: 0xC1, name: Mnemonic::Cmp, bytes: 2, cycles: 6, addressing_mode: AddressingMode::IndexedIndirect },
        194u8 => Instruction { opcode: 0xC2, name: Mnemonic::Nop, bytes: 2, cycles: 2, addressing_mode: AddressingMode::Immediate },
        195u8 => Instruction { opcode: 0xC3, name: Mnemonic::Dcp, bytes: 2, cycles: 8, addressing_mode: AddressingMode::IndexedIndirect },
        196u8 => Instruction { opcode: 0xC4, name: Mnemonic::Cpy, bytes: 2, cycles: 3, addressing_mode: AddressingMode::ZeroPage },
        197u8 => Instruction { opcode: 0xC5, name: Mnemonic::Cmp, bytes: 2, cycles: 3, addressing_mode: AddressingMode::ZeroPage },
        198u8 => Instruction { opcode: 0xC6, name: Mnemonic::Dec, bytes: 2, cycles: 5, addressing_mode: AddressingMode::ZeroPage },
        199u8 => Instruction { opcode: 0xC7, name: Mnemonic::Dcp, bytes: 2, cycles: 5, addressing_mode: AddressingMode::ZeroPage },
        200u8 => Instruction { opcode: 0xC8, name: Mnemonic::Iny, bytes: 1, cycles: 2, addressing_mode: AddressingMode::Implicit },
        201u8 => Instruction { opcode: 0xC9, name: Mnemonic::Cmp, bytes: 2, cycles: 2, addressing_mode: AddressingMode::Immediate },
        202u8 => Instruction { opcode: 0xCA, name: Mnemonic::Dex, bytes: 1, cycles: 2, addressing_mode: AddressingMode::Implicit },
        203u8 => Instruction { opcode: 0xCB, name: Mnemonic::Axs, bytes: 2, cycles: 2, addressing_mode: AddressingMode::Immediate },
        204u8 => Instruction { opcode: 0xCC, name: Mnemonic::Cpy, bytes: 3, cycles: 4, addressing_mode: AddressingMode::Absolute },
        205u8 => Instruction { opcode: 0xCD, name: Mnemonic::Cmp, bytes: 3, cycles: 4, addressing_mode: AddressingMode::Absolute },
        206u8 => Instruction { opcode: 0xCE, name: Mnemonic::Dec, bytes: 3, cycles: 6, addressing_mode: AddressingMode::Absolute },
        207u8 => Instruction { opcode: 0xCF, name: Mnemonic::Dcp, bytes: 3, cycles: 6, addressing_mode: AddressingMode::Absolute },
        208u8 => Instruction { opcode: 0xD0, name: Mnemonic::Bne, bytes: 2, cycles: 2, addressing_mode: AddressingMode::Relative },
        209u8 => Instruction { opcode: 0xD1, name: Mnemonic::Cmp, bytes: 2, cycles: 5, addressing_mode: AddressingMode::IndirectIndexed },
        210u8 => Instruction { opcode: 0xD2, name: Mnemonic::Kil, bytes: 1, cycles: 1, addressing_mode: AddressingMode::Implicit },
        211u8 => Instruction { opcode: 0xD3, name: Mnemonic::Dcp, bytes: 2, cycles: 8, addressing_mode: AddressingMode::IndirectIndexed },
        212u8 => Instruction { opcode: 0xD4, name: Mnemonic::Nop, bytes: 2, cycles: 4, addressing_mode: AddressingMode::ZeroPageX },
        213u8 => Instruction { opcode: 0xD5, name: Mnemonic::Cmp, bytes: 2, cycles: 4, addressing_mode: AddressingMode::ZeroPageX },
        214u8 => Instruction { opcode: 0xD6, name: Mnemonic::Dec, bytes: 2, cycles: 6, addressing_mode: AddressingMode::ZeroPageX },
        215u8 => Instruction { opcode: 0xD7, name: Mnemonic::Dcp, bytes: 2, cycles: 6, addressing_mode: AddressingMode::ZeroPageX },
        216u8 => Instruction { opcode: 0xD8, name: Mnemonic::Cld, bytes: 1, cycles: 2, addressing_mode: AddressingMode::Implicit },
        217u8 => Instruction { opcode: 0xD9, name: Mnemonic::Cmp, bytes: 3, cycles: 4, addressing_mode: AddressingMode::AbsoluteY },
        218u8 => Instruction { opcode: 0xDA, name: Mnemonic::Nop, bytes: 1, cycles: 2, addressing_mode: AddressingMode::Implicit },
        219u8 => Instruction { opcode: 0xDB, name: Mnemonic::Dcp, bytes: 3, cycles: 7, addressing_mode: AddressingMode::AbsoluteY },
        220u8 => Instruction { opcode: 0xDC, name: Mnemonic::Nop, bytes: 3, cycles: 4, addressing_mode: AddressingMode::AbsoluteX },
        221u8 => Instruction { opcode: 0xDD, name: Mnemonic::Cmp, bytes: 3, cycles: 4, addressing_mode: AddressingMode::AbsoluteX },
        222u8 => Instruction { opcode: 0xDE, name: Mnemonic::Dec, bytes: 3, cycles: 7, addressing_mode: AddressingMode::AbsoluteX },
        223u8 => Instruction { opcode: 0xDF, name: Mnemonic::Dcp, bytes: 3, cycles: 7, addressing_mode: AddressingMode::AbsoluteX },
        224u8 => Instruction { opcode: 0xE0, name: Mnemonic::Cpx, bytes: 2, cycles: 2, addressing_mode: AddressingMode::Immediate },
        225u8 => Instruction { opcode: 0xE1, name: Mnemonic::Sbc, bytes: 2, cycles: 6, addressing_mode: AddressingMode::IndexedIndirect },
        226u8 => Instruction { opcode: 0xE2, name: Mnemonic::Nop, bytes: 2, cycles: 2, addressing_mode: AddressingMode::Immediate },
        227u8 => Instruction { opcode: 0xE3, name: Mnemonic::Isc, bytes: 2, cycles: 8, addressing_mode: AddressingMode::IndexedIndirect },
        228u8 => Instruction { opcode: 0xE4, name: Mnemonic::Cpx, bytes: 2, cycles: 3, addressing_mode: AddressingMode::ZeroPage },
        229u8 => Instruction { opcode: 0xE5, name: Mnemonic::Sbc, bytes: 2, cycles: 3, addressing_mode: AddressingMode::ZeroPage },
        230u8 => Instruction { opcode: 0xE6, name: Mnemonic::Inc, bytes: 2, cycles: 5, addressing_mode: AddressingMode::ZeroPage },
        231u8 => Instruction { opcode: 0xE7, name: Mnemonic::Isc, bytes: 2, cycles: 5, addressing_mode: AddressingMode::ZeroPage },
        232u8 => Instruction { opcode: 0xE8, name: Mnemonic::Inx, bytes: 1, cycles: 2, addressing_mode: AddressingMode::Implicit },
        233u8 => Instruction { opcode: 0xE9, name: Mnemonic::Sbc, bytes: 2, cycles: 2, addressing_mode: AddressingMode::Immediate },
        234u8 => Instruction { opcode: 0xEA, name: Mnemonic::Nop, bytes: 1, cycles: 2, addressing_mode: AddressingMode::Implicit },
        235u8 => Instruction { opcode: 0xEB, name: Mnemonic::Sbc, bytes: 2, cycles: 2, addressing_mode: AddressingMode::Immediate },
        236u8 => Instruction { opcode: 0xEC, name: Mnemonic::Cpx, bytes: 3, cycles: 4, addressing_mode: AddressingMode::Absolute },
        237u8 => Instruction { opcode: 0xED, name: Mnemonic::Sbc, bytes: 3, cycles: 4, addressing_mode: AddressingMode::Absolute },
        238u8 => Instruction { opcode: 0xEE, name: Mnemonic::Inc, bytes: 3, cycles: 6, addressing_mode: AddressingMode::Absolute },
        239u8 => Instruction { opcode: 0xEF, name: Mnemonic::Isc, bytes: 3, cycles: 6, addressing_mode: AddressingMode::Absolute },
        240u8 => Instruction { opcode: 0xF0, name: Mnemonic::Beq, bytes: 2, cycles: 2, addressing_mode: AddressingMode::Relative },
        241u8 => Instruction { opcode: 0xF1, name: Mnemonic::Sbc, bytes: 2, cycles: 5, addressing_mode: AddressingMode::IndirectIndexed },
        242u8 => Instruction { opcode: 0xF2, name: Mnemonic::Kil, bytes: 1, cycles: 1, addressing_mode: AddressingMode::Implicit },
        243u8 => Instruction { opcode: 0xF3, name: Mnemonic::Isc, bytes: 2, cycles: 8, addressing_mode: AddressingMode::IndirectIndexed },
        244u8 => Instruction { opcode: 0xF4, name: Mnemonic::Nop, bytes: 2, cycles: 4, addressing_mode: AddressingMode::ZeroPageX },
        245u8 => Instruction { opcode: 0xF5, name: Mnemonic::Sbc, bytes: 2, cycles: 4, addressing_mode: AddressingMode::ZeroPageX },
        246u8 => Instruction { opcode: 0xF6, name: Mnemonic::Inc, bytes: 2, cycles: 6, addressing_mode: AddressingMode::ZeroPageX },
        247u8 => Instruction { opcode: 0xF7, name: Mnemonic::Isc, bytes: 2, cycles: 6, addressing_mode: AddressingMode::ZeroPageX },
        248u8 => Instruction { opcode: 0xF8, name: Mnemonic::Sed, bytes: 1, cycles: 2, addressing_mode: AddressingMode::Implicit },
        249u8 => Instruction { opcode: 0xF9, name: Mnemonic::Sbc, bytes: 3, cycles: 4, addressing_mode: AddressingMode::AbsoluteY },
        250u8 => Instruction { opcode: 0xFA, name: Mnemonic::Nop, bytes: 1, cycles: 2, addressing_mode: AddressingMode::Implicit },
        251u8 => Instruction { opcode: 0xFB, name: Mnemonic::Isc, bytes: 3, cycles: 7, addressing_mode: AddressingMode::AbsoluteY },
        252u8 => Instruction { opcode: 0xFC, name: Mnemonic::Nop, bytes: 3, cycles: 4, addressing_mode: AddressingMode::AbsoluteX },
        253u8 => Instruction { opcode: 0xFD, name: Mnemonic::Sbc, bytes: 3, cycles: 4, addressing_mode: AddressingMode::AbsoluteX },
        254u8 => Instruction { opcode: 0xFE, name: Mnemonic::Inc, bytes: 3, cycles: 7, addressing_mode: AddressingMode::AbsoluteX },
        _ => Instruction { opcode: 0xFF, name: Mnemonic::Isc, bytes: 3, cycles: 7, addressing_mode: AddressingMode::AbsoluteX },
    }
}

/// Looks an opcode up in the instruction table.
fn instruction_quarter_0(opcode: u8) -> (r: Instruction)
    requires
        0 <= opcode < 64,
    ensures
        r == spec_instruction(opcode),
{
    match opcode {
        0u8 => Instruction::new(0x00, Mnemonic::Brk, 1, 7, AddressingMode::Implicit),
        1u8 => Instruction::new(0x01, Mnemonic::Ora, 2, 6, AddressingMode::IndexedIndirect),
        2u8 => Instruction::new(0x02, Mnemonic::Kil, 1, 1, AddressingMode::Implicit),
        3u8 => Instruction::new(0x03, Mnemonic::Slo, 2, 8, AddressingMode::IndexedIndirect),
        4u8 => Instruction::new(0x04, Mnemonic::Nop, 2, 3, AddressingMode::ZeroPage),
        5u8 => Instruction::new(0x05, Mnemonic::Ora, 2, 3, AddressingMode::ZeroPage),
        6u8 => Instruction::new(0x06, Mnemonic::Asl, 2, 5, AddressingMode::ZeroPage),
        7u8 => Instruction::new(0x07, Mnemonic::Slo, 2, 5, AddressingMode::ZeroPage),
        8u8 => Instruction::new(0x08, Mnemonic::Php, 1, 3, AddressingMode::Implicit),
        9u8 => Instruction::new(0x09, Mnemonic::Ora, 2, 2, AddressingMode::Immediate),
        10u8 => Instruction::new(0x0A, Mnemonic::Asl, 1, 2, AddressingMode::Accumulator),
        11u8 => Instruction::new(0x0B, Mnemonic::Anc, 2, 2, AddressingMode::Immediate),
        12u8 => Instruction::new(0x0C, Mnemonic::Nop, 3, 4, AddressingMode::Absolute),
        13u8 => Instruction::new(0x0D, Mnemonic::Ora, 3, 4, AddressingMode::Absolute),
        14u8 => Instruction::new(0x0E, Mnemonic::Asl, 3, 6, AddressingMode::Absolute),
        15u8 => Instruction::new(0x0F, Mnemonic::Slo, 3, 6, AddressingMode::Absolute),
        16u8 => Instruction::new(0x10, Mnemonic::Bpl, 2, 2, AddressingMode::Relative),
        17u8 => Instruction::new(0x11, Mnemonic::Ora, 2, 5, AddressingMode::IndirectIndexed),
        18u8 => Instruction::new(0x12, Mnemonic::Kil, 1, 1, AddressingMode::Implicit),
        19u8 => Instruction::new(0x13, Mnemonic::Slo, 2, 8, AddressingMode::IndirectIndexed),
        20u8 => Instruction::new(0x14, Mnemonic::Nop, 2, 4, AddressingMode::ZeroPageX),
        21u8 => Instruction::new(0x15, Mnemonic::Ora, 2, 4, AddressingMode::ZeroPageX),
        22u8 => Instruction::new(0x16, Mnemonic::Asl, 2, 6, AddressingMode::ZeroPageX),
        23u8 => Instruction::new(0x17, Mnemonic::Slo, 2, 6, AddressingMode::ZeroPageX),
        24u8 => Instruction::new(0x18, Mnemonic::Clc, 1, 2, AddressingMode::Implicit),
        25u8 => Instruction::new(0x19, Mnemonic::Ora, 3, 4, AddressingMode::AbsoluteY),
        26u8 => Instruction::new(0x1A, Mnemonic::Nop, 1, 2, AddressingMode::Implicit),
        27u8 => Instruction::new(0x1B, Mnemonic::Slo, 3, 7, AddressingMode::AbsoluteY),
        28u8 => Instruction::new(0x1C, Mnemonic::Nop, 3, 4, AddressingMode::AbsoluteX),
        29u8 => Instruction::new(0x1D, Mnemonic::Ora, 3, 4, AddressingMode::AbsoluteX),
        30u8 => Instruction::new(0x1E, Mnemonic::Asl, 3, 7, AddressingMode::AbsoluteX),
        31u8 => Instruction::new(0x1F, Mnemonic::Slo, 3, 7, AddressingMode::AbsoluteX),
        32u8 => Instruction::new(0x20, Mnemonic::Jsr, 3, 6, AddressingMode::Absolute),
        33u8 => Instruction::new(0x21, Mnemonic::And, 2, 6, AddressingMode::IndexedIndirect),
        34u8 => Instruction::new(0x22, Mnemonic::Kil, 1, 1, AddressingMode::Implicit),
        35u8 => Instruction::new(0x23, Mnemonic::Rla, 2, 8, AddressingMode::IndexedIndirect),
        36u8 => Instruction::new(0x24, Mnemonic::Bit, 2, 3, AddressingMode::ZeroPage),
        37u8 => Instruction::new(0x25, Mnemonic::And, 2, 3, AddressingMode::ZeroPage),
        38u8 => Instruction::new(0x26, Mnemonic::Rol, 2, 5, AddressingMode::ZeroPage),
        39u8 => Instruction::new(0x27, Mnemonic::Rla, 2, 5, AddressingMode::ZeroPage),
        40u8 => Instruction::new(0x28, Mnemonic::Plp, 1, 4, AddressingMode::Implicit),
        41u8 => Instruction::new(0x29, Mnemonic::And, 2, 2, AddressingMode::Immediate),
        42u8 => Instruction::new(0x2A, Mnemonic::Rol, 1, 2, AddressingMode::Accumulator),
        43u8 => Instruction::new(0x2B, Mnemonic::Anc, 2, 2, AddressingMode::Immediate),
        44u8 => Instruction::new(0x2C, Mnemonic::Bit, 3, 4, AddressingMode::Absolute),
        45u8 => Instruction::new(0x2D, Mnemonic::And, 3, 4, AddressingMode::Absolute),
        46u8 => Instruction::new(0x2E, Mnemonic::Rol, 3, 6, AddressingMode::Absolute),
        47u8 => Instruction::new(0x2F, Mnemonic::Rla, 3, 6, AddressingMode::Absolute),
        48u8 => Instruction::new(0x30, Mnemonic::Bmi, 2, 2, AddressingMode::Relative),
        49u8 => Instruction::new(0x31, Mnemonic::And, 2, 5, AddressingMode::IndirectIndexed),
        50u8 => Instruction::new(0x32, Mnemonic::Kil, 1, 1, AddressingMode::Implicit),
        51u8 => Instruction::new(0x33, Mnemonic::Rla, 2, 8, AddressingMode::IndirectIndexed),
        52u8 => Instruction::new(0x34, Mnemonic::Nop, 2, 4, AddressingMode::ZeroPageX),
        53u8 => Instruction::new(0x35, Mnemonic::And, 2, 4, AddressingMode::ZeroPageX),
        54u8 => Instruction::new(0x36, Mnemonic::Rol, 2, 6, AddressingMode::ZeroPageX),
        55u8 => Instruction::new(0x37, Mnemonic::Rla, 2, 6, AddressingMode::ZeroPageX),
        56u8 => Instruction::new(0x38, Mnemonic::Sec, 1, 2, AddressingMode::Implicit),
        57u8 => Instruction::new(0x39, Mnemonic::And, 3, 4, AddressingMode::AbsoluteY),
        58u8 => Instruction::new(0x3A, Mnemonic::Nop, 1, 2, AddressingMode::Implicit),
        59u8 => Instruction::new(0x3B, Mnemonic::Rla, 3, 7, AddressingMode::AbsoluteY),
        60u8 => Instruction::new(0x3C, Mnemonic::Nop, 3, 4, AddressingMode::AbsoluteX),
        61u8 => Instruction::new(0x3D, Mnemonic::And, 3, 4, AddressingMode::AbsoluteX),
        62u8 => Instruction::new(0x3E, Mnemonic::Rol, 3, 7, AddressingMode::AbsoluteX),
        _ => Instruction::new(0x3F, Mnemonic::Rla, 3, 7, AddressingMode::AbsoluteX),
    }
}

fn instruction_quarter_1(opcode: u8) -> (r: Instruction)
    requires
        64 <= opcode < 128,
    ensures
        r == spec_instruction(opcode),
{
    match opcode {
        64u8 => Instruction::new(0x40, Mnemonic::Rti, 1, 6, AddressingMode::Implicit),
        65u8 => Instruction::new(0x41, Mnemonic::Eor, 2, 6, AddressingMode::IndexedIndirect),
        66u8 => Instruction::new(0x42, Mnemonic::Kil, 1, 1, AddressingMode::Implicit),
        67u8 => Instruction::new(0x43, Mnemonic::Sre, 2, 8, AddressingMode::IndexedIndirect),
        68u8 => Instruction::new(0x44, Mnemonic::Nop, 2, 3, AddressingMode::ZeroPage),
        69u8 => Instruction::new(0x45, Mnemonic::Eor, 2, 3, AddressingMode::ZeroPage),
        70u8 => Instruction::new(0x46, Mnemonic::Lsr, 2, 5, AddressingMode::ZeroPage),
        71u8 => Instruction::new(0x47, Mnemonic::Sre, 2, 5, AddressingMode::ZeroPage),
        72u8 => Instruction::new(0x48, Mnemonic::Pha, 1, 3, AddressingMode::Implicit),
        73u8 => Instruction::new(0x49, Mnemonic::Eor, 2, 2, AddressingMode::Immediate),
        74u8 => Instruction::new(0x4A, Mnemonic::Lsr, 1, 2, AddressingMode::Accumulator),
        75u8 => Instruction::new(0x4B, Mnemonic::Asr, 2, 2, AddressingMode::Immediate),
        76u8 => Instruction::new(0x4C, Mnemonic::Jmp, 3, 3, AddressingMode::Absolute),
        77u8 => Instruction::new(0x4D, Mnemonic::Eor, 3, 4, AddressingMode::Absolute),
        78u8 => Instruction::new(0x4E, Mnemonic::Lsr, 3, 6, AddressingMode::Absolute),
        79u8 => Instruction::new(0x4F, Mnemonic::Sre, 3, 6, AddressingMode::Absolute),
        80u8 => Instruction::new(0x50, Mnemonic::Bvc, 2, 2, AddressingMode::Relative),
        81u8 => Instruction::new(0x51, Mnemonic::Eor, 2, 5, AddressingMode::IndirectIndexed),
        82u8 => Instruction::new(0x52, Mnemonic::Kil, 1, 1, AddressingMode::Implicit),
        83u8 => Instruction::new(0x53, Mnemonic::Sre, 2, 8, AddressingMode::IndirectIndexed),
        84u8 => Instruction::new(0x54, Mnemonic::Nop, 2, 4, AddressingMode::ZeroPageX),
        85u8 => Instruction::new(0x55, Mnemonic::Eor, 2, 4, AddressingMode::ZeroPageX),
        86u8 => Instruction::new(0x56, Mnemonic::Lsr, 2, 6, AddressingMode::ZeroPageX),
        87u8 => Instruction::new(0x57, Mnemonic::Sre, 2, 6, AddressingMode::ZeroPageX),
        88u8 => Instruction::new(0x58, Mnemonic::Cli, 1, 2, AddressingMode::Implicit),
        89u8 => Instruction::new(0x59, Mnemonic::Eor, 3, 4, AddressingMode::AbsoluteY),
        90u8 => Instruction::new(0x5A, Mnemonic::Nop, 1, 2, AddressingMode::Implicit),
        91u8 => Instruction::new(0x5B, Mnemonic::Sre, 3, 7, AddressingMode::AbsoluteY),
        92u8 => Instruction::new(0x5C, Mnemonic::Nop, 3, 4, AddressingMode::AbsoluteX),
        93u8 => Instruction::new(0x5D, Mnemonic::Eor, 3, 4, AddressingMode::AbsoluteX),
        94u8 => Instruction::new(0x5E, Mnemonic::Lsr, 3, 7, AddressingMode::AbsoluteX),
        95u8 => Instruction::new(0x5F, Mnemonic::Sre, 3, 7, AddressingMode::AbsoluteX),
        96u8 => Instruction::new(0x60, Mnemonic::Rts, 1, 6, AddressingMode::Implicit),
        97u8 => Instruction::new(0x61, Mnemonic::Adc, 2, 6, AddressingMode::IndexedIndirect),
        98u8 => Instruction::new(0x62, Mnemonic::Kil, 1, 1, AddressingMode::Implicit),
        99u8 => Instruction::new(0x63, Mnemonic::Rra, 2, 8, AddressingMode::IndexedIndirect),
        100u8 => Instruction::new(0x64, Mnemonic::Nop, 2, 3, AddressingMode::ZeroPage),
        101u8 => Instruction::new(0x65, Mnemonic::Adc, 2, 3, AddressingMode::ZeroPage),
        102u8 => Instruction::new(0x66, Mnemonic::Ror, 2, 5, AddressingMode::ZeroPage),
        103u8 => Instruction::new(0x67, Mnemonic::Rra, 2, 5, AddressingMode::ZeroPage),
        104u8 => Instruction::new(0x68, Mnemonic::Pla, 1, 4, AddressingMode::Implicit),
        105u8 => Instruction::new(0x69, Mnemonic::Adc, 2, 2, AddressingMode::Immediate),
        106u8 => Instruction::new(0x6A, Mnemonic::Ror, 1, 2, AddressingMode::Accumulator),
        107u8 => Instruction::new(0x6B, Mnemonic::Arr, 2, 2, AddressingMode::Immediate),
        108u8 => Instruction::new(0x6C, Mnemonic::Jmp, 3, 5, AddressingMode::Indirect),
        109u8 => Instruction::new(0x6D, Mnemonic::Adc, 3, 4, AddressingMode::Absolute),
        110u8 => Instruction::new(0x6E, Mnemonic::Ror, 3, 6, AddressingMode::Absolute),
        111u8 => Instruction::new(0x6F, Mnemonic::Rra, 3, 6, AddressingMode::Absolute),
        112u8 => Instruction::new(0x70, Mnemonic::Bvs, 2, 2, AddressingMode::Relative),
        113u8 => Instruction::new(0x71, Mnemonic::Adc, 2, 5, AddressingMode::IndirectIndexed),
        114u8 => Instruction::new(0x72, Mnemonic::Kil, 1, 1, AddressingMode::Implicit),
        115u8 => Instruction::new(0x73, Mnemonic::Rra, 2, 8, AddressingMode::IndirectIndexed),
        116u8 => Instruction::new(0x74, Mnemonic::Nop, 2, 4, AddressingMode::ZeroPageX),
        117u8 => Instruction::new(0x75, Mnemonic::Adc, 2, 4, AddressingMode::ZeroPageX),
        118u8 => Instruction::new(0x76, Mnemonic::Ror, 2, 6, AddressingMode::ZeroPageX),
        119u8 => Instruction::new(0x77, Mnemonic::Rra, 2, 6, AddressingMode::ZeroPageX),
        120u8 => Instruction::new(0x78, Mnemonic::Sei, 1, 2, AddressingMode::Implicit),
        121u8 => Instruction::new(0x79, Mnemonic::Adc, 3, 4, AddressingMode::AbsoluteY),
        122u8 => Instruction::new(0x7A, Mnemonic::Nop, 1, 2, AddressingMode::Implicit),
        123u8 => Instruction::new(0x7B, Mnemonic::Rra, 3, 7, AddressingMode::AbsoluteY),
        124u8 => Instruction::new(0x7C, Mnemonic::Nop, 3, 4, AddressingMode::AbsoluteX),
        125u8 => Instruction::new(0x7D, Mnemonic::Adc, 3, 4, AddressingMode::AbsoluteX),
        126u8 => Instruction::new(0x7E, Mnemonic::Ror, 3, 7, AddressingMode::AbsoluteX),
        _ => Instruction::new(0x7F, Mnemonic::Rra, 3, 7, AddressingMode::AbsoluteX),
    }
}

fn instruction_quarter_2(opcode: u8) -> (r: Instruction)
    requires
        128 <= opcode < 192,
    ensures
        r == spec_instruction(opcode),
{
    match opcode {
        128u8 => Instruction::new(0x80, Mnemonic::Nop, 2, 2, AddressingMode::Immediate),
        129u8 => Instruction::new(0x81, Mnemonic::Sta, 2, 6, AddressingMode::IndexedIndirect),
        130u8 => Instruction::new(0x82, Mnemonic::Nop, 2, 2, AddressingMode::Immediate),
        131u8 => Instruction::new(0x83, Mnemonic::Sax, 2, 6, AddressingMode::IndexedIndirect),
        132u8 => Instruction::new(0x84, Mnemonic::Sty, 2, 3, AddressingMode::ZeroPage),
        133u8 => Instruction::new(0x85, Mnemonic::Sta, 2, 3, AddressingMode::ZeroPage),
        134u8 => Instruction::new(0x86, Mnemonic::Stx, 2, 3, AddressingMode::ZeroPage),
        135u8 => Instruction::new(0x87, Mnemonic::Sax, 2, 3, AddressingMode::ZeroPage),
        136u8 => Instruction::new(0x88, Mnemonic::Dey, 1, 2, AddressingMode::Implicit),
        137u8 => Instruction::new(0x89, Mnemonic::Nop, 2, 2, AddressingMode::Immediate),
        138u8 => Instruction::new(0x8A, Mnemonic::Txa, 1, 2, AddressingMode::Implicit),
        139u8 => Instruction::new(0x8B, Mnemonic::Xaa, 2, 2, AddressingMode::Immediate),
        140u8 => Instruction::new(0x8C, Mnemonic::Sty, 3, 4, AddressingMode::Absolute),
        141u8 => Instruction::new(0x8D, Mnemonic::Sta, 3, 4, AddressingMode::Absolute),
        142u8 => Instruction::new(0x8E, Mnemonic::Stx, 3, 4, AddressingMode::Absolute),
        143u8 => Instruction::new(0x8F, Mnemonic::Sax, 3, 4, AddressingMode::Absolute),
        144u8 => Instruction::new(0x90, Mnemonic::Bcc, 2, 2, AddressingMode::Relative),
        145u8 => Instruction::new(0x91, Mnemonic::Sta, 2, 6, AddressingMode::IndirectIndexed),
        146u8 => Instruction::new(0x92, Mnemonic::Kil, 1, 1, AddressingMode::Implicit),
        147u8 => Instruction::new(0x93, Mnemonic::Ahx, 2, 6, AddressingMode::IndirectIndexed),
        148u8 => Instruction::new(0x94, Mnemonic::Sty, 2, 4, AddressingMode::ZeroPageX),
        149u8 => Instruction::new(0x95, Mnemonic::Sta, 2, 4, AddressingMode::ZeroPageX),
        150u8 => Instruction::new(0x96, Mnemonic::Stx, 2, 4, AddressingMode::ZeroPageY),
        151u8 => Instruction::new(0x97, Mnemonic::Sax, 2, 4, AddressingMode::ZeroPageY),
        152u8 => Instruction::new(0x98, Mnemonic::Tya, 1, 2, AddressingMode::Implicit),
        153u8 => Instruction::new(0x99, Mnemonic::Sta, 3, 5, AddressingMode::AbsoluteY),
        154u8 => Instruction::new(0x9A, Mnemonic::Txs, 1, 2, AddressingMode::Implicit),
        155u8 => Instruction::new(0x9B, Mnemonic::Tas, 3, 5, AddressingMode::AbsoluteY),
        156u8 => Instruction::new(0x9C, Mnemonic::Shy, 3, 5, AddressingMode::AbsoluteX),
        157u8 => Instruction::new(0x9D, Mnemonic::Sta, 3, 5, AddressingMode::AbsoluteX),
        158u8 => Instruction::new(0x9E, Mnemonic::Shx, 3, 5, AddressingMode::AbsoluteY),
        159u8 => Instruction::new(0x9F, Mnemonic::Ahx, 3, 5, AddressingMode::AbsoluteY),
        160u8 => Instruction::new(0xA0, Mnemonic::Ldy, 2, 2, AddressingMode::Immediate),
        161u8 => Instruction::new(0xA1, Mnemonic::Lda, 2, 6, AddressingMode::IndexedIndirect),
        162u8 => Instruction::new(0xA2, Mnemonic::Ldx, 2, 2, AddressingMode::Immediate),
        163u8 => Instruction::new(0xA3, Mnemonic::Lax, 2, 6, AddressingMode::IndexedIndirect),
        164u8 => Instruction::new(0xA4, Mnemonic::Ldy, 2, 3, AddressingMode::ZeroPage),
        165u8 => Instruction::new(0xA5, Mnemonic::Lda, 2, 3, AddressingMode::ZeroPage),
        166u8 => Instruction::new(0xA6, Mnemonic::Ldx, 2, 3, AddressingMode::ZeroPage),
        167u8 => Instruction::new(0xA7, Mnemonic::Lax, 2, 3, AddressingMode::ZeroPage),
        168u8 => Instruction::new(0xA8, Mnemonic::Tay, 1, 2, AddressingMode::Implicit),
        169u8 => Instruction::new(0xA9, Mnemonic::Lda, 2, 2, AddressingMode::Immediate),
        170u8 => Instruction::new(0xAA, Mnemonic::Tax, 1, 2, AddressingMode::Implicit),
        171u8 => Instruction::new(0xAB, Mnemonic::Lax, 2, 2, AddressingMode::Immediate),
        172u8 => Instruction::new(0xAC, Mnemonic::Ldy, 3, 4, AddressingMode::Absolute),
        173u8 => Instruction::new(0xAD, Mnemonic::Lda, 3, 4, AddressingMode::Absolute),
        174u8 => Instruction::new(0xAE, Mnemonic::Ldx, 3, 4, AddressingMode::Absolute),
        175u8 => Instruction::new(0xAF, Mnemonic::Lax, 3, 4, AddressingMode::Absolute),
        176u8 => Instruction::new(0xB0, Mnemonic::Bcs, 2, 2, AddressingMode::Relative),
        177u8 => Instruction::new(0xB1, Mnemonic::Lda, 2, 5, AddressingMode::IndirectIndexed),
        178u8 => Instruction::new(0xB2, Mnemonic::Kil, 1, 1, AddressingMode::Implicit),
        179u8 => Instruction::new(0xB3, Mnemonic::Lax, 2, 5, AddressingMode::IndirectIndexed),
        180u8 => Instruction::new(0xB4, Mnemonic::Ldy, 2, 4, AddressingMode::ZeroPageX),
        181u8 => Instruction::new(0xB5, Mnemonic::Lda, 2, 4, AddressingMode::ZeroPageX),
        182u8 => Instruction::new(0xB6, Mnemonic::Ldx, 2, 4, AddressingMode::ZeroPageY),
        183u8 => Instruction::new(0xB7, Mnemonic::Lax, 2, 4, AddressingMode::ZeroPageY),
        184u8 => Instruction::new(0xB8, Mnemonic::Clv, 1, 2, AddressingMode::Implicit),
        185u8 => Instruction::new(0xB9, Mnemonic::Lda, 3, 4, AddressingMode::AbsoluteY),
        186u8 => Instruction::new(0xBA, Mnemonic::Tsx, 1, 2, AddressingMode::Implicit),
        187u8 => Instruction::new(0xBB, Mnemonic::Las, 3, 4, AddressingMode::AbsoluteY),
        188u8 => Instruction::new(0xBC, Mnemonic::Ldy, 3, 4, AddressingMode::AbsoluteX),
        189u8 => Instruction::new(0xBD, Mnemonic::Lda, 3, 4, AddressingMode::AbsoluteX),
        190u8 => Instruction::new(0xBE, Mnemonic::Ldx, 3, 4, AddressingMode::AbsoluteY),
        _ => Instruction::new(0xBF, Mnemonic::Lax, 3, 4, AddressingMode::AbsoluteY),
    }
}

fn instruction_quarter_3(opcode: u8) -> (r: Instruction)
    requires
        192 <= opcode < 256,
    ensures
        r == spec_instruction(opcode),
{
    match opcode {
        192u8 => Instruction::new(0xC0, Mnemonic::Cpy, 2, 2, AddressingMode::Immediate),
        193u8 => Instruction::new(0xC1, Mnemonic::Cmp, 2, 6, AddressingMode::IndexedIndirect),
        194u8 => Instruction::new(0xC2, Mnemonic::Nop, 2, 2, AddressingMode::Immediate),
        195u8 => Instruction::new(0xC3, Mnemonic::Dcp, 2, 8, AddressingMode::IndexedIndirect),
        196u8 => Instruction::new(0xC4, Mnemonic::Cpy, 2, 3, AddressingMode::ZeroPage),
        197u8 => Instruction::new(0xC5, Mnemonic::Cmp, 2, 3, AddressingMode::ZeroPage),
        198u8 => Instruction::new(0xC6, Mnemonic::Dec, 2, 5, AddressingMode::ZeroPage),
        199u8 => Instruction::new(0xC7, Mnemonic::Dcp, 2, 5, AddressingMode::ZeroPage),
        200u8 => Instruction::new(0xC8, Mnemonic::Iny, 1, 2, AddressingMode::Implicit),
        201u8 => Instruction::new(0xC9, Mnemonic::Cmp, 2, 2, AddressingMode::Immediate),
        202u8 => Instruction::new(0xCA, Mnemonic::Dex, 1, 2, AddressingMode::Implicit),
        203u8 => Instruction::new(0xCB, Mnemonic::Axs, 2, 2, AddressingMode::Immediate),
        204u8 => Instruction::new(0xCC, Mnemonic::Cpy, 3, 4, AddressingMode::Absolute),
        205u8 => Instruction::new(0xCD, Mnemonic::Cmp, 3, 4, AddressingMode::Absolute),
        206u8 => Instruction::new(0xCE, Mnemonic::Dec, 3, 6, AddressingMode::Absolute),
        207u8 => Instruction::new(0xCF, Mnemonic::Dcp, 3, 6, AddressingMode::Absolute),
        208u8 => Instruction::new(0xD0, Mnemonic::Bne, 2, 2, AddressingMode::Relative),
        209u8 => Instruction::new(0xD1, Mnemonic::Cmp, 2, 5, AddressingMode::IndirectIndexed),
        210u8 => Instruction::new(0xD2, Mnemonic::Kil, 1, 1, AddressingMode::Implicit),
        211u8 => Instruction::new(0xD3, Mnemonic::Dcp, 2, 8, AddressingMode::IndirectIndexed),
        212u8 => Instruction::new(0xD4, Mnemonic::Nop, 2, 4, AddressingMode::ZeroPageX),
        213u8 => Instruction::new(0xD5, Mnemonic::Cmp, 2, 4, AddressingMode::ZeroPageX),
        214u8 => Instruction::new(0xD6, Mnemonic::Dec, 2, 6, AddressingMode::ZeroPageX),
        215u8 => Instruction::new(0xD7, Mnemonic::Dcp, 2, 6, AddressingMode::ZeroPageX),
        216u8 => Instruction::new(0xD8, Mnemonic::Cld, 1, 2, AddressingMode::Implicit),
        217u8 => Instruction::new(0xD9, Mnemonic::Cmp, 3, 4, AddressingMode::AbsoluteY),
        218u8 => Instruction::new(0xDA, Mnemonic::Nop, 1, 2, AddressingMode::Implicit),
        219u8 => Instruction::new(0xDB, Mnemonic::Dcp, 3, 7, AddressingMode::AbsoluteY),
        220u8 => Instruction::new(0xDC, Mnemonic::Nop, 3, 4, AddressingMode::AbsoluteX),
        221u8 => Instruction::new(0xDD, Mnemonic::Cmp, 3, 4, AddressingMode::AbsoluteX),
        222u8 => Instruction::new(0xDE, Mnemonic::Dec, 3, 7, AddressingMode::AbsoluteX),
        223u8 => Instruction::new(0xDF, Mnemonic::Dcp, 3, 7, AddressingMode::AbsoluteX),
        224u8 => Instruction::new(0xE0, Mnemonic::Cpx, 2, 2, AddressingMode::Immediate),
        225u8 => Instruction::new(0xE1, Mnemonic::Sbc, 2, 6, AddressingMode::IndexedIndirect),
        226u8 => Instruction::new(0xE2, Mnemonic::Nop, 2, 2, AddressingMode::Immediate),
        227u8 => Instruction::new(0xE3, Mnemonic::Isc, 2, 8, AddressingMode::IndexedIndirect),
        228u8 => Instruction::new(0xE4, Mnemonic::Cpx, 2, 3, AddressingMode::ZeroPage),
        229u8 => Instruction::new(0xE5, Mnemonic::Sbc, 2, 3, AddressingMode::ZeroPage),
        230u8 => Instruction::new(0xE6, Mnemonic::Inc, 2, 5, AddressingMode::ZeroPage),
        231u8 => Instruction::new(0xE7, Mnemonic::Isc, 2, 5, AddressingMode::ZeroPage),
        232u8 => Instruction::new(0xE8, Mnemonic::Inx, 1, 2, AddressingMode::Implicit),
        233u8 => Instruction::new(0xE9, Mnemonic::Sbc, 2, 2, AddressingMode::Immediate),
        234u8 => Instruction::new(0xEA, Mnemonic::Nop, 1, 2, AddressingMode::Implicit),
        235u8 => Instruction::new(0xEB, Mnemonic::Sbc, 2, 2, AddressingMode::Immediate),
        236u8 => Instruction::new(0xEC, Mnemonic::Cpx, 3, 4, AddressingMode::Absolute),
        237u8 => Instruction::new(0xED, Mnemonic::Sbc, 3, 4, AddressingMode::Absolute),
        238u8 => Instruction::new(0xEE, Mnemonic::Inc, 3, 6, AddressingMode::Absolute),
        239u8 => Instruction::new(0xEF, Mnemonic::Isc, 3, 6, AddressingMode::Absolute),
        240u8 => Instruction::new(0xF0, Mnemonic::Beq, 2, 2, AddressingMode::Relative),
        241u8 => Instruction::new(0xF1, Mnemonic::Sbc, 2, 5, AddressingMode::IndirectIndexed),
        242u8 => Instruction::new(0xF2, Mnemonic::Kil, 1, 1, AddressingMode::Implicit),
        243u8 => Instruction::new(0xF3, Mnemonic::Isc, 2, 8, AddressingMode::IndirectIndexed),
        244u8 => Instruction::new(0xF4, Mnemonic::Nop, 2, 4, AddressingMode::ZeroPageX),
        245u8 => Instruction::new(0xF5, Mnemonic::Sbc, 2, 4, AddressingMode::ZeroPageX),
        246u8 => Instruction::new(0xF6, Mnemonic::Inc, 2, 6, AddressingMode::ZeroPageX),
        247u8 => Instruction::new(0xF7, Mnemonic::Isc, 2, 6, AddressingMode::ZeroPageX),
        248u8 => Instruction::new(0xF8, Mnemonic::Sed, 1, 2, AddressingMode::Implicit),
        249u8 => Instruction::new(0xF9, Mnemonic::Sbc, 3, 4, AddressingMode::AbsoluteY),
        250u8 => Instruction::new(0xFA, Mnemonic::Nop, 1, 2, AddressingMode::Implicit),
        251u8 => Instruction::new(0xFB, Mnemonic::Isc, 3, 7, AddressingMode::AbsoluteY),
        252u8 => Instruction::new(0xFC, Mnemonic::Nop, 3, 4, AddressingMode::AbsoluteX),
        253u8 => Instruction::new(0xFD, Mnemonic::Sbc, 3, 4, AddressingMode::AbsoluteX),
        254u8 => Instruction::new(0xFE, Mnemonic::Inc, 3, 7, AddressingMode::AbsoluteX),
        _ => Instruction::new(0xFF, Mnemonic::Isc, 3, 7, AddressingMode::AbsoluteX),
    }
}

/// Looks an opcode up in the instruction table.
pub fn instruction_for(opcode: u8) -> (r: Instruction)
    ensures
        r == spec_instruction(opcode),
{
    if opcode < 64 {
        instruction_quarter_0(opcode)
    } else if opcode < 128 {
        instruction_quarter_1(opcode)
    } else if opcode < 192 {
        instruction_quarter_2(opcode)
    } else {
        instruction_quarter_3(opcode)
    }
}

/// Whether two addresses lie in different 256-byte pages.
pub open spec fn spec_is_page_cross(page1: u16, page2: u16) -> bool {
    page1 & 0xFF00 != page2 & 0xFF00
}

/// A 16-bit little-endian value as the CPU reads it, low byte first.
pub open spec fn spec_peek16(bus: Bus, address: u16) -> u16 {
    (bus.spec_cpu_peek(address) as u16) | ((bus.spec_cpu_peek(
        u16_specs::wrapping_add(address, 1),
    ) as u16) << 8)
}

/// Whether both bytes of a 16-bit read leave the machine unchanged.
pub open spec fn spec_peek16_pure(address: u16) -> bool {
    Bus::spec_cpu_read_pure(address) && Bus::spec_cpu_read_pure(u16_specs::wrapping_add(address, 1))
}

/// Where the page-wrapped high byte of an indirect vector is read:
/// the increment of the pointer's low byte never leaves its page.
pub open spec fn spec_indirect_hi_pointer(pointer: u16) -> u16 {
    ((((pointer >> 8) as u8) as u16) << 8) | (u8_specs::wrapping_add(pointer as u8, 1) as u16)
}

pub struct Cpu {
    pub register_a: u8,
    pub register_x: u8,
    pub register_y: u8,
    pub status: CpuStatusRegister,
    pub stack_pointer: u8,
    pub program_counter: u16,
    pub bus: Bus,
    pub clock: Clock,
    pub use_disassembler: bool,
    pub trace: Vec<String>,
    pub frame_ready: bool,
}

impl Cpu {
    pub open spec fn wf(&self) -> bool {
        self.bus.wf()
    }

    pub fn new(bus: Bus, clock: Clock) -> (r: Self)
        ensures
            r.register_a == 0u8,
            r.register_x == 0u8,
            r.register_y == 0u8,
            r.status.value == 0x24u8,
            r.stack_pointer == 0xFDu8,
            r.program_counter == 0x8000u16,
            r.bus == bus,
            r.clock == clock,
            !r.use_disassembler,
            r.trace@.len() == 0,
            !r.frame_ready,
            bus.wf() ==> r.wf(),
    {
        Self {
            register_a: 0x00,
            register_x: 0x00,
            register_y: 0x00,
            status: CpuStatusRegister::new(),
            stack_pointer: 0xFD,
            program_counter: 0x8000,
            bus,
            clock,
            use_disassembler: false,
            trace: Vec::new(),
            frame_ready: false,
        }
    }

    pub fn use_disassembler(&mut self, active: bool)
        ensures
            *final(self) == (Cpu { use_disassembler: active, ..*old(self) }),
    {
        if active {
            self.use_disassembler = true;
        } else {
            self.use_disassembler = false;
        }
    }

    pub fn set_program_counter(&mut self, address: u16)
        ensures
            *final(self) == (Cpu { program_counter: address, ..*old(self) }),
    {
        self.program_counter = address;
    }

    /// Hands out whether a frame finished since the last call, and
    /// clears the flag.
    pub fn take_frame_ready(&mut self) -> (r: bool)
        ensures
            r == old(self).frame_ready,
            *final(self) == (Cpu { frame_ready: false, ..*old(self) }),
    {
        let r: bool = self.frame_ready;
        self.frame_ready = false;
        r
    }

    /// Charges `amount` CPU cycles and advances the PPU exactly three
    /// dots per cycle, latching an NMI on the bus when the PPU raises
    /// one and noting the finished frame when the vertical blank rises.
    fn tick(&mut self, amount: usize)
        requires
            old(self).wf(),
            old(self).clock.cycles + amount <= usize::MAX,
            amount <= 600,
        ensures
            final(self).wf(),
            *final(self) == (Cpu {
                bus: final(self).bus,
                clock: final(self).clock,
                frame_ready: final(self).frame_ready,
                ..*old(self)
            }),
            final(self).clock.cycles == old(self).clock.cycles + amount,
            old(self).bus.ppu.dot_counter + 3 * amount <= usize::MAX ==> final(self).bus.ppu.dot_counter == old(self).bus.ppu.dot_counter + 3 * amount,
            final(self).bus == (Bus {
                ppu: final(self).bus.ppu,
                nmi_interrupt: final(self).bus.nmi_interrupt,
                ..old(self).bus
            }),
            old(self).bus.nmi_interrupt is Some ==> final(self).bus.nmi_interrupt is Some,
            final(self).bus.nmi_interrupt is Some ==> old(self).bus.nmi_interrupt is Some
                || crate::ppu::spec_nmi_enabled(old(self).bus.ppu),
            crate::ppu::spec_same_ports(old(self).bus.ppu, final(self).bus.ppu),
            final(self).frame_ready == (old(self).frame_ready || (!crate::ppu::spec_vblank(
                old(self).bus.ppu,
            ) && crate::ppu::spec_vblank(final(self).bus.ppu))),
    {
        self.clock.tick(amount);
        let vblank_before: bool = self.bus.ppu.status.get() & 0x80 != 0;
        let total_dots: usize = amount * 3;
        let mut dots: usize = 0;
        while dots < total_dots
            invariant
                self.wf(),
                dots <= total_dots,
                total_dots == 3 * amount,
                *self == (Cpu { bus: self.bus, clock: self.clock, ..*old(self) }),
                self.clock.cycles == old(self).clock.cycles + amount,
                self.bus == (Bus {
                    ppu: self.bus.ppu,
                    nmi_interrupt: self.bus.nmi_interrupt,
                    ..old(self).bus
                }),
                old(self).bus.nmi_interrupt is Some ==> self.bus.nmi_interrupt is Some,
                self.bus.nmi_interrupt is Some ==> old(self).bus.nmi_interrupt is Some
                    || crate::ppu::spec_nmi_enabled(old(self).bus.ppu),
                crate::ppu::spec_same_ports(old(self).bus.ppu, self.bus.ppu),
                old(self).bus.ppu.dot_counter + 3 * amount <= usize::MAX
                    ==> self.bus.ppu.dot_counter == old(self).bus.ppu.dot_counter + dots,
            decreases total_dots - dots,
        {
            let nmi: bool = self.bus.ppu.tick(&self.bus.ppu_memory_map, &self.bus.mapper, 1);
            if nmi {
                self.bus.nmi_interrupt = Some(());
            }
            dots = dots + 1;
        }
        let vblank_after: bool = self.bus.ppu.status.get() & 0x80 != 0;
        if !vblank_before && vblank_after {
            self.frame_ready = true;
        }
    }

    /// A CPU-side read, forwarded to the bus with its side effects.
    pub fn read(&mut self, address: u16) -> (r: u8)
        requires
            old(self).wf(),
        ensures
            final(self).wf(),
            r == old(self).bus.spec_cpu_peek(address),
            *final(self) == (Cpu { bus: final(self).bus, ..*old(self) }),
            final(self).bus.ppu.dot_counter == old(self).bus.ppu.dot_counter,
            Bus::spec_cpu_read_pure(address) ==> *final(self) == *old(self),
    {
        self.bus.cpu_read(address)
    }

    /// Reads a little-endian 16-bit value, low byte first.
    pub fn read_u16(&mut self, address: u16) -> (r: u16)
        requires
            old(self).wf(),
        ensures
            final(self).wf(),
            *final(self) == (Cpu { bus: final(self).bus, ..*old(self) }),
            final(self).bus.ppu.dot_counter == old(self).bus.ppu.dot_counter,
            spec_peek16_pure(address) ==> *final(self) == *old(self) && r == spec_peek16(
                old(self).bus,
                address,
            ),
    {
        let lo: u8 = self.read(address);
        let hi: u8 = self.read(address.wrapping_add(1));
        (lo as u16) | ((hi as u16) << 8)
    }

    /// A CPU-side write. A write to the OAM DMA port at 0x4014 uploads
    /// a 256-byte page into OAM and stalls the CPU 513 cycles, or 514
    /// when triggered on an odd cycle; everything else goes to the bus.
    pub fn write(&mut self, address: u16, data: u8)
        requires
            old(self).wf(),
            address == 0x4014 ==> old(self).clock.cycles + 514 <= usize::MAX,
        ensures
            final(self).wf(),
            *final(self) == (Cpu {
                bus: final(self).bus,
                clock: final(self).clock,
                frame_ready: final(self).frame_ready,
                ..*old(self)
            }),
            address != 0x4014 ==> final(self).clock == old(self).clock && final(self).frame_ready
                == old(self).frame_ready && final(self).bus.ppu.dot_counter == old(self).bus.ppu.dot_counter,
            address == 0x4014 && old(self).bus.ppu.dot_counter + 1542 <= usize::MAX ==> final(self).bus.ppu.dot_counter == old(self).bus.ppu.dot_counter + 3 * (final(self).clock.cycles
                - old(self).clock.cycles),
            address < 0x2000 ==> final(self).bus == (Bus {
                cpu_memory_map: final(self).bus.cpu_memory_map,
                ..old(self).bus
            }) && final(self).bus.cpu_memory_map.internal_ram@ == old(self).bus.cpu_memory_map.internal_ram@.update((address & 0x7FF) as int, data),
            0x2000 <= address < 0x4000 ==> final(self).bus == (Bus {
                ppu: final(self).bus.ppu,
                ppu_memory_map: final(self).bus.ppu_memory_map,
                mapper: final(self).bus.mapper,
                nmi_interrupt: final(self).bus.nmi_interrupt,
                ..old(self).bus
            }) && final(self).bus.mapper.prg_rom@ == old(self).bus.mapper.prg_rom@,
            0x4000 <= address < 0x8000 && address != 0x4014 ==> *final(self) == *old(self),
            0x8000 <= address ==> final(self).bus == (Bus {
                fault: final(self).bus.fault,
                ..old(self).bus
            }) && final(self).bus.fault == if old(self).bus.fault is None {
                Some(EmuFault::PrgRomWrite)
            } else {
                old(self).bus.fault
            },
            address == 0x4014 ==> final(self).clock.cycles == old(self).clock.cycles + (
            if old(self).clock.cycles % 2 == 1 {
                514int
            } else {
                513int
            }) && final(self).bus.cpu_memory_map == old(self).bus.cpu_memory_map && final(self).bus.mapper.prg_rom@ == old(self).bus.mapper.prg_rom@ && final(self).bus.fault == old(self).bus.fault,
            address == 0x4014 && data < 0x20 ==> forall|k: int|
                0 <= k < 256 ==> final(self).bus.ppu_memory_map.oam@[
                    #[trigger] crate::bus::spec_dma_slot(old(self).bus.ppu.oamaddress.value, k)]
                    == old(self).bus.cpu_memory_map.internal_ram@[crate::bus::spec_dma_source(
                    data,
                    k,
                )],
    {
        if address == 0x4014 {
            self.bus.write_oamdma(data);
            let stall: usize = if self.clock.get_cycles() % 2 == 1 {
                514
            } else {
                513
            };
            self.tick(stall);
        } else {
            self.bus.cpu_write(address, data);
        }
    }

    /// Pushes one byte onto the stack page and moves the pointer down.
    fn push_stack(&mut self, value: u8)
        requires
            old(self).wf(),
        ensures
            final(self).wf(),
            *final(self) == (Cpu {
                bus: final(self).bus,
                stack_pointer: u8_specs::wrapping_sub(old(self).stack_pointer, 1),
                ..*old(self)
            }),
            final(self).bus == (Bus {
                cpu_memory_map: final(self).bus.cpu_memory_map,
                ..old(self).bus
            }),
            final(self).bus.cpu_memory_map.internal_ram@ == old(self).bus.cpu_memory_map.internal_ram@.update(
                0x100 + old(self).stack_pointer as int,
                value,
            ),
    {
        let stack_address: u16 = 0x0100 + self.stack_pointer as u16;
        proof {
            crate::bits::lemma_u16_mask_noop(stack_address);
        }
        self.write(stack_address, value);
        self.stack_pointer = self.stack_pointer.wrapping_sub(1);
    }

    /// Pushes a 16-bit value, high byte first.
    fn push_stack_u16(&mut self, value: u16)
        requires
            old(self).wf(),
        ensures
            final(self).wf(),
            *final(self) == (Cpu {
                bus: final(self).bus,
                stack_pointer: u8_specs::wrapping_sub(old(self).stack_pointer, 2),
                ..*old(self)
            }),
            final(self).bus == (Bus {
                cpu_memory_map: final(self).bus.cpu_memory_map,
                ..old(self).bus
            }),
            final(self).bus.cpu_memory_map.internal_ram@ == old(self).bus.cpu_memory_map.internal_ram@.update(
                0x100 + old(self).stack_pointer as int,
                ((value >> 8) as u8),
            ).update(
                0x100 + u8_specs::wrapping_sub(old(self).stack_pointer, 1) as int,
                value as u8,
            ),
    {
        let lo: u8 = value as u8;
        let hi: u8 = (value >> 8) as u8;
        self.push_stack(hi);
        self.push_stack(lo);
    }

    /// Moves the stack pointer up and pops one byte.
    fn pop_stack(&mut self) -> (r: u8)
        requires
            old(self).wf(),
        ensures
            final(self).wf(),
            *final(self) == (Cpu {
                stack_pointer: u8_specs::wrapping_add(old(self).stack_pointer, 1),
                ..*old(self)
            }),
            r == old(self).bus.cpu_memory_map.internal_ram@[0x100 + u8_specs::wrapping_add(
                old(self).stack_pointer,
                1,
            ) as int],
    {
        self.stack_pointer = self.stack_pointer.wrapping_add(1);
        let stack_address: u16 = 0x0100 + self.stack_pointer as u16;
        proof {
            crate::bits::lemma_u16_mask_noop(stack_address);
        }
        self.read(stack_address)
    }

    /// Pops a 16-bit value, low byte first.
    fn pop_stack_u16(&mut self) -> (r: u16)
        requires
            old(self).wf(),
        ensures
            final(self).wf(),
            *final(self) == (Cpu {
                stack_pointer: u8_specs::wrapping_add(old(self).stack_pointer, 2),
                ..*old(self)
            }),
            r == (old(self).bus.cpu_memory_map.internal_ram@[0x100 + u8_specs::wrapping_add(
                old(self).stack_pointer,
                1,
            ) as int] as u16) | ((old(self).bus.cpu_memory_map.internal_ram@[0x100
                + u8_specs::wrapping_add(old(self).stack_pointer, 2) as int] as u16) << 8),
    {
        let lo: u8 = self.pop_stack();
        let hi: u8 = self.pop_stack();
        (lo as u16) | ((hi as u16) << 8)
    }

    /// The reset sequence: clears the registers, reloads the status
    /// byte and stack pointer, jumps through the reset vector at
    /// 0xFFFC, and charges the seven start-up cycles.
    pub fn reset(&mut self)
        requires
            old(self).wf(),
            old(self).clock.cycles + 7 <= usize::MAX,
        ensures
            final(self).wf(),
            final(self).register_a == 0u8,
            final(self).register_x == 0u8,
            final(self).register_y == 0u8,
            final(self).status.value == 0x24u8,
            final(self).stack_pointer == 0xFDu8,
            final(self).program_counter == spec_peek16(old(self).bus, 0xFFFC),
            final(self).clock.cycles == old(self).clock.cycles + 7,
            old(self).bus.ppu.dot_counter + 21 <= usize::MAX ==> final(self).bus.ppu.dot_counter
                == old(self).bus.ppu.dot_counter + 21,
    {
        self.register_a = 0x00;
        self.register_x = 0x00;
        self.register_y = 0x00;
        self.status = CpuStatusRegister::new();
        self.stack_pointer = 0xFD;
        self.program_counter = self.read_u16(0xFFFC);
        self.tick(7);
    }

    fn is_page_cross(&self, page1: u16, page2: u16) -> (r: bool)
        ensures
            r == spec_is_page_cross(page1, page2),
    {
        (page1 & 0xFF00) != (page2 & 0xFF00)
    }

    /// Whether the mode names an operand in memory at all.
    pub open spec fn spec_mode_has_operand(mode: AddressingMode) -> bool {
        !(mode is Implicit || mode is Accumulator)
    }

    /// The effective address that the mode resolves to in the current
    /// state (meaningless for the operand-free modes).
    pub open spec fn spec_operand_addr(self, mode: AddressingMode) -> u16 {
        let pc = self.program_counter;
        match mode {
            AddressingMode::Implicit => 0u16,
            AddressingMode::Accumulator => 0u16,
            AddressingMode::Immediate => pc,
            AddressingMode::ZeroPage => self.bus.spec_cpu_peek(pc) as u16,
            AddressingMode::ZeroPageX => u8_specs::wrapping_add(
                self.bus.spec_cpu_peek(pc),
                self.register_x,
            ) as u16,
            AddressingMode::ZeroPageY => u8_specs::wrapping_add(
                self.bus.spec_cpu_peek(pc),
                self.register_y,
            ) as u16,
            AddressingMode::Relative => self.bus.spec_cpu_peek(pc) as u16,
            AddressingMode::Absolute => spec_peek16(self.bus, pc),
            AddressingMode::AbsoluteX => u16_specs::wrapping_add(
                spec_peek16(self.bus, pc),
                self.register_x as u16,
            ),
            AddressingMode::AbsoluteY => u16_specs::wrapping_add(
                spec_peek16(self.bus, pc),
                self.register_y as u16,
            ),
            AddressingMode::Indirect => {
                let pointer = spec_peek16(self.bus, pc);
                (self.bus.spec_cpu_peek(pointer) as u16) | ((self.bus.spec_cpu_peek(
                    spec_indirect_hi_pointer(pointer),
                ) as u16) << 8)
            },
            AddressingMode::IndexedIndirect => {
                let pointer = (u8_specs::wrapping_add(self.bus.spec_cpu_peek(pc), self.register_x)
                    as u16) & 0xFF;
                (self.bus.spec_cpu_peek(pointer) as u16) | ((self.bus.spec_cpu_peek(
                    u16_specs::wrapping_add(pointer, 1) & 0xFF,
                ) as u16) << 8)
            },
            AddressingMode::IndirectIndexed => {
                let pointer = self.bus.spec_cpu_peek(pc) as u16;
                let base = (self.bus.spec_cpu_peek(pointer) as u16) | ((self.bus.spec_cpu_peek(
                    u16_specs::wrapping_add(pointer, 1) & 0xFF,
                ) as u16) << 8);
                u16_specs::wrapping_add(base, self.register_y as u16)
            },
        }
    }

    /// Whether the mode's resolution pays the page-cross penalty.
    pub open spec fn spec_operand_cross(self, mode: AddressingMode) -> bool {
        let pc = self.program_counter;
        match mode {
            AddressingMode::ZeroPageX => spec_is_page_cross(
                self.bus.spec_cpu_peek(pc) as u16,
                self.spec_operand_addr(mode),
            ),
            AddressingMode::ZeroPageY => spec_is_page_cross(
                self.bus.spec_cpu_peek(pc) as u16,
                self.spec_operand_addr(mode),
            ),
            AddressingMode::AbsoluteX => spec_is_page_cross(
                spec_peek16(self.bus, pc),
                self.spec_operand_addr(mode),
            ),
            AddressingMode::AbsoluteY => spec_is_page_cross(
                spec_peek16(self.bus, pc),
                self.spec_operand_addr(mode),
            ),
            AddressingMode::IndirectIndexed => {
                let pointer = self.bus.spec_cpu_peek(pc) as u16;
                let base = (self.bus.spec_cpu_peek(pointer) as u16) | ((self.bus.spec_cpu_peek(
                    u16_specs::wrapping_add(pointer, 1) & 0xFF,
                ) as u16) << 8);
                spec_is_page_cross(base, self.spec_operand_addr(mode))
            },
            _ => false,
        }
    }

    /// Whether resolving the mode reads only side-effect-free
    /// addresses. The zero-page pointer bytes of the indexed-indirect
    /// modes always lie below the register file, so only the operand
    /// bytes at the program counter and an indirect vector can be
    /// impure.
    pub open spec fn spec_operand_pure(self, mode: AddressingMode) -> bool {
        let pc = self.program_counter;
        match mode {
            AddressingMode::Implicit => true,
            AddressingMode::Accumulator => true,
            AddressingMode::Immediate => true,
            AddressingMode::ZeroPage => Bus::spec_cpu_read_pure(pc),
            AddressingMode::ZeroPageX => Bus::spec_cpu_read_pure(pc),
            AddressingMode::ZeroPageY => Bus::spec_cpu_read_pure(pc),
            AddressingMode::Relative => Bus::spec_cpu_read_pure(pc),
            AddressingMode::Absolute => spec_peek16_pure(pc),
            AddressingMode::AbsoluteX => spec_peek16_pure(pc),
            AddressingMode::AbsoluteY => spec_peek16_pure(pc),
            AddressingMode::Indirect => {
                let pointer = spec_peek16(self.bus, pc);
                spec_peek16_pure(pc) && Bus::spec_cpu_read_pure(pointer)
                    && Bus::spec_cpu_read_pure(spec_indirect_hi_pointer(pointer))
            },
            AddressingMode::IndexedIndirect => Bus::spec_cpu_read_pure(pc),
            AddressingMode::IndirectIndexed => Bus::spec_cpu_read_pure(pc),
        }
    }

    /// Resolution of one addressing mode, used by `get_memory_data`:
    /// each helper returns the effective address and page-cross flag
    /// and is exact whenever the bytes it reads are side-effect-free.
    fn resolve_zero_page(&mut self) -> (r: (u16, bool))
        requires
            old(self).wf(),
        ensures
            final(self).wf(),
            *final(self) == (Cpu { bus: final(self).bus, ..*old(self) }),
            final(self).bus.ppu.dot_counter == old(self).bus.ppu.dot_counter,
            old(self).spec_operand_pure(AddressingMode::ZeroPage) ==> *final(self) == *old(self)
                && r == (
                old(self).spec_operand_addr(AddressingMode::ZeroPage),
                old(self).spec_operand_cross(AddressingMode::ZeroPage),
            ),
    {
        let memory_pointer: u16 = self.read(self.program_counter) as u16;
        (memory_pointer, false)
    }

    fn resolve_zero_page_x(&mut self) -> (r: (u16, bool))
        requires
            old(self).wf(),
        ensures
            final(self).wf(),
            *final(self) == (Cpu { bus: final(self).bus, ..*old(self) }),
            final(self).bus.ppu.dot_counter == old(self).bus.ppu.dot_counter,
            old(self).spec_operand_pure(AddressingMode::ZeroPageX) ==> *final(self) == *old(self)
                && r == (
                old(self).spec_operand_addr(AddressingMode::ZeroPageX),
                old(self).spec_operand_cross(AddressingMode::ZeroPageX),
            ),
    {
        let pointer: u8 = self.read(self.program_counter);
        let memory_pointer: u8 = pointer.wrapping_add(self.register_x);
        let is_page_cross: bool = self.is_page_cross(pointer as u16, memory_pointer as u16);
        (memory_pointer as u16, is_page_cross)
    }

    fn resolve_zero_page_y(&mut self) -> (r: (u16, bool))
        requires
            old(self).wf(),
        ensures
            final(self).wf(),
            *final(self) == (Cpu { bus: final(self).bus, ..*old(self) }),
            final(self).bus.ppu.dot_counter == old(self).bus.ppu.dot_counter,
            old(self).spec_operand_pure(AddressingMode::ZeroPageY) ==> *final(self) == *old(self)
                && r == (
                old(self).spec_operand_addr(AddressingMode::ZeroPageY),
                old(self).spec_operand_cross(AddressingMode::ZeroPageY),
            ),
    {
        let pointer: u8 = self.read(self.program_counter);
        let memory_pointer: u8 = pointer.wrapping_add(self.register_y);
        let is_page_cross: bool = self.is_page_cross(pointer as u16, memory_pointer as u16);
        (memory_pointer as u16, is_page_cross)
    }

    fn resolve_absolute(&mut self) -> (r: (u16, bool))
        requires
            old(self).wf(),
        ensures
            final(self).wf(),
            *final(self) == (Cpu { bus: final(self).bus, ..*old(self) }),
            final(self).bus.ppu.dot_counter == old(self).bus.ppu.dot_counter,
            old(self).spec_operand_pure(AddressingMode::Absolute) ==> *final(self) == *old(self)
                && r == (
                old(self).spec_operand_addr(AddressingMode::Absolute),
                old(self).spec_operand_cross(AddressingMode::Absolute),
            ),
    {
        let memory_pointer: u16 = self.read_u16(self.program_counter);
        (memory_pointer, false)
    }

    fn resolve_absolute_x(&mut self) -> (r: (u16, bool))
        requires
            old(self).wf(),
        ensures
            final(self).wf(),
            *final(self) == (Cpu { bus: final(self).bus, ..*old(self) }),
            final(self).bus.ppu.dot_counter == old(self).bus.ppu.dot_counter,
            old(self).spec_operand_pure(AddressingMode::AbsoluteX) ==> *final(self) == *old(self)
                && r == (
                old(self).spec_operand_addr(AddressingMode::AbsoluteX),
                old(self).spec_operand_cross(AddressingMode::AbsoluteX),
            ),
    {
        let pointer: u16 = self.read_u16(self.program_counter);
        let memory_pointer: u16 = pointer.wrapping_add(self.register_x as u16);
        let is_page_cross: bool = self.is_page_cross(pointer, memory_pointer);
        (memory_pointer, is_page_cross)
    }

    fn resolve_absolute_y(&mut self) -> (r: (u16, bool))
        requires
            old(self).wf(),
        ensures
            final(self).wf(),
            *final(self) == (Cpu { bus: final(self).bus, ..*old(self) }),
            final(self).bus.ppu.dot_counter == old(self).bus.ppu.dot_counter,
            old(self).spec_operand_pure(AddressingMode::AbsoluteY) ==> *final(self) == *old(self)
                && r == (
                old(self).spec_operand_addr(AddressingMode::AbsoluteY),
                old(self).spec_operand_cross(AddressingMode::AbsoluteY),
            ),
    {
        let pointer: u16 = self.read_u16(self.program_counter);
        let memory_pointer: u16 = pointer.wrapping_add(self.register_y as u16);
        let is_page_cross: bool = self.is_page_cross(pointer, memory_pointer);
        (memory_pointer, is_page_cross)
    }

    /// The indirect jump vector, with the page-wrap quirk: when the
    /// vector's low byte sits at the end of a page, its high byte is
    /// fetched from the start of that same page.
    fn resolve_indirect(&mut self) -> (r: (u16, bool))
        requires
            old(self).wf(),
        ensures
            final(self).wf(),
            *final(self) == (Cpu { bus: final(self).bus, ..*old(self) }),
            final(self).bus.ppu.dot_counter == old(self).bus.ppu.dot_counter,
            old(self).spec_operand_pure(AddressingMode::Indirect) ==> *final(self) == *old(self)
                && r == (
                old(self).spec_operand_addr(AddressingMode::Indirect),
                old(self).spec_operand_cross(AddressingMode::Indirect),
            ),
    {
        let pointer: u16 = self.read_u16(self.program_counter);
        let lo: u8 = pointer as u8;
        let hi: u8 = (pointer >> 8) as u8;
        let hibyte_pointer: u16 = ((hi as u16) << 8) | (lo.wrapping_add(1) as u16);
        let effective_lo: u8 = self.read(pointer);
        let effective_hi: u8 = self.read(hibyte_pointer);
        let memory_pointer: u16 = (effective_lo as u16) | ((effective_hi as u16) << 8);
        (memory_pointer, false)
    }

    fn resolve_indexed_indirect(&mut self) -> (r: (u16, bool))
        requires
            old(self).wf(),
        ensures
            final(self).wf(),
            *final(self) == (Cpu { bus: final(self).bus, ..*old(self) }),
            final(self).bus.ppu.dot_counter == old(self).bus.ppu.dot_counter,
            old(self).spec_operand_pure(AddressingMode::IndexedIndirect) ==> *final(self) == *old(self)
                && r == (
                old(self).spec_operand_addr(AddressingMode::IndexedIndirect),
                old(self).spec_operand_cross(AddressingMode::IndexedIndirect),
            ),
    {
        let operand: u8 = self.read(self.program_counter);
        let wide_pointer: u16 = operand.wrapping_add(self.register_x) as u16;
        proof {
            crate::bits::lemma_u16_and_le(wide_pointer, 0xFF);
        }
        let pointer: u16 = wide_pointer & 0xFF;
        proof {
            crate::bits::lemma_u16_and_le(u16_specs::wrapping_add(pointer, 1), 0xFF);
        }
        let lo: u8 = self.read(pointer);
        let hi: u8 = self.read(pointer.wrapping_add(1) & 0xFF);
        let memory_pointer: u16 = (lo as u16) | ((hi as u16) << 8);
        (memory_pointer, false)
    }

    fn resolve_indirect_indexed(&mut self) -> (r: (u16, bool))
        requires
            old(self).wf(),
        ensures
            final(self).wf(),
            *final(self) == (Cpu { bus: final(self).bus, ..*old(self) }),
            final(self).bus.ppu.dot_counter == old(self).bus.ppu.dot_counter,
            old(self).spec_operand_pure(AddressingMode::IndirectIndexed) ==> *final(self) == *old(self)
                && r == (
                old(self).spec_operand_addr(AddressingMode::IndirectIndexed),
                old(self).spec_operand_cross(AddressingMode::IndirectIndexed),
            ),
    {
        let pointer: u16 = self.read(self.program_counter) as u16;
        proof {
            crate::bits::lemma_u16_and_le(u16_specs::wrapping_add(pointer, 1), 0xFF);
        }
        let lo: u8 = self.read(pointer);
        let hi: u8 = self.read(pointer.wrapping_add(1) & 0xFF);
        let deref_pointer: u16 = (lo as u16) | ((hi as u16) << 8);
        let memory_pointer: u16 = deref_pointer.wrapping_add(self.register_y as u16);
        let is_page_cross: bool = self.is_page_cross(deref_pointer, memory_pointer);
        (memory_pointer, is_page_cross)
    }

    /// Resolves an addressing mode to its effective address and
    /// page-cross penalty; the operand-free modes resolve to nothing.
    pub fn get_memory_data(&mut self, addressing_mode: &AddressingMode) -> (r: Option<(u16, bool)>)
        requires
            old(self).wf(),
        ensures
            final(self).wf(),
            *final(self) == (Cpu { bus: final(self).bus, ..*old(self) }),
            final(self).bus.ppu.dot_counter == old(self).bus.ppu.dot_counter,
            r is Some <==> Self::spec_mode_has_operand(*addressing_mode),
            old(self).spec_operand_pure(*addressing_mode) ==> *final(self) == *old(self),
            old(self).spec_operand_pure(*addressing_mode) && Self::spec_mode_has_operand(
                *addressing_mode,
            ) ==> r == Some(
                (
                    old(self).spec_operand_addr(*addressing_mode),
                    old(self).spec_operand_cross(*addressing_mode),
                ),
            ),
    {
        match *addressing_mode {
            AddressingMode::Implicit => None,
            AddressingMode::Accumulator => None,
            AddressingMode::Immediate => Some((self.program_counter, false)),
            AddressingMode::ZeroPage => Some(self.resolve_zero_page()),
            AddressingMode::ZeroPageX => Some(self.resolve_zero_page_x()),
            AddressingMode::ZeroPageY => Some(self.resolve_zero_page_y()),
            AddressingMode::Relative => Some(self.resolve_zero_page()),
            AddressingMode::Absolute => Some(self.resolve_absolute()),
            AddressingMode::AbsoluteX => Some(self.resolve_absolute_x()),
            AddressingMode::AbsoluteY => Some(self.resolve_absolute_y()),
            AddressingMode::Indirect => Some(self.resolve_indirect()),
            AddressingMode::IndexedIndirect => Some(self.resolve_indexed_indirect()),
            AddressingMode::IndirectIndexed => Some(self.resolve_indirect_indexed()),
        }
    }


    /// Whether both resolving the mode and reading its operand leave
    /// the machine unchanged.
    pub open spec fn spec_data_pure(self, mode: AddressingMode) -> bool {
        self.spec_operand_pure(mode) && Bus::spec_cpu_read_pure(self.spec_operand_addr(mode))
    }

    /// The operand byte the mode currently designates.
    pub open spec fn spec_operand_value(self, mode: AddressingMode) -> u8 {
        self.bus.spec_cpu_peek(self.spec_operand_addr(mode))
    }

    /// The page-cross penalty the mode currently pays.
    pub open spec fn spec_extra_cycles(self, mode: AddressingMode) -> int {
        if self.spec_operand_cross(mode) {
            1int
        } else {
            0int
        }
    }

    /// The bus after at most the page-cross tick: only the PPU side
    /// and the NMI latch can have moved.
    pub open spec fn spec_bus_ticked(self, b: Bus) -> bool {
        b == (Bus { ppu: b.ppu, nmi_interrupt: b.nmi_interrupt, ..self.bus })
    }

    /// The tail of the dispatch table.
    #[verifier::rlimit(100)]
    #[verifier::spinoff_prover]
    fn dispatch_tail(&mut self, instruction: &Instruction) -> (continued: bool)
        requires
            old(self).wf(),
            old(self).clock.cycles + 600 <= usize::MAX,
            !(instruction.name is Adc || instruction.name is And || instruction.name is Asl || instruction.name is Bcc || instruction.name is Bcs || instruction.name is Beq || instruction.name is Bit || instruction.name is Bmi || instruction.name is Bne || instruction.name is Bpl || instruction.name is Brk || instruction.name is Bvc || instruction.name is Bvs || instruction.name is Clc || instruction.name is Cld || instruction.name is Cli || instruction.name is Clv || instruction.name is Cmp || instruction.name is Cpx || instruction.name is Cpy || instruction.name is Dcp || instruction.name is Dec || instruction.name is Dex || instruction.name is Dey || instruction.name is Eor || instruction.name is Inc || instruction.name is Inx || instruction.name is Iny || instruction.name is Isc || instruction.name is Jmp || instruction.name is Jsr || instruction.name is Lax || instruction.name is Lda || instruction.name is Ldx || instruction.name is Ldy || instruction.name is Lsr || instruction.name is Nop || instruction.name is Ora || instruction.name is Pha || instruction.name is Php || instruction.name is Pla || instruction.name is Plp || instruction.name is Rla || instruction.name is Rol || instruction.name is Ror || instruction.name is Rra || instruction.name is Rti),
            ({
                let i = *instruction;
                (i.name is Sbc || i.name is Slo || i.name is Sre || i.name is Sta || i.name is Stx
                    || i.name is Sty || i.name is Rla || i.name is Rra || i.name is Sax || i.name
                    is Lax || i.name is Lda || i.name is Ldx || i.name is Ldy || i.name is Ora)
                    ==> Cpu::spec_mode_has_operand(i.addressing_mode)
            }),
        ensures
            final(self).wf(),
            old(self).bus.ppu.dot_counter + 1800 <= usize::MAX ==> final(self).bus.ppu.dot_counter == old(self).bus.ppu.dot_counter + 3 * (
            final(self).clock.cycles - old(self).clock.cycles),
            final(self).trace == old(self).trace,
            final(self).use_disassembler == old(self).use_disassembler,
            old(self).clock.cycles <= final(self).clock.cycles <= old(self).clock.cycles + 516,
            continued == !spec_mnemonic_unimplemented(instruction.name),
            !continued ==> final(self).clock == old(self).clock && final(self).bus.fault is Some,
            !spec_mnemonic_control_flow(instruction.name) ==> final(self).program_counter == old(self).program_counter,
            spec_mnemonic_page_cross(instruction.name) && old(self).spec_operand_pure(
                instruction.addressing_mode,
            ) ==> final(self).clock.cycles == old(self).clock.cycles + old(self).spec_extra_cycles(instruction.addressing_mode),
            spec_mnemonic_branch(instruction.name) && Bus::spec_cpu_read_pure(
                old(self).program_counter,
            ) ==> final(self).clock.cycles == old(self).clock.cycles + (if spec_branch_taken(
                instruction.name,
                old(self).status.value,
            ) {
                1 + (if old(self).spec_branch_cross() {
                    1int
                } else {
                    0int
                })
            } else {
                0int
            }),
            spec_mnemonic_fixed_cycles(instruction.name) ==> final(self).clock == old(self).clock,
            spec_mnemonic_memory_write(instruction.name) && (Cpu::spec_mode_has_operand(
                instruction.addressing_mode,
            ) ==> old(self).spec_operand_pure(instruction.addressing_mode) && old(self).spec_operand_addr(instruction.addressing_mode) != 0x4014) ==> final(self).clock
                == old(self).clock,
    {
        match instruction.name {
            Mnemonic::Adc | Mnemonic::And | Mnemonic::Asl | Mnemonic::Bcc | Mnemonic::Bcs | Mnemonic::Beq | Mnemonic::Bit | Mnemonic::Bmi | Mnemonic::Bne | Mnemonic::Bpl | Mnemonic::Brk | Mnemonic::Bvc | Mnemonic::Bvs | Mnemonic::Clc | Mnemonic::Cld | Mnemonic::Cli | Mnemonic::Clv | Mnemonic::Cmp | Mnemonic::Cpx | Mnemonic::Cpy | Mnemonic::Dcp | Mnemonic::Dec | Mnemonic::Dex | Mnemonic::Dey | Mnemonic::Eor | Mnemonic::Inc | Mnemonic::Inx | Mnemonic::Iny | Mnemonic::Isc | Mnemonic::Jmp | Mnemonic::Jsr | Mnemonic::Lax | Mnemonic::Lda | Mnemonic::Ldx | Mnemonic::Ldy | Mnemonic::Lsr | Mnemonic::Nop | Mnemonic::Ora | Mnemonic::Pha | Mnemonic::Php | Mnemonic::Pla | Mnemonic::Plp | Mnemonic::Rla | Mnemonic::Rol | Mnemonic::Ror | Mnemonic::Rra | Mnemonic::Rti => vstd::pervasive::unreached(),
            Mnemonic::Rts => self.execute_rts(&instruction.addressing_mode),
            Mnemonic::Sax => self.execute_sax(&instruction.addressing_mode),
            Mnemonic::Sbc => self.execute_sbc(&instruction.addressing_mode),
            Mnemonic::Sec => self.execute_sec(&instruction.addressing_mode),
            Mnemonic::Sed => self.execute_sed(&instruction.addressing_mode),
            Mnemonic::Sei => self.execute_sei(&instruction.addressing_mode),
            Mnemonic::Slo => self.execute_slo(&instruction.addressing_mode),
            Mnemonic::Sre => self.execute_sre(&instruction.addressing_mode),
            Mnemonic::Sta => self.execute_sta(&instruction.addressing_mode),
            Mnemonic::Stx => self.execute_stx(&instruction.addressing_mode),
            Mnemonic::Sty => self.execute_sty(&instruction.addressing_mode),
            Mnemonic::Tax => self.execute_tax(&instruction.addressing_mode),
            Mnemonic::Tay => self.execute_tay(&instruction.addressing_mode),
            Mnemonic::Tsx => self.execute_tsx(&instruction.addressing_mode),
            Mnemonic::Txa => self.execute_txa(&instruction.addressing_mode),
            Mnemonic::Txs => self.execute_txs(&instruction.addressing_mode),
            Mnemonic::Tya => self.execute_tya(&instruction.addressing_mode),
            Mnemonic::Kil | Mnemonic::Anc | Mnemonic::Asr | Mnemonic::Arr | Mnemonic::Xaa | Mnemonic::Ahx | Mnemonic::Tas | Mnemonic::Shx | Mnemonic::Shy | Mnemonic::Las | Mnemonic::Axs => {
                if self.bus.fault.is_none() {
                    self.bus.fault = Some(EmuFault::KilOpcode);
                }
                return false;
            },
        }
        true
    }

    /// The second half of the dispatch table.
    #[verifier::rlimit(100)]
    #[verifier::spinoff_prover]
    fn dispatch_rest(&mut self, instruction: &Instruction) -> (continued: bool)
        requires
            old(self).wf(),
            old(self).clock.cycles + 600 <= usize::MAX,
            !(instruction.name is Adc || instruction.name is And || instruction.name is Asl || instruction.name is Bcc || instruction.name is Bcs || instruction.name is Beq || instruction.name is Bit || instruction.name is Bmi || instruction.name is Bne || instruction.name is Bpl || instruction.name is Brk || instruction.name is Bvc || instruction.name is Bvs || instruction.name is Clc || instruction.name is Cld || instruction.name is Cli || instruction.name is Clv || instruction.name is Cmp || instruction.name is Cpx || instruction.name is Cpy || instruction.name is Dcp || instruction.name is Dec || instruction.name is Dex || instruction.name is Dey || instruction.name is Eor || instruction.name is Inc || instruction.name is Inx || instruction.name is Iny || instruction.name is Isc || instruction.name is Jmp),
            ({
                let i = *instruction;
                (i.name is Lax || i.name is Lda || i.name is Ldx || i.name is Ldy || i.name is Ora
                    || i.name is Rla || i.name is Rra || i.name is Sax || i.name is Sbc || i.name
                    is Slo || i.name is Sre || i.name is Sta || i.name is Stx || i.name is Sty)
                    ==> Cpu::spec_mode_has_operand(i.addressing_mode)
            }),
        ensures
            final(self).wf(),
            old(self).bus.ppu.dot_counter + 1800 <= usize::MAX ==> final(self).bus.ppu.dot_counter == old(self).bus.ppu.dot_counter + 3 * (
            final(self).clock.cycles - old(self).clock.cycles),
            final(self).trace == old(self).trace,
            final(self).use_disassembler == old(self).use_disassembler,
            old(self).clock.cycles <= final(self).clock.cycles <= old(self).clock.cycles + 516,
            continued == !spec_mnemonic_unimplemented(instruction.name),
            !continued ==> final(self).clock == old(self).clock && final(self).bus.fault is Some,
            !spec_mnemonic_control_flow(instruction.name) ==> final(self).program_counter == old(self).program_counter,
            spec_mnemonic_page_cross(instruction.name) && old(self).spec_operand_pure(
                instruction.addressing_mode,
            ) ==> final(self).clock.cycles == old(self).clock.cycles + old(self).spec_extra_cycles(instruction.addressing_mode),
            spec_mnemonic_branch(instruction.name) && Bus::spec_cpu_read_pure(
                old(self).program_counter,
            ) ==> final(self).clock.cycles == old(self).clock.cycles + (if spec_branch_taken(
                instruction.name,
                old(self).status.value,
            ) {
                1 + (if old(self).spec_branch_cross() {
                    1int
                } else {
                    0int
                })
            } else {
                0int
            }),
            spec_mnemonic_fixed_cycles(instruction.name) ==> final(self).clock == old(self).clock,
            spec_mnemonic_memory_write(instruction.name) && (Cpu::spec_mode_has_operand(
                instruction.addressing_mode,
            ) ==> old(self).spec_operand_pure(instruction.addressing_mode) && old(self).spec_operand_addr(instruction.addressing_mode) != 0x4014) ==> final(self).clock
                == old(self).clock,
    {
        match instruction.name {
            Mnemonic::Adc | Mnemonic::And | Mnemonic::Asl | Mnemonic::Bcc | Mnemonic::Bcs | Mnemonic::Beq | Mnemonic::Bit | Mnemonic::Bmi | Mnemonic::Bne | Mnemonic::Bpl | Mnemonic::Brk | Mnemonic::Bvc | Mnemonic::Bvs | Mnemonic::Clc | Mnemonic::Cld | Mnemonic::Cli | Mnemonic::Clv | Mnemonic::Cmp | Mnemonic::Cpx | Mnemonic::Cpy | Mnemonic::Dcp | Mnemonic::Dec | Mnemonic::Dex | Mnemonic::Dey | Mnemonic::Eor | Mnemonic::Inc | Mnemonic::Inx | Mnemonic::Iny | Mnemonic::Isc | Mnemonic::Jmp => vstd::pervasive::unreached(),
            Mnemonic::Jsr => self.execute_jsr(),
            Mnemonic::Lax => self.execute_lax(&instruction.addressing_mode),
            Mnemonic::Lda => self.execute_lda(&instruction.addressing_mode),
            Mnemonic::Ldx => self.execute_ldx(&instruction.addressing_mode),
            Mnemonic::Ldy => self.execute_ldy(&instruction.addressing_mode),
            Mnemonic::Lsr => self.execute_lsr(&instruction.addressing_mode),
            Mnemonic::Nop => self.execute_nop(&instruction.addressing_mode),
            Mnemonic::Ora => self.execute_ora(&instruction.addressing_mode),
            Mnemonic::Pha => self.execute_pha(&instruction.addressing_mode),
            Mnemonic::Php => self.execute_php(&instruction.addressing_mode),
            Mnemonic::Pla => self.execute_pla(&instruction.addressing_mode),
            Mnemonic::Plp => self.execute_plp(&instruction.addressing_mode),
            Mnemonic::Rla => self.execute_rla(&instruction.addressing_mode),
            Mnemonic::Rol => self.execute_rol(&instruction.addressing_mode),
            Mnemonic::Ror => self.execute_ror(&instruction.addressing_mode),
            Mnemonic::Rra => self.execute_rra(&instruction.addressing_mode),
            Mnemonic::Rti => self.execute_rti(&instruction.addressing_mode),
            _ => {
                return self.dispatch_tail(instruction);
            },
        }
        true
    }

    /// Executes one decoded instruction. Returns false when the
    /// mnemonic is one the interpreter refuses: then a fault is
    /// recorded and nothing else happens.
    #[verifier::rlimit(100)]
    #[verifier::spinoff_prover]
    fn dispatch(&mut self, instruction: &Instruction) -> (continued: bool)
        requires
            old(self).wf(),
            old(self).clock.cycles + 600 <= usize::MAX,
            ({
                let i = *instruction;
                (i.name is Adc || i.name is And || i.name is Bit || i.name is Cmp || i.name is Cpx
                    || i.name is Cpy || i.name is Dcp || i.name is Dec || i.name is Eor || i.name
                    is Inc || i.name is Isc || i.name is Jmp || i.name is Lax || i.name is Lda
                    || i.name is Ldx || i.name is Ldy || i.name is Ora || i.name is Rla || i.name
                    is Rra || i.name is Sax || i.name is Sbc || i.name is Slo || i.name is Sre
                    || i.name is Sta || i.name is Stx || i.name is Sty) ==> Cpu::spec_mode_has_operand(
                    i.addressing_mode,
                )
            }),
        ensures
            final(self).wf(),
            old(self).bus.ppu.dot_counter + 1800 <= usize::MAX ==> final(self).bus.ppu.dot_counter == old(self).bus.ppu.dot_counter + 3 * (
            final(self).clock.cycles - old(self).clock.cycles),
            final(self).trace == old(self).trace,
            final(self).use_disassembler == old(self).use_disassembler,
            old(self).clock.cycles <= final(self).clock.cycles <= old(self).clock.cycles + 516,
            continued == !spec_mnemonic_unimplemented(instruction.name),
            !continued ==> final(self).clock == old(self).clock && final(self).bus.fault is Some,
            !spec_mnemonic_control_flow(instruction.name) ==> final(self).program_counter == old(self).program_counter,
            spec_mnemonic_page_cross(instruction.name) && old(self).spec_operand_pure(
                instruction.addressing_mode,
            ) ==> final(self).clock.cycles == old(self).clock.cycles + old(self).spec_extra_cycles(instruction.addressing_mode),
            spec_mnemonic_branch(instruction.name) && Bus::spec_cpu_read_pure(
                old(self).program_counter,
            ) ==> final(self).clock.cycles == old(self).clock.cycles + (if spec_branch_taken(
                instruction.name,
                old(self).status.value,
            ) {
                1 + (if old(self).spec_branch_cross() {
                    1int
                } else {
                    0int
                })
            } else {
                0int
            }),
            spec_mnemonic_fixed_cycles(instruction.name) ==> final(self).clock == old(self).clock,
            spec_mnemonic_memory_write(instruction.name) && (Cpu::spec_mode_has_operand(
                instruction.addressing_mode,
            ) ==> old(self).spec_operand_pure(instruction.addressing_mode) && old(self).spec_operand_addr(instruction.addressing_mode) != 0x4014) ==> final(self).clock
                == old(self).clock,
    {
        match instruction.name {
            Mnemonic::Adc => self.execute_adc(&instruction.addressing_mode),
            Mnemonic::And => self.execute_and(&instruction.addressing_mode),
            Mnemonic::Asl => self.execute_asl(&instruction.addressing_mode),
            Mnemonic::Bcc => self.execute_bcc(),
            Mnemonic::Bcs => self.execute_bcs(),
            Mnemonic::Beq => self.execute_beq(),
            Mnemonic::Bit => self.execute_bit(&instruction.addressing_mode),
            Mnemonic::Bmi => self.execute_bmi(),
            Mnemonic::Bne => self.execute_bne(),
            Mnemonic::Bpl => self.execute_bpl(),
            Mnemonic::Brk => self.execute_brk(),
            Mnemonic::Bvc => self.execute_bvc(),
            Mnemonic::Bvs => self.execute_bvs(),
            Mnemonic::Clc => self.execute_clc(&instruction.addressing_mode),
            Mnemonic::Cld => self.execute_cld(&instruction.addressing_mode),
            Mnemonic::Cli => self.execute_cli(&instruction.addressing_mode),
            Mnemonic::Clv => self.execute_clv(&instruction.addressing_mode),
            Mnemonic::Cmp => self.execute_cmp(&instruction.addressing_mode),
            Mnemonic::Cpx => self.execute_cpx(&instruction.addressing_mode),
            Mnemonic::Cpy => self.execute_cpy(&instruction.addressing_mode),
            Mnemonic::Dcp => self.execute_dcp(&instruction.addressing_mode),
            Mnemonic::Dec => self.execute_dec(&instruction.addressing_mode),
            Mnemonic::Dex => self.execute_dex(&instruction.addressing_mode),
            Mnemonic::Dey => self.execute_dey(&instruction.addressing_mode),
            Mnemonic::Eor => self.execute_eor(&instruction.addressing_mode),
            Mnemonic::Inc => self.execute_inc(&instruction.addressing_mode),
            Mnemonic::Inx => self.execute_inx(&instruction.addressing_mode),
            Mnemonic::Iny => self.execute_iny(&instruction.addressing_mode),
            Mnemonic::Isc => self.execute_isc(&instruction.addressing_mode),
            Mnemonic::Jmp => self.execute_jmp(&instruction.addressing_mode),
            _ => {
                return self.dispatch_rest(instruction);
            },
        }
        true
    }

    /// A trace-safe read: RAM and the cartridge window are read
    /// directly; the register file is never touched, since reading it
    /// would disturb the machine being traced.
    fn peek_trace(&mut self, address: u16) -> (r: u8)
        requires
            old(self).wf(),
        ensures
            final(self).wf(),
            *final(self) == *old(self),
    {
        if address < 0x2000 || address >= 0x4020 {
            self.read(address)
        } else {
            0x00
        }
    }

    /// Appends the two hexadecimal digits of a byte.
    fn push_hex2(line: &mut String, value: u8) {
        proof {
            crate::bits::lemma_u8_nibbles(value);
        }
        line.append(hex_digit_text(value >> 4).as_str());
        line.append(hex_digit_text(value & 0x0F).as_str());
    }

    /// Appends the four hexadecimal digits of a 16-bit value.
    fn push_hex4(line: &mut String, value: u16) {
        Self::push_hex2(line, (value >> 8) as u8);
        proof {
            crate::bits::lemma_u16_and_le(value, 0xFF);
        }
        Self::push_hex2(line, (value & 0xFF) as u8);
    }

    /// One nestest-style trace line: the opcode address, the raw
    /// instruction bytes, the mnemonic with its operand in assembly
    /// form, and the register file, in fixed columns.
    fn disassemble(&mut self, opcode: u8, instruction: &Instruction) -> (r: String)
        requires
            old(self).wf(),
            1 <= instruction.bytes <= 3,
        ensures
            final(self).wf(),
            *final(self) == *old(self),
    {
        let instruction_address: u16 = self.program_counter.wrapping_sub(1);
        let mut line: String = String::new();
        Self::push_hex4(&mut line, instruction_address);
        line.append("  ");
        let mut dump_width: usize = 0;
        Self::push_hex2(&mut line, opcode);
        dump_width = 2;
        let mut i: u8 = 1;
        while i < instruction.bytes
            invariant
                self.wf(),
                *self == *old(self),
                instruction.bytes <= 3,
                i <= instruction.bytes,
                dump_width == 3 * i - 1,
            decreases instruction.bytes - i,
        {
            line.append(" ");
            let operand_byte: u8 = self.peek_trace(
                instruction_address.wrapping_add(i as u16),
            );
            Self::push_hex2(&mut line, operand_byte);
            dump_width = dump_width + 3;
            i = i + 1;
        }
        let mut pad: usize = 0;
        while pad + dump_width < 9
            invariant
                dump_width <= 9,
                pad <= 9,
            decreases 9 - pad - dump_width,
        {
            line.append(" ");
            pad = pad + 1;
        }
        line.append(" ");
        line.append(mnemonic_text(instruction.name).as_str());
        line.append(" ");
        let mut width: usize = 20;
        let operand: u8 = self.peek_trace(self.program_counter);
        match instruction.addressing_mode {
            AddressingMode::Implicit => {},
            AddressingMode::Accumulator => {
                line.append("A");
                width = width + 1;
            },
            AddressingMode::Immediate => {
                line.append("#$");
                Self::push_hex2(&mut line, operand);
                width = width + 4;
            },
            AddressingMode::ZeroPage => {
                line.append("$");
                Self::push_hex2(&mut line, operand);
                width = width + 3;
            },
            AddressingMode::ZeroPageX => {
                line.append("$");
                Self::push_hex2(&mut line, operand);
                line.append(",X");
                width = width + 5;
            },
            AddressingMode::ZeroPageY => {
                line.append("$");
                Self::push_hex2(&mut line, operand);
                line.append(",Y");
                width = width + 5;
            },
            AddressingMode::Relative => {
                let offset_ext: u16 = if operand < 0x80 {
                    operand as u16
                } else {
                    (operand as u16) | 0xFF00
                };
                let target: u16 = self.program_counter.wrapping_add(1).wrapping_add(offset_ext);
                line.append("$");
                Self::push_hex4(&mut line, target);
                width = width + 5;
            },
            AddressingMode::Absolute => {
                let second: u8 = self.peek_trace(self.program_counter.wrapping_add(1));
                line.append("$");
                Self::push_hex4(&mut line, ((second as u16) << 8) | (operand as u16));
                width = width + 5;
            },
            AddressingMode::AbsoluteX => {
                let second: u8 = self.peek_trace(self.program_counter.wrapping_add(1));
                line.append("$");
                Self::push_hex4(&mut line, ((second as u16) << 8) | (operand as u16));
                line.append(",X");
                width = width + 7;
            },
            AddressingMode::AbsoluteY => {
                let second: u8 = self.peek_trace(self.program_counter.wrapping_add(1));
                line.append("$");
                Self::push_hex4(&mut line, ((second as u16) << 8) | (operand as u16));
                line.append(",Y");
                width = width + 7;
            },
            AddressingMode::Indirect => {
                let second: u8 = self.peek_trace(self.program_counter.wrapping_add(1));
                line.append("($");
                Self::push_hex4(&mut line, ((second as u16) << 8) | (operand as u16));
                line.append(")");
                width = width + 7;
            },
            AddressingMode::IndexedIndirect => {
                line.append("($");
                Self::push_hex2(&mut line, operand);
                line.append(",X)");
                width = width + 7;
            },
            AddressingMode::IndirectIndexed => {
                line.append("($");
                Self::push_hex2(&mut line, operand);
                line.append("),Y");
                width = width + 7;
            },
        }
        while width < 47
            invariant
                width <= 47,
            decreases 47 - width,
        {
            line.append(" ");
            width = width + 1;
        }
        line.append(" A:");
        Self::push_hex2(&mut line, self.register_a);
        line.append(" X:");
        Self::push_hex2(&mut line, self.register_x);
        line.append(" Y:");
        Self::push_hex2(&mut line, self.register_y);
        line.append(" P:");
        Self::push_hex2(&mut line, self.status.get());
        line.append(" SP:");
        Self::push_hex2(&mut line, self.stack_pointer);
        line
    }

    /// One step of the interpreter. A pending NMI is serviced first:
    /// the program counter and the status byte (break clear, unused
    /// set) are pushed, interrupts are disabled, execution vectors
    /// through 0xFFFA, and seven cycles pass. Otherwise the opcode at
    /// the program counter is decoded and executed, its base cycles
    /// are charged on top of any penalties the instruction itself
    /// paid, and the program counter moves past the operand bytes
    /// unless the instruction rewrote it. A halt opcode executes
    /// nothing and records a fault instead.
    #[verifier::rlimit(100)]
    #[verifier::spinoff_prover]
    pub fn fetch(&mut self)
        requires
            old(self).wf(),
            old(self).clock.cycles + 1000 <= usize::MAX,
        ensures
            final(self).wf(),
            old(self).bus.ppu.dot_counter + 1800 <= usize::MAX ==> final(self).bus.ppu.dot_counter == old(self).bus.ppu.dot_counter + 3 * (
            final(self).clock.cycles - old(self).clock.cycles),
            old(self).bus.nmi_interrupt is None && Bus::spec_cpu_read_pure(
                old(self).program_counter,
            ) ==> ({
                let stepped = (Cpu {
                    program_counter: u16_specs::wrapping_add(old(self).program_counter, 1),
                    ..*old(self)
                });
                let instruction = spec_instruction(
                    old(self).bus.spec_cpu_peek(old(self).program_counter),
                );
                &&& (spec_mnemonic_page_cross(instruction.name) && stepped.spec_operand_pure(
                    instruction.addressing_mode,
                ) ==> final(self).clock.cycles == old(self).clock.cycles + instruction.cycles
                    + stepped.spec_extra_cycles(instruction.addressing_mode))
                &&& (spec_mnemonic_branch(instruction.name) && Bus::spec_cpu_read_pure(
                    stepped.program_counter,
                ) ==> final(self).clock.cycles == old(self).clock.cycles + instruction.cycles + (
                if spec_branch_taken(instruction.name, old(self).status.value) {
                    1 + (if stepped.spec_branch_cross() {
                        1int
                    } else {
                        0int
                    })
                } else {
                    0int
                }))
                &&& (spec_mnemonic_fixed_cycles(instruction.name) ==> final(self).clock.cycles
                    == old(self).clock.cycles + instruction.cycles)
                &&& (spec_mnemonic_memory_write(instruction.name) && (Cpu::spec_mode_has_operand(
                    instruction.addressing_mode,
                ) ==> stepped.spec_operand_pure(instruction.addressing_mode)
                    && stepped.spec_operand_addr(instruction.addressing_mode) != 0x4014) ==> final(self).clock.cycles == old(self).clock.cycles + instruction.cycles)
            }),
            old(self).bus.nmi_interrupt is Some ==> {
                &&& final(self).clock.cycles == old(self).clock.cycles + 7
                &&& final(self).program_counter == spec_peek16(old(self).bus, 0xFFFA)
                &&& final(self).stack_pointer == u8_specs::wrapping_sub(old(self).stack_pointer, 3)
                &&& final(self).status.value == (old(self).status.value | spec_flag_mask(
                    CpuStatusRegisterFlags::InterruptDisable,
                ))
                &&& final(self).register_a == old(self).register_a
                &&& final(self).register_x == old(self).register_x
                &&& final(self).register_y == old(self).register_y
                &&& final(self).bus.cpu_memory_map.internal_ram@ == old(self).bus.cpu_memory_map.internal_ram@.update(
                    0x100 + old(self).stack_pointer as int,
                    (old(self).program_counter >> 8) as u8,
                ).update(
                    0x100 + u8_specs::wrapping_sub(old(self).stack_pointer, 1) as int,
                    old(self).program_counter as u8,
                ).update(
                    0x100 + u8_specs::wrapping_sub(old(self).stack_pointer, 2) as int,
                    (old(self).status.value & !spec_flag_mask(CpuStatusRegisterFlags::Break))
                        | spec_flag_mask(CpuStatusRegisterFlags::Unused),
                )
                &&& final(self).bus == (Bus {
                    cpu_memory_map: final(self).bus.cpu_memory_map,
                    ppu: final(self).bus.ppu,
                    nmi_interrupt: final(self).bus.nmi_interrupt,
                    ..old(self).bus
                })
                &&& (final(self).bus.nmi_interrupt is Some ==> crate::ppu::spec_nmi_enabled(
                    old(self).bus.ppu,
                ))
            },
            old(self).bus.nmi_interrupt is None ==> {
                let name = spec_instruction(
                    old(self).bus.spec_cpu_peek(old(self).program_counter),
                ).name;
                let base = spec_instruction(
                    old(self).bus.spec_cpu_peek(old(self).program_counter),
                ).cycles;
                &&& !spec_mnemonic_unimplemented(name) ==> old(self).clock.cycles + base <= final(self).clock.cycles <= old(self).clock.cycles + base + 516
                &&& spec_mnemonic_unimplemented(name) ==> final(self).clock == old(self).clock
                    && final(self).bus.fault is Some
            },
            old(self).bus.nmi_interrupt is None && Bus::spec_cpu_read_pure(
                old(self).program_counter,
            ) ==> {
                let instruction = spec_instruction(
                    old(self).bus.spec_cpu_peek(old(self).program_counter),
                );
                !spec_mnemonic_control_flow(instruction.name) && old(self).spec_operand_pure(
                    instruction.addressing_mode,
                ) ==> final(self).program_counter == u16_specs::wrapping_add(
                    old(self).program_counter,
                    instruction.bytes as u16,
                )
            },
    {
        if self.bus.poll_interrupt().is_some() {
            self.push_stack_u16(self.program_counter);
            let pushed_status: u8 = (self.status.get() & !CpuStatusRegisterFlags::Break.mask())
                | CpuStatusRegisterFlags::Unused.mask();
            self.push_stack(pushed_status);
            self.status.set_flag(CpuStatusRegisterFlags::InterruptDisable, true);
            self.program_counter = self.read_u16(0xFFFA);
            self.tick(7);
            return ;
        }
        let opcode: u8 = self.read(self.program_counter);
        let instruction: Instruction = instruction_for(opcode);
        proof {
            lemma_instruction_table(opcode);
        }
        self.program_counter = self.program_counter.wrapping_add(1);
        let current_program_counter: u16 = self.program_counter;
        if self.use_disassembler {
            let line: String = self.disassemble(opcode, &instruction);
            self.trace.push(line);
        }
        let continued: bool = self.dispatch(&instruction);
        if !continued {
            return ;
        }
        self.tick(instruction.cycles as usize);
        if current_program_counter == self.program_counter {
            let args_length: u16 = (instruction.bytes - 1) as u16;
            self.program_counter = self.program_counter.wrapping_add(args_length);
        }
    }

    /// DCP: decrements the memory cell, then compares the accumulator
    /// with the decremented value.
    pub fn execute_dcp(&mut self, addressing_mode: &AddressingMode)
        requires
            old(self).wf(),
            Self::spec_mode_has_operand(*addressing_mode),
            old(self).clock.cycles + 600 <= usize::MAX,
        ensures
            final(self).wf(),
            old(self).bus.ppu.dot_counter + 1800 <= usize::MAX ==> final(self).bus.ppu.dot_counter == old(self).bus.ppu.dot_counter + 3 * (
            final(self).clock.cycles - old(self).clock.cycles),
            Self::spec_mode_has_operand(*addressing_mode) && old(self).spec_operand_pure(
                *addressing_mode,
            ) && old(self).spec_operand_addr(*addressing_mode) != 0x4014 ==> final(self).clock
                == old(self).clock,
            *final(self) == (Cpu {
                status: final(self).status,
                bus: final(self).bus,
                clock: final(self).clock,
                frame_ready: final(self).frame_ready,
                ..*old(self)
            }),
            old(self).clock.cycles <= final(self).clock.cycles <= old(self).clock.cycles + 514,
            Self::spec_mode_has_operand(*addressing_mode) && old(self).spec_operand_pure(
                *addressing_mode,
            ) && old(self).spec_operand_addr(*addressing_mode) < 0x2000 ==> {
                let addr = old(self).spec_operand_addr(*addressing_mode);
                let result = u8_specs::wrapping_sub(old(self).bus.spec_cpu_peek(addr), 1);
                &&& final(self).status.value == spec_compare_status(
                    spec_nz_status(old(self).status.value, result),
                    old(self).register_a,
                    result,
                )
                &&& final(self).clock == old(self).clock
                &&& final(self).bus == (Bus {
                    cpu_memory_map: final(self).bus.cpu_memory_map,
                    ..old(self).bus
                })
                &&& final(self).bus.cpu_memory_map.internal_ram@ == old(self).bus.cpu_memory_map.internal_ram@.update((addr & 0x7FF) as int, result)
            },
    {
        let memory_data: Option<(u16, bool)> = self.get_memory_data(addressing_mode);
        let (memory_pointer, additional_cycle): (u16, bool) = match memory_data {
            Some(data) => data,
            None => vstd::pervasive::unreached(),
        };
        let memory_value: u8 = self.read(memory_pointer);
        let result: u8 = memory_value.wrapping_sub(1);
        self.status.set_flag(CpuStatusRegisterFlags::Zero, result == 0);
        self.status.set_flag(CpuStatusRegisterFlags::Negative, result & 0x80 == 0x80);
        self.write(memory_pointer, result);
        proof {
            if Self::spec_mode_has_operand(*addressing_mode) && old(self).spec_operand_pure(
                *addressing_mode,
            ) && old(self).spec_operand_addr(*addressing_mode) < 0x2000 {
                crate::bits::lemma_u16_and_le(
                    old(self).spec_operand_addr(*addressing_mode),
                    0x7FF,
                );
                assert(old(self).bus.cpu_memory_map.internal_ram@.update(
                    (old(self).spec_operand_addr(*addressing_mode) & 0x7FF) as int,
                    result,
                )[(old(self).spec_operand_addr(*addressing_mode) & 0x7FF) as int] == result);
            }
        }
        let register_value: u8 = self.register_a;
        let updated_value: u8 = self.read(memory_pointer);
        let difference: u8 = register_value.wrapping_sub(updated_value);
        self.status.set_flag(CpuStatusRegisterFlags::Carry, register_value >= updated_value);
        self.status.set_flag(CpuStatusRegisterFlags::Zero, difference == 0);
        self.status.set_flag(CpuStatusRegisterFlags::Negative, difference & 0x80 == 0x80);
    }

    /// ISC: increments the memory cell, then subtracts the
    /// incremented value from the accumulator with borrow.
    pub fn execute_isc(&mut self, addressing_mode: &AddressingMode)
        requires
            old(self).wf(),
            Self::spec_mode_has_operand(*addressing_mode),
            old(self).clock.cycles + 600 <= usize::MAX,
        ensures
            final(self).wf(),
            old(self).bus.ppu.dot_counter + 1800 <= usize::MAX ==> final(self).bus.ppu.dot_counter == old(self).bus.ppu.dot_counter + 3 * (
            final(self).clock.cycles - old(self).clock.cycles),
            Self::spec_mode_has_operand(*addressing_mode) && old(self).spec_operand_pure(
                *addressing_mode,
            ) && old(self).spec_operand_addr(*addressing_mode) != 0x4014 ==> final(self).clock
                == old(self).clock,
            *final(self) == (Cpu {
                register_a: final(self).register_a,
                status: final(self).status,
                bus: final(self).bus,
                clock: final(self).clock,
                frame_ready: final(self).frame_ready,
                ..*old(self)
            }),
            old(self).clock.cycles <= final(self).clock.cycles <= old(self).clock.cycles + 514,
            Self::spec_mode_has_operand(*addressing_mode) && old(self).spec_operand_pure(
                *addressing_mode,
            ) && old(self).spec_operand_addr(*addressing_mode) < 0x2000 ==> {
                let addr = old(self).spec_operand_addr(*addressing_mode);
                let result = u8_specs::wrapping_add(old(self).bus.spec_cpu_peek(addr), 1);
                let complemented = result ^ 0xFF;
                let c = spec_flag_set(old(self).status.value, CpuStatusRegisterFlags::Carry);
                &&& final(self).register_a == spec_add_result(
                    old(self).register_a,
                    complemented,
                    c,
                )
                &&& final(self).status.value == spec_add_status(
                    spec_nz_status(old(self).status.value, result),
                    old(self).register_a,
                    complemented,
                    c,
                )
                &&& final(self).clock == old(self).clock
                &&& final(self).bus == (Bus {
                    cpu_memory_map: final(self).bus.cpu_memory_map,
                    ..old(self).bus
                })
                &&& final(self).bus.cpu_memory_map.internal_ram@ == old(self).bus.cpu_memory_map.internal_ram@.update((addr & 0x7FF) as int, result)
            },
    {
        let memory_data: Option<(u16, bool)> = self.get_memory_data(addressing_mode);
        let (memory_pointer, additional_cycle): (u16, bool) = match memory_data {
            Some(data) => data,
            None => vstd::pervasive::unreached(),
        };
        let memory_value: u8 = self.read(memory_pointer);
        let carry_in: bool = self.status.get_flag(CpuStatusRegisterFlags::Carry);
        let result: u8 = memory_value.wrapping_add(1);
        self.status.set_flag(CpuStatusRegisterFlags::Zero, result == 0);
        self.status.set_flag(CpuStatusRegisterFlags::Negative, result & 0x80 == 0x80);
        self.write(memory_pointer, result);
        proof {
            if Self::spec_mode_has_operand(*addressing_mode) && old(self).spec_operand_pure(
                *addressing_mode,
            ) && old(self).spec_operand_addr(*addressing_mode) < 0x2000 {
                crate::bits::lemma_u16_and_le(
                    old(self).spec_operand_addr(*addressing_mode),
                    0x7FF,
                );
                assert(old(self).bus.cpu_memory_map.internal_ram@.update(
                    (old(self).spec_operand_addr(*addressing_mode) & 0x7FF) as int,
                    result,
                )[(old(self).spec_operand_addr(*addressing_mode) & 0x7FF) as int] == result);
            }
        }
        let a: u16 = self.register_a as u16;
        let complemented: u8 = self.read(memory_pointer) ^ 0xFF;
        let m: u16 = complemented as u16;
        let c: u16 = if carry_in {
            1u16
        } else {
            0u16
        };
        let sum: u16 = a + m + c;
        let overflow: bool = (a ^ sum) & !(a ^ m) & 0x80 == 0x80;
        self.status.set_flag(CpuStatusRegisterFlags::Carry, sum > 255);
        self.status.set_flag(CpuStatusRegisterFlags::Negative, sum as u8 & 0x80 == 0x80);
        self.status.set_flag(CpuStatusRegisterFlags::Zero, sum as u8 == 0);
        self.status.set_flag(CpuStatusRegisterFlags::Overflow, overflow);
        self.register_a = sum as u8;
    }

    /// SLO: shifts the memory cell left, then ors it into the
    /// accumulator.
    pub fn execute_slo(&mut self, addressing_mode: &AddressingMode)
        requires
            old(self).wf(),
            Self::spec_mode_has_operand(*addressing_mode),
            old(self).clock.cycles + 600 <= usize::MAX,
        ensures
            final(self).wf(),
            old(self).bus.ppu.dot_counter + 1800 <= usize::MAX ==> final(self).bus.ppu.dot_counter == old(self).bus.ppu.dot_counter + 3 * (
            final(self).clock.cycles - old(self).clock.cycles),
            Self::spec_mode_has_operand(*addressing_mode) && old(self).spec_operand_pure(
                *addressing_mode,
            ) && old(self).spec_operand_addr(*addressing_mode) != 0x4014 ==> final(self).clock
                == old(self).clock,
            *final(self) == (Cpu {
                register_a: final(self).register_a,
                status: final(self).status,
                bus: final(self).bus,
                clock: final(self).clock,
                frame_ready: final(self).frame_ready,
                ..*old(self)
            }),
            old(self).clock.cycles <= final(self).clock.cycles <= old(self).clock.cycles + 514,
            Self::spec_mode_has_operand(*addressing_mode) && old(self).spec_operand_pure(
                *addressing_mode,
            ) && old(self).spec_operand_addr(*addressing_mode) < 0x2000 ==> {
                let addr = old(self).spec_operand_addr(*addressing_mode);
                let value = old(self).bus.spec_cpu_peek(addr);
                let combined = old(self).register_a | (value << 1);
                &&& final(self).register_a == combined
                &&& final(self).status.value == spec_nz_status(
                    spec_asl_status(old(self).status.value, value),
                    combined,
                )
                &&& final(self).clock == old(self).clock
                &&& final(self).bus == (Bus {
                    cpu_memory_map: final(self).bus.cpu_memory_map,
                    ..old(self).bus
                })
                &&& final(self).bus.cpu_memory_map.internal_ram@ == old(self).bus.cpu_memory_map.internal_ram@.update((addr & 0x7FF) as int, value << 1)
            },
    {
        let memory_data: Option<(u16, bool)> = self.get_memory_data(addressing_mode);
        let (memory_pointer, additional_cycle): (u16, bool) = match memory_data {
            Some(data) => data,
            None => vstd::pervasive::unreached(),
        };
        let value: u8 = self.read(memory_pointer);
        let result: u8 = value << 1;
        self.status.set_flag(CpuStatusRegisterFlags::Carry, value & 0x80 == 0x80);
        self.status.set_flag(CpuStatusRegisterFlags::Zero, result == 0);
        self.status.set_flag(CpuStatusRegisterFlags::Negative, result & 0x80 == 0x80);
        self.write(memory_pointer, result);
        let combined: u8 = self.register_a | result;
        self.status.set_flag(CpuStatusRegisterFlags::Zero, combined == 0);
        self.status.set_flag(CpuStatusRegisterFlags::Negative, combined & 0x80 == 0x80);
        self.register_a = combined;
    }

    /// RLA: rotates the memory cell left through the carry, then ands
    /// it into the accumulator.
    pub fn execute_rla(&mut self, addressing_mode: &AddressingMode)
        requires
            old(self).wf(),
            Self::spec_mode_has_operand(*addressing_mode),
            old(self).clock.cycles + 600 <= usize::MAX,
        ensures
            final(self).wf(),
            old(self).bus.ppu.dot_counter + 1800 <= usize::MAX ==> final(self).bus.ppu.dot_counter == old(self).bus.ppu.dot_counter + 3 * (
            final(self).clock.cycles - old(self).clock.cycles),
            Self::spec_mode_has_operand(*addressing_mode) && old(self).spec_operand_pure(
                *addressing_mode,
            ) && old(self).spec_operand_addr(*addressing_mode) != 0x4014 ==> final(self).clock
                == old(self).clock,
            *final(self) == (Cpu {
                register_a: final(self).register_a,
                status: final(self).status,
                bus: final(self).bus,
                clock: final(self).clock,
                frame_ready: final(self).frame_ready,
                ..*old(self)
            }),
            old(self).clock.cycles <= final(self).clock.cycles <= old(self).clock.cycles + 514,
            Self::spec_mode_has_operand(*addressing_mode) && old(self).spec_operand_pure(
                *addressing_mode,
            ) && old(self).spec_operand_addr(*addressing_mode) < 0x2000 ==> {
                let addr = old(self).spec_operand_addr(*addressing_mode);
                let value = old(self).bus.spec_cpu_peek(addr);
                let carry = spec_flag_set(old(self).status.value, CpuStatusRegisterFlags::Carry);
                let combined = old(self).register_a & spec_rol_result(value, carry);
                &&& final(self).register_a == combined
                &&& final(self).status.value == spec_nz_status(
                    spec_rla_rotate_status(old(self).status.value, value, carry),
                    combined,
                )
                &&& final(self).clock == old(self).clock
                &&& final(self).bus == (Bus {
                    cpu_memory_map: final(self).bus.cpu_memory_map,
                    ..old(self).bus
                })
                &&& final(self).bus.cpu_memory_map.internal_ram@ == old(self).bus.cpu_memory_map.internal_ram@.update(
                    (addr & 0x7FF) as int,
                    spec_rol_result(value, carry),
                )
            },
    {
        let memory_data: Option<(u16, bool)> = self.get_memory_data(addressing_mode);
        let (memory_pointer, additional_cycle): (u16, bool) = match memory_data {
            Some(data) => data,
            None => vstd::pervasive::unreached(),
        };
        let value: u8 = self.read(memory_pointer);
        let carry_flag: bool = self.status.get_flag(CpuStatusRegisterFlags::Carry);
        let rotated: u8 = (value << 1) | (value >> 7);
        let result: u8 = if carry_flag {
            rotated | 0x1
        } else {
            rotated & !0x1
        };
        self.status.set_flag(CpuStatusRegisterFlags::Carry, value & 0x80 == 0x80);
        self.status.set_flag(CpuStatusRegisterFlags::Negative, result & 0x80 == 0x80);
        self.write(memory_pointer, result);
        let combined: u8 = self.register_a & result;
        self.status.set_flag(CpuStatusRegisterFlags::Zero, combined == 0);
        self.status.set_flag(CpuStatusRegisterFlags::Negative, combined & 0x80 == 0x80);
        self.register_a = combined;
    }

    /// SRE: shifts the memory cell right, then xors it into the
    /// accumulator.
    pub fn execute_sre(&mut self, addressing_mode: &AddressingMode)
        requires
            old(self).wf(),
            Self::spec_mode_has_operand(*addressing_mode),
            old(self).clock.cycles + 600 <= usize::MAX,
        ensures
            final(self).wf(),
            old(self).bus.ppu.dot_counter + 1800 <= usize::MAX ==> final(self).bus.ppu.dot_counter == old(self).bus.ppu.dot_counter + 3 * (
            final(self).clock.cycles - old(self).clock.cycles),
            Self::spec_mode_has_operand(*addressing_mode) && old(self).spec_operand_pure(
                *addressing_mode,
            ) && old(self).spec_operand_addr(*addressing_mode) != 0x4014 ==> final(self).clock
                == old(self).clock,
            *final(self) == (Cpu {
                register_a: final(self).register_a,
                status: final(self).status,
                bus: final(self).bus,
                clock: final(self).clock,
                frame_ready: final(self).frame_ready,
                ..*old(self)
            }),
            old(self).clock.cycles <= final(self).clock.cycles <= old(self).clock.cycles + 514,
            Self::spec_mode_has_operand(*addressing_mode) && old(self).spec_operand_pure(
                *addressing_mode,
            ) && old(self).spec_operand_addr(*addressing_mode) < 0x2000 ==> {
                let addr = old(self).spec_operand_addr(*addressing_mode);
                let value = old(self).bus.spec_cpu_peek(addr);
                let combined = old(self).register_a ^ (value >> 1);
                &&& final(self).register_a == combined
                &&& final(self).status.value == spec_nz_status(
                    spec_lsr_status(old(self).status.value, value),
                    combined,
                )
                &&& final(self).clock == old(self).clock
                &&& final(self).bus == (Bus {
                    cpu_memory_map: final(self).bus.cpu_memory_map,
                    ..old(self).bus
                })
                &&& final(self).bus.cpu_memory_map.internal_ram@ == old(self).bus.cpu_memory_map.internal_ram@.update((addr & 0x7FF) as int, value >> 1)
            },
    {
        let memory_data: Option<(u16, bool)> = self.get_memory_data(addressing_mode);
        let (memory_pointer, additional_cycle): (u16, bool) = match memory_data {
            Some(data) => data,
            None => vstd::pervasive::unreached(),
        };
        let value: u8 = self.read(memory_pointer);
        let result: u8 = value >> 1;
        self.status.set_flag(CpuStatusRegisterFlags::Carry, value & 0x1 == 0x1);
        self.status.set_flag(CpuStatusRegisterFlags::Zero, result == 0);
        self.status.set_flag(CpuStatusRegisterFlags::Negative, result & 0x80 == 0x80);
        self.write(memory_pointer, result);
        let combined: u8 = self.register_a ^ result;
        self.status.set_flag(CpuStatusRegisterFlags::Zero, combined == 0);
        self.status.set_flag(CpuStatusRegisterFlags::Negative, combined & 0x80 == 0x80);
        self.register_a = combined;
    }

    /// RRA: rotates the memory cell right through the carry, then adds
    /// it to the accumulator with the carry the rotate produced.
    pub fn execute_rra(&mut self, addressing_mode: &AddressingMode)
        requires
            old(self).wf(),
            Self::spec_mode_has_operand(*addressing_mode),
            old(self).clock.cycles + 600 <= usize::MAX,
        ensures
            final(self).wf(),
            old(self).bus.ppu.dot_counter + 1800 <= usize::MAX ==> final(self).bus.ppu.dot_counter == old(self).bus.ppu.dot_counter + 3 * (
            final(self).clock.cycles - old(self).clock.cycles),
            Self::spec_mode_has_operand(*addressing_mode) && old(self).spec_operand_pure(
                *addressing_mode,
            ) && old(self).spec_operand_addr(*addressing_mode) != 0x4014 ==> final(self).clock
                == old(self).clock,
            *final(self) == (Cpu {
                register_a: final(self).register_a,
                status: final(self).status,
                bus: final(self).bus,
                clock: final(self).clock,
                frame_ready: final(self).frame_ready,
                ..*old(self)
            }),
            old(self).clock.cycles <= final(self).clock.cycles <= old(self).clock.cycles + 514,
            Self::spec_mode_has_operand(*addressing_mode) && old(self).spec_operand_pure(
                *addressing_mode,
            ) && old(self).spec_operand_addr(*addressing_mode) < 0x2000 ==> {
                let addr = old(self).spec_operand_addr(*addressing_mode);
                let value = old(self).bus.spec_cpu_peek(addr);
                let carry = spec_flag_set(old(self).status.value, CpuStatusRegisterFlags::Carry);
                let rotated = spec_ror_result(value, carry);
                let mid_status = spec_rra_rotate_status(old(self).status.value, value, carry);
                let new_carry = value & 0x1 == 0x1;
                &&& final(self).register_a == spec_add_result(
                    old(self).register_a,
                    rotated,
                    new_carry,
                )
                &&& final(self).status.value == spec_add_status(
                    mid_status,
                    old(self).register_a,
                    rotated,
                    new_carry,
                )
                &&& final(self).clock == old(self).clock
                &&& final(self).bus == (Bus {
                    cpu_memory_map: final(self).bus.cpu_memory_map,
                    ..old(self).bus
                })
                &&& final(self).bus.cpu_memory_map.internal_ram@ == old(self).bus.cpu_memory_map.internal_ram@.update((addr & 0x7FF) as int, rotated)
            },
    {
        let memory_data: Option<(u16, bool)> = self.get_memory_data(addressing_mode);
        let (memory_pointer, additional_cycle): (u16, bool) = match memory_data {
            Some(data) => data,
            None => vstd::pervasive::unreached(),
        };
        let value: u8 = self.read(memory_pointer);
        let carry_flag: bool = self.status.get_flag(CpuStatusRegisterFlags::Carry);
        let rotated_base: u8 = (value >> 1) | (value << 7);
        let result: u8 = if carry_flag {
            rotated_base | 0x80
        } else {
            rotated_base & !0x80
        };
        self.status.set_flag(CpuStatusRegisterFlags::Carry, value & 0x1 == 0x1);
        self.status.set_flag(CpuStatusRegisterFlags::Negative, result & 0x80 == 0x80);
        self.write(memory_pointer, result);
        proof {
            if Self::spec_mode_has_operand(*addressing_mode) && old(self).spec_operand_pure(
                *addressing_mode,
            ) && old(self).spec_operand_addr(*addressing_mode) < 0x2000 {
                crate::bits::lemma_u16_and_le(
                    old(self).spec_operand_addr(*addressing_mode),
                    0x7FF,
                );
                assert(old(self).bus.cpu_memory_map.internal_ram@.update(
                    (old(self).spec_operand_addr(*addressing_mode) & 0x7FF) as int,
                    result,
                )[(old(self).spec_operand_addr(*addressing_mode) & 0x7FF) as int] == result);
            }
        }
        let new_carry: bool = value & 0x1 == 0x1;
        let a: u16 = self.register_a as u16;
        let m: u16 = self.read(memory_pointer) as u16;
        let c: u16 = if new_carry {
            1u16
        } else {
            0u16
        };
        let sum: u16 = a + m + c;
        let overflow: bool = (a ^ sum) & !(a ^ m) & 0x80 == 0x80;
        self.status.set_flag(CpuStatusRegisterFlags::Carry, sum > 255);
        self.status.set_flag(CpuStatusRegisterFlags::Negative, sum as u8 & 0x80 == 0x80);
        self.status.set_flag(CpuStatusRegisterFlags::Zero, sum as u8 == 0);
        self.status.set_flag(CpuStatusRegisterFlags::Overflow, overflow);
        self.register_a = sum as u8;
    }

    /// Where a taken branch lands: the signed operand byte is added to
    /// the address after it.
    pub open spec fn spec_branch_target(self) -> u16 {
        let offset = self.bus.spec_cpu_peek(self.program_counter);
        let next_pc = u16_specs::wrapping_add(self.program_counter, 1);
        let offset_ext = if offset < 0x80 {
            offset as u16
        } else {
            (offset as u16) | 0xFF00
        };
        u16_specs::wrapping_add(next_pc, offset_ext)
    }

    /// Whether a taken branch from the current state crosses a page,
    /// which costs one more cycle.
    pub open spec fn spec_branch_cross(self) -> bool {
        spec_is_page_cross(
            u16_specs::wrapping_add(self.program_counter, 1),
            self.spec_branch_target(),
        )
    }

    /// The shared branch step: taken branches pay one cycle, plus one
    /// more when the target lies in another page.
    fn branch(&mut self, flag_active: bool)
        requires
            old(self).wf(),
            old(self).clock.cycles + 600 <= usize::MAX,
        ensures
            final(self).wf(),
            old(self).bus.ppu.dot_counter + 1800 <= usize::MAX ==> final(self).bus.ppu.dot_counter == old(self).bus.ppu.dot_counter + 3 * (
            final(self).clock.cycles - old(self).clock.cycles),
            *final(self) == (Cpu {
                program_counter: final(self).program_counter,
                bus: final(self).bus,
                clock: final(self).clock,
                frame_ready: final(self).frame_ready,
                ..*old(self)
            }),
            old(self).clock.cycles <= final(self).clock.cycles <= old(self).clock.cycles + 2,
            !flag_active ==> final(self).program_counter == old(self).program_counter && final(self).clock == old(self).clock,
            !flag_active && Bus::spec_cpu_read_pure(old(self).program_counter) ==> *final(self)
                == *old(self),
            flag_active && Bus::spec_cpu_read_pure(old(self).program_counter) ==> final(self).program_counter == old(self).spec_branch_target() && final(self).clock.cycles == old(self).clock.cycles + 1 + (if old(self).spec_branch_cross() {
                1int
            } else {
                0int
            }) && old(self).spec_bus_ticked(final(self).bus),
    {
        let memory_data: Option<(u16, bool)> = self.get_memory_data(&AddressingMode::Relative);
        let (memory_pointer, _): (u16, bool) = match memory_data {
            Some(data) => data,
            None => vstd::pervasive::unreached(),
        };
        if flag_active {
            self.tick(1);
            let offset_byte: u8 = #[verifier::truncate] (memory_pointer as u8);
            let offset_ext: u16 = if offset_byte < 0x80 {
                offset_byte as u16
            } else {
                (offset_byte as u16) | 0xFF00
            };
            let next_pc: u16 = self.program_counter.wrapping_add(1);
            let jump_pc: u16 = next_pc.wrapping_add(offset_ext);
            if self.is_page_cross(next_pc, jump_pc) {
                self.tick(1);
            }
            self.program_counter = jump_pc;
        }
    }

    /// BCC: branches when carry is clear.
    pub fn execute_bcc(&mut self)
        requires
            old(self).wf(),
            old(self).clock.cycles + 600 <= usize::MAX,
        ensures
            final(self).wf(),
            old(self).bus.ppu.dot_counter + 1800 <= usize::MAX ==> final(self).bus.ppu.dot_counter == old(self).bus.ppu.dot_counter + 3 * (
            final(self).clock.cycles - old(self).clock.cycles),
            *final(self) == (Cpu {
                program_counter: final(self).program_counter,
                bus: final(self).bus,
                clock: final(self).clock,
                frame_ready: final(self).frame_ready,
                ..*old(self)
            }),
            old(self).clock.cycles <= final(self).clock.cycles <= old(self).clock.cycles + 2,
            !(!spec_flag_set(old(self).status.value, CpuStatusRegisterFlags::Carry)) ==> final(self).program_counter == old(self).program_counter && final(self).clock == old(self).clock,
            !(!spec_flag_set(old(self).status.value, CpuStatusRegisterFlags::Carry)) && Bus::spec_cpu_read_pure(old(self).program_counter) ==> *final(self)
                == *old(self),
            (!spec_flag_set(old(self).status.value, CpuStatusRegisterFlags::Carry)) && Bus::spec_cpu_read_pure(old(self).program_counter) ==> final(self).program_counter == old(self).spec_branch_target() && final(self).clock.cycles == old(self).clock.cycles + 1 + (if old(self).spec_branch_cross() {
                1int
            } else {
                0int
            }) && old(self).spec_bus_ticked(final(self).bus),
    {
        self.branch(!self.status.get_flag(CpuStatusRegisterFlags::Carry));
    }

    /// BCS: branches when carry is set.
    pub fn execute_bcs(&mut self)
        requires
            old(self).wf(),
            old(self).clock.cycles + 600 <= usize::MAX,
        ensures
            final(self).wf(),
            old(self).bus.ppu.dot_counter + 1800 <= usize::MAX ==> final(self).bus.ppu.dot_counter == old(self).bus.ppu.dot_counter + 3 * (
            final(self).clock.cycles - old(self).clock.cycles),
            *final(self) == (Cpu {
                program_counter: final(self).program_counter,
                bus: final(self).bus,
                clock: final(self).clock,
                frame_ready: final(self).frame_ready,
                ..*old(self)
            }),
            old(self).clock.cycles <= final(self).clock.cycles <= old(self).clock.cycles + 2,
            !(spec_flag_set(old(self).status.value, CpuStatusRegisterFlags::Carry)) ==> final(self).program_counter == old(self).program_counter && final(self).clock == old(self).clock,
            !(spec_flag_set(old(self).status.value, CpuStatusRegisterFlags::Carry)) && Bus::spec_cpu_read_pure(old(self).program_counter) ==> *final(self)
                == *old(self),
            (spec_flag_set(old(self).status.value, CpuStatusRegisterFlags::Carry)) && Bus::spec_cpu_read_pure(old(self).program_counter) ==> final(self).program_counter == old(self).spec_branch_target() && final(self).clock.cycles == old(self).clock.cycles + 1 + (if old(self).spec_branch_cross() {
                1int
            } else {
                0int
            }) && old(self).spec_bus_ticked(final(self).bus),
    {
        self.branch(self.status.get_flag(CpuStatusRegisterFlags::Carry));
    }

    /// BEQ: branches when zero is set.
    pub fn execute_beq(&mut self)
        requires
            old(self).wf(),
            old(self).clock.cycles + 600 <= usize::MAX,
        ensures
            final(self).wf(),
            old(self).bus.ppu.dot_counter + 1800 <= usize::MAX ==> final(self).bus.ppu.dot_counter == old(self).bus.ppu.dot_counter + 3 * (
            final(self).clock.cycles - old(self).clock.cycles),
            *final(self) == (Cpu {
                program_counter: final(self).program_counter,
                bus: final(self).bus,
                clock: final(self).clock,
                frame_ready: final(self).frame_ready,
                ..*old(self)
            }),
            old(self).clock.cycles <= final(self).clock.cycles <= old(self).clock.cycles + 2,
            !(spec_flag_set(old(self).status.value, CpuStatusRegisterFlags::Zero)) ==> final(self).program_counter == old(self).program_counter && final(self).clock == old(self).clock,
            !(spec_flag_set(old(self).status.value, CpuStatusRegisterFlags::Zero)) && Bus::spec_cpu_read_pure(old(self).program_counter) ==> *final(self)
                == *old(self),
            (spec_flag_set(old(self).status.value, CpuStatusRegisterFlags::Zero)) && Bus::spec_cpu_read_pure(old(self).program_counter) ==> final(self).program_counter == old(self).spec_branch_target() && final(self).clock.cycles == old(self).clock.cycles + 1 + (if old(self).spec_branch_cross() {
                1int
            } else {
                0int
            }) && old(self).spec_bus_ticked(final(self).bus),
    {
        self.branch(self.status.get_flag(CpuStatusRegisterFlags::Zero));
    }

    /// BNE: branches when zero is clear.
    pub fn execute_bne(&mut self)
        requires
            old(self).wf(),
            old(self).clock.cycles + 600 <= usize::MAX,
        ensures
            final(self).wf(),
            old(self).bus.ppu.dot_counter + 1800 <= usize::MAX ==> final(self).bus.ppu.dot_counter == old(self).bus.ppu.dot_counter + 3 * (
            final(self).clock.cycles - old(self).clock.cycles),
            *final(self) == (Cpu {
                program_counter: final(self).program_counter,
                bus: final(self).bus,
                clock: final(self).clock,
                frame_ready: final(self).frame_ready,
                ..*old(self)
            }),
            old(self).clock.cycles <= final(self).clock.cycles <= old(self).clock.cycles + 2,
            !(!spec_flag_set(old(self).status.value, CpuStatusRegisterFlags::Zero)) ==> final(self).program_counter == old(self).program_counter && final(self).clock == old(self).clock,
            !(!spec_flag_set(old(self).status.value, CpuStatusRegisterFlags::Zero)) && Bus::spec_cpu_read_pure(old(self).program_counter) ==> *final(self)
                == *old(self),
            (!spec_flag_set(old(self).status.value, CpuStatusRegisterFlags::Zero)) && Bus::spec_cpu_read_pure(old(self).program_counter) ==> final(self).program_counter == old(self).spec_branch_target() && final(self).clock.cycles == old(self).clock.cycles + 1 + (if old(self).spec_branch_cross() {
                1int
            } else {
                0int
            }) && old(self).spec_bus_ticked(final(self).bus),
    {
        self.branch(!self.status.get_flag(CpuStatusRegisterFlags::Zero));
    }

    /// BMI: branches when negative is set.
    pub fn execute_bmi(&mut self)
        requires
            old(self).wf(),
            old(self).clock.cycles + 600 <= usize::MAX,
        ensures
            final(self).wf(),
            old(self).bus.ppu.dot_counter + 1800 <= usize::MAX ==> final(self).bus.ppu.dot_counter == old(self).bus.ppu.dot_counter + 3 * (
            final(self).clock.cycles - old(self).clock.cycles),
            *final(self) == (Cpu {
                program_counter: final(self).program_counter,
                bus: final(self).bus,
                clock: final(self).clock,
                frame_ready: final(self).frame_ready,
                ..*old(self)
            }),
            old(self).clock.cycles <= final(self).clock.cycles <= old(self).clock.cycles + 2,
            !(spec_flag_set(old(self).status.value, CpuStatusRegisterFlags::Negative)) ==> final(self).program_counter == old(self).program_counter && final(self).clock == old(self).clock,
            !(spec_flag_set(old(self).status.value, CpuStatusRegisterFlags::Negative)) && Bus::spec_cpu_read_pure(old(self).program_counter) ==> *final(self)
                == *old(self),
            (spec_flag_set(old(self).status.value, CpuStatusRegisterFlags::Negative)) && Bus::spec_cpu_read_pure(old(self).program_counter) ==> final(self).program_counter == old(self).spec_branch_target() && final(self).clock.cycles == old(self).clock.cycles + 1 + (if old(self).spec_branch_cross() {
                1int
            } else {
                0int
            }) && old(self).spec_bus_ticked(final(self).bus),
    {
        self.branch(self.status.get_flag(CpuStatusRegisterFlags::Negative));
    }

    /// BPL: branches when negative is clear.
    pub fn execute_bpl(&mut self)
        requires
            old(self).wf(),
            old(self).clock.cycles + 600 <= usize::MAX,
        ensures
            final(self).wf(),
            old(self).bus.ppu.dot_counter + 1800 <= usize::MAX ==> final(self).bus.ppu.dot_counter == old(self).bus.ppu.dot_counter + 3 * (
            final(self).clock.cycles - old(self).clock.cycles),
            *final(self) == (Cpu {
                program_counter: final(self).program_counter,
                bus: final(self).bus,
                clock: final(self).clock,
                frame_ready: final(self).frame_ready,
                ..*old(self)
            }),
            old(self).clock.cycles <= final(self).clock.cycles <= old(self).clock.cycles + 2,
            !(!spec_flag_set(old(self).status.value, CpuStatusRegisterFlags::Negative)) ==> final(self).program_counter == old(self).program_counter && final(self).clock == old(self).clock,
            !(!spec_flag_set(old(self).status.value, CpuStatusRegisterFlags::Negative)) && Bus::spec_cpu_read_pure(old(self).program_counter) ==> *final(self)
                == *old(self),
            (!spec_flag_set(old(self).status.value, CpuStatusRegisterFlags::Negative)) && Bus::spec_cpu_read_pure(old(self).program_counter) ==> final(self).program_counter == old(self).spec_branch_target() && final(self).clock.cycles == old(self).clock.cycles + 1 + (if old(self).spec_branch_cross() {
                1int
            } else {
                0int
            }) && old(self).spec_bus_ticked(final(self).bus),
    {
        self.branch(!self.status.get_flag(CpuStatusRegisterFlags::Negative));
    }

    /// BVC: branches when overflow is clear.
    pub fn execute_bvc(&mut self)
        requires
            old(self).wf(),
            old(self).clock.cycles + 600 <= usize::MAX,
        ensures
            final(self).wf(),
            old(self).bus.ppu.dot_counter + 1800 <= usize::MAX ==> final(self).bus.ppu.dot_counter == old(self).bus.ppu.dot_counter + 3 * (
            final(self).clock.cycles - old(self).clock.cycles),
            *final(self) == (Cpu {
                program_counter: final(self).program_counter,
                bus: final(self).bus,
                clock: final(self).clock,
                frame_ready: final(self).frame_ready,
                ..*old(self)
            }),
            old(self).clock.cycles <= final(self).clock.cycles <= old(self).clock.cycles + 2,
            !(!spec_flag_set(old(self).status.value, CpuStatusRegisterFlags::Overflow)) ==> final(self).program_counter == old(self).program_counter && final(self).clock == old(self).clock,
            !(!spec_flag_set(old(self).status.value, CpuStatusRegisterFlags::Overflow)) && Bus::spec_cpu_read_pure(old(self).program_counter) ==> *final(self)
                == *old(self),
            (!spec_flag_set(old(self).status.value, CpuStatusRegisterFlags::Overflow)) && Bus::spec_cpu_read_pure(old(self).program_counter) ==> final(self).program_counter == old(self).spec_branch_target() && final(self).clock.cycles == old(self).clock.cycles + 1 + (if old(self).spec_branch_cross() {
                1int
            } else {
                0int
            }) && old(self).spec_bus_ticked(final(self).bus),
    {
        self.branch(!self.status.get_flag(CpuStatusRegisterFlags::Overflow));
    }

    /// BVS: branches when overflow is set.
    pub fn execute_bvs(&mut self)
        requires
            old(self).wf(),
            old(self).clock.cycles + 600 <= usize::MAX,
        ensures
            final(self).wf(),
            old(self).bus.ppu.dot_counter + 1800 <= usize::MAX ==> final(self).bus.ppu.dot_counter == old(self).bus.ppu.dot_counter + 3 * (
            final(self).clock.cycles - old(self).clock.cycles),
            *final(self) == (Cpu {
                program_counter: final(self).program_counter,
                bus: final(self).bus,
                clock: final(self).clock,
                frame_ready: final(self).frame_ready,
                ..*old(self)
            }),
            old(self).clock.cycles <= final(self).clock.cycles <= old(self).clock.cycles + 2,
            !(spec_flag_set(old(self).status.value, CpuStatusRegisterFlags::Overflow)) ==> final(self).program_counter == old(self).program_counter && final(self).clock == old(self).clock,
            !(spec_flag_set(old(self).status.value, CpuStatusRegisterFlags::Overflow)) && Bus::spec_cpu_read_pure(old(self).program_counter) ==> *final(self)
                == *old(self),
            (spec_flag_set(old(self).status.value, CpuStatusRegisterFlags::Overflow)) && Bus::spec_cpu_read_pure(old(self).program_counter) ==> final(self).program_counter == old(self).spec_branch_target() && final(self).clock.cycles == old(self).clock.cycles + 1 + (if old(self).spec_branch_cross() {
                1int
            } else {
                0int
            }) && old(self).spec_bus_ticked(final(self).bus),
    {
        self.branch(self.status.get_flag(CpuStatusRegisterFlags::Overflow));
    }

    /// PHA: pushes the accumulator.
    pub fn execute_pha(&mut self, addressing_mode: &AddressingMode)
        requires
            old(self).wf(),
        ensures
            final(self).wf(),
            old(self).bus.ppu.dot_counter + 1800 <= usize::MAX ==> final(self).bus.ppu.dot_counter == old(self).bus.ppu.dot_counter + 3 * (
            final(self).clock.cycles - old(self).clock.cycles),
            *final(self) == (Cpu {
                stack_pointer: final(self).stack_pointer,
                bus: final(self).bus,
                ..*old(self)
            }),
            final(self).stack_pointer == u8_specs::wrapping_sub(old(self).stack_pointer, 1),
            old(self).spec_operand_pure(*addressing_mode) ==> final(self).bus == (Bus {
                cpu_memory_map: final(self).bus.cpu_memory_map,
                ..old(self).bus
            }) && final(self).bus.cpu_memory_map.internal_ram@ == old(self).bus.cpu_memory_map.internal_ram@.update(
                0x100 + old(self).stack_pointer as int,
                old(self).register_a,
            ),
    {
        let memory_data: Option<(u16, bool)> = self.get_memory_data(addressing_mode);
        let value: u8 = self.register_a;
        self.push_stack(value);
    }

    /// PHP: pushes the status byte with the break flag forced on.
    pub fn execute_php(&mut self, addressing_mode: &AddressingMode)
        requires
            old(self).wf(),
        ensures
            final(self).wf(),
            old(self).bus.ppu.dot_counter + 1800 <= usize::MAX ==> final(self).bus.ppu.dot_counter == old(self).bus.ppu.dot_counter + 3 * (
            final(self).clock.cycles - old(self).clock.cycles),
            *final(self) == (Cpu {
                stack_pointer: final(self).stack_pointer,
                bus: final(self).bus,
                ..*old(self)
            }),
            final(self).stack_pointer == u8_specs::wrapping_sub(old(self).stack_pointer, 1),
            old(self).spec_operand_pure(*addressing_mode) ==> final(self).bus == (Bus {
                cpu_memory_map: final(self).bus.cpu_memory_map,
                ..old(self).bus
            }) && final(self).bus.cpu_memory_map.internal_ram@ == old(self).bus.cpu_memory_map.internal_ram@.update(
                0x100 + old(self).stack_pointer as int,
                old(self).status.value | spec_flag_mask(CpuStatusRegisterFlags::Break),
            ),
    {
        let memory_data: Option<(u16, bool)> = self.get_memory_data(addressing_mode);
        let value: u8 = self.status.get() | CpuStatusRegisterFlags::Break.mask();
        self.push_stack(value);
    }

    /// PLA: pops into the accumulator, refreshing zero and negative.
    pub fn execute_pla(&mut self, addressing_mode: &AddressingMode)
        requires
            old(self).wf(),
        ensures
            final(self).wf(),
            old(self).bus.ppu.dot_counter + 1800 <= usize::MAX ==> final(self).bus.ppu.dot_counter == old(self).bus.ppu.dot_counter + 3 * (
            final(self).clock.cycles - old(self).clock.cycles),
            *final(self) == (Cpu {
                register_a: final(self).register_a,
                status: final(self).status,
                stack_pointer: final(self).stack_pointer,
                bus: final(self).bus,
                ..*old(self)
            }),
            final(self).stack_pointer == u8_specs::wrapping_add(old(self).stack_pointer, 1),
            old(self).spec_operand_pure(*addressing_mode) ==> {
                let value = old(self).bus.cpu_memory_map.internal_ram@[0x100
                    + u8_specs::wrapping_add(old(self).stack_pointer, 1) as int];
                &&& final(self).bus == old(self).bus
                &&& final(self).register_a == value
                &&& final(self).status.value == spec_nz_status(old(self).status.value, value)
            },
    {
        let memory_data: Option<(u16, bool)> = self.get_memory_data(addressing_mode);
        let value_from_stack: u8 = self.pop_stack();
        self.status.set_flag(CpuStatusRegisterFlags::Zero, value_from_stack == 0);
        self.status.set_flag(CpuStatusRegisterFlags::Negative, value_from_stack & 0x80 == 0x80);
        self.register_a = value_from_stack;
    }

    /// PLP: pops the status byte; the live register keeps break clear
    /// and the unused bit set, whatever was pushed.
    pub fn execute_plp(&mut self, addressing_mode: &AddressingMode)
        requires
            old(self).wf(),
        ensures
            final(self).wf(),
            old(self).bus.ppu.dot_counter + 1800 <= usize::MAX ==> final(self).bus.ppu.dot_counter == old(self).bus.ppu.dot_counter + 3 * (
            final(self).clock.cycles - old(self).clock.cycles),
            *final(self) == (Cpu {
                status: final(self).status,
                stack_pointer: final(self).stack_pointer,
                bus: final(self).bus,
                ..*old(self)
            }),
            final(self).stack_pointer == u8_specs::wrapping_add(old(self).stack_pointer, 1),
            old(self).spec_operand_pure(*addressing_mode) ==> {
                let value = old(self).bus.cpu_memory_map.internal_ram@[0x100
                    + u8_specs::wrapping_add(old(self).stack_pointer, 1) as int];
                &&& final(self).bus == old(self).bus
                &&& final(self).status.value == (value & !spec_flag_mask(
                    CpuStatusRegisterFlags::Break,
                )) | spec_flag_mask(CpuStatusRegisterFlags::Unused)
            },
    {
        let memory_data: Option<(u16, bool)> = self.get_memory_data(addressing_mode);
        let status: u8 = self.pop_stack();
        self.status.set(status);
        self.status.set_flag(CpuStatusRegisterFlags::Break, false);
        self.status.set_flag(CpuStatusRegisterFlags::Unused, true);
    }

    /// RTI: pops the status byte (forcing the unused bit) and then the
    /// full program counter.
    pub fn execute_rti(&mut self, addressing_mode: &AddressingMode)
        requires
            old(self).wf(),
        ensures
            final(self).wf(),
            old(self).bus.ppu.dot_counter + 1800 <= usize::MAX ==> final(self).bus.ppu.dot_counter == old(self).bus.ppu.dot_counter + 3 * (
            final(self).clock.cycles - old(self).clock.cycles),
            *final(self) == (Cpu {
                status: final(self).status,
                stack_pointer: final(self).stack_pointer,
                program_counter: final(self).program_counter,
                bus: final(self).bus,
                ..*old(self)
            }),
            final(self).stack_pointer == u8_specs::wrapping_add(old(self).stack_pointer, 3),
            old(self).spec_operand_pure(*addressing_mode) ==> {
                let ram = old(self).bus.cpu_memory_map.internal_ram@;
                let status = ram[0x100 + u8_specs::wrapping_add(old(self).stack_pointer, 1) as int];
                let lo = ram[0x100 + u8_specs::wrapping_add(old(self).stack_pointer, 2) as int];
                let hi = ram[0x100 + u8_specs::wrapping_add(old(self).stack_pointer, 3) as int];
                &&& final(self).bus == old(self).bus
                &&& final(self).status.value == (status | spec_flag_mask(
                    CpuStatusRegisterFlags::Unused,
                ))
                &&& final(self).program_counter == ((lo as u16) | ((hi as u16) << 8))
            },
    {
        let memory_data: Option<(u16, bool)> = self.get_memory_data(addressing_mode);
        let status: u8 = self.pop_stack();
        let program_counter: u16 = self.pop_stack_u16();
        self.status.set(status);
        self.status.set_flag(CpuStatusRegisterFlags::Unused, true);
        self.program_counter = program_counter;
    }

    /// RTS: pops the return address and resumes one byte past it.
    pub fn execute_rts(&mut self, addressing_mode: &AddressingMode)
        requires
            old(self).wf(),
        ensures
            final(self).wf(),
            old(self).bus.ppu.dot_counter + 1800 <= usize::MAX ==> final(self).bus.ppu.dot_counter == old(self).bus.ppu.dot_counter + 3 * (
            final(self).clock.cycles - old(self).clock.cycles),
            *final(self) == (Cpu {
                stack_pointer: final(self).stack_pointer,
                program_counter: final(self).program_counter,
                bus: final(self).bus,
                ..*old(self)
            }),
            final(self).stack_pointer == u8_specs::wrapping_add(old(self).stack_pointer, 2),
            old(self).spec_operand_pure(*addressing_mode) ==> {
                let ram = old(self).bus.cpu_memory_map.internal_ram@;
                let lo = ram[0x100 + u8_specs::wrapping_add(old(self).stack_pointer, 1) as int];
                let hi = ram[0x100 + u8_specs::wrapping_add(old(self).stack_pointer, 2) as int];
                &&& final(self).bus == old(self).bus
                &&& final(self).program_counter == u16_specs::wrapping_add(
                    (lo as u16) | ((hi as u16) << 8),
                    1,
                )
            },
    {
        let memory_data: Option<(u16, bool)> = self.get_memory_data(addressing_mode);
        self.program_counter = self.pop_stack_u16().wrapping_add(1);
    }

    /// JMP: loads the program counter from the resolved address.
    pub fn execute_jmp(&mut self, addressing_mode: &AddressingMode)
        requires
            old(self).wf(),
            Self::spec_mode_has_operand(*addressing_mode),
        ensures
            final(self).wf(),
            old(self).bus.ppu.dot_counter + 1800 <= usize::MAX ==> final(self).bus.ppu.dot_counter == old(self).bus.ppu.dot_counter + 3 * (
            final(self).clock.cycles - old(self).clock.cycles),
            *final(self) == (Cpu {
                program_counter: final(self).program_counter,
                bus: final(self).bus,
                ..*old(self)
            }),
            old(self).spec_operand_pure(*addressing_mode) ==> final(self).bus == old(self).bus
                && final(self).program_counter == old(self).spec_operand_addr(*addressing_mode),
    {
        let memory_data: Option<(u16, bool)> = self.get_memory_data(addressing_mode);
        let (memory_pointer, _): (u16, bool) = match memory_data {
            Some(data) => data,
            None => vstd::pervasive::unreached(),
        };
        self.program_counter = memory_pointer;
    }

    /// JSR: pushes the address of the last operand byte and jumps.
    pub fn execute_jsr(&mut self)
        requires
            old(self).wf(),
        ensures
            final(self).wf(),
            old(self).bus.ppu.dot_counter + 1800 <= usize::MAX ==> final(self).bus.ppu.dot_counter == old(self).bus.ppu.dot_counter + 3 * (
            final(self).clock.cycles - old(self).clock.cycles),
            *final(self) == (Cpu {
                program_counter: final(self).program_counter,
                stack_pointer: final(self).stack_pointer,
                bus: final(self).bus,
                ..*old(self)
            }),
            final(self).stack_pointer == u8_specs::wrapping_sub(old(self).stack_pointer, 2),
            spec_peek16_pure(old(self).program_counter) ==> {
                let return_address = u16_specs::wrapping_add(old(self).program_counter, 1);
                &&& final(self).program_counter == spec_peek16(
                    old(self).bus,
                    old(self).program_counter,
                )
                &&& final(self).bus == (Bus {
                    cpu_memory_map: final(self).bus.cpu_memory_map,
                    ..old(self).bus
                })
                &&& final(self).bus.cpu_memory_map.internal_ram@ == old(self).bus.cpu_memory_map.internal_ram@.update(
                    0x100 + old(self).stack_pointer as int,
                    (return_address >> 8) as u8,
                ).update(
                    0x100 + u8_specs::wrapping_sub(old(self).stack_pointer, 1) as int,
                    return_address as u8,
                )
            },
    {
        let memory_data: Option<(u16, bool)> = self.get_memory_data(&AddressingMode::Absolute);
        let (memory_pointer, _): (u16, bool) = match memory_data {
            Some(data) => data,
            None => vstd::pervasive::unreached(),
        };
        let return_address: u16 = self.program_counter.wrapping_add(1);
        self.push_stack_u16(return_address);
        self.program_counter = memory_pointer;
    }

    /// BRK: a software interrupt. Pushes the address two past the
    /// opcode and the status byte with break and unused set, sets
    /// interrupt-disable, and vectors through 0xFFFE.
    pub fn execute_brk(&mut self)
        requires
            old(self).wf(),
        ensures
            final(self).wf(),
            old(self).bus.ppu.dot_counter + 1800 <= usize::MAX ==> final(self).bus.ppu.dot_counter == old(self).bus.ppu.dot_counter + 3 * (
            final(self).clock.cycles - old(self).clock.cycles),
            *final(self) == (Cpu {
                program_counter: final(self).program_counter,
                status: final(self).status,
                stack_pointer: final(self).stack_pointer,
                bus: final(self).bus,
                ..*old(self)
            }),
            final(self).stack_pointer == u8_specs::wrapping_sub(old(self).stack_pointer, 3),
            final(self).status.value == (old(self).status.value | spec_flag_mask(
                CpuStatusRegisterFlags::InterruptDisable,
            )),
            final(self).program_counter == spec_peek16(old(self).bus, 0xFFFE),
            final(self).bus == (Bus {
                cpu_memory_map: final(self).bus.cpu_memory_map,
                ..old(self).bus
            }),
            final(self).bus.cpu_memory_map.internal_ram@ == {
                let pushed_pc = u16_specs::wrapping_add(old(self).program_counter, 1);
                old(self).bus.cpu_memory_map.internal_ram@.update(
                    0x100 + old(self).stack_pointer as int,
                    (pushed_pc >> 8) as u8,
                ).update(
                    0x100 + u8_specs::wrapping_sub(old(self).stack_pointer, 1) as int,
                    pushed_pc as u8,
                ).update(
                    0x100 + u8_specs::wrapping_sub(old(self).stack_pointer, 2) as int,
                    old(self).status.value | spec_flag_mask(CpuStatusRegisterFlags::Break)
                        | spec_flag_mask(CpuStatusRegisterFlags::Unused),
                )
            },
    {
        let pushed_pc: u16 = self.program_counter.wrapping_add(1);
        self.push_stack_u16(pushed_pc);
        let pushed_status: u8 = self.status.get() | CpuStatusRegisterFlags::Break.mask()
            | CpuStatusRegisterFlags::Unused.mask();
        self.push_stack(pushed_status);
        self.status.set_flag(CpuStatusRegisterFlags::InterruptDisable, true);
        self.program_counter = self.read_u16(0xFFFE);
    }

    /// NOP: resolves its operand, if any, and does nothing more.
    pub fn execute_nop(&mut self, addressing_mode: &AddressingMode)
        requires
            old(self).wf(),
        ensures
            final(self).wf(),
            old(self).bus.ppu.dot_counter + 1800 <= usize::MAX ==> final(self).bus.ppu.dot_counter == old(self).bus.ppu.dot_counter + 3 * (
            final(self).clock.cycles - old(self).clock.cycles),
            *final(self) == (Cpu {
                bus: final(self).bus,
                ..*old(self)
            }),
            old(self).spec_operand_pure(*addressing_mode) ==> *final(self) == *old(self),
    {
        let memory_data: Option<(u16, bool)> = self.get_memory_data(addressing_mode);
    }

    /// STA: stores the accumulator. Stores never touch the flags.
    pub fn execute_sta(&mut self, addressing_mode: &AddressingMode)
        requires
            old(self).wf(),
            Self::spec_mode_has_operand(*addressing_mode),
            old(self).clock.cycles + 600 <= usize::MAX,
        ensures
            final(self).wf(),
            old(self).bus.ppu.dot_counter + 1800 <= usize::MAX ==> final(self).bus.ppu.dot_counter == old(self).bus.ppu.dot_counter + 3 * (
            final(self).clock.cycles - old(self).clock.cycles),
            Self::spec_mode_has_operand(*addressing_mode) && old(self).spec_operand_pure(
                *addressing_mode,
            ) && old(self).spec_operand_addr(*addressing_mode) != 0x4014 ==> final(self).clock
                == old(self).clock,
            *final(self) == (Cpu {
                bus: final(self).bus,
                clock: final(self).clock,
                frame_ready: final(self).frame_ready,
                ..*old(self)
            }),
            old(self).clock.cycles <= final(self).clock.cycles <= old(self).clock.cycles + 514,
            Self::spec_mode_has_operand(*addressing_mode) && old(self).spec_operand_pure(
                *addressing_mode,
            ) && old(self).spec_operand_addr(*addressing_mode) < 0x2000 ==> {
                let addr = old(self).spec_operand_addr(*addressing_mode);
                &&& final(self).clock == old(self).clock
                &&& final(self).bus == (Bus {
                    cpu_memory_map: final(self).bus.cpu_memory_map,
                    ..old(self).bus
                })
                &&& final(self).bus.cpu_memory_map.internal_ram@ == old(self).bus.cpu_memory_map.internal_ram@.update((addr & 0x7FF) as int, old(self).register_a)
            },
    {
        let memory_data: Option<(u16, bool)> = self.get_memory_data(addressing_mode);
        let (memory_pointer, additional_cycle): (u16, bool) = match memory_data {
            Some(data) => data,
            None => vstd::pervasive::unreached(),
        };
        let value: u8 = self.register_a;
        self.write(memory_pointer, value);
    }

    /// STX: stores the X register. Stores never touch the flags.
    pub fn execute_stx(&mut self, addressing_mode: &AddressingMode)
        requires
            old(self).wf(),
            Self::spec_mode_has_operand(*addressing_mode),
            old(self).clock.cycles + 600 <= usize::MAX,
        ensures
            final(self).wf(),
            old(self).bus.ppu.dot_counter + 1800 <= usize::MAX ==> final(self).bus.ppu.dot_counter == old(self).bus.ppu.dot_counter + 3 * (
            final(self).clock.cycles - old(self).clock.cycles),
            Self::spec_mode_has_operand(*addressing_mode) && old(self).spec_operand_pure(
                *addressing_mode,
            ) && old(self).spec_operand_addr(*addressing_mode) != 0x4014 ==> final(self).clock
                == old(self).clock,
            *final(self) == (Cpu {
                bus: final(self).bus,
                clock: final(self).clock,
                frame_ready: final(self).frame_ready,
                ..*old(self)
            }),
            old(self).clock.cycles <= final(self).clock.cycles <= old(self).clock.cycles + 514,
            Self::spec_mode_has_operand(*addressing_mode) && old(self).spec_operand_pure(
                *addressing_mode,
            ) && old(self).spec_operand_addr(*addressing_mode) < 0x2000 ==> {
                let addr = old(self).spec_operand_addr(*addressing_mode);
                &&& final(self).clock == old(self).clock
                &&& final(self).bus == (Bus {
                    cpu_memory_map: final(self).bus.cpu_memory_map,
                    ..old(self).bus
                })
                &&& final(self).bus.cpu_memory_map.internal_ram@ == old(self).bus.cpu_memory_map.internal_ram@.update((addr & 0x7FF) as int, old(self).register_x)
            },
    {
        let memory_data: Option<(u16, bool)> = self.get_memory_data(addressing_mode);
        let (memory_pointer, additional_cycle): (u16, bool) = match memory_data {
            Some(data) => data,
            None => vstd::pervasive::unreached(),
        };
        let value: u8 = self.register_x;
        self.write(memory_pointer, value);
    }

    /// STY: stores the Y register. Stores never touch the flags.
    pub fn execute_sty(&mut self, addressing_mode: &AddressingMode)
        requires
            old(self).wf(),
            Self::spec_mode_has_operand(*addressing_mode),
            old(self).clock.cycles + 600 <= usize::MAX,
        ensures
            final(self).wf(),
            old(self).bus.ppu.dot_counter + 1800 <= usize::MAX ==> final(self).bus.ppu.dot_counter == old(self).bus.ppu.dot_counter + 3 * (
            final(self).clock.cycles - old(self).clock.cycles),
            Self::spec_mode_has_operand(*addressing_mode) && old(self).spec_operand_pure(
                *addressing_mode,
            ) && old(self).spec_operand_addr(*addressing_mode) != 0x4014 ==> final(self).clock
                == old(self).clock,
            *final(self) == (Cpu {
                bus: final(self).bus,
                clock: final(self).clock,
                frame_ready: final(self).frame_ready,
                ..*old(self)
            }),
            old(self).clock.cycles <= final(self).clock.cycles <= old(self).clock.cycles + 514,
            Self::spec_mode_has_operand(*addressing_mode) && old(self).spec_operand_pure(
                *addressing_mode,
            ) && old(self).spec_operand_addr(*addressing_mode) < 0x2000 ==> {
                let addr = old(self).spec_operand_addr(*addressing_mode);
                &&& final(self).clock == old(self).clock
                &&& final(self).bus == (Bus {
                    cpu_memory_map: final(self).bus.cpu_memory_map,
                    ..old(self).bus
                })
                &&& final(self).bus.cpu_memory_map.internal_ram@ == old(self).bus.cpu_memory_map.internal_ram@.update((addr & 0x7FF) as int, old(self).register_y)
            },
    {
        let memory_data: Option<(u16, bool)> = self.get_memory_data(addressing_mode);
        let (memory_pointer, additional_cycle): (u16, bool) = match memory_data {
            Some(data) => data,
            None => vstd::pervasive::unreached(),
        };
        let value: u8 = self.register_y;
        self.write(memory_pointer, value);
    }

    /// SAX: stores the accumulator masked with X. Stores never touch the flags.
    pub fn execute_sax(&mut self, addressing_mode: &AddressingMode)
        requires
            old(self).wf(),
            Self::spec_mode_has_operand(*addressing_mode),
            old(self).clock.cycles + 600 <= usize::MAX,
        ensures
            final(self).wf(),
            old(self).bus.ppu.dot_counter + 1800 <= usize::MAX ==> final(self).bus.ppu.dot_counter == old(self).bus.ppu.dot_counter + 3 * (
            final(self).clock.cycles - old(self).clock.cycles),
            Self::spec_mode_has_operand(*addressing_mode) && old(self).spec_operand_pure(
                *addressing_mode,
            ) && old(self).spec_operand_addr(*addressing_mode) != 0x4014 ==> final(self).clock
                == old(self).clock,
            *final(self) == (Cpu {
                bus: final(self).bus,
                clock: final(self).clock,
                frame_ready: final(self).frame_ready,
                ..*old(self)
            }),
            old(self).clock.cycles <= final(self).clock.cycles <= old(self).clock.cycles + 514,
            Self::spec_mode_has_operand(*addressing_mode) && old(self).spec_operand_pure(
                *addressing_mode,
            ) && old(self).spec_operand_addr(*addressing_mode) < 0x2000 ==> {
                let addr = old(self).spec_operand_addr(*addressing_mode);
                &&& final(self).clock == old(self).clock
                &&& final(self).bus == (Bus {
                    cpu_memory_map: final(self).bus.cpu_memory_map,
                    ..old(self).bus
                })
                &&& final(self).bus.cpu_memory_map.internal_ram@ == old(self).bus.cpu_memory_map.internal_ram@.update((addr & 0x7FF) as int, old(self).register_a & old(self).register_x)
            },
    {
        let memory_data: Option<(u16, bool)> = self.get_memory_data(addressing_mode);
        let (memory_pointer, additional_cycle): (u16, bool) = match memory_data {
            Some(data) => data,
            None => vstd::pervasive::unreached(),
        };
        let value: u8 = self.register_a & self.register_x;
        self.write(memory_pointer, value);
    }

    /// LAX: loads the accumulator and X together, refreshing zero and
    /// negative twice along the way as the two loads do.
    pub fn execute_lax(&mut self, addressing_mode: &AddressingMode)
        requires
            old(self).wf(),
            Self::spec_mode_has_operand(*addressing_mode),
        ensures
            final(self).wf(),
            old(self).bus.ppu.dot_counter + 1800 <= usize::MAX ==> final(self).bus.ppu.dot_counter == old(self).bus.ppu.dot_counter + 3 * (
            final(self).clock.cycles - old(self).clock.cycles),
            *final(self) == (Cpu {
                register_a: final(self).register_a,
                register_x: final(self).register_x,
                status: final(self).status,
                bus: final(self).bus,
                ..*old(self)
            }),
            old(self).spec_operand_pure(*addressing_mode) ==> {
                let m = old(self).spec_operand_value(*addressing_mode);
                &&& final(self).register_a == m
                &&& final(self).register_x == m
                &&& final(self).status.value == spec_nz_status(
                    spec_nz_status(old(self).status.value, m),
                    m,
                )
            },
            old(self).spec_data_pure(*addressing_mode) ==> final(self).bus == old(self).bus,
    {
        let memory_data: Option<(u16, bool)> = self.get_memory_data(addressing_mode);
        let (memory_pointer, _): (u16, bool) = match memory_data {
            Some(data) => data,
            None => vstd::pervasive::unreached(),
        };
        let memory_value: u8 = self.read(memory_pointer);
        self.status.set_flag(CpuStatusRegisterFlags::Zero, memory_value == 0);
        self.status.set_flag(CpuStatusRegisterFlags::Negative, memory_value & 0x80 == 0x80);
        self.register_a = memory_value;
        self.status.set_flag(CpuStatusRegisterFlags::Zero, self.register_a == 0);
        self.status.set_flag(CpuStatusRegisterFlags::Negative, self.register_a & 0x80 == 0x80);
        self.register_x = self.register_a;
    }

    /// ASL: shifts left by one bit, into the carry. Works on memory, or on the accumulator when the mode
    /// carries no operand.
    pub fn execute_asl(&mut self, addressing_mode: &AddressingMode)
        requires
            old(self).wf(),
            old(self).clock.cycles + 600 <= usize::MAX,
        ensures
            final(self).wf(),
            old(self).bus.ppu.dot_counter + 1800 <= usize::MAX ==> final(self).bus.ppu.dot_counter == old(self).bus.ppu.dot_counter + 3 * (
            final(self).clock.cycles - old(self).clock.cycles),
            Self::spec_mode_has_operand(*addressing_mode) && old(self).spec_operand_pure(
                *addressing_mode,
            ) && old(self).spec_operand_addr(*addressing_mode) != 0x4014 ==> final(self).clock
                == old(self).clock,
            *final(self) == (Cpu {
                register_a: final(self).register_a,
                status: final(self).status,
                bus: final(self).bus,
                clock: final(self).clock,
                frame_ready: final(self).frame_ready,
                ..*old(self)
            }),
            old(self).clock.cycles <= final(self).clock.cycles <= old(self).clock.cycles + 514,
            !Self::spec_mode_has_operand(*addressing_mode) ==> *final(self) == (Cpu {
                register_a: old(self).register_a << 1,
                status: CpuStatusRegister { value: spec_asl_status(old(self).status.value, old(self).register_a) },
                ..*old(self)
            }),
            Self::spec_mode_has_operand(*addressing_mode) && old(self).spec_operand_pure(
                *addressing_mode,
            ) && old(self).spec_operand_addr(*addressing_mode) < 0x2000 ==> {
                let addr = old(self).spec_operand_addr(*addressing_mode);
                let value = old(self).bus.spec_cpu_peek(addr);
                &&& final(self).register_a == old(self).register_a
                &&& final(self).status.value == spec_asl_status(old(self).status.value, value)
                &&& final(self).clock == old(self).clock
                &&& final(self).bus == (Bus {
                    cpu_memory_map: final(self).bus.cpu_memory_map,
                    ..old(self).bus
                })
                &&& final(self).bus.cpu_memory_map.internal_ram@ == old(self).bus.cpu_memory_map.internal_ram@.update((addr & 0x7FF) as int, value << 1)
            },
    {
        let memory_data: Option<(u16, bool)> = self.get_memory_data(addressing_mode);
        let value: u8 = match memory_data {
            Some((memory_pointer, _)) => self.read(memory_pointer),
            None => self.register_a,
        };
        let result: u8 = value << 1;
        self.status.set_flag(CpuStatusRegisterFlags::Carry, value & 0x80 == 0x80);
        self.status.set_flag(CpuStatusRegisterFlags::Zero, result == 0);
        self.status.set_flag(CpuStatusRegisterFlags::Negative, result & 0x80 == 0x80);
        match memory_data {
            Some((memory_pointer, _)) => self.write(memory_pointer, result),
            None => self.register_a = result,
        }
    }

    /// LSR: shifts right by one bit, into the carry. Works on memory, or on the accumulator when the mode
    /// carries no operand.
    pub fn execute_lsr(&mut self, addressing_mode: &AddressingMode)
        requires
            old(self).wf(),
            old(self).clock.cycles + 600 <= usize::MAX,
        ensures
            final(self).wf(),
            old(self).bus.ppu.dot_counter + 1800 <= usize::MAX ==> final(self).bus.ppu.dot_counter == old(self).bus.ppu.dot_counter + 3 * (
            final(self).clock.cycles - old(self).clock.cycles),
            Self::spec_mode_has_operand(*addressing_mode) && old(self).spec_operand_pure(
                *addressing_mode,
            ) && old(self).spec_operand_addr(*addressing_mode) != 0x4014 ==> final(self).clock
                == old(self).clock,
            *final(self) == (Cpu {
                register_a: final(self).register_a,
                status: final(self).status,
                bus: final(self).bus,
                clock: final(self).clock,
                frame_ready: final(self).frame_ready,
                ..*old(self)
            }),
            old(self).clock.cycles <= final(self).clock.cycles <= old(self).clock.cycles + 514,
            !Self::spec_mode_has_operand(*addressing_mode) ==> *final(self) == (Cpu {
                register_a: old(self).register_a >> 1,
                status: CpuStatusRegister { value: spec_lsr_status(old(self).status.value, old(self).register_a) },
                ..*old(self)
            }),
            Self::spec_mode_has_operand(*addressing_mode) && old(self).spec_operand_pure(
                *addressing_mode,
            ) && old(self).spec_operand_addr(*addressing_mode) < 0x2000 ==> {
                let addr = old(self).spec_operand_addr(*addressing_mode);
                let value = old(self).bus.spec_cpu_peek(addr);
                &&& final(self).register_a == old(self).register_a
                &&& final(self).status.value == spec_lsr_status(old(self).status.value, value)
                &&& final(self).clock == old(self).clock
                &&& final(self).bus == (Bus {
                    cpu_memory_map: final(self).bus.cpu_memory_map,
                    ..old(self).bus
                })
                &&& final(self).bus.cpu_memory_map.internal_ram@ == old(self).bus.cpu_memory_map.internal_ram@.update((addr & 0x7FF) as int, value >> 1)
            },
    {
        let memory_data: Option<(u16, bool)> = self.get_memory_data(addressing_mode);
        let value: u8 = match memory_data {
            Some((memory_pointer, _)) => self.read(memory_pointer),
            None => self.register_a,
        };
        let result: u8 = value >> 1;
        self.status.set_flag(CpuStatusRegisterFlags::Carry, value & 0x1 == 0x1);
        self.status.set_flag(CpuStatusRegisterFlags::Zero, result == 0);
        self.status.set_flag(CpuStatusRegisterFlags::Negative, result & 0x80 == 0x80);
        match memory_data {
            Some((memory_pointer, _)) => self.write(memory_pointer, result),
            None => self.register_a = result,
        }
    }

    /// ROL: rotates left through the carry, on memory or on the
    /// accumulator when the mode carries no operand. Carry takes the
    /// outgoing high bit; zero and negative come from the result.
    pub fn execute_rol(&mut self, addressing_mode: &AddressingMode)
        requires
            old(self).wf(),
            old(self).clock.cycles + 600 <= usize::MAX,
        ensures
            final(self).wf(),
            old(self).bus.ppu.dot_counter + 1800 <= usize::MAX ==> final(self).bus.ppu.dot_counter == old(self).bus.ppu.dot_counter + 3 * (
            final(self).clock.cycles - old(self).clock.cycles),
            Self::spec_mode_has_operand(*addressing_mode) && old(self).spec_operand_pure(
                *addressing_mode,
            ) && old(self).spec_operand_addr(*addressing_mode) != 0x4014 ==> final(self).clock
                == old(self).clock,
            *final(self) == (Cpu {
                register_a: final(self).register_a,
                status: final(self).status,
                bus: final(self).bus,
                clock: final(self).clock,
                frame_ready: final(self).frame_ready,
                ..*old(self)
            }),
            old(self).clock.cycles <= final(self).clock.cycles <= old(self).clock.cycles + 514,
            !Self::spec_mode_has_operand(*addressing_mode) ==> *final(self) == (Cpu {
                register_a: spec_rol_result(
                    old(self).register_a,
                    spec_flag_set(old(self).status.value, CpuStatusRegisterFlags::Carry),
                ),
                status: CpuStatusRegister {
                    value: spec_rol_status(
                        old(self).status.value,
                        old(self).register_a,
                        spec_flag_set(old(self).status.value, CpuStatusRegisterFlags::Carry),
                    ),
                },
                ..*old(self)
            }),
            Self::spec_mode_has_operand(*addressing_mode) && old(self).spec_operand_pure(
                *addressing_mode,
            ) && old(self).spec_operand_addr(*addressing_mode) < 0x2000 ==> {
                let addr = old(self).spec_operand_addr(*addressing_mode);
                let value = old(self).bus.spec_cpu_peek(addr);
                let carry = spec_flag_set(old(self).status.value, CpuStatusRegisterFlags::Carry);
                &&& final(self).register_a == old(self).register_a
                &&& final(self).status.value == spec_rol_status(
                    old(self).status.value,
                    value,
                    carry,
                )
                &&& final(self).clock == old(self).clock
                &&& final(self).bus == (Bus {
                    cpu_memory_map: final(self).bus.cpu_memory_map,
                    ..old(self).bus
                })
                &&& final(self).bus.cpu_memory_map.internal_ram@ == old(self).bus.cpu_memory_map.internal_ram@.update(
                    (addr & 0x7FF) as int,
                    spec_rol_result(value, carry),
                )
            },
    {
        let memory_data: Option<(u16, bool)> = self.get_memory_data(addressing_mode);
        let value: u8 = match memory_data {
            Some((memory_pointer, _)) => self.read(memory_pointer),
            None => self.register_a,
        };
        let carry_flag: bool = self.status.get_flag(CpuStatusRegisterFlags::Carry);
        let rotated: u8 = (value << 1) | (value >> 7);
        let result: u8 = if carry_flag {
            rotated | 0x1
        } else {
            rotated & !0x1
        };
        self.status.set_flag(CpuStatusRegisterFlags::Carry, value & 0x80 == 0x80);
        self.status.set_flag(CpuStatusRegisterFlags::Zero, result == 0);
        self.status.set_flag(CpuStatusRegisterFlags::Negative, result & 0x80 == 0x80);
        match memory_data {
            Some((memory_pointer, _)) => self.write(memory_pointer, result),
            None => self.register_a = result,
        }
    }

    /// ROR: rotates right through the carry, on memory or on the
    /// accumulator when the mode carries no operand. Carry takes the
    /// outgoing low bit; zero and negative come from the result.
    pub fn execute_ror(&mut self, addressing_mode: &AddressingMode)
        requires
            old(self).wf(),
            old(self).clock.cycles + 600 <= usize::MAX,
        ensures
            final(self).wf(),
            old(self).bus.ppu.dot_counter + 1800 <= usize::MAX ==> final(self).bus.ppu.dot_counter == old(self).bus.ppu.dot_counter + 3 * (
            final(self).clock.cycles - old(self).clock.cycles),
            Self::spec_mode_has_operand(*addressing_mode) && old(self).spec_operand_pure(
                *addressing_mode,
            ) && old(self).spec_operand_addr(*addressing_mode) != 0x4014 ==> final(self).clock
                == old(self).clock,
            *final(self) == (Cpu {
                register_a: final(self).register_a,
                status: final(self).status,
                bus: final(self).bus,
                clock: final(self).clock,
                frame_ready: final(self).frame_ready,
                ..*old(self)
            }),
            old(self).clock.cycles <= final(self).clock.cycles <= old(self).clock.cycles + 514,
            !Self::spec_mode_has_operand(*addressing_mode) ==> *final(self) == (Cpu {
                register_a: spec_ror_result(
                    old(self).register_a,
                    spec_flag_set(old(self).status.value, CpuStatusRegisterFlags::Carry),
                ),
                status: CpuStatusRegister {
                    value: spec_ror_status(
                        old(self).status.value,
                        old(self).register_a,
                        spec_flag_set(old(self).status.value, CpuStatusRegisterFlags::Carry),
                    ),
                },
                ..*old(self)
            }),
            Self::spec_mode_has_operand(*addressing_mode) && old(self).spec_operand_pure(
                *addressing_mode,
            ) && old(self).spec_operand_addr(*addressing_mode) < 0x2000 ==> {
                let addr = old(self).spec_operand_addr(*addressing_mode);
                let value = old(self).bus.spec_cpu_peek(addr);
                let carry = spec_flag_set(old(self).status.value, CpuStatusRegisterFlags::Carry);
                &&& final(self).register_a == old(self).register_a
                &&& final(self).status.value == spec_ror_status(
                    old(self).status.value,
                    value,
                    carry,
                )
                &&& final(self).clock == old(self).clock
                &&& final(self).bus == (Bus {
                    cpu_memory_map: final(self).bus.cpu_memory_map,
                    ..old(self).bus
                })
                &&& final(self).bus.cpu_memory_map.internal_ram@ == old(self).bus.cpu_memory_map.internal_ram@.update(
                    (addr & 0x7FF) as int,
                    spec_ror_result(value, carry),
                )
            },
    {
        let memory_data: Option<(u16, bool)> = self.get_memory_data(addressing_mode);
        let value: u8 = match memory_data {
            Some((memory_pointer, _)) => self.read(memory_pointer),
            None => self.register_a,
        };
        let carry_flag: bool = self.status.get_flag(CpuStatusRegisterFlags::Carry);
        let rotated: u8 = (value >> 1) | (value << 7);
        let result: u8 = if carry_flag {
            rotated | 0x80
        } else {
            rotated & !0x80
        };
        self.status.set_flag(CpuStatusRegisterFlags::Carry, value & 0x1 == 0x1);
        self.status.set_flag(CpuStatusRegisterFlags::Zero, result == 0);
        self.status.set_flag(CpuStatusRegisterFlags::Negative, result & 0x80 == 0x80);
        match memory_data {
            Some((memory_pointer, _)) => self.write(memory_pointer, result),
            None => self.register_a = result,
        }
    }
    /// INC: increments a memory cell. Refreshes zero and negative from the result.
    pub fn execute_inc(&mut self, addressing_mode: &AddressingMode)
        requires
            old(self).wf(),
            Self::spec_mode_has_operand(*addressing_mode),
            old(self).clock.cycles + 600 <= usize::MAX,
        ensures
            final(self).wf(),
            old(self).bus.ppu.dot_counter + 1800 <= usize::MAX ==> final(self).bus.ppu.dot_counter == old(self).bus.ppu.dot_counter + 3 * (
            final(self).clock.cycles - old(self).clock.cycles),
            Self::spec_mode_has_operand(*addressing_mode) && old(self).spec_operand_pure(
                *addressing_mode,
            ) && old(self).spec_operand_addr(*addressing_mode) != 0x4014 ==> final(self).clock
                == old(self).clock,
            *final(self) == (Cpu {
                status: final(self).status,
                bus: final(self).bus,
                clock: final(self).clock,
                frame_ready: final(self).frame_ready,
                ..*old(self)
            }),
            old(self).clock.cycles <= final(self).clock.cycles <= old(self).clock.cycles + 514,
            Self::spec_mode_has_operand(*addressing_mode) && old(self).spec_operand_pure(
                *addressing_mode,
            ) && old(self).spec_operand_addr(*addressing_mode) < 0x2000 ==> {
                let addr = old(self).spec_operand_addr(*addressing_mode);
                let result = u8_specs::wrapping_add(old(self).bus.spec_cpu_peek(addr), 1);
                &&& final(self).status.value == spec_nz_status(old(self).status.value, result)
                &&& final(self).clock == old(self).clock
                &&& final(self).bus == (Bus {
                    cpu_memory_map: final(self).bus.cpu_memory_map,
                    ..old(self).bus
                })
                &&& final(self).bus.cpu_memory_map.internal_ram@ == old(self).bus.cpu_memory_map.internal_ram@.update((addr & 0x7FF) as int, result)
            },
    {
        let memory_data: Option<(u16, bool)> = self.get_memory_data(addressing_mode);
        let (memory_pointer, additional_cycle): (u16, bool) = match memory_data {
            Some(data) => data,
            None => vstd::pervasive::unreached(),
        };
        let memory_value: u8 = self.read(memory_pointer);
        let result: u8 = memory_value.wrapping_add(1);
        self.status.set_flag(CpuStatusRegisterFlags::Zero, result == 0);
        self.status.set_flag(CpuStatusRegisterFlags::Negative, result & 0x80 == 0x80);
        self.write(memory_pointer, result);
    }

    /// DEC: decrements a memory cell. Refreshes zero and negative from the result.
    pub fn execute_dec(&mut self, addressing_mode: &AddressingMode)
        requires
            old(self).wf(),
            Self::spec_mode_has_operand(*addressing_mode),
            old(self).clock.cycles + 600 <= usize::MAX,
        ensures
            final(self).wf(),
            old(self).bus.ppu.dot_counter + 1800 <= usize::MAX ==> final(self).bus.ppu.dot_counter == old(self).bus.ppu.dot_counter + 3 * (
            final(self).clock.cycles - old(self).clock.cycles),
            Self::spec_mode_has_operand(*addressing_mode) && old(self).spec_operand_pure(
                *addressing_mode,
            ) && old(self).spec_operand_addr(*addressing_mode) != 0x4014 ==> final(self).clock
                == old(self).clock,
            *final(self) == (Cpu {
                status: final(self).status,
                bus: final(self).bus,
                clock: final(self).clock,
                frame_ready: final(self).frame_ready,
                ..*old(self)
            }),
            old(self).clock.cycles <= final(self).clock.cycles <= old(self).clock.cycles + 514,
            Self::spec_mode_has_operand(*addressing_mode) && old(self).spec_operand_pure(
                *addressing_mode,
            ) && old(self).spec_operand_addr(*addressing_mode) < 0x2000 ==> {
                let addr = old(self).spec_operand_addr(*addressing_mode);
                let result = u8_specs::wrapping_sub(old(self).bus.spec_cpu_peek(addr), 1);
                &&& final(self).status.value == spec_nz_status(old(self).status.value, result)
                &&& final(self).clock == old(self).clock
                &&& final(self).bus == (Bus {
                    cpu_memory_map: final(self).bus.cpu_memory_map,
                    ..old(self).bus
                })
                &&& final(self).bus.cpu_memory_map.internal_ram@ == old(self).bus.cpu_memory_map.internal_ram@.update((addr & 0x7FF) as int, result)
            },
    {
        let memory_data: Option<(u16, bool)> = self.get_memory_data(addressing_mode);
        let (memory_pointer, additional_cycle): (u16, bool) = match memory_data {
            Some(data) => data,
            None => vstd::pervasive::unreached(),
        };
        let memory_value: u8 = self.read(memory_pointer);
        let result: u8 = memory_value.wrapping_sub(1);
        self.status.set_flag(CpuStatusRegisterFlags::Zero, result == 0);
        self.status.set_flag(CpuStatusRegisterFlags::Negative, result & 0x80 == 0x80);
        self.write(memory_pointer, result);
    }

    /// BIT: tests the accumulator against memory; zero from the mask,
    /// overflow and negative copied from the operand.
    pub fn execute_bit(&mut self, addressing_mode: &AddressingMode)
        requires
            old(self).wf(),
            Self::spec_mode_has_operand(*addressing_mode),
        ensures
            final(self).wf(),
            old(self).bus.ppu.dot_counter + 1800 <= usize::MAX ==> final(self).bus.ppu.dot_counter == old(self).bus.ppu.dot_counter + 3 * (
            final(self).clock.cycles - old(self).clock.cycles),
            *final(self) == (Cpu {
                status: final(self).status,
                bus: final(self).bus,
                ..*old(self)
            }),
            old(self).spec_operand_pure(*addressing_mode) ==> final(self).status.value
                == spec_bit_status(
                old(self).status.value,
                old(self).register_a,
                old(self).spec_operand_value(*addressing_mode),
            ),
            old(self).spec_data_pure(*addressing_mode) ==> final(self).bus == old(self).bus,
    {
        let memory_data: Option<(u16, bool)> = self.get_memory_data(addressing_mode);
        let (memory_pointer, _): (u16, bool) = match memory_data {
            Some(data) => data,
            None => vstd::pervasive::unreached(),
        };
        let memory_value: u8 = self.read(memory_pointer);
        let result: u8 = self.register_a & memory_value;
        self.status.set_flag(CpuStatusRegisterFlags::Zero, result == 0);
        self.status.set_flag(CpuStatusRegisterFlags::Overflow, memory_value & 0x40 == 0x40);
        self.status.set_flag(CpuStatusRegisterFlags::Negative, memory_value & 0x80 == 0x80);
    }

    /// ADC: nine-bit binary addition of the operand and carry into the
    /// accumulator; decimal mode is ignored.
    pub fn execute_adc(&mut self, addressing_mode: &AddressingMode)
        requires
            old(self).wf(),
            Self::spec_mode_has_operand(*addressing_mode),
            old(self).clock.cycles + 600 <= usize::MAX,
        ensures
            final(self).wf(),
            old(self).bus.ppu.dot_counter + 1800 <= usize::MAX ==> final(self).bus.ppu.dot_counter == old(self).bus.ppu.dot_counter + 3 * (
            final(self).clock.cycles - old(self).clock.cycles),
            *final(self) == (Cpu {
                register_a: final(self).register_a,
                status: final(self).status,
                bus: final(self).bus,
                clock: final(self).clock,
                frame_ready: final(self).frame_ready,
                ..*old(self)
            }),
            old(self).clock.cycles <= final(self).clock.cycles <= old(self).clock.cycles + 1,
            old(self).spec_operand_pure(*addressing_mode) ==> {
                let m = old(self).spec_operand_value(*addressing_mode);
                let c = spec_flag_set(old(self).status.value, CpuStatusRegisterFlags::Carry);
                &&& final(self).register_a == spec_add_result(old(self).register_a, m, c)
                &&& final(self).status.value == spec_add_status(
                    old(self).status.value,
                    old(self).register_a,
                    m,
                    c,
                )
                &&& final(self).clock.cycles == old(self).clock.cycles + old(self).spec_extra_cycles(*addressing_mode)
            },
            old(self).spec_data_pure(*addressing_mode) ==> old(self).spec_bus_ticked(
                final(self).bus,
            ),
    {
        let memory_data: Option<(u16, bool)> = self.get_memory_data(addressing_mode);
        let (memory_pointer, additional_cycle): (u16, bool) = match memory_data {
            Some(data) => data,
            None => vstd::pervasive::unreached(),
        };
        let a: u16 = self.register_a as u16;
        let m: u16 = self.read(memory_pointer) as u16;
        let c: u16 = if self.status.get_flag(CpuStatusRegisterFlags::Carry) {
            1u16
        } else {
            0u16
        };
        let result: u16 = a + m + c;
        let overflow: bool = (a ^ result) & !(a ^ m) & 0x80 == 0x80;
        self.status.set_flag(CpuStatusRegisterFlags::Carry, result > 255);
        self.status.set_flag(CpuStatusRegisterFlags::Negative, result as u8 & 0x80 == 0x80);
        self.status.set_flag(CpuStatusRegisterFlags::Zero, result as u8 == 0);
        self.status.set_flag(CpuStatusRegisterFlags::Overflow, overflow);
        self.register_a = result as u8;
        if additional_cycle {
            self.tick(1);
        }
    }

    /// SBC: subtraction as addition of the operand's ones complement.
    pub fn execute_sbc(&mut self, addressing_mode: &AddressingMode)
        requires
            old(self).wf(),
            Self::spec_mode_has_operand(*addressing_mode),
            old(self).clock.cycles + 600 <= usize::MAX,
        ensures
            final(self).wf(),
            old(self).bus.ppu.dot_counter + 1800 <= usize::MAX ==> final(self).bus.ppu.dot_counter == old(self).bus.ppu.dot_counter + 3 * (
            final(self).clock.cycles - old(self).clock.cycles),
            *final(self) == (Cpu {
                register_a: final(self).register_a,
                status: final(self).status,
                bus: final(self).bus,
                clock: final(self).clock,
                frame_ready: final(self).frame_ready,
                ..*old(self)
            }),
            old(self).clock.cycles <= final(self).clock.cycles <= old(self).clock.cycles + 1,
            old(self).spec_operand_pure(*addressing_mode) ==> {
                let m = old(self).spec_operand_value(*addressing_mode) ^ 0xFF;
                let c = spec_flag_set(old(self).status.value, CpuStatusRegisterFlags::Carry);
                &&& final(self).register_a == spec_add_result(old(self).register_a, m, c)
                &&& final(self).status.value == spec_add_status(
                    old(self).status.value,
                    old(self).register_a,
                    m,
                    c,
                )
                &&& final(self).clock.cycles == old(self).clock.cycles + old(self).spec_extra_cycles(*addressing_mode)
            },
            old(self).spec_data_pure(*addressing_mode) ==> old(self).spec_bus_ticked(
                final(self).bus,
            ),
    {
        let memory_data: Option<(u16, bool)> = self.get_memory_data(addressing_mode);
        let (memory_pointer, additional_cycle): (u16, bool) = match memory_data {
            Some(data) => data,
            None => vstd::pervasive::unreached(),
        };
        let a: u16 = self.register_a as u16;
        let complemented: u8 = self.read(memory_pointer) ^ 0xFF;
        let m: u16 = complemented as u16;
        let c: u16 = if self.status.get_flag(CpuStatusRegisterFlags::Carry) {
            1u16
        } else {
            0u16
        };
        let result: u16 = a + m + c;
        let overflow: bool = (a ^ result) & !(a ^ m) & 0x80 == 0x80;
        self.status.set_flag(CpuStatusRegisterFlags::Carry, result > 255);
        self.status.set_flag(CpuStatusRegisterFlags::Negative, result as u8 & 0x80 == 0x80);
        self.status.set_flag(CpuStatusRegisterFlags::Zero, result as u8 == 0);
        self.status.set_flag(CpuStatusRegisterFlags::Overflow, overflow);
        self.register_a = result as u8;
        if additional_cycle {
            self.tick(1);
        }
    }

    /// AND: bitwise conjunction into the accumulator. Refreshes zero and negative.
    pub fn execute_and(&mut self, addressing_mode: &AddressingMode)
        requires
            old(self).wf(),
            Self::spec_mode_has_operand(*addressing_mode),
            old(self).clock.cycles + 600 <= usize::MAX,
        ensures
            final(self).wf(),
            old(self).bus.ppu.dot_counter + 1800 <= usize::MAX ==> final(self).bus.ppu.dot_counter == old(self).bus.ppu.dot_counter + 3 * (
            final(self).clock.cycles - old(self).clock.cycles),
            *final(self) == (Cpu {
                register_a: final(self).register_a,
                status: final(self).status,
                bus: final(self).bus,
                clock: final(self).clock,
                frame_ready: final(self).frame_ready,
                ..*old(self)
            }),
            old(self).clock.cycles <= final(self).clock.cycles <= old(self).clock.cycles + 1,
            old(self).spec_operand_pure(*addressing_mode) ==> {
                let result = old(self).register_a & old(self).spec_operand_value(
                    *addressing_mode,
                );
                &&& final(self).register_a == result
                &&& final(self).status.value == spec_nz_status(old(self).status.value, result)
                &&& final(self).clock.cycles == old(self).clock.cycles + old(self).spec_extra_cycles(*addressing_mode)
            },
            old(self).spec_data_pure(*addressing_mode) ==> old(self).spec_bus_ticked(
                final(self).bus,
            ),
    {
        let memory_data: Option<(u16, bool)> = self.get_memory_data(addressing_mode);
        let (memory_pointer, additional_cycle): (u16, bool) = match memory_data {
            Some(data) => data,
            None => vstd::pervasive::unreached(),
        };
        let result: u8 = self.register_a & self.read(memory_pointer);
        self.status.set_flag(CpuStatusRegisterFlags::Zero, result == 0);
        self.status.set_flag(CpuStatusRegisterFlags::Negative, result & 0x80 == 0x80);
        self.register_a = result;
        if additional_cycle {
            self.tick(1);
        }
    }

    /// ORA: bitwise disjunction into the accumulator. Refreshes zero and negative.
    pub fn execute_ora(&mut self, addressing_mode: &AddressingMode)
        requires
            old(self).wf(),
            Self::spec_mode_has_operand(*addressing_mode),
            old(self).clock.cycles + 600 <= usize::MAX,
        ensures
            final(self).wf(),
            old(self).bus.ppu.dot_counter + 1800 <= usize::MAX ==> final(self).bus.ppu.dot_counter == old(self).bus.ppu.dot_counter + 3 * (
            final(self).clock.cycles - old(self).clock.cycles),
            *final(self) == (Cpu {
                register_a: final(self).register_a,
                status: final(self).status,
                bus: final(self).bus,
                clock: final(self).clock,
                frame_ready: final(self).frame_ready,
                ..*old(self)
            }),
            old(self).clock.cycles <= final(self).clock.cycles <= old(self).clock.cycles + 1,
            old(self).spec_operand_pure(*addressing_mode) ==> {
                let result = old(self).register_a | old(self).spec_operand_value(
                    *addressing_mode,
                );
                &&& final(self).register_a == result
                &&& final(self).status.value == spec_nz_status(old(self).status.value, result)
                &&& final(self).clock.cycles == old(self).clock.cycles + old(self).spec_extra_cycles(*addressing_mode)
            },
            old(self).spec_data_pure(*addressing_mode) ==> old(self).spec_bus_ticked(
                final(self).bus,
            ),
    {
        let memory_data: Option<(u16, bool)> = self.get_memory_data(addressing_mode);
        let (memory_pointer, additional_cycle): (u16, bool) = match memory_data {
            Some(data) => data,
            None => vstd::pervasive::unreached(),
        };
        let result: u8 = self.register_a | self.read(memory_pointer);
        self.status.set_flag(CpuStatusRegisterFlags::Zero, result == 0);
        self.status.set_flag(CpuStatusRegisterFlags::Negative, result & 0x80 == 0x80);
        self.register_a = result;
        if additional_cycle {
            self.tick(1);
        }
    }

    /// EOR: bitwise exclusive or into the accumulator. Refreshes zero and negative.
    pub fn execute_eor(&mut self, addressing_mode: &AddressingMode)
        requires
            old(self).wf(),
            Self::spec_mode_has_operand(*addressing_mode),
            old(self).clock.cycles + 600 <= usize::MAX,
        ensures
            final(self).wf(),
            old(self).bus.ppu.dot_counter + 1800 <= usize::MAX ==> final(self).bus.ppu.dot_counter == old(self).bus.ppu.dot_counter + 3 * (
            final(self).clock.cycles - old(self).clock.cycles),
            *final(self) == (Cpu {
                register_a: final(self).register_a,
                status: final(self).status,
                bus: final(self).bus,
                clock: final(self).clock,
                frame_ready: final(self).frame_ready,
                ..*old(self)
            }),
            old(self).clock.cycles <= final(self).clock.cycles <= old(self).clock.cycles + 1,
            old(self).spec_operand_pure(*addressing_mode) ==> {
                let result = old(self).register_a ^ old(self).spec_operand_value(
                    *addressing_mode,
                );
                &&& final(self).register_a == result
                &&& final(self).status.value == spec_nz_status(old(self).status.value, result)
                &&& final(self).clock.cycles == old(self).clock.cycles + old(self).spec_extra_cycles(*addressing_mode)
            },
            old(self).spec_data_pure(*addressing_mode) ==> old(self).spec_bus_ticked(
                final(self).bus,
            ),
    {
        let memory_data: Option<(u16, bool)> = self.get_memory_data(addressing_mode);
        let (memory_pointer, additional_cycle): (u16, bool) = match memory_data {
            Some(data) => data,
            None => vstd::pervasive::unreached(),
        };
        let result: u8 = self.register_a ^ self.read(memory_pointer);
        self.status.set_flag(CpuStatusRegisterFlags::Zero, result == 0);
        self.status.set_flag(CpuStatusRegisterFlags::Negative, result & 0x80 == 0x80);
        self.register_a = result;
        if additional_cycle {
            self.tick(1);
        }
    }

    /// LDA: loads the accumulator. Refreshes zero and negative; indexed reads that cross a
    /// page pay one extra cycle.
    pub fn execute_lda(&mut self, addressing_mode: &AddressingMode)
        requires
            old(self).wf(),
            Self::spec_mode_has_operand(*addressing_mode),
            old(self).clock.cycles + 600 <= usize::MAX,
        ensures
            final(self).wf(),
            old(self).bus.ppu.dot_counter + 1800 <= usize::MAX ==> final(self).bus.ppu.dot_counter == old(self).bus.ppu.dot_counter + 3 * (
            final(self).clock.cycles - old(self).clock.cycles),
            *final(self) == (Cpu {
                register_a: final(self).register_a,
                status: final(self).status,
                bus: final(self).bus,
                clock: final(self).clock,
                frame_ready: final(self).frame_ready,
                ..*old(self)
            }),
            old(self).clock.cycles <= final(self).clock.cycles <= old(self).clock.cycles + 1,
            old(self).spec_operand_pure(*addressing_mode) ==> {
                let m = old(self).spec_operand_value(*addressing_mode);
                &&& final(self).register_a == m
                &&& final(self).status.value == spec_nz_status(old(self).status.value, m)
                &&& final(self).clock.cycles == old(self).clock.cycles + old(self).spec_extra_cycles(*addressing_mode)
            },
            old(self).spec_data_pure(*addressing_mode) ==> old(self).spec_bus_ticked(
                final(self).bus,
            ),
    {
        let memory_data: Option<(u16, bool)> = self.get_memory_data(addressing_mode);
        let (memory_pointer, additional_cycle): (u16, bool) = match memory_data {
            Some(data) => data,
            None => vstd::pervasive::unreached(),
        };
        let memory_value: u8 = self.read(memory_pointer);
        self.status.set_flag(CpuStatusRegisterFlags::Zero, memory_value == 0);
        self.status.set_flag(CpuStatusRegisterFlags::Negative, memory_value & 0x80 == 0x80);
        self.register_a = memory_value;
        if additional_cycle {
            self.tick(1);
        }
    }

    /// LDX: loads the X index register. Refreshes zero and negative; indexed reads that cross a
    /// page pay one extra cycle.
    pub fn execute_ldx(&mut self, addressing_mode: &AddressingMode)
        requires
            old(self).wf(),
            Self::spec_mode_has_operand(*addressing_mode),
            old(self).clock.cycles + 600 <= usize::MAX,
        ensures
            final(self).wf(),
            old(self).bus.ppu.dot_counter + 1800 <= usize::MAX ==> final(self).bus.ppu.dot_counter == old(self).bus.ppu.dot_counter + 3 * (
            final(self).clock.cycles - old(self).clock.cycles),
            *final(self) == (Cpu {
                register_x: final(self).register_x,
                status: final(self).status,
                bus: final(self).bus,
                clock: final(self).clock,
                frame_ready: final(self).frame_ready,
                ..*old(self)
            }),
            old(self).clock.cycles <= final(self).clock.cycles <= old(self).clock.cycles + 1,
            old(self).spec_operand_pure(*addressing_mode) ==> {
                let m = old(self).spec_operand_value(*addressing_mode);
                &&& final(self).register_x == m
                &&& final(self).status.value == spec_nz_status(old(self).status.value, m)
                &&& final(self).clock.cycles == old(self).clock.cycles + old(self).spec_extra_cycles(*addressing_mode)
            },
            old(self).spec_data_pure(*addressing_mode) ==> old(self).spec_bus_ticked(
                final(self).bus,
            ),
    {
        let memory_data: Option<(u16, bool)> = self.get_memory_data(addressing_mode);
        let (memory_pointer, additional_cycle): (u16, bool) = match memory_data {
            Some(data) => data,
            None => vstd::pervasive::unreached(),
        };
        let memory_value: u8 = self.read(memory_pointer);
        self.status.set_flag(CpuStatusRegisterFlags::Zero, memory_value == 0);
        self.status.set_flag(CpuStatusRegisterFlags::Negative, memory_value & 0x80 == 0x80);
        self.register_x = memory_value;
        if additional_cycle {
            self.tick(1);
        }
    }

    /// LDY: loads the Y index register. Refreshes zero and negative; indexed reads that cross a
    /// page pay one extra cycle.
    pub fn execute_ldy(&mut self, addressing_mode: &AddressingMode)
        requires
            old(self).wf(),
            Self::spec_mode_has_operand(*addressing_mode),
            old(self).clock.cycles + 600 <= usize::MAX,
        ensures
            final(self).wf(),
            old(self).bus.ppu.dot_counter + 1800 <= usize::MAX ==> final(self).bus.ppu.dot_counter == old(self).bus.ppu.dot_counter + 3 * (
            final(self).clock.cycles - old(self).clock.cycles),
            *final(self) == (Cpu {
                register_y: final(self).register_y,
                status: final(self).status,
                bus: final(self).bus,
                clock: final(self).clock,
                frame_ready: final(self).frame_ready,
                ..*old(self)
            }),
            old(self).clock.cycles <= final(self).clock.cycles <= old(self).clock.cycles + 1,
            old(self).spec_operand_pure(*addressing_mode) ==> {
                let m = old(self).spec_operand_value(*addressing_mode);
                &&& final(self).register_y == m
                &&& final(self).status.value == spec_nz_status(old(self).status.value, m)
                &&& final(self).clock.cycles == old(self).clock.cycles + old(self).spec_extra_cycles(*addressing_mode)
            },
            old(self).spec_data_pure(*addressing_mode) ==> old(self).spec_bus_ticked(
                final(self).bus,
            ),
    {
        let memory_data: Option<(u16, bool)> = self.get_memory_data(addressing_mode);
        let (memory_pointer, additional_cycle): (u16, bool) = match memory_data {
            Some(data) => data,
            None => vstd::pervasive::unreached(),
        };
        let memory_value: u8 = self.read(memory_pointer);
        self.status.set_flag(CpuStatusRegisterFlags::Zero, memory_value == 0);
        self.status.set_flag(CpuStatusRegisterFlags::Negative, memory_value & 0x80 == 0x80);
        self.register_y = memory_value;
        if additional_cycle {
            self.tick(1);
        }
    }

    /// The shared compare step: the nine-bit difference of a register
    /// and the operand sets carry, zero and negative.
    fn compare(&mut self, addressing_mode: &AddressingMode, register_value: u8)
        requires
            old(self).wf(),
            Self::spec_mode_has_operand(*addressing_mode),
            old(self).clock.cycles + 600 <= usize::MAX,
        ensures
            final(self).wf(),
            old(self).bus.ppu.dot_counter + 1800 <= usize::MAX ==> final(self).bus.ppu.dot_counter == old(self).bus.ppu.dot_counter + 3 * (
            final(self).clock.cycles - old(self).clock.cycles),
            *final(self) == (Cpu {
                status: final(self).status,
                bus: final(self).bus,
                clock: final(self).clock,
                frame_ready: final(self).frame_ready,
                ..*old(self)
            }),
            old(self).clock.cycles <= final(self).clock.cycles <= old(self).clock.cycles + 1,
            old(self).spec_operand_pure(*addressing_mode) ==> final(self).status.value
                == spec_compare_status(
                old(self).status.value,
                register_value,
                old(self).spec_operand_value(*addressing_mode),
            ) && final(self).clock.cycles == old(self).clock.cycles + old(self).spec_extra_cycles(
                *addressing_mode,
            ),
            old(self).spec_data_pure(*addressing_mode) ==> old(self).spec_bus_ticked(
                final(self).bus,
            ),
    {
        let memory_data: Option<(u16, bool)> = self.get_memory_data(addressing_mode);
        let (memory_pointer, additional_cycle): (u16, bool) = match memory_data {
            Some(data) => data,
            None => vstd::pervasive::unreached(),
        };
        let memory_value: u8 = self.read(memory_pointer);
        let result: u8 = register_value.wrapping_sub(memory_value);
        self.status.set_flag(CpuStatusRegisterFlags::Carry, register_value >= memory_value);
        self.status.set_flag(CpuStatusRegisterFlags::Zero, result == 0);
        self.status.set_flag(CpuStatusRegisterFlags::Negative, result & 0x80 == 0x80);
        if additional_cycle {
            self.tick(1);
        }
    }

    /// CMP: compares the accumulator with the operand.
    pub fn execute_cmp(&mut self, addressing_mode: &AddressingMode)
        requires
            old(self).wf(),
            Self::spec_mode_has_operand(*addressing_mode),
            old(self).clock.cycles + 600 <= usize::MAX,
        ensures
            final(self).wf(),
            old(self).bus.ppu.dot_counter + 1800 <= usize::MAX ==> final(self).bus.ppu.dot_counter == old(self).bus.ppu.dot_counter + 3 * (
            final(self).clock.cycles - old(self).clock.cycles),
            *final(self) == (Cpu {
                status: final(self).status,
                bus: final(self).bus,
                clock: final(self).clock,
                frame_ready: final(self).frame_ready,
                ..*old(self)
            }),
            old(self).clock.cycles <= final(self).clock.cycles <= old(self).clock.cycles + 1,
            old(self).spec_operand_pure(*addressing_mode) ==> final(self).status.value
                == spec_compare_status(
                old(self).status.value,
                old(self).register_a,
                old(self).spec_operand_value(*addressing_mode),
            ) && final(self).clock.cycles == old(self).clock.cycles + old(self).spec_extra_cycles(
                *addressing_mode,
            ),
            old(self).spec_data_pure(*addressing_mode) ==> old(self).spec_bus_ticked(
                final(self).bus,
            ),
    {
        let register_value: u8 = self.register_a;
        self.compare(addressing_mode, register_value);
    }

    /// CPX: compares the X register with the operand.
    pub fn execute_cpx(&mut self, addressing_mode: &AddressingMode)
        requires
            old(self).wf(),
            Self::spec_mode_has_operand(*addressing_mode),
            old(self).clock.cycles + 600 <= usize::MAX,
        ensures
            final(self).wf(),
            old(self).bus.ppu.dot_counter + 1800 <= usize::MAX ==> final(self).bus.ppu.dot_counter == old(self).bus.ppu.dot_counter + 3 * (
            final(self).clock.cycles - old(self).clock.cycles),
            *final(self) == (Cpu {
                status: final(self).status,
                bus: final(self).bus,
                clock: final(self).clock,
                frame_ready: final(self).frame_ready,
                ..*old(self)
            }),
            old(self).clock.cycles <= final(self).clock.cycles <= old(self).clock.cycles + 1,
            old(self).spec_operand_pure(*addressing_mode) ==> final(self).status.value
                == spec_compare_status(
                old(self).status.value,
                old(self).register_x,
                old(self).spec_operand_value(*addressing_mode),
            ) && final(self).clock.cycles == old(self).clock.cycles + old(self).spec_extra_cycles(
                *addressing_mode,
            ),
            old(self).spec_data_pure(*addressing_mode) ==> old(self).spec_bus_ticked(
                final(self).bus,
            ),
    {
        let register_value: u8 = self.register_x;
        self.compare(addressing_mode, register_value);
    }

    /// CPY: compares the Y register with the operand.
    pub fn execute_cpy(&mut self, addressing_mode: &AddressingMode)
        requires
            old(self).wf(),
            Self::spec_mode_has_operand(*addressing_mode),
            old(self).clock.cycles + 600 <= usize::MAX,
        ensures
            final(self).wf(),
            old(self).bus.ppu.dot_counter + 1800 <= usize::MAX ==> final(self).bus.ppu.dot_counter == old(self).bus.ppu.dot_counter + 3 * (
            final(self).clock.cycles - old(self).clock.cycles),
            *final(self) == (Cpu {
                status: final(self).status,
                bus: final(self).bus,
                clock: final(self).clock,
                frame_ready: final(self).frame_ready,
                ..*old(self)
            }),
            old(self).clock.cycles <= final(self).clock.cycles <= old(self).clock.cycles + 1,
            old(self).spec_operand_pure(*addressing_mode) ==> final(self).status.value
                == spec_compare_status(
                old(self).status.value,
                old(self).register_y,
                old(self).spec_operand_value(*addressing_mode),
            ) && final(self).clock.cycles == old(self).clock.cycles + old(self).spec_extra_cycles(
                *addressing_mode,
            ),
            old(self).spec_data_pure(*addressing_mode) ==> old(self).spec_bus_ticked(
                final(self).bus,
            ),
    {
        let register_value: u8 = self.register_y;
        self.compare(addressing_mode, register_value);
    }

    /// INX: increments the X register. Refreshes zero and negative.
    pub fn execute_inx(&mut self, addressing_mode: &AddressingMode)
        requires
            old(self).wf(),
        ensures
            final(self).wf(),
            old(self).bus.ppu.dot_counter + 1800 <= usize::MAX ==> final(self).bus.ppu.dot_counter == old(self).bus.ppu.dot_counter + 3 * (
            final(self).clock.cycles - old(self).clock.cycles),
            *final(self) == (Cpu {
                register_x: final(self).register_x,
                status: final(self).status,
                bus: final(self).bus,
                ..*old(self)
            }),
            final(self).register_x == u8_specs::wrapping_add(old(self).register_x, 1),
            final(self).status.value == spec_nz_status(
                old(self).status.value,
                u8_specs::wrapping_add(old(self).register_x, 1),
            ),
            old(self).spec_operand_pure(*addressing_mode) ==> final(self).bus == old(self).bus,
    {
        let memory_data: Option<(u16, bool)> = self.get_memory_data(addressing_mode);
        let result: u8 = self.register_x.wrapping_add(1);
        self.status.set_flag(CpuStatusRegisterFlags::Zero, result == 0);
        self.status.set_flag(CpuStatusRegisterFlags::Negative, result & 0x80 == 0x80);
        self.register_x = result;
    }

    /// INY: increments the Y register. Refreshes zero and negative.
    pub fn execute_iny(&mut self, addressing_mode: &AddressingMode)
        requires
            old(self).wf(),
        ensures
            final(self).wf(),
            old(self).bus.ppu.dot_counter + 1800 <= usize::MAX ==> final(self).bus.ppu.dot_counter == old(self).bus.ppu.dot_counter + 3 * (
            final(self).clock.cycles - old(self).clock.cycles),
            *final(self) == (Cpu {
                register_y: final(self).register_y,
                status: final(self).status,
                bus: final(self).bus,
                ..*old(self)
            }),
            final(self).register_y == u8_specs::wrapping_add(old(self).register_y, 1),
            final(self).status.value == spec_nz_status(
                old(self).status.value,
                u8_specs::wrapping_add(old(self).register_y, 1),
            ),
            old(self).spec_operand_pure(*addressing_mode) ==> final(self).bus == old(self).bus,
    {
        let memory_data: Option<(u16, bool)> = self.get_memory_data(addressing_mode);
        let result: u8 = self.register_y.wrapping_add(1);
        self.status.set_flag(CpuStatusRegisterFlags::Zero, result == 0);
        self.status.set_flag(CpuStatusRegisterFlags::Negative, result & 0x80 == 0x80);
        self.register_y = result;
    }

    /// DEX: decrements the X register. Refreshes zero and negative.
    pub fn execute_dex(&mut self, addressing_mode: &AddressingMode)
        requires
            old(self).wf(),
        ensures
            final(self).wf(),
            old(self).bus.ppu.dot_counter + 1800 <= usize::MAX ==> final(self).bus.ppu.dot_counter == old(self).bus.ppu.dot_counter + 3 * (
            final(self).clock.cycles - old(self).clock.cycles),
            *final(self) == (Cpu {
                register_x: final(self).register_x,
                status: final(self).status,
                bus: final(self).bus,
                ..*old(self)
            }),
            final(self).register_x == u8_specs::wrapping_sub(old(self).register_x, 1),
            final(self).status.value == spec_nz_status(
                old(self).status.value,
                u8_specs::wrapping_sub(old(self).register_x, 1),
            ),
            old(self).spec_operand_pure(*addressing_mode) ==> final(self).bus == old(self).bus,
    {
        let memory_data: Option<(u16, bool)> = self.get_memory_data(addressing_mode);
        let result: u8 = self.register_x.wrapping_sub(1);
        self.status.set_flag(CpuStatusRegisterFlags::Zero, result == 0);
        self.status.set_flag(CpuStatusRegisterFlags::Negative, result & 0x80 == 0x80);
        self.register_x = result;
    }

    /// DEY: decrements the Y register. Refreshes zero and negative.
    pub fn execute_dey(&mut self, addressing_mode: &AddressingMode)
        requires
            old(self).wf(),
        ensures
            final(self).wf(),
            old(self).bus.ppu.dot_counter + 1800 <= usize::MAX ==> final(self).bus.ppu.dot_counter == old(self).bus.ppu.dot_counter + 3 * (
            final(self).clock.cycles - old(self).clock.cycles),
            *final(self) == (Cpu {
                register_y: final(self).register_y,
                status: final(self).status,
                bus: final(self).bus,
                ..*old(self)
            }),
            final(self).register_y == u8_specs::wrapping_sub(old(self).register_y, 1),
            final(self).status.value == spec_nz_status(
                old(self).status.value,
                u8_specs::wrapping_sub(old(self).register_y, 1),
            ),
            old(self).spec_operand_pure(*addressing_mode) ==> final(self).bus == old(self).bus,
    {
        let memory_data: Option<(u16, bool)> = self.get_memory_data(addressing_mode);
        let result: u8 = self.register_y.wrapping_sub(1);
        self.status.set_flag(CpuStatusRegisterFlags::Zero, result == 0);
        self.status.set_flag(CpuStatusRegisterFlags::Negative, result & 0x80 == 0x80);
        self.register_y = result;
    }

    /// TAX: copies the accumulator into X. Refreshes zero and negative.
    pub fn execute_tax(&mut self, addressing_mode: &AddressingMode)
        requires
            old(self).wf(),
        ensures
            final(self).wf(),
            old(self).bus.ppu.dot_counter + 1800 <= usize::MAX ==> final(self).bus.ppu.dot_counter == old(self).bus.ppu.dot_counter + 3 * (
            final(self).clock.cycles - old(self).clock.cycles),
            *final(self) == (Cpu {
                register_x: final(self).register_x,
                status: final(self).status,
                bus: final(self).bus,
                ..*old(self)
            }),
            final(self).register_x == old(self).register_a,
            final(self).status.value == spec_nz_status(old(self).status.value, old(self).register_a),
            old(self).spec_operand_pure(*addressing_mode) ==> final(self).bus == old(self).bus,
    {
        let memory_data: Option<(u16, bool)> = self.get_memory_data(addressing_mode);
        let value: u8 = self.register_a;
        self.status.set_flag(CpuStatusRegisterFlags::Zero, value == 0);
        self.status.set_flag(CpuStatusRegisterFlags::Negative, value & 0x80 == 0x80);
        self.register_x = value;
    }

    /// TAY: copies the accumulator into Y. Refreshes zero and negative.
    pub fn execute_tay(&mut self, addressing_mode: &AddressingMode)
        requires
            old(self).wf(),
        ensures
            final(self).wf(),
            old(self).bus.ppu.dot_counter + 1800 <= usize::MAX ==> final(self).bus.ppu.dot_counter == old(self).bus.ppu.dot_counter + 3 * (
            final(self).clock.cycles - old(self).clock.cycles),
            *final(self) == (Cpu {
                register_y: final(self).register_y,
                status: final(self).status,
                bus: final(self).bus,
                ..*old(self)
            }),
            final(self).register_y == old(self).register_a,
            final(self).status.value == spec_nz_status(old(self).status.value, old(self).register_a),
            old(self).spec_operand_pure(*addressing_mode) ==> final(self).bus == old(self).bus,
    {
        let memory_data: Option<(u16, bool)> = self.get_memory_data(addressing_mode);
        let value: u8 = self.register_a;
        self.status.set_flag(CpuStatusRegisterFlags::Zero, value == 0);
        self.status.set_flag(CpuStatusRegisterFlags::Negative, value & 0x80 == 0x80);
        self.register_y = value;
    }

    /// TSX: copies the stack pointer into X. Refreshes zero and negative.
    pub fn execute_tsx(&mut self, addressing_mode: &AddressingMode)
        requires
            old(self).wf(),
        ensures
            final(self).wf(),
            old(self).bus.ppu.dot_counter + 1800 <= usize::MAX ==> final(self).bus.ppu.dot_counter == old(self).bus.ppu.dot_counter + 3 * (
            final(self).clock.cycles - old(self).clock.cycles),
            *final(self) == (Cpu {
                register_x: final(self).register_x,
                status: final(self).status,
                bus: final(self).bus,
                ..*old(self)
            }),
            final(self).register_x == old(self).stack_pointer,
            final(self).status.value == spec_nz_status(old(self).status.value, old(self).stack_pointer),
            old(self).spec_operand_pure(*addressing_mode) ==> final(self).bus == old(self).bus,
    {
        let memory_data: Option<(u16, bool)> = self.get_memory_data(addressing_mode);
        let value: u8 = self.stack_pointer;
        self.status.set_flag(CpuStatusRegisterFlags::Zero, value == 0);
        self.status.set_flag(CpuStatusRegisterFlags::Negative, value & 0x80 == 0x80);
        self.register_x = value;
    }

    /// TXA: copies X into the accumulator. Refreshes zero and negative.
    pub fn execute_txa(&mut self, addressing_mode: &AddressingMode)
        requires
            old(self).wf(),
        ensures
            final(self).wf(),
            old(self).bus.ppu.dot_counter + 1800 <= usize::MAX ==> final(self).bus.ppu.dot_counter == old(self).bus.ppu.dot_counter + 3 * (
            final(self).clock.cycles - old(self).clock.cycles),
            *final(self) == (Cpu {
                register_a: final(self).register_a,
                status: final(self).status,
                bus: final(self).bus,
                ..*old(self)
            }),
            final(self).register_a == old(self).register_x,
            final(self).status.value == spec_nz_status(old(self).status.value, old(self).register_x),
            old(self).spec_operand_pure(*addressing_mode) ==> final(self).bus == old(self).bus,
    {
        let memory_data: Option<(u16, bool)> = self.get_memory_data(addressing_mode);
        let value: u8 = self.register_x;
        self.status.set_flag(CpuStatusRegisterFlags::Zero, value == 0);
        self.status.set_flag(CpuStatusRegisterFlags::Negative, value & 0x80 == 0x80);
        self.register_a = value;
    }

    /// TYA: copies Y into the accumulator. Refreshes zero and negative.
    pub fn execute_tya(&mut self, addressing_mode: &AddressingMode)
        requires
            old(self).wf(),
        ensures
            final(self).wf(),
            old(self).bus.ppu.dot_counter + 1800 <= usize::MAX ==> final(self).bus.ppu.dot_counter == old(self).bus.ppu.dot_counter + 3 * (
            final(self).clock.cycles - old(self).clock.cycles),
            *final(self) == (Cpu {
                register_a: final(self).register_a,
                status: final(self).status,
                bus: final(self).bus,
                ..*old(self)
            }),
            final(self).register_a == old(self).register_y,
            final(self).status.value == spec_nz_status(old(self).status.value, old(self).register_y),
            old(self).spec_operand_pure(*addressing_mode) ==> final(self).bus == old(self).bus,
    {
        let memory_data: Option<(u16, bool)> = self.get_memory_data(addressing_mode);
        let value: u8 = self.register_y;
        self.status.set_flag(CpuStatusRegisterFlags::Zero, value == 0);
        self.status.set_flag(CpuStatusRegisterFlags::Negative, value & 0x80 == 0x80);
        self.register_a = value;
    }

    /// TXS: copies X into the stack pointer. TXS never touches the
    /// status flags.
    pub fn execute_txs(&mut self, addressing_mode: &AddressingMode)
        requires
            old(self).wf(),
        ensures
            final(self).wf(),
            old(self).bus.ppu.dot_counter + 1800 <= usize::MAX ==> final(self).bus.ppu.dot_counter == old(self).bus.ppu.dot_counter + 3 * (
            final(self).clock.cycles - old(self).clock.cycles),
            *final(self) == (Cpu {
                stack_pointer: final(self).stack_pointer,
                bus: final(self).bus,
                ..*old(self)
            }),
            final(self).stack_pointer == old(self).register_x,
            final(self).status == old(self).status,
            old(self).spec_operand_pure(*addressing_mode) ==> final(self).bus == old(self).bus,
    {
        let memory_data: Option<(u16, bool)> = self.get_memory_data(addressing_mode);
        self.stack_pointer = self.register_x;
    }

    /// CLC: clears the carry flag.
    pub fn execute_clc(&mut self, addressing_mode: &AddressingMode)
        requires
            old(self).wf(),
        ensures
            final(self).wf(),
            old(self).bus.ppu.dot_counter + 1800 <= usize::MAX ==> final(self).bus.ppu.dot_counter == old(self).bus.ppu.dot_counter + 3 * (
            final(self).clock.cycles - old(self).clock.cycles),
            *final(self) == (Cpu {
                status: final(self).status,
                bus: final(self).bus,
                ..*old(self)
            }),
            final(self).status.value == (old(self).status.value & !spec_flag_mask(CpuStatusRegisterFlags::Carry)),
            old(self).spec_operand_pure(*addressing_mode) ==> final(self).bus == old(self).bus,
    {
        let memory_data: Option<(u16, bool)> = self.get_memory_data(addressing_mode);
        self.status.set_flag(CpuStatusRegisterFlags::Carry, false);
    }

    /// CLD: clears the decimal-mode flag.
    pub fn execute_cld(&mut self, addressing_mode: &AddressingMode)
        requires
            old(self).wf(),
        ensures
            final(self).wf(),
            old(self).bus.ppu.dot_counter + 1800 <= usize::MAX ==> final(self).bus.ppu.dot_counter == old(self).bus.ppu.dot_counter + 3 * (
            final(self).clock.cycles - old(self).clock.cycles),
            *final(self) == (Cpu {
                status: final(self).status,
                bus: final(self).bus,
                ..*old(self)
            }),
            final(self).status.value == (old(self).status.value & !spec_flag_mask(CpuStatusRegisterFlags::DecimalMode)),
            old(self).spec_operand_pure(*addressing_mode) ==> final(self).bus == old(self).bus,
    {
        let memory_data: Option<(u16, bool)> = self.get_memory_data(addressing_mode);
        self.status.set_flag(CpuStatusRegisterFlags::DecimalMode, false);
    }

    /// CLI: clears the interrupt-disable flag.
    pub fn execute_cli(&mut self, addressing_mode: &AddressingMode)
        requires
            old(self).wf(),
        ensures
            final(self).wf(),
            old(self).bus.ppu.dot_counter + 1800 <= usize::MAX ==> final(self).bus.ppu.dot_counter == old(self).bus.ppu.dot_counter + 3 * (
            final(self).clock.cycles - old(self).clock.cycles),
            *final(self) == (Cpu {
                status: final(self).status,
                bus: final(self).bus,
                ..*old(self)
            }),
            final(self).status.value == (old(self).status.value & !spec_flag_mask(CpuStatusRegisterFlags::InterruptDisable)),
            old(self).spec_operand_pure(*addressing_mode) ==> final(self).bus == old(self).bus,
    {
        let memory_data: Option<(u16, bool)> = self.get_memory_data(addressing_mode);
        self.status.set_flag(CpuStatusRegisterFlags::InterruptDisable, false);
    }

    /// CLV: clears the overflow flag.
    pub fn execute_clv(&mut self, addressing_mode: &AddressingMode)
        requires
            old(self).wf(),
        ensures
            final(self).wf(),
            old(self).bus.ppu.dot_counter + 1800 <= usize::MAX ==> final(self).bus.ppu.dot_counter == old(self).bus.ppu.dot_counter + 3 * (
            final(self).clock.cycles - old(self).clock.cycles),
            *final(self) == (Cpu {
                status: final(self).status,
                bus: final(self).bus,
                ..*old(self)
            }),
            final(self).status.value == (old(self).status.value & !spec_flag_mask(CpuStatusRegisterFlags::Overflow)),
            old(self).spec_operand_pure(*addressing_mode) ==> final(self).bus == old(self).bus,
    {
        let memory_data: Option<(u16, bool)> = self.get_memory_data(addressing_mode);
        self.status.set_flag(CpuStatusRegisterFlags::Overflow, false);
    }

    /// SEC: sets the carry flag.
    pub fn execute_sec(&mut self, addressing_mode: &AddressingMode)
        requires
            old(self).wf(),
        ensures
            final(self).wf(),
            old(self).bus.ppu.dot_counter + 1800 <= usize::MAX ==> final(self).bus.ppu.dot_counter == old(self).bus.ppu.dot_counter + 3 * (
            final(self).clock.cycles - old(self).clock.cycles),
            *final(self) == (Cpu {
                status: final(self).status,
                bus: final(self).bus,
                ..*old(self)
            }),
            final(self).status.value == (old(self).status.value | spec_flag_mask(CpuStatusRegisterFlags::Carry)),
            old(self).spec_operand_pure(*addressing_mode) ==> final(self).bus == old(self).bus,
    {
        let memory_data: Option<(u16, bool)> = self.get_memory_data(addressing_mode);
        self.status.set_flag(CpuStatusRegisterFlags::Carry, true);
    }

    /// SED: sets the decimal-mode flag.
    pub fn execute_sed(&mut self, addressing_mode: &AddressingMode)
        requires
            old(self).wf(),
        ensures
            final(self).wf(),
            old(self).bus.ppu.dot_counter + 1800 <= usize::MAX ==> final(self).bus.ppu.dot_counter == old(self).bus.ppu.dot_counter + 3 * (
            final(self).clock.cycles - old(self).clock.cycles),
            *final(self) == (Cpu {
                status: final(self).status,
                bus: final(self).bus,
                ..*old(self)
            }),
            final(self).status.value == (old(self).status.value | spec_flag_mask(CpuStatusRegisterFlags::DecimalMode)),
            old(self).spec_operand_pure(*addressing_mode) ==> final(self).bus == old(self).bus,
    {
        let memory_data: Option<(u16, bool)> = self.get_memory_data(addressing_mode);
        self.status.set_flag(CpuStatusRegisterFlags::DecimalMode, true);
    }

    /// SEI: sets the interrupt-disable flag.
    pub fn execute_sei(&mut self, addressing_mode: &AddressingMode)
        requires
            old(self).wf(),
        ensures
            final(self).wf(),
            old(self).bus.ppu.dot_counter + 1800 <= usize::MAX ==> final(self).bus.ppu.dot_counter == old(self).bus.ppu.dot_counter + 3 * (
            final(self).clock.cycles - old(self).clock.cycles),
            *final(self) == (Cpu {
                status: final(self).status,
                bus: final(self).bus,
                ..*old(self)
            }),
            final(self).status.value == (old(self).status.value | spec_flag_mask(CpuStatusRegisterFlags::InterruptDisable)),
            old(self).spec_operand_pure(*addressing_mode) ==> final(self).bus == old(self).bus,
    {
        let memory_data: Option<(u16, bool)> = self.get_memory_data(addressing_mode);
        self.status.set_flag(CpuStatusRegisterFlags::InterruptDisable, true);
    }

}

/// The status byte after the zero and negative flags are refreshed
/// from `value`, in that order.
pub open spec fn spec_nz_status(p: u8, value: u8) -> u8 {
    let with_zero = if value == 0 {
        p | 0x02
    } else {
        p & !0x02
    };
    if value & 0x80 == 0x80 {
        with_zero | 0x80
    } else {
        with_zero & !0x80
    }
}

/// The nine-bit sum of the accumulator, an operand (already
/// complemented for subtraction) and the carry.
pub open spec fn spec_add_sum(a: u8, m: u8, c: bool) -> u16 {
    ((a as u16) + (m as u16) + (if c {
        1int
    } else {
        0int
    })) as u16
}

/// The accumulator after an addition step.
pub open spec fn spec_add_result(a: u8, m: u8, c: bool) -> u8 {
    spec_add_sum(a, m, c) as u8
}

/// The status byte after an addition step: carry from the ninth bit,
/// negative and zero from the eight-bit result, and overflow when the
/// operands agree in sign but the result does not.
pub open spec fn spec_add_status(p: u8, a: u8, m: u8, c: bool) -> u8 {
    let sum = spec_add_sum(a, m, c);
    let overflow = ((a as u16) ^ sum) & !((a as u16) ^ (m as u16)) & 0x80 == 0x80;
    let with_carry = if sum > 255 {
        p | 0x01
    } else {
        p & !0x01
    };
    let with_negative = if (sum as u8) & 0x80 == 0x80 {
        with_carry | 0x80
    } else {
        with_carry & !0x80
    };
    let with_zero = if sum as u8 == 0 {
        with_negative | 0x02
    } else {
        with_negative & !0x02
    };
    if overflow {
        with_zero | 0x40
    } else {
        with_zero & !0x40
    }
}

/// The status byte after a compare: carry while the register is not
/// below the operand, zero and negative from the difference.
pub open spec fn spec_compare_status(p: u8, register_value: u8, memory_value: u8) -> u8 {
    let difference = u8_specs::wrapping_sub(register_value, memory_value);
    let with_carry = if register_value >= memory_value {
        p | 0x01
    } else {
        p & !0x01
    };
    let with_zero = if difference == 0 {
        with_carry | 0x02
    } else {
        with_carry & !0x02
    };
    if difference & 0x80 == 0x80 {
        with_zero | 0x80
    } else {
        with_zero & !0x80
    }
}

/// The status byte after BIT: zero from the masked accumulator, and
/// overflow and negative copied from operand bits 6 and 7.
pub open spec fn spec_bit_status(p: u8, a: u8, memory_value: u8) -> u8 {
    let with_zero = if a & memory_value == 0 {
        p | 0x02
    } else {
        p & !0x02
    };
    let with_overflow = if memory_value & 0x40 == 0x40 {
        with_zero | 0x40
    } else {
        with_zero & !0x40
    };
    if memory_value & 0x80 == 0x80 {
        with_overflow | 0x80
    } else {
        with_overflow & !0x80
    }

}

/// The status byte with only the zero flag refreshed from `value`.
pub open spec fn spec_zero_flag(p: u8, value: u8) -> u8 {
    if value == 0 {
        p | 0x02
    } else {
        p & !0x02
    }
}

/// The status byte after a left shift: carry takes the outgoing high
/// bit, zero and negative come from the shifted value.
pub open spec fn spec_asl_status(p: u8, value: u8) -> u8 {
    let with_carry = if value & 0x80 == 0x80 {
        p | 0x01
    } else {
        p & !0x01
    };
    let with_zero = if value << 1 == 0 {
        with_carry | 0x02
    } else {
        with_carry & !0x02
    };
    if (value << 1) & 0x80 == 0x80 {
        with_zero | 0x80
    } else {
        with_zero & !0x80
    }
}

/// The status byte after a right shift: carry takes the outgoing low
/// bit, zero and negative come from the shifted value.
pub open spec fn spec_lsr_status(p: u8, value: u8) -> u8 {
    let with_carry = if value & 0x1 == 0x1 {
        p | 0x01
    } else {
        p & !0x01
    };
    let with_zero = if value >> 1 == 0 {
        with_carry | 0x02
    } else {
        with_carry & !0x02
    };
    if (value >> 1) & 0x80 == 0x80 {
        with_zero | 0x80
    } else {
        with_zero & !0x80
    }
}

/// A left rotate: the incoming carry becomes the new low bit.
pub open spec fn spec_rol_result(value: u8, carry: bool) -> u8 {
    let rotated = (value << 1) | (value >> 7);
    if carry {
        rotated | 0x1
    } else {
        rotated & !0x1
    }
}

/// A right rotate: the incoming carry becomes the new high bit.
pub open spec fn spec_ror_result(value: u8, carry: bool) -> u8 {
    let rotated = (value >> 1) | (value << 7);
    if carry {
        rotated | 0x80
    } else {
        rotated & !0x80
    }
}

/// The status byte after a left rotate: carry takes the outgoing high
/// bit, zero and negative come from the rotated result.
pub open spec fn spec_rol_status(p: u8, value: u8, carry: bool) -> u8 {
    let with_carry = if value & 0x80 == 0x80 {
        p | 0x01
    } else {
        p & !0x01
    };
    let with_zero = if spec_rol_result(value, carry) == 0 {
        with_carry | 0x02
    } else {
        with_carry & !0x02
    };
    if spec_rol_result(value, carry) & 0x80 == 0x80 {
        with_zero | 0x80
    } else {
        with_zero & !0x80
    }
}

/// The status byte after a right rotate: carry takes the outgoing low
/// bit, zero and negative come from the rotated result.
pub open spec fn spec_ror_status(p: u8, value: u8, carry: bool) -> u8 {
    let with_carry = if value & 0x1 == 0x1 {
        p | 0x01
    } else {
        p & !0x01
    };
    let with_zero = if spec_ror_result(value, carry) == 0 {
        with_carry | 0x02
    } else {
        with_carry & !0x02
    };
    if spec_ror_result(value, carry) & 0x80 == 0x80 {
        with_zero | 0x80
    } else {
        with_zero & !0x80
    }
}

/// The carry and negative refresh that the rotate half of RLA leaves;
/// its zero flag is settled by the bitwise half that follows.
pub open spec fn spec_rla_rotate_status(p: u8, value: u8, carry: bool) -> u8 {
    let with_carry = if value & 0x80 == 0x80 {
        p | 0x01
    } else {
        p & !0x01
    };
    if spec_rol_result(value, carry) & 0x80 == 0x80 {
        with_carry | 0x80
    } else {
        with_carry & !0x80
    }
}

/// The carry and negative refresh that the rotate half of RRA leaves;
/// its zero flag is settled by the addition half that follows.
pub open spec fn spec_rra_rotate_status(p: u8, value: u8, carry: bool) -> u8 {
    let with_carry = if value & 0x1 == 0x1 {
        p | 0x01
    } else {
        p & !0x01
    };
    if spec_ror_result(value, carry) & 0x80 == 0x80 {
        with_carry | 0x80
    } else {
        with_carry & !0x80
    }
}

/// Which mnemonics the interpreter refuses to execute: the halt
/// opcodes and the exotic illegals with no documented single meaning.
pub open spec fn spec_mnemonic_unimplemented(name: Mnemonic) -> bool {
    name is Kil || name is Anc || name is Asr || name is Arr || name is Xaa || name is Ahx || name is Tas || name is Shx || name is Shy || name is Las || name is Axs
}

/// Whether the mnemonic can rewrite the program counter itself.
pub open spec fn spec_mnemonic_control_flow(name: Mnemonic) -> bool {
    name is Jmp || name is Jsr || name is Rts || name is Rti || name is Brk || name is Bcc || name is Bcs || name is Beq || name is Bne || name is Bmi || name is Bpl || name is Bvc || name is Bvs || name is Kil || name is Anc || name is Asr || name is Arr || name is Xaa || name is Ahx || name is Tas || name is Shx || name is Shy || name is Las || name is Axs
}

/// The mnemonics whose reads pay the one-cycle page-cross penalty.
pub open spec fn spec_mnemonic_page_cross(name: Mnemonic) -> bool {
    name is Adc || name is And || name is Cmp || name is Cpx || name is Cpy || name is Eor
        || name is Lda || name is Ldx || name is Ldy || name is Ora || name is Sbc
}

/// The eight conditional branches.
pub open spec fn spec_mnemonic_branch(name: Mnemonic) -> bool {
    name is Bcc || name is Bcs || name is Beq || name is Bmi || name is Bne || name is Bpl
        || name is Bvc || name is Bvs
}

/// The mnemonics that write their resolved operand back to memory, and
/// so can trigger the OAM DMA stall through the port at 0x4014.
pub open spec fn spec_mnemonic_memory_write(name: Mnemonic) -> bool {
    name is Asl || name is Dcp || name is Dec || name is Inc || name is Isc || name is Lsr
        || name is Rla || name is Rol || name is Ror || name is Rra || name is Sax || name is Slo
        || name is Sre || name is Sta || name is Stx || name is Sty
}

/// The mnemonics that always take exactly their base cycle count.
pub open spec fn spec_mnemonic_fixed_cycles(name: Mnemonic) -> bool {
    name is Bit || name is Brk || name is Clc || name is Cld || name is Cli || name is Clv
        || name is Dex || name is Dey || name is Inx || name is Iny || name is Jmp || name is Jsr
        || name is Lax || name is Nop || name is Pha || name is Php || name is Pla || name is Plp
        || name is Rti || name is Rts || name is Sec || name is Sed || name is Sei || name is Tax
        || name is Tay || name is Tsx || name is Txa || name is Txs || name is Tya
}

/// Whether a branch mnemonic is taken under the status byte `p`.
pub open spec fn spec_branch_taken(name: Mnemonic, p: u8) -> bool {
    match name {
        Mnemonic::Bcc => !(p & 0x01 != 0),
        Mnemonic::Bcs => p & 0x01 != 0,
        Mnemonic::Beq => p & 0x02 != 0,
        Mnemonic::Bne => !(p & 0x02 != 0),
        Mnemonic::Bmi => p & 0x80 != 0,
        Mnemonic::Bpl => !(p & 0x80 != 0),
        Mnemonic::Bvs => p & 0x40 != 0,
        Mnemonic::Bvc => !(p & 0x40 != 0),
        _ => false,
    }
}

/// Structural facts about the instruction table that the fetch loop
/// relies on: lengths and base cycle counts are in range, and every
/// mnemonic that dereferences an operand is given a mode that has one.
pub proof fn lemma_instruction_table(opcode: u8)
    ensures
        1 <= spec_instruction(opcode).bytes <= 3,
        1 <= spec_instruction(opcode).cycles <= 8,
        ({
            let i = spec_instruction(opcode);
            (i.name is Adc || i.name is And || i.name is Bit || i.name is Cmp || i.name is Cpx
                || i.name is Cpy || i.name is Dcp || i.name is Dec || i.name is Eor || i.name
                is Inc || i.name is Isc || i.name is Jmp || i.name is Lax || i.name is Lda
                || i.name is Ldx || i.name is Ldy || i.name is Ora || i.name is Rla || i.name
                is Rra || i.name is Sax || i.name is Sbc || i.name is Slo || i.name is Sre
                || i.name is Sta || i.name is Stx || i.name is Sty) ==> Cpu::spec_mode_has_operand(
                i.addressing_mode,
            )
        }),
{
}

/// One hexadecimal digit as text; only the low four bits matter.
pub fn hex_digit_text(value: u8) -> (r: String)
    requires
        value < 16,
{
    String::from_str(match value {
        0 => "0",
        1 => "1",
        2 => "2",
        3 => "3",
        4 => "4",
        5 => "5",
        6 => "6",
        7 => "7",
        8 => "8",
        9 => "9",
        10 => "A",
        11 => "B",
        12 => "C",
        13 => "D",
        14 => "E",
        _ => "F",
    })
}

/// The display name of a mnemonic, as the trace prints it.
pub fn mnemonic_text(name: Mnemonic) -> (r: String) {
    String::from_str(match name {
        Mnemonic::Adc => "ADC",
        Mnemonic::Ahx => "AHX",
        Mnemonic::Anc => "ANC",
        Mnemonic::And => "AND",
        Mnemonic::Arr => "ARR",
        Mnemonic::Asl => "ASL",
        Mnemonic::Asr => "ASR",
        Mnemonic::Axs => "AXS",
        Mnemonic::Bcc => "BCC",
        Mnemonic::Bcs => "BCS",
        Mnemonic::Beq => "BEQ",
        Mnemonic::Bit => "BIT",
        Mnemonic::Bmi => "BMI",
        Mnemonic::Bne => "BNE",
        Mnemonic::Bpl => "BPL",
        Mnemonic::Brk => "BRK",
        Mnemonic::Bvc => "BVC",
        Mnemonic::Bvs => "BVS",
        Mnemonic::Clc => "CLC",
        Mnemonic::Cld => "CLD",
        Mnemonic::Cli => "CLI",
        Mnemonic::Clv => "CLV",
        Mnemonic::Cmp => "CMP",
        Mnemonic::Cpx => "CPX",
        Mnemonic::Cpy => "CPY",
        Mnemonic::Dcp => "DCP",
        Mnemonic::Dec => "DEC",
        Mnemonic::Dex => "DEX",
        Mnemonic::Dey => "DEY",
        Mnemonic::Eor => "EOR",
        Mnemonic::Inc => "INC",
        Mnemonic::Inx => "INX",
        Mnemonic::Iny => "INY",
        Mnemonic::Isc => "ISC",
        Mnemonic::Jmp => "JMP",
        Mnemonic::Jsr => "JSR",
        Mnemonic::Kil => "KIL",
        Mnemonic::Las => "LAS",
        Mnemonic::Lax => "LAX",
        Mnemonic::Lda => "LDA",
        Mnemonic::Ldx => "LDX",
        Mnemonic::Ldy => "LDY",
        Mnemonic::Lsr => "LSR",
        Mnemonic::Nop => "NOP",
        Mnemonic::Ora => "ORA",
        Mnemonic::Pha => "PHA",
        Mnemonic::Php => "PHP",
        Mnemonic::Pla => "PLA",
        Mnemonic::Plp => "PLP",
        Mnemonic::Rla => "RLA",
        Mnemonic::Rol => "ROL",
        Mnemonic::Ror => "ROR",
        Mnemonic::Rra => "RRA",
        Mnemonic::Rti => "RTI",
        Mnemonic::Rts => "RTS",
        Mnemonic::Sax => "SAX",
        Mnemonic::Sbc => "SBC",
        Mnemonic::Sec => "SEC",
        Mnemonic::Sed => "SED",
        Mnemonic::Sei => "SEI",
        Mnemonic::Shx => "SHX",
        Mnemonic::Shy => "SHY",
        Mnemonic::Slo => "SLO",
        Mnemonic::Sre => "SRE",
        Mnemonic::Sta => "STA",
        Mnemonic::Stx => "STX",
        Mnemonic::Sty => "STY",
        Mnemonic::Tas => "TAS",
        Mnemonic::Tax => "TAX",
        Mnemonic::Tay => "TAY",
        Mnemonic::Tsx => "TSX",
        Mnemonic::Txa => "TXA",
        Mnemonic::Txs => "TXS",
        Mnemonic::Tya => "TYA",
        Mnemonic::Xaa => "XAA",
    })
}

} // verus!
