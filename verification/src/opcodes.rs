use vstd::prelude::*;
use crate::cpu::AddressingMode;

verus! {

/// An immutable opcode descriptor: code byte, mnemonic, instruction length
/// in bytes, base cycle cost, and addressing mode. Undocumented opcodes
/// carry a starred mnemonic.
pub struct OpCode {
    pub code: u8,
    pub mnemonic: &'static str,
    pub len: u8,
    pub cycles: u8,
    pub mode: AddressingMode,
}

impl OpCode {
    pub fn new(code: u8, mnemonic: &'static str, len: u8, cycles: u8, mode: AddressingMode) -> (r:
        OpCode)
        ensures
            r.code == code,
            r.len == len,
            r.cycles == cycles,
            r.mode == mode,
    {
        OpCode { code, mnemonic, len, cycles, mode }
    }
}

pub open spec fn opcode_len_0(code: u8) -> u8 {
    match code {
        0x00u8 => 1,
        0x01u8 => 2,
        0x02u8 => 1,
        0x03u8 => 2,
        0x04u8 => 2,
        0x05u8 => 2,
        0x06u8 => 2,
        0x07u8 => 2,
        0x08u8 => 1,
        0x09u8 => 2,
        0x0au8 => 1,
        0x0bu8 => 2,
        0x0cu8 => 3,
        0x0du8 => 3,
        0x0eu8 => 3,
        0x0fu8 => 3,
        _ => 0,
    }
}

pub open spec fn opcode_len_1(code: u8) -> u8 {
    match code {
        0x10u8 => 2,
        0x11u8 => 2,
        0x12u8 => 1,
        0x13u8 => 2,
        0x14u8 => 2,
        0x15u8 => 2,
        0x16u8 => 2,
        0x17u8 => 2,
        0x18u8 => 1,
        0x19u8 => 3,
        0x1au8 => 1,
        0x1bu8 => 3,
        0x1cu8 => 3,
        0x1du8 => 3,
        0x1eu8 => 3,
        0x1fu8 => 3,
        _ => 0,
    }
}

pub open spec fn opcode_len_2(code: u8) -> u8 {
    match code {
        0x20u8 => 3,
        0x21u8 => 2,
        0x22u8 => 1,
        0x23u8 => 2,
        0x24u8 => 2,
        0x25u8 => 2,
        0x26u8 => 2,
        0x27u8 => 2,
        0x28u8 => 1,
        0x29u8 => 2,
        0x2au8 => 1,
        0x2bu8 => 2,
        0x2cu8 => 3,
        0x2du8 => 3,
        0x2eu8 => 3,
        0x2fu8 => 3,
        _ => 0,
    }
}

pub open spec fn opcode_len_3(code: u8) -> u8 {
    match code {
        0x30u8 => 2,
        0x31u8 => 2,
        0x32u8 => 1,
        0x33u8 => 2,
        0x34u8 => 2,
        0x35u8 => 2,
        0x36u8 => 2,
        0x37u8 => 2,
        0x38u8 => 1,
        0x39u8 => 3,
        0x3au8 => 1,
        0x3bu8 => 3,
        0x3cu8 => 3,
        0x3du8 => 3,
        0x3eu8 => 3,
        0x3fu8 => 3,
        _ => 0,
    }
}

pub open spec fn opcode_len_4(code: u8) -> u8 {
    match code {
        0x40u8 => 1,
        0x41u8 => 2,
        0x42u8 => 1,
        0x43u8 => 2,
        0x44u8 => 2,
        0x45u8 => 2,
        0x46u8 => 2,
        0x47u8 => 2,
        0x48u8 => 1,
        0x49u8 => 2,
        0x4au8 => 1,
        0x4bu8 => 2,
        0x4cu8 => 3,
        0x4du8 => 3,
        0x4eu8 => 3,
        0x4fu8 => 3,
        _ => 0,
    }
}

pub open spec fn opcode_len_5(code: u8) -> u8 {
    match code {
        0x50u8 => 2,
        0x51u8 => 2,
        0x52u8 => 1,
        0x53u8 => 2,
        0x54u8 => 2,
        0x55u8 => 2,
        0x56u8 => 2,
        0x57u8 => 2,
        0x58u8 => 1,
        0x59u8 => 3,
        0x5au8 => 1,
        0x5bu8 => 3,
        0x5cu8 => 3,
        0x5du8 => 3,
        0x5eu8 => 3,
        0x5fu8 => 3,
        _ => 0,
    }
}

pub open spec fn opcode_len_6(code: u8) -> u8 {
    match code {
        0x60u8 => 1,
        0x61u8 => 2,
        0x62u8 => 1,
        0x63u8 => 2,
        0x64u8 => 2,
        0x65u8 => 2,
        0x66u8 => 2,
        0x67u8 => 2,
        0x68u8 => 1,
        0x69u8 => 2,
        0x6au8 => 1,
        0x6bu8 => 2,
        0x6cu8 => 3,
        0x6du8 => 3,
        0x6eu8 => 3,
        0x6fu8 => 3,
        _ => 0,
    }
}

pub open spec fn opcode_len_7(code: u8) -> u8 {
    match code {
        0x70u8 => 2,
        0x71u8 => 2,
        0x72u8 => 1,
        0x73u8 => 2,
        0x74u8 => 2,
        0x75u8 => 2,
        0x76u8 => 2,
        0x77u8 => 2,
        0x78u8 => 1,
        0x79u8 => 3,
        0x7au8 => 1,
        0x7bu8 => 3,
        0x7cu8 => 3,
        0x7du8 => 3,
        0x7eu8 => 3,
        0x7fu8 => 3,
        _ => 0,
    }
}

pub open spec fn opcode_len_8(code: u8) -> u8 {
    match code {
        0x80u8 => 2,
        0x81u8 => 2,
        0x82u8 => 2,
        0x83u8 => 2,
        0x84u8 => 2,
        0x85u8 => 2,
        0x86u8 => 2,
        0x87u8 => 2,
        0x88u8 => 1,
        0x89u8 => 2,
        0x8au8 => 1,
        0x8bu8 => 2,
        0x8cu8 => 3,
        0x8du8 => 3,
        0x8eu8 => 3,
        0x8fu8 => 3,
        _ => 0,
    }
}

pub open spec fn opcode_len_9(code: u8) -> u8 {
    match code {
        0x90u8 => 2,
        0x91u8 => 2,
        0x92u8 => 1,
        0x93u8 => 2,
        0x94u8 => 2,
        0x95u8 => 2,
        0x96u8 => 2,
        0x97u8 => 2,
        0x98u8 => 1,
        0x99u8 => 3,
        0x9au8 => 1,
        0x9bu8 => 3,
        0x9cu8 => 3,
        0x9du8 => 3,
        0x9eu8 => 3,
        0x9fu8 => 3,
        _ => 0,
    }
}

pub open spec fn opcode_len_a(code: u8) -> u8 {
    match code {
        0xa0u8 => 2,
        0xa1u8 => 2,
        0xa2u8 => 2,
        0xa3u8 => 2,
        0xa4u8 => 2,
        0xa5u8 => 2,
        0xa6u8 => 2,
        0xa7u8 => 2,
        0xa8u8 => 1,
        0xa9u8 => 2,
        0xaau8 => 1,
        0xabu8 => 2,
        0xacu8 => 3,
        0xadu8 => 3,
        0xaeu8 => 3,
        0xafu8 => 3,
        _ => 0,
    }
}

pub open spec fn opcode_len_b(code: u8) -> u8 {
    match code {
        0xb0u8 => 2,
        0xb1u8 => 2,
        0xb2u8 => 1,
        0xb3u8 => 2,
        0xb4u8 => 2,
        0xb5u8 => 2,
        0xb6u8 => 2,
        0xb7u8 => 2,
        0xb8u8 => 1,
        0xb9u8 => 3,
        0xbau8 => 1,
        0xbbu8 => 3,
        0xbcu8 => 3,
        0xbdu8 => 3,
        0xbeu8 => 3,
        0xbfu8 => 3,
        _ => 0,
    }
}

pub open spec fn opcode_len_c(code: u8) -> u8 {
    match code {
        0xc0u8 => 2,
        0xc1u8 => 2,
        0xc2u8 => 2,
        0xc3u8 => 2,
        0xc4u8 => 2,
        0xc5u8 => 2,
        0xc6u8 => 2,
        0xc7u8 => 2,
        0xc8u8 => 1,
        0xc9u8 => 2,
        0xcau8 => 1,
        0xcbu8 => 2,
        0xccu8 => 3,
        0xcdu8 => 3,
        0xceu8 => 3,
        0xcfu8 => 3,
        _ => 0,
    }
}

pub open spec fn opcode_len_d(code: u8) -> u8 {
    match code {
        0xd0u8 => 2,
        0xd1u8 => 2,
        0xd2u8 => 1,
        0xd3u8 => 2,
        0xd4u8 => 2,
        0xd5u8 => 2,
        0xd6u8 => 2,
        0xd7u8 => 2,
        0xd8u8 => 1,
        0xd9u8 => 3,
        0xdau8 => 1,
        0xdbu8 => 3,
        0xdcu8 => 3,
        0xddu8 => 3,
        0xdeu8 => 3,
        0xdfu8 => 3,
        _ => 0,
    }
}

pub open spec fn opcode_len_e(code: u8) -> u8 {
    match code {
        0xe0u8 => 2,
        0xe1u8 => 2,
        0xe2u8 => 2,
        0xe3u8 => 2,
        0xe4u8 => 2,
        0xe5u8 => 2,
        0xe6u8 => 2,
        0xe7u8 => 2,
        0xe8u8 => 1,
        0xe9u8 => 2,
        0xeau8 => 1,
        0xebu8 => 2,
        0xecu8 => 3,
        0xedu8 => 3,
        0xeeu8 => 3,
        0xefu8 => 3,
        _ => 0,
    }
}

pub open spec fn opcode_len_f(code: u8) -> u8 {
    match code {
        0xf0u8 => 2,
        0xf1u8 => 2,
        0xf2u8 => 1,
        0xf3u8 => 2,
        0xf4u8 => 2,
        0xf5u8 => 2,
        0xf6u8 => 2,
        0xf7u8 => 2,
        0xf8u8 => 1,
        0xf9u8 => 3,
        0xfau8 => 1,
        0xfbu8 => 3,
        0xfcu8 => 3,
        0xfdu8 => 3,
        0xfeu8 => 3,
        0xffu8 => 3,
        _ => 0,
    }
}

pub open spec fn opcode_cycles_0(code: u8) -> u8 {
    match code {
        0x00u8 => 7,
        0x01u8 => 6,
        0x02u8 => 2,
        0x03u8 => 8,
        0x04u8 => 3,
        0x05u8 => 3,
        0x06u8 => 5,
        0x07u8 => 5,
        0x08u8 => 3,
        0x09u8 => 2,
        0x0au8 => 2,
        0x0bu8 => 2,
        0x0cu8 => 4,
        0x0du8 => 4,
        0x0eu8 => 6,
        0x0fu8 => 6,
        _ => 0,
    }
}

pub open spec fn opcode_cycles_1(code: u8) -> u8 {
    match code {
        0x10u8 => 2,
        0x11u8 => 5,
        0x12u8 => 2,
        0x13u8 => 8,
        0x14u8 => 4,
        0x15u8 => 4,
        0x16u8 => 6,
        0x17u8 => 6,
        0x18u8 => 2,
        0x19u8 => 4,
        0x1au8 => 2,
        0x1bu8 => 7,
        0x1cu8 => 4,
        0x1du8 => 4,
        0x1eu8 => 7,
        0x1fu8 => 7,
        _ => 0,
    }
}

pub open spec fn opcode_cycles_2(code: u8) -> u8 {
    match code {
        0x20u8 => 6,
        0x21u8 => 6,
        0x22u8 => 2,
        0x23u8 => 8,
        0x24u8 => 3,
        0x25u8 => 3,
        0x26u8 => 5,
        0x27u8 => 5,
        0x28u8 => 4,
        0x29u8 => 2,
        0x2au8 => 2,
        0x2bu8 => 2,
        0x2cu8 => 4,
        0x2du8 => 4,
        0x2eu8 => 6,
        0x2fu8 => 6,
        _ => 0,
    }
}

pub open spec fn opcode_cycles_3(code: u8) -> u8 {
    match code {
        0x30u8 => 2,
        0x31u8 => 5,
        0x32u8 => 2,
        0x33u8 => 8,
        0x34u8 => 4,
        0x35u8 => 4,
        0x36u8 => 6,
        0x37u8 => 6,
        0x38u8 => 2,
        0x39u8 => 4,
        0x3au8 => 2,
        0x3bu8 => 7,
        0x3cu8 => 4,
        0x3du8 => 4,
        0x3eu8 => 7,
        0x3fu8 => 7,
        _ => 0,
    }
}

pub open spec fn opcode_cycles_4(code: u8) -> u8 {
    match code {
        0x40u8 => 6,
        0x41u8 => 6,
        0x42u8 => 2,
        0x43u8 => 8,
        0x44u8 => 3,
        0x45u8 => 3,
        0x46u8 => 5,
        0x47u8 => 5,
        0x48u8 => 3,
        0x49u8 => 2,
        0x4au8 => 2,
        0x4bu8 => 2,
        0x4cu8 => 3,
        0x4du8 => 4,
        0x4eu8 => 6,
        0x4fu8 => 6,
        _ => 0,
    }
}

pub open spec fn opcode_cycles_5(code: u8) -> u8 {
    match code {
        0x50u8 => 2,
        0x51u8 => 5,
        0x52u8 => 2,
        0x53u8 => 8,
        0x54u8 => 4,
        0x55u8 => 4,
        0x56u8 => 6,
        0x57u8 => 6,
        0x58u8 => 2,
        0x59u8 => 4,
        0x5au8 => 2,
        0x5bu8 => 7,
        0x5cu8 => 4,
        0x5du8 => 4,
        0x5eu8 => 7,
        0x5fu8 => 7,
        _ => 0,
    }
}

pub open spec fn opcode_cycles_6(code: u8) -> u8 {
    match code {
        0x60u8 => 6,
        0x61u8 => 6,
        0x62u8 => 2,
        0x63u8 => 8,
        0x64u8 => 3,
        0x65u8 => 3,
        0x66u8 => 5,
        0x67u8 => 5,
        0x68u8 => 4,
        0x69u8 => 2,
        0x6au8 => 2,
        0x6bu8 => 2,
        0x6cu8 => 5,
        0x6du8 => 4,
        0x6eu8 => 6,
        0x6fu8 => 6,
        _ => 0,
    }
}

pub open spec fn opcode_cycles_7(code: u8) -> u8 {
    match code {
        0x70u8 => 2,
        0x71u8 => 5,
        0x72u8 => 2,
        0x73u8 => 8,
        0x74u8 => 3,
        0x75u8 => 4,
        0x76u8 => 6,
        0x77u8 => 6,
        0x78u8 => 2,
        0x79u8 => 4,
        0x7au8 => 2,
        0x7bu8 => 7,
        0x7cu8 => 4,
        0x7du8 => 4,
        0x7eu8 => 7,
        0x7fu8 => 7,
        _ => 0,
    }
}

pub open spec fn opcode_cycles_8(code: u8) -> u8 {
    match code {
        0x80u8 => 3,
        0x81u8 => 6,
        0x82u8 => 2,
        0x83u8 => 6,
        0x84u8 => 3,
        0x85u8 => 3,
        0x86u8 => 3,
        0x87u8 => 3,
        0x88u8 => 2,
        0x89u8 => 2,
        0x8au8 => 2,
        0x8bu8 => 3,
        0x8cu8 => 4,
        0x8du8 => 4,
        0x8eu8 => 4,
        0x8fu8 => 4,
        _ => 0,
    }
}

pub open spec fn opcode_cycles_9(code: u8) -> u8 {
    match code {
        0x90u8 => 2,
        0x91u8 => 6,
        0x92u8 => 2,
        0x93u8 => 6,
        0x94u8 => 4,
        0x95u8 => 4,
        0x96u8 => 4,
        0x97u8 => 4,
        0x98u8 => 2,
        0x99u8 => 5,
        0x9au8 => 2,
        0x9bu8 => 2,
        0x9cu8 => 4,
        0x9du8 => 5,
        0x9eu8 => 4,
        0x9fu8 => 5,
        _ => 0,
    }
}

pub open spec fn opcode_cycles_a(code: u8) -> u8 {
    match code {
        0xa0u8 => 2,
        0xa1u8 => 6,
        0xa2u8 => 2,
        0xa3u8 => 6,
        0xa4u8 => 3,
        0xa5u8 => 3,
        0xa6u8 => 3,
        0xa7u8 => 3,
        0xa8u8 => 2,
        0xa9u8 => 2,
        0xaau8 => 2,
        0xabu8 => 3,
        0xacu8 => 4,
        0xadu8 => 4,
        0xaeu8 => 4,
        0xafu8 => 4,
        _ => 0,
    }
}

pub open spec fn opcode_cycles_b(code: u8) -> u8 {
    match code {
        0xb0u8 => 2,
        0xb1u8 => 5,
        0xb2u8 => 2,
        0xb3u8 => 5,
        0xb4u8 => 4,
        0xb5u8 => 4,
        0xb6u8 => 4,
        0xb7u8 => 4,
        0xb8u8 => 2,
        0xb9u8 => 4,
        0xbau8 => 2,
        0xbbu8 => 4,
        0xbcu8 => 4,
        0xbdu8 => 4,
        0xbeu8 => 4,
        0xbfu8 => 4,
        _ => 0,
    }
}

pub open spec fn opcode_cycles_c(code: u8) -> u8 {
    match code {
        0xc0u8 => 2,
        0xc1u8 => 6,
        0xc2u8 => 2,
        0xc3u8 => 8,
        0xc4u8 => 3,
        0xc5u8 => 3,
        0xc6u8 => 5,
        0xc7u8 => 5,
        0xc8u8 => 2,
        0xc9u8 => 2,
        0xcau8 => 2,
        0xcbu8 => 2,
        0xccu8 => 4,
        0xcdu8 => 4,
        0xceu8 => 6,
        0xcfu8 => 6,
        _ => 0,
    }
}

pub open spec fn opcode_cycles_d(code: u8) -> u8 {
    match code {
        0xd0u8 => 2,
        0xd1u8 => 5,
        0xd2u8 => 2,
        0xd3u8 => 8,
        0xd4u8 => 4,
        0xd5u8 => 4,
        0xd6u8 => 6,
        0xd7u8 => 6,
        0xd8u8 => 2,
        0xd9u8 => 4,
        0xdau8 => 2,
        0xdbu8 => 7,
        0xdcu8 => 4,
        0xddu8 => 4,
        0xdeu8 => 7,
        0xdfu8 => 7,
        _ => 0,
    }
}

pub open spec fn opcode_cycles_e(code: u8) -> u8 {
    match code {
        0xe0u8 => 2,
        0xe1u8 => 6,
        0xe2u8 => 2,
        0xe3u8 => 8,
        0xe4u8 => 3,
        0xe5u8 => 3,
        0xe6u8 => 5,
        0xe7u8 => 5,
        0xe8u8 => 2,
        0xe9u8 => 2,
        0xeau8 => 2,
        0xebu8 => 2,
        0xecu8 => 4,
        0xedu8 => 4,
        0xeeu8 => 6,
        0xefu8 => 6,
        _ => 0,
    }
}

pub open spec fn opcode_cycles_f(code: u8) -> u8 {
    match code {
        0xf0u8 => 2,
        0xf1u8 => 5,
        0xf2u8 => 2,
        0xf3u8 => 8,
        0xf4u8 => 4,
        0xf5u8 => 4,
        0xf6u8 => 6,
        0xf7u8 => 6,
        0xf8u8 => 2,
        0xf9u8 => 4,
        0xfau8 => 2,
        0xfbu8 => 7,
        0xfcu8 => 4,
        0xfdu8 => 4,
        0xfeu8 => 7,
        0xffu8 => 7,
        _ => 0,
    }
}

pub open spec fn opcode_mode_0(code: u8) -> AddressingMode {
    match code {
        0x00u8 => AddressingMode::NoneAddressing,
        0x01u8 => AddressingMode::Indirect_X,
        0x02u8 => AddressingMode::NoneAddressing,
        0x03u8 => AddressingMode::Indirect_X,
        0x04u8 => AddressingMode::ZeroPage,
        0x05u8 => AddressingMode::ZeroPage,
        0x06u8 => AddressingMode::ZeroPage,
        0x07u8 => AddressingMode::ZeroPage,
        0x08u8 => AddressingMode::NoneAddressing,
        0x09u8 => AddressingMode::Immediate,
        0x0au8 => AddressingMode::NoneAddressing,
        0x0bu8 => AddressingMode::Immediate,
        0x0cu8 => AddressingMode::Absolute,
        0x0du8 => AddressingMode::Absolute,
        0x0eu8 => AddressingMode::Absolute,
        0x0fu8 => AddressingMode::Absolute,
        _ => AddressingMode::NoneAddressing,
    }
}

pub open spec fn opcode_mode_1(code: u8) -> AddressingMode {
    match code {
        0x10u8 => AddressingMode::NoneAddressing,
        0x11u8 => AddressingMode::Indirect_Y,
        0x12u8 => AddressingMode::NoneAddressing,
        0x13u8 => AddressingMode::Indirect_Y,
        0x14u8 => AddressingMode::ZeroPage_X,
        0x15u8 => AddressingMode::ZeroPage_X,
        0x16u8 => AddressingMode::ZeroPage_X,
        0x17u8 => AddressingMode::ZeroPage_X,
        0x18u8 => AddressingMode::NoneAddressing,
        0x19u8 => AddressingMode::Absolute_Y,
        0x1au8 => AddressingMode::NoneAddressing,
        0x1bu8 => AddressingMode::Absolute_Y,
        0x1cu8 => AddressingMode::Absolute_X,
        0x1du8 => AddressingMode::Absolute_X,
        0x1eu8 => AddressingMode::Absolute_X,
        0x1fu8 => AddressingMode::Absolute_X,
        _ => AddressingMode::NoneAddressing,
    }
}

pub open spec fn opcode_mode_2(code: u8) -> AddressingMode {
    match code {
        0x20u8 => AddressingMode::Absolute,
        0x21u8 => AddressingMode::Indirect_X,
        0x22u8 => AddressingMode::NoneAddressing,
        0x23u8 => AddressingMode::Indirect_X,
        0x24u8 => AddressingMode::ZeroPage,
        0x25u8 => AddressingMode::ZeroPage,
        0x26u8 => AddressingMode::ZeroPage,
        0x27u8 => AddressingMode::ZeroPage,
        0x28u8 => AddressingMode::NoneAddressing,
        0x29u8 => AddressingMode::Immediate,
        0x2au8 => AddressingMode::NoneAddressing,
        0x2bu8 => AddressingMode::Immediate,
        0x2cu8 => AddressingMode::Absolute,
        0x2du8 => AddressingMode::Absolute,
        0x2eu8 => AddressingMode::Absolute,
        0x2fu8 => AddressingMode::Absolute,
        _ => AddressingMode::NoneAddressing,
    }
}

pub open spec fn opcode_mode_3(code: u8) -> AddressingMode {
    match code {
        0x30u8 => AddressingMode::NoneAddressing,
        0x31u8 => AddressingMode::Indirect_Y,
        0x32u8 => AddressingMode::NoneAddressing,
        0x33u8 => AddressingMode::Indirect_Y,
        0x34u8 => AddressingMode::ZeroPage_X,
        0x35u8 => AddressingMode::ZeroPage_X,
        0x36u8 => AddressingMode::ZeroPage_X,
        0x37u8 => AddressingMode::ZeroPage_X,
        0x38u8 => AddressingMode::NoneAddressing,
        0x39u8 => AddressingMode::Absolute_Y,
        0x3au8 => AddressingMode::NoneAddressing,
        0x3bu8 => AddressingMode::Absolute_Y,
        0x3cu8 => AddressingMode::Absolute_X,
        0x3du8 => AddressingMode::Absolute_X,
        0x3eu8 => AddressingMode::Absolute_X,
        0x3fu8 => AddressingMode::Absolute_X,
        _ => AddressingMode::NoneAddressing,
    }
}

pub open spec fn opcode_mode_4(code: u8) -> AddressingMode {
    match code {
        0x40u8 => AddressingMode::NoneAddressing,
        0x41u8 => AddressingMode::Indirect_X,
        0x42u8 => AddressingMode::NoneAddressing,
        0x43u8 => AddressingMode::Indirect_X,
        0x44u8 => AddressingMode::ZeroPage,
        0x45u8 => AddressingMode::ZeroPage,
        0x46u8 => AddressingMode::ZeroPage,
        0x47u8 => AddressingMode::ZeroPage,
        0x48u8 => AddressingMode::NoneAddressing,
        0x49u8 => AddressingMode::Immediate,
        0x4au8 => AddressingMode::NoneAddressing,
        0x4bu8 => AddressingMode::Immediate,
        0x4cu8 => AddressingMode::Absolute,
        0x4du8 => AddressingMode::Absolute,
        0x4eu8 => AddressingMode::Absolute,
        0x4fu8 => AddressingMode::Absolute,
        _ => AddressingMode::NoneAddressing,
    }
}

pub open spec fn opcode_mode_5(code: u8) -> AddressingMode {
    match code {
        0x50u8 => AddressingMode::NoneAddressing,
        0x51u8 => AddressingMode::Indirect_Y,
        0x52u8 => AddressingMode::NoneAddressing,
        0x53u8 => AddressingMode::Indirect_Y,
        0x54u8 => AddressingMode::ZeroPage_X,
        0x55u8 => AddressingMode::ZeroPage_X,
        0x56u8 => AddressingMode::ZeroPage_X,
        0x57u8 => AddressingMode::ZeroPage_X,
        0x58u8 => AddressingMode::NoneAddressing,
        0x59u8 => AddressingMode::Absolute_Y,
        0x5au8 => AddressingMode::NoneAddressing,
        0x5bu8 => AddressingMode::Absolute_Y,
        0x5cu8 => AddressingMode::Absolute_X,
        0x5du8 => AddressingMode::Absolute_X,
        0x5eu8 => AddressingMode::Absolute_X,
        0x5fu8 => AddressingMode::Absolute_X,
        _ => AddressingMode::NoneAddressing,
    }
}

pub open spec fn opcode_mode_6(code: u8) -> AddressingMode {
    match code {
        0x60u8 => AddressingMode::NoneAddressing,
        0x61u8 => AddressingMode::Indirect_X,
        0x62u8 => AddressingMode::NoneAddressing,
        0x63u8 => AddressingMode::Indirect_X,
        0x64u8 => AddressingMode::ZeroPage,
        0x65u8 => AddressingMode::ZeroPage,
        0x66u8 => AddressingMode::ZeroPage,
        0x67u8 => AddressingMode::ZeroPage,
        0x68u8 => AddressingMode::NoneAddressing,
        0x69u8 => AddressingMode::Immediate,
        0x6au8 => AddressingMode::NoneAddressing,
        0x6bu8 => AddressingMode::Immediate,
        0x6cu8 => AddressingMode::Indirect_jmp,
        0x6du8 => AddressingMode::Absolute,
        0x6eu8 => AddressingMode::Absolute,
        0x6fu8 => AddressingMode::Absolute,
        _ => AddressingMode::NoneAddressing,
    }
}

pub open spec fn opcode_mode_7(code: u8) -> AddressingMode {
    match code {
        0x70u8 => AddressingMode::NoneAddressing,
        0x71u8 => AddressingMode::Indirect_Y,
        0x72u8 => AddressingMode::NoneAddressing,
        0x73u8 => AddressingMode::Indirect_Y,
        0x74u8 => AddressingMode::ZeroPage_X,
        0x75u8 => AddressingMode::ZeroPage_X,
        0x76u8 => AddressingMode::ZeroPage_X,
        0x77u8 => AddressingMode::ZeroPage_X,
        0x78u8 => AddressingMode::NoneAddressing,
        0x79u8 => AddressingMode::Absolute_Y,
        0x7au8 => AddressingMode::NoneAddressing,
        0x7bu8 => AddressingMode::Absolute_Y,
        0x7cu8 => AddressingMode::Absolute_X,
        0x7du8 => AddressingMode::Absolute_X,
        0x7eu8 => AddressingMode::Absolute_X,
        0x7fu8 => AddressingMode::Absolute_X,
        _ => AddressingMode::NoneAddressing,
    }
}

pub open spec fn opcode_mode_8(code: u8) -> AddressingMode {
    match code {
        0x80u8 => AddressingMode::Immediate,
        0x81u8 => AddressingMode::Indirect_X,
        0x82u8 => AddressingMode::Immediate,
        0x83u8 => AddressingMode::Indirect_Y,
        0x84u8 => AddressingMode::ZeroPage,
        0x85u8 => AddressingMode::ZeroPage,
        0x86u8 => AddressingMode::ZeroPage,
        0x87u8 => AddressingMode::ZeroPage,
        0x88u8 => AddressingMode::NoneAddressing,
        0x89u8 => AddressingMode::Immediate,
        0x8au8 => AddressingMode::NoneAddressing,
        0x8bu8 => AddressingMode::Immediate,
        0x8cu8 => AddressingMode::Absolute,
        0x8du8 => AddressingMode::Absolute,
        0x8eu8 => AddressingMode::Absolute,
        0x8fu8 => AddressingMode::Absolute,
        _ => AddressingMode::NoneAddressing,
    }
}

pub open spec fn opcode_mode_9(code: u8) -> AddressingMode {
    match code {
        0x90u8 => AddressingMode::NoneAddressing,
        0x91u8 => AddressingMode::Indirect_Y,
        0x92u8 => AddressingMode::NoneAddressing,
        0x93u8 => AddressingMode::Indirect_Y,
        0x94u8 => AddressingMode::ZeroPage_X,
        0x95u8 => AddressingMode::ZeroPage_X,
        0x96u8 => AddressingMode::ZeroPage_Y,
        0x97u8 => AddressingMode::ZeroPage_Y,
        0x98u8 => AddressingMode::NoneAddressing,
        0x99u8 => AddressingMode::Absolute_Y,
        0x9au8 => AddressingMode::NoneAddressing,
        0x9bu8 => AddressingMode::Absolute_Y,
        0x9cu8 => AddressingMode::Absolute_X,
        0x9du8 => AddressingMode::Absolute_X,
        0x9eu8 => AddressingMode::Absolute_Y,
        0x9fu8 => AddressingMode::Absolute_Y,
        _ => AddressingMode::NoneAddressing,
    }
}

pub open spec fn opcode_mode_a(code: u8) -> AddressingMode {
    match code {
        0xa0u8 => AddressingMode::Immediate,
        0xa1u8 => AddressingMode::Indirect_X,
        0xa2u8 => AddressingMode::Immediate,
        0xa3u8 => AddressingMode::Indirect_X,
        0xa4u8 => AddressingMode::ZeroPage,
        0xa5u8 => AddressingMode::ZeroPage,
        0xa6u8 => AddressingMode::ZeroPage,
        0xa7u8 => AddressingMode::ZeroPage,
        0xa8u8 => AddressingMode::NoneAddressing,
        0xa9u8 => AddressingMode::Immediate,
        0xaau8 => AddressingMode::NoneAddressing,
        0xabu8 => AddressingMode::Immediate,
        0xacu8 => AddressingMode::Absolute,
        0xadu8 => AddressingMode::Absolute,
        0xaeu8 => AddressingMode::Absolute,
        0xafu8 => AddressingMode::Absolute,
        _ => AddressingMode::NoneAddressing,
    }
}

pub open spec fn opcode_mode_b(code: u8) -> AddressingMode {
    match code {
        0xb0u8 => AddressingMode::NoneAddressing,
        0xb1u8 => AddressingMode::Indirect_Y,
        0xb2u8 => AddressingMode::NoneAddressing,
        0xb3u8 => AddressingMode::Indirect_Y,
        0xb4u8 => AddressingMode::ZeroPage_X,
        0xb5u8 => AddressingMode::ZeroPage_X,
        0xb6u8 => AddressingMode::ZeroPage_Y,
        0xb7u8 => AddressingMode::ZeroPage_Y,
        0xb8u8 => AddressingMode::NoneAddressing,
        0xb9u8 => AddressingMode::Absolute_Y,
        0xbau8 => AddressingMode::NoneAddressing,
        0xbbu8 => AddressingMode::Absolute_Y,
        0xbcu8 => AddressingMode::Absolute_X,
        0xbdu8 => AddressingMode::Absolute_X,
        0xbeu8 => AddressingMode::Absolute_Y,
        0xbfu8 => AddressingMode::Absolute_Y,
        _ => AddressingMode::NoneAddressing,
    }
}

pub open spec fn opcode_mode_c(code: u8) -> AddressingMode {
    match code {
        0xc0u8 => AddressingMode::Immediate,
        0xc1u8 => AddressingMode::Indirect_X,
        0xc2u8 => AddressingMode::Immediate,
        0xc3u8 => AddressingMode::Indirect_X,
        0xc4u8 => AddressingMode::ZeroPage,
        0xc5u8 => AddressingMode::ZeroPage,
        0xc6u8 => AddressingMode::ZeroPage,
        0xc7u8 => AddressingMode::ZeroPage,
        0xc8u8 => AddressingMode::NoneAddressing,
        0xc9u8 => AddressingMode::Immediate,
        0xcau8 => AddressingMode::NoneAddressing,
        0xcbu8 => AddressingMode::Immediate,
        0xccu8 => AddressingMode::Absolute,
        0xcdu8 => AddressingMode::Absolute,
        0xceu8 => AddressingMode::Absolute,
        0xcfu8 => AddressingMode::Absolute,
        _ => AddressingMode::NoneAddressing,
    }
}

pub open spec fn opcode_mode_d(code: u8) -> AddressingMode {
    match code {
        0xd0u8 => AddressingMode::NoneAddressing,
        0xd1u8 => AddressingMode::Indirect_Y,
        0xd2u8 => AddressingMode::NoneAddressing,
        0xd3u8 => AddressingMode::Indirect_Y,
        0xd4u8 => AddressingMode::ZeroPage_X,
        0xd5u8 => AddressingMode::ZeroPage_X,
        0xd6u8 => AddressingMode::ZeroPage_X,
        0xd7u8 => AddressingMode::ZeroPage_X,
        0xd8u8 => AddressingMode::NoneAddressing,
        0xd9u8 => AddressingMode::Absolute_Y,
        0xdau8 => AddressingMode::NoneAddressing,
        0xdbu8 => AddressingMode::Absolute_Y,
        0xdcu8 => AddressingMode::Absolute_X,
        0xddu8 => AddressingMode::Absolute_X,
        0xdeu8 => AddressingMode::Absolute_X,
        0xdfu8 => AddressingMode::Absolute_X,
        _ => AddressingMode::NoneAddressing,
    }
}

pub open spec fn opcode_mode_e(code: u8) -> AddressingMode {
    match code {
        0xe0u8 => AddressingMode::Immediate,
        0xe1u8 => AddressingMode::Indirect_X,
        0xe2u8 => AddressingMode::Immediate,
        0xe3u8 => AddressingMode::Indirect_X,
        0xe4u8 => AddressingMode::ZeroPage,
        0xe5u8 => AddressingMode::ZeroPage,
        0xe6u8 => AddressingMode::ZeroPage,
        0xe7u8 => AddressingMode::ZeroPage,
        0xe8u8 => AddressingMode::NoneAddressing,
        0xe9u8 => AddressingMode::Immediate,
        0xeau8 => AddressingMode::NoneAddressing,
        0xebu8 => AddressingMode::Immediate,
        0xecu8 => AddressingMode::Absolute,
        0xedu8 => AddressingMode::Absolute,
        0xeeu8 => AddressingMode::Absolute,
        0xefu8 => AddressingMode::Absolute,
        _ => AddressingMode::NoneAddressing,
    }
}

pub open spec fn opcode_mode_f(code: u8) -> AddressingMode {
    match code {
        0xf0u8 => AddressingMode::NoneAddressing,
        0xf1u8 => AddressingMode::Indirect_Y,
        0xf2u8 => AddressingMode::NoneAddressing,
        0xf3u8 => AddressingMode::Indirect_Y,
        0xf4u8 => AddressingMode::ZeroPage_X,
        0xf5u8 => AddressingMode::ZeroPage_X,
        0xf6u8 => AddressingMode::ZeroPage_X,
        0xf7u8 => AddressingMode::ZeroPage_X,
        0xf8u8 => AddressingMode::NoneAddressing,
        0xf9u8 => AddressingMode::Absolute_Y,
        0xfau8 => AddressingMode::NoneAddressing,
        0xfbu8 => AddressingMode::Absolute_Y,
        0xfcu8 => AddressingMode::Absolute_X,
        0xfdu8 => AddressingMode::Absolute_X,
        0xfeu8 => AddressingMode::Absolute_X,
        0xffu8 => AddressingMode::Absolute_X,
        _ => AddressingMode::NoneAddressing,
    }
}

/// The instruction length, in bytes, of each opcode.
pub open spec fn opcode_len(code: u8) -> u8 {
    if code < 0x10 {
        opcode_len_0(code)
    } else if code < 0x20 {
        opcode_len_1(code)
    } else if code < 0x30 {
        opcode_len_2(code)
    } else if code < 0x40 {
        opcode_len_3(code)
    } else if code < 0x50 {
        opcode_len_4(code)
    } else if code < 0x60 {
        opcode_len_5(code)
    } else if code < 0x70 {
        opcode_len_6(code)
    } else if code < 0x80 {
        opcode_len_7(code)
    } else if code < 0x90 {
        opcode_len_8(code)
    } else if code < 0xa0 {
        opcode_len_9(code)
    } else if code < 0xb0 {
        opcode_len_a(code)
    } else if code < 0xc0 {
        opcode_len_b(code)
    } else if code < 0xd0 {
        opcode_len_c(code)
    } else if code < 0xe0 {
        opcode_len_d(code)
    } else if code < 0xf0 {
        opcode_len_e(code)
    } else {
        opcode_len_f(code)
    }
}

/// The base cycle cost (surcharges come on top) of each opcode.
pub open spec fn opcode_cycles(code: u8) -> u8 {
    if code < 0x10 {
        opcode_cycles_0(code)
    } else if code < 0x20 {
        opcode_cycles_1(code)
    } else if code < 0x30 {
        opcode_cycles_2(code)
    } else if code < 0x40 {
        opcode_cycles_3(code)
    } else if code < 0x50 {
        opcode_cycles_4(code)
    } else if code < 0x60 {
        opcode_cycles_5(code)
    } else if code < 0x70 {
        opcode_cycles_6(code)
    } else if code < 0x80 {
        opcode_cycles_7(code)
    } else if code < 0x90 {
        opcode_cycles_8(code)
    } else if code < 0xa0 {
        opcode_cycles_9(code)
    } else if code < 0xb0 {
        opcode_cycles_a(code)
    } else if code < 0xc0 {
        opcode_cycles_b(code)
    } else if code < 0xd0 {
        opcode_cycles_c(code)
    } else if code < 0xe0 {
        opcode_cycles_d(code)
    } else if code < 0xf0 {
        opcode_cycles_e(code)
    } else {
        opcode_cycles_f(code)
    }
}

/// The addressing mode of each opcode.
pub open spec fn opcode_mode(code: u8) -> AddressingMode {
    if code < 0x10 {
        opcode_mode_0(code)
    } else if code < 0x20 {
        opcode_mode_1(code)
    } else if code < 0x30 {
        opcode_mode_2(code)
    } else if code < 0x40 {
        opcode_mode_3(code)
    } else if code < 0x50 {
        opcode_mode_4(code)
    } else if code < 0x60 {
        opcode_mode_5(code)
    } else if code < 0x70 {
        opcode_mode_6(code)
    } else if code < 0x80 {
        opcode_mode_7(code)
    } else if code < 0x90 {
        opcode_mode_8(code)
    } else if code < 0xa0 {
        opcode_mode_9(code)
    } else if code < 0xb0 {
        opcode_mode_a(code)
    } else if code < 0xc0 {
        opcode_mode_b(code)
    } else if code < 0xd0 {
        opcode_mode_c(code)
    } else if code < 0xe0 {
        opcode_mode_d(code)
    } else if code < 0xf0 {
        opcode_mode_e(code)
    } else {
        opcode_mode_f(code)
    }
}

fn opcode_lookup_0(code: u8) -> (r: OpCode)
    requires
        0x00 <= code < 0x10,
    ensures
        r.code == code,
        r.len == opcode_len(code),
        r.cycles == opcode_cycles(code),
        r.mode == opcode_mode(code),
{
    match code {
        0x00 => OpCode::new(0x00, "BRK", 1, 7, AddressingMode::NoneAddressing),
        0x01 => OpCode::new(0x01, "ORA", 2, 6, AddressingMode::Indirect_X),
        0x02 => OpCode::new(0x02, "*NOP", 1, 2, AddressingMode::NoneAddressing),
        0x03 => OpCode::new(0x03, "*SLO", 2, 8, AddressingMode::Indirect_X),
        0x04 => OpCode::new(0x04, "*NOP", 2, 3, AddressingMode::ZeroPage),
        0x05 => OpCode::new(0x05, "ORA", 2, 3, AddressingMode::ZeroPage),
        0x06 => OpCode::new(0x06, "ASL", 2, 5, AddressingMode::ZeroPage),
        0x07 => OpCode::new(0x07, "*SLO", 2, 5, AddressingMode::ZeroPage),
        0x08 => OpCode::new(0x08, "PHP", 1, 3, AddressingMode::NoneAddressing),
        0x09 => OpCode::new(0x09, "ORA", 2, 2, AddressingMode::Immediate),
        0x0a => OpCode::new(0x0a, "ASL", 1, 2, AddressingMode::NoneAddressing),
        0x0b => OpCode::new(0x0b, "*ANC", 2, 2, AddressingMode::Immediate),
        0x0c => OpCode::new(0x0c, "*NOP", 3, 4, AddressingMode::Absolute),
        0x0d => OpCode::new(0x0d, "ORA", 3, 4, AddressingMode::Absolute),
        0x0e => OpCode::new(0x0e, "ASL", 3, 6, AddressingMode::Absolute),
        0x0f => OpCode::new(0x0f, "*SLO", 3, 6, AddressingMode::Absolute),
        _ => OpCode::new(code, "___", 0, 0, AddressingMode::NoneAddressing),
    }
}

fn opcode_lookup_1(code: u8) -> (r: OpCode)
    requires
        0x10 <= code < 0x20,
    ensures
        r.code == code,
        r.len == opcode_len(code),
        r.cycles == opcode_cycles(code),
        r.mode == opcode_mode(code),
{
    match code {
        0x10 => OpCode::new(0x10, "BPL", 2, 2, AddressingMode::NoneAddressing),
        0x11 => OpCode::new(0x11, "ORA", 2, 5, AddressingMode::Indirect_Y),
        0x12 => OpCode::new(0x12, "*NOP", 1, 2, AddressingMode::NoneAddressing),
        0x13 => OpCode::new(0x13, "*SLO", 2, 8, AddressingMode::Indirect_Y),
        0x14 => OpCode::new(0x14, "*NOP", 2, 4, AddressingMode::ZeroPage_X),
        0x15 => OpCode::new(0x15, "ORA", 2, 4, AddressingMode::ZeroPage_X),
        0x16 => OpCode::new(0x16, "ASL", 2, 6, AddressingMode::ZeroPage_X),
        0x17 => OpCode::new(0x17, "*SLO", 2, 6, AddressingMode::ZeroPage_X),
        0x18 => OpCode::new(0x18, "CLC", 1, 2, AddressingMode::NoneAddressing),
        0x19 => OpCode::new(0x19, "ORA", 3, 4, AddressingMode::Absolute_Y),
        0x1a => OpCode::new(0x1a, "*NOP", 1, 2, AddressingMode::NoneAddressing),
        0x1b => OpCode::new(0x1b, "*SLO", 3, 7, AddressingMode::Absolute_Y),
        0x1c => OpCode::new(0x1c, "*NOP", 3, 4, AddressingMode::Absolute_X),
        0x1d => OpCode::new(0x1d, "ORA", 3, 4, AddressingMode::Absolute_X),
        0x1e => OpCode::new(0x1e, "ASL", 3, 7, AddressingMode::Absolute_X),
        0x1f => OpCode::new(0x1f, "*SLO", 3, 7, AddressingMode::Absolute_X),
        _ => OpCode::new(code, "___", 0, 0, AddressingMode::NoneAddressing),
    }
}

fn opcode_lookup_2(code: u8) -> (r: OpCode)
    requires
        0x20 <= code < 0x30,
    ensures
        r.code == code,
        r.len == opcode_len(code),
        r.cycles == opcode_cycles(code),
        r.mode == opcode_mode(code),
{
    match code {
        0x20 => OpCode::new(0x20, "JSR", 3, 6, AddressingMode::Absolute),
        0x21 => OpCode::new(0x21, "AND", 2, 6, AddressingMode::Indirect_X),
        0x22 => OpCode::new(0x22, "*NOP", 1, 2, AddressingMode::NoneAddressing),
        0x23 => OpCode::new(0x23, "*RLA", 2, 8, AddressingMode::Indirect_X),
        0x24 => OpCode::new(0x24, "BIT", 2, 3, AddressingMode::ZeroPage),
        0x25 => OpCode::new(0x25, "AND", 2, 3, AddressingMode::ZeroPage),
        0x26 => OpCode::new(0x26, "ROL", 2, 5, AddressingMode::ZeroPage),
        0x27 => OpCode::new(0x27, "*RLA", 2, 5, AddressingMode::ZeroPage),
        0x28 => OpCode::new(0x28, "PLP", 1, 4, AddressingMode::NoneAddressing),
        0x29 => OpCode::new(0x29, "AND", 2, 2, AddressingMode::Immediate),
        0x2a => OpCode::new(0x2a, "ROL", 1, 2, AddressingMode::NoneAddressing),
        0x2b => OpCode::new(0x2b, "*ANC", 2, 2, AddressingMode::Immediate),
        0x2c => OpCode::new(0x2c, "BIT", 3, 4, AddressingMode::Absolute),
        0x2d => OpCode::new(0x2d, "AND", 3, 4, AddressingMode::Absolute),
        0x2e => OpCode::new(0x2e, "ROL", 3, 6, AddressingMode::Absolute),
        0x2f => OpCode::new(0x2f, "*RLA", 3, 6, AddressingMode::Absolute),
        _ => OpCode::new(code, "___", 0, 0, AddressingMode::NoneAddressing),
    }
}

fn opcode_lookup_3(code: u8) -> (r: OpCode)
    requires
        0x30 <= code < 0x40,
    ensures
        r.code == code,
        r.len == opcode_len(code),
        r.cycles == opcode_cycles(code),
        r.mode == opcode_mode(code),
{
    match code {
        0x30 => OpCode::new(0x30, "BMI", 2, 2, AddressingMode::NoneAddressing),
        0x31 => OpCode::new(0x31, "AND", 2, 5, AddressingMode::Indirect_Y),
        0x32 => OpCode::new(0x32, "*NOP", 1, 2, AddressingMode::NoneAddressing),
        0x33 => OpCode::new(0x33, "*RLA", 2, 8, AddressingMode::Indirect_Y),
        0x34 => OpCode::new(0x34, "*NOP", 2, 4, AddressingMode::ZeroPage_X),
        0x35 => OpCode::new(0x35, "AND", 2, 4, AddressingMode::ZeroPage_X),
        0x36 => OpCode::new(0x36, "ROL", 2, 6, AddressingMode::ZeroPage_X),
        0x37 => OpCode::new(0x37, "*RLA", 2, 6, AddressingMode::ZeroPage_X),
        0x38 => OpCode::new(0x38, "SEC", 1, 2, AddressingMode::NoneAddressing),
        0x39 => OpCode::new(0x39, "AND", 3, 4, AddressingMode::Absolute_Y),
        0x3a => OpCode::new(0x3a, "*NOP", 1, 2, AddressingMode::NoneAddressing),
        0x3b => OpCode::new(0x3b, "*RLA", 3, 7, AddressingMode::Absolute_Y),
        0x3c => OpCode::new(0x3c, "*NOP", 3, 4, AddressingMode::Absolute_X),
        0x3d => OpCode::new(0x3d, "AND", 3, 4, AddressingMode::Absolute_X),
        0x3e => OpCode::new(0x3e, "ROL", 3, 7, AddressingMode::Absolute_X),
        0x3f => OpCode::new(0x3f, "*RLA", 3, 7, AddressingMode::Absolute_X),
        _ => OpCode::new(code, "___", 0, 0, AddressingMode::NoneAddressing),
    }
}

fn opcode_lookup_4(code: u8) -> (r: OpCode)
    requires
        0x40 <= code < 0x50,
    ensures
        r.code == code,
        r.len == opcode_len(code),
        r.cycles == opcode_cycles(code),
        r.mode == opcode_mode(code),
{
    match code {
        0x40 => OpCode::new(0x40, "RTI", 1, 6, AddressingMode::NoneAddressing),
        0x41 => OpCode::new(0x41, "EOR", 2, 6, AddressingMode::Indirect_X),
        0x42 => OpCode::new(0x42, "*NOP", 1, 2, AddressingMode::NoneAddressing),
        0x43 => OpCode::new(0x43, "*SRE", 2, 8, AddressingMode::Indirect_X),
        0x44 => OpCode::new(0x44, "*NOP", 2, 3, AddressingMode::ZeroPage),
        0x45 => OpCode::new(0x45, "EOR", 2, 3, AddressingMode::ZeroPage),
        0x46 => OpCode::new(0x46, "LSR", 2, 5, AddressingMode::ZeroPage),
        0x47 => OpCode::new(0x47, "*SRE", 2, 5, AddressingMode::ZeroPage),
        0x48 => OpCode::new(0x48, "PHA", 1, 3, AddressingMode::NoneAddressing),
        0x49 => OpCode::new(0x49, "EOR", 2, 2, AddressingMode::Immediate),
        0x4a => OpCode::new(0x4a, "LSR", 1, 2, AddressingMode::NoneAddressing),
        0x4b => OpCode::new(0x4b, "*ASR", 2, 2, AddressingMode::Immediate),
        0x4c => OpCode::new(0x4c, "JMP", 3, 3, AddressingMode::Absolute),
        0x4d => OpCode::new(0x4d, "EOR", 3, 4, AddressingMode::Absolute),
        0x4e => OpCode::new(0x4e, "LSR", 3, 6, AddressingMode::Absolute),
        0x4f => OpCode::new(0x4f, "*SRE", 3, 6, AddressingMode::Absolute),
        _ => OpCode::new(code, "___", 0, 0, AddressingMode::NoneAddressing),
    }
}

fn opcode_lookup_5(code: u8) -> (r: OpCode)
    requires
        0x50 <= code < 0x60,
    ensures
        r.code == code,
        r.len == opcode_len(code),
        r.cycles == opcode_cycles(code),
        r.mode == opcode_mode(code),
{
    match code {
        0x50 => OpCode::new(0x50, "BVC", 2, 2, AddressingMode::NoneAddressing),
        0x51 => OpCode::new(0x51, "EOR", 2, 5, AddressingMode::Indirect_Y),
        0x52 => OpCode::new(0x52, "*NOP", 1, 2, AddressingMode::NoneAddressing),
        0x53 => OpCode::new(0x53, "*SRE", 2, 8, AddressingMode::Indirect_Y),
        0x54 => OpCode::new(0x54, "*NOP", 2, 4, AddressingMode::ZeroPage_X),
        0x55 => OpCode::new(0x55, "EOR", 2, 4, AddressingMode::ZeroPage_X),
        0x56 => OpCode::new(0x56, "LSR", 2, 6, AddressingMode::ZeroPage_X),
        0x57 => OpCode::new(0x57, "*SRE", 2, 6, AddressingMode::ZeroPage_X),
        0x58 => OpCode::new(0x58, "CLI", 1, 2, AddressingMode::NoneAddressing),
        0x59 => OpCode::new(0x59, "EOR", 3, 4, AddressingMode::Absolute_Y),
        0x5a => OpCode::new(0x5a, "*NOP", 1, 2, AddressingMode::NoneAddressing),
        0x5b => OpCode::new(0x5b, "*SRE", 3, 7, AddressingMode::Absolute_Y),
        0x5c => OpCode::new(0x5c, "*NOP", 3, 4, AddressingMode::Absolute_X),
        0x5d => OpCode::new(0x5d, "EOR", 3, 4, AddressingMode::Absolute_X),
        0x5e => OpCode::new(0x5e, "LSR", 3, 7, AddressingMode::Absolute_X),
        0x5f => OpCode::new(0x5f, "*SRE", 3, 7, AddressingMode::Absolute_X),
        _ => OpCode::new(code, "___", 0, 0, AddressingMode::NoneAddressing),
    }
}

fn opcode_lookup_6(code: u8) -> (r: OpCode)
    requires
        0x60 <= code < 0x70,
    ensures
        r.code == code,
        r.len == opcode_len(code),
        r.cycles == opcode_cycles(code),
        r.mode == opcode_mode(code),
{
    match code {
        0x60 => OpCode::new(0x60, "RTS", 1, 6, AddressingMode::NoneAddressing),
        0x61 => OpCode::new(0x61, "ADC", 2, 6, AddressingMode::Indirect_X),
        0x62 => OpCode::new(0x62, "*NOP", 1, 2, AddressingMode::NoneAddressing),
        0x63 => OpCode::new(0x63, "*RRA", 2, 8, AddressingMode::Indirect_X),
        0x64 => OpCode::new(0x64, "*NOP", 2, 3, AddressingMode::ZeroPage),
        0x65 => OpCode::new(0x65, "ADC", 2, 3, AddressingMode::ZeroPage),
        0x66 => OpCode::new(0x66, "ROR", 2, 5, AddressingMode::ZeroPage),
        0x67 => OpCode::new(0x67, "*RRA", 2, 5, AddressingMode::ZeroPage),
        0x68 => OpCode::new(0x68, "PLA", 1, 4, AddressingMode::NoneAddressing),
        0x69 => OpCode::new(0x69, "ADC", 2, 2, AddressingMode::Immediate),
        0x6a => OpCode::new(0x6a, "ROR", 1, 2, AddressingMode::NoneAddressing),
        0x6b => OpCode::new(0x6b, "*ARR", 2, 2, AddressingMode::Immediate),
        0x6c => OpCode::new(0x6c, "JMP", 3, 5, AddressingMode::Indirect_jmp),
        0x6d => OpCode::new(0x6d, "ADC", 3, 4, AddressingMode::Absolute),
        0x6e => OpCode::new(0x6e, "ROR", 3, 6, AddressingMode::Absolute),
        0x6f => OpCode::new(0x6f, "*RRA", 3, 6, AddressingMode::Absolute),
        _ => OpCode::new(code, "___", 0, 0, AddressingMode::NoneAddressing),
    }
}

fn opcode_lookup_7(code: u8) -> (r: OpCode)
    requires
        0x70 <= code < 0x80,
    ensures
        r.code == code,
        r.len == opcode_len(code),
        r.cycles == opcode_cycles(code),
        r.mode == opcode_mode(code),
{
    match code {
        0x70 => OpCode::new(0x70, "BVS", 2, 2, AddressingMode::NoneAddressing),
        0x71 => OpCode::new(0x71, "ADC", 2, 5, AddressingMode::Indirect_Y),
        0x72 => OpCode::new(0x72, "*NOP", 1, 2, AddressingMode::NoneAddressing),
        0x73 => OpCode::new(0x73, "*RRA", 2, 8, AddressingMode::Indirect_Y),
        0x74 => OpCode::new(0x74, "*NOP", 2, 3, AddressingMode::ZeroPage_X),
        0x75 => OpCode::new(0x75, "ADC", 2, 4, AddressingMode::ZeroPage_X),
        0x76 => OpCode::new(0x76, "ROR", 2, 6, AddressingMode::ZeroPage_X),
        0x77 => OpCode::new(0x77, "*RRA", 2, 6, AddressingMode::ZeroPage_X),
        0x78 => OpCode::new(0x78, "SEI", 1, 2, AddressingMode::NoneAddressing),
        0x79 => OpCode::new(0x79, "ADC", 3, 4, AddressingMode::Absolute_Y),
        0x7a => OpCode::new(0x7a, "*NOP", 1, 2, AddressingMode::NoneAddressing),
        0x7b => OpCode::new(0x7b, "*RRA", 3, 7, AddressingMode::Absolute_Y),
        0x7c => OpCode::new(0x7c, "*NOP", 3, 4, AddressingMode::Absolute_X),
        0x7d => OpCode::new(0x7d, "ADC", 3, 4, AddressingMode::Absolute_X),
        0x7e => OpCode::new(0x7e, "ROR", 3, 7, AddressingMode::Absolute_X),
        0x7f => OpCode::new(0x7f, "*RRA", 3, 7, AddressingMode::Absolute_X),
        _ => OpCode::new(code, "___", 0, 0, AddressingMode::NoneAddressing),
    }
}

fn opcode_lookup_8(code: u8) -> (r: OpCode)
    requires
        0x80 <= code < 0x90,
    ensures
        r.code == code,
        r.len == opcode_len(code),
        r.cycles == opcode_cycles(code),
        r.mode == opcode_mode(code),
{
    match code {
        0x80 => OpCode::new(0x80, "*NOP", 2, 3, AddressingMode::Immediate),
        0x81 => OpCode::new(0x81, "STA", 2, 6, AddressingMode::Indirect_X),
        0x82 => OpCode::new(0x82, "*NOP", 2, 2, AddressingMode::Immediate),
        0x83 => OpCode::new(0x83, "*SAX", 2, 6, AddressingMode::Indirect_Y),
        0x84 => OpCode::new(0x84, "STY", 2, 3, AddressingMode::ZeroPage),
        0x85 => OpCode::new(0x85, "STA", 2, 3, AddressingMode::ZeroPage),
        0x86 => OpCode::new(0x86, "STX", 2, 3, AddressingMode::ZeroPage),
        0x87 => OpCode::new(0x87, "*SAX", 2, 3, AddressingMode::ZeroPage),
        0x88 => OpCode::new(0x88, "DEY", 1, 2, AddressingMode::NoneAddressing),
        0x89 => OpCode::new(0x89, "*NOP", 2, 2, AddressingMode::Immediate),
        0x8a => OpCode::new(0x8a, "TXA", 1, 2, AddressingMode::NoneAddressing),
        0x8b => OpCode::new(0x8b, "*XAA", 2, 3, AddressingMode::Immediate),
        0x8c => OpCode::new(0x8c, "STY", 3, 4, AddressingMode::Absolute),
        0x8d => OpCode::new(0x8d, "STA", 3, 4, AddressingMode::Absolute),
        0x8e => OpCode::new(0x8e, "STX", 3, 4, AddressingMode::Absolute),
        0x8f => OpCode::new(0x8f, "*SAX", 3, 4, AddressingMode::Absolute),
        _ => OpCode::new(code, "___", 0, 0, AddressingMode::NoneAddressing),
    }
}

fn opcode_lookup_9(code: u8) -> (r: OpCode)
    requires
        0x90 <= code < 0xa0,
    ensures
        r.code == code,
        r.len == opcode_len(code),
        r.cycles == opcode_cycles(code),
        r.mode == opcode_mode(code),
{
    match code {
        0x90 => OpCode::new(0x90, "BCC", 2, 2, AddressingMode::NoneAddressing),
        0x91 => OpCode::new(0x91, "STA", 2, 6, AddressingMode::Indirect_Y),
        0x92 => OpCode::new(0x92, "*NOP", 1, 2, AddressingMode::NoneAddressing),
        0x93 => OpCode::new(0x93, "*AHX", 2, 6, AddressingMode::Indirect_Y),
        0x94 => OpCode::new(0x94, "STY", 2, 4, AddressingMode::ZeroPage_X),
        0x95 => OpCode::new(0x95, "STA", 2, 4, AddressingMode::ZeroPage_X),
        0x96 => OpCode::new(0x96, "STX", 2, 4, AddressingMode::ZeroPage_Y),
        0x97 => OpCode::new(0x97, "*SAX", 2, 4, AddressingMode::ZeroPage_Y),
        0x98 => OpCode::new(0x98, "TYA", 1, 2, AddressingMode::NoneAddressing),
        0x99 => OpCode::new(0x99, "STA", 3, 5, AddressingMode::Absolute_Y),
        0x9a => OpCode::new(0x9a, "TXS", 1, 2, AddressingMode::NoneAddressing),
        0x9b => OpCode::new(0x9b, "*TAS", 3, 2, AddressingMode::Absolute_Y),
        0x9c => OpCode::new(0x9c, "*SHY", 3, 4, AddressingMode::Absolute_X),
        0x9d => OpCode::new(0x9d, "STA", 3, 5, AddressingMode::Absolute_X),
        0x9e => OpCode::new(0x9e, "*SHX", 3, 4, AddressingMode::Absolute_Y),
        0x9f => OpCode::new(0x9f, "*AHX", 3, 5, AddressingMode::Absolute_Y),
        _ => OpCode::new(code, "___", 0, 0, AddressingMode::NoneAddressing),
    }
}

fn opcode_lookup_a(code: u8) -> (r: OpCode)
    requires
        0xa0 <= code < 0xb0,
    ensures
        r.code == code,
        r.len == opcode_len(code),
        r.cycles == opcode_cycles(code),
        r.mode == opcode_mode(code),
{
    match code {
        0xa0 => OpCode::new(0xa0, "LDY", 2, 2, AddressingMode::Immediate),
        0xa1 => OpCode::new(0xa1, "LDA", 2, 6, AddressingMode::Indirect_X),
        0xa2 => OpCode::new(0xa2, "LDX", 2, 2, AddressingMode::Immediate),
        0xa3 => OpCode::new(0xa3, "*LAX", 2, 6, AddressingMode::Indirect_X),
        0xa4 => OpCode::new(0xa4, "LDY", 2, 3, AddressingMode::ZeroPage),
        0xa5 => OpCode::new(0xa5, "LDA", 2, 3, AddressingMode::ZeroPage),
        0xa6 => OpCode::new(0xa6, "LDX", 2, 3, AddressingMode::ZeroPage),
        0xa7 => OpCode::new(0xa7, "*LAX", 2, 3, AddressingMode::ZeroPage),
        0xa8 => OpCode::new(0xa8, "TAY", 1, 2, AddressingMode::NoneAddressing),
        0xa9 => OpCode::new(0xa9, "LDA", 2, 2, AddressingMode::Immediate),
        0xaa => OpCode::new(0xaa, "TAX", 1, 2, AddressingMode::NoneAddressing),
        0xab => OpCode::new(0xab, "*LXA", 2, 3, AddressingMode::Immediate),
        0xac => OpCode::new(0xac, "LDY", 3, 4, AddressingMode::Absolute),
        0xad => OpCode::new(0xad, "LDA", 3, 4, AddressingMode::Absolute),
        0xae => OpCode::new(0xae, "LDX", 3, 4, AddressingMode::Absolute),
        0xaf => OpCode::new(0xaf, "*LAX", 3, 4, AddressingMode::Absolute),
        _ => OpCode::new(code, "___", 0, 0, AddressingMode::NoneAddressing),
    }
}

fn opcode_lookup_b(code: u8) -> (r: OpCode)
    requires
        0xb0 <= code < 0xc0,
    ensures
        r.code == code,
        r.len == opcode_len(code),
        r.cycles == opcode_cycles(code),
        r.mode == opcode_mode(code),
{
    match code {
        0xb0 => OpCode::new(0xb0, "BCS", 2, 2, AddressingMode::NoneAddressing),
        0xb1 => OpCode::new(0xb1, "LDA", 2, 5, AddressingMode::Indirect_Y),
        0xb2 => OpCode::new(0xb2, "*NOP", 1, 2, AddressingMode::NoneAddressing),
        0xb3 => OpCode::new(0xb3, "*LAX", 2, 5, AddressingMode::Indirect_Y),
        0xb4 => OpCode::new(0xb4, "LDY", 2, 4, AddressingMode::ZeroPage_X),
        0xb5 => OpCode::new(0xb5, "LDA", 2, 4, AddressingMode::ZeroPage_X),
        0xb6 => OpCode::new(0xb6, "LDX", 2, 4, AddressingMode::ZeroPage_Y),
        0xb7 => OpCode::new(0xb7, "*LAX", 2, 4, AddressingMode::ZeroPage_Y),
        0xb8 => OpCode::new(0xb8, "CLV", 1, 2, AddressingMode::NoneAddressing),
        0xb9 => OpCode::new(0xb9, "LDA", 3, 4, AddressingMode::Absolute_Y),
        0xba => OpCode::new(0xba, "TSX", 1, 2, AddressingMode::NoneAddressing),
        0xbb => OpCode::new(0xbb, "*LAS", 3, 4, AddressingMode::Absolute_Y),
        0xbc => OpCode::new(0xbc, "LDY", 3, 4, AddressingMode::Absolute_X),
        0xbd => OpCode::new(0xbd, "LDA", 3, 4, AddressingMode::Absolute_X),
        0xbe => OpCode::new(0xbe, "LDX", 3, 4, AddressingMode::Absolute_Y),
        0xbf => OpCode::new(0xbf, "*LAX", 3, 4, AddressingMode::Absolute_Y),
        _ => OpCode::new(code, "___", 0, 0, AddressingMode::NoneAddressing),
    }
}

fn opcode_lookup_c(code: u8) -> (r: OpCode)
    requires
        0xc0 <= code < 0xd0,
    ensures
        r.code == code,
        r.len == opcode_len(code),
        r.cycles == opcode_cycles(code),
        r.mode == opcode_mode(code),
{
    match code {
        0xc0 => OpCode::new(0xc0, "CPY", 2, 2, AddressingMode::Immediate),
        0xc1 => OpCode::new(0xc1, "CMP", 2, 6, AddressingMode::Indirect_X),
        0xc2 => OpCode::new(0xc2, "*NOP", 2, 2, AddressingMode::Immediate),
        0xc3 => OpCode::new(0xc3, "*DCP", 2, 8, AddressingMode::Indirect_X),
        0xc4 => OpCode::new(0xc4, "CPY", 2, 3, AddressingMode::ZeroPage),
        0xc5 => OpCode::new(0xc5, "CMP", 2, 3, AddressingMode::ZeroPage),
        0xc6 => OpCode::new(0xc6, "DEC", 2, 5, AddressingMode::ZeroPage),
        0xc7 => OpCode::new(0xc7, "*DCP", 2, 5, AddressingMode::ZeroPage),
        0xc8 => OpCode::new(0xc8, "INY", 1, 2, AddressingMode::NoneAddressing),
        0xc9 => OpCode::new(0xc9, "CMP", 2, 2, AddressingMode::Immediate),
        0xca => OpCode::new(0xca, "DEX", 1, 2, AddressingMode::NoneAddressing),
        0xcb => OpCode::new(0xcb, "*AXS", 2, 2, AddressingMode::Immediate),
        0xcc => OpCode::new(0xcc, "CPY", 3, 4, AddressingMode::Absolute),
        0xcd => OpCode::new(0xcd, "CMP", 3, 4, AddressingMode::Absolute),
        0xce => OpCode::new(0xce, "DEC", 3, 6, AddressingMode::Absolute),
        0xcf => OpCode::new(0xcf, "*DCP", 3, 6, AddressingMode::Absolute),
        _ => OpCode::new(code, "___", 0, 0, AddressingMode::NoneAddressing),
    }
}

fn opcode_lookup_d(code: u8) -> (r: OpCode)
    requires
        0xd0 <= code < 0xe0,
    ensures
        r.code == code,
        r.len == opcode_len(code),
        r.cycles == opcode_cycles(code),
        r.mode == opcode_mode(code),
{
    match code {
        0xd0 => OpCode::new(0xd0, "BNE", 2, 2, AddressingMode::NoneAddressing),
        0xd1 => OpCode::new(0xd1, "CMP", 2, 5, AddressingMode::Indirect_Y),
        0xd2 => OpCode::new(0xd2, "*NOP", 1, 2, AddressingMode::NoneAddressing),
        0xd3 => OpCode::new(0xd3, "*DCP", 2, 8, AddressingMode::Indirect_Y),
        0xd4 => OpCode::new(0xd4, "*NOP", 2, 4, AddressingMode::ZeroPage_X),
        0xd5 => OpCode::new(0xd5, "CMP", 2, 4, AddressingMode::ZeroPage_X),
        0xd6 => OpCode::new(0xd6, "DEC", 2, 6, AddressingMode::ZeroPage_X),
        0xd7 => OpCode::new(0xd7, "*DCP", 2, 6, AddressingMode::ZeroPage_X),
        0xd8 => OpCode::new(0xd8, "CLD", 1, 2, AddressingMode::NoneAddressing),
        0xd9 => OpCode::new(0xd9, "CMP", 3, 4, AddressingMode::Absolute_Y),
        0xda => OpCode::new(0xda, "*NOP", 1, 2, AddressingMode::NoneAddressing),
        0xdb => OpCode::new(0xdb, "*DCP", 3, 7, AddressingMode::Absolute_Y),
        0xdc => OpCode::new(0xdc, "*NOP", 3, 4, AddressingMode::Absolute_X),
        0xdd => OpCode::new(0xdd, "CMP", 3, 4, AddressingMode::Absolute_X),
        0xde => OpCode::new(0xde, "DEC", 3, 7, AddressingMode::Absolute_X),
        0xdf => OpCode::new(0xdf, "*DCP", 3, 7, AddressingMode::Absolute_X),
        _ => OpCode::new(code, "___", 0, 0, AddressingMode::NoneAddressing),
    }
}

fn opcode_lookup_e(code: u8) -> (r: OpCode)
    requires
        0xe0 <= code < 0xf0,
    ensures
        r.code == code,
        r.len == opcode_len(code),
        r.cycles == opcode_cycles(code),
        r.mode == opcode_mode(code),
{
    match code {
        0xe0 => OpCode::new(0xe0, "CPX", 2, 2, AddressingMode::Immediate),
        0xe1 => OpCode::new(0xe1, "SBC", 2, 6, AddressingMode::Indirect_X),
        0xe2 => OpCode::new(0xe2, "*NOP", 2, 2, AddressingMode::Immediate),
        0xe3 => OpCode::new(0xe3, "*ISB", 2, 8, AddressingMode::Indirect_X),
        0xe4 => OpCode::new(0xe4, "CPX", 2, 3, AddressingMode::ZeroPage),
        0xe5 => OpCode::new(0xe5, "SBC", 2, 3, AddressingMode::ZeroPage),
        0xe6 => OpCode::new(0xe6, "INC", 2, 5, AddressingMode::ZeroPage),
        0xe7 => OpCode::new(0xe7, "*ISB", 2, 5, AddressingMode::ZeroPage),
        0xe8 => OpCode::new(0xe8, "INX", 1, 2, AddressingMode::NoneAddressing),
        0xe9 => OpCode::new(0xe9, "SBC", 2, 2, AddressingMode::Immediate),
        0xea => OpCode::new(0xea, "NOP", 1, 2, AddressingMode::NoneAddressing),
        0xeb => OpCode::new(0xeb, "*SBC", 2, 2, AddressingMode::Immediate),
        0xec => OpCode::new(0xec, "CPX", 3, 4, AddressingMode::Absolute),
        0xed => OpCode::new(0xed, "SBC", 3, 4, AddressingMode::Absolute),
        0xee => OpCode::new(0xee, "INC", 3, 6, AddressingMode::Absolute),
        0xef => OpCode::new(0xef, "*ISB", 3, 6, AddressingMode::Absolute),
        _ => OpCode::new(code, "___", 0, 0, AddressingMode::NoneAddressing),
    }
}

fn opcode_lookup_f(code: u8) -> (r: OpCode)
    requires
        0xf0 <= code < 0x100,
    ensures
        r.code == code,
        r.len == opcode_len(code),
        r.cycles == opcode_cycles(code),
        r.mode == opcode_mode(code),
{
    match code {
        0xf0 => OpCode::new(0xf0, "BEQ", 2, 2, AddressingMode::NoneAddressing),
        0xf1 => OpCode::new(0xf1, "SBC", 2, 5, AddressingMode::Indirect_Y),
        0xf2 => OpCode::new(0xf2, "*NOP", 1, 2, AddressingMode::NoneAddressing),
        0xf3 => OpCode::new(0xf3, "*ISB", 2, 8, AddressingMode::Indirect_Y),
        0xf4 => OpCode::new(0xf4, "*NOP", 2, 4, AddressingMode::ZeroPage_X),
        0xf5 => OpCode::new(0xf5, "SBC", 2, 4, AddressingMode::ZeroPage_X),
        0xf6 => OpCode::new(0xf6, "INC", 2, 6, AddressingMode::ZeroPage_X),
        0xf7 => OpCode::new(0xf7, "*ISB", 2, 6, AddressingMode::ZeroPage_X),
        0xf8 => OpCode::new(0xf8, "SED", 1, 2, AddressingMode::NoneAddressing),
        0xf9 => OpCode::new(0xf9, "SBC", 3, 4, AddressingMode::Absolute_Y),
        0xfa => OpCode::new(0xfa, "*NOP", 1, 2, AddressingMode::NoneAddressing),
        0xfb => OpCode::new(0xfb, "*ISB", 3, 7, AddressingMode::Absolute_Y),
        0xfc => OpCode::new(0xfc, "*NOP", 3, 4, AddressingMode::Absolute_X),
        0xfd => OpCode::new(0xfd, "SBC", 3, 4, AddressingMode::Absolute_X),
        0xfe => OpCode::new(0xfe, "INC", 3, 7, AddressingMode::Absolute_X),
        0xff => OpCode::new(0xff, "*ISB", 3, 7, AddressingMode::Absolute_X),
        _ => OpCode::new(code, "___", 0, 0, AddressingMode::NoneAddressing),
    }
}

/// Look up the descriptor of one opcode byte. The table is total: all 256
/// byte values are covered, official and undocumented alike, so dispatch
/// can never fall outside it.
pub fn opcode_lookup(code: u8) -> (r: OpCode)
    ensures
        r.code == code,
        r.len == opcode_len(code),
        r.cycles == opcode_cycles(code),
        r.mode == opcode_mode(code),
{
    if code < 0x10 {
        opcode_lookup_0(code)
    } else if code < 0x20 {
        opcode_lookup_1(code)
    } else if code < 0x30 {
        opcode_lookup_2(code)
    } else if code < 0x40 {
        opcode_lookup_3(code)
    } else if code < 0x50 {
        opcode_lookup_4(code)
    } else if code < 0x60 {
        opcode_lookup_5(code)
    } else if code < 0x70 {
        opcode_lookup_6(code)
    } else if code < 0x80 {
        opcode_lookup_7(code)
    } else if code < 0x90 {
        opcode_lookup_8(code)
    } else if code < 0xa0 {
        opcode_lookup_9(code)
    } else if code < 0xb0 {
        opcode_lookup_a(code)
    } else if code < 0xc0 {
        opcode_lookup_b(code)
    } else if code < 0xd0 {
        opcode_lookup_c(code)
    } else if code < 0xe0 {
        opcode_lookup_d(code)
    } else if code < 0xf0 {
        opcode_lookup_e(code)
    } else {
        opcode_lookup_f(code)
    }
}

/// The whole 256-entry table in code order, as hosts and disassemblers
/// want it.
pub fn opcode_table() -> (r: Vec<OpCode>)
    ensures
        r@.len() == 256,
        forall|i: int|
            0 <= i < 256 ==> (r@[i].code == i && r@[i].len == opcode_len(i as u8) && r@[i].cycles
                == opcode_cycles(i as u8) && r@[i].mode == opcode_mode(i as u8)),
{
    let mut table: Vec<OpCode> = Vec::new();
    let mut i: usize = 0;
    while i < 256
        invariant
            table@.len() == i,
            i <= 256,
            forall|j: int|
                0 <= j < i ==> (table@[j].code == j && table@[j].len == opcode_len(j as u8)
                    && table@[j].cycles == opcode_cycles(j as u8) && table@[j].mode == opcode_mode(
                    j as u8,
                )),
        decreases 256 - i,
    {
        table.push(opcode_lookup(i as u8));
        i = i + 1;
    }
    table
}

} // verus!
