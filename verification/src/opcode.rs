//! Opcodes: the instruction classes, the addressing modes, the table that
//! maps an opcode byte to both, and the decoding of an instruction from
//! memory.

use vstd::prelude::*;
use crate::memory::{
    MemoryBus, make_word, read_word_same_page, read_word_same_page_model, read_word_zero_page,
    read_word_zero_page_model, reads_change_nothing, word_of,
};
use crate::registers::{Registers, RegistersView};

verus! {

/// The rule that maps the operand bytes and the registers to an address or a
/// value.
#[derive(Copy, Clone, Debug, PartialEq, Eq, Structural)]
pub enum OpAddressMode {
    Implied,
    Immediate,
    Absolute,
    AbsoluteOffsetX,
    AbsoluteOffsetY,
    ZeroPage,
    ZeroPageOffsetX,
    ZeroPageOffsetY,
    PCOffset,
    Indirect,
    PreIndirectX,
    PostIndirectY,
}

/// The instruction classes: one for each handler.
#[derive(Copy, Clone, Debug, PartialEq, Eq, Structural)]
pub enum OpClass {
    Nop,
    Top,
    Brk,
    Clc,
    Cld,
    Cli,
    Clv,
    Sec,
    Sed,
    Sei,
    Lda,
    Ldx,
    Ldy,
    Sta,
    Stx,
    Sty,
    Pha,
    Php,
    Pla,
    Plp,
    Tax,
    Tay,
    Tsx,
    Txa,
    Txs,
    Tya,
    Bit,
    Cmp,
    Cpx,
    Cpy,
    Bcc,
    Bcs,
    Beq,
    Bmi,
    Bne,
    Bpl,
    Bvc,
    Bvs,
    Jmp,
    Jsr,
    Rts,
    Rti,
    And,
    Asl,
    Lsr,
    Eor,
    Ora,
    Rol,
    Ror,
    Adc,
    Sbc,
    Dec,
    Dex,
    Dey,
    Inc,
    Inx,
    Iny,
}

/// The operand of a decoded instruction.
#[derive(Copy, Clone, Debug, PartialEq, Eq, Structural)]
pub enum OpParam {
    Nil,
    Byte(u8),
    Word(u16),
}

impl OpAddressMode {
    /// How many operand bytes follow the opcode byte.
    pub open spec fn spec_operand_len(self) -> u8 {
        match self {
            OpAddressMode::Implied => 0,
            OpAddressMode::Absolute | OpAddressMode::AbsoluteOffsetX
            | OpAddressMode::AbsoluteOffsetY | OpAddressMode::Indirect => 2,
            _ => 1,
        }
    }

    /// How many operand bytes follow the opcode byte.
    #[verifier::when_used_as_spec(spec_operand_len)]
    pub fn operand_len(self) -> (r: u8)
        ensures
            r == self.spec_operand_len(),
    {
        match self {
            OpAddressMode::Implied => 0,
            OpAddressMode::Absolute | OpAddressMode::AbsoluteOffsetX
            | OpAddressMode::AbsoluteOffsetY | OpAddressMode::Indirect => 2,
            _ => 1,
        }
    }
}

impl OpClass {
    /// Whether the class is one of the eight conditional branches.
    pub open spec fn is_branch(self) -> bool {
        self is Bcc || self is Bcs || self is Beq || self is Bmi || self is Bne || self is Bpl
            || self is Bvc || self is Bvs
    }

    /// Whether instructions of the class can have the addressing mode: the
    /// branches, and no others, take an offset to the program counter;
    /// a jump takes an address or the address of one, and only a jump the
    /// latter.
    pub open spec fn admits(self, mode: OpAddressMode) -> bool {
        &&& self.is_branch() <==> mode is PCOffset
        &&& self is Jmp ==> mode is Absolute || mode is Indirect
        &&& mode is Indirect ==> self is Jmp
    }

    /// The mnemonic of the class.
    pub open spec fn spec_name(self) -> Seq<char> {
        match self {
            OpClass::Nop => "NOP"@,
            OpClass::Top => "TOP"@,
            OpClass::Brk => "BRK"@,
            OpClass::Clc => "CLC"@,
            OpClass::Cld => "CLD"@,
            OpClass::Cli => "CLI"@,
            OpClass::Clv => "CLV"@,
            OpClass::Sec => "SEC"@,
            OpClass::Sed => "SED"@,
            OpClass::Sei => "SEI"@,
            OpClass::Lda => "LDA"@,
            OpClass::Ldx => "LDX"@,
            OpClass::Ldy => "LDY"@,
            OpClass::Sta => "STA"@,
            OpClass::Stx => "STX"@,
            OpClass::Sty => "STY"@,
            OpClass::Pha => "PHA"@,
            OpClass::Php => "PHP"@,
            OpClass::Pla => "PLA"@,
            OpClass::Plp => "PLP"@,
            OpClass::Tax => "TAX"@,
            OpClass::Tay => "TAY"@,
            OpClass::Tsx => "TSX"@,
            OpClass::Txa => "TXA"@,
            OpClass::Txs => "TXS"@,
            OpClass::Tya => "TYA"@,
            OpClass::Bit => "BIT"@,
            OpClass::Cmp => "CMP"@,
            OpClass::Cpx => "CPX"@,
            OpClass::Cpy => "CPY"@,
            OpClass::Bcc => "BCC"@,
            OpClass::Bcs => "BCS"@,
            OpClass::Beq => "BEQ"@,
            OpClass::Bmi => "BMI"@,
            OpClass::Bne => "BNE"@,
            OpClass::Bpl => "BPL"@,
            OpClass::Bvc => "BVC"@,
            OpClass::Bvs => "BVS"@,
            OpClass::Jmp => "JMP"@,
            OpClass::Jsr => "JSR"@,
            OpClass::Rts => "RTS"@,
            OpClass::Rti => "RTI"@,
            OpClass::And => "AND"@,
            OpClass::Asl => "ASL"@,
            OpClass::Lsr => "LSR"@,
            OpClass::Eor => "EOR"@,
            OpClass::Ora => "ORA"@,
            OpClass::Rol => "ROL"@,
            OpClass::Ror => "ROR"@,
            OpClass::Adc => "ADC"@,
            OpClass::Sbc => "SBC"@,
            OpClass::Dec => "DEC"@,
            OpClass::Dex => "DEX"@,
            OpClass::Dey => "DEY"@,
            OpClass::Inc => "INC"@,
            OpClass::Inx => "INX"@,
            OpClass::Iny => "INY"@,
        }
    }

    /// The mnemonic of the class.
    pub fn name(self) -> (r: &'static str)
        ensures
            r@ == self.spec_name(),
    {
        match self {
            OpClass::Nop => "NOP",
            OpClass::Top => "TOP",
            OpClass::Brk => "BRK",
            OpClass::Clc => "CLC",
            OpClass::Cld => "CLD",
            OpClass::Cli => "CLI",
            OpClass::Clv => "CLV",
            OpClass::Sec => "SEC",
            OpClass::Sed => "SED",
            OpClass::Sei => "SEI",
            OpClass::Lda => "LDA",
            OpClass::Ldx => "LDX",
            OpClass::Ldy => "LDY",
            OpClass::Sta => "STA",
            OpClass::Stx => "STX",
            OpClass::Sty => "STY",
            OpClass::Pha => "PHA",
            OpClass::Php => "PHP",
            OpClass::Pla => "PLA",
            OpClass::Plp => "PLP",
            OpClass::Tax => "TAX",
            OpClass::Tay => "TAY",
            OpClass::Tsx => "TSX",
            OpClass::Txa => "TXA",
            OpClass::Txs => "TXS",
            OpClass::Tya => "TYA",
            OpClass::Bit => "BIT",
            OpClass::Cmp => "CMP",
            OpClass::Cpx => "CPX",
            OpClass::Cpy => "CPY",
            OpClass::Bcc => "BCC",
            OpClass::Bcs => "BCS",
            OpClass::Beq => "BEQ",
            OpClass::Bmi => "BMI",
            OpClass::Bne => "BNE",
            OpClass::Bpl => "BPL",
            OpClass::Bvc => "BVC",
            OpClass::Bvs => "BVS",
            OpClass::Jmp => "JMP",
            OpClass::Jsr => "JSR",
            OpClass::Rts => "RTS",
            OpClass::Rti => "RTI",
            OpClass::And => "AND",
            OpClass::Asl => "ASL",
            OpClass::Lsr => "LSR",
            OpClass::Eor => "EOR",
            OpClass::Ora => "ORA",
            OpClass::Rol => "ROL",
            OpClass::Ror => "ROR",
            OpClass::Adc => "ADC",
            OpClass::Sbc => "SBC",
            OpClass::Dec => "DEC",
            OpClass::Dex => "DEX",
            OpClass::Dey => "DEY",
            OpClass::Inc => "INC",
            OpClass::Inx => "INX",
            OpClass::Iny => "INY",
        }
    }
}

impl OpParam {
    /// The operand as a byte: a byte operand itself, the low byte of a word,
    /// 0 where there is none.
    pub open spec fn spec_as_u8(&self) -> u8 {
        match *self {
            OpParam::Nil => 0,
            OpParam::Byte(val) => val,
            OpParam::Word(val) => (val % 256) as u8,
        }
    }

    /// The operand as a word: 0 where there is none.
    pub open spec fn spec_as_u16(&self) -> u16 {
        match *self {
            OpParam::Nil => 0,
            OpParam::Byte(val) => val as u16,
            OpParam::Word(val) => val,
        }
    }

    /// How many bytes the operand takes in memory.
    pub open spec fn len(self) -> u8 {
        match self {
            OpParam::Nil => 0,
            OpParam::Byte(_) => 1,
            OpParam::Word(_) => 2,
        }
    }

    /// The operand as a byte.
    #[verifier::when_used_as_spec(spec_as_u8)]
    pub fn as_u8(&self) -> (r: u8)
        ensures
            r == self.spec_as_u8(),
    {
        match *self {
            OpParam::Nil => 0,
            OpParam::Byte(val) => val,
            OpParam::Word(val) => {
                let low: u16 = val & 0xFF;
                assert(low == val % 256) by (bit_vector)
                    requires
                        low == val & 0xFF,
                ;
                low as u8
            },
        }
    }

    /// The operand as a word.
    #[verifier::when_used_as_spec(spec_as_u16)]
    pub fn as_u16(&self) -> (r: u16)
        ensures
            r == self.spec_as_u16(),
    {
        match *self {
            OpParam::Nil => 0,
            OpParam::Byte(val) => val as u16,
            OpParam::Word(val) => val,
        }
    }
}

/// One entry of the opcode table.
#[derive(Copy, Clone, Debug)]
pub struct OpCode {
    /// The opcode byte
    pub value: u8,
    /// The mnemonic
    pub name: &'static str,
    /// The instruction class, which selects the handler
    pub class: OpClass,
    /// The length of the instruction in bytes, opcode byte included
    pub len: u8,
    /// The cycles that the instruction takes at least
    pub base_cycles: u8,
    /// The addressing mode
    pub address_mode: OpAddressMode,
}

/// The opcode table: for each opcode byte that is an instruction, its class,
/// its addressing mode and its base cycles. The documented instructions of
/// the 6502 are there, and the undocumented opcodes that do nothing: the
/// one-byte ones, those with a zero-page or immediate operand, and those with
/// an absolute operand, which form a class of their own.
pub open spec fn opcode_table(value: u8) -> Option<(OpClass, OpAddressMode, u8)> {
    match value {
        0x00 => Some((OpClass::Brk, OpAddressMode::Implied, 7u8)),
        0x01 => Some((OpClass::Ora, OpAddressMode::PreIndirectX, 6u8)),
        0x04 => Some((OpClass::Nop, OpAddressMode::ZeroPage, 3u8)),
        0x05 => Some((OpClass::Ora, OpAddressMode::ZeroPage, 3u8)),
        0x06 => Some((OpClass::Asl, OpAddressMode::ZeroPage, 5u8)),
        0x08 => Some((OpClass::Php, OpAddressMode::Implied, 3u8)),
        0x09 => Some((OpClass::Ora, OpAddressMode::Immediate, 2u8)),
        0x0A => Some((OpClass::Asl, OpAddressMode::Implied, 2u8)),
        0x0C => Some((OpClass::Top, OpAddressMode::Absolute, 4u8)),
        0x0D => Some((OpClass::Ora, OpAddressMode::Absolute, 4u8)),
        0x0E => Some((OpClass::Asl, OpAddressMode::Absolute, 6u8)),
        0x10 => Some((OpClass::Bpl, OpAddressMode::PCOffset, 2u8)),
        0x11 => Some((OpClass::Ora, OpAddressMode::PostIndirectY, 5u8)),
        0x14 => Some((OpClass::Nop, OpAddressMode::ZeroPageOffsetX, 4u8)),
        0x15 => Some((OpClass::Ora, OpAddressMode::ZeroPageOffsetX, 4u8)),
        0x16 => Some((OpClass::Asl, OpAddressMode::ZeroPageOffsetX, 6u8)),
        0x18 => Some((OpClass::Clc, OpAddressMode::Implied, 2u8)),
        0x19 => Some((OpClass::Ora, OpAddressMode::AbsoluteOffsetY, 4u8)),
        0x1A => Some((OpClass::Nop, OpAddressMode::Implied, 2u8)),
        0x1C => Some((OpClass::Top, OpAddressMode::AbsoluteOffsetX, 4u8)),
        0x1D => Some((OpClass::Ora, OpAddressMode::AbsoluteOffsetX, 4u8)),
        0x1E => Some((OpClass::Asl, OpAddressMode::AbsoluteOffsetX, 7u8)),
        0x20 => Some((OpClass::Jsr, OpAddressMode::Absolute, 6u8)),
        0x21 => Some((OpClass::And, OpAddressMode::PreIndirectX, 6u8)),
        0x24 => Some((OpClass::Bit, OpAddressMode::ZeroPage, 3u8)),
        0x25 => Some((OpClass::And, OpAddressMode::ZeroPage, 3u8)),
        0x26 => Some((OpClass::Rol, OpAddressMode::ZeroPage, 5u8)),
        0x28 => Some((OpClass::Plp, OpAddressMode::Implied, 4u8)),
        0x29 => Some((OpClass::And, OpAddressMode::Immediate, 2u8)),
        0x2A => Some((OpClass::Rol, OpAddressMode::Implied, 2u8)),
        0x2C => Some((OpClass::Bit, OpAddressMode::Absolute, 4u8)),
        0x2D => Some((OpClass::And, OpAddressMode::Absolute, 4u8)),
        0x2E => Some((OpClass::Rol, OpAddressMode::Absolute, 6u8)),
        0x30 => Some((OpClass::Bmi, OpAddressMode::PCOffset, 2u8)),
        0x31 => Some((OpClass::And, OpAddressMode::PostIndirectY, 5u8)),
        0x34 => Some((OpClass::Nop, OpAddressMode::ZeroPageOffsetX, 4u8)),
        0x35 => Some((OpClass::And, OpAddressMode::ZeroPageOffsetX, 4u8)),
        0x36 => Some((OpClass::Rol, OpAddressMode::ZeroPageOffsetX, 6u8)),
        0x38 => Some((OpClass::Sec, OpAddressMode::Implied, 2u8)),
        0x39 => Some((OpClass::And, OpAddressMode::AbsoluteOffsetY, 4u8)),
        0x3A => Some((OpClass::Nop, OpAddressMode::Implied, 2u8)),
        0x3C => Some((OpClass::Top, OpAddressMode::AbsoluteOffsetX, 4u8)),
        0x3D => Some((OpClass::And, OpAddressMode::AbsoluteOffsetX, 4u8)),
        0x3E => Some((OpClass::Rol, OpAddressMode::AbsoluteOffsetX, 7u8)),
        0x40 => Some((OpClass::Rti, OpAddressMode::Implied, 6u8)),
        0x41 => Some((OpClass::Eor, OpAddressMode::PreIndirectX, 6u8)),
        0x44 => Some((OpClass::Nop, OpAddressMode::ZeroPage, 3u8)),
        0x45 => Some((OpClass::Eor, OpAddressMode::ZeroPage, 3u8)),
        0x46 => Some((OpClass::Lsr, OpAddressMode::ZeroPage, 5u8)),
        0x48 => Some((OpClass::Pha, OpAddressMode::Implied, 3u8)),
        0x49 => Some((OpClass::Eor, OpAddressMode::Immediate, 2u8)),
        0x4A => Some((OpClass::Lsr, OpAddressMode::Implied, 2u8)),
        0x4C => Some((OpClass::Jmp, OpAddressMode::Absolute, 3u8)),
        0x4D => Some((OpClass::Eor, OpAddressMode::Absolute, 4u8)),
        0x4E => Some((OpClass::Lsr, OpAddressMode::Absolute, 6u8)),
        0x50 => Some((OpClass::Bvc, OpAddressMode::PCOffset, 2u8)),
        0x51 => Some((OpClass::Eor, OpAddressMode::PostIndirectY, 5u8)),
        0x54 => Some((OpClass::Nop, OpAddressMode::ZeroPageOffsetX, 4u8)),
        0x55 => Some((OpClass::Eor, OpAddressMode::ZeroPageOffsetX, 4u8)),
        0x56 => Some((OpClass::Lsr, OpAddressMode::ZeroPageOffsetX, 6u8)),
        0x58 => Some((OpClass::Cli, OpAddressMode::Implied, 2u8)),
        0x59 => Some((OpClass::Eor, OpAddressMode::AbsoluteOffsetY, 4u8)),
        0x5A => Some((OpClass::Nop, OpAddressMode::Implied, 2u8)),
        0x5C => Some((OpClass::Top, OpAddressMode::AbsoluteOffsetX, 4u8)),
        0x5D => Some((OpClass::Eor, OpAddressMode::AbsoluteOffsetX, 4u8)),
        0x5E => Some((OpClass::Lsr, OpAddressMode::AbsoluteOffsetX, 7u8)),
        0x60 => Some((OpClass::Rts, OpAddressMode::Implied, 6u8)),
        0x61 => Some((OpClass::Adc, OpAddressMode::PreIndirectX, 6u8)),
        0x64 => Some((OpClass::Nop, OpAddressMode::ZeroPage, 3u8)),
        0x65 => Some((OpClass::Adc, OpAddressMode::ZeroPage, 3u8)),
        0x66 => Some((OpClass::Ror, OpAddressMode::ZeroPage, 5u8)),
        0x68 => Some((OpClass::Pla, OpAddressMode::Implied, 4u8)),
        0x69 => Some((OpClass::Adc, OpAddressMode::Immediate, 2u8)),
        0x6A => Some((OpClass::Ror, OpAddressMode::Implied, 2u8)),
        0x6C => Some((OpClass::Jmp, OpAddressMode::Indirect, 5u8)),
        0x6D => Some((OpClass::Adc, OpAddressMode::Absolute, 4u8)),
        0x6E => Some((OpClass::Ror, OpAddressMode::Absolute, 6u8)),
        0x70 => Some((OpClass::Bvs, OpAddressMode::PCOffset, 2u8)),
        0x71 => Some((OpClass::Adc, OpAddressMode::PostIndirectY, 5u8)),
        0x74 => Some((OpClass::Nop, OpAddressMode::ZeroPageOffsetX, 4u8)),
        0x75 => Some((OpClass::Adc, OpAddressMode::ZeroPageOffsetX, 4u8)),
        0x76 => Some((OpClass::Ror, OpAddressMode::ZeroPageOffsetX, 6u8)),
        0x78 => Some((OpClass::Sei, OpAddressMode::Implied, 2u8)),
        0x79 => Some((OpClass::Adc, OpAddressMode::AbsoluteOffsetY, 4u8)),
        0x7A => Some((OpClass::Nop, OpAddressMode::Implied, 2u8)),
        0x7C => Some((OpClass::Top, OpAddressMode::AbsoluteOffsetX, 4u8)),
        0x7D => Some((OpClass::Adc, OpAddressMode::AbsoluteOffsetX, 4u8)),
        0x7E => Some((OpClass::Ror, OpAddressMode::AbsoluteOffsetX, 7u8)),
        0x80 => Some((OpClass::Nop, OpAddressMode::Immediate, 2u8)),
        0x81 => Some((OpClass::Sta, OpAddressMode::PreIndirectX, 6u8)),
        0x82 => Some((OpClass::Nop, OpAddressMode::Immediate, 2u8)),
        0x84 => Some((OpClass::Sty, OpAddressMode::ZeroPage, 3u8)),
        0x85 => Some((OpClass::Sta, OpAddressMode::ZeroPage, 3u8)),
        0x86 => Some((OpClass::Stx, OpAddressMode::ZeroPage, 3u8)),
        0x88 => Some((OpClass::Dey, OpAddressMode::Implied, 2u8)),
        0x89 => Some((OpClass::Nop, OpAddressMode::Immediate, 2u8)),
        0x8A => Some((OpClass::Txa, OpAddressMode::Implied, 2u8)),
        0x8C => Some((OpClass::Sty, OpAddressMode::Absolute, 4u8)),
        0x8D => Some((OpClass::Sta, OpAddressMode::Absolute, 4u8)),
        0x8E => Some((OpClass::Stx, OpAddressMode::Absolute, 4u8)),
        0x90 => Some((OpClass::Bcc, OpAddressMode::PCOffset, 2u8)),
        0x91 => Some((OpClass::Sta, OpAddressMode::PostIndirectY, 6u8)),
        0x94 => Some((OpClass::Sty, OpAddressMode::ZeroPageOffsetX, 4u8)),
        0x95 => Some((OpClass::Sta, OpAddressMode::ZeroPageOffsetX, 4u8)),
        0x96 => Some((OpClass::Stx, OpAddressMode::ZeroPageOffsetY, 4u8)),
        0x98 => Some((OpClass::Tya, OpAddressMode::Implied, 2u8)),
        0x99 => Some((OpClass::Sta, OpAddressMode::AbsoluteOffsetY, 5u8)),
        0x9A => Some((OpClass::Txs, OpAddressMode::Implied, 2u8)),
        0x9D => Some((OpClass::Sta, OpAddressMode::AbsoluteOffsetX, 5u8)),
        0xA0 => Some((OpClass::Ldy, OpAddressMode::Immediate, 2u8)),
        0xA1 => Some((OpClass::Lda, OpAddressMode::PreIndirectX, 6u8)),
        0xA2 => Some((OpClass::Ldx, OpAddressMode::Immediate, 2u8)),
        0xA4 => Some((OpClass::Ldy, OpAddressMode::ZeroPage, 3u8)),
        0xA5 => Some((OpClass::Lda, OpAddressMode::ZeroPage, 3u8)),
        0xA6 => Some((OpClass::Ldx, OpAddressMode::ZeroPage, 3u8)),
        0xA8 => Some((OpClass::Tay, OpAddressMode::Implied, 2u8)),
        0xA9 => Some((OpClass::Lda, OpAddressMode::Immediate, 2u8)),
        0xAA => Some((OpClass::Tax, OpAddressMode::Implied, 2u8)),
        0xAC => Some((OpClass::Ldy, OpAddressMode::Absolute, 4u8)),
        0xAD => Some((OpClass::Lda, OpAddressMode::Absolute, 4u8)),
        0xAE => Some((OpClass::Ldx, OpAddressMode::Absolute, 4u8)),
        0xB0 => Some((OpClass::Bcs, OpAddressMode::PCOffset, 2u8)),
        0xB1 => Some((OpClass::Lda, OpAddressMode::PostIndirectY, 5u8)),
        0xB4 => Some((OpClass::Ldy, OpAddressMode::ZeroPageOffsetX, 4u8)),
        0xB5 => Some((OpClass::Lda, OpAddressMode::ZeroPageOffsetX, 4u8)),
        0xB6 => Some((OpClass::Ldx, OpAddressMode::ZeroPageOffsetY, 4u8)),
        0xB8 => Some((OpClass::Clv, OpAddressMode::Implied, 2u8)),
        0xB9 => Some((OpClass::Lda, OpAddressMode::AbsoluteOffsetY, 4u8)),
        0xBA => Some((OpClass::Tsx, OpAddressMode::Implied, 2u8)),
        0xBC => Some((OpClass::Ldy, OpAddressMode::AbsoluteOffsetX, 4u8)),
        0xBD => Some((OpClass::Lda, OpAddressMode::AbsoluteOffsetX, 4u8)),
        0xBE => Some((OpClass::Ldx, OpAddressMode::AbsoluteOffsetY, 4u8)),
        0xC0 => Some((OpClass::Cpy, OpAddressMode::Immediate, 2u8)),
        0xC1 => Some((OpClass::Cmp, OpAddressMode::PreIndirectX, 6u8)),
        0xC2 => Some((OpClass::Nop, OpAddressMode::Immediate, 2u8)),
        0xC4 => Some((OpClass::Cpy, OpAddressMode::ZeroPage, 3u8)),
        0xC5 => Some((OpClass::Cmp, OpAddressMode::ZeroPage, 3u8)),
        0xC6 => Some((OpClass::Dec, OpAddressMode::ZeroPage, 5u8)),
        0xC8 => Some((OpClass::Iny, OpAddressMode::Implied, 2u8)),
        0xC9 => Some((OpClass::Cmp, OpAddressMode::Immediate, 2u8)),
        0xCA => Some((OpClass::Dex, OpAddressMode::Implied, 2u8)),
        0xCC => Some((OpClass::Cpy, OpAddressMode::Absolute, 4u8)),
        0xCD => Some((OpClass::Cmp, OpAddressMode::Absolute, 4u8)),
        0xCE => Some((OpClass::Dec, OpAddressMode::Absolute, 6u8)),
        0xD0 => Some((OpClass::Bne, OpAddressMode::PCOffset, 2u8)),
        0xD1 => Some((OpClass::Cmp, OpAddressMode::PostIndirectY, 5u8)),
        0xD4 => Some((OpClass::Nop, OpAddressMode::ZeroPageOffsetX, 4u8)),
        0xD5 => Some((OpClass::Cmp, OpAddressMode::ZeroPageOffsetX, 4u8)),
        0xD6 => Some((OpClass::Dec, OpAddressMode::ZeroPageOffsetX, 6u8)),
        0xD8 => Some((OpClass::Cld, OpAddressMode::Implied, 2u8)),
        0xD9 => Some((OpClass::Cmp, OpAddressMode::AbsoluteOffsetY, 4u8)),
        0xDA => Some((OpClass::Nop, OpAddressMode::Implied, 2u8)),
        0xDC => Some((OpClass::Top, OpAddressMode::AbsoluteOffsetX, 4u8)),
        0xDD => Some((OpClass::Cmp, OpAddressMode::AbsoluteOffsetX, 4u8)),
        0xDE => Some((OpClass::Dec, OpAddressMode::AbsoluteOffsetX, 7u8)),
        0xE0 => Some((OpClass::Cpx, OpAddressMode::Immediate, 2u8)),
        0xE1 => Some((OpClass::Sbc, OpAddressMode::PreIndirectX, 6u8)),
        0xE2 => Some((OpClass::Nop, OpAddressMode::Immediate, 2u8)),
        0xE4 => Some((OpClass::Cpx, OpAddressMode::ZeroPage, 3u8)),
        0xE5 => Some((OpClass::Sbc, OpAddressMode::ZeroPage, 3u8)),
        0xE6 => Some((OpClass::Inc, OpAddressMode::ZeroPage, 5u8)),
        0xE8 => Some((OpClass::Inx, OpAddressMode::Implied, 2u8)),
        0xE9 => Some((OpClass::Sbc, OpAddressMode::Immediate, 2u8)),
        0xEA => Some((OpClass::Nop, OpAddressMode::Implied, 2u8)),
        0xEC => Some((OpClass::Cpx, OpAddressMode::Absolute, 4u8)),
        0xED => Some((OpClass::Sbc, OpAddressMode::Absolute, 4u8)),
        0xEE => Some((OpClass::Inc, OpAddressMode::Absolute, 6u8)),
        0xF0 => Some((OpClass::Beq, OpAddressMode::PCOffset, 2u8)),
        0xF1 => Some((OpClass::Sbc, OpAddressMode::PostIndirectY, 5u8)),
        0xF4 => Some((OpClass::Nop, OpAddressMode::ZeroPageOffsetX, 4u8)),
        0xF5 => Some((OpClass::Sbc, OpAddressMode::ZeroPageOffsetX, 4u8)),
        0xF6 => Some((OpClass::Inc, OpAddressMode::ZeroPageOffsetX, 6u8)),
        0xF8 => Some((OpClass::Sed, OpAddressMode::Implied, 2u8)),
        0xF9 => Some((OpClass::Sbc, OpAddressMode::AbsoluteOffsetY, 4u8)),
        0xFA => Some((OpClass::Nop, OpAddressMode::Implied, 2u8)),
        0xFC => Some((OpClass::Top, OpAddressMode::AbsoluteOffsetX, 4u8)),
        0xFD => Some((OpClass::Sbc, OpAddressMode::AbsoluteOffsetX, 4u8)),
        0xFE => Some((OpClass::Inc, OpAddressMode::AbsoluteOffsetX, 7u8)),
        _ => None,
    }
}

impl OpCode {
    /// Whether the entry is one that the table could hold: the length goes by
    /// the addressing mode, the name by the class, and the class admits the
    /// mode.
    pub open spec fn wf(self) -> bool {
        &&& self.len == 1 + self.address_mode.spec_operand_len()
        &&& self.name@ == self.class.spec_name()
        &&& self.class.admits(self.address_mode)
        &&& 1 <= self.base_cycles <= 7
    }

    /// The entry with the given opcode byte, class, mode and cycles.
    pub open spec fn entry(
        self,
        value: u8,
        class: OpClass,
        address_mode: OpAddressMode,
        base_cycles: u8,
    ) -> bool {
        &&& self.value == value
        &&& self.name@ == class.spec_name()
        &&& self.class == class
        &&& self.len == 1 + address_mode.spec_operand_len()
        &&& self.base_cycles == base_cycles
        &&& self.address_mode == address_mode
    }

    fn new(value: u8, class: OpClass, address_mode: OpAddressMode, base_cycles: u8) -> (r: OpCode)
        ensures
            r.entry(value, class, address_mode, base_cycles),
    {
        OpCode {
            value: value,
            name: class.name(),
            class: class,
            len: 1 + address_mode.operand_len(),
            base_cycles: base_cycles,
            address_mode: address_mode,
        }
    }

    /// Looks an opcode byte up in the table. A byte that is no instruction
    /// has no entry.
    pub fn from_value(value: u8) -> (r: Option<OpCode>)
        ensures
            match r {
                Some(code) => opcode_table(value) is Some && code.entry(
                    value,
                    opcode_table(value).unwrap().0,
                    opcode_table(value).unwrap().1,
                    opcode_table(value).unwrap().2,
                ) && code.wf(),
                None => opcode_table(value) is None,
            },
    {
        proof {
            lemma_table_entries_are_sound(value);
        }
        match table_entry(value) {
            Some((class, address_mode, base_cycles)) => Some(
                OpCode::new(value, class, address_mode, base_cycles),
            ),
            None => None,
        }
    }
}

/// The entry of the table for an opcode byte.
fn table_entry(value: u8) -> (r: Option<(OpClass, OpAddressMode, u8)>)
    ensures
        r == opcode_table(value),
{
    match value {
        0x00 => Some((OpClass::Brk, OpAddressMode::Implied, 7)),
        0x01 => Some((OpClass::Ora, OpAddressMode::PreIndirectX, 6)),
        0x04 => Some((OpClass::Nop, OpAddressMode::ZeroPage, 3)),
        0x05 => Some((OpClass::Ora, OpAddressMode::ZeroPage, 3)),
        0x06 => Some((OpClass::Asl, OpAddressMode::ZeroPage, 5)),
        0x08 => Some((OpClass::Php, OpAddressMode::Implied, 3)),
        0x09 => Some((OpClass::Ora, OpAddressMode::Immediate, 2)),
        0x0A => Some((OpClass::Asl, OpAddressMode::Implied, 2)),
        0x0C => Some((OpClass::Top, OpAddressMode::Absolute, 4)),
        0x0D => Some((OpClass::Ora, OpAddressMode::Absolute, 4)),
        0x0E => Some((OpClass::Asl, OpAddressMode::Absolute, 6)),
        0x10 => Some((OpClass::Bpl, OpAddressMode::PCOffset, 2)),
        0x11 => Some((OpClass::Ora, OpAddressMode::PostIndirectY, 5)),
        0x14 => Some((OpClass::Nop, OpAddressMode::ZeroPageOffsetX, 4)),
        0x15 => Some((OpClass::Ora, OpAddressMode::ZeroPageOffsetX, 4)),
        0x16 => Some((OpClass::Asl, OpAddressMode::ZeroPageOffsetX, 6)),
        0x18 => Some((OpClass::Clc, OpAddressMode::Implied, 2)),
        0x19 => Some((OpClass::Ora, OpAddressMode::AbsoluteOffsetY, 4)),
        0x1A => Some((OpClass::Nop, OpAddressMode::Implied, 2)),
        0x1C => Some((OpClass::Top, OpAddressMode::AbsoluteOffsetX, 4)),
        0x1D => Some((OpClass::Ora, OpAddressMode::AbsoluteOffsetX, 4)),
        0x1E => Some((OpClass::Asl, OpAddressMode::AbsoluteOffsetX, 7)),
        0x20 => Some((OpClass::Jsr, OpAddressMode::Absolute, 6)),
        0x21 => Some((OpClass::And, OpAddressMode::PreIndirectX, 6)),
        0x24 => Some((OpClass::Bit, OpAddressMode::ZeroPage, 3)),
        0x25 => Some((OpClass::And, OpAddressMode::ZeroPage, 3)),
        0x26 => Some((OpClass::Rol, OpAddressMode::ZeroPage, 5)),
        0x28 => Some((OpClass::Plp, OpAddressMode::Implied, 4)),
        0x29 => Some((OpClass::And, OpAddressMode::Immediate, 2)),
        0x2A => Some((OpClass::Rol, OpAddressMode::Implied, 2)),
        0x2C => Some((OpClass::Bit, OpAddressMode::Absolute, 4)),
        0x2D => Some((OpClass::And, OpAddressMode::Absolute, 4)),
        0x2E => Some((OpClass::Rol, OpAddressMode::Absolute, 6)),
        0x30 => Some((OpClass::Bmi, OpAddressMode::PCOffset, 2)),
        0x31 => Some((OpClass::And, OpAddressMode::PostIndirectY, 5)),
        0x34 => Some((OpClass::Nop, OpAddressMode::ZeroPageOffsetX, 4)),
        0x35 => Some((OpClass::And, OpAddressMode::ZeroPageOffsetX, 4)),
        0x36 => Some((OpClass::Rol, OpAddressMode::ZeroPageOffsetX, 6)),
        0x38 => Some((OpClass::Sec, OpAddressMode::Implied, 2)),
        0x39 => Some((OpClass::And, OpAddressMode::AbsoluteOffsetY, 4)),
        0x3A => Some((OpClass::Nop, OpAddressMode::Implied, 2)),
        0x3C => Some((OpClass::Top, OpAddressMode::AbsoluteOffsetX, 4)),
        0x3D => Some((OpClass::And, OpAddressMode::AbsoluteOffsetX, 4)),
        0x3E => Some((OpClass::Rol, OpAddressMode::AbsoluteOffsetX, 7)),
        0x40 => Some((OpClass::Rti, OpAddressMode::Implied, 6)),
        0x41 => Some((OpClass::Eor, OpAddressMode::PreIndirectX, 6)),
        0x44 => Some((OpClass::Nop, OpAddressMode::ZeroPage, 3)),
        0x45 => Some((OpClass::Eor, OpAddressMode::ZeroPage, 3)),
        0x46 => Some((OpClass::Lsr, OpAddressMode::ZeroPage, 5)),
        0x48 => Some((OpClass::Pha, OpAddressMode::Implied, 3)),
        0x49 => Some((OpClass::Eor, OpAddressMode::Immediate, 2)),
        0x4A => Some((OpClass::Lsr, OpAddressMode::Implied, 2)),
        0x4C => Some((OpClass::Jmp, OpAddressMode::Absolute, 3)),
        0x4D => Some((OpClass::Eor, OpAddressMode::Absolute, 4)),
        0x4E => Some((OpClass::Lsr, OpAddressMode::Absolute, 6)),
        0x50 => Some((OpClass::Bvc, OpAddressMode::PCOffset, 2)),
        0x51 => Some((OpClass::Eor, OpAddressMode::PostIndirectY, 5)),
        0x54 => Some((OpClass::Nop, OpAddressMode::ZeroPageOffsetX, 4)),
        0x55 => Some((OpClass::Eor, OpAddressMode::ZeroPageOffsetX, 4)),
        0x56 => Some((OpClass::Lsr, OpAddressMode::ZeroPageOffsetX, 6)),
        0x58 => Some((OpClass::Cli, OpAddressMode::Implied, 2)),
        0x59 => Some((OpClass::Eor, OpAddressMode::AbsoluteOffsetY, 4)),
        0x5A => Some((OpClass::Nop, OpAddressMode::Implied, 2)),
        0x5C => Some((OpClass::Top, OpAddressMode::AbsoluteOffsetX, 4)),
        0x5D => Some((OpClass::Eor, OpAddressMode::AbsoluteOffsetX, 4)),
        0x5E => Some((OpClass::Lsr, OpAddressMode::AbsoluteOffsetX, 7)),
        0x60 => Some((OpClass::Rts, OpAddressMode::Implied, 6)),
        0x61 => Some((OpClass::Adc, OpAddressMode::PreIndirectX, 6)),
        0x64 => Some((OpClass::Nop, OpAddressMode::ZeroPage, 3)),
        0x65 => Some((OpClass::Adc, OpAddressMode::ZeroPage, 3)),
        0x66 => Some((OpClass::Ror, OpAddressMode::ZeroPage, 5)),
        0x68 => Some((OpClass::Pla, OpAddressMode::Implied, 4)),
        0x69 => Some((OpClass::Adc, OpAddressMode::Immediate, 2)),
        0x6A => Some((OpClass::Ror, OpAddressMode::Implied, 2)),
        0x6C => Some((OpClass::Jmp, OpAddressMode::Indirect, 5)),
        0x6D => Some((OpClass::Adc, OpAddressMode::Absolute, 4)),
        0x6E => Some((OpClass::Ror, OpAddressMode::Absolute, 6)),
        0x70 => Some((OpClass::Bvs, OpAddressMode::PCOffset, 2)),
        0x71 => Some((OpClass::Adc, OpAddressMode::PostIndirectY, 5)),
        0x74 => Some((OpClass::Nop, OpAddressMode::ZeroPageOffsetX, 4)),
        0x75 => Some((OpClass::Adc, OpAddressMode::ZeroPageOffsetX, 4)),
        0x76 => Some((OpClass::Ror, OpAddressMode::ZeroPageOffsetX, 6)),
        0x78 => Some((OpClass::Sei, OpAddressMode::Implied, 2)),
        0x79 => Some((OpClass::Adc, OpAddressMode::AbsoluteOffsetY, 4)),
        0x7A => Some((OpClass::Nop, OpAddressMode::Implied, 2)),
        0x7C => Some((OpClass::Top, OpAddressMode::AbsoluteOffsetX, 4)),
        0x7D => Some((OpClass::Adc, OpAddressMode::AbsoluteOffsetX, 4)),
        0x7E => Some((OpClass::Ror, OpAddressMode::AbsoluteOffsetX, 7)),
        0x80 => Some((OpClass::Nop, OpAddressMode::Immediate, 2)),
        0x81 => Some((OpClass::Sta, OpAddressMode::PreIndirectX, 6)),
        0x82 => Some((OpClass::Nop, OpAddressMode::Immediate, 2)),
        0x84 => Some((OpClass::Sty, OpAddressMode::ZeroPage, 3)),
        0x85 => Some((OpClass::Sta, OpAddressMode::ZeroPage, 3)),
        0x86 => Some((OpClass::Stx, OpAddressMode::ZeroPage, 3)),
        0x88 => Some((OpClass::Dey, OpAddressMode::Implied, 2)),
        0x89 => Some((OpClass::Nop, OpAddressMode::Immediate, 2)),
        0x8A => Some((OpClass::Txa, OpAddressMode::Implied, 2)),
        0x8C => Some((OpClass::Sty, OpAddressMode::Absolute, 4)),
        0x8D => Some((OpClass::Sta, OpAddressMode::Absolute, 4)),
        0x8E => Some((OpClass::Stx, OpAddressMode::Absolute, 4)),
        0x90 => Some((OpClass::Bcc, OpAddressMode::PCOffset, 2)),
        0x91 => Some((OpClass::Sta, OpAddressMode::PostIndirectY, 6)),
        0x94 => Some((OpClass::Sty, OpAddressMode::ZeroPageOffsetX, 4)),
        0x95 => Some((OpClass::Sta, OpAddressMode::ZeroPageOffsetX, 4)),
        0x96 => Some((OpClass::Stx, OpAddressMode::ZeroPageOffsetY, 4)),
        0x98 => Some((OpClass::Tya, OpAddressMode::Implied, 2)),
        0x99 => Some((OpClass::Sta, OpAddressMode::AbsoluteOffsetY, 5)),
        0x9A => Some((OpClass::Txs, OpAddressMode::Implied, 2)),
        0x9D => Some((OpClass::Sta, OpAddressMode::AbsoluteOffsetX, 5)),
        0xA0 => Some((OpClass::Ldy, OpAddressMode::Immediate, 2)),
        0xA1 => Some((OpClass::Lda, OpAddressMode::PreIndirectX, 6)),
        0xA2 => Some((OpClass::Ldx, OpAddressMode::Immediate, 2)),
        0xA4 => Some((OpClass::Ldy, OpAddressMode::ZeroPage, 3)),
        0xA5 => Some((OpClass::Lda, OpAddressMode::ZeroPage, 3)),
        0xA6 => Some((OpClass::Ldx, OpAddressMode::ZeroPage, 3)),
        0xA8 => Some((OpClass::Tay, OpAddressMode::Implied, 2)),
        0xA9 => Some((OpClass::Lda, OpAddressMode::Immediate, 2)),
        0xAA => Some((OpClass::Tax, OpAddressMode::Implied, 2)),
        0xAC => Some((OpClass::Ldy, OpAddressMode::Absolute, 4)),
        0xAD => Some((OpClass::Lda, OpAddressMode::Absolute, 4)),
        0xAE => Some((OpClass::Ldx, OpAddressMode::Absolute, 4)),
        0xB0 => Some((OpClass::Bcs, OpAddressMode::PCOffset, 2)),
        0xB1 => Some((OpClass::Lda, OpAddressMode::PostIndirectY, 5)),
        0xB4 => Some((OpClass::Ldy, OpAddressMode::ZeroPageOffsetX, 4)),
        0xB5 => Some((OpClass::Lda, OpAddressMode::ZeroPageOffsetX, 4)),
        0xB6 => Some((OpClass::Ldx, OpAddressMode::ZeroPageOffsetY, 4)),
        0xB8 => Some((OpClass::Clv, OpAddressMode::Implied, 2)),
        0xB9 => Some((OpClass::Lda, OpAddressMode::AbsoluteOffsetY, 4)),
        0xBA => Some((OpClass::Tsx, OpAddressMode::Implied, 2)),
        0xBC => Some((OpClass::Ldy, OpAddressMode::AbsoluteOffsetX, 4)),
        0xBD => Some((OpClass::Lda, OpAddressMode::AbsoluteOffsetX, 4)),
        0xBE => Some((OpClass::Ldx, OpAddressMode::AbsoluteOffsetY, 4)),
        0xC0 => Some((OpClass::Cpy, OpAddressMode::Immediate, 2)),
        0xC1 => Some((OpClass::Cmp, OpAddressMode::PreIndirectX, 6)),
        0xC2 => Some((OpClass::Nop, OpAddressMode::Immediate, 2)),
        0xC4 => Some((OpClass::Cpy, OpAddressMode::ZeroPage, 3)),
        0xC5 => Some((OpClass::Cmp, OpAddressMode::ZeroPage, 3)),
        0xC6 => Some((OpClass::Dec, OpAddressMode::ZeroPage, 5)),
        0xC8 => Some((OpClass::Iny, OpAddressMode::Implied, 2)),
        0xC9 => Some((OpClass::Cmp, OpAddressMode::Immediate, 2)),
        0xCA => Some((OpClass::Dex, OpAddressMode::Implied, 2)),
        0xCC => Some((OpClass::Cpy, OpAddressMode::Absolute, 4)),
        0xCD => Some((OpClass::Cmp, OpAddressMode::Absolute, 4)),
        0xCE => Some((OpClass::Dec, OpAddressMode::Absolute, 6)),
        0xD0 => Some((OpClass::Bne, OpAddressMode::PCOffset, 2)),
        0xD1 => Some((OpClass::Cmp, OpAddressMode::PostIndirectY, 5)),
        0xD4 => Some((OpClass::Nop, OpAddressMode::ZeroPageOffsetX, 4)),
        0xD5 => Some((OpClass::Cmp, OpAddressMode::ZeroPageOffsetX, 4)),
        0xD6 => Some((OpClass::Dec, OpAddressMode::ZeroPageOffsetX, 6)),
        0xD8 => Some((OpClass::Cld, OpAddressMode::Implied, 2)),
        0xD9 => Some((OpClass::Cmp, OpAddressMode::AbsoluteOffsetY, 4)),
        0xDA => Some((OpClass::Nop, OpAddressMode::Implied, 2)),
        0xDC => Some((OpClass::Top, OpAddressMode::AbsoluteOffsetX, 4)),
        0xDD => Some((OpClass::Cmp, OpAddressMode::AbsoluteOffsetX, 4)),
        0xDE => Some((OpClass::Dec, OpAddressMode::AbsoluteOffsetX, 7)),
        0xE0 => Some((OpClass::Cpx, OpAddressMode::Immediate, 2)),
        0xE1 => Some((OpClass::Sbc, OpAddressMode::PreIndirectX, 6)),
        0xE2 => Some((OpClass::Nop, OpAddressMode::Immediate, 2)),
        0xE4 => Some((OpClass::Cpx, OpAddressMode::ZeroPage, 3)),
        0xE5 => Some((OpClass::Sbc, OpAddressMode::ZeroPage, 3)),
        0xE6 => Some((OpClass::Inc, OpAddressMode::ZeroPage, 5)),
        0xE8 => Some((OpClass::Inx, OpAddressMode::Implied, 2)),
        0xE9 => Some((OpClass::Sbc, OpAddressMode::Immediate, 2)),
        0xEA => Some((OpClass::Nop, OpAddressMode::Implied, 2)),
        0xEC => Some((OpClass::Cpx, OpAddressMode::Absolute, 4)),
        0xED => Some((OpClass::Sbc, OpAddressMode::Absolute, 4)),
        0xEE => Some((OpClass::Inc, OpAddressMode::Absolute, 6)),
        0xF0 => Some((OpClass::Beq, OpAddressMode::PCOffset, 2)),
        0xF1 => Some((OpClass::Sbc, OpAddressMode::PostIndirectY, 5)),
        0xF4 => Some((OpClass::Nop, OpAddressMode::ZeroPageOffsetX, 4)),
        0xF5 => Some((OpClass::Sbc, OpAddressMode::ZeroPageOffsetX, 4)),
        0xF6 => Some((OpClass::Inc, OpAddressMode::ZeroPageOffsetX, 6)),
        0xF8 => Some((OpClass::Sed, OpAddressMode::Implied, 2)),
        0xF9 => Some((OpClass::Sbc, OpAddressMode::AbsoluteOffsetY, 4)),
        0xFA => Some((OpClass::Nop, OpAddressMode::Implied, 2)),
        0xFC => Some((OpClass::Top, OpAddressMode::AbsoluteOffsetX, 4)),
        0xFD => Some((OpClass::Sbc, OpAddressMode::AbsoluteOffsetX, 4)),
        0xFE => Some((OpClass::Inc, OpAddressMode::AbsoluteOffsetX, 7)),
        _ => None,
    }
}

/// In every entry of the table the class admits the addressing mode, and the
/// base cycles lie between 1 and 7.
pub proof fn lemma_table_entries_are_sound(value: u8)
    ensures
        opcode_table(value) matches Some(entry) ==> entry.0.admits(entry.1) && 1 <= entry.2 <= 7,
{
}

/// The class of an instruction that works on the accumulator, by the three
/// high bits of its opcode.
pub open spec fn accumulator_class(row: int) -> OpClass {
    if row == 0 {
        OpClass::Ora
    } else if row == 1 {
        OpClass::And
    } else if row == 2 {
        OpClass::Eor
    } else if row == 3 {
        OpClass::Adc
    } else if row == 4 {
        OpClass::Sta
    } else if row == 5 {
        OpClass::Lda
    } else if row == 6 {
        OpClass::Cmp
    } else {
        OpClass::Sbc
    }
}

/// The addressing mode of an instruction that works on the accumulator, by
/// the three middle bits of its opcode.
pub open spec fn accumulator_mode(column: int) -> OpAddressMode {
    if column == 0 {
        OpAddressMode::PreIndirectX
    } else if column == 1 {
        OpAddressMode::ZeroPage
    } else if column == 2 {
        OpAddressMode::Immediate
    } else if column == 3 {
        OpAddressMode::Absolute
    } else if column == 4 {
        OpAddressMode::PostIndirectY
    } else if column == 5 {
        OpAddressMode::ZeroPageOffsetX
    } else if column == 6 {
        OpAddressMode::AbsoluteOffsetY
    } else {
        OpAddressMode::AbsoluteOffsetX
    }
}

/// The opcodes of the eight instructions that work on the accumulator are
/// laid out in a grid: the opcode is 32 times the row of the class, plus 4
/// times the column of the addressing mode, plus 1. Only a store of an
/// immediate operand is missing.
pub proof fn lemma_accumulator_opcodes(row: int, column: int)
    requires
        0 <= row < 8,
        0 <= column < 8,
        !(row == 4 && column == 2),
    ensures
        opcode_table((32 * row + 4 * column + 1) as u8) matches Some(entry) && entry.0
            == accumulator_class(row) && entry.1 == accumulator_mode(column),
{
}

/// The class of a shift or rotation, by the three high bits of its opcode.
pub open spec fn shift_class(row: int) -> OpClass {
    if row == 0 {
        OpClass::Asl
    } else if row == 1 {
        OpClass::Rol
    } else if row == 2 {
        OpClass::Lsr
    } else {
        OpClass::Ror
    }
}

/// The opcodes of the shifts and rotations are laid out in a grid as well:
/// the opcode is 32 times the row of the class plus 2, plus 4 times 1, 2, 3,
/// 5 or 7 for an operand in page zero, the accumulator, an absolute
/// operand, and the two with X added.
pub proof fn lemma_shift_opcodes(row: int)
    requires
        0 <= row < 4,
    ensures
        opcode_table((32 * row + 0x06) as u8) matches Some(entry) && entry.0 == shift_class(row)
            && entry.1 == OpAddressMode::ZeroPage,
        opcode_table((32 * row + 0x0A) as u8) matches Some(entry) && entry.0 == shift_class(row)
            && entry.1 == OpAddressMode::Implied,
        opcode_table((32 * row + 0x0E) as u8) matches Some(entry) && entry.0 == shift_class(row)
            && entry.1 == OpAddressMode::Absolute,
        opcode_table((32 * row + 0x16) as u8) matches Some(entry) && entry.0 == shift_class(row)
            && entry.1 == OpAddressMode::ZeroPageOffsetX,
        opcode_table((32 * row + 0x1E) as u8) matches Some(entry) && entry.0 == shift_class(row)
            && entry.1 == OpAddressMode::AbsoluteOffsetX,
{
}

/// Whether the table has a branch with two base cycles for the opcode byte.
pub open spec fn is_branch_opcode(value: u8) -> bool {
    opcode_table(value) matches Some(entry) && entry.0.is_branch() && entry.1
        == OpAddressMode::PCOffset && entry.2 == 2
}

/// Whether the table has an instruction for the opcode byte that takes an
/// offset to the program counter.
pub open spec fn takes_offset(value: u8) -> bool {
    opcode_table(value) matches Some(entry) && entry.1 == OpAddressMode::PCOffset
}

/// The opcode of a branch is 32 times its row plus 16; the branches, and no
/// other instructions, take an offset to the program counter.
pub proof fn lemma_branch_opcodes(value: u8)
    ensures
        takes_offset(value) <==> value % 32 == 16,
        value % 32 == 16 ==> is_branch_opcode(value),
{
}

/// A decoded instruction: a table entry and the operand that follows the
/// opcode byte in memory.
#[derive(Copy, Clone, Debug)]
pub struct Op {
    pub code: OpCode,
    pub param: OpParam,
}

impl Op {
    /// Whether the operand has the length that the entry asks for.
    pub open spec fn wf(self) -> bool {
        self.code.wf() && self.param.len() + 1 == self.code.len
    }

    pub fn new(code: OpCode, param: OpParam) -> (r: Op)
        ensures
            r.code == code,
            r.param == param,
    {
        Op { code: code, param: param }
    }
}

/// The decoding of an instruction failed: the byte at the program counter is
/// no opcode.
#[derive(Copy, Clone, Debug, PartialEq, Eq, Structural)]
pub struct DecodeError {
    /// The program counter at which the byte was read
    pub pc: u16,
    /// The byte that is no opcode
    pub opcode: u8,
}

/// What reading the operand of an instruction at `pc` returns: nothing for
/// an implied operand, the byte behind the opcode byte, or the word behind
/// it, low byte first. The addresses wrap round the end of the address
/// space.
pub open spec fn operand_model<M: MemoryBus>(state: M::V, pc: u16, mode: OpAddressMode) -> (
    OpParam,
    M::V,
) {
    if mode.spec_operand_len() == 0 {
        (OpParam::Nil, state)
    } else if mode.spec_operand_len() == 1 {
        let (val, s1) = M::read_model(state, pc.wrapping_add(1));
        (OpParam::Byte(val), s1)
    } else {
        let (lo, s1) = M::read_model(state, pc.wrapping_add(1));
        let (hi, s2) = M::read_model(s1, pc.wrapping_add(2));
        (OpParam::Word(word_of(lo, hi)), s2)
    }
}

/// Decodes the instruction at the program counter: reads the opcode byte,
/// looks it up, and reads as many operand bytes as the entry asks for, each
/// by a normal read. A byte that is no opcode is an error, and nothing more
/// is read then.
pub fn decode_op<M: MemoryBus>(memory: &mut M, reg_pc: u16) -> (r: Result<Op, DecodeError>)
    requires
        M::valid_model(old(memory)@),
    ensures
        M::valid_model(final(memory)@),
        M::layout_model(final(memory)@) == M::layout_model(old(memory)@),
        ({
            let (first, s1) = M::read_model(old(memory)@, reg_pc);
            match r {
                Ok(op) => {
                    &&& opcode_table(first) matches Some(entry)
                    &&& op.code.entry(first, entry.0, entry.1, entry.2)
                    &&& op.wf()
                    &&& (op.param, final(memory)@) == operand_model::<M>(s1, reg_pc, entry.1)
                },
                Err(error) => {
                    &&& opcode_table(first) is None
                    &&& error == (DecodeError { pc: reg_pc, opcode: first })
                    &&& final(memory)@ == s1
                },
            }
        }),
{
    let op_code_value: u8 = memory.read_byte(reg_pc);
    let op_code = match OpCode::from_value(op_code_value) {
        Some(op_code) => op_code,
        None => {
            return Err(DecodeError { pc: reg_pc, opcode: op_code_value });
        },
    };
    let op_param = if op_code.len == 1 {
        OpParam::Nil
    } else if op_code.len == 2 {
        OpParam::Byte(memory.read_byte(reg_pc.wrapping_add(1)))
    } else {
        let lo: u8 = memory.read_byte(reg_pc.wrapping_add(1));
        let hi: u8 = memory.read_byte(reg_pc.wrapping_add(2));
        OpParam::Word(make_word(lo, hi))
    };
    Ok(Op::new(op_code, op_param))
}

/// A byte read as a two's-complement number.
pub open spec fn signed(val: u8) -> int {
    if val >= 0x80 {
        val - 0x100
    } else {
        val as int
    }
}

/// The address that lies `offset`, read as a signed number, behind `pc`,
/// going round the 16-bit address space.
pub open spec fn spec_branch_target(pc: u16, offset: u8) -> u16 {
    ((pc + signed(offset)) % 0x10000) as u16
}

/// The address that lies `offset`, read as a signed number, behind `pc`.
#[verifier::when_used_as_spec(spec_branch_target)]
pub fn branch_target(pc: u16, offset: u8) -> (r: u16)
    ensures
        r == spec_branch_target(pc, offset),
{
    if offset < 0x80 {
        pc.wrapping_add(offset as u16)
    } else {
        pc.wrapping_sub(0x100 - offset as u16)
    }
}

impl OpAddressMode {
    /// Whether two addresses lie in the same 256-byte page.
    pub open spec fn spec_same_page(addr1: u16, addr2: u16) -> bool {
        addr1 / 256 == addr2 / 256
    }

    /// Whether two addresses lie in the same 256-byte page.
    #[verifier::when_used_as_spec(spec_same_page)]
    #[inline]
    pub fn same_page(addr1: u16, addr2: u16) -> (r: bool)
        ensures
            r == Self::spec_same_page(addr1, addr2),
    {
        let page1: u16 = addr1 & 0xFF00;
        let page2: u16 = addr2 & 0xFF00;
        assert((page1 == page2) == (addr1 / 256 == addr2 / 256)) by (bit_vector)
            requires
                page1 == addr1 & 0xFF00,
                page2 == addr2 & 0xFF00,
        ;
        page1 == page2
    }

    /// The address `offset` bytes behind `addr`, going round the address
    /// space, and whether it lies in another page than `addr`.
    pub open spec fn spec_offset(addr: u16, offset: u8) -> (bool, u16) {
        let result = addr.wrapping_add(offset as u16);
        (!Self::spec_same_page(result, addr), result)
    }

    /// The address `offset` bytes behind `addr`, and whether a page boundary
    /// lies between the two.
    #[verifier::when_used_as_spec(spec_offset)]
    #[inline]
    pub fn offset(addr: u16, offset: u8) -> (r: (bool, u16))
        ensures
            r == Self::spec_offset(addr, offset),
    {
        let result: u16 = addr.wrapping_add(offset as u16);
        let different_page = !Self::same_page(result, addr);
        (different_page, result)
    }

    /// Whether an instruction that reads its operand in this mode takes one
    /// more cycle when the address computation crosses a page boundary.
    pub open spec fn reports_page_cross(self) -> bool {
        self is AbsoluteOffsetX || self is AbsoluteOffsetY || self is PostIndirectY
    }
}

/// The effective address of an operand, whether computing it crossed a page
/// boundary, and the memory after the reads that it took.
///
/// The zero-page modes wrap within page zero. The pointer of an indirect jump
/// is read without carry into the high byte of its address, and the pointers
/// of the two indexed indirect modes are read from page zero, their high
/// bytes from the next offset within that page.
pub open spec fn address_model<M: MemoryBus>(
    mode: OpAddressMode,
    param: OpParam,
    reg: RegistersView,
    state: M::V,
) -> ((bool, u16), M::V) {
    match mode {
        OpAddressMode::Implied => ((false, 0), state),
        OpAddressMode::Immediate => ((false, param.spec_as_u16()), state),
        OpAddressMode::Absolute => ((false, param.spec_as_u16()), state),
        OpAddressMode::AbsoluteOffsetX => (
            OpAddressMode::spec_offset(param.spec_as_u16(), reg.x),
            state,
        ),
        OpAddressMode::AbsoluteOffsetY => (
            OpAddressMode::spec_offset(param.spec_as_u16(), reg.y),
            state,
        ),
        OpAddressMode::ZeroPage => ((false, param.spec_as_u16()), state),
        OpAddressMode::ZeroPageOffsetX => (
            (false, param.spec_as_u8().wrapping_add(reg.x) as u16),
            state,
        ),
        OpAddressMode::ZeroPageOffsetY => (
            (false, param.spec_as_u8().wrapping_add(reg.y) as u16),
            state,
        ),
        OpAddressMode::PCOffset => (
            (
                !OpAddressMode::spec_same_page(
                    reg.pc,
                    spec_branch_target(reg.pc, param.spec_as_u8()),
                ),
                spec_branch_target(reg.pc, param.spec_as_u8()),
            ),
            state,
        ),
        OpAddressMode::Indirect => {
            let (addr, s1) = read_word_same_page_model::<M>(state, param.spec_as_u16());
            ((false, addr), s1)
        },
        OpAddressMode::PreIndirectX => {
            let (addr, s1) = read_word_zero_page_model::<M>(
                state,
                param.spec_as_u8().wrapping_add(reg.x),
            );
            ((false, addr), s1)
        },
        OpAddressMode::PostIndirectY => {
            let (addr, s1) = read_word_zero_page_model::<M>(state, param.spec_as_u8());
            (OpAddressMode::spec_offset(addr, reg.y), s1)
        },
    }
}

/// The operand value of an instruction, whether fetching it costs a cycle
/// for a page crossing, and the memory after the reads that it took. An
/// implied operand is the accumulator, an immediate one the operand byte
/// itself; every other is read from its effective address.
pub open spec fn fetch_model<M: MemoryBus>(
    mode: OpAddressMode,
    param: OpParam,
    reg: RegistersView,
    state: M::V,
) -> ((bool, u8), M::V) {
    match mode {
        OpAddressMode::Implied => ((false, reg.a), state),
        OpAddressMode::Immediate => ((false, param.spec_as_u8()), state),
        _ => {
            let ((crossed, addr), s1) = address_model::<M>(mode, param, reg, state);
            let (val, s2) = M::read_model(s1, addr);
            ((mode.reports_page_cross() && crossed, val), s2)
        },
    }
}

/// Where reads change nothing, resolving an address and fetching an operand
/// leave the memory as it was.
pub proof fn lemma_operand_leaves_memory<M: MemoryBus>(
    mode: OpAddressMode,
    param: OpParam,
    reg: RegistersView,
    state: M::V,
)
    requires
        reads_change_nothing::<M>(state),
    ensures
        address_model::<M>(mode, param, reg, state).1 == state,
        fetch_model::<M>(mode, param, reg, state).1 == state,
{
}

impl OpAddressMode {
    /// Resolves the effective address of an operand.
    pub fn address<M: MemoryBus>(&self, param: &OpParam, reg: &Registers, memory: &mut M) -> (r: (
        bool,
        u16,
    ))
        requires
            M::valid_model(old(memory)@),
        ensures
            (r, final(memory)@) == address_model::<M>(*self, *param, reg@, old(memory)@),
            M::valid_model(final(memory)@),
            M::layout_model(final(memory)@) == M::layout_model(old(memory)@),
    {
        let addr: u16 = match *self {
            OpAddressMode::Implied => 0,
            OpAddressMode::Immediate => param.as_u16(),
            OpAddressMode::Absolute => param.as_u16(),
            OpAddressMode::AbsoluteOffsetX => {
                return OpAddressMode::offset(param.as_u16(), reg.x);
            },
            OpAddressMode::AbsoluteOffsetY => {
                return OpAddressMode::offset(param.as_u16(), reg.y);
            },
            OpAddressMode::ZeroPage => param.as_u16(),
            OpAddressMode::ZeroPageOffsetX => param.as_u8().wrapping_add(reg.x) as u16,
            OpAddressMode::ZeroPageOffsetY => param.as_u8().wrapping_add(reg.y) as u16,
            OpAddressMode::PCOffset => {
                let target: u16 = branch_target(reg.pc, param.as_u8());
                return (!OpAddressMode::same_page(reg.pc, target), target);
            },
            OpAddressMode::Indirect => read_word_same_page(memory, param.as_u16()),
            OpAddressMode::PreIndirectX => read_word_zero_page(
                memory,
                param.as_u8().wrapping_add(reg.x),
            ),
            OpAddressMode::PostIndirectY => {
                let addr: u16 = read_word_zero_page(memory, param.as_u8());
                return OpAddressMode::offset(addr, reg.y);
            },
        };
        (false, addr)
    }

    /// Resolves the operand of an instruction and reads its value.
    pub fn address_and_read_byte<M: MemoryBus>(
        &self,
        param: &OpParam,
        reg: &Registers,
        memory: &mut M,
    ) -> (r: (bool, u8))
        requires
            M::valid_model(old(memory)@),
        ensures
            (r, final(memory)@) == fetch_model::<M>(*self, *param, reg@, old(memory)@),
            M::valid_model(final(memory)@),
            M::layout_model(final(memory)@) == M::layout_model(old(memory)@),
    {
        match *self {
            OpAddressMode::Implied => (false, reg.a),
            OpAddressMode::Immediate => (false, param.as_u8()),
            OpAddressMode::AbsoluteOffsetX | OpAddressMode::AbsoluteOffsetY
            | OpAddressMode::PostIndirectY => {
                let (different_page, addr) = self.address(param, reg, memory);
                (different_page, memory.read_byte(addr))
            },
            _ => {
                let (_, addr) = self.address(param, reg, memory);
                (false, memory.read_byte(addr))
            },
        }
    }
}

} // verus!
