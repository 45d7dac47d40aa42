//! The instruction set of the 6502: for each operation code the
//! instruction, its addressing mode and the cycles it takes at least.

use vstd::prelude::*;

verus! {

/// The 56 instructions, and `INV` for an operation code that is none.
#[derive(Clone, Copy, Debug, PartialEq, Eq, Structural)]
pub enum InstructionTypes {
    INV,
    ADC,
    AND,
    ASL,
    BCC,
    BCS,
    BEQ,
    BIT,
    BMI,
    BNE,
    BPL,
    BRK,
    BVC,
    BVS,
    CLC,
    CLD,
    CLI,
    CLV,
    CMP,
    CPX,
    CPY,
    DEC,
    DEX,
    DEY,
    EOR,
    INC,
    INX,
    INY,
    JMP,
    JSR,
    LDA,
    LDX,
    LDY,
    LSR,
    NOP,
    ORA,
    PHA,
    PHP,
    PLA,
    PLP,
    ROL,
    ROR,
    RTI,
    RTS,
    SBC,
    SEC,
    SED,
    SEI,
    STA,
    STX,
    STY,
    TAX,
    TAY,
    TSX,
    TXA,
    TXS,
    TYA,
}

/// The 13 ways in which an instruction finds its operand.
#[derive(Clone, Copy, Debug, PartialEq, Eq, Structural)]
pub enum AddressingModes {
    Immediate,
    Absolute,
    IndexedAbsoluteX,
    IndexedAbsoluteY,
    ZeroPage,
    IndexedZeroPageX,
    IndexedZeroPageY,
    Implied,
    Accumulator,
    Indirect,
    IndexedIndirectX,
    IndexedIndirectY,
    Relative,
}

/// What an operation code stands for.
#[derive(Clone, Copy, Debug)]
pub struct Operation {
    pub instruction_type: InstructionTypes,
    /// The cycles that the instruction takes before any penalty.
    pub cycle: u8,
    pub addressing_mode: AddressingModes,
}

/// The instruction of each operation code.
pub const INSTRUCTION_TABLE: [InstructionTypes; 256] = [
    InstructionTypes::BRK, InstructionTypes::ORA, InstructionTypes::INV, InstructionTypes::INV, InstructionTypes::INV, InstructionTypes::ORA, InstructionTypes::ASL, InstructionTypes::INV,
    InstructionTypes::PHP, InstructionTypes::ORA, InstructionTypes::ASL, InstructionTypes::INV, InstructionTypes::INV, InstructionTypes::ORA, InstructionTypes::ASL, InstructionTypes::INV,
    InstructionTypes::BPL, InstructionTypes::ORA, InstructionTypes::INV, InstructionTypes::INV, InstructionTypes::INV, InstructionTypes::ORA, InstructionTypes::ASL, InstructionTypes::INV,
    InstructionTypes::CLC, InstructionTypes::ORA, InstructionTypes::INV, InstructionTypes::INV, InstructionTypes::INV, InstructionTypes::ORA, InstructionTypes::ASL, InstructionTypes::INV,
    InstructionTypes::JSR, InstructionTypes::AND, InstructionTypes::INV, InstructionTypes::INV, InstructionTypes::BIT, InstructionTypes::AND, InstructionTypes::ROL, InstructionTypes::INV,
    InstructionTypes::PLP, InstructionTypes::AND, InstructionTypes::ROL, InstructionTypes::INV, InstructionTypes::BIT, InstructionTypes::AND, InstructionTypes::ROL, InstructionTypes::INV,
    InstructionTypes::BMI, InstructionTypes::AND, InstructionTypes::INV, InstructionTypes::INV, InstructionTypes::INV, InstructionTypes::AND, InstructionTypes::ROL, InstructionTypes::INV,
    InstructionTypes::SEC, InstructionTypes::AND, InstructionTypes::INV, InstructionTypes::INV, InstructionTypes::INV, InstructionTypes::AND, InstructionTypes::ROL, InstructionTypes::INV,
    InstructionTypes::RTI, InstructionTypes::EOR, InstructionTypes::INV, InstructionTypes::INV, InstructionTypes::INV, InstructionTypes::EOR, InstructionTypes::LSR, InstructionTypes::INV,
    InstructionTypes::PHA, InstructionTypes::EOR, InstructionTypes::LSR, InstructionTypes::INV, InstructionTypes::JMP, InstructionTypes::EOR, InstructionTypes::LSR, InstructionTypes::INV,
    InstructionTypes::BVC, InstructionTypes::EOR, InstructionTypes::INV, InstructionTypes::INV, InstructionTypes::INV, InstructionTypes::EOR, InstructionTypes::LSR, InstructionTypes::INV,
    InstructionTypes::CLI, InstructionTypes::EOR, InstructionTypes::INV, InstructionTypes::INV, InstructionTypes::INV, InstructionTypes::EOR, InstructionTypes::LSR, InstructionTypes::INV,
    InstructionTypes::RTS, InstructionTypes::ADC, InstructionTypes::INV, InstructionTypes::INV, InstructionTypes::INV, InstructionTypes::ADC, InstructionTypes::ROR, InstructionTypes::INV,
    InstructionTypes::PLA, InstructionTypes::ADC, InstructionTypes::ROR, InstructionTypes::INV, InstructionTypes::JMP, InstructionTypes::ADC, InstructionTypes::ROR, InstructionTypes::INV,
    InstructionTypes::BVS, InstructionTypes::ADC, InstructionTypes::INV, InstructionTypes::INV, InstructionTypes::INV, InstructionTypes::ADC, InstructionTypes::ROR, InstructionTypes::INV,
    InstructionTypes::SEI, InstructionTypes::ADC, InstructionTypes::INV, InstructionTypes::INV, InstructionTypes::INV, InstructionTypes::ADC, InstructionTypes::ROR, InstructionTypes::INV,
    InstructionTypes::INV, InstructionTypes::STA, InstructionTypes::INV, InstructionTypes::INV, InstructionTypes::STY, InstructionTypes::STA, InstructionTypes::STX, InstructionTypes::INV,
    InstructionTypes::DEY, InstructionTypes::INV, InstructionTypes::TXA, InstructionTypes::INV, InstructionTypes::STY, InstructionTypes::STA, InstructionTypes::STX, InstructionTypes::INV,
    InstructionTypes::BCC, InstructionTypes::STA, InstructionTypes::INV, InstructionTypes::INV, InstructionTypes::STY, InstructionTypes::STA, InstructionTypes::STX, InstructionTypes::INV,
    InstructionTypes::TYA, InstructionTypes::STA, InstructionTypes::TXS, InstructionTypes::INV, InstructionTypes::INV, InstructionTypes::STA, InstructionTypes::INV, InstructionTypes::INV,
    InstructionTypes::LDY, InstructionTypes::LDA, InstructionTypes::LDX, InstructionTypes::INV, InstructionTypes::LDY, InstructionTypes::LDA, InstructionTypes::LDX, InstructionTypes::INV,
    InstructionTypes::TAY, InstructionTypes::LDA, InstructionTypes::TAX, InstructionTypes::INV, InstructionTypes::LDY, InstructionTypes::LDA, InstructionTypes::LDX, InstructionTypes::INV,
    InstructionTypes::BCS, InstructionTypes::LDA, InstructionTypes::INV, InstructionTypes::INV, InstructionTypes::LDY, InstructionTypes::LDA, InstructionTypes::LDX, InstructionTypes::INV,
    InstructionTypes::CLV, InstructionTypes::LDA, InstructionTypes::TSX, InstructionTypes::INV, InstructionTypes::LDY, InstructionTypes::LDA, InstructionTypes::LDX, InstructionTypes::INV,
    InstructionTypes::CPY, InstructionTypes::CMP, InstructionTypes::INV, InstructionTypes::INV, InstructionTypes::CPY, InstructionTypes::CMP, InstructionTypes::DEC, InstructionTypes::INV,
    InstructionTypes::INY, InstructionTypes::CMP, InstructionTypes::DEX, InstructionTypes::INV, InstructionTypes::CPY, InstructionTypes::CMP, InstructionTypes::DEC, InstructionTypes::INV,
    InstructionTypes::BNE, InstructionTypes::CMP, InstructionTypes::INV, InstructionTypes::INV, InstructionTypes::INV, InstructionTypes::CMP, InstructionTypes::DEC, InstructionTypes::INV,
    InstructionTypes::CLD, InstructionTypes::CMP, InstructionTypes::INV, InstructionTypes::INV, InstructionTypes::INV, InstructionTypes::CMP, InstructionTypes::DEC, InstructionTypes::INV,
    InstructionTypes::CPX, InstructionTypes::SBC, InstructionTypes::INV, InstructionTypes::INV, InstructionTypes::CPX, InstructionTypes::SBC, InstructionTypes::INC, InstructionTypes::INV,
    InstructionTypes::INX, InstructionTypes::SBC, InstructionTypes::NOP, InstructionTypes::INV, InstructionTypes::CPX, InstructionTypes::SBC, InstructionTypes::INC, InstructionTypes::INV,
    InstructionTypes::BEQ, InstructionTypes::SBC, InstructionTypes::INV, InstructionTypes::INV, InstructionTypes::INV, InstructionTypes::SBC, InstructionTypes::INC, InstructionTypes::INV,
    InstructionTypes::SED, InstructionTypes::SBC, InstructionTypes::INV, InstructionTypes::INV, InstructionTypes::INV, InstructionTypes::SBC, InstructionTypes::INC, InstructionTypes::INV,
];

/// The cycles of each operation code; an operation code that is no
/// instruction takes one.
pub const CYCLE_TABLE: [u8; 256] = [
    7, 6, 1, 1, 1, 3, 5, 1, 3, 2, 2, 1, 1, 4, 6, 1,
    2, 5, 1, 1, 1, 4, 6, 1, 2, 4, 1, 1, 1, 4, 7, 1,
    6, 6, 1, 1, 3, 3, 5, 1, 4, 2, 2, 1, 4, 4, 6, 1,
    2, 5, 1, 1, 1, 4, 6, 1, 2, 4, 1, 1, 1, 4, 7, 1,
    6, 6, 1, 1, 1, 3, 5, 1, 3, 2, 2, 1, 3, 4, 6, 1,
    2, 5, 1, 1, 1, 4, 6, 1, 2, 4, 1, 1, 1, 4, 7, 1,
    6, 6, 1, 1, 1, 3, 5, 1, 4, 2, 2, 1, 5, 4, 6, 1,
    2, 5, 1, 1, 1, 4, 6, 1, 2, 4, 1, 1, 1, 4, 7, 1,
    1, 6, 1, 1, 3, 3, 3, 1, 2, 1, 2, 1, 4, 4, 4, 1,
    2, 6, 1, 1, 4, 4, 4, 1, 2, 5, 2, 1, 1, 5, 1, 1,
    2, 6, 2, 1, 3, 3, 3, 1, 2, 2, 2, 1, 4, 4, 4, 1,
    2, 5, 1, 1, 4, 4, 4, 1, 2, 4, 2, 1, 4, 4, 4, 1,
    2, 6, 1, 1, 3, 3, 5, 1, 2, 2, 2, 1, 4, 4, 6, 1,
    2, 5, 1, 1, 1, 4, 6, 1, 2, 4, 1, 1, 1, 4, 7, 1,
    2, 6, 1, 1, 3, 3, 5, 1, 2, 2, 2, 1, 4, 4, 6, 1,
    2, 5, 1, 1, 1, 4, 6, 1, 2, 4, 1, 1, 1, 4, 7, 1,
];

/// The addressing mode of each operation code.
pub const MODE_TABLE: [AddressingModes; 256] = [
    AddressingModes::Implied, AddressingModes::IndexedIndirectX, AddressingModes::Immediate, AddressingModes::Immediate,
    AddressingModes::Immediate, AddressingModes::ZeroPage, AddressingModes::ZeroPage, AddressingModes::Immediate,
    AddressingModes::Implied, AddressingModes::Immediate, AddressingModes::Accumulator, AddressingModes::Immediate,
    AddressingModes::Immediate, AddressingModes::Absolute, AddressingModes::Absolute, AddressingModes::Immediate,
    AddressingModes::Relative, AddressingModes::IndexedIndirectY, AddressingModes::Immediate, AddressingModes::Immediate,
    AddressingModes::Immediate, AddressingModes::IndexedZeroPageX, AddressingModes::IndexedZeroPageX, AddressingModes::Immediate,
    AddressingModes::Implied, AddressingModes::IndexedAbsoluteY, AddressingModes::Immediate, AddressingModes::Immediate,
    AddressingModes::Immediate, AddressingModes::IndexedAbsoluteX, AddressingModes::IndexedAbsoluteX, AddressingModes::Immediate,
    AddressingModes::Absolute, AddressingModes::IndexedIndirectX, AddressingModes::Immediate, AddressingModes::Immediate,
    AddressingModes::ZeroPage, AddressingModes::ZeroPage, AddressingModes::ZeroPage, AddressingModes::Immediate,
    AddressingModes::Implied, AddressingModes::Immediate, AddressingModes::Accumulator, AddressingModes::Immediate,
    AddressingModes::Absolute, AddressingModes::Absolute, AddressingModes::Absolute, AddressingModes::Immediate,
    AddressingModes::Relative, AddressingModes::IndexedIndirectY, AddressingModes::Immediate, AddressingModes::Immediate,
    AddressingModes::Immediate, AddressingModes::IndexedZeroPageX, AddressingModes::IndexedZeroPageX, AddressingModes::Immediate,
    AddressingModes::Implied, AddressingModes::IndexedAbsoluteY, AddressingModes::Immediate, AddressingModes::Immediate,
    AddressingModes::Immediate, AddressingModes::IndexedAbsoluteX, AddressingModes::IndexedAbsoluteX, AddressingModes::Immediate,
    AddressingModes::Implied, AddressingModes::IndexedIndirectX, AddressingModes::Immediate, AddressingModes::Immediate,
    AddressingModes::Immediate, AddressingModes::ZeroPage, AddressingModes::ZeroPage, AddressingModes::Immediate,
    AddressingModes::Implied, AddressingModes::Immediate, AddressingModes::Accumulator, AddressingModes::Immediate,
    AddressingModes::Absolute, AddressingModes::Absolute, AddressingModes::Absolute, AddressingModes::Immediate,
    AddressingModes::Relative, AddressingModes::IndexedIndirectY, AddressingModes::Immediate, AddressingModes::Immediate,
    AddressingModes::Immediate, AddressingModes::IndexedZeroPageX, AddressingModes::IndexedZeroPageX, AddressingModes::Immediate,
    AddressingModes::Implied, AddressingModes::IndexedAbsoluteY, AddressingModes::Immediate, AddressingModes::Immediate,
    AddressingModes::Immediate, AddressingModes::IndexedAbsoluteX, AddressingModes::IndexedAbsoluteX, AddressingModes::Immediate,
    AddressingModes::Implied, AddressingModes::IndexedIndirectX, AddressingModes::Immediate, AddressingModes::Immediate,
    AddressingModes::Immediate, AddressingModes::ZeroPage, AddressingModes::ZeroPage, AddressingModes::Immediate,
    AddressingModes::Implied, AddressingModes::Immediate, AddressingModes::Accumulator, AddressingModes::Immediate,
    AddressingModes::Indirect, AddressingModes::Absolute, AddressingModes::Absolute, AddressingModes::Immediate,
    AddressingModes::Relative, AddressingModes::IndexedIndirectY, AddressingModes::Immediate, AddressingModes::Immediate,
    AddressingModes::Immediate, AddressingModes::IndexedZeroPageX, AddressingModes::IndexedZeroPageX, AddressingModes::Immediate,
    AddressingModes::Implied, AddressingModes::IndexedAbsoluteY, AddressingModes::Immediate, AddressingModes::Immediate,
    AddressingModes::Immediate, AddressingModes::IndexedAbsoluteX, AddressingModes::IndexedAbsoluteX, AddressingModes::Immediate,
    AddressingModes::Immediate, AddressingModes::IndexedIndirectX, AddressingModes::Immediate, AddressingModes::Immediate,
    AddressingModes::ZeroPage, AddressingModes::ZeroPage, AddressingModes::ZeroPage, AddressingModes::Immediate,
    AddressingModes::Implied, AddressingModes::Immediate, AddressingModes::Implied, AddressingModes::Immediate,
    AddressingModes::Absolute, AddressingModes::Absolute, AddressingModes::Absolute, AddressingModes::Immediate,
    AddressingModes::Relative, AddressingModes::IndexedIndirectY, AddressingModes::Immediate, AddressingModes::Immediate,
    AddressingModes::IndexedZeroPageX, AddressingModes::IndexedZeroPageX, AddressingModes::IndexedZeroPageY, AddressingModes::Immediate,
    AddressingModes::Implied, AddressingModes::IndexedAbsoluteY, AddressingModes::Implied, AddressingModes::Immediate,
    AddressingModes::Immediate, AddressingModes::IndexedAbsoluteX, AddressingModes::Immediate, AddressingModes::Immediate,
    AddressingModes::Immediate, AddressingModes::IndexedIndirectX, AddressingModes::Immediate, AddressingModes::Immediate,
    AddressingModes::ZeroPage, AddressingModes::ZeroPage, AddressingModes::ZeroPage, AddressingModes::Immediate,
    AddressingModes::Implied, AddressingModes::Immediate, AddressingModes::Implied, AddressingModes::Immediate,
    AddressingModes::Absolute, AddressingModes::Absolute, AddressingModes::Absolute, AddressingModes::Immediate,
    AddressingModes::Relative, AddressingModes::IndexedIndirectY, AddressingModes::Immediate, AddressingModes::Immediate,
    AddressingModes::IndexedZeroPageX, AddressingModes::IndexedZeroPageX, AddressingModes::IndexedZeroPageY, AddressingModes::Immediate,
    AddressingModes::Implied, AddressingModes::IndexedAbsoluteY, AddressingModes::Implied, AddressingModes::Immediate,
    AddressingModes::IndexedAbsoluteX, AddressingModes::IndexedAbsoluteX, AddressingModes::IndexedAbsoluteY, AddressingModes::Immediate,
    AddressingModes::Immediate, AddressingModes::IndexedIndirectX, AddressingModes::Immediate, AddressingModes::Immediate,
    AddressingModes::ZeroPage, AddressingModes::ZeroPage, AddressingModes::ZeroPage, AddressingModes::Immediate,
    AddressingModes::Implied, AddressingModes::Immediate, AddressingModes::Implied, AddressingModes::Immediate,
    AddressingModes::Absolute, AddressingModes::Absolute, AddressingModes::Absolute, AddressingModes::Immediate,
    AddressingModes::Relative, AddressingModes::IndexedIndirectY, AddressingModes::Immediate, AddressingModes::Immediate,
    AddressingModes::Immediate, AddressingModes::IndexedZeroPageX, AddressingModes::IndexedZeroPageX, AddressingModes::Immediate,
    AddressingModes::Implied, AddressingModes::IndexedAbsoluteY, AddressingModes::Immediate, AddressingModes::Immediate,
    AddressingModes::Immediate, AddressingModes::IndexedAbsoluteX, AddressingModes::IndexedAbsoluteX, AddressingModes::Immediate,
    AddressingModes::Immediate, AddressingModes::IndexedIndirectX, AddressingModes::Immediate, AddressingModes::Immediate,
    AddressingModes::ZeroPage, AddressingModes::ZeroPage, AddressingModes::ZeroPage, AddressingModes::Immediate,
    AddressingModes::Implied, AddressingModes::Immediate, AddressingModes::Implied, AddressingModes::Immediate,
    AddressingModes::Absolute, AddressingModes::Absolute, AddressingModes::Absolute, AddressingModes::Immediate,
    AddressingModes::Relative, AddressingModes::IndexedIndirectY, AddressingModes::Immediate, AddressingModes::Immediate,
    AddressingModes::Immediate, AddressingModes::IndexedZeroPageX, AddressingModes::IndexedZeroPageX, AddressingModes::Immediate,
    AddressingModes::Implied, AddressingModes::IndexedAbsoluteY, AddressingModes::Immediate, AddressingModes::Immediate,
    AddressingModes::Immediate, AddressingModes::IndexedAbsoluteX, AddressingModes::IndexedAbsoluteX, AddressingModes::Immediate,
];

/// The name of an instruction, in lower case.
pub open spec fn instruction_name_text(instruction_type: InstructionTypes) -> Seq<char> {
    match instruction_type {
        InstructionTypes::INV => "inv"@,
        InstructionTypes::ADC => "adc"@,
        InstructionTypes::AND => "and"@,
        InstructionTypes::ASL => "asl"@,
        InstructionTypes::BCC => "bcc"@,
        InstructionTypes::BCS => "bcs"@,
        InstructionTypes::BEQ => "beq"@,
        InstructionTypes::BIT => "bit"@,
        InstructionTypes::BMI => "bmi"@,
        InstructionTypes::BNE => "bne"@,
        InstructionTypes::BPL => "bpl"@,
        InstructionTypes::BRK => "brk"@,
        InstructionTypes::BVC => "bvc"@,
        InstructionTypes::BVS => "bvs"@,
        InstructionTypes::CLC => "clc"@,
        InstructionTypes::CLD => "cld"@,
        InstructionTypes::CLI => "cli"@,
        InstructionTypes::CLV => "clv"@,
        InstructionTypes::CMP => "cmp"@,
        InstructionTypes::CPX => "cpx"@,
        InstructionTypes::CPY => "cpy"@,
        InstructionTypes::DEC => "dec"@,
        InstructionTypes::DEX => "dex"@,
        InstructionTypes::DEY => "dey"@,
        InstructionTypes::EOR => "eor"@,
        InstructionTypes::INC => "inc"@,
        InstructionTypes::INX => "inx"@,
        InstructionTypes::INY => "iny"@,
        InstructionTypes::JMP => "jmp"@,
        InstructionTypes::JSR => "jsr"@,
        InstructionTypes::LDA => "lda"@,
        InstructionTypes::LDX => "ldx"@,
        InstructionTypes::LDY => "ldy"@,
        InstructionTypes::LSR => "lsr"@,
        InstructionTypes::NOP => "nop"@,
        InstructionTypes::ORA => "ora"@,
        InstructionTypes::PHA => "pha"@,
        InstructionTypes::PHP => "php"@,
        InstructionTypes::PLA => "pla"@,
        InstructionTypes::PLP => "plp"@,
        InstructionTypes::ROL => "rol"@,
        InstructionTypes::ROR => "ror"@,
        InstructionTypes::RTI => "rti"@,
        InstructionTypes::RTS => "rts"@,
        InstructionTypes::SBC => "sbc"@,
        InstructionTypes::SEC => "sec"@,
        InstructionTypes::SED => "sed"@,
        InstructionTypes::SEI => "sei"@,
        InstructionTypes::STA => "sta"@,
        InstructionTypes::STX => "stx"@,
        InstructionTypes::STY => "sty"@,
        InstructionTypes::TAX => "tax"@,
        InstructionTypes::TAY => "tay"@,
        InstructionTypes::TSX => "tsx"@,
        InstructionTypes::TXA => "txa"@,
        InstructionTypes::TXS => "txs"@,
        InstructionTypes::TYA => "tya"@,
    }
}

pub fn instruction_name(instruction_type: InstructionTypes) -> (name: &'static str)
    ensures
        name@ == instruction_name_text(instruction_type),
{
    match instruction_type {
        InstructionTypes::INV => "inv",
        InstructionTypes::ADC => "adc",
        InstructionTypes::AND => "and",
        InstructionTypes::ASL => "asl",
        InstructionTypes::BCC => "bcc",
        InstructionTypes::BCS => "bcs",
        InstructionTypes::BEQ => "beq",
        InstructionTypes::BIT => "bit",
        InstructionTypes::BMI => "bmi",
        InstructionTypes::BNE => "bne",
        InstructionTypes::BPL => "bpl",
        InstructionTypes::BRK => "brk",
        InstructionTypes::BVC => "bvc",
        InstructionTypes::BVS => "bvs",
        InstructionTypes::CLC => "clc",
        InstructionTypes::CLD => "cld",
        InstructionTypes::CLI => "cli",
        InstructionTypes::CLV => "clv",
        InstructionTypes::CMP => "cmp",
        InstructionTypes::CPX => "cpx",
        InstructionTypes::CPY => "cpy",
        InstructionTypes::DEC => "dec",
        InstructionTypes::DEX => "dex",
        InstructionTypes::DEY => "dey",
        InstructionTypes::EOR => "eor",
        InstructionTypes::INC => "inc",
        InstructionTypes::INX => "inx",
        InstructionTypes::INY => "iny",
        InstructionTypes::JMP => "jmp",
        InstructionTypes::JSR => "jsr",
        InstructionTypes::LDA => "lda",
        InstructionTypes::LDX => "ldx",
        InstructionTypes::LDY => "ldy",
        InstructionTypes::LSR => "lsr",
        InstructionTypes::NOP => "nop",
        InstructionTypes::ORA => "ora",
        InstructionTypes::PHA => "pha",
        InstructionTypes::PHP => "php",
        InstructionTypes::PLA => "pla",
        InstructionTypes::PLP => "plp",
        InstructionTypes::ROL => "rol",
        InstructionTypes::ROR => "ror",
        InstructionTypes::RTI => "rti",
        InstructionTypes::RTS => "rts",
        InstructionTypes::SBC => "sbc",
        InstructionTypes::SEC => "sec",
        InstructionTypes::SED => "sed",
        InstructionTypes::SEI => "sei",
        InstructionTypes::STA => "sta",
        InstructionTypes::STX => "stx",
        InstructionTypes::STY => "sty",
        InstructionTypes::TAX => "tax",
        InstructionTypes::TAY => "tay",
        InstructionTypes::TSX => "tsx",
        InstructionTypes::TXA => "txa",
        InstructionTypes::TXS => "txs",
        InstructionTypes::TYA => "tya",
    }
}

/// What an operation code stands for.
pub open spec fn operation_spec(opc: u8) -> Operation {
    Operation {
        instruction_type: INSTRUCTION_TABLE[opc as int],
        cycle: CYCLE_TABLE[opc as int],
        addressing_mode: MODE_TABLE[opc as int],
    }
}

pub fn operation(opc: u8) -> (op: Operation)
    ensures
        op == operation_spec(opc),
        1 <= op.cycle <= 7,
{
    let op = Operation {
        instruction_type: INSTRUCTION_TABLE[opc as usize],
        cycle: CYCLE_TABLE[opc as usize],
        addressing_mode: MODE_TABLE[opc as usize],
    };
    assert(1 <= op.cycle <= 7) by {
        lemma_cycles_bounded(opc);
    }
    op
}

/// Every operation code takes between one and seven cycles.
pub proof fn lemma_cycles_bounded(opc: u8)
    ensures
        1 <= CYCLE_TABLE[opc as int] <= 7,
{
    assert(forall|i: int| 0 <= i < 256 ==> 1 <= #[trigger] CYCLE_TABLE[i] <= 7);
}

} // verus!
