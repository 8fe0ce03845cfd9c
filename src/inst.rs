//! The opcode table and the semantics of each instruction.

use crate::cpu::{AddrMode, IndexRegister};
use vstd::prelude::*;

verus! {

/// An instruction: mnemonic and addressing mode, or an opcode with no instruction.
#[derive(Clone, Copy, PartialEq, Eq, Structural, Debug)]
pub enum Inst {
    ADC(AddrMode),
    AND(AddrMode),
    ASL(AddrMode),
    BCC(AddrMode),
    BCS(AddrMode),
    BEQ(AddrMode),
    BIT(AddrMode),
    BMI(AddrMode),
    BNE(AddrMode),
    BPL(AddrMode),
    BRK(AddrMode),
    BVC(AddrMode),
    BVS(AddrMode),
    CLC(AddrMode),
    CLD(AddrMode),
    CLI(AddrMode),
    CLV(AddrMode),
    CMP(AddrMode),
    CPX(AddrMode),
    CPY(AddrMode),
    DEC(AddrMode),
    DEX(AddrMode),
    DEY(AddrMode),
    EOR(AddrMode),
    INC(AddrMode),
    INX(AddrMode),
    INY(AddrMode),
    JMP(AddrMode),
    JSR(AddrMode),
    LDA(AddrMode),
    LDX(AddrMode),
    LDY(AddrMode),
    LSR(AddrMode),
    NOP(AddrMode),
    ORA(AddrMode),
    PHA(AddrMode),
    PHP(AddrMode),
    PLA(AddrMode),
    PLP(AddrMode),
    ROL(AddrMode),
    ROR(AddrMode),
    RTI(AddrMode),
    RTS(AddrMode),
    SBC(AddrMode),
    SEC(AddrMode),
    SED(AddrMode),
    SEI(AddrMode),
    STA(AddrMode),
    STX(AddrMode),
    STY(AddrMode),
    TAX(AddrMode),
    TAY(AddrMode),
    TSX(AddrMode),
    TXA(AddrMode),
    TXS(AddrMode),
    TYA(AddrMode),
    ILL(u8),
}

/// The opcode table: the instruction of each opcode, `ILL` where there is none.
pub open spec fn decode(op: u8) -> Inst {
    match op {
        0x00 => Inst::BRK(AddrMode::Imp),
        0x01 => Inst::ORA(AddrMode::Ind(IndexRegister::X)),
        0x05 => Inst::ORA(AddrMode::ZP(IndexRegister::N)),
        0x06 => Inst::ASL(AddrMode::ZP(IndexRegister::N)),
        0x08 => Inst::PHP(AddrMode::Imp),
        0x09 => Inst::ORA(AddrMode::Imm),
        0x0a => Inst::ASL(AddrMode::Acc),
        0x0d => Inst::ORA(AddrMode::Abs(IndexRegister::N)),
        0x0e => Inst::ASL(AddrMode::Abs(IndexRegister::N)),
        0x10 => Inst::BPL(AddrMode::Rel),
        0x11 => Inst::ORA(AddrMode::Ind(IndexRegister::Y)),
        0x15 => Inst::ORA(AddrMode::ZP(IndexRegister::X)),
        0x16 => Inst::ASL(AddrMode::ZP(IndexRegister::X)),
        0x18 => Inst::CLC(AddrMode::Imp),
        0x19 => Inst::ORA(AddrMode::Abs(IndexRegister::Y)),
        0x1d => Inst::ORA(AddrMode::Abs(IndexRegister::X)),
        0x1e => Inst::ASL(AddrMode::Abs(IndexRegister::X)),
        0x20 => Inst::JSR(AddrMode::Abs(IndexRegister::N)),
        0x21 => Inst::AND(AddrMode::Ind(IndexRegister::X)),
        0x24 => Inst::BIT(AddrMode::ZP(IndexRegister::N)),
        0x25 => Inst::AND(AddrMode::ZP(IndexRegister::N)),
        0x26 => Inst::ROL(AddrMode::ZP(IndexRegister::N)),
        0x28 => Inst::PLP(AddrMode::Imp),
        0x29 => Inst::AND(AddrMode::Imm),
        0x2a => Inst::ROL(AddrMode::Acc),
        0x2c => Inst::BIT(AddrMode::Abs(IndexRegister::N)),
        0x2d => Inst::AND(AddrMode::Abs(IndexRegister::N)),
        0x2e => Inst::ROL(AddrMode::Abs(IndexRegister::N)),
        0x30 => Inst::BMI(AddrMode::Rel),
        0x31 => Inst::AND(AddrMode::Ind(IndexRegister::Y)),
        0x35 => Inst::AND(AddrMode::ZP(IndexRegister::X)),
        0x36 => Inst::ROL(AddrMode::ZP(IndexRegister::X)),
        0x38 => Inst::SEC(AddrMode::Imp),
        0x39 => Inst::AND(AddrMode::Abs(IndexRegister::Y)),
        0x3d => Inst::AND(AddrMode::Abs(IndexRegister::X)),
        0x3e => Inst::ROL(AddrMode::Abs(IndexRegister::X)),
        0x40 => Inst::RTI(AddrMode::Imp),
        0x41 => Inst::EOR(AddrMode::Ind(IndexRegister::X)),
        0x45 => Inst::EOR(AddrMode::ZP(IndexRegister::N)),
        0x46 => Inst::LSR(AddrMode::ZP(IndexRegister::N)),
        0x48 => Inst::PHA(AddrMode::Imp),
        0x49 => Inst::EOR(AddrMode::Imm),
        0x4a => Inst::LSR(AddrMode::Acc),
        0x4c => Inst::JMP(AddrMode::Abs(IndexRegister::N)),
        0x4d => Inst::EOR(AddrMode::Abs(IndexRegister::N)),
        0x4e => Inst::LSR(AddrMode::Abs(IndexRegister::N)),
        0x50 => Inst::BVC(AddrMode::Rel),
        0x51 => Inst::EOR(AddrMode::Ind(IndexRegister::Y)),
        0x55 => Inst::EOR(AddrMode::ZP(IndexRegister::X)),
        0x56 => Inst::LSR(AddrMode::ZP(IndexRegister::X)),
        0x58 => Inst::CLI(AddrMode::Imp),
        0x59 => Inst::EOR(AddrMode::Abs(IndexRegister::Y)),
        0x5d => Inst::EOR(AddrMode::Abs(IndexRegister::X)),
        0x5e => Inst::LSR(AddrMode::Abs(IndexRegister::X)),
        0x60 => Inst::RTS(AddrMode::Imp),
        0x61 => Inst::ADC(AddrMode::Ind(IndexRegister::X)),
        0x65 => Inst::ADC(AddrMode::ZP(IndexRegister::N)),
        0x66 => Inst::ROR(AddrMode::ZP(IndexRegister::N)),
        0x68 => Inst::PLA(AddrMode::Imp),
        0x69 => Inst::ADC(AddrMode::Imm),
        0x6a => Inst::ROR(AddrMode::Acc),
        0x6c => Inst::JMP(AddrMode::Ind(IndexRegister::N)),
        0x6d => Inst::ADC(AddrMode::Abs(IndexRegister::N)),
        0x6e => Inst::ROR(AddrMode::Abs(IndexRegister::N)),
        0x70 => Inst::BVS(AddrMode::Rel),
        0x71 => Inst::ADC(AddrMode::Ind(IndexRegister::Y)),
        0x75 => Inst::ADC(AddrMode::ZP(IndexRegister::X)),
        0x76 => Inst::ROR(AddrMode::ZP(IndexRegister::X)),
        0x78 => Inst::SEI(AddrMode::Imp),
        0x79 => Inst::ADC(AddrMode::Abs(IndexRegister::Y)),
        0x7d => Inst::ADC(AddrMode::Abs(IndexRegister::X)),
        0x7e => Inst::ROR(AddrMode::Abs(IndexRegister::X)),
        0x81 => Inst::STA(AddrMode::Ind(IndexRegister::X)),
        0x84 => Inst::STY(AddrMode::ZP(IndexRegister::N)),
        0x85 => Inst::STA(AddrMode::ZP(IndexRegister::N)),
        0x86 => Inst::STX(AddrMode::ZP(IndexRegister::N)),
        0x88 => Inst::DEY(AddrMode::Imp),
        0x8a => Inst::TXA(AddrMode::Imp),
        0x8c => Inst::STY(AddrMode::Abs(IndexRegister::N)),
        0x8d => Inst::STA(AddrMode::Abs(IndexRegister::N)),
        0x8e => Inst::STX(AddrMode::Abs(IndexRegister::N)),
        0x90 => Inst::BCC(AddrMode::Rel),
        0x91 => Inst::STA(AddrMode::Ind(IndexRegister::Y)),
        0x94 => Inst::STY(AddrMode::ZP(IndexRegister::X)),
        0x95 => Inst::STA(AddrMode::ZP(IndexRegister::X)),
        0x96 => Inst::STX(AddrMode::ZP(IndexRegister::Y)),
        0x98 => Inst::TYA(AddrMode::Imp),
        0x99 => Inst::STA(AddrMode::Abs(IndexRegister::Y)),
        0x9a => Inst::TXS(AddrMode::Imp),
        0x9d => Inst::STA(AddrMode::Abs(IndexRegister::X)),
        0xa0 => Inst::LDY(AddrMode::Imm),
        0xa1 => Inst::LDA(AddrMode::Ind(IndexRegister::X)),
        0xa2 => Inst::LDX(AddrMode::Imm),
        0xa4 => Inst::LDY(AddrMode::ZP(IndexRegister::N)),
        0xa5 => Inst::LDA(AddrMode::ZP(IndexRegister::N)),
        0xa6 => Inst::LDX(AddrMode::ZP(IndexRegister::N)),
        0xa8 => Inst::TAY(AddrMode::Imp),
        0xa9 => Inst::LDA(AddrMode::Imm),
        0xaa => Inst::TAX(AddrMode::Imp),
        0xac => Inst::LDY(AddrMode::Abs(IndexRegister::N)),
        0xad => Inst::LDA(AddrMode::Abs(IndexRegister::N)),
        0xae => Inst::LDX(AddrMode::Abs(IndexRegister::N)),
        0xb0 => Inst::BCS(AddrMode::Rel),
        0xb1 => Inst::LDA(AddrMode::Ind(IndexRegister::Y)),
        0xb4 => Inst::LDY(AddrMode::ZP(IndexRegister::X)),
        0xb5 => Inst::LDA(AddrMode::ZP(IndexRegister::X)),
        0xb6 => Inst::LDX(AddrMode::ZP(IndexRegister::Y)),
        0xb8 => Inst::CLV(AddrMode::Imp),
        0xb9 => Inst::LDA(AddrMode::Abs(IndexRegister::Y)),
        0xba => Inst::TSX(AddrMode::Imp),
        0xbc => Inst::LDY(AddrMode::Abs(IndexRegister::X)),
        0xbd => Inst::LDA(AddrMode::Abs(IndexRegister::X)),
        0xbe => Inst::LDX(AddrMode::Abs(IndexRegister::Y)),
        0xc0 => Inst::CPY(AddrMode::Imm),
        0xc1 => Inst::CMP(AddrMode::Ind(IndexRegister::X)),
        0xc4 => Inst::CPY(AddrMode::ZP(IndexRegister::N)),
        0xc5 => Inst::CMP(AddrMode::ZP(IndexRegister::N)),
        0xc6 => Inst::DEC(AddrMode::ZP(IndexRegister::N)),
        0xc8 => Inst::INY(AddrMode::Imp),
        0xc9 => Inst::CMP(AddrMode::Imm),
        0xca => Inst::DEX(AddrMode::Imp),
        0xcc => Inst::CPY(AddrMode::Abs(IndexRegister::N)),
        0xcd => Inst::CMP(AddrMode::Abs(IndexRegister::N)),
        0xce => Inst::DEC(AddrMode::Abs(IndexRegister::N)),
        0xd0 => Inst::BNE(AddrMode::Rel),
        0xd1 => Inst::CMP(AddrMode::Ind(IndexRegister::Y)),
        0xd5 => Inst::CMP(AddrMode::ZP(IndexRegister::X)),
        0xd6 => Inst::DEC(AddrMode::ZP(IndexRegister::X)),
        0xd8 => Inst::CLD(AddrMode::Imp),
        0xd9 => Inst::CMP(AddrMode::Abs(IndexRegister::Y)),
        0xdd => Inst::CMP(AddrMode::Abs(IndexRegister::X)),
        0xde => Inst::DEC(AddrMode::Abs(IndexRegister::X)),
        0xe0 => Inst::CPX(AddrMode::Imm),
        0xe1 => Inst::SBC(AddrMode::Ind(IndexRegister::X)),
        0xe4 => Inst::CPX(AddrMode::ZP(IndexRegister::N)),
        0xe5 => Inst::SBC(AddrMode::ZP(IndexRegister::N)),
        0xe6 => Inst::INC(AddrMode::ZP(IndexRegister::N)),
        0xe8 => Inst::INX(AddrMode::Imp),
        0xe9 => Inst::SBC(AddrMode::Imm),
        0xea => Inst::NOP(AddrMode::Imp),
        0xec => Inst::CPX(AddrMode::Abs(IndexRegister::N)),
        0xed => Inst::SBC(AddrMode::Abs(IndexRegister::N)),
        0xee => Inst::INC(AddrMode::Abs(IndexRegister::N)),
        0xf0 => Inst::BEQ(AddrMode::Rel),
        0xf1 => Inst::SBC(AddrMode::Ind(IndexRegister::Y)),
        0xf5 => Inst::SBC(AddrMode::ZP(IndexRegister::X)),
        0xf6 => Inst::INC(AddrMode::ZP(IndexRegister::X)),
        0xf8 => Inst::SED(AddrMode::Imp),
        0xf9 => Inst::SBC(AddrMode::Abs(IndexRegister::Y)),
        0xfd => Inst::SBC(AddrMode::Abs(IndexRegister::X)),
        0xfe => Inst::INC(AddrMode::Abs(IndexRegister::X)),
        _ => Inst::ILL(op),
    }
}

impl Inst {
    /// The instruction of `opcode`.
    pub fn get(opcode: u8) -> (r: Inst)
        ensures
            r == decode(opcode),
            crate::inst_exec::mode_ok(r),
            r matches Inst::ILL(x) ==> x == opcode,
    {
        match opcode {
            0x00 => Inst::BRK(AddrMode::Imp),
            0x01 => Inst::ORA(AddrMode::Ind(IndexRegister::X)),
            0x05 => Inst::ORA(AddrMode::ZP(IndexRegister::N)),
            0x06 => Inst::ASL(AddrMode::ZP(IndexRegister::N)),
            0x08 => Inst::PHP(AddrMode::Imp),
            0x09 => Inst::ORA(AddrMode::Imm),
            0x0a => Inst::ASL(AddrMode::Acc),
            0x0d => Inst::ORA(AddrMode::Abs(IndexRegister::N)),
            0x0e => Inst::ASL(AddrMode::Abs(IndexRegister::N)),
            0x10 => Inst::BPL(AddrMode::Rel),
            0x11 => Inst::ORA(AddrMode::Ind(IndexRegister::Y)),
            0x15 => Inst::ORA(AddrMode::ZP(IndexRegister::X)),
            0x16 => Inst::ASL(AddrMode::ZP(IndexRegister::X)),
            0x18 => Inst::CLC(AddrMode::Imp),
            0x19 => Inst::ORA(AddrMode::Abs(IndexRegister::Y)),
            0x1d => Inst::ORA(AddrMode::Abs(IndexRegister::X)),
            0x1e => Inst::ASL(AddrMode::Abs(IndexRegister::X)),
            0x20 => Inst::JSR(AddrMode::Abs(IndexRegister::N)),
            0x21 => Inst::AND(AddrMode::Ind(IndexRegister::X)),
            0x24 => Inst::BIT(AddrMode::ZP(IndexRegister::N)),
            0x25 => Inst::AND(AddrMode::ZP(IndexRegister::N)),
            0x26 => Inst::ROL(AddrMode::ZP(IndexRegister::N)),
            0x28 => Inst::PLP(AddrMode::Imp),
            0x29 => Inst::AND(AddrMode::Imm),
            0x2a => Inst::ROL(AddrMode::Acc),
            0x2c => Inst::BIT(AddrMode::Abs(IndexRegister::N)),
            0x2d => Inst::AND(AddrMode::Abs(IndexRegister::N)),
            0x2e => Inst::ROL(AddrMode::Abs(IndexRegister::N)),
            0x30 => Inst::BMI(AddrMode::Rel),
            0x31 => Inst::AND(AddrMode::Ind(IndexRegister::Y)),
            0x35 => Inst::AND(AddrMode::ZP(IndexRegister::X)),
            0x36 => Inst::ROL(AddrMode::ZP(IndexRegister::X)),
            0x38 => Inst::SEC(AddrMode::Imp),
            0x39 => Inst::AND(AddrMode::Abs(IndexRegister::Y)),
            0x3d => Inst::AND(AddrMode::Abs(IndexRegister::X)),
            0x3e => Inst::ROL(AddrMode::Abs(IndexRegister::X)),
            0x40 => Inst::RTI(AddrMode::Imp),
            0x41 => Inst::EOR(AddrMode::Ind(IndexRegister::X)),
            0x45 => Inst::EOR(AddrMode::ZP(IndexRegister::N)),
            0x46 => Inst::LSR(AddrMode::ZP(IndexRegister::N)),
            0x48 => Inst::PHA(AddrMode::Imp),
            0x49 => Inst::EOR(AddrMode::Imm),
            0x4a => Inst::LSR(AddrMode::Acc),
            0x4c => Inst::JMP(AddrMode::Abs(IndexRegister::N)),
            0x4d => Inst::EOR(AddrMode::Abs(IndexRegister::N)),
            0x4e => Inst::LSR(AddrMode::Abs(IndexRegister::N)),
            0x50 => Inst::BVC(AddrMode::Rel),
            0x51 => Inst::EOR(AddrMode::Ind(IndexRegister::Y)),
            0x55 => Inst::EOR(AddrMode::ZP(IndexRegister::X)),
            0x56 => Inst::LSR(AddrMode::ZP(IndexRegister::X)),
            0x58 => Inst::CLI(AddrMode::Imp),
            0x59 => Inst::EOR(AddrMode::Abs(IndexRegister::Y)),
            0x5d => Inst::EOR(AddrMode::Abs(IndexRegister::X)),
            0x5e => Inst::LSR(AddrMode::Abs(IndexRegister::X)),
            0x60 => Inst::RTS(AddrMode::Imp),
            0x61 => Inst::ADC(AddrMode::Ind(IndexRegister::X)),
            0x65 => Inst::ADC(AddrMode::ZP(IndexRegister::N)),
            0x66 => Inst::ROR(AddrMode::ZP(IndexRegister::N)),
            0x68 => Inst::PLA(AddrMode::Imp),
            0x69 => Inst::ADC(AddrMode::Imm),
            0x6a => Inst::ROR(AddrMode::Acc),
            0x6c => Inst::JMP(AddrMode::Ind(IndexRegister::N)),
            0x6d => Inst::ADC(AddrMode::Abs(IndexRegister::N)),
            0x6e => Inst::ROR(AddrMode::Abs(IndexRegister::N)),
            0x70 => Inst::BVS(AddrMode::Rel),
            0x71 => Inst::ADC(AddrMode::Ind(IndexRegister::Y)),
            0x75 => Inst::ADC(AddrMode::ZP(IndexRegister::X)),
            0x76 => Inst::ROR(AddrMode::ZP(IndexRegister::X)),
            0x78 => Inst::SEI(AddrMode::Imp),
            0x79 => Inst::ADC(AddrMode::Abs(IndexRegister::Y)),
            0x7d => Inst::ADC(AddrMode::Abs(IndexRegister::X)),
            0x7e => Inst::ROR(AddrMode::Abs(IndexRegister::X)),
            0x81 => Inst::STA(AddrMode::Ind(IndexRegister::X)),
            0x84 => Inst::STY(AddrMode::ZP(IndexRegister::N)),
            0x85 => Inst::STA(AddrMode::ZP(IndexRegister::N)),
            0x86 => Inst::STX(AddrMode::ZP(IndexRegister::N)),
            0x88 => Inst::DEY(AddrMode::Imp),
            0x8a => Inst::TXA(AddrMode::Imp),
            0x8c => Inst::STY(AddrMode::Abs(IndexRegister::N)),
            0x8d => Inst::STA(AddrMode::Abs(IndexRegister::N)),
            0x8e => Inst::STX(AddrMode::Abs(IndexRegister::N)),
            0x90 => Inst::BCC(AddrMode::Rel),
            0x91 => Inst::STA(AddrMode::Ind(IndexRegister::Y)),
            0x94 => Inst::STY(AddrMode::ZP(IndexRegister::X)),
            0x95 => Inst::STA(AddrMode::ZP(IndexRegister::X)),
            0x96 => Inst::STX(AddrMode::ZP(IndexRegister::Y)),
            0x98 => Inst::TYA(AddrMode::Imp),
            0x99 => Inst::STA(AddrMode::Abs(IndexRegister::Y)),
            0x9a => Inst::TXS(AddrMode::Imp),
            0x9d => Inst::STA(AddrMode::Abs(IndexRegister::X)),
            0xa0 => Inst::LDY(AddrMode::Imm),
            0xa1 => Inst::LDA(AddrMode::Ind(IndexRegister::X)),
            0xa2 => Inst::LDX(AddrMode::Imm),
            0xa4 => Inst::LDY(AddrMode::ZP(IndexRegister::N)),
            0xa5 => Inst::LDA(AddrMode::ZP(IndexRegister::N)),
            0xa6 => Inst::LDX(AddrMode::ZP(IndexRegister::N)),
            0xa8 => Inst::TAY(AddrMode::Imp),
            0xa9 => Inst::LDA(AddrMode::Imm),
            0xaa => Inst::TAX(AddrMode::Imp),
            0xac => Inst::LDY(AddrMode::Abs(IndexRegister::N)),
            0xad => Inst::LDA(AddrMode::Abs(IndexRegister::N)),
            0xae => Inst::LDX(AddrMode::Abs(IndexRegister::N)),
            0xb0 => Inst::BCS(AddrMode::Rel),
            0xb1 => Inst::LDA(AddrMode::Ind(IndexRegister::Y)),
            0xb4 => Inst::LDY(AddrMode::ZP(IndexRegister::X)),
            0xb5 => Inst::LDA(AddrMode::ZP(IndexRegister::X)),
            0xb6 => Inst::LDX(AddrMode::ZP(IndexRegister::Y)),
            0xb8 => Inst::CLV(AddrMode::Imp),
            0xb9 => Inst::LDA(AddrMode::Abs(IndexRegister::Y)),
            0xba => Inst::TSX(AddrMode::Imp),
            0xbc => Inst::LDY(AddrMode::Abs(IndexRegister::X)),
            0xbd => Inst::LDA(AddrMode::Abs(IndexRegister::X)),
            0xbe => Inst::LDX(AddrMode::Abs(IndexRegister::Y)),
            0xc0 => Inst::CPY(AddrMode::Imm),
            0xc1 => Inst::CMP(AddrMode::Ind(IndexRegister::X)),
            0xc4 => Inst::CPY(AddrMode::ZP(IndexRegister::N)),
            0xc5 => Inst::CMP(AddrMode::ZP(IndexRegister::N)),
            0xc6 => Inst::DEC(AddrMode::ZP(IndexRegister::N)),
            0xc8 => Inst::INY(AddrMode::Imp),
            0xc9 => Inst::CMP(AddrMode::Imm),
            0xca => Inst::DEX(AddrMode::Imp),
            0xcc => Inst::CPY(AddrMode::Abs(IndexRegister::N)),
            0xcd => Inst::CMP(AddrMode::Abs(IndexRegister::N)),
            0xce => Inst::DEC(AddrMode::Abs(IndexRegister::N)),
            0xd0 => Inst::BNE(AddrMode::Rel),
            0xd1 => Inst::CMP(AddrMode::Ind(IndexRegister::Y)),
            0xd5 => Inst::CMP(AddrMode::ZP(IndexRegister::X)),
            0xd6 => Inst::DEC(AddrMode::ZP(IndexRegister::X)),
            0xd8 => Inst::CLD(AddrMode::Imp),
            0xd9 => Inst::CMP(AddrMode::Abs(IndexRegister::Y)),
            0xdd => Inst::CMP(AddrMode::Abs(IndexRegister::X)),
            0xde => Inst::DEC(AddrMode::Abs(IndexRegister::X)),
            0xe0 => Inst::CPX(AddrMode::Imm),
            0xe1 => Inst::SBC(AddrMode::Ind(IndexRegister::X)),
            0xe4 => Inst::CPX(AddrMode::ZP(IndexRegister::N)),
            0xe5 => Inst::SBC(AddrMode::ZP(IndexRegister::N)),
            0xe6 => Inst::INC(AddrMode::ZP(IndexRegister::N)),
            0xe8 => Inst::INX(AddrMode::Imp),
            0xe9 => Inst::SBC(AddrMode::Imm),
            0xea => Inst::NOP(AddrMode::Imp),
            0xec => Inst::CPX(AddrMode::Abs(IndexRegister::N)),
            0xed => Inst::SBC(AddrMode::Abs(IndexRegister::N)),
            0xee => Inst::INC(AddrMode::Abs(IndexRegister::N)),
            0xf0 => Inst::BEQ(AddrMode::Rel),
            0xf1 => Inst::SBC(AddrMode::Ind(IndexRegister::Y)),
            0xf5 => Inst::SBC(AddrMode::ZP(IndexRegister::X)),
            0xf6 => Inst::INC(AddrMode::ZP(IndexRegister::X)),
            0xf8 => Inst::SED(AddrMode::Imp),
            0xf9 => Inst::SBC(AddrMode::Abs(IndexRegister::Y)),
            0xfd => Inst::SBC(AddrMode::Abs(IndexRegister::X)),
            0xfe => Inst::INC(AddrMode::Abs(IndexRegister::X)),
            _ => Inst::ILL(opcode),
        }
    }
}

} // verus!
