//! The instruction table: what each opcode does, where its operand is, how long
//! it is and how many cycles it takes before penalties.

use vstd::prelude::*;

verus! {

/// Where an instruction finds its operand.
#[allow(non_camel_case_types)]
#[derive(Clone, Copy, Debug, PartialEq, Eq, Structural)]
pub enum AddressingMode {
    Immediate,
    ZeroPage,
    ZeroPage_X,
    ZeroPage_Y,
    Absolute,
    Absolute_X,
    Absolute_Y,
    Indirect_X,
    Indirect_Y,
    NoneAddressing,
}

/// What an instruction does. The undocumented ones follow the names in common
/// use; `NopRead` fetches an operand and drops it.
#[derive(Clone, Copy, Debug, PartialEq, Eq, Structural)]
pub enum Operation {
    Adc,
    Alr,
    Anc,
    And,
    Ane,
    Arr,
    Asl,
    AslAccumulator,
    Axs,
    Bcc,
    Bcs,
    Beq,
    Bit,
    Bmi,
    Bne,
    Bpl,
    Brk,
    Bvc,
    Bvs,
    Clc,
    Cld,
    Cli,
    Clv,
    Cmp,
    Cpx,
    Cpy,
    Dcp,
    Dec,
    Dex,
    Dey,
    Eor,
    Inc,
    Inx,
    Iny,
    Isb,
    Jam,
    JmpAbsolute,
    JmpIndirect,
    Jsr,
    Las,
    Lax,
    Lda,
    Ldx,
    Ldy,
    Lsr,
    LsrAccumulator,
    Lxa,
    Nop,
    NopRead,
    Ora,
    Pha,
    Php,
    Pla,
    Plp,
    Rla,
    Rol,
    RolAccumulator,
    Ror,
    RorAccumulator,
    Rra,
    Rti,
    Rts,
    Sax,
    Sbc,
    Sec,
    Sed,
    Sei,
    Sha,
    Shx,
    Shy,
    Slo,
    Sre,
    Sta,
    Stx,
    Sty,
    Tas,
    Tax,
    Tay,
    Tsx,
    Txa,
    Txs,
    Tya,
}

#[derive(Clone, Copy, Debug, PartialEq, Eq, Structural)]
pub struct OpCode {
    pub operation: Operation,
    pub mode: AddressingMode,
    pub len: u8,
    pub cycles: u8,
}

/// Operation, addressing mode, length and base cycles of every opcode.
pub const OPCODES: [(Operation, AddressingMode, u8, u8); 256] = [
    (Operation::Brk, AddressingMode::NoneAddressing, 1, 7),
    (Operation::Ora, AddressingMode::Indirect_X, 2, 6),
    (Operation::Jam, AddressingMode::NoneAddressing, 1, 2),
    (Operation::Slo, AddressingMode::Indirect_X, 2, 8),
    (Operation::NopRead, AddressingMode::ZeroPage, 2, 3),
    (Operation::Ora, AddressingMode::ZeroPage, 2, 3),
    (Operation::Asl, AddressingMode::ZeroPage, 2, 5),
    (Operation::Slo, AddressingMode::ZeroPage, 2, 5),
    (Operation::Php, AddressingMode::NoneAddressing, 1, 3),
    (Operation::Ora, AddressingMode::Immediate, 2, 2),
    (Operation::AslAccumulator, AddressingMode::NoneAddressing, 1, 2),
    (Operation::Anc, AddressingMode::Immediate, 2, 2),
    (Operation::NopRead, AddressingMode::Absolute, 3, 4),
    (Operation::Ora, AddressingMode::Absolute, 3, 4),
    (Operation::Asl, AddressingMode::Absolute, 3, 6),
    (Operation::Slo, AddressingMode::Absolute, 3, 6),
    (Operation::Bpl, AddressingMode::NoneAddressing, 2, 2),
    (Operation::Ora, AddressingMode::Indirect_Y, 2, 5),
    (Operation::Jam, AddressingMode::NoneAddressing, 1, 2),
    (Operation::Slo, AddressingMode::Indirect_Y, 2, 8),
    (Operation::NopRead, AddressingMode::ZeroPage_X, 2, 4),
    (Operation::Ora, AddressingMode::ZeroPage_X, 2, 4),
    (Operation::Asl, AddressingMode::ZeroPage_X, 2, 6),
    (Operation::Slo, AddressingMode::ZeroPage_X, 2, 6),
    (Operation::Clc, AddressingMode::NoneAddressing, 1, 2),
    (Operation::Ora, AddressingMode::Absolute_Y, 3, 4),
    (Operation::Nop, AddressingMode::NoneAddressing, 1, 2),
    (Operation::Slo, AddressingMode::Absolute_Y, 3, 7),
    (Operation::NopRead, AddressingMode::Absolute_X, 3, 4),
    (Operation::Ora, AddressingMode::Absolute_X, 3, 4),
    (Operation::Asl, AddressingMode::Absolute_X, 3, 7),
    (Operation::Slo, AddressingMode::Absolute_X, 3, 7),
    (Operation::Jsr, AddressingMode::NoneAddressing, 3, 6),
    (Operation::And, AddressingMode::Indirect_X, 2, 6),
    (Operation::Jam, AddressingMode::NoneAddressing, 1, 2),
    (Operation::Rla, AddressingMode::Indirect_X, 2, 8),
    (Operation::Bit, AddressingMode::ZeroPage, 2, 3),
    (Operation::And, AddressingMode::ZeroPage, 2, 3),
    (Operation::Rol, AddressingMode::ZeroPage, 2, 5),
    (Operation::Rla, AddressingMode::ZeroPage, 2, 5),
    (Operation::Plp, AddressingMode::NoneAddressing, 1, 4),
    (Operation::And, AddressingMode::Immediate, 2, 2),
    (Operation::RolAccumulator, AddressingMode::NoneAddressing, 1, 2),
    (Operation::Anc, AddressingMode::Immediate, 2, 2),
    (Operation::Bit, AddressingMode::Absolute, 3, 4),
    (Operation::And, AddressingMode::Absolute, 3, 4),
    (Operation::Rol, AddressingMode::Absolute, 3, 6),
    (Operation::Rla, AddressingMode::Absolute, 3, 6),
    (Operation::Bmi, AddressingMode::NoneAddressing, 2, 2),
    (Operation::And, AddressingMode::Indirect_Y, 2, 5),
    (Operation::Jam, AddressingMode::NoneAddressing, 1, 2),
    (Operation::Rla, AddressingMode::Indirect_Y, 2, 8),
    (Operation::NopRead, AddressingMode::ZeroPage_X, 2, 4),
    (Operation::And, AddressingMode::ZeroPage_X, 2, 4),
    (Operation::Rol, AddressingMode::ZeroPage_X, 2, 6),
    (Operation::Rla, AddressingMode::ZeroPage_X, 2, 6),
    (Operation::Sec, AddressingMode::NoneAddressing, 1, 2),
    (Operation::And, AddressingMode::Absolute_Y, 3, 4),
    (Operation::Nop, AddressingMode::NoneAddressing, 1, 2),
    (Operation::Rla, AddressingMode::Absolute_Y, 3, 7),
    (Operation::NopRead, AddressingMode::Absolute_X, 3, 4),
    (Operation::And, AddressingMode::Absolute_X, 3, 4),
    (Operation::Rol, AddressingMode::Absolute_X, 3, 7),
    (Operation::Rla, AddressingMode::Absolute_X, 3, 7),
    (Operation::Rti, AddressingMode::NoneAddressing, 1, 6),
    (Operation::Eor, AddressingMode::Indirect_X, 2, 6),
    (Operation::Jam, AddressingMode::NoneAddressing, 1, 2),
    (Operation::Sre, AddressingMode::Indirect_X, 2, 8),
    (Operation::NopRead, AddressingMode::ZeroPage, 2, 3),
    (Operation::Eor, AddressingMode::ZeroPage, 2, 3),
    (Operation::Lsr, AddressingMode::ZeroPage, 2, 5),
    (Operation::Sre, AddressingMode::ZeroPage, 2, 5),
    (Operation::Pha, AddressingMode::NoneAddressing, 1, 3),
    (Operation::Eor, AddressingMode::Immediate, 2, 2),
    (Operation::LsrAccumulator, AddressingMode::NoneAddressing, 1, 2),
    (Operation::Alr, AddressingMode::Immediate, 2, 2),
    (Operation::JmpAbsolute, AddressingMode::NoneAddressing, 3, 3),
    (Operation::Eor, AddressingMode::Absolute, 3, 4),
    (Operation::Lsr, AddressingMode::Absolute, 3, 6),
    (Operation::Sre, AddressingMode::Absolute, 3, 6),
    (Operation::Bvc, AddressingMode::NoneAddressing, 2, 2),
    (Operation::Eor, AddressingMode::Indirect_Y, 2, 5),
    (Operation::Jam, AddressingMode::NoneAddressing, 1, 2),
    (Operation::Sre, AddressingMode::Indirect_Y, 2, 8),
    (Operation::NopRead, AddressingMode::ZeroPage_X, 2, 4),
    (Operation::Eor, AddressingMode::ZeroPage_X, 2, 4),
    (Operation::Lsr, AddressingMode::ZeroPage_X, 2, 6),
    (Operation::Sre, AddressingMode::ZeroPage_X, 2, 6),
    (Operation::Cli, AddressingMode::NoneAddressing, 1, 2),
    (Operation::Eor, AddressingMode::Absolute_Y, 3, 4),
    (Operation::Nop, AddressingMode::NoneAddressing, 1, 2),
    (Operation::Sre, AddressingMode::Absolute_Y, 3, 7),
    (Operation::NopRead, AddressingMode::Absolute_X, 3, 4),
    (Operation::Eor, AddressingMode::Absolute_X, 3, 4),
    (Operation::Lsr, AddressingMode::Absolute_X, 3, 7),
    (Operation::Sre, AddressingMode::Absolute_X, 3, 7),
    (Operation::Rts, AddressingMode::NoneAddressing, 1, 6),
    (Operation::Adc, AddressingMode::Indirect_X, 2, 6),
    (Operation::Jam, AddressingMode::NoneAddressing, 1, 2),
    (Operation::Rra, AddressingMode::Indirect_X, 2, 8),
    (Operation::NopRead, AddressingMode::ZeroPage, 2, 3),
    (Operation::Adc, AddressingMode::ZeroPage, 2, 3),
    (Operation::Ror, AddressingMode::ZeroPage, 2, 5),
    (Operation::Rra, AddressingMode::ZeroPage, 2, 5),
    (Operation::Pla, AddressingMode::NoneAddressing, 1, 4),
    (Operation::Adc, AddressingMode::Immediate, 2, 2),
    (Operation::RorAccumulator, AddressingMode::NoneAddressing, 1, 2),
    (Operation::Arr, AddressingMode::Immediate, 2, 2),
    (Operation::JmpIndirect, AddressingMode::NoneAddressing, 3, 5),
    (Operation::Adc, AddressingMode::Absolute, 3, 4),
    (Operation::Ror, AddressingMode::Absolute, 3, 6),
    (Operation::Rra, AddressingMode::Absolute, 3, 6),
    (Operation::Bvs, AddressingMode::NoneAddressing, 2, 2),
    (Operation::Adc, AddressingMode::Indirect_Y, 2, 5),
    (Operation::Jam, AddressingMode::NoneAddressing, 1, 2),
    (Operation::Rra, AddressingMode::Indirect_Y, 2, 8),
    (Operation::NopRead, AddressingMode::ZeroPage_X, 2, 4),
    (Operation::Adc, AddressingMode::ZeroPage_X, 2, 4),
    (Operation::Ror, AddressingMode::ZeroPage_X, 2, 6),
    (Operation::Rra, AddressingMode::ZeroPage_X, 2, 6),
    (Operation::Sei, AddressingMode::NoneAddressing, 1, 2),
    (Operation::Adc, AddressingMode::Absolute_Y, 3, 4),
    (Operation::Nop, AddressingMode::NoneAddressing, 1, 2),
    (Operation::Rra, AddressingMode::Absolute_Y, 3, 7),
    (Operation::NopRead, AddressingMode::Absolute_X, 3, 4),
    (Operation::Adc, AddressingMode::Absolute_X, 3, 4),
    (Operation::Ror, AddressingMode::Absolute_X, 3, 7),
    (Operation::Rra, AddressingMode::Absolute_X, 3, 7),
    (Operation::NopRead, AddressingMode::Immediate, 2, 2),
    (Operation::Sta, AddressingMode::Indirect_X, 2, 6),
    (Operation::NopRead, AddressingMode::Immediate, 2, 2),
    (Operation::Sax, AddressingMode::Indirect_X, 2, 6),
    (Operation::Sty, AddressingMode::ZeroPage, 2, 3),
    (Operation::Sta, AddressingMode::ZeroPage, 2, 3),
    (Operation::Stx, AddressingMode::ZeroPage, 2, 3),
    (Operation::Sax, AddressingMode::ZeroPage, 2, 3),
    (Operation::Dey, AddressingMode::NoneAddressing, 1, 2),
    (Operation::NopRead, AddressingMode::Immediate, 2, 2),
    (Operation::Txa, AddressingMode::NoneAddressing, 1, 2),
    (Operation::Ane, AddressingMode::Immediate, 2, 2),
    (Operation::Sty, AddressingMode::Absolute, 3, 4),
    (Operation::Sta, AddressingMode::Absolute, 3, 4),
    (Operation::Stx, AddressingMode::Absolute, 3, 4),
    (Operation::Sax, AddressingMode::Absolute, 3, 4),
    (Operation::Bcc, AddressingMode::NoneAddressing, 2, 2),
    (Operation::Sta, AddressingMode::Indirect_Y, 2, 6),
    (Operation::Jam, AddressingMode::NoneAddressing, 1, 2),
    (Operation::Sha, AddressingMode::Indirect_Y, 2, 6),
    (Operation::Sty, AddressingMode::ZeroPage_X, 2, 4),
    (Operation::Sta, AddressingMode::ZeroPage_X, 2, 4),
    (Operation::Stx, AddressingMode::ZeroPage_Y, 2, 4),
    (Operation::Sax, AddressingMode::ZeroPage_Y, 2, 4),
    (Operation::Tya, AddressingMode::NoneAddressing, 1, 2),
    (Operation::Sta, AddressingMode::Absolute_Y, 3, 5),
    (Operation::Txs, AddressingMode::NoneAddressing, 1, 2),
    (Operation::Tas, AddressingMode::Absolute_Y, 3, 5),
    (Operation::Shy, AddressingMode::Absolute_X, 3, 5),
    (Operation::Sta, AddressingMode::Absolute_X, 3, 5),
    (Operation::Shx, AddressingMode::Absolute_Y, 3, 5),
    (Operation::Sha, AddressingMode::Absolute_Y, 3, 5),
    (Operation::Ldy, AddressingMode::Immediate, 2, 2),
    (Operation::Lda, AddressingMode::Indirect_X, 2, 6),
    (Operation::Ldx, AddressingMode::Immediate, 2, 2),
    (Operation::Lax, AddressingMode::Indirect_X, 2, 6),
    (Operation::Ldy, AddressingMode::ZeroPage, 2, 3),
    (Operation::Lda, AddressingMode::ZeroPage, 2, 3),
    (Operation::Ldx, AddressingMode::ZeroPage, 2, 3),
    (Operation::Lax, AddressingMode::ZeroPage, 2, 3),
    (Operation::Tay, AddressingMode::NoneAddressing, 1, 2),
    (Operation::Lda, AddressingMode::Immediate, 2, 2),
    (Operation::Tax, AddressingMode::NoneAddressing, 1, 2),
    (Operation::Lxa, AddressingMode::Immediate, 2, 2),
    (Operation::Ldy, AddressingMode::Absolute, 3, 4),
    (Operation::Lda, AddressingMode::Absolute, 3, 4),
    (Operation::Ldx, AddressingMode::Absolute, 3, 4),
    (Operation::Lax, AddressingMode::Absolute, 3, 4),
    (Operation::Bcs, AddressingMode::NoneAddressing, 2, 2),
    (Operation::Lda, AddressingMode::Indirect_Y, 2, 5),
    (Operation::Jam, AddressingMode::NoneAddressing, 1, 2),
    (Operation::Lax, AddressingMode::Indirect_Y, 2, 5),
    (Operation::Ldy, AddressingMode::ZeroPage_X, 2, 4),
    (Operation::Lda, AddressingMode::ZeroPage_X, 2, 4),
    (Operation::Ldx, AddressingMode::ZeroPage_Y, 2, 4),
    (Operation::Lax, AddressingMode::ZeroPage_Y, 2, 4),
    (Operation::Clv, AddressingMode::NoneAddressing, 1, 2),
    (Operation::Lda, AddressingMode::Absolute_Y, 3, 4),
    (Operation::Tsx, AddressingMode::NoneAddressing, 1, 2),
    (Operation::Las, AddressingMode::Absolute_Y, 3, 4),
    (Operation::Ldy, AddressingMode::Absolute_X, 3, 4),
    (Operation::Lda, AddressingMode::Absolute_X, 3, 4),
    (Operation::Ldx, AddressingMode::Absolute_Y, 3, 4),
    (Operation::Lax, AddressingMode::Absolute_Y, 3, 4),
    (Operation::Cpy, AddressingMode::Immediate, 2, 2),
    (Operation::Cmp, AddressingMode::Indirect_X, 2, 6),
    (Operation::NopRead, AddressingMode::Immediate, 2, 2),
    (Operation::Dcp, AddressingMode::Indirect_X, 2, 8),
    (Operation::Cpy, AddressingMode::ZeroPage, 2, 3),
    (Operation::Cmp, AddressingMode::ZeroPage, 2, 3),
    (Operation::Dec, AddressingMode::ZeroPage, 2, 5),
    (Operation::Dcp, AddressingMode::ZeroPage, 2, 5),
    (Operation::Iny, AddressingMode::NoneAddressing, 1, 2),
    (Operation::Cmp, AddressingMode::Immediate, 2, 2),
    (Operation::Dex, AddressingMode::NoneAddressing, 1, 2),
    (Operation::Axs, AddressingMode::Immediate, 2, 2),
    (Operation::Cpy, AddressingMode::Absolute, 3, 4),
    (Operation::Cmp, AddressingMode::Absolute, 3, 4),
    (Operation::Dec, AddressingMode::Absolute, 3, 6),
    (Operation::Dcp, AddressingMode::Absolute, 3, 6),
    (Operation::Bne, AddressingMode::NoneAddressing, 2, 2),
    (Operation::Cmp, AddressingMode::Indirect_Y, 2, 5),
    (Operation::Jam, AddressingMode::NoneAddressing, 1, 2),
    (Operation::Dcp, AddressingMode::Indirect_Y, 2, 8),
    (Operation::NopRead, AddressingMode::ZeroPage_X, 2, 4),
    (Operation::Cmp, AddressingMode::ZeroPage_X, 2, 4),
    (Operation::Dec, AddressingMode::ZeroPage_X, 2, 6),
    (Operation::Dcp, AddressingMode::ZeroPage_X, 2, 6),
    (Operation::Cld, AddressingMode::NoneAddressing, 1, 2),
    (Operation::Cmp, AddressingMode::Absolute_Y, 3, 4),
    (Operation::Nop, AddressingMode::NoneAddressing, 1, 2),
    (Operation::Dcp, AddressingMode::Absolute_Y, 3, 7),
    (Operation::NopRead, AddressingMode::Absolute_X, 3, 4),
    (Operation::Cmp, AddressingMode::Absolute_X, 3, 4),
    (Operation::Dec, AddressingMode::Absolute_X, 3, 7),
    (Operation::Dcp, AddressingMode::Absolute_X, 3, 7),
    (Operation::Cpx, AddressingMode::Immediate, 2, 2),
    (Operation::Sbc, AddressingMode::Indirect_X, 2, 6),
    (Operation::NopRead, AddressingMode::Immediate, 2, 2),
    (Operation::Isb, AddressingMode::Indirect_X, 2, 8),
    (Operation::Cpx, AddressingMode::ZeroPage, 2, 3),
    (Operation::Sbc, AddressingMode::ZeroPage, 2, 3),
    (Operation::Inc, AddressingMode::ZeroPage, 2, 5),
    (Operation::Isb, AddressingMode::ZeroPage, 2, 5),
    (Operation::Inx, AddressingMode::NoneAddressing, 1, 2),
    (Operation::Sbc, AddressingMode::Immediate, 2, 2),
    (Operation::Nop, AddressingMode::NoneAddressing, 1, 2),
    (Operation::Sbc, AddressingMode::Immediate, 2, 2),
    (Operation::Cpx, AddressingMode::Absolute, 3, 4),
    (Operation::Sbc, AddressingMode::Absolute, 3, 4),
    (Operation::Inc, AddressingMode::Absolute, 3, 6),
    (Operation::Isb, AddressingMode::Absolute, 3, 6),
    (Operation::Beq, AddressingMode::NoneAddressing, 2, 2),
    (Operation::Sbc, AddressingMode::Indirect_Y, 2, 5),
    (Operation::Jam, AddressingMode::NoneAddressing, 1, 2),
    (Operation::Isb, AddressingMode::Indirect_Y, 2, 8),
    (Operation::NopRead, AddressingMode::ZeroPage_X, 2, 4),
    (Operation::Sbc, AddressingMode::ZeroPage_X, 2, 4),
    (Operation::Inc, AddressingMode::ZeroPage_X, 2, 6),
    (Operation::Isb, AddressingMode::ZeroPage_X, 2, 6),
    (Operation::Sed, AddressingMode::NoneAddressing, 1, 2),
    (Operation::Sbc, AddressingMode::Absolute_Y, 3, 4),
    (Operation::Nop, AddressingMode::NoneAddressing, 1, 2),
    (Operation::Isb, AddressingMode::Absolute_Y, 3, 7),
    (Operation::NopRead, AddressingMode::Absolute_X, 3, 4),
    (Operation::Sbc, AddressingMode::Absolute_X, 3, 4),
    (Operation::Inc, AddressingMode::Absolute_X, 3, 7),
    (Operation::Isb, AddressingMode::Absolute_X, 3, 7),
];

/// The table's entry for an opcode.
#[verifier::opaque]
pub open spec fn opcode_of(code: u8) -> OpCode {
    let entry = OPCODES@[code as int];
    OpCode { operation: entry.0, mode: entry.1, len: entry.2, cycles: entry.3 }
}

pub fn opcode(code: u8) -> (r: OpCode)
    ensures
        r == opcode_of(code),
{
    proof {
        reveal(opcode_of);
    }
    let entry = OPCODES[code as usize];
    OpCode { operation: entry.0, mode: entry.1, len: entry.2, cycles: entry.3 }
}

} // verus!
