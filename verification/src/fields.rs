//! The enumerated sub-fields of an instruction class, and the resolvers that turn control
//! bits into them.

use vstd::prelude::*;

verus! {

/// Operation of a data-processing instruction.
#[allow(clippy::enum_variant_names)]
#[derive(Debug, Clone, Copy, PartialEq, Eq)]
pub enum DpOpcTy {
    And,
    Eor,
    Sub,
    Rsb,
    Add,
    Adc,
    Sbc,
    Rsc,
    Tst,
    Teq,
    Cmp,
    Cmn,
    Orr,
    Mov,
    Bic,
    Mvn,
}

impl DpOpcTy {
    /// The sixteen operations in the order of their opcode.
    pub open spec fn table() -> Seq<DpOpcTy> {
        seq![
            DpOpcTy::And,
            DpOpcTy::Eor,
            DpOpcTy::Sub,
            DpOpcTy::Rsb,
            DpOpcTy::Add,
            DpOpcTy::Adc,
            DpOpcTy::Sbc,
            DpOpcTy::Rsc,
            DpOpcTy::Tst,
            DpOpcTy::Teq,
            DpOpcTy::Cmp,
            DpOpcTy::Cmn,
            DpOpcTy::Orr,
            DpOpcTy::Mov,
            DpOpcTy::Bic,
            DpOpcTy::Mvn,
        ]
    }

    /// The operation that a 4-bit opcode field selects.
    pub open spec fn of_bits(bits: u32) -> DpOpcTy {
        Self::table()[bits as int]
    }

    /// Resolves a 4-bit opcode field.
    pub fn from_bits(bits: u32) -> (opc: DpOpcTy)
        requires
            bits < 0b1_0000,
        ensures
            opc == Self::of_bits(bits),
    {
        match bits {
            0b0000 => DpOpcTy::And,
            0b0001 => DpOpcTy::Eor,
            0b0010 => DpOpcTy::Sub,
            0b0011 => DpOpcTy::Rsb,
            0b0100 => DpOpcTy::Add,
            0b0101 => DpOpcTy::Adc,
            0b0110 => DpOpcTy::Sbc,
            0b0111 => DpOpcTy::Rsc,
            0b1000 => DpOpcTy::Tst,
            0b1001 => DpOpcTy::Teq,
            0b1010 => DpOpcTy::Cmp,
            0b1011 => DpOpcTy::Cmn,
            0b1100 => DpOpcTy::Orr,
            0b1101 => DpOpcTy::Mov,
            0b1110 => DpOpcTy::Bic,
            _ => DpOpcTy::Mvn,
        }
    }
}

/// Second operand of a data-processing instruction.
#[derive(Debug, Clone, Copy, PartialEq, Eq)]
pub enum DpOperTy {
    Imm,
    Shft { is_reg: bool, ty: ShiftTy },
}

/// Shift applied to a register operand.
#[allow(clippy::enum_variant_names)]
#[derive(Debug, Clone, Copy, PartialEq, Eq)]
pub enum ShiftTy {
    Lsl,
    Lsr,
    Asr,
    Ror,
}

impl ShiftTy {
    /// The four shifts in the order of their 2-bit code.
    pub open spec fn table() -> Seq<ShiftTy> {
        seq![ShiftTy::Lsl, ShiftTy::Lsr, ShiftTy::Asr, ShiftTy::Ror]
    }

    /// The shift that a 2-bit shift field selects.
    pub open spec fn of_bits(bits: u32) -> ShiftTy {
        Self::table()[bits as int]
    }

    /// Resolves a 2-bit shift field.
    pub fn from_bits(bits: u32) -> (ty: ShiftTy)
        requires
            bits < 0b100,
        ensures
            ty == Self::of_bits(bits),
    {
        match bits {
            0b00 => ShiftTy::Lsl,
            0b01 => ShiftTy::Lsr,
            0b10 => ShiftTy::Asr,
            _ => ShiftTy::Ror,
        }
    }
}

/// Signed multiply of the DSP extension; `x` selects the top half of the first operand.
#[derive(Debug, Clone, Copy, PartialEq, Eq)]
pub enum DspMulTy {
    Smul { x: bool },
    Smla { x: bool },
    Smulw,
    Smlaw,
    Smlal { x: bool },
}

impl DspMulTy {
    /// The multiply that the 2-bit operation field `op` and the half selector `x` select.
    pub open spec fn of_bits(op: u32, x: bool) -> DspMulTy {
        if op == 0b00 {
            DspMulTy::Smla { x }
        } else if op == 0b01 {
            if x {
                DspMulTy::Smulw
            } else {
                DspMulTy::Smlaw
            }
        } else if op == 0b10 {
            DspMulTy::Smlal { x }
        } else {
            DspMulTy::Smul { x }
        }
    }

    /// Resolves the operation field and the half selector of a DSP multiply.
    pub fn from_bits(op: u32, x: bool) -> (ty: DspMulTy)
        requires
            op < 0b100,
        ensures
            ty == Self::of_bits(op, x),
    {
        match op {
            0b00 => DspMulTy::Smla { x },
            0b01 => {
                if x {
                    DspMulTy::Smulw
                } else {
                    DspMulTy::Smlaw
                }
            },
            0b10 => DspMulTy::Smlal { x },
            _ => DspMulTy::Smul { x },
        }
    }
}

/// Width of a single data transfer.
#[derive(Debug, Clone, Copy, PartialEq, Eq)]
pub enum TransfTy {
    Byte,
    Word,
}

/// Offset operand of a single data transfer.
#[derive(Debug, Clone, Copy, PartialEq, Eq)]
pub enum TransfOperTy {
    Imm,
    Reg { shift: ShiftTy },
}

/// Kind of a halfword or signed-byte transfer.
#[derive(Debug, Clone, Copy, PartialEq, Eq)]
pub enum MiscTransfTy {
    /// Signed halfword.
    SH,
    /// Unsigned halfword.
    H { load: bool },
    /// Signed byte.
    SB,
}

/// Offset operand of a halfword or signed-byte transfer.
#[derive(Debug, Clone, Copy, PartialEq, Eq)]
pub enum MiscTransfOper {
    Imm,
    Reg,
}

/// Kind of a multiply.
#[derive(Debug, Clone, Copy, PartialEq, Eq)]
pub enum MulTy {
    Mla,
    Mul,
    Smlal,
    Smull,
    Umlal,
    Umull,
}

impl MulTy {
    /// The 32-bit multiply; `acc` adds an accumulator.
    pub open spec fn short(acc: bool) -> MulTy {
        if acc {
            MulTy::Mla
        } else {
            MulTy::Mul
        }
    }

    /// The 64-bit multiply; `signed` picks the signed form, `acc` adds an accumulator.
    pub open spec fn long(signed: bool, acc: bool) -> MulTy {
        if signed {
            if acc {
                MulTy::Smlal
            } else {
                MulTy::Smull
            }
        } else {
            if acc {
                MulTy::Umlal
            } else {
                MulTy::Umull
            }
        }
    }
}

/// Addressing mode of a single, halfword, signed-byte or doubleword transfer.
#[derive(Debug, Clone, Copy, PartialEq, Eq)]
pub enum AdrModeTy {
    Post,
    Pre,
    Offset,
}

impl AdrModeTy {
    /// The mode that the write-back bit `w` and the pre-index bit `p` select: without `p`
    /// the base is updated after the access, whatever `w` says.
    pub open spec fn of_w_p(w: bool, p: bool) -> AdrModeTy {
        if !p {
            AdrModeTy::Post
        } else if w {
            AdrModeTy::Pre
        } else {
            AdrModeTy::Offset
        }
    }

    /// Resolves the write-back and pre-index bits.
    pub fn from_w_p(w: bool, p: bool) -> (mode: AdrModeTy)
        ensures
            mode == Self::of_w_p(w, p),
    {
        if p {
            if w {
                AdrModeTy::Pre
            } else {
                AdrModeTy::Offset
            }
        } else {
            AdrModeTy::Post
        }
    }
}

/// Addressing mode of a block transfer.
#[derive(Debug, Clone, Copy, PartialEq, Eq)]
pub enum AdrMode4 {
    /// Increment after.
    IA,
    /// Increment before.
    IB,
    /// Decrement after.
    DA,
    /// Decrement before.
    DB,
}

impl AdrMode4 {
    /// The mode that the pre-index bit `p` and the add-up bit `u` select: with `u` the
    /// address is incremented, without it decremented; with `p` before the access, without
    /// it after.
    pub open spec fn of_p_u(p: bool, u: bool) -> AdrMode4 {
        if u {
            if p {
                AdrMode4::IB
            } else {
                AdrMode4::IA
            }
        } else {
            if p {
                AdrMode4::DB
            } else {
                AdrMode4::DA
            }
        }
    }

    /// Resolves the pre-index and add-up bits.
    pub fn from_p_u(p: bool, u: bool) -> (mode: AdrMode4)
        ensures
            mode == Self::of_p_u(p, u),
    {
        match (p, u) {
            (false, true) => AdrMode4::IA,
            (false, false) => AdrMode4::DA,
            (true, true) => AdrMode4::IB,
            (true, false) => AdrMode4::DB,
        }
    }
}

/// Addressing mode of a coprocessor transfer.
#[derive(Debug, Clone, Copy, PartialEq, Eq)]
pub enum AdrMode5 {
    Post,
    Unindexed,
    Pre,
    Offset,
}

impl AdrMode5 {
    /// The mode that the pre-index bit `p`, the write-back bit `w` and the add-up bit `u`
    /// select. With neither `p` nor `w` the transfer is unindexed and `u` must be set: the
    /// combination with all three clear has no mode.
    pub open spec fn of_p_w_u(p: bool, w: bool, u: bool) -> Option<AdrMode5> {
        match (p, w) {
            (false, false) => if u {
                Some(AdrMode5::Unindexed)
            } else {
                None
            },
            (false, true) => Some(AdrMode5::Post),
            (true, false) => Some(AdrMode5::Offset),
            (true, true) => Some(AdrMode5::Pre),
        }
    }

    /// Resolves the pre-index, write-back and add-up bits; `None` where they select no mode.
    pub fn from_p_w_u(p: bool, w: bool, u: bool) -> (mode: Option<AdrMode5>)
        ensures
            mode == Self::of_p_w_u(p, w, u),
    {
        match (p, w) {
            (false, false) => {
                if u {
                    Some(AdrMode5::Unindexed)
                } else {
                    None
                }
            },
            (false, true) => Some(AdrMode5::Post),
            (true, false) => Some(AdrMode5::Offset),
            (true, true) => Some(AdrMode5::Pre),
        }
    }
}

} // verus!
