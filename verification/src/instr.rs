//! The instruction classes and the record that each of them carries.

use crate::fields::{
    AdrMode4, AdrMode5, AdrModeTy, DpOpcTy, DpOperTy, DspMulTy, MiscTransfTy, MulTy, TransfOperTy,
    TransfTy,
};
use vstd::prelude::*;

verus! {

/// Move of a register or an immediate to a status register.
#[derive(Debug, Clone, Copy, PartialEq, Eq)]
pub struct Msr {
    /// The saved status register (true) or the current one (false).
    pub r: bool,
    pub imm: bool,
}

/// Move of a status register to a register.
#[derive(Debug, Clone, Copy, PartialEq, Eq)]
pub struct Mrs {
    /// The saved status register (true) or the current one (false).
    pub r: bool,
}

/// Branch, with or without link.
#[derive(Debug, Clone, Copy, PartialEq, Eq)]
pub struct B {
    pub link: bool,
}

/// Saturating add or subtract.
#[derive(Debug, Clone, Copy, PartialEq, Eq)]
pub struct QArith {
    pub sub: bool,
    pub doubles: bool,
}

/// Signed multiply of the DSP extension.
#[derive(Debug, Clone, Copy, PartialEq, Eq)]
pub struct DspMul {
    pub ty: DspMulTy,
    /// The top half (true) or the bottom half (false) of the second operand.
    pub y: bool,
}

/// Data processing.
#[derive(Debug, Clone, Copy, PartialEq, Eq)]
pub struct Dp {
    pub flags: bool,
    pub opc: DpOpcTy,
    pub oper: DpOperTy,
}

/// Multiply.
#[derive(Debug, Clone, Copy, PartialEq, Eq)]
pub struct Mul {
    pub flags: bool,
    pub ty: MulTy,
}

/// Swap of a register with memory.
#[derive(Debug, Clone, Copy, PartialEq, Eq)]
pub struct Swp {
    pub byte: bool,
}

/// Load or store of a byte or a word.
#[derive(Debug, Clone, Copy, PartialEq, Eq)]
pub struct Transf {
    pub load: bool,
    /// Add the offset (true) or subtract the offset (false).
    pub add_ofs: bool,
    pub ty: TransfTy,
    pub oper: TransfOperTy,
    pub adr_ty: AdrModeTy,
}

/// Load or store of a halfword, or load of a signed byte.
#[derive(Debug, Clone, Copy, PartialEq, Eq)]
pub struct TransfMisc {
    /// Add the offset (true) or subtract the offset (false).
    pub add_ofs: bool,
    pub imm: bool,
    pub ty: MiscTransfTy,
    pub adr_ty: AdrModeTy,
}

/// Load or store of two words.
#[derive(Debug, Clone, Copy, PartialEq, Eq)]
pub struct TransfDouble {
    pub store: bool,
    /// Add the offset (true) or subtract the offset (false).
    pub add_ofs: bool,
    pub imm: bool,
    pub adr_ty: AdrModeTy,
}

/// Load or store of a set of registers.
#[derive(Debug, Clone, Copy, PartialEq, Eq)]
pub struct TransfMult {
    pub load: bool,
    pub base_update: bool,
    pub adr_ty: AdrMode4,
    pub privilige_mode: bool,
}

/// Move between an ARM register and a coprocessor register.
#[derive(Debug, Clone, Copy, PartialEq, Eq)]
pub struct CpMov {
    /// If the operation loads into an ARM register, or a coprocessor register.
    pub arm_reg_load: bool,
}

/// Load or store of a coprocessor.
#[derive(Debug, Clone, Copy, PartialEq, Eq)]
pub struct CpTransf {
    pub load: bool,
    pub adr_ty: AdrMode5,
    /// Add the offset (true) or subtract the offset (false).
    pub add_ofs: bool,
    /// Coprocessor dependent.
    pub n: bool,
}

/// Class of a word of the conditional instruction space.
#[derive(Debug, Clone, Copy, PartialEq, Eq)]
pub enum CondInstr {
    Msr(Msr),
    Mrs(Mrs),
    B(B),
    QArith(QArith),
    DspMul(DspMul),
    Dp(Dp),
    Mul(Mul),
    Swp(Swp),
    Transf(Transf),
    TransfMisc(TransfMisc),
    TransfDouble(TransfDouble),
    TransfMult(TransfMult),
    CpMov(CpMov),
    CpTransf(CpTransf),
    /// Branch and exchange instruction set.
    Bx,
    /// Branch with link and exchange instruction set, target in a register.
    BlxReg,
    /// Count leading zeros.
    Clz,
    /// Software breakpoint.
    Bkpt,
    /// Coprocessor data operation.
    CpDp,
    /// Software interrupt.
    Swi,
    /// Not an instruction of the architecture: executing it traps.
    Undef,
    /// An encoding whose behaviour the architecture leaves open.
    Unpred,
}

/// Class of a word of the unconditional instruction space.
#[derive(Debug, Clone, Copy, PartialEq, Eq)]
pub enum UnCondInstr {
    /// Branch with link and exchange instruction set, target an immediate offset.
    BlxImm,
    Undef,
}

} // verus!
