//! Classification of 32-bit ARM instruction words.
//!
//! [`Processor::decode_cond`] maps a word of the conditional instruction space to its
//! instruction class and the sub-fields that tell the variants of the class apart;
//! [`Processor::decode_uncond`] does the same for the unconditional space, and
//! [`is_cond_instr`] tells the two spaces apart. Operands stay in the word: a caller reads
//! them from it once the class is known.
//!
//! The module `encoding` defines the class of every word over its single bits, `decode`
//! holds the decoder that is proved to compute it, and `laws` what follows for the table
//! as a whole.

pub mod bits;
pub mod decode;
pub mod disasm;
pub mod encoding;
pub mod fields;
pub mod instr;
pub mod laws;

pub use decode::{decode_cond, decode_uncond, is_cond_instr, Processor};
pub use disasm::disassemble;
pub use fields::{
    AdrMode4, AdrMode5, AdrModeTy, DpOpcTy, DpOperTy, DspMulTy, MiscTransfOper, MiscTransfTy,
    MulTy, ShiftTy, TransfOperTy, TransfTy,
};
pub use instr::{
    CondInstr, CpMov, CpTransf, Dp, DspMul, Mrs, Msr, Mul, QArith, Swp, Transf, TransfDouble,
    TransfMisc, TransfMult, UnCondInstr, B,
};
