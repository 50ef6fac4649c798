//! The decoder: classification of an instruction word by ordered mask tests.

use crate::bits::{get_field, test_bit};
use crate::encoding::{
    block_transfer_class, cond_class, cp_transfer_class, data_proc_class, extra_transfer_class,
    has_all_ones_condition, is_block_transfer, is_branch, is_cp_data_op, is_cp_move,
    is_cp_transfer, is_data_proc, is_misc, is_mul_extra, is_status_imm, is_swi, is_transfer,
    misc_class, mul_extra_class, multiply_class, transfer_class, uncond_class,
};
use crate::fields::{
    AdrMode4, AdrMode5, AdrModeTy, DpOpcTy, DpOperTy, DspMulTy, MiscTransfTy, MulTy, ShiftTy,
    TransfOperTy, TransfTy,
};
use crate::instr::{
    CondInstr, CpMov, CpTransf, Dp, DspMul, Mrs, Msr, Mul, QArith, Swp, Transf, TransfDouble,
    TransfMisc, TransfMult, UnCondInstr, B,
};
use crate::laws::{lemma_class_by_key_bits, same_key_bits};
use vstd::prelude::*;

verus! {

/// The decoder. It holds no state: every classification depends on the word alone.
pub struct Processor {}

/// Each mask test of the decoder holds of exactly the words of its group.
proof fn lemma_mask_tests(w: u32)
    by (bit_vector)
    ensures
        (w & 0x0F90_0010 == 0x0100_0000 || w & 0x0F90_0090 == 0x0100_0010) == is_misc(w),
        (w & 0x0E00_0090 == 0x0000_0090) == is_mul_extra(w),
        (w & 0x0E00_0010 == 0x0000_0000 || w & 0x0E00_0090 == 0x0000_0010 || (w & 0x0E00_0000
            == 0x0200_0000 && w & 0x0FB0_0000 != 0x0320_0000)) == is_data_proc(w),
        (w & 0x0FB0_0000 == 0x0320_0000) == is_status_imm(w),
        (w & 0x0E00_0000 == 0x0400_0000 || w & 0x0E00_0010 == 0x0600_0000) == is_transfer(w),
        (w & 0x0E00_0000 == 0x0800_0000) == is_block_transfer(w),
        (w & 0x0E00_0000 == 0x0A00_0000) == is_branch(w),
        (w & 0x0E00_0000 == 0x0C00_0000) == is_cp_transfer(w),
        (w & 0x0F00_0010 == 0x0E00_0000) == is_cp_data_op(w),
        (w & 0x0F00_0010 == 0x0E00_0010) == is_cp_move(w),
        (w & 0x0F00_0000 == 0x0F00_0000) == is_swi(w),
{
}

/// Classifies a word of the miscellaneous group.
fn decode_misc(instr: u32) -> (class: CondInstr)
    ensures
        class == misc_class(instr),
{
    let bits: u32 = get_field(instr, 4, 0b111);
    let upper: u32 = get_field(instr, 21, 0b11);
    if !test_bit(instr, 7) {
        match bits {
            0b000 => {
                let r = test_bit(instr, 22);
                // Move status register to register.
                if !test_bit(instr, 21) {
                    CondInstr::Mrs(Mrs { r })
                }
                // Move register to status register.
                else {
                    CondInstr::Msr(Msr { r, imm: false })
                }
            },
            0b001 => {
                // Branch/exchange instruction set.
                if upper == 0b01 {
                    CondInstr::Bx
                }
                // Count leading zeros.
                else if upper == 0b11 {
                    CondInstr::Clz
                } else {
                    CondInstr::Undef
                }
            },
            0b011 => {
                // Branch and link/exchange instruction set.
                if upper == 0b01 {
                    CondInstr::BlxReg
                } else {
                    CondInstr::Undef
                }
            },
            0b101 => {
                // Enhanced DSP add/subtracts.
                let sub = test_bit(instr, 21);
                let doubles = test_bit(instr, 22);
                CondInstr::QArith(QArith { sub, doubles })
            },
            0b111 => {
                // Software breakpoint.
                if upper == 0b01 {
                    CondInstr::Bkpt
                } else {
                    CondInstr::Undef
                }
            },
            _ => CondInstr::Undef,
        }
    } else {
        // Enhanced DSP multiplies.
        if !test_bit(instr, 4) {
            let x = test_bit(instr, 5);
            let y = test_bit(instr, 6);
            CondInstr::DspMul(DspMul { ty: DspMulTy::from_bits(upper, x), y })
        } else {
            CondInstr::Undef
        }
    }
}

/// Classifies a multiply.
fn decode_multiply(instr: u32) -> (class: CondInstr)
    ensures
        class == multiply_class(instr),
{
    let acc = test_bit(instr, 21);
    let set_flags = test_bit(instr, 20);
    let ty = if get_field(instr, 22, 0b11) == 0b00 {
        if acc {
            MulTy::Mla
        } else {
            MulTy::Mul
        }
    } else if test_bit(instr, 23) {
        let signed = test_bit(instr, 22);
        if acc {
            if signed {
                MulTy::Smlal
            } else {
                MulTy::Umlal
            }
        } else if signed {
            MulTy::Smull
        } else {
            MulTy::Umull
        }
    } else {
        return CondInstr::Undef;
    };
    CondInstr::Mul(Mul { flags: set_flags, ty })
}

/// Classifies a halfword, signed-byte or doubleword transfer.
fn decode_extra_transfer(instr: u32) -> (class: CondInstr)
    ensures
        class == extra_transfer_class(instr),
{
    let b20 = test_bit(instr, 20);
    let add_ofs = test_bit(instr, 23);
    let imm = test_bit(instr, 22);
    let w = test_bit(instr, 21);
    let p = test_bit(instr, 24);
    if p && w {
        return CondInstr::Unpred;
    }
    let addressing = AdrModeTy::from_w_p(w, p);
    if get_field(instr, 5, 0b11) == 0b01 {
        CondInstr::TransfMisc(
            TransfMisc { ty: MiscTransfTy::H { load: b20 }, add_ofs, imm, adr_ty: addressing },
        )
    } else if test_bit(instr, 6) {
        // Load signed halfword/byte.
        if b20 {
            let halfword = test_bit(instr, 5);
            CondInstr::TransfMisc(
                TransfMisc {
                    ty: if halfword {
                        MiscTransfTy::SH
                    } else {
                        MiscTransfTy::SB
                    },
                    add_ofs,
                    imm,
                    adr_ty: addressing,
                },
            )
        }
        // Load/store two words.
        else {
            let store = test_bit(instr, 5);
            CondInstr::TransfDouble(TransfDouble { store, imm, add_ofs, adr_ty: addressing })
        }
    } else {
        CondInstr::Undef
    }
}

/// Classifies a word of the group of multiplies and extra loads and stores.
fn decode_mul_extra(instr: u32) -> (class: CondInstr)
    ensures
        class == mul_extra_class(instr),
{
    let bits: u32 = get_field(instr, 4, 0b1111);
    if bits == 0b1001 {
        if !test_bit(instr, 24) {
            decode_multiply(instr)
        }
        // Swap/swap byte.
        else if get_field(instr, 20, 0b1_1011) == 0b1_0000 {
            CondInstr::Swp(Swp { byte: test_bit(instr, 22) })
        } else {
            CondInstr::Undef
        }
    } else if test_bit(instr, 7) && test_bit(instr, 4) {
        decode_extra_transfer(instr)
    } else {
        CondInstr::Undef
    }
}

/// Classifies a data-processing word.
fn decode_data_proc(instr: u32) -> (class: CondInstr)
    ensures
        class == data_proc_class(instr),
{
    let opcode = DpOpcTy::from_bits(get_field(instr, 21, 0b1111));
    let set_flags = test_bit(instr, 20);
    let operand = if !test_bit(instr, 25) {
        let reg = test_bit(instr, 4);
        DpOperTy::Shft { is_reg: reg, ty: ShiftTy::from_bits(get_field(instr, 5, 0b11)) }
    } else {
        DpOperTy::Imm
    };
    CondInstr::Dp(Dp { flags: set_flags, opc: opcode, oper: operand })
}

/// Classifies a load or store of a byte or a word.
fn decode_transfer(instr: u32) -> (class: CondInstr)
    ensures
        class == transfer_class(instr),
{
    let w = test_bit(instr, 21);
    let p = test_bit(instr, 24);
    let adr_ty = AdrModeTy::from_w_p(w, p);
    CondInstr::Transf(
        Transf {
            load: test_bit(instr, 20),
            ty: if test_bit(instr, 22) {
                TransfTy::Byte
            } else {
                TransfTy::Word
            },
            add_ofs: test_bit(instr, 23),
            oper: if test_bit(instr, 25) {
                // register
                TransfOperTy::Reg { shift: ShiftTy::from_bits(get_field(instr, 5, 0b11)) }
            } else {
                // immediate
                TransfOperTy::Imm
            },
            adr_ty,
        },
    )
}

/// Classifies a load or store of a set of registers.
fn decode_block_transfer(instr: u32) -> (class: CondInstr)
    ensures
        class == block_transfer_class(instr),
{
    let p = test_bit(instr, 24);
    let u = test_bit(instr, 23);
    let adr_ty = AdrMode4::from_p_u(p, u);
    CondInstr::TransfMult(
        TransfMult {
            load: test_bit(instr, 20),
            base_update: test_bit(instr, 21),
            privilige_mode: test_bit(instr, 22),
            adr_ty,
        },
    )
}

/// Classifies a load or store of a coprocessor.
fn decode_cp_transfer(instr: u32) -> (class: CondInstr)
    ensures
        class == cp_transfer_class(instr),
{
    let p = test_bit(instr, 24);
    let u = test_bit(instr, 23);
    let w = test_bit(instr, 21);
    match AdrMode5::from_p_w_u(p, w, u) {
        Some(adr_ty) => CondInstr::CpTransf(
            CpTransf { load: test_bit(instr, 20), adr_ty, n: test_bit(instr, 22), add_ofs: u },
        ),
        // Might be undefined depending on version.
        None => CondInstr::Unpred,
    }
}

impl Processor {
    /// Classifies a word of the conditional space. The condition in bits 31..28 is masked
    /// off first; the group tests follow in the order of the table.
    pub fn decode_cond(&self, instr: u32) -> (class: CondInstr)
        ensures
            class == cond_class(instr),
    {
        let word: u32 = instr;
        let instr: u32 = instr & 0x0FFF_FFFF;
        proof {
            assert(same_key_bits(instr, word)) by (bit_vector)
                requires
                    instr == word & 0x0FFF_FFFF,
            ;
            lemma_class_by_key_bits(instr, word);
            lemma_mask_tests(instr);
        }
        // Miscellaneous instructions come before data processing: they fill the hole
        // that the opcodes 0b10xx leave there when S is zero.
        if instr & 0x0F90_0010 == 0x0100_0000 || instr & 0x0F90_0090 == 0x0100_0010 {
            decode_misc(instr)
        }
        // Multiplies, extra load/stores
        else if instr & 0x0E00_0090 == 0x0000_0090 {
            decode_mul_extra(instr)
        }
        // Data processing shift or immediate; among the immediates, the moves to a
        // status register fill the same hole and are left to the next test.
        else if instr & 0x0E00_0010 == 0x0000_0000 || instr & 0x0E00_0090 == 0x0000_0010 || (
        instr & 0x0E00_0000 == 0x0200_0000 && instr & 0x0FB0_0000 != 0x0320_0000) {
            decode_data_proc(instr)
        }
        // Move immediate to status register
        else if instr & 0x0FB0_0000 == 0x0320_0000 {
            CondInstr::Msr(Msr { r: test_bit(instr, 22), imm: true })
        }
        // Load/store immediate/register offset
        else if instr & 0x0E00_0000 == 0x0400_0000 || instr & 0x0E00_0010 == 0x0600_0000 {
            decode_transfer(instr)
        }
        // Load/store multiple
        else if instr & 0x0E00_0000 == 0x0800_0000 {
            decode_block_transfer(instr)
        }
        // Branch and branch with link
        else if instr & 0x0E00_0000 == 0x0A00_0000 {
            CondInstr::B(B { link: test_bit(instr, 24) })
        }
        // Coprocessor load/store and double register transfers
        else if instr & 0x0E00_0000 == 0x0C00_0000 {
            decode_cp_transfer(instr)
        }
        // Coprocessor data processing
        else if instr & 0x0F00_0010 == 0x0E00_0000 {
            CondInstr::CpDp
        }
        // Coprocessor register transfers
        else if instr & 0x0F00_0010 == 0x0E00_0010 {
            CondInstr::CpMov(CpMov { arm_reg_load: test_bit(instr, 20) })
        }
        // Software interrupt
        else if instr & 0x0F00_0000 == 0x0F00_0000 {
            CondInstr::Swi
        }
        // Undefined
        else {
            CondInstr::Undef
        }
    }

    /// Classifies a word of the unconditional space.
    pub fn decode_uncond(&self, instr: u32) -> (class: UnCondInstr)
        ensures
            class == uncond_class(instr),
    {
        proof {
            lemma_mask_tests(instr);
        }
        if instr & 0x0E00_0000 == 0x0A00_0000 {
            UnCondInstr::BlxImm
        } else {
            UnCondInstr::Undef
        }
    }
}

/// Tells whether the condition field of `instr` holds `1111`, which marks the words of the
/// unconditional space.
pub fn is_cond_instr(instr: u32) -> (all_ones: bool)
    ensures
        all_ones == has_all_ones_condition(instr),
{
    assert((instr >> 28 == 0b1111) == ((instr >> 28) & 0b1111 == 0b1111)) by (bit_vector);
    instr >> 28 == 0b1111
}

/// Classifies a word of the conditional space.
pub fn decode_cond(proc: Processor, instr: u32) -> (class: CondInstr)
    ensures
        class == cond_class(instr),
{
    proc.decode_cond(instr)
}

/// Classifies a word of the unconditional space.
pub fn decode_uncond(proc: &Processor, instr: u32) -> (class: UnCondInstr)
    ensures
        class == uncond_class(instr),
{
    proc.decode_uncond(instr)
}

} // verus!
