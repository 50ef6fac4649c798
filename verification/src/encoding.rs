//! The encoding table: which bits of a word put it into which instruction class.
//!
//! An instruction word carries a condition in bits 31..28 and the instruction proper in
//! bits 27..0. The table is a list of group tests on bits 27..0, taken in a fixed order,
//! because the groups overlap. The data-processing space has a hole, the compare opcodes
//! `0b10xx` without the set-flags bit. With a register operand the miscellaneous
//! instructions sit in it, so their test comes first; with an immediate operand the moves
//! of an immediate to a status register sit in it, so the data-processing test leaves them
//! out. Every function here is a definition over single bits and fields; the decoder is
//! proved against them.

use crate::bits::{bit, field};
use crate::fields::{
    AdrMode4, AdrMode5, AdrModeTy, DpOpcTy, DpOperTy, DspMulTy, MiscTransfTy, MulTy, ShiftTy,
    TransfOperTy, TransfTy,
};
use crate::instr::{
    CondInstr, CpMov, CpTransf, Dp, DspMul, Mrs, Msr, Mul, QArith, Swp, Transf, TransfDouble,
    TransfMisc, TransfMult, UnCondInstr, B,
};
use vstd::prelude::*;

verus! {

/// Miscellaneous group: bits 27..23 are `00010`, bit 20 is clear, and bits 7 and 4 are not
/// both set.
pub open spec fn is_misc(w: u32) -> bool {
    field(w, 23, 0b1_1111) == 0b0_0010 && !bit(w, 20) && !(bit(w, 7) && bit(w, 4))
}

/// Multiplies and extra loads and stores: bits 27..25 are zero, bits 7 and 4 are both set.
pub open spec fn is_mul_extra(w: u32) -> bool {
    field(w, 25, 0b111) == 0b000 && bit(w, 7) && bit(w, 4)
}

/// Data processing: a register operand (bits 27..25 zero, bits 7 and 4 not both set) or an
/// immediate operand (bits 27..25 are `001`) that is no move of an immediate to a status
/// register.
pub open spec fn is_data_proc(w: u32) -> bool {
    (field(w, 25, 0b111) == 0b000 && !(bit(w, 7) && bit(w, 4))) || (field(w, 25, 0b111)
        == 0b001 && !is_status_imm(w))
}

/// Move of an immediate to a status register: bits 27..23 are `00110`, bits 21..20 are `10`.
/// These words have `001` in bits 27..25, as a data-processing immediate has.
pub open spec fn is_status_imm(w: u32) -> bool {
    field(w, 23, 0b1_1111) == 0b0_0110 && field(w, 20, 0b11) == 0b10
}

/// Load or store of a byte or a word: an immediate offset (bits 27..25 are `010`) or a
/// register offset (bits 27..25 are `011`, bit 4 is clear).
pub open spec fn is_transfer(w: u32) -> bool {
    field(w, 25, 0b111) == 0b010 || (field(w, 25, 0b111) == 0b011 && !bit(w, 4))
}

/// Load or store of a set of registers: bits 27..25 are `100`.
pub open spec fn is_block_transfer(w: u32) -> bool {
    field(w, 25, 0b111) == 0b100
}

/// Branch: bits 27..25 are `101`.
pub open spec fn is_branch(w: u32) -> bool {
    field(w, 25, 0b111) == 0b101
}

/// Load or store of a coprocessor: bits 27..25 are `110`.
pub open spec fn is_cp_transfer(w: u32) -> bool {
    field(w, 25, 0b111) == 0b110
}

/// Coprocessor data operation: bits 27..24 are `1110`, bit 4 is clear.
pub open spec fn is_cp_data_op(w: u32) -> bool {
    field(w, 24, 0b1111) == 0b1110 && !bit(w, 4)
}

/// Move between an ARM register and a coprocessor register: bits 27..24 are `1110`, bit 4
/// is set.
pub open spec fn is_cp_move(w: u32) -> bool {
    field(w, 24, 0b1111) == 0b1110 && bit(w, 4)
}

/// Software interrupt: bits 27..24 are `1111`.
pub open spec fn is_swi(w: u32) -> bool {
    field(w, 24, 0b1111) == 0b1111
}

/// Whether any group test of the table holds of `w`.
pub open spec fn is_claimed(w: u32) -> bool {
    ||| is_misc(w)
    ||| is_mul_extra(w)
    ||| is_data_proc(w)
    ||| is_status_imm(w)
    ||| is_transfer(w)
    ||| is_block_transfer(w)
    ||| is_branch(w)
    ||| is_cp_transfer(w)
    ||| is_cp_data_op(w)
    ||| is_cp_move(w)
    ||| is_swi(w)
}

/// Class of a word of the miscellaneous group.
///
/// With bit 7 clear, bits 6..4 select the instruction and bits 22..21 its variant; what
/// they leave open is undefined. A saturating add or subtract subtracts with bit 21 and
/// doubles its second operand with bit 22. With bit 7 set the word is a DSP multiply: bits 22..21
/// select the operation, bits 5 and 6 the operand halves, and bit 4 must be clear.
pub open spec fn misc_class(w: u32) -> CondInstr {
    let sel = field(w, 4, 0b111);
    let op = field(w, 21, 0b11);
    if !bit(w, 7) {
        if sel == 0b000 {
            if bit(w, 21) {
                CondInstr::Msr(Msr { r: bit(w, 22), imm: false })
            } else {
                CondInstr::Mrs(Mrs { r: bit(w, 22) })
            }
        } else if sel == 0b001 {
            if op == 0b01 {
                CondInstr::Bx
            } else if op == 0b11 {
                CondInstr::Clz
            } else {
                CondInstr::Undef
            }
        } else if sel == 0b011 {
            if op == 0b01 {
                CondInstr::BlxReg
            } else {
                CondInstr::Undef
            }
        } else if sel == 0b101 {
            CondInstr::QArith(QArith { sub: bit(w, 21), doubles: bit(w, 22) })
        } else if sel == 0b111 {
            if op == 0b01 {
                CondInstr::Bkpt
            } else {
                CondInstr::Undef
            }
        } else {
            CondInstr::Undef
        }
    } else if !bit(w, 4) {
        CondInstr::DspMul(DspMul { ty: DspMulTy::of_bits(op, bit(w, 5)), y: bit(w, 6) })
    } else {
        CondInstr::Undef
    }
}

/// Class of a multiply, a word of the second group with `1001` in bits 7..4 and bit 24
/// clear.
///
/// Bits 23..22 select the form: `00` the 32-bit multiply, `1x` the 64-bit multiply, signed
/// with bit 22; `01` is reserved. Bit 21 adds the accumulator, bit 20 sets the flags.
pub open spec fn multiply_class(w: u32) -> CondInstr {
    if field(w, 22, 0b11) == 0b00 {
        CondInstr::Mul(Mul { flags: bit(w, 20), ty: MulTy::short(bit(w, 21)) })
    } else if bit(w, 23) {
        CondInstr::Mul(Mul { flags: bit(w, 20), ty: MulTy::long(bit(w, 22), bit(w, 21)) })
    } else {
        CondInstr::Undef
    }
}

/// The swap pattern: bits 24..20 are `10x00`.
pub open spec fn is_swap(w: u32) -> bool {
    field(w, 20, 0b1_1011) == 0b1_0000
}

/// Class of a halfword, signed-byte or doubleword transfer, a word of the second group
/// with `1xx1` other than `1001` in bits 7..4.
///
/// Pre-indexing together with write-back is unpredictable. Bits 6..5 select the kind:
/// `01` an unsigned halfword, loaded with bit 20; `1x` with bit 20 a signed load, of a
/// halfword with bit 5 and of a byte without; `1x` without bit 20 a doubleword, stored
/// with bit 5 and loaded without.
pub open spec fn extra_transfer_class(w: u32) -> CondInstr {
    let add_ofs = bit(w, 23);
    let imm = bit(w, 22);
    let adr_ty = AdrModeTy::of_w_p(bit(w, 21), bit(w, 24));
    if bit(w, 24) && bit(w, 21) {
        CondInstr::Unpred
    } else if field(w, 5, 0b11) == 0b01 {
        CondInstr::TransfMisc(
            TransfMisc { add_ofs, imm, ty: MiscTransfTy::H { load: bit(w, 20) }, adr_ty },
        )
    } else if bit(w, 6) {
        if bit(w, 20) {
            CondInstr::TransfMisc(
                TransfMisc {
                    add_ofs,
                    imm,
                    ty: if bit(w, 5) {
                        MiscTransfTy::SH
                    } else {
                        MiscTransfTy::SB
                    },
                    adr_ty,
                },
            )
        } else {
            CondInstr::TransfDouble(TransfDouble { store: bit(w, 5), add_ofs, imm, adr_ty })
        }
    } else {
        CondInstr::Undef
    }
}

/// Class of a word of the second group, by its bits 7..4: `1001` is a multiply where
/// bit 24 is clear, and with bit 24 a swap, of a byte with bit 22, where the swap pattern
/// holds and undefined where it does not; any other `1xx1` is an extra transfer.
pub open spec fn mul_extra_class(w: u32) -> CondInstr {
    let sub = field(w, 4, 0b1111);
    if sub == 0b1001 {
        if !bit(w, 24) {
            multiply_class(w)
        } else if is_swap(w) {
            CondInstr::Swp(Swp { byte: bit(w, 22) })
        } else {
            CondInstr::Undef
        }
    } else if bit(w, 7) && bit(w, 4) {
        extra_transfer_class(w)
    } else {
        CondInstr::Undef
    }
}

/// Class of a data-processing word: bits 24..21 are the opcode, bit 20 sets the flags,
/// bit 25 makes the operand an immediate; a register operand is shifted as bits 6..5 say,
/// by a register where bit 4 is set.
pub open spec fn data_proc_class(w: u32) -> CondInstr {
    CondInstr::Dp(
        Dp {
            flags: bit(w, 20),
            opc: DpOpcTy::of_bits(field(w, 21, 0b1111)),
            oper: if bit(w, 25) {
                DpOperTy::Imm
            } else {
                DpOperTy::Shft { is_reg: bit(w, 4), ty: ShiftTy::of_bits(field(w, 5, 0b11)) }
            },
        },
    )
}

/// Class of a move of an immediate to a status register, the saved one with bit 22.
pub open spec fn status_imm_class(w: u32) -> CondInstr {
    CondInstr::Msr(Msr { r: bit(w, 22), imm: true })
}

/// Class of a load or store of a byte or a word: bit 20 loads, bit 22 selects the byte,
/// bit 23 adds the offset, bit 25 makes the offset a shifted register, bits 21 and 24
/// select the addressing mode.
pub open spec fn transfer_class(w: u32) -> CondInstr {
    CondInstr::Transf(
        Transf {
            load: bit(w, 20),
            add_ofs: bit(w, 23),
            ty: if bit(w, 22) {
                TransfTy::Byte
            } else {
                TransfTy::Word
            },
            oper: if bit(w, 25) {
                TransfOperTy::Reg { shift: ShiftTy::of_bits(field(w, 5, 0b11)) }
            } else {
                TransfOperTy::Imm
            },
            adr_ty: AdrModeTy::of_w_p(bit(w, 21), bit(w, 24)),
        },
    )
}

/// Class of a load or store of a set of registers: bit 20 loads, bit 21 updates the base,
/// bit 22 selects the privileged form, bits 24 and 23 select the addressing mode.
pub open spec fn block_transfer_class(w: u32) -> CondInstr {
    CondInstr::TransfMult(
        TransfMult {
            load: bit(w, 20),
            base_update: bit(w, 21),
            adr_ty: AdrMode4::of_p_u(bit(w, 24), bit(w, 23)),
            privilige_mode: bit(w, 22),
        },
    )
}

/// Class of a branch, with link where bit 24 is set.
pub open spec fn branch_class(w: u32) -> CondInstr {
    CondInstr::B(B { link: bit(w, 24) })
}

/// Class of a load or store of a coprocessor: bits 24, 21 and 23 select the addressing
/// mode, and the word is unpredictable where they select none; bit 20 loads, bit 23 adds
/// the offset, bit 22 is the coprocessor's own.
pub open spec fn cp_transfer_class(w: u32) -> CondInstr {
    match AdrMode5::of_p_w_u(bit(w, 24), bit(w, 21), bit(w, 23)) {
        Some(adr_ty) => CondInstr::CpTransf(
            CpTransf { load: bit(w, 20), adr_ty, add_ofs: bit(w, 23), n: bit(w, 22) },
        ),
        None => CondInstr::Unpred,
    }
}

/// Class of a move between an ARM register and a coprocessor register, into the ARM
/// register where bit 20 is set.
pub open spec fn cp_move_class(w: u32) -> CondInstr {
    CondInstr::CpMov(CpMov { arm_reg_load: bit(w, 20) })
}

/// Class of a word of the conditional space: that of the first group, in the order of the
/// table, whose test holds of the word, and undefined where none does.
pub open spec fn cond_class(w: u32) -> CondInstr {
    if is_misc(w) {
        misc_class(w)
    } else if is_mul_extra(w) {
        mul_extra_class(w)
    } else if is_data_proc(w) {
        data_proc_class(w)
    } else if is_status_imm(w) {
        status_imm_class(w)
    } else if is_transfer(w) {
        transfer_class(w)
    } else if is_block_transfer(w) {
        block_transfer_class(w)
    } else if is_branch(w) {
        branch_class(w)
    } else if is_cp_transfer(w) {
        cp_transfer_class(w)
    } else if is_cp_data_op(w) {
        CondInstr::CpDp
    } else if is_cp_move(w) {
        cp_move_class(w)
    } else if is_swi(w) {
        CondInstr::Swi
    } else {
        CondInstr::Undef
    }
}

/// Class of a word of the unconditional space: only the branch with link and exchange to
/// an immediate target is told apart, by `101` in bits 27..25.
pub open spec fn uncond_class(w: u32) -> UnCondInstr {
    if field(w, 25, 0b111) == 0b101 {
        UnCondInstr::BlxImm
    } else {
        UnCondInstr::Undef
    }
}

/// Whether the condition field of `w`, bits 31..28, holds `1111`.
pub open spec fn has_all_ones_condition(w: u32) -> bool {
    field(w, 28, 0b1111) == 0b1111
}

} // verus!
