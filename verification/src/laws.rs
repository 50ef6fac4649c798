//! What holds of the encoding table as a whole.

use crate::bits::{bit, field};
use crate::disasm::lut_key;
use crate::encoding::{
    block_transfer_class, branch_class, cond_class, cp_move_class, cp_transfer_class,
    data_proc_class, is_block_transfer, is_branch, is_claimed, is_cp_data_op, is_cp_move,
    is_cp_transfer, is_data_proc, is_misc, is_mul_extra, is_status_imm, is_swap, is_swi,
    is_transfer,
    misc_class, mul_extra_class, multiply_class, status_imm_class, transfer_class, uncond_class,
};
use crate::fields::{AdrMode4, ShiftTy};
use crate::instr::{CondInstr, Msr, Swp, UnCondInstr};
use vstd::prelude::*;

verus! {

/// The words `a` and `b` agree in bits 27..20 and 7..4, the only ones that the table reads.
pub open spec fn same_key_bits(a: u32, b: u32) -> bool {
    a & 0x0FF0_00F0 == b & 0x0FF0_00F0
}

/// Words that agree in bits 27..20 and 7..4 agree in every bit and field that the table
/// reads.
proof fn lemma_key_bits(a: u32, b: u32)
    by (bit_vector)
    requires
        same_key_bits(a, b),
    ensures
        bit(a, 4) == bit(b, 4),
        bit(a, 5) == bit(b, 5),
        bit(a, 6) == bit(b, 6),
        bit(a, 7) == bit(b, 7),
        bit(a, 20) == bit(b, 20),
        bit(a, 21) == bit(b, 21),
        bit(a, 22) == bit(b, 22),
        bit(a, 23) == bit(b, 23),
        bit(a, 24) == bit(b, 24),
        bit(a, 25) == bit(b, 25),
        field(a, 4, 0b111) == field(b, 4, 0b111),
        field(a, 4, 0b1111) == field(b, 4, 0b1111),
        field(a, 5, 0b11) == field(b, 5, 0b11),
        field(a, 20, 0b11) == field(b, 20, 0b11),
        field(a, 20, 0b1_1011) == field(b, 20, 0b1_1011),
        field(a, 21, 0b11) == field(b, 21, 0b11),
        field(a, 21, 0b1111) == field(b, 21, 0b1111),
        field(a, 22, 0b11) == field(b, 22, 0b11),
        field(a, 23, 0b1_1111) == field(b, 23, 0b1_1111),
        field(a, 24, 0b1111) == field(b, 24, 0b1111),
        field(a, 25, 0b111) == field(b, 25, 0b111),
{
}

/// How the bits that the group tests read hang together: a field is made of its bits.
proof fn lemma_group_bits(w: u32)
    by (bit_vector)
    ensures
        field(w, 25, 0b111) == 0b000 <==> !bit(w, 27) && !bit(w, 26) && !bit(w, 25),
        field(w, 25, 0b111) == 0b001 <==> !bit(w, 27) && !bit(w, 26) && bit(w, 25),
        field(w, 25, 0b111) == 0b010 <==> !bit(w, 27) && bit(w, 26) && !bit(w, 25),
        field(w, 25, 0b111) == 0b011 <==> !bit(w, 27) && bit(w, 26) && bit(w, 25),
        field(w, 25, 0b111) == 0b100 <==> bit(w, 27) && !bit(w, 26) && !bit(w, 25),
        field(w, 25, 0b111) == 0b101 <==> bit(w, 27) && !bit(w, 26) && bit(w, 25),
        field(w, 25, 0b111) == 0b110 <==> bit(w, 27) && bit(w, 26) && !bit(w, 25),
        field(w, 24, 0b1111) == 0b1110 <==> bit(w, 27) && bit(w, 26) && bit(w, 25) && !bit(
            w,
            24,
        ),
        field(w, 24, 0b1111) == 0b1111 <==> bit(w, 27) && bit(w, 26) && bit(w, 25) && bit(w, 24),
        field(w, 23, 0b1_1111) == 0b0_0010 <==> !bit(w, 27) && !bit(w, 26) && !bit(w, 25) && bit(
            w,
            24,
        ) && !bit(w, 23),
        field(w, 23, 0b1_1111) == 0b0_0110 <==> !bit(w, 27) && !bit(w, 26) && bit(w, 25) && bit(
            w,
            24,
        ) && !bit(w, 23),
        field(w, 20, 0b11) == 0b10 <==> bit(w, 21) && !bit(w, 20),
        field(w, 20, 0b1_1011) == 0b1_0000 <==> bit(w, 24) && !bit(w, 23) && !bit(w, 21) && !bit(
            w,
            20,
        ),
{
}

/// The sub-field of the status moves in the miscellaneous group, made of its bits.
proof fn lemma_status_move_bits(w: u32)
    by (bit_vector)
    ensures
        field(w, 4, 0b1111) == 0b0000 <==> !bit(w, 7) && field(w, 4, 0b111) == 0b000,
{
}

/// The fields that tell multiplies and swaps apart, made of their bits.
proof fn lemma_swap_bits(w: u32)
    by (bit_vector)
    ensures
        field(w, 4, 0b1111) == 0b1001 <==> bit(w, 7) && !bit(w, 6) && !bit(w, 5) && bit(w, 4),
        field(w, 24, 0b1111) == 0b0000 <==> !bit(w, 27) && !bit(w, 26) && !bit(w, 25) && !bit(
            w,
            24,
        ),
        field(w, 20, 0b11) == 0b00 <==> !bit(w, 21) && !bit(w, 20),
        field(w, 22, 0b11) == 0b00 <==> !bit(w, 23) && !bit(w, 22),
        field(w, 22, 0b11) == 0b01 <==> !bit(w, 23) && bit(w, 22),
{
}

/// The 2-bit shift field and the shift types correspond one to one: two codes with the
/// same type are the same code, and every type has a code.
pub proof fn lemma_shift_codes_one_to_one(a: u32, b: u32, ty: ShiftTy)
    ensures
        a < 4 && b < 4 && ShiftTy::of_bits(a) == ShiftTy::of_bits(b) ==> a == b,
        exists|bits: u32| bits < 4 && #[trigger] ShiftTy::of_bits(bits) == ty,
{
    let code: u32 = match ty {
        ShiftTy::Lsl => 0,
        ShiftTy::Lsr => 1,
        ShiftTy::Asr => 2,
        ShiftTy::Ror => 3,
    };
    assert(code < 4 && ShiftTy::of_bits(code) == ty);
}

/// Two classifications of one word are the same class.
pub proof fn lemma_class_is_function_of_word(
    w: u32,
    first: CondInstr,
    second: CondInstr,
    first_uncond: UnCondInstr,
    second_uncond: UnCondInstr,
)
    requires
        first == cond_class(w),
        second == cond_class(w),
        first_uncond == uncond_class(w),
        second_uncond == uncond_class(w),
    ensures
        first == second,
        first_uncond == second_uncond,
{
}

/// The class of a word of the conditional space depends on its bits 27..20 and 7..4 alone.
pub proof fn lemma_class_by_key_bits(a: u32, b: u32)
    requires
        same_key_bits(a, b),
    ensures
        cond_class(a) == cond_class(b),
{
    lemma_key_bits(a, b);
}

/// Two words have the same key in a dispatch table exactly when they agree in bits 27..20
/// and 7..4.
pub proof fn lemma_lut_key_is_key_bits(a: u32, b: u32)
    by (bit_vector)
    ensures
        lut_key(a) == lut_key(b) <==> same_key_bits(a, b),
{
}

/// One entry of a dispatch table serves words of one class only: words with the same key
/// have the same class, in the conditional space and in the unconditional one.
pub proof fn lemma_class_by_lut_key(a: u32, b: u32)
    requires
        lut_key(a) == lut_key(b),
    ensures
        cond_class(a) == cond_class(b),
        uncond_class(a) == uncond_class(b),
{
    lemma_lut_key_is_key_bits(a, b);
    lemma_key_bits(a, b);
}

/// The condition does not bear on the class: putting any value `c` into bits 31..28 of a
/// word leaves its class as it was.
pub proof fn lemma_condition_is_ignored(w: u32, c: u32)
    ensures
        cond_class((w & 0x0FFF_FFFF) | (c << 28)) == cond_class(w),
{
    let v = (w & 0x0FFF_FFFF) | (c << 28);
    assert(same_key_bits(v, w)) by (bit_vector)
        requires
            v == (w & 0x0FFF_FFFF) | (c << 28),
    ;
    lemma_class_by_key_bits(v, w);
}

/// The hole of the register operands: every word of the miscellaneous group also
/// passes the data-processing test, and is classified by the miscellaneous group, never as
/// data processing.
pub proof fn lemma_misc_precedes_data_proc(w: u32)
    requires
        is_misc(w),
    ensures
        is_data_proc(w),
        cond_class(w) == misc_class(w),
        !(cond_class(w) is Dp),
{
    lemma_group_bits(w);
}

/// The hole of the immediate operands: a move of an immediate to a status register has
/// `001` in bits 27..25, as a data-processing immediate has, and is classified as the move,
/// of the saved status register with bit 22, never as data processing.
pub proof fn lemma_status_imm_precedes_data_proc(w: u32)
    requires
        is_status_imm(w),
    ensures
        field(w, 25, 0b111) == 0b001,
        !is_data_proc(w),
        cond_class(w) == CondInstr::Msr(Msr { r: bit(w, 22), imm: true }),
{
    lemma_group_bits(w);
}

/// The other words with `001` in bits 27..25 are data processing with an immediate operand.
pub proof fn lemma_immediate_data_proc(w: u32)
    requires
        field(w, 25, 0b111) == 0b001,
        !is_status_imm(w),
    ensures
        cond_class(w) == data_proc_class(w),
        cond_class(w) matches CondInstr::Dp(dp) && dp.oper is Imm,
{
    lemma_group_bits(w);
}

/// Inside the second group the sub-field `1001` is tried before the general `1xx1`, which
/// it also matches: such a word is a multiply, a swap or undefined, never an extra
/// transfer.
pub proof fn lemma_multiply_precedes_extra_transfer(w: u32)
    requires
        is_mul_extra(w),
        field(w, 4, 0b1111) == 0b1001,
    ensures
        cond_class(w) == if !bit(w, 24) {
            multiply_class(w)
        } else if is_swap(w) {
            CondInstr::Swp(Swp { byte: bit(w, 22) })
        } else {
            CondInstr::Undef
        },
        cond_class(w) is Mul || cond_class(w) is Swp || cond_class(w) is Undef,
{
    lemma_group_bits(w);
}

/// The swaps are the words with `00010x00` in bits 27..20 and `1001` in bits 7..4; bit 22
/// selects the byte.
pub proof fn lemma_swap_words(w: u32)
    ensures
        cond_class(w) is Swp <==> field(w, 23, 0b1_1111) == 0b0_0010 && field(w, 20, 0b11)
            == 0b00 && field(w, 4, 0b1111) == 0b1001,
        cond_class(w) is Swp ==> cond_class(w) == CondInstr::Swp(Swp { byte: bit(w, 22) }),
{
    lemma_group_bits(w);
    lemma_swap_bits(w);
}

/// The multiplies are the words with `0000` in bits 27..24 and `1001` in bits 7..4, but for
/// the reserved form `01` in bits 23..22.
pub proof fn lemma_multiply_words(w: u32)
    ensures
        cond_class(w) is Mul <==> field(w, 24, 0b1111) == 0b0000 && field(w, 4, 0b1111)
            == 0b1001 && field(w, 22, 0b11) != 0b01,
        cond_class(w) is Mul ==> cond_class(w) == multiply_class(w),
{
    lemma_group_bits(w);
    lemma_swap_bits(w);
}

/// The block modes mean what their names say: the address is incremented exactly with the
/// add-up bit, and moved before the access exactly with the pre-index bit.
pub proof fn lemma_block_mode_by_bits(p: bool, u: bool)
    ensures
        AdrMode4::of_p_u(p, u) is IA || AdrMode4::of_p_u(p, u) is IB <==> u,
        AdrMode4::of_p_u(p, u) is IB || AdrMode4::of_p_u(p, u) is DB <==> p,
{
}

/// 1 for a test that holds, 0 for one that does not.
pub open spec fn holds(test: bool) -> int {
    if test {
        1
    } else {
        0
    }
}

/// Apart from the overlap of the miscellaneous group with data processing, the groups are
/// disjoint: of the ten other tests at most one holds of a word, and every word of the
/// miscellaneous group passes the data-processing test too.
pub proof fn lemma_groups_overlap_only_in_data_proc(w: u32)
    ensures
        holds(is_data_proc(w)) + holds(is_mul_extra(w)) + holds(is_status_imm(w)) + holds(
            is_transfer(w),
        ) + holds(is_block_transfer(w)) + holds(is_branch(w)) + holds(is_cp_transfer(w)) + holds(
            is_cp_data_op(w),
        ) + holds(is_cp_move(w)) + holds(is_swi(w)) <= 1,
        is_misc(w) ==> is_data_proc(w),
{
    lemma_group_bits(w);
}

/// Only between the miscellaneous group and data processing does the order of the table
/// decide: a word of any other group has the class that its group gives it, and a word
/// that passes the data-processing test has that of data processing unless the
/// miscellaneous group claims it.
pub proof fn lemma_class_of_group(w: u32)
    ensures
        is_misc(w) ==> cond_class(w) == misc_class(w),
        is_mul_extra(w) ==> cond_class(w) == mul_extra_class(w),
        is_data_proc(w) && !is_misc(w) ==> cond_class(w) == data_proc_class(w),
        is_status_imm(w) ==> cond_class(w) == status_imm_class(w),
        is_transfer(w) ==> cond_class(w) == transfer_class(w),
        is_block_transfer(w) ==> cond_class(w) == block_transfer_class(w),
        is_branch(w) ==> cond_class(w) == branch_class(w),
        is_cp_transfer(w) ==> cond_class(w) == cp_transfer_class(w),
        is_cp_data_op(w) ==> cond_class(w) == CondInstr::CpDp,
        is_cp_move(w) ==> cond_class(w) == cp_move_class(w),
        is_swi(w) ==> cond_class(w) == CondInstr::Swi,
{
    lemma_groups_overlap_only_in_data_proc(w);
}

/// From the class back to the group: which test a word of each class has passed.
pub proof fn lemma_group_of_class(w: u32)
    ensures
        cond_class(w) is Dp <==> is_data_proc(w) && !is_misc(w),
        cond_class(w) is Transf <==> is_transfer(w),
        cond_class(w) is TransfMult <==> is_block_transfer(w),
        cond_class(w) is B <==> is_branch(w),
        cond_class(w) is CpTransf ==> is_cp_transfer(w),
        cond_class(w) is CpDp <==> is_cp_data_op(w),
        cond_class(w) is CpMov <==> is_cp_move(w),
        cond_class(w) is Swi <==> is_swi(w),
        cond_class(w) is Mul || cond_class(w) is Swp || cond_class(w) is TransfMisc
            || cond_class(w) is TransfDouble ==> is_mul_extra(w),
        cond_class(w) is Mrs || cond_class(w) is Bx || cond_class(w) is Clz || cond_class(w)
            is BlxReg || cond_class(w) is QArith || cond_class(w) is Bkpt || cond_class(w)
            is DspMul ==> is_misc(w),
        cond_class(w) matches CondInstr::Msr(msr) ==> if msr.imm {
            is_status_imm(w)
        } else {
            is_misc(w)
        },
        cond_class(w) is Unpred ==> is_mul_extra(w) || is_cp_transfer(w),
{
    lemma_groups_overlap_only_in_data_proc(w);
}

/// The moves to a status register: the register form is a word of the miscellaneous group
/// with bits 7..4 zero and bit 21 set, the immediate form a word that passes the test for
/// it; both move to the saved status register with bit 22.
pub proof fn lemma_status_move_words(w: u32)
    ensures
        cond_class(w) == CondInstr::Msr(Msr { r: bit(w, 22), imm: true }) <==> is_status_imm(w),
        cond_class(w) == CondInstr::Msr(Msr { r: bit(w, 22), imm: false }) <==> is_misc(w)
            && field(w, 4, 0b1111) == 0b0000 && bit(w, 21),
        cond_class(w) is Msr ==> is_status_imm(w) || is_misc(w),
{
    lemma_group_bits(w);
    lemma_status_move_bits(w);
}

/// The unpredictable words: an extra transfer with pre-indexing and write-back together,
/// and a coprocessor transfer with neither of them and without add-up.
pub proof fn lemma_unpredictable_words(w: u32)
    ensures
        cond_class(w) is Unpred <==> {
            ||| is_mul_extra(w) && field(w, 4, 0b1111) != 0b1001 && bit(w, 24) && bit(w, 21)
            ||| is_cp_transfer(w) && !bit(w, 24) && !bit(w, 21) && !bit(w, 23)
        },
{
    lemma_groups_overlap_only_in_data_proc(w);
}

/// A word that no group test claims is undefined.
pub proof fn lemma_unclaimed_is_undefined(w: u32)
    requires
        !is_claimed(w),
    ensures
        cond_class(w) == CondInstr::Undef,
{
}

/// The words that no group test claims are those with `011` in bits 27..25 and bit 4 set.
pub proof fn lemma_unclaimed_words(w: u32)
    ensures
        !is_claimed(w) <==> field(w, 25, 0b111) == 0b011 && bit(w, 4),
{
    lemma_group_bits(w);
}

} // verus!
