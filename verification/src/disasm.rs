//! Disassembly: the names that assembly text gives to registers and conditions, and the
//! lookup of a word in the dispatch tables that render it.

use crate::bits::field;
use crate::decode::is_cond_instr;
use crate::encoding::has_all_ones_condition;
use vstd::prelude::*;

verus! {

/// The ten decimal digits.
pub open spec fn digits() -> Seq<char> {
    seq!['0', '1', '2', '3', '4', '5', '6', '7', '8', '9']
}

/// The decimal numeral of `n`, without leading zeros.
pub open spec fn decimal(n: nat) -> Seq<char>
    decreases n,
{
    if n < 10 {
        seq![digits()[n as int]]
    } else {
        decimal(n / 10).push(digits()[(n % 10) as int])
    }
}

/// Name of register `reg`: `r` and the number for the first thirteen, then `sp`, `lr` and
/// `pc`.
pub open spec fn reg_name(reg: u32) -> Seq<char> {
    if reg <= 12 {
        seq!['r'] + decimal(reg as nat)
    } else if reg == 13 {
        seq!['s', 'p']
    } else if reg == 14 {
        seq!['l', 'r']
    } else {
        seq!['p', 'c']
    }
}

/// The suffixes of the fifteen conditions in the order of their code; the last, "always",
/// has none.
pub open spec fn cond_suffixes() -> Seq<Seq<char>> {
    seq![
        seq!['e', 'q'],
        seq!['n', 'e'],
        seq!['c', 's'],
        seq!['c', 'c'],
        seq!['m', 'i'],
        seq!['p', 'l'],
        seq!['v', 's'],
        seq!['v', 'c'],
        seq!['h', 'i'],
        seq!['l', 's'],
        seq!['g', 'e'],
        seq!['l', 't'],
        seq!['g', 't'],
        seq!['l', 'e'],
        seq![],
    ]
}

/// Gives the name of register `reg`.
pub fn preg(reg: u32) -> (name: String)
    requires
        reg < 0x10,
    ensures
        name@ == reg_name(reg),
{
    let name: &str = match reg {
        0 => "r0",
        1 => "r1",
        2 => "r2",
        3 => "r3",
        4 => "r4",
        5 => "r5",
        6 => "r6",
        7 => "r7",
        8 => "r8",
        9 => "r9",
        10 => "r10",
        11 => "r11",
        12 => "r12",
        13 => "sp",
        14 => "lr",
        _ => "pc",
    };
    proof {
        reveal_strlit("r0");
        reveal_strlit("r1");
        reveal_strlit("r2");
        reveal_strlit("r3");
        reveal_strlit("r4");
        reveal_strlit("r5");
        reveal_strlit("r6");
        reveal_strlit("r7");
        reveal_strlit("r8");
        reveal_strlit("r9");
        reveal_strlit("r10");
        reveal_strlit("r11");
        reveal_strlit("r12");
        reveal_strlit("sp");
        reveal_strlit("lr");
        reveal_strlit("pc");
        reveal_with_fuel(decimal, 2);
        assert(name@ =~= reg_name(reg));
    }
    name.to_owned()
}

/// Gives the suffix of the condition with code `nibble`.
pub fn pcond(nibble: u32) -> (suffix: &'static str)
    requires
        nibble < 0xF,
    ensures
        suffix@ == cond_suffixes()[nibble as int],
{
    let suffix: &'static str = match nibble {
        0x0 => "eq",
        0x1 => "ne",
        0x2 => "cs",
        0x3 => "cc",
        0x4 => "mi",
        0x5 => "pl",
        0x6 => "vs",
        0x7 => "vc",
        0x8 => "hi",
        0x9 => "ls",
        0xA => "ge",
        0xB => "lt",
        0xC => "gt",
        0xD => "le",
        _ => "",
    };
    proof {
        reveal_strlit("eq");
        reveal_strlit("ne");
        reveal_strlit("cs");
        reveal_strlit("cc");
        reveal_strlit("mi");
        reveal_strlit("pl");
        reveal_strlit("vs");
        reveal_strlit("vc");
        reveal_strlit("hi");
        reveal_strlit("ls");
        reveal_strlit("ge");
        reveal_strlit("lt");
        reveal_strlit("gt");
        reveal_strlit("le");
        reveal_strlit("");
        assert(suffix@ =~= cond_suffixes()[nibble as int]);
    }
    suffix
}

/// Gives the suffix of the condition of a word of the conditional space.
pub fn cond_extract(instr: u32) -> (suffix: &'static str)
    requires
        !has_all_ones_condition(instr),
    ensures
        suffix@ == cond_suffixes()[field(instr, 28, 0b1111) as int],
{
    assert(instr >> 28 == (instr >> 28) & 0b1111 && instr >> 28 <= 0xF) by (bit_vector);
    pcond(instr >> 28)
}

/// The key of a word in a dispatch table: bits 27..20 above bits 7..4.
pub open spec fn lut_key(w: u32) -> int {
    field(w, 20, 0xFF) * 16 + field(w, 4, 0xF)
}

/// Computes the key of a word in a dispatch table.
pub fn lut_index(instr: u32) -> (index: usize)
    ensures
        index == lut_key(instr),
        index < 4096,
{
    let index: u32 = ((instr >> 4) & 0xF) | ((instr >> 16) & 0xFF0);
    assert(index == ((instr >> 20) & 0xFF) * 16 + ((instr >> 4) & 0xF) && index < 4096)
        by (bit_vector)
        requires
            index == ((instr >> 4) & 0xF) | ((instr >> 16) & 0xFF0),
    ;
    index as usize
}

/// Renders a word as text through the dispatch table of its space.
pub fn disassemble<C: Fn(u32) -> String, U: Fn(u32) -> String>(
    instr: u32,
    cond_lut: &[C; 4096],
    uncond_lut: &[U; 4096],
) -> (text: String)
    requires
        has_all_ones_condition(instr) ==> call_requires(uncond_lut[lut_key(instr)], (instr,)),
        !has_all_ones_condition(instr) ==> call_requires(cond_lut[lut_key(instr)], (instr,)),
    ensures
        has_all_ones_condition(instr) ==> call_ensures(uncond_lut[lut_key(instr)], (instr,), text),
        !has_all_ones_condition(instr) ==> call_ensures(cond_lut[lut_key(instr)], (instr,), text),
{
    let index: usize = lut_index(instr);
    if is_cond_instr(instr) {
        uncond_lut[index](instr)
    } else {
        cond_lut[index](instr)
    }
}

} // verus!
