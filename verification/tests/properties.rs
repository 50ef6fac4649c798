use arm_decode::{
    AdrMode4, AdrMode5, AdrModeTy, CondInstr, Dp, DpOpcTy, DpOperTy, Msr, Processor,
    UnCondInstr,
};

/// Every word made of one of the 4096 values of bits 27..20 and 7..4, with `rest` in the
/// other bits.
fn words_of_all_keys(rest: u32) -> Vec<u32> {
    let mut words: Vec<u32> = Vec::new();
    let mut key: u32 = 0;
    while key < 4096 {
        let bits: u32 = ((key >> 4) << 20) | ((key & 0xF) << 4);
        words.push((rest & !0x0FF0_00F0) | bits);
        key += 1;
    }
    words
}

fn class(word: u32) -> CondInstr {
    Processor {}.decode_cond(word)
}

fn is_misc(w: u32) -> bool {
    (w >> 23) & 0x1F == 0b00010 && w & 0x0010_0000 == 0 && w & 0x90 != 0x90
}

fn is_mul_extra(w: u32) -> bool {
    (w >> 25) & 7 == 0 && w & 0x90 == 0x90
}

fn is_status_imm(w: u32) -> bool {
    (w >> 23) & 0x1F == 0b00110 && (w >> 20) & 3 == 0b10
}

fn is_data_proc(w: u32) -> bool {
    ((w >> 25) & 7 == 0 && w & 0x90 != 0x90) || ((w >> 25) & 7 == 1 && !is_status_imm(w))
}

#[test]
fn same_word_same_class() {
    for word in words_of_all_keys(0xE00F_FF0F) {
        assert_eq!(class(word), class(word));
        assert_eq!(Processor {}.decode_uncond(word), Processor {}.decode_uncond(word));
    }
}

#[test]
fn condition_does_not_change_the_class() {
    for word in words_of_all_keys(0x0000_0000) {
        let expected = class(word);
        let mut cond: u32 = 0;
        while cond < 16 {
            assert_eq!(class((word & 0x0FFF_FFFF) | (cond << 28)), expected);
            cond += 1;
        }
    }
}

#[test]
fn condition_of_the_nop_does_not_change_its_class() {
    let expected = class(0xE1A0_0000);
    assert_eq!(class(0x01A0_0000), expected);
    assert_eq!(class(0x11A0_0000), expected);
    assert_eq!(class(0xF1A0_0000), expected);
}

#[test]
fn bits_outside_the_key_do_not_change_the_class() {
    let zeros = words_of_all_keys(0x0000_0000);
    let ones = words_of_all_keys(0xFFFF_FFFF);
    let mixed = words_of_all_keys(0x5A0C_3A05);
    let mut i: usize = 0;
    while i < 4096 {
        assert_eq!(class(zeros[i]), class(ones[i]));
        assert_eq!(class(zeros[i]), class(mixed[i]));
        i += 1;
    }
}

#[test]
fn miscellaneous_group_wins_over_data_processing() {
    // Each word passes the data-processing test as well.
    let words: [u32; 5] = [0xE10F_0000, 0xE129_F000, 0xE12F_FF1E, 0xE120_0070, 0xE160_0281];
    for word in words {
        assert!(is_misc(word) && is_data_proc(word));
        assert!(!matches!(class(word), CondInstr::Dp(_)));
    }
    assert_eq!(class(0xE12F_FF1E), CondInstr::Bx);
    // With the set-flags bit the same opcode is data processing.
    assert!(matches!(class(0xE13F_FF1E), CondInstr::Dp(_)));
}

#[test]
fn miscellaneous_words_are_never_data_processing() {
    for word in words_of_all_keys(0xE000_0000) {
        if is_misc(word) {
            assert!(is_data_proc(word));
            assert!(!matches!(class(word), CondInstr::Dp(_)));
        } else if is_data_proc(word) {
            assert!(matches!(class(word), CondInstr::Dp(_)));
        }
    }
}

#[test]
fn multiply_group_is_not_data_processing() {
    for word in words_of_all_keys(0xE000_0000) {
        if is_mul_extra(word) {
            assert!(matches!(
                class(word),
                CondInstr::Mul(_)
                    | CondInstr::Swp(_)
                    | CondInstr::TransfMisc(_)
                    | CondInstr::TransfDouble(_)
                    | CondInstr::Unpred
                    | CondInstr::Undef
            ));
        }
    }
}

#[test]
fn status_immediate_wins_over_data_processing() {
    // msr cpsr_f, #0 and msr spsr_f, #1: both have 001 in bits 27..25.
    assert_eq!(class(0xE328_F000), CondInstr::Msr(Msr { r: false, imm: true }));
    assert_eq!(class(0xE328_F001), CondInstr::Msr(Msr { r: false, imm: true }));
    assert_eq!(class(0xE368_F001), CondInstr::Msr(Msr { r: true, imm: true }));
    // With the set-flags bit the same opcodes are data processing.
    assert_eq!(
        class(0xE338_F001),
        CondInstr::Dp(Dp { flags: true, opc: DpOpcTy::Teq, oper: DpOperTy::Imm })
    );
    assert_eq!(
        class(0xE378_F001),
        CondInstr::Dp(Dp { flags: true, opc: DpOpcTy::Cmn, oper: DpOperTy::Imm })
    );
    // The other half of the hole, bits 21..20 zero, stays data processing.
    assert_eq!(
        class(0xE300_0001),
        CondInstr::Dp(Dp { flags: false, opc: DpOpcTy::Tst, oper: DpOperTy::Imm })
    );
    assert_eq!(
        class(0xE340_0001),
        CondInstr::Dp(Dp { flags: false, opc: DpOpcTy::Cmp, oper: DpOperTy::Imm })
    );
}

#[test]
fn status_moves_by_their_bits() {
    for word in words_of_all_keys(0xE000_0000) {
        let saved = word & (1 << 22) != 0;
        let register_form = is_misc(word) && (word >> 4) & 0xF == 0 && word & (1 << 21) != 0;
        assert_eq!(
            class(word) == CondInstr::Msr(Msr { r: saved, imm: true }),
            is_status_imm(word)
        );
        assert_eq!(class(word) == CondInstr::Msr(Msr { r: saved, imm: false }), register_form);
        assert_eq!(
            matches!(class(word), CondInstr::Msr(_)),
            is_status_imm(word) || register_form
        );
        if is_status_imm(word) {
            assert_eq!((word >> 25) & 7, 0b001);
        }
    }
}

#[test]
fn swaps_and_multiplies_by_their_bits() {
    for word in words_of_all_keys(0xE000_0000) {
        let sub_field_1001 = (word >> 4) & 0xF == 0b1001;
        let swap = (word >> 23) & 0x1F == 0b00010 && (word >> 20) & 3 == 0 && sub_field_1001;
        let multiply = (word >> 24) & 0xF == 0 && sub_field_1001 && (word >> 22) & 3 != 0b01;
        assert_eq!(matches!(class(word), CondInstr::Swp(_)), swap);
        assert_eq!(matches!(class(word), CondInstr::Mul(_)), multiply);
    }
}

#[test]
fn sub_field_1001_is_never_an_extra_transfer() {
    for word in words_of_all_keys(0xE000_0000) {
        if is_mul_extra(word) && (word >> 4) & 0xF == 0b1001 {
            assert!(matches!(
                class(word),
                CondInstr::Mul(_) | CondInstr::Swp(_) | CondInstr::Undef
            ));
        }
    }
}

#[test]
fn unclaimed_words_are_undefined() {
    assert_eq!(class(0xE7FF_FFFF), CondInstr::Undef);
    assert_eq!(class(0xE600_0010), CondInstr::Undef);
    assert_eq!(class(0x07F0_00F0), CondInstr::Undef);
    for word in words_of_all_keys(0xE000_0000) {
        if (word >> 25) & 7 == 0b011 && word & 0x10 != 0 {
            assert_eq!(class(word), CondInstr::Undef);
        }
    }
}

#[test]
fn groups_by_their_top_bits() {
    for word in words_of_all_keys(0xE000_0000) {
        let top: u32 = (word >> 25) & 7;
        let got = class(word);
        match top {
            0b010 => assert!(matches!(got, CondInstr::Transf(_))),
            0b011 => assert!(matches!(got, CondInstr::Transf(_) | CondInstr::Undef)),
            0b100 => assert!(matches!(got, CondInstr::TransfMult(_))),
            0b101 => assert!(matches!(got, CondInstr::B(_))),
            0b110 => assert!(matches!(got, CondInstr::CpTransf(_) | CondInstr::Unpred)),
            0b111 => assert!(matches!(got, CondInstr::CpDp | CondInstr::CpMov(_) | CondInstr::Swi)),
            _ => assert!(!matches!(
                got,
                CondInstr::Transf(_)
                    | CondInstr::TransfMult(_)
                    | CondInstr::B(_)
                    | CondInstr::CpTransf(_)
                    | CondInstr::CpDp
                    | CondInstr::CpMov(_)
                    | CondInstr::Swi
            )),
        }
    }
}

#[test]
fn unconditional_class_by_bits_27_to_25() {
    for word in words_of_all_keys(0xF000_0000) {
        let expected = if (word >> 25) & 7 == 0b101 {
            UnCondInstr::BlxImm
        } else {
            UnCondInstr::Undef
        };
        assert_eq!(Processor {}.decode_uncond(word), expected);
    }
}

fn name_of(class: CondInstr) -> &'static str {
    match class {
        CondInstr::Msr(_) => "Msr",
        CondInstr::Mrs(_) => "Mrs",
        CondInstr::B(_) => "B",
        CondInstr::QArith(_) => "QArith",
        CondInstr::DspMul(_) => "DspMul",
        CondInstr::Dp(_) => "Dp",
        CondInstr::Mul(_) => "Mul",
        CondInstr::Swp(_) => "Swp",
        CondInstr::Transf(_) => "Transf",
        CondInstr::TransfMisc(_) => "TransfMisc",
        CondInstr::TransfDouble(_) => "TransfDouble",
        CondInstr::TransfMult(_) => "TransfMult",
        CondInstr::CpMov(_) => "CpMov",
        CondInstr::CpTransf(_) => "CpTransf",
        CondInstr::Bx => "Bx",
        CondInstr::BlxReg => "BlxReg",
        CondInstr::Clz => "Clz",
        CondInstr::Bkpt => "Bkpt",
        CondInstr::CpDp => "CpDp",
        CondInstr::Swi => "Swi",
        CondInstr::Undef => "Undef",
        CondInstr::Unpred => "Unpred",
    }
}

#[test]
fn census_of_the_classes_over_all_keys() {
    let expected: [(&str, usize); 22] = [
        ("B", 512),
        ("Bkpt", 1),
        ("BlxReg", 1),
        ("Bx", 1),
        ("Clz", 1),
        ("CpDp", 128),
        ("CpMov", 128),
        ("CpTransf", 448),
        ("Dp", 816),
        ("DspMul", 16),
        ("Mrs", 2),
        ("Msr", 34),
        ("Mul", 12),
        ("QArith", 4),
        ("Swi", 256),
        ("Swp", 2),
        ("Transf", 768),
        ("TransfDouble", 24),
        ("TransfMisc", 48),
        ("TransfMult", 512),
        ("Undef", 294),
        ("Unpred", 88),
    ];
    let words = words_of_all_keys(0xE000_0000);
    for (name, count) in expected {
        let found = words.iter().filter(|word| name_of(class(**word)) == name).count();
        assert_eq!(found, count, "{}", name);
    }
}

#[test]
fn census_of_the_addressing_modes_over_all_keys() {
    let words = words_of_all_keys(0xE000_0000);
    let block = |mode: AdrMode4| {
        words.iter().filter(|w| matches!(class(**w), CondInstr::TransfMult(t) if t.adr_ty == mode)).count()
    };
    assert_eq!(block(AdrMode4::IA), 128);
    assert_eq!(block(AdrMode4::IB), 128);
    assert_eq!(block(AdrMode4::DA), 128);
    assert_eq!(block(AdrMode4::DB), 128);
    let coprocessor = |mode: AdrMode5| {
        words.iter().filter(|w| matches!(class(**w), CondInstr::CpTransf(t) if t.adr_ty == mode)).count()
    };
    assert_eq!(coprocessor(AdrMode5::Post), 128);
    assert_eq!(coprocessor(AdrMode5::Unindexed), 64);
    assert_eq!(coprocessor(AdrMode5::Pre), 128);
    assert_eq!(coprocessor(AdrMode5::Offset), 128);
    let single = |mode: AdrModeTy| {
        words.iter().filter(|w| matches!(class(**w), CondInstr::Transf(t) if t.adr_ty == mode)).count()
    };
    assert_eq!(single(AdrModeTy::Post), 384);
    assert_eq!(single(AdrModeTy::Pre), 192);
    assert_eq!(single(AdrModeTy::Offset), 192);
}

#[test]
fn unpredictable_words() {
    for word in words_of_all_keys(0xE000_0000) {
        let p = word & (1 << 24) != 0;
        let u = word & (1 << 23) != 0;
        let w = word & (1 << 21) != 0;
        let extra = is_mul_extra(word) && (word >> 4) & 0xF != 0b1001 && p && w;
        let coprocessor = (word >> 25) & 7 == 0b110 && !p && !w && !u;
        assert_eq!(class(word) == CondInstr::Unpred, extra || coprocessor);
    }
}
