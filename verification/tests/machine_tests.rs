use superopt::machine::{
    add_to_reg8, decimal_adjust, get_a, get_b, get_x, get_y, i8080, i8085, iz80, mos6502,
    mos65c02, motorola6800, pic12, pic14, pic16, rotate_left_thru_carry, rotate_right_thru_carry,
    set_a, set_b, set_x, set_y, z80, AddressingMode, Instruction, Op, State,
};

#[test]
fn add_to_reg8_test() {
    assert_eq!(
        add_to_reg8(Some(3), Some(3)),
        (
            Some(6),
            Some(false),
            Some(false),
            Some(false),
            Some(false),
            Some(false)
        )
    );
    assert_eq!(
        add_to_reg8(Some(127), Some(1)),
        (
            Some(-128),
            Some(true),
            Some(false),
            Some(true),
            Some(true),
            Some(true)
        )
    );
    assert_eq!(add_to_reg8(None, Some(3)), (None, None, None, None, None, None));
}

#[test]
fn add_wrapped_signed_overflow() {
    // 127 + 1 wraps to -128: carry set, zero clear, sign set, overflow set.
    let (result, c, z, n, o, _h) = add_to_reg8(Some(127), Some(1));
    assert_eq!(result, Some(-128));
    assert_eq!(c, Some(true));
    assert_eq!(z, Some(false));
    assert_eq!(n, Some(true));
    assert_eq!(o, Some(true));
}

#[test]
fn add_flag_formulas_on_known_operands() {
    for &(a, b) in &[
        (0i8, 0i8),
        (1, -1),
        (-128, -128),
        (-1, -1),
        (100, 27),
        (100, 28),
        (-100, -29),
        (8, 8),
        (15, 1),
    ] {
        let (result, c, z, n, o, h) = add_to_reg8(Some(a), Some(b));
        let wide = a as i16 + b as i16;
        let wrapped = wide as i8;
        assert_eq!(result, Some(wrapped));
        assert_eq!(c, Some(wide > 127 || wide < -128));
        assert_eq!(z, Some(wrapped == 0));
        assert_eq!(n, Some(wrapped < 0));
        assert_eq!(
            o,
            Some((a < 0 && b < 0 && wrapped >= 0) || (a > 0 && b > 0 && wrapped <= 0))
        );
        assert_eq!(h, Some((a ^ b ^ wrapped) & 0x10 == 0x10));
    }
}

#[test]
fn add_unknown_operand_unknowns_everything() {
    assert_eq!(add_to_reg8(None, Some(7)), (None, None, None, None, None, None));
    assert_eq!(add_to_reg8(Some(7), None), (None, None, None, None, None, None));
    assert_eq!(add_to_reg8(None, None), (None, None, None, None, None, None));
}

#[test]
fn rotate_round_trip_restores_value_and_carry() {
    for v in i8::MIN..=i8::MAX {
        for &c in &[false, true] {
            let (r1, c1) = rotate_left_thru_carry(Some(v), Some(c));
            let (r2, c2) = rotate_right_thru_carry(r1, c1);
            assert_eq!(r2, Some(v));
            assert_eq!(c2, Some(c));
        }
    }
}

#[test]
fn rotate_left_known_values() {
    // 0b0000_0011 rotated left with carry set: 0b0000_0111, carry out clear.
    assert_eq!(
        rotate_left_thru_carry(Some(3), Some(true)),
        (Some(7), Some(false))
    );
    // Bit 7 set shifts out into the carry.
    assert_eq!(
        rotate_left_thru_carry(Some(-128), Some(false)),
        (Some(0), Some(true))
    );
}

#[test]
fn rotate_right_known_values() {
    // 0b0000_0100 rotated right, carry clear: 0b0000_0010, carry out clear.
    assert_eq!(
        rotate_right_thru_carry(Some(4), Some(false)),
        (Some(2), Some(false))
    );
    // The low bit shifts out into the carry; nothing wraps around.
    assert_eq!(
        rotate_right_thru_carry(Some(1), Some(false)),
        (Some(0), Some(true))
    );
    // The carry-in becomes bit 7.
    assert_eq!(
        rotate_right_thru_carry(Some(4), Some(true)),
        (Some(-126), Some(false))
    );
}

#[test]
fn rotate_unknown_inputs() {
    assert_eq!(rotate_left_thru_carry(None, Some(true)), (None, None));
    assert_eq!(rotate_left_thru_carry(Some(1), None), (None, None));
    assert_eq!(rotate_right_thru_carry(None, None), (None, None));
}

#[test]
fn decimal_adjust_known_values() {
    // No nybble needs correction.
    assert_eq!(decimal_adjust(Some(0x15), Some(false), Some(false)), Some(0x15));
    // Low nybble above 9 gains 6.
    assert_eq!(decimal_adjust(Some(0x0a), Some(false), Some(false)), Some(0x10));
    // Half-carry forces the low correction.
    assert_eq!(decimal_adjust(Some(0x02), Some(false), Some(true)), Some(0x08));
}

#[test]
fn decimal_adjust_unknown_inputs() {
    assert_eq!(decimal_adjust(None, Some(false), Some(false)), None);
    assert_eq!(decimal_adjust(Some(1), None, Some(false)), None);
    assert_eq!(decimal_adjust(Some(1), Some(false), None), None);
    // Even when the low nybble alone would force a correction, an unknown
    // flag makes the whole result unknown.
    assert_eq!(decimal_adjust(Some(0x1a), Some(false), None), None);
}

#[test]
fn vectorize_immediate_template_in_pool_order() {
    let template = Instruction::imm("add", Op::Add);
    let mut prog = Vec::new();
    template.vectorize(&mut prog, &[1, 2, 3], &[]);
    assert_eq!(prog.len(), 3);
    for (k, ins) in prog.iter().enumerate() {
        assert_eq!(ins.opname, "add");
        assert_eq!(ins.operation, Op::Add);
        assert_eq!(ins.src, AddressingMode::Immediate((k + 1) as i8));
        assert_eq!(ins.dst, AddressingMode::Immediate((k + 1) as i8));
    }
}

#[test]
fn vectorize_implicit_template_unchanged() {
    let template = Instruction::inh("clc", Op::Clc);
    let mut prog = Vec::new();
    template.vectorize(&mut prog, &[1, 2, 3], &[10, 20]);
    assert_eq!(prog.len(), 1);
    assert_eq!(prog[0], template);
}

#[test]
fn vectorize_absolute_template_over_address_pool() {
    let template = Instruction::abs("lda", Op::Lda);
    let mut prog = Vec::new();
    template.vectorize(&mut prog, &[1], &[100, 200]);
    assert_eq!(prog.len(), 2);
    assert_eq!(prog[0].src, AddressingMode::Absolute(100));
    assert_eq!(prog[1].src, AddressingMode::Absolute(200));
    assert_eq!(prog[1].opname, "lda");
}

#[test]
fn unwritten_address_reads_unknown() {
    let lda = Instruction {
        opname: "lda",
        operation: Op::Lda,
        src: AddressingMode::Absolute(1234),
        dst: AddressingMode::Absolute(1234),
    };
    let mut s = State::new();
    set_a(&mut s, 55);
    let cont = lda.execute(&mut s);
    assert!(cont);
    assert_eq!(get_a(&s), None);
}

#[test]
fn memory_write_then_read_back() {
    let sta = Instruction {
        opname: "sta",
        operation: Op::Sta,
        src: AddressingMode::Absolute(100),
        dst: AddressingMode::Absolute(100),
    };
    let lda = Instruction {
        opname: "lda",
        operation: Op::Lda,
        src: AddressingMode::Absolute(100),
        dst: AddressingMode::Absolute(100),
    };
    let mut s = State::new();
    set_a(&mut s, 5);
    assert!(sta.execute(&mut s));
    set_a(&mut s, 9);
    assert!(lda.execute(&mut s));
    assert_eq!(get_a(&s), Some(5));
}

#[test]
fn store_zero_writes_a_known_zero() {
    let stz = Instruction {
        opname: "stz",
        operation: Op::Stz,
        src: AddressingMode::Absolute(7),
        dst: AddressingMode::Absolute(7),
    };
    let lda = Instruction {
        opname: "lda",
        operation: Op::Lda,
        src: AddressingMode::Absolute(7),
        dst: AddressingMode::Absolute(7),
    };
    let mut s = State::new();
    assert!(stz.execute(&mut s));
    assert!(lda.execute(&mut s));
    assert_eq!(get_a(&s), Some(0));
}

#[test]
fn transfers_copy_without_flags() {
    let tab = Instruction::inh("tab", Op::Tab);
    let tax = Instruction::inh("tax", Op::Tax);
    let tay = Instruction::inh("tay", Op::Tay);
    let mut s = State::new();
    set_a(&mut s, -7);
    assert!(tab.execute(&mut s));
    assert!(tax.execute(&mut s));
    assert!(tay.execute(&mut s));
    assert_eq!(get_b(&s), Some(-7));
    assert_eq!(get_x(&s), Some(-7));
    assert_eq!(get_y(&s), Some(-7));
}

#[test]
fn increments_touch_only_zero_and_sign() {
    let inx = Instruction::inh("inx", Op::Inx);
    let mut s = State::new();
    set_x(&mut s, -1);
    assert!(inx.execute(&mut s));
    assert_eq!(get_x(&s), Some(0));
    // Carry was never set by anything, and inx must not set it.
    let sec = Instruction::inh("sec", Op::Sec);
    let rol = Instruction::inh("rol", Op::Rol);
    set_a(&mut s, 1);
    // Without a known carry, rol yields unknown: proves inx left carry unknown.
    assert!(rol.execute(&mut s));
    assert_eq!(get_a(&s), None);
    // After sec the carry is known and rol resolves.
    set_a(&mut s, 1);
    assert!(sec.execute(&mut s));
    assert!(rol.execute(&mut s));
    assert_eq!(get_a(&s), Some(3));
}

#[test]
fn increment_of_unknown_register_stays_unknown() {
    let iny = Instruction::inh("iny", Op::Iny);
    let mut s = State::new();
    assert!(iny.execute(&mut s));
    assert_eq!(get_y(&s), None);
}

#[test]
fn randomize_draws_from_pools() {
    let mut imm = Instruction::imm("add", Op::Add);
    imm.randomize(vec![42], vec![]);
    assert_eq!(imm.src, AddressingMode::Immediate(42));
    assert_eq!(imm.dst, AddressingMode::Immediate(0));

    let mut abs = Instruction::abs("lda", Op::Lda);
    abs.randomize(vec![], vec![777]);
    assert_eq!(abs.src, AddressingMode::Absolute(777));

    let mut inh = Instruction::inh("clc", Op::Clc);
    inh.randomize(vec![1], vec![2]);
    assert_eq!(inh.src, AddressingMode::Implicit);
}

#[test]
fn randomize_with_empty_pool_still_immediate() {
    let mut imm = Instruction::imm("add", Op::Add);
    imm.randomize(vec![], vec![]);
    assert!(matches!(imm.src, AddressingMode::Immediate(_)));
}

#[test]
fn architecture_tables() {
    let m6800 = motorola6800();
    assert_eq!(m6800.len(), 10);
    assert_eq!(m6800[0].opname, "aba");
    assert_eq!(m6800[0].operation, Op::Aba);
    assert_eq!(m6800[1].src, AddressingMode::Immediate(0));

    let m6502 = mos6502();
    assert_eq!(m6502.len(), 20);
    assert_eq!(m6502[0].opname, "inx");

    let m65c02 = mos65c02();
    assert_eq!(m65c02.len(), 23);
    assert_eq!(m65c02[0].opname, "ina");
    assert_eq!(m65c02[1].opname, "dea");
    assert_eq!(m65c02[2].opname, "stz");
    assert_eq!(m65c02[3..], m6502[..]);

    assert!(z80().is_empty());
    assert!(i8080().is_empty());
    assert!(i8085().is_empty());
    assert!(iz80().is_empty());

    let p12 = pic12();
    assert_eq!(p12.len(), 1);
    assert_eq!(p12[0].opname, "clrf");
    assert_eq!(pic14(), p12);
    assert_eq!(pic16(), p12);
}

#[test]
fn aba_sets_carry_observable_through_rol() {
    let aba = Instruction::inh("aba", Op::Aba);
    let rol = Instruction::inh("rol", Op::Rol);
    let mut s = State::new();
    set_a(&mut s, 127);
    set_b(&mut s, 1);
    assert!(aba.execute(&mut s));
    assert_eq!(get_a(&s), Some(-128));
    // The overflowing addition set the carry; rotating 0b1000_0000 left
    // through a set carry yields 1.
    assert!(rol.execute(&mut s));
    assert_eq!(get_a(&s), Some(1));
}

#[test]
fn clc_and_sec_force_the_carry() {
    let clc = Instruction::inh("clc", Op::Clc);
    let sec = Instruction::inh("sec", Op::Sec);
    let rol = Instruction::inh("rol", Op::Rol);
    let mut s = State::new();
    set_a(&mut s, 1);
    assert!(clc.execute(&mut s));
    assert!(rol.execute(&mut s));
    assert_eq!(get_a(&s), Some(2));
    assert!(sec.execute(&mut s));
    assert!(rol.execute(&mut s));
    assert_eq!(get_a(&s), Some(5));
}

#[test]
fn shifts_use_a_fixed_clear_carry() {
    let asl = Instruction::inh("asla", Op::Asl);
    let lsr = Instruction::inh("lsr", Op::Lsr);
    let mut s = State::new();
    // Shifts resolve even while the carry flag is unknown.
    set_a(&mut s, 3);
    assert!(asl.execute(&mut s));
    assert_eq!(get_a(&s), Some(6));
    assert!(lsr.execute(&mut s));
    assert_eq!(get_a(&s), Some(3));
}

#[test]
fn fresh_state_is_all_unknown() {
    let s = State::new();
    assert_eq!(get_a(&s), None);
    assert_eq!(get_b(&s), None);
    assert_eq!(get_x(&s), None);
    assert_eq!(get_y(&s), None);
}

#[test]
fn setters_and_getters() {
    let mut s = State::new();
    set_a(&mut s, 1);
    set_b(&mut s, 2);
    set_x(&mut s, 3);
    set_y(&mut s, 4);
    assert_eq!(get_a(&s), Some(1));
    assert_eq!(get_b(&s), Some(2));
    assert_eq!(get_x(&s), Some(3));
    assert_eq!(get_y(&s), Some(4));
}
