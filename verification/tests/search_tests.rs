use superopt::machine::{motorola6800, Instruction, Op, Reg};
use superopt::search::{equivalence, exhaustive_search, Schema};

fn add_schema() -> Schema {
    Schema::new(vec![Reg::A, Reg::B], vec![Reg::A])
}

#[test]
fn equivalence_accepts_correct_program() {
    let prog = vec![Instruction::inh("aba", Op::Aba)];
    let schema = add_schema();
    let cases = vec![(vec![3, 4], vec![7]), (vec![10, 20], vec![30]), (vec![-1, 1], vec![0])];
    assert!(equivalence(&prog, &schema, &cases));
}

#[test]
fn equivalence_rejects_on_first_mismatch() {
    let prog = vec![Instruction::inh("aba", Op::Aba)];
    let schema = add_schema();
    // The very first case already mismatches; later cases would pass.
    let cases = vec![(vec![3, 4], vec![8]), (vec![1, 1], vec![2])];
    assert!(!equivalence(&prog, &schema, &cases));
}

#[test]
fn equivalence_unknown_output_never_matches() {
    // The empty program leaves X unknown; an unknown actual output must not
    // match any expected value.
    let prog: Vec<Instruction> = vec![];
    let schema = Schema::new(vec![Reg::A], vec![Reg::X]);
    let cases = vec![(vec![5], vec![0])];
    assert!(!equivalence(&prog, &schema, &cases));
}

#[test]
fn search_finds_single_add_instruction() {
    let schema = add_schema();
    let cases = vec![(vec![3, 4], vec![7])];
    let found = exhaustive_search(
        |v: &Vec<Instruction>| equivalence(v, &schema, &cases),
        motorola6800(),
        vec![],
        vec![],
    );
    let prog = found.expect("a one-instruction solution exists");
    assert_eq!(prog.len(), 1);
    assert_eq!(prog[0].opname, "aba");
    assert_eq!(prog[0].operation, Op::Aba);
}

#[test]
fn search_exhausts_ceiling_without_solution() {
    // Register transfers and carry writes can never move the accumulator off
    // its live-in value of 3 or 4, so no program over this alphabet reaches
    // 8 and the search comes back empty after exhausting the length ceiling.
    let alphabet = vec![
        Instruction::inh("tab", Op::Tab),
        Instruction::inh("tba", Op::Tba),
        Instruction::inh("clc", Op::Clc),
        Instruction::inh("sec", Op::Sec),
    ];
    let schema = add_schema();
    let cases = vec![(vec![3, 4], vec![8])];
    let found = exhaustive_search(
        |v: &Vec<Instruction>| equivalence(v, &schema, &cases),
        alphabet,
        vec![],
        vec![],
    );
    assert!(found.is_none());
}

#[test]
fn search_over_empty_table_finds_nothing() {
    let schema = add_schema();
    let cases = vec![(vec![3, 4], vec![7])];
    let found = exhaustive_search(
        |v: &Vec<Instruction>| equivalence(v, &schema, &cases),
        superopt::machine::z80(),
        vec![],
        vec![],
    );
    assert!(found.is_none());
}

#[test]
fn search_uses_constant_pool_for_immediates() {
    // Loading nothing: the 6800 immediate add must pick the right constant
    // from the pool to turn 3 into 10.
    let schema = Schema::new(vec![Reg::A], vec![Reg::A]);
    let cases = vec![(vec![3], vec![10])];
    let found = exhaustive_search(
        |v: &Vec<Instruction>| equivalence(v, &schema, &cases),
        motorola6800(),
        vec![5, 7],
        vec![],
    );
    let prog = found.expect("add #7 solves this");
    assert_eq!(prog.len(), 1);
    assert_eq!(prog[0].opname, "add");
    assert_eq!(
        prog[0].src,
        superopt::machine::AddressingMode::Immediate(7)
    );
}

#[test]
fn search_finds_longer_program_when_needed() {
    // 8 is reachable from (3, 4) only by first equalising the registers:
    // tba; aba computes 4 + 4.
    let schema = add_schema();
    let cases = vec![(vec![3, 4], vec![8])];
    let found = exhaustive_search(
        |v: &Vec<Instruction>| equivalence(v, &schema, &cases),
        motorola6800(),
        vec![],
        vec![],
    );
    let prog = found.expect("a two-instruction solution exists");
    assert_eq!(prog.len(), 2);
    assert!(equivalence(&prog, &schema, &cases));
}

#[test]
fn search_crosses_registers_at_length_two() {
    // No single 65C02 instruction maps accumulator 5 to X = 6, so the search
    // must move to length two.
    let schema = Schema::new(vec![Reg::A], vec![Reg::X]);
    let cases = vec![(vec![5], vec![6]), (vec![-1], vec![0])];
    let found = exhaustive_search(
        |v: &Vec<Instruction>| equivalence(v, &schema, &cases),
        superopt::machine::mos65c02(),
        vec![],
        vec![],
    );
    let prog = found.expect("ina; tax solves this");
    assert_eq!(prog.len(), 2);
    assert!(equivalence(&prog, &schema, &cases));
}

#[test]
fn schema_new_keeps_lists() {
    let schema = Schema::new(vec![Reg::A, Reg::B], vec![Reg::X, Reg::Y]);
    assert_eq!(schema.live_in, vec![Reg::A, Reg::B]);
    assert_eq!(schema.live_out, vec![Reg::X, Reg::Y]);
}
