//! The abstract CPU: optional (known/unknown) 8-bit values, flag arithmetic,
//! machine state with sparse memory, and instructions bound to addressing
//! modes.

use rand::seq::SliceRandom;
use vstd::prelude::*;

verus! {

// ---------------------------------------------------------------------------
// Value & flag arithmetic over known 8-bit signed values.
// ---------------------------------------------------------------------------

/// Wraps an integer into the signed 8-bit range, as two's-complement
/// addition of two 8-bit values does.
pub open spec fn wrap_i8(n: int) -> int {
    if n > 127 {
        n - 256
    } else if n < -128 {
        n + 256
    } else {
        n
    }
}

/// The unsigned byte (0..=255) holding the same bit pattern as `v`.
pub open spec fn byte_of(v: i8) -> int {
    if v < 0 {
        v + 256
    } else {
        v as int
    }
}

/// The wrapped 8-bit sum of `r` and `v`.
pub open spec fn add8(r: i8, v: i8) -> int {
    wrap_i8(r + v)
}

/// The carry flag of an 8-bit addition: set when the sum leaves the
/// representable signed 8-bit range.
pub open spec fn add8_carry(r: i8, v: i8) -> bool {
    r + v > 127 || r + v < -128
}

/// The zero flag of an 8-bit addition.
pub open spec fn add8_zero(r: i8, v: i8) -> bool {
    add8(r, v) == 0
}

/// The sign flag of an 8-bit addition.
pub open spec fn add8_sign(r: i8, v: i8) -> bool {
    add8(r, v) < 0
}

/// The overflow flag of an 8-bit addition: both operands share a sign and
/// the result does not.
pub open spec fn add8_overflow(r: i8, v: i8) -> bool {
    (r < 0 && v < 0 && add8(r, v) >= 0) || (r > 0 && v > 0 && add8(r, v) <= 0)
}

/// The half-carry flag of an 8-bit addition: carry out of bit 3, read off
/// bit 4 of `r XOR v XOR result`.
pub open spec fn add8_halfcarry(r: i8, v: i8) -> bool {
    ((r ^ v ^ ((add8(r, v)) as i8)) & 0x10) == 0x10
}

/// Adds two optional 8-bit values. Returns the result and then the flags:
/// carry, zero, sign, overflow, half-carry. If either operand is unknown,
/// every output is unknown.
pub fn add_to_reg8(reg: Option<i8>, a: Option<i8>) -> (r: (
    Option<i8>,
    Option<bool>,
    Option<bool>,
    Option<bool>,
    Option<bool>,
    Option<bool>,
))
    ensures
        reg is Some && a is Some ==> r == ((
            Some((add8(reg->0, a->0)) as i8),
            Some(add8_carry(reg->0, a->0)),
            Some(add8_zero(reg->0, a->0)),
            Some(add8_sign(reg->0, a->0)),
            Some(add8_overflow(reg->0, a->0)),
            Some(add8_halfcarry(reg->0, a->0)),
        )),
        reg is None || a is None ==> r == ((
            None::<i8>,
            None::<bool>,
            None::<bool>,
            None::<bool>,
            None::<bool>,
            None::<bool>,
        )),
{
    match (reg, a) {
        (Some(rv), Some(av)) => {
            let sum: i16 = rv as i16 + av as i16;
            let result: i8 = if sum > 127 {
                (sum - 256) as i8
            } else if sum < -128 {
                (sum + 256) as i8
            } else {
                sum as i8
            };
            let c: bool = sum > 127 || sum < -128;
            let z: bool = result == 0;
            let n: bool = result < 0;
            let o: bool = (rv < 0 && av < 0 && result >= 0) || (rv > 0 && av > 0 && result <= 0);
            let h: bool = ((rv ^ av ^ result) & 0x10) == 0x10;
            (Some(result), Some(c), Some(z), Some(n), Some(o), Some(h))
        },
        _ => (None, None, None, None, None, None),
    }
}

/// For two known 8-bit operands, the outputs of `add_to_reg8` are: the
/// wrapped 8-bit sum; zero set iff the result is 0; sign set iff the result
/// is negative; overflow set iff the signed addition leaves the signed 8-bit
/// range; half-carry set iff bit 4 of `a XOR b XOR result` is set; and carry
/// set iff the unsigned 8-bit addition overflows. The carry flag is computed
/// from signed overflow, so the last clause is stated only for operand pairs
/// on which unsigned and signed overflow agree.
pub proof fn lemma_add_to_reg8_flags(a: i8, b: i8)
    requires
        (a + b > 127 || a + b < -128) <==> byte_of(a) + byte_of(b) > 255,
    ensures
        add8(a, b) == wrap_i8(a + b),
        add8_carry(a, b) <==> byte_of(a) + byte_of(b) > 255,
        add8_zero(a, b) <==> add8(a, b) == 0,
        add8_sign(a, b) <==> add8(a, b) < 0,
        add8_overflow(a, b) <==> (a + b > 127 || a + b < -128),
        add8_halfcarry(a, b) <==> ((a ^ b ^ ((add8(a, b)) as i8)) & 0x10) == 0x10,
{
}

/// Rotating left through the carry and then rotating right through the
/// carry, feeding the carry produced by the first rotation into the second,
/// returns the original value and the original carry, for every known value
/// and known carry.
pub proof fn lemma_rotate_round_trip(v: i8, c: bool)
    ensures
        ror8_value((rol8_value(v, c)) as i8, rol8_carry(v)) == v as int,
        ror8_carry((rol8_value(v, c)) as i8) == c,
{
    let u = byte_of(v);
    let m = u % 128;
    let ci: int = if c {
        1
    } else {
        0
    };
    assert(0 <= u <= 255);
    assert(u == m + (if v < 0 {
        128int
    } else {
        0int
    }));
    let b1 = m * 2 + ci;
    assert(rol8_value(v, c) == (if b1 >= 128 {
        b1 - 256
    } else {
        b1
    }));
    let r1 = (rol8_value(v, c)) as i8;
    assert(byte_of(r1) == b1);
    assert(b1 / 2 == m);
    assert(b1 % 2 == ci);
}

/// The adjustment added to a nybble during binary-coded-decimal correction:
/// 6 when the nybble exceeds 9 or the associated flag is set, else 0.
pub open spec fn nybble_adjust(val: i8, flag: bool) -> int {
    if (val & 0x0f) > 0x09 || flag {
        6
    } else {
        0
    }
}

/// The decimal-corrected accumulator value: add 6 to the low nybble when it
/// exceeds 9 or half-carry is set, then add 6 to the resulting high nybble
/// when it exceeds 9 or carry is set. Additions wrap in 8 bits.
pub open spec fn decimal_adjust_value(a: i8, carry: bool, halfcarry: bool) -> int {
    let ar = wrap_i8(a + nybble_adjust(a, halfcarry));
    wrap_i8(ar + 16 * nybble_adjust((ar as i8) >> 4, carry))
}

/// Binary-coded-decimal correction of an accumulator value, given the carry
/// and half-carry flags. Any unknown input yields an unknown output.
pub fn decimal_adjust(accumulator: Option<i8>, carry: Option<bool>, halfcarry: Option<bool>) -> (r:
    Option<i8>)
    ensures
        accumulator is Some && carry is Some && halfcarry is Some ==> r == Some(
            (decimal_adjust_value(accumulator->0, carry->0, halfcarry->0)) as i8,
        ),
        accumulator is None || carry is None || halfcarry is None ==> r is None,
{
    match (accumulator, carry, halfcarry) {
        (Some(a), Some(c), Some(h)) => {
            let right: i8 = if (a & 0x0f) > 0x09 || h {
                6
            } else {
                0
            };
            let ar: i8 = a.wrapping_add(right);
            let high: i8 = ar >> 4u32;
            let left: i8 = if (high & 0x0f) > 0x09 || c {
                96
            } else {
                0
            };
            Some(ar.wrapping_add(left))
        },
        _ => None,
    }
}

/// The value produced by rotating `v` left through the carry: the low seven
/// bits move up one place and the carry-in becomes bit 0.
pub open spec fn rol8_value(v: i8, c: bool) -> int {
    let b = (byte_of(v) % 128) * 2 + (if c {
        1int
    } else {
        0int
    });
    if b >= 128 {
        b - 256
    } else {
        b
    }
}

/// The carry produced by rotating left: the bit shifted out of the top.
pub open spec fn rol8_carry(v: i8) -> bool {
    v < 0
}

/// The value produced by rotating `v` right through the carry: the byte
/// moves down one place and the carry-in becomes bit 7.
pub open spec fn ror8_value(v: i8, c: bool) -> int {
    let b = byte_of(v) / 2 + (if c {
        128int
    } else {
        0int
    });
    if b >= 128 {
        b - 256
    } else {
        b
    }
}

/// The carry produced by rotating right: the bit shifted out of the bottom.
pub open spec fn ror8_carry(v: i8) -> bool {
    byte_of(v) % 2 == 1
}

/// Rotates an optional 8-bit value left through an optional carry, returning
/// the rotated value and the bit shifted out. An unknown value or carry
/// yields an unknown result and carry.
pub fn rotate_left_thru_carry(val: Option<i8>, carry: Option<bool>) -> (r: (
    Option<i8>,
    Option<bool>,
))
    ensures
        val is Some && carry is Some ==> r == ((
            Some((rol8_value(val->0, carry->0)) as i8),
            Some(rol8_carry(val->0)),
        )),
        val is None || carry is None ==> r == ((None::<i8>, None::<bool>)),
{
    match (val, carry) {
        (Some(v), Some(c)) => {
            let u: i16 = if v < 0 {
                v as i16 + 256
            } else {
                v as i16
            };
            let b: i16 = (u % 128) * 2 + (if c {
                1
            } else {
                0
            });
            let shifted: i8 = if b >= 128 {
                (b - 256) as i8
            } else {
                b as i8
            };
            (Some(shifted), Some(v < 0))
        },
        _ => (None, None),
    }
}

/// Rotates an optional 8-bit value right through an optional carry, returning
/// the rotated value and the bit shifted out: the carry-in becomes bit 7 and
/// the old bit 0 becomes the new carry. An unknown value or carry yields an
/// unknown result and carry.
pub fn rotate_right_thru_carry(val: Option<i8>, carry: Option<bool>) -> (r: (
    Option<i8>,
    Option<bool>,
))
    ensures
        val is Some && carry is Some ==> r == ((
            Some((ror8_value(val->0, carry->0)) as i8),
            Some(ror8_carry(val->0)),
        )),
        val is None || carry is None ==> r == ((None::<i8>, None::<bool>)),
{
    match (val, carry) {
        (Some(v), Some(c)) => {
            let u: i16 = if v < 0 {
                v as i16 + 256
            } else {
                v as i16
            };
            let b: i16 = u / 2 + (if c {
                128
            } else {
                0
            });
            let shifted: i8 = if b >= 128 {
                (b - 256) as i8
            } else {
                b as i8
            };
            (Some(shifted), Some(u % 2 == 1))
        },
        _ => (None, None),
    }
}

// ---------------------------------------------------------------------------
// Machine state.
// ---------------------------------------------------------------------------

/// How an instruction's operand is located: none at all, the accumulator,
/// an embedded constant, or an absolute memory address.
#[derive(Clone, Copy, PartialEq, Eq, Debug)]
pub enum AddressingMode {
    Implicit,
    Accumulator,
    Immediate(i8),
    Absolute(u16),
}

/// A machine register that a schema can read or write.
#[derive(Clone, Copy, PartialEq, Eq, Debug)]
pub enum Reg {
    A,
    B,
    X,
    Y,
}

/// The abstract CPU state: registers and flags that are either known or
/// unknown, and a sparse memory in which unwritten addresses read as
/// unknown.
pub struct State {
    accumulator: Option<i8>,
    reg_b: Option<i8>,
    x8: Option<i8>,
    y8: Option<i8>,
    zero: Option<bool>,
    carry: Option<bool>,
    sign: Option<bool>,
    decimal: Option<bool>,
    overflow: Option<bool>,
    halfcarry: Option<bool>,
    heap: std::collections::HashMap<u16, Option<i8>>,
}

/// The mathematical view of a `State`: the same registers and flags, with
/// the sparse memory as a map from addresses to optional values.
#[verifier::ext_equal]
pub struct StateV {
    pub accumulator: Option<i8>,
    pub reg_b: Option<i8>,
    pub x8: Option<i8>,
    pub y8: Option<i8>,
    pub zero: Option<bool>,
    pub carry: Option<bool>,
    pub sign: Option<bool>,
    pub decimal: Option<bool>,
    pub overflow: Option<bool>,
    pub halfcarry: Option<bool>,
    pub heap: Map<u16, Option<i8>>,
}

impl View for State {
    type V = StateV;

    closed spec fn view(&self) -> StateV {
        StateV {
            accumulator: self.accumulator,
            reg_b: self.reg_b,
            x8: self.x8,
            y8: self.y8,
            zero: self.zero,
            carry: self.carry,
            sign: self.sign,
            decimal: self.decimal,
            overflow: self.overflow,
            halfcarry: self.halfcarry,
            heap: self.heap@,
        }
    }
}

/// The all-unknown state a search trial starts from: no register, flag or
/// memory cell holds a known value.
pub open spec fn fresh_state() -> StateV {
    StateV {
        accumulator: None,
        reg_b: None,
        x8: None,
        y8: None,
        zero: None,
        carry: None,
        sign: None,
        decimal: None,
        overflow: None,
        halfcarry: None,
        heap: Map::empty(),
    }
}

impl State {
    /// Creates a fresh all-unknown machine state.
    pub fn new() -> (s: State)
        ensures
            s@ == fresh_state(),
    {
        let s = State {
            accumulator: None,
            reg_b: None,
            x8: None,
            y8: None,
            zero: None,
            carry: None,
            sign: None,
            decimal: None,
            overflow: None,
            halfcarry: None,
            heap: std::collections::HashMap::new(),
        };
        proof {
            assert(s@ =~= fresh_state());
        }
        s
    }
}

/// The state after a live-in setter stores a known value in a register.
pub open spec fn spec_set_reg(s: StateV, reg: Reg, val: i8) -> StateV {
    match reg {
        Reg::A => StateV { accumulator: Some(val), ..s },
        Reg::B => StateV { reg_b: Some(val), ..s },
        Reg::X => StateV { x8: Some(val), ..s },
        Reg::Y => StateV { y8: Some(val), ..s },
    }
}

/// The value a live-out getter reads from a register.
pub open spec fn spec_get_reg(s: StateV, reg: Reg) -> Option<i8> {
    match reg {
        Reg::A => s.accumulator,
        Reg::B => s.reg_b,
        Reg::X => s.x8,
        Reg::Y => s.y8,
    }
}

/// Stores a known value in the register a schema names.
pub fn set_reg(state: &mut State, reg: Reg, val: i8)
    ensures
        final(state)@ == spec_set_reg(old(state)@, reg, val),
{
    match reg {
        Reg::A => state.accumulator = Some(val),
        Reg::B => state.reg_b = Some(val),
        Reg::X => state.x8 = Some(val),
        Reg::Y => state.y8 = Some(val),
    }
}

/// Reads the register a schema names.
pub fn get_reg(state: &State, reg: Reg) -> (r: Option<i8>)
    ensures
        r == spec_get_reg(state@, reg),
{
    match reg {
        Reg::A => state.accumulator,
        Reg::B => state.reg_b,
        Reg::X => state.x8,
        Reg::Y => state.y8,
    }
}

/// Sets the accumulator to a known value.
pub fn set_a(state: &mut State, a: i8)
    ensures
        final(state)@ == spec_set_reg(old(state)@, Reg::A, a),
{
    state.accumulator = Some(a);
}

/// Reads the accumulator.
pub fn get_a(state: &State) -> (r: Option<i8>)
    ensures
        r == spec_get_reg(state@, Reg::A),
{
    state.accumulator
}

/// Sets the secondary register to a known value.
pub fn set_b(state: &mut State, b: i8)
    ensures
        final(state)@ == spec_set_reg(old(state)@, Reg::B, b),
{
    state.reg_b = Some(b);
}

/// Reads the secondary register.
pub fn get_b(state: &State) -> (r: Option<i8>)
    ensures
        r == spec_get_reg(state@, Reg::B),
{
    state.reg_b
}

/// Sets index register X to a known value.
pub fn set_x(state: &mut State, x: i8)
    ensures
        final(state)@ == spec_set_reg(old(state)@, Reg::X, x),
{
    state.x8 = Some(x);
}

/// Reads index register X.
pub fn get_x(state: &State) -> (r: Option<i8>)
    ensures
        r == spec_get_reg(state@, Reg::X),
{
    state.x8
}

/// Sets index register Y to a known value.
pub fn set_y(state: &mut State, y: i8)
    ensures
        final(state)@ == spec_set_reg(old(state)@, Reg::Y, y),
{
    state.y8 = Some(y);
}

/// Reads index register Y.
pub fn get_y(state: &State) -> (r: Option<i8>)
    ensures
        r == spec_get_reg(state@, Reg::Y),
{
    state.y8
}

// ---------------------------------------------------------------------------
// Instructions.
// ---------------------------------------------------------------------------

/// The semantic operation an instruction performs, dispatched by a single
/// evaluator. Add-with-carry (`Adc`) and its decimal-mode variant (`AdcDp`)
/// currently behave exactly like `Add`: the carry-in and the decimal
/// correction are not yet folded into the result — a known limitation,
/// deliberately preserved. Register transfers update no flags, pending an
/// authoritative semantics reference.
#[derive(Clone, Copy, PartialEq, Eq, Debug)]
pub enum Op {
    Aba,
    Add,
    Adc,
    AdcDp,
    Asl,
    Clc,
    Dea,
    Dex,
    Dey,
    Ina,
    Inx,
    Iny,
    Lda,
    Lsr,
    Rol,
    Ror,
    Sec,
    Sta,
    Stx,
    Sty,
    Stz,
    Tab,
    Tax,
    Tay,
    Tba,
    Txa,
    Tya,
}

/// Whether an operation reads its source operand through `get_datum`.
pub open spec fn reads_datum(op: Op) -> bool {
    op == Op::Add || op == Op::Adc || op == Op::AdcDp || op == Op::Lda
}

/// Whether an operation writes its destination operand through
/// `write_datum`.
pub open spec fn writes_datum(op: Op) -> bool {
    op == Op::Sta || op == Op::Stx || op == Op::Sty || op == Op::Stz
}

/// A named operation bound to a source and a destination addressing mode.
/// Instructions are value types: copying one and mutating its addressing
/// mode affects no other copy.
#[derive(Clone, Copy, PartialEq, Eq, Debug)]
pub struct Instruction {
    pub opname: &'static str,
    pub operation: Op,
    pub src: AddressingMode,
    pub dst: AddressingMode,
}

impl Instruction {
    /// A well-formed instruction pairs its operation with addressing modes
    /// the operation can use: a datum-reading operation never has an
    /// implicit source, and a datum-writing operation has the accumulator
    /// or an absolute address as destination — so also never an immediate
    /// source, since template expansion copies the source mode to the
    /// destination. Architecture tables only build such pairings.
    pub open spec fn wf(self) -> bool {
        &&& (reads_datum(self.operation) ==> !(self.src is Implicit))
        &&& (writes_datum(self.operation) ==> (self.dst is Accumulator || self.dst is Absolute))
        &&& (writes_datum(self.operation) ==> !(self.src is Immediate))
    }

    /// Builds an implicit-mode instruction template.
    pub fn inh(opname: &'static str, operation: Op) -> (r: Instruction)
        ensures
            r == (Instruction {
                opname,
                operation,
                src: AddressingMode::Implicit,
                dst: AddressingMode::Implicit,
            }),
    {
        Instruction { opname, operation, src: AddressingMode::Implicit, dst: AddressingMode::Implicit }
    }

    /// Builds an immediate-mode instruction template with a placeholder
    /// constant.
    pub fn imm(opname: &'static str, operation: Op) -> (r: Instruction)
        ensures
            r == (Instruction {
                opname,
                operation,
                src: AddressingMode::Immediate(0),
                dst: AddressingMode::Immediate(0),
            }),
    {
        Instruction {
            opname,
            operation,
            src: AddressingMode::Immediate(0),
            dst: AddressingMode::Immediate(0),
        }
    }

    /// Builds an absolute-mode instruction template with a placeholder
    /// address.
    pub fn abs(opname: &'static str, operation: Op) -> (r: Instruction)
        ensures
            r == (Instruction {
                opname,
                operation,
                src: AddressingMode::Absolute(0),
                dst: AddressingMode::Absolute(0),
            }),
    {
        Instruction {
            opname,
            operation,
            src: AddressingMode::Absolute(0),
            dst: AddressingMode::Absolute(0),
        }
    }
}

/// The value an instruction's source operand denotes in a state: the
/// accumulator, the embedded constant, or the memory cell at the embedded
/// address, which is unknown when never written. Implicit sources have no
/// datum; reading one is a contract violation that `get_datum` excludes.
pub open spec fn spec_datum(ins: Instruction, s: StateV) -> Option<i8> {
    match ins.src {
        AddressingMode::Implicit => None,
        AddressingMode::Accumulator => s.accumulator,
        AddressingMode::Immediate(constant) => Some(constant),
        AddressingMode::Absolute(address) => if s.heap.contains_key(address) {
            s.heap[address]
        } else {
            None
        },
    }
}

/// Reading through an absolute source whose address was never written
/// yields the unknown value — not a fatal error. In particular every
/// absolute read from a fresh state is unknown.
pub proof fn lemma_unwritten_address_reads_unknown(ins: Instruction, s: StateV)
    requires
        ins.src is Absolute,
        !s.heap.contains_key(ins.src->Absolute_0),
    ensures
        spec_datum(ins, s) is None,
{
}

/// The state after an instruction's destination operand is overwritten:
/// the accumulator, or the memory cell at the embedded address. Implicit
/// and immediate destinations cannot be written; `write_datum` excludes
/// them.
pub open spec fn spec_write_datum(ins: Instruction, s: StateV, val: Option<i8>) -> StateV {
    match ins.dst {
        AddressingMode::Accumulator => StateV { accumulator: val, ..s },
        AddressingMode::Absolute(address) => StateV { heap: s.heap.insert(address, val), ..s },
        _ => s,
    }
}

/// The state after an addition's result and all five flags are stored:
/// unknown operands make every stored value unknown.
pub open spec fn spec_add_into_acc(s: StateV, operand: Option<i8>) -> StateV {
    if s.accumulator is Some && operand is Some {
        let rv = s.accumulator->0;
        let av = operand->0;
        StateV {
            accumulator: Some((add8(rv, av)) as i8),
            carry: Some(add8_carry(rv, av)),
            zero: Some(add8_zero(rv, av)),
            sign: Some(add8_sign(rv, av)),
            overflow: Some(add8_overflow(rv, av)),
            halfcarry: Some(add8_halfcarry(rv, av)),
            ..s
        }
    } else {
        StateV {
            accumulator: None,
            carry: None,
            zero: None,
            sign: None,
            overflow: None,
            halfcarry: None,
            ..s
        }
    }
}

/// The result of adding a known delta to an optional register value.
pub open spec fn step_result(v: Option<i8>, d: i8) -> Option<i8> {
    if v is Some {
        Some((add8(v->0, d)) as i8)
    } else {
        None
    }
}

/// The zero flag of adding a known delta to an optional register value.
pub open spec fn step_zero(v: Option<i8>, d: i8) -> Option<bool> {
    if v is Some {
        Some(add8_zero(v->0, d))
    } else {
        None
    }
}

/// The sign flag of adding a known delta to an optional register value.
pub open spec fn step_sign(v: Option<i8>, d: i8) -> Option<bool> {
    if v is Some {
        Some(add8_sign(v->0, d))
    } else {
        None
    }
}

/// The rotated value of an optional value through an optional carry.
pub open spec fn rol_result(v: Option<i8>, c: Option<bool>) -> Option<i8> {
    if v is Some && c is Some {
        Some((rol8_value(v->0, c->0)) as i8)
    } else {
        None
    }
}

/// The carry out of rotating an optional value left.
pub open spec fn rol_carry_out(v: Option<i8>, c: Option<bool>) -> Option<bool> {
    if v is Some && c is Some {
        Some(rol8_carry(v->0))
    } else {
        None
    }
}

/// The rotated value of an optional value right through an optional carry.
pub open spec fn ror_result(v: Option<i8>, c: Option<bool>) -> Option<i8> {
    if v is Some && c is Some {
        Some((ror8_value(v->0, c->0)) as i8)
    } else {
        None
    }
}

/// The carry out of rotating an optional value right.
pub open spec fn ror_carry_out(v: Option<i8>, c: Option<bool>) -> Option<bool> {
    if v is Some && c is Some {
        Some(ror8_carry(v->0))
    } else {
        None
    }
}

/// The state an instruction leaves behind when executed in state `s`.
pub open spec fn spec_step(ins: Instruction, s: StateV) -> StateV {
    match ins.operation {
        Op::Aba => spec_add_into_acc(s, s.reg_b),
        Op::Add => spec_add_into_acc(s, spec_datum(ins, s)),
        Op::Adc => spec_add_into_acc(s, spec_datum(ins, s)),
        Op::AdcDp => spec_add_into_acc(s, spec_datum(ins, s)),
        Op::Asl => StateV {
            accumulator: rol_result(s.accumulator, Some(false)),
            carry: rol_carry_out(s.accumulator, Some(false)),
            ..s
        },
        Op::Clc => StateV { carry: Some(false), ..s },
        Op::Dea => StateV {
            accumulator: step_result(s.accumulator, -1i8),
            zero: step_zero(s.accumulator, -1i8),
            sign: step_sign(s.accumulator, -1i8),
            ..s
        },
        Op::Dex => StateV {
            x8: step_result(s.x8, -1i8),
            zero: step_zero(s.x8, -1i8),
            sign: step_sign(s.x8, -1i8),
            ..s
        },
        Op::Dey => StateV {
            y8: step_result(s.y8, -1i8),
            zero: step_zero(s.y8, -1i8),
            sign: step_sign(s.y8, -1i8),
            ..s
        },
        Op::Ina => StateV {
            accumulator: step_result(s.accumulator, 1i8),
            zero: step_zero(s.accumulator, 1i8),
            sign: step_sign(s.accumulator, 1i8),
            ..s
        },
        Op::Inx => StateV {
            x8: step_result(s.x8, 1i8),
            zero: step_zero(s.x8, 1i8),
            sign: step_sign(s.x8, 1i8),
            ..s
        },
        Op::Iny => StateV {
            y8: step_result(s.y8, 1i8),
            zero: step_zero(s.y8, 1i8),
            sign: step_sign(s.y8, 1i8),
            ..s
        },
        Op::Lda => StateV { accumulator: spec_datum(ins, s), ..s },
        Op::Lsr => StateV {
            accumulator: ror_result(s.accumulator, Some(false)),
            carry: ror_carry_out(s.accumulator, Some(false)),
            ..s
        },
        Op::Rol => StateV {
            accumulator: rol_result(s.accumulator, s.carry),
            carry: rol_carry_out(s.accumulator, s.carry),
            ..s
        },
        Op::Ror => StateV {
            accumulator: ror_result(s.accumulator, s.carry),
            carry: ror_carry_out(s.accumulator, s.carry),
            ..s
        },
        Op::Sec => StateV { carry: Some(true), ..s },
        Op::Sta => spec_write_datum(ins, s, s.accumulator),
        Op::Stx => spec_write_datum(ins, s, s.x8),
        Op::Sty => spec_write_datum(ins, s, s.y8),
        Op::Stz => spec_write_datum(ins, s, Some(0)),
        Op::Tab => StateV { reg_b: s.accumulator, ..s },
        Op::Tax => StateV { x8: s.accumulator, ..s },
        Op::Tay => StateV { y8: s.accumulator, ..s },
        Op::Tba => StateV { accumulator: s.reg_b, ..s },
        Op::Txa => StateV { accumulator: s.x8, ..s },
        Op::Tya => StateV { accumulator: s.y8, ..s },
    }
}

impl Instruction {
    /// Reads the source operand. Implicit addressing has no datum, so the
    /// caller must not ask for one. Reading an absolute address that was
    /// never written returns the unknown value, not a fatal error.
    fn get_datum(&self, m: &State) -> (r: Option<i8>)
        requires
            !(self.src is Implicit),
        ensures
            r == spec_datum(*self, m@),
            self.src is Absolute && !m@.heap.contains_key(self.src->Absolute_0) ==> r is None,
    {
        broadcast use vstd::std_specs::hash::group_hash_axioms;

        match self.src {
            AddressingMode::Implicit => unreached(),
            AddressingMode::Accumulator => m.accumulator,
            AddressingMode::Immediate(constant) => Some(constant),
            AddressingMode::Absolute(address) => match m.heap.get(&address) {
                Some(v) => *v,
                None => None,
            },
        }
    }

    /// Writes the destination operand. Implicit and immediate destinations
    /// cannot be written, so the caller must not hand one in.
    fn write_datum(&self, m: &mut State, val: Option<i8>)
        requires
            self.dst is Accumulator || self.dst is Absolute,
        ensures
            final(m)@ == spec_write_datum(*self, old(m)@, val),
    {
        broadcast use vstd::std_specs::hash::group_hash_axioms;

        match self.dst {
            AddressingMode::Accumulator => {
                m.accumulator = val;
            },
            AddressingMode::Absolute(address) => {
                m.heap.insert(address, val);
            },
            _ => unreached(),
        }
    }

    /// Executes the instruction on a machine state. The boolean return is a
    /// continuation signal: `true` means execution may proceed; every
    /// operation modelled here continues.
    pub fn execute(&self, s: &mut State) -> (cont: bool)
        requires
            self.wf(),
        ensures
            cont,
            final(s)@ == spec_step(*self, old(s)@),
    {
        match self.operation {
            Op::Aba => {
                let (result, c, z, n, o, h) = add_to_reg8(s.accumulator, s.reg_b);
                s.accumulator = result;
                s.sign = n;
                s.carry = c;
                s.zero = z;
                s.overflow = o;
                s.halfcarry = h;
                true
            },
            Op::Add | Op::Adc | Op::AdcDp => {
                let d = self.get_datum(s);
                let (result, c, z, n, o, h) = add_to_reg8(s.accumulator, d);
                s.accumulator = result;
                s.sign = n;
                s.carry = c;
                s.zero = z;
                s.overflow = o;
                s.halfcarry = h;
                true
            },
            Op::Asl => {
                let (val, c) = rotate_left_thru_carry(s.accumulator, Some(false));
                s.accumulator = val;
                s.carry = c;
                true
            },
            Op::Clc => {
                s.carry = Some(false);
                true
            },
            Op::Dea => {
                let (result, _c, z, n, _o, _h) = add_to_reg8(s.accumulator, Some(-1));
                s.accumulator = result;
                s.zero = z;
                s.sign = n;
                true
            },
            Op::Dex => {
                let (result, _c, z, n, _o, _h) = add_to_reg8(s.x8, Some(-1));
                s.x8 = result;
                s.zero = z;
                s.sign = n;
                true
            },
            Op::Dey => {
                let (result, _c, z, n, _o, _h) = add_to_reg8(s.y8, Some(-1));
                s.y8 = result;
                s.zero = z;
                s.sign = n;
                true
            },
            Op::Ina => {
                let (result, _c, z, n, _o, _h) = add_to_reg8(s.accumulator, Some(1));
                s.accumulator = result;
                s.zero = z;
                s.sign = n;
                true
            },
            Op::Inx => {
                let (result, _c, z, n, _o, _h) = add_to_reg8(s.x8, Some(1));
                s.x8 = result;
                s.zero = z;
                s.sign = n;
                true
            },
            Op::Iny => {
                let (result, _c, z, n, _o, _h) = add_to_reg8(s.y8, Some(1));
                s.y8 = result;
                s.zero = z;
                s.sign = n;
                true
            },
            Op::Lda => {
                s.accumulator = self.get_datum(s);
                true
            },
            Op::Lsr => {
                let (val, c) = rotate_right_thru_carry(s.accumulator, Some(false));
                s.accumulator = val;
                s.carry = c;
                true
            },
            Op::Rol => {
                let (val, c) = rotate_left_thru_carry(s.accumulator, s.carry);
                s.accumulator = val;
                s.carry = c;
                true
            },
            Op::Ror => {
                let (val, c) = rotate_right_thru_carry(s.accumulator, s.carry);
                s.accumulator = val;
                s.carry = c;
                true
            },
            Op::Sec => {
                s.carry = Some(true);
                true
            },
            Op::Sta => {
                let v = s.accumulator;
                self.write_datum(s, v);
                true
            },
            Op::Stx => {
                let v = s.x8;
                self.write_datum(s, v);
                true
            },
            Op::Sty => {
                let v = s.y8;
                self.write_datum(s, v);
                true
            },
            Op::Stz => {
                self.write_datum(s, Some(0));
                true
            },
            Op::Tab => {
                s.reg_b = s.accumulator;
                true
            },
            Op::Tax => {
                s.x8 = s.accumulator;
                true
            },
            Op::Tay => {
                s.y8 = s.accumulator;
                true
            },
            Op::Tba => {
                s.accumulator = s.reg_b;
                true
            },
            Op::Txa => {
                s.accumulator = s.x8;
                true
            },
            Op::Tya => {
                s.accumulator = s.y8;
                true
            },
        }
    }
}

// ---------------------------------------------------------------------------
// Randomized mutation and template expansion.
// ---------------------------------------------------------------------------

/// Relies on rand's `SliceRandom::choose` with `rand::thread_rng`: returns
/// `None` exactly when the slice is empty, otherwise a uniformly drawn
/// element of it.
#[verifier::external_body]
fn sample_i8(pool: &Vec<i8>) -> (r: Option<i8>)
    ensures
        r is Some <==> pool@.len() > 0,
        r matches Some(v) ==> pool@.contains(v),
{
    pool.choose(&mut rand::thread_rng()).copied()
}

/// Relies on rand's `SliceRandom::choose` with `rand::thread_rng`: returns
/// `None` exactly when the slice is empty, otherwise a uniformly drawn
/// element of it.
#[verifier::external_body]
fn sample_u16(pool: &Vec<u16>) -> (r: Option<u16>)
    ensures
        r is Some <==> pool@.len() > 0,
        r matches Some(v) ==> pool@.contains(v),
{
    pool.choose(&mut rand::thread_rng()).copied()
}

/// Relies on rand::random: some 8-bit value; nothing is assumed about
/// which.
#[verifier::external_body]
fn random_i8() -> i8 {
    rand::random()
}

/// Relies on rand::random: some 16-bit value; nothing is assumed about
/// which.
#[verifier::external_body]
fn random_u16() -> u16 {
    rand::random()
}

impl Instruction {
    /// Replaces an immediate source's embedded constant with one drawn from
    /// the constant pool (or any representable value when the pool is
    /// empty), and an absolute source's embedded address likewise from the
    /// address pool. Implicit and accumulator sources are unaffected, and
    /// the destination, name and operation never change.
    pub fn randomize(&mut self, constants: Vec<i8>, vars: Vec<u16>)
        ensures
            final(self).opname == old(self).opname,
            final(self).operation == old(self).operation,
            final(self).dst == old(self).dst,
            old(self).src is Implicit || old(self).src is Accumulator ==> final(self).src == old(
                self,
            ).src,
            old(self).src is Immediate ==> final(self).src is Immediate && (constants@.len() > 0
                ==> constants@.contains(final(self).src->Immediate_0)),
            old(self).src is Absolute ==> final(self).src is Absolute && (vars@.len() > 0
                ==> vars@.contains(final(self).src->Absolute_0)),
    {
        match self.src {
            AddressingMode::Implicit => {
                self.src = AddressingMode::Implicit;
            },
            AddressingMode::Accumulator => {
                self.src = AddressingMode::Accumulator;
            },
            AddressingMode::Immediate(_) => {
                match sample_i8(&constants) {
                    Some(r) => {
                        self.src = AddressingMode::Immediate(r);
                    },
                    None => {
                        self.src = AddressingMode::Immediate(random_i8());
                    },
                }
            },
            AddressingMode::Absolute(_) => {
                match sample_u16(&vars) {
                    Some(r) => {
                        self.src = AddressingMode::Absolute(r);
                    },
                    None => {
                        self.src = AddressingMode::Absolute(random_u16());
                    },
                }
            },
        }
    }
}

/// The concrete instances one template stands for: one per constant for an
/// immediate source, one per address for an absolute source, or the
/// template itself unchanged for an implicit or accumulator source.
pub open spec fn expansion(ins: Instruction, constants: Seq<i8>, vars: Seq<u16>) -> Seq<
    Instruction,
> {
    match ins.src {
        AddressingMode::Implicit | AddressingMode::Accumulator => seq![ins],
        AddressingMode::Immediate(_) => Seq::new(
            constants.len(),
            |i: int|
                (Instruction {
                    src: AddressingMode::Immediate(constants[i]),
                    dst: AddressingMode::Immediate(constants[i]),
                    ..ins
                }),
        ),
        AddressingMode::Absolute(_) => Seq::new(
            vars.len(),
            |i: int|
                (Instruction {
                    src: AddressingMode::Absolute(vars[i]),
                    dst: AddressingMode::Absolute(vars[i]),
                    ..ins
                }),
        ),
    }
}

/// Expanding a template changes only the payloads of its addressing modes,
/// so every instance of a well-formed template is well-formed and shares
/// its operation.
pub proof fn lemma_expansion_wf(ins: Instruction, constants: Seq<i8>, vars: Seq<u16>)
    requires
        ins.wf(),
    ensures
        forall|i: int|
            0 <= i < expansion(ins, constants, vars).len() ==> (#[trigger] expansion(
                ins,
                constants,
                vars,
            )[i]).wf() && expansion(ins, constants, vars)[i].operation == ins.operation,
{
}

impl Instruction {
    /// Appends to `prog` every concrete instance this template stands for,
    /// in pool order.
    pub fn vectorize(&self, prog: &mut Vec<Instruction>, constants: &[i8], vars: &[u16])
        ensures
            final(prog)@ == old(prog)@ + expansion(*self, constants@, vars@),
    {
        match self.src {
            AddressingMode::Implicit | AddressingMode::Accumulator => {
                prog.push(*self);
                proof {
                    assert(final(prog)@ =~= old(prog)@ + expansion(*self, constants@, vars@));
                }
            },
            AddressingMode::Immediate(_) => {
                let ghost base = prog@;
                let mut j: usize = 0;
                while j < constants.len()
                    invariant
                        j <= constants@.len(),
                        self.src is Immediate,
                        prog@ == base + expansion(*self, constants@, vars@).take(j as int),
                    decreases constants@.len() - j,
                {
                    let c = constants[j];
                    prog.push(
                        Instruction {
                            opname: self.opname,
                            operation: self.operation,
                            src: AddressingMode::Immediate(c),
                            dst: AddressingMode::Immediate(c),
                        },
                    );
                    j += 1;
                    proof {
                        assert(prog@ =~= base + expansion(*self, constants@, vars@).take(j as int));
                    }
                }
                proof {
                    assert(prog@ =~= base + expansion(*self, constants@, vars@));
                }
            },
            AddressingMode::Absolute(_) => {
                let ghost base = prog@;
                let mut j: usize = 0;
                while j < vars.len()
                    invariant
                        j <= vars@.len(),
                        self.src is Absolute,
                        prog@ == base + expansion(*self, constants@, vars@).take(j as int),
                    decreases vars@.len() - j,
                {
                    let c = vars[j];
                    prog.push(
                        Instruction {
                            opname: self.opname,
                            operation: self.operation,
                            src: AddressingMode::Absolute(c),
                            dst: AddressingMode::Absolute(c),
                        },
                    );
                    j += 1;
                    proof {
                        assert(prog@ =~= base + expansion(*self, constants@, vars@).take(j as int));
                    }
                }
                proof {
                    assert(prog@ =~= base + expansion(*self, constants@, vars@));
                }
            },
        }
    }
}

// ---------------------------------------------------------------------------
// Architecture tables.
// ---------------------------------------------------------------------------

/// The instruction templates of the Motorola 6800 table, in order.
pub open spec fn motorola6800_spec() -> Seq<Instruction> {
    seq![
        (Instruction {
            opname: "aba",
            operation: Op::Aba,
            src: AddressingMode::Implicit,
            dst: AddressingMode::Implicit,
        }),
        (Instruction {
            opname: "add",
            operation: Op::Add,
            src: AddressingMode::Immediate(0),
            dst: AddressingMode::Immediate(0),
        }),
        (Instruction {
            opname: "adc",
            operation: Op::Adc,
            src: AddressingMode::Immediate(0),
            dst: AddressingMode::Immediate(0),
        }),
        (Instruction {
            opname: "asla",
            operation: Op::Asl,
            src: AddressingMode::Implicit,
            dst: AddressingMode::Implicit,
        }),
        (Instruction {
            opname: "tab",
            operation: Op::Tab,
            src: AddressingMode::Implicit,
            dst: AddressingMode::Implicit,
        }),
        (Instruction {
            opname: "tba",
            operation: Op::Tba,
            src: AddressingMode::Implicit,
            dst: AddressingMode::Implicit,
        }),
        (Instruction {
            opname: "rol",
            operation: Op::Rol,
            src: AddressingMode::Implicit,
            dst: AddressingMode::Implicit,
        }),
        (Instruction {
            opname: "ror",
            operation: Op::Ror,
            src: AddressingMode::Implicit,
            dst: AddressingMode::Implicit,
        }),
        (Instruction {
            opname: "clc",
            operation: Op::Clc,
            src: AddressingMode::Implicit,
            dst: AddressingMode::Implicit,
        }),
        (Instruction {
            opname: "sec",
            operation: Op::Sec,
            src: AddressingMode::Implicit,
            dst: AddressingMode::Implicit,
        }),
    ]
}

/// The Motorola 6800 instruction table.
pub fn motorola6800() -> (r: Vec<Instruction>)
    ensures
        r@ == motorola6800_spec(),
        forall|i: int| 0 <= i < r@.len() ==> (#[trigger] r@[i]).wf(),
{
    let r = vec![
        Instruction::inh("aba", Op::Aba),
        Instruction::imm("add", Op::Add),
        Instruction::imm("adc", Op::Adc),
        Instruction::inh("asla", Op::Asl),
        Instruction::inh("tab", Op::Tab),
        Instruction::inh("tba", Op::Tba),
        Instruction::inh("rol", Op::Rol),
        Instruction::inh("ror", Op::Ror),
        Instruction::inh("clc", Op::Clc),
        Instruction::inh("sec", Op::Sec),
    ];
    proof {
        assert(r@ =~= motorola6800_spec());
    }
    r
}

/// The instruction templates of the MOS 6502 table, in order.
pub open spec fn mos6502_spec() -> Seq<Instruction> {
    seq![
        (Instruction {
            opname: "inx",
            operation: Op::Inx,
            src: AddressingMode::Implicit,
            dst: AddressingMode::Implicit,
        }),
        (Instruction {
            opname: "iny",
            operation: Op::Iny,
            src: AddressingMode::Implicit,
            dst: AddressingMode::Implicit,
        }),
        (Instruction {
            opname: "dex",
            operation: Op::Dex,
            src: AddressingMode::Implicit,
            dst: AddressingMode::Implicit,
        }),
        (Instruction {
            opname: "dey",
            operation: Op::Dey,
            src: AddressingMode::Implicit,
            dst: AddressingMode::Implicit,
        }),
        (Instruction {
            opname: "tax",
            operation: Op::Tax,
            src: AddressingMode::Implicit,
            dst: AddressingMode::Implicit,
        }),
        (Instruction {
            opname: "tay",
            operation: Op::Tay,
            src: AddressingMode::Implicit,
            dst: AddressingMode::Implicit,
        }),
        (Instruction {
            opname: "txa",
            operation: Op::Txa,
            src: AddressingMode::Implicit,
            dst: AddressingMode::Implicit,
        }),
        (Instruction {
            opname: "tya",
            operation: Op::Tya,
            src: AddressingMode::Implicit,
            dst: AddressingMode::Implicit,
        }),
        (Instruction {
            opname: "asl a",
            operation: Op::Asl,
            src: AddressingMode::Implicit,
            dst: AddressingMode::Implicit,
        }),
        (Instruction {
            opname: "rol",
            operation: Op::Rol,
            src: AddressingMode::Implicit,
            dst: AddressingMode::Implicit,
        }),
        (Instruction {
            opname: "ror",
            operation: Op::Ror,
            src: AddressingMode::Implicit,
            dst: AddressingMode::Implicit,
        }),
        (Instruction {
            opname: "lsr",
            operation: Op::Lsr,
            src: AddressingMode::Implicit,
            dst: AddressingMode::Implicit,
        }),
        (Instruction {
            opname: "clc",
            operation: Op::Clc,
            src: AddressingMode::Implicit,
            dst: AddressingMode::Implicit,
        }),
        (Instruction {
            opname: "sec",
            operation: Op::Sec,
            src: AddressingMode::Implicit,
            dst: AddressingMode::Implicit,
        }),
        (Instruction {
            opname: "adc",
            operation: Op::AdcDp,
            src: AddressingMode::Immediate(0),
            dst: AddressingMode::Immediate(0),
        }),
        (Instruction {
            opname: "adc",
            operation: Op::AdcDp,
            src: AddressingMode::Absolute(0),
            dst: AddressingMode::Absolute(0),
        }),
        (Instruction {
            opname: "lda",
            operation: Op::Lda,
            src: AddressingMode::Absolute(0),
            dst: AddressingMode::Absolute(0),
        }),
        (Instruction {
            opname: "sta",
            operation: Op::Sta,
            src: AddressingMode::Absolute(0),
            dst: AddressingMode::Absolute(0),
        }),
        (Instruction {
            opname: "stx",
            operation: Op::Stx,
            src: AddressingMode::Absolute(0),
            dst: AddressingMode::Absolute(0),
        }),
        (Instruction {
            opname: "sty",
            operation: Op::Sty,
            src: AddressingMode::Absolute(0),
            dst: AddressingMode::Absolute(0),
        }),
    ]
}

/// The MOS 6502 instruction table.
pub fn mos6502() -> (r: Vec<Instruction>)
    ensures
        r@ == mos6502_spec(),
        forall|i: int| 0 <= i < r@.len() ==> (#[trigger] r@[i]).wf(),
{
    let r = vec![
        Instruction::inh("inx", Op::Inx),
        Instruction::inh("iny", Op::Iny),
        Instruction::inh("dex", Op::Dex),
        Instruction::inh("dey", Op::Dey),
        Instruction::inh("tax", Op::Tax),
        Instruction::inh("tay", Op::Tay),
        Instruction::inh("txa", Op::Txa),
        Instruction::inh("tya", Op::Tya),
        Instruction::inh("asl a", Op::Asl),
        Instruction::inh("rol", Op::Rol),
        Instruction::inh("ror", Op::Ror),
        Instruction::inh("lsr", Op::Lsr),
        Instruction::inh("clc", Op::Clc),
        Instruction::inh("sec", Op::Sec),
        Instruction::imm("adc", Op::AdcDp),
        Instruction::abs("adc", Op::AdcDp),
        Instruction::abs("lda", Op::Lda),
        Instruction::abs("sta", Op::Sta),
        Instruction::abs("stx", Op::Stx),
        Instruction::abs("sty", Op::Sty),
    ];
    proof {
        assert(r@ =~= mos6502_spec());
    }
    r
}

/// The instruction templates of the MOS 65C02 table: three additions
/// prepended to the MOS 6502 table.
pub open spec fn mos65c02_spec() -> Seq<Instruction> {
    seq![
        (Instruction {
            opname: "ina",
            operation: Op::Ina,
            src: AddressingMode::Implicit,
            dst: AddressingMode::Implicit,
        }),
        (Instruction {
            opname: "dea",
            operation: Op::Dea,
            src: AddressingMode::Implicit,
            dst: AddressingMode::Implicit,
        }),
        (Instruction {
            opname: "stz",
            operation: Op::Stz,
            src: AddressingMode::Absolute(0),
            dst: AddressingMode::Absolute(0),
        }),
    ] + mos6502_spec()
}

/// The MOS 65C02 instruction table.
pub fn mos65c02() -> (r: Vec<Instruction>)
    ensures
        r@ == mos65c02_spec(),
        forall|i: int| 0 <= i < r@.len() ==> (#[trigger] r@[i]).wf(),
{
    let mut r = vec![
        Instruction::inh("ina", Op::Ina),
        Instruction::inh("dea", Op::Dea),
        Instruction::abs("stz", Op::Stz),
    ];
    let mut rest = mos6502();
    r.append(&mut rest);
    proof {
        assert(r@ =~= mos65c02_spec());
    }
    r
}

/// The Zilog Z80 table: semantics not modelled yet, deliberately empty.
pub fn z80() -> (r: Vec<Instruction>)
    ensures
        r@ == Seq::<Instruction>::empty(),
{
    Vec::new()
}

/// The Intel 8080 table: semantics not modelled yet, deliberately empty.
pub fn i8080() -> (r: Vec<Instruction>)
    ensures
        r@ == Seq::<Instruction>::empty(),
{
    Vec::new()
}

/// The Intel 8085 table: semantics not modelled yet, deliberately empty.
pub fn i8085() -> (r: Vec<Instruction>)
    ensures
        r@ == Seq::<Instruction>::empty(),
{
    Vec::new()
}

/// The Z80-compatible table: semantics not modelled yet, deliberately
/// empty.
pub fn iz80() -> (r: Vec<Instruction>)
    ensures
        r@ == Seq::<Instruction>::empty(),
{
    Vec::new()
}

/// The instruction templates of the PIC12 table, in order.
pub open spec fn pic12_spec() -> Seq<Instruction> {
    seq![
        (Instruction {
            opname: "clrf",
            operation: Op::Stz,
            src: AddressingMode::Absolute(0),
            dst: AddressingMode::Absolute(0),
        }),
    ]
}

/// The PIC12 instruction table.
pub fn pic12() -> (r: Vec<Instruction>)
    ensures
        r@ == pic12_spec(),
        forall|i: int| 0 <= i < r@.len() ==> (#[trigger] r@[i]).wf(),
{
    let r = vec![Instruction::abs("clrf", Op::Stz)];
    proof {
        assert(r@ =~= pic12_spec());
    }
    r
}

/// The PIC14 instruction table: the PIC12 table.
pub fn pic14() -> (r: Vec<Instruction>)
    ensures
        r@ == pic12_spec(),
        forall|i: int| 0 <= i < r@.len() ==> (#[trigger] r@[i]).wf(),
{
    pic12()
}

/// The PIC16 instruction table: the PIC14 table.
pub fn pic16() -> (r: Vec<Instruction>)
    ensures
        r@ == pic12_spec(),
        forall|i: int| 0 <= i < r@.len() ==> (#[trigger] r@[i]).wf(),
{
    pic14()
}

} // verus!
