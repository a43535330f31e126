//! The schema layer, the equivalence checker and the exhaustive search
//! engine.

use vstd::prelude::*;

use crate::machine::{
    expansion, fresh_state, get_reg, set_reg, spec_get_reg, spec_set_reg, spec_step, Instruction,
    Reg, State, StateV,
};

verus! {

// ---------------------------------------------------------------------------
// Schema.
// ---------------------------------------------------------------------------

/// A schema decouples the search engine from any fixed register convention:
/// live-in registers receive the abstract test-vector inputs, in order, and
/// live-out registers yield the abstract outputs, in order.
pub struct Schema {
    pub live_in: Vec<Reg>,
    pub live_out: Vec<Reg>,
}

impl Schema {
    /// Builds a schema from its live-in and live-out register lists.
    pub fn new(live_in: Vec<Reg>, live_out: Vec<Reg>) -> (r: Schema)
        ensures
            r.live_in@ == live_in@,
            r.live_out@ == live_out@,
    {
        Schema { live_in, live_out }
    }
}

// ---------------------------------------------------------------------------
// Running a candidate program.
// ---------------------------------------------------------------------------

/// The state after the first `n` live-in setters have stored the first `n`
/// inputs.
pub open spec fn apply_live_ins_prefix(init: StateV, regs: Seq<Reg>, inputs: Seq<i8>, n: int) -> StateV
    decreases n,
{
    if n <= 0 {
        init
    } else {
        spec_set_reg(apply_live_ins_prefix(init, regs, inputs, n - 1), regs[n - 1], inputs[n - 1])
    }
}

/// The state after every live-in setter that has a matching input has run,
/// positionally, as zipping the two lists does.
pub open spec fn apply_live_ins(init: StateV, regs: Seq<Reg>, inputs: Seq<i8>) -> StateV {
    apply_live_ins_prefix(
        init,
        regs,
        inputs,
        if regs.len() <= inputs.len() {
            regs.len() as int
        } else {
            inputs.len() as int
        },
    )
}

/// The state after the first `n` instructions of a program have executed.
pub open spec fn run_prefix(init: StateV, prog: Seq<Instruction>, n: int) -> StateV
    decreases n,
{
    if n <= 0 {
        init
    } else {
        spec_step(prog[n - 1], run_prefix(init, prog, n - 1))
    }
}

/// The state a program leaves behind: a fresh all-unknown state, the live-in
/// inputs stored, then every instruction executed in sequence.
pub open spec fn spec_run_program(prog: Seq<Instruction>, live_in: Seq<Reg>, inputs: Seq<i8>) -> StateV {
    run_prefix(apply_live_ins(fresh_state(), live_in, inputs), prog, prog.len() as int)
}

/// Builds a fresh state, stores the inputs through the schema's live-in
/// registers, and executes the program. Returns no state when an
/// instruction's continuation signal stops the trial; every operation
/// modelled here continues, so a state is always returned.
fn run_program(prog: &[Instruction], schema: &Schema, inputs: &[i8]) -> (r: Option<State>)
    requires
        forall|i: int| 0 <= i < prog@.len() ==> (#[trigger] prog@[i]).wf(),
    ensures
        r matches Some(st) && st@ == spec_run_program(prog@, schema.live_in@, inputs@),
{
    let mut s = State::new();
    let n = if schema.live_in.len() <= inputs.len() {
        schema.live_in.len()
    } else {
        inputs.len()
    };
    let mut i: usize = 0;
    while i < n
        invariant
            i <= n,
            n == if schema.live_in@.len() <= inputs@.len() {
                schema.live_in@.len()
            } else {
                inputs@.len()
            },
            s@ == apply_live_ins_prefix(fresh_state(), schema.live_in@, inputs@, i as int),
        decreases n - i,
    {
        set_reg(&mut s, schema.live_in[i], inputs[i]);
        i += 1;
    }
    let ghost init = apply_live_ins(fresh_state(), schema.live_in@, inputs@);
    assert(s@ == init);
    let mut j: usize = 0;
    while j < prog.len()
        invariant
            j <= prog@.len(),
            forall|k: int| 0 <= k < prog@.len() ==> (#[trigger] prog@[k]).wf(),
            s@ == run_prefix(init, prog@, j as int),
        decreases prog@.len() - j,
    {
        let cont = prog[j].execute(&mut s);
        if !cont {
            return None;
        }
        j += 1;
    }
    Some(s)
}

// ---------------------------------------------------------------------------
// Equivalence checking.
// ---------------------------------------------------------------------------

/// Whether the live-out registers of a final state match the expected
/// outputs, positionally: an unknown actual output never matches.
pub open spec fn outputs_match(st: StateV, live_out: Seq<Reg>, expected: Seq<i8>) -> bool {
    forall|j: int|
        0 <= j < live_out.len() && j < expected.len() ==> spec_get_reg(st, #[trigger] live_out[j])
            == Some(expected[j])
}

/// Whether running the program on one test case's inputs yields its expected
/// outputs.
pub open spec fn case_passes(
    prog: Seq<Instruction>,
    live_in: Seq<Reg>,
    live_out: Seq<Reg>,
    inputs: Seq<i8>,
    expected: Seq<i8>,
) -> bool {
    outputs_match(spec_run_program(prog, live_in, inputs), live_out, expected)
}

/// Whether the program passes every test case.
pub open spec fn spec_equivalence(
    prog: Seq<Instruction>,
    live_in: Seq<Reg>,
    live_out: Seq<Reg>,
    cases: Seq<(Vec<i8>, Vec<i8>)>,
) -> bool {
    forall|i: int|
        0 <= i < cases.len() ==> case_passes(
            prog,
            live_in,
            live_out,
            (#[trigger] cases[i]).0@,
            cases[i].1@,
        )
}

/// Runs the candidate program against every test case through the schema:
/// true exactly when every case's expected outputs are reproduced. The check
/// stops at the first failing case.
pub fn equivalence(prog: &[Instruction], schema: &Schema, test_cases: &[(Vec<i8>, Vec<i8>)]) -> (r:
    bool)
    requires
        forall|i: int| 0 <= i < prog@.len() ==> (#[trigger] prog@[i]).wf(),
    ensures
        r == spec_equivalence(prog@, schema.live_in@, schema.live_out@, test_cases@),
{
    let mut i: usize = 0;
    while i < test_cases.len()
        invariant
            i <= test_cases@.len(),
            forall|k: int| 0 <= k < prog@.len() ==> (#[trigger] prog@[k]).wf(),
            forall|k: int|
                0 <= k < i ==> case_passes(
                    prog@,
                    schema.live_in@,
                    schema.live_out@,
                    (#[trigger] test_cases@[k]).0@,
                    test_cases@[k].1@,
                ),
        decreases test_cases@.len() - i,
    {
        let tc = &test_cases[i];
        match run_program(prog, schema, tc.0.as_slice()) {
            Some(state) => {
                let m = if schema.live_out.len() <= tc.1.len() {
                    schema.live_out.len()
                } else {
                    tc.1.len()
                };
                let mut j: usize = 0;
                while j < m
                    invariant
                        j <= m,
                        i < test_cases@.len(),
                        *tc == test_cases@[i as int],
                        m == if schema.live_out@.len() <= tc.1@.len() {
                            schema.live_out@.len()
                        } else {
                            tc.1@.len()
                        },
                        state@ == spec_run_program(prog@, schema.live_in@, tc.0@),
                        forall|k: int|
                            0 <= k < j ==> spec_get_reg(state@, #[trigger] schema.live_out@[k])
                                == Some(tc.1@[k]),
                    decreases m - j,
                {
                    let result = get_reg(&state, schema.live_out[j]);
                    let ok = match result {
                        Some(v) => v == tc.1[j],
                        None => false,
                    };
                    if !ok {
                        proof {
                            assert(*tc == test_cases@[i as int]);
                            assert(spec_get_reg(state@, schema.live_out@[j as int]) != Some(
                                tc.1@[j as int],
                            ));
                            assert(outputs_match(state@, schema.live_out@, tc.1@) ==> spec_get_reg(
                                state@,
                                schema.live_out@[j as int],
                            ) == Some(tc.1@[j as int]));
                            assert(!case_passes(
                                prog@,
                                schema.live_in@,
                                schema.live_out@,
                                test_cases@[i as int].0@,
                                test_cases@[i as int].1@,
                            ));
                        }
                        return false;
                    }
                    j += 1;
                }
                proof {
                    assert(outputs_match(state@, schema.live_out@, tc.1@));
                }
            },
            None => {
                return false;
            },
        }
        i += 1;
    }
    true
}

// ---------------------------------------------------------------------------
// Exhaustive search.
// ---------------------------------------------------------------------------

/// The concrete instruction alphabet obtained by expanding the first `n`
/// templates over the constant and address pools.
pub open spec fn vectorized_prefix(
    templates: Seq<Instruction>,
    constants: Seq<i8>,
    vars: Seq<u16>,
    n: int,
) -> Seq<Instruction>
    decreases n,
{
    if n <= 0 {
        Seq::empty()
    } else {
        vectorized_prefix(templates, constants, vars, n - 1) + expansion(
            templates[n - 1],
            constants,
            vars,
        )
    }
}

/// The concrete instruction alphabet the search enumerates over: every
/// template expanded over the pools, in template order.
pub open spec fn vectorized(templates: Seq<Instruction>, constants: Seq<i8>, vars: Seq<u16>) -> Seq<
    Instruction,
> {
    vectorized_prefix(templates, constants, vars, templates.len() as int)
}

/// Every instruction of the alphabet built from the first `n` templates of
/// a list of well-formed templates is well-formed.
proof fn lemma_vectorized_prefix_wf(
    templates: Seq<Instruction>,
    constants: Seq<i8>,
    vars: Seq<u16>,
    n: int,
)
    requires
        0 <= n <= templates.len(),
        forall|i: int| 0 <= i < templates.len() ==> (#[trigger] templates[i]).wf(),
    ensures
        forall|i: int|
            0 <= i < vectorized_prefix(templates, constants, vars, n).len() ==> (
            #[trigger] vectorized_prefix(templates, constants, vars, n)[i]).wf(),
    decreases n,
{
    if n > 0 {
        lemma_vectorized_prefix_wf(templates, constants, vars, n - 1);
        crate::machine::lemma_expansion_wf(templates[n - 1], constants, vars);
        let pre = vectorized_prefix(templates, constants, vars, n - 1);
        let ex = expansion(templates[n - 1], constants, vars);
        assert forall|i: int|
            0 <= i < vectorized_prefix(templates, constants, vars, n).len() implies (
        #[trigger] vectorized_prefix(templates, constants, vars, n)[i]).wf() by {
            if i < pre.len() {
                assert(vectorized_prefix(templates, constants, vars, n)[i] == pre[i]);
            } else {
                assert(vectorized_prefix(templates, constants, vars, n)[i] == ex[i - pre.len()]);
            }
        }
    }
}

/// Every instruction of the alphabet obtained by vectorizing well-formed
/// templates is well-formed, so any program drawn from it can be executed.
pub proof fn lemma_vectorized_wf(templates: Seq<Instruction>, constants: Seq<i8>, vars: Seq<u16>)
    requires
        forall|i: int| 0 <= i < templates.len() ==> (#[trigger] templates[i]).wf(),
    ensures
        forall|i: int|
            0 <= i < vectorized(templates, constants, vars).len() ==> (#[trigger] vectorized(
                templates,
                constants,
                vars,
            )[i]).wf(),
{
    lemma_vectorized_prefix_wf(templates, constants, vars, templates.len() as int);
}

/// Every sequence of exactly `len` instructions drawn from the alphabet,
/// appended to `prefix`, has a refusing call of the predicate: one that
/// returned `false` on it.
pub open spec fn refuses_all<F: Fn(&Vec<Instruction>) -> bool>(
    f: F,
    prefix: Seq<Instruction>,
    alphabet: Seq<Instruction>,
    len: int,
) -> bool {
    forall|s: Seq<Instruction>|
        #![trigger s.len()]
        (s.len() == len && (forall|i: int| 0 <= i < s.len() ==> alphabet.contains(#[trigger] s[i])))
            ==> exists|w: Vec<Instruction>| w@ == prefix + s && call_ensures(f, (&w,), false)
}

/// Depth-first enumeration of every extension of `prog` by `len` further
/// instructions drawn from the alphabet, in alphabet order, applying the
/// acceptance predicate to each complete sequence. On success the buffer
/// holds the accepted sequence; on failure it is left as it was, and every
/// extension was tried and refused.
fn try_all<F: Fn(&Vec<Instruction>) -> bool>(
    term: &F,
    prog: &mut Vec<Instruction>,
    instrs: &Vec<Instruction>,
    len: u32,
) -> (found: bool)
    requires
        forall|p: Vec<Instruction>|
            (p@.len() == old(prog)@.len() + len && (forall|i: int|
                0 <= i < p@.len() ==> instrs@.contains(#[trigger] p@[i])))
                ==> #[trigger] call_requires(*term, (&p,)),
        forall|i: int| 0 <= i < old(prog)@.len() ==> instrs@.contains(#[trigger] old(prog)@[i]),
        old(prog)@.len() + len <= usize::MAX,
    ensures
        !found ==> final(prog)@ == old(prog)@,
        !found ==> refuses_all(*term, old(prog)@, instrs@, len as int),
        found ==> {
            &&& final(prog)@.len() == old(prog)@.len() + len
            &&& final(prog)@.take(old(prog)@.len() as int) == old(prog)@
            &&& forall|i: int|
                0 <= i < final(prog)@.len() ==> instrs@.contains(#[trigger] final(prog)@[i])
            &&& exists|p: Vec<Instruction>| p@ == final(prog)@ && call_ensures(*term, (&p,), true)
        },
    decreases len,
{
    if len == 0 {
        proof {
            let w = *prog;
            assert(forall|i: int| 0 <= i < w@.len() ==> instrs@.contains(#[trigger] w@[i]));
            assert(w@.len() == old(prog)@.len() + len);
            assert(call_requires(*term, (&w,)));
        }
        let res = term(prog);
        if res {
            proof {
                let w = *prog;
                assert(w@ == prog@ && call_ensures(*term, (&w,), true));
            }
            return true;
        }
        proof {
            let w = *prog;
            assert forall|s: Seq<Instruction>|
                (s.len() == len as int && (forall|i: int|
                    0 <= i < s.len() ==> instrs@.contains(#[trigger] s[i]))) implies exists|
                w2: Vec<Instruction>,
            | w2@ == old(prog)@ + s && call_ensures(*term, (&w2,), false) by {
                assert(s =~= Seq::<Instruction>::empty());
                assert(old(prog)@ + s =~= old(prog)@);
                assert(w@ == old(prog)@ + s && call_ensures(*term, (&w,), false));
            }
        }
        false
    } else {
        let ghost base = prog@;
        let mut k: usize = 0;
        while k < instrs.len()
            invariant
                k <= instrs@.len(),
                prog@ == base,
                base == old(prog)@,
                forall|p: Vec<Instruction>|
                    (p@.len() == base.len() + len && (forall|i: int|
                        0 <= i < p@.len() ==> instrs@.contains(#[trigger] p@[i])))
                        ==> #[trigger] call_requires(*term, (&p,)),
                forall|i: int| 0 <= i < base.len() ==> instrs@.contains(#[trigger] base[i]),
                base.len() + len <= usize::MAX,
                len >= 1,
                forall|s: Seq<Instruction>|
                    #![trigger s.len()]
                    (s.len() == len as int && (forall|i: int|
                        0 <= i < s.len() ==> instrs@.contains(#[trigger] s[i])) && (exists|j: int|
                        0 <= j < k && instrs@[j] == s[0])) ==> exists|w: Vec<Instruction>|
                        w@ == base + s && call_ensures(*term, (&w,), false),
            decreases instrs@.len() - k,
        {
            let ins = instrs[k];
            proof {
                assert(instrs@[k as int] == ins);
                assert(instrs@.contains(ins));
            }
            prog.push(ins);
            let ghost pushed = prog@;
            let sub = try_all(term, prog, instrs, len - 1);
            if sub {
                proof {
                    assert(prog@.take(base.len() as int) =~= base);
                }
                return true;
            }
            proof {
                assert(pushed == base.push(ins));
                assert(refuses_all(*term, pushed, instrs@, len - 1));
                assert forall|s: Seq<Instruction>|
                    (s.len() == len as int && (forall|i: int|
                        0 <= i < s.len() ==> instrs@.contains(#[trigger] s[i])) && (exists|j: int|
                        0 <= j < k + 1 && instrs@[j] == s[0])) implies exists|
                    w: Vec<Instruction>,
                | w@ == base + s && call_ensures(*term, (&w,), false) by {
                    if exists|j: int| 0 <= j < k && instrs@[j] == s[0] {
                        // this first instruction was covered by an earlier
                        // iteration
                        assert(s.len() == len as int);
                    } else {
                        let j0 = choose|j0: int| 0 <= j0 < k + 1 && instrs@[j0] == s[0];
                        assert(j0 == k as int);
                        assert(s[0] == ins);
                        let t = s.skip(1);
                        assert(t.len() == len - 1);
                        assert forall|i: int| 0 <= i < t.len() implies instrs@.contains(
                            #[trigger] t[i],
                        ) by {
                            assert(t[i] == s[i + 1]);
                        }
                        let w = choose|w: Vec<Instruction>|
                            w@ == pushed + t && call_ensures(*term, (&w,), false);
                        assert(pushed + t =~= base + s);
                        assert(w@ == base + s && call_ensures(*term, (&w,), false));
                    }
                }
            }
            prog.pop();
            proof {
                assert(prog@ =~= base);
            }
            k += 1;
        }
        proof {
            assert forall|s: Seq<Instruction>|
                (s.len() == len as int && (forall|i: int|
                    0 <= i < s.len() ==> instrs@.contains(#[trigger] s[i]))) implies exists|
                w: Vec<Instruction>,
            | w@ == base + s && call_ensures(*term, (&w,), false) by {
                assert(instrs@.contains(s[0]));
            }
        }
        false
    }
}

/// Vectorizes the templates into the concrete instruction alphabet, then
/// enumerates every program of length 1, 2, ... up to the fixed ceiling of
/// 9, in alphabet order, and returns the first sequence the acceptance
/// predicate accepts. Nothing is returned only when every sequence of every
/// length up to the ceiling was tried and refused — a normal outcome, not an
/// error; and a found program is of minimal length: every shorter candidate
/// was refused first.
pub fn exhaustive_search<F: Fn(&Vec<Instruction>) -> bool>(
    found_it: F,
    instructions: Vec<Instruction>,
    constants: Vec<i8>,
    vars: Vec<u16>,
) -> (r: Option<Vec<Instruction>>)
    requires
        forall|p: Vec<Instruction>|
            (1 <= p@.len() <= 9 && (forall|i: int|
                0 <= i < p@.len() ==> vectorized(instructions@, constants@, vars@).contains(
                    #[trigger] p@[i],
                ))) ==> #[trigger] call_requires(found_it, (&p,)),
    ensures
        r matches Some(prog) ==> {
            &&& 1 <= prog@.len() <= 9
            &&& forall|i: int|
                0 <= i < prog@.len() ==> vectorized(instructions@, constants@, vars@).contains(
                    #[trigger] prog@[i],
                )
            &&& exists|p: Vec<Instruction>| p@ == prog@ && call_ensures(found_it, (&p,), true)
            &&& forall|s: Seq<Instruction>|
                #![trigger s.len()]
                (1 <= s.len() < prog@.len() && (forall|i: int|
                    0 <= i < s.len() ==> vectorized(instructions@, constants@, vars@).contains(
                        #[trigger] s[i],
                    ))) ==> exists|w: Vec<Instruction>|
                    w@ == s && call_ensures(found_it, (&w,), false)
            &&& (forall|i: int|
                0 <= i < instructions@.len() ==> (#[trigger] instructions@[i]).wf()) ==> forall|
                i: int,
            |
                0 <= i < prog@.len() ==> (#[trigger] prog@[i]).wf()
        },
        r is None ==> forall|s: Seq<Instruction>|
            #![trigger s.len()]
            (1 <= s.len() <= 9 && (forall|i: int|
                0 <= i < s.len() ==> vectorized(instructions@, constants@, vars@).contains(
                    #[trigger] s[i],
                ))) ==> exists|w: Vec<Instruction>| w@ == s && call_ensures(found_it, (&w,), false),
{
    let mut instrs: Vec<Instruction> = Vec::new();
    let mut t: usize = 0;
    while t < instructions.len()
        invariant
            t <= instructions@.len(),
            instrs@ == vectorized_prefix(instructions@, constants@, vars@, t as int),
        decreases instructions@.len() - t,
    {
        instructions[t].vectorize(&mut instrs, constants.as_slice(), vars.as_slice());
        t += 1;
    }
    assert(instrs@ == vectorized(instructions@, constants@, vars@));

    let mut i: u32 = 1;
    while i < 10
        invariant
            1 <= i <= 10,
            instrs@ == vectorized(instructions@, constants@, vars@),
            forall|p: Vec<Instruction>|
                (1 <= p@.len() <= 9 && (forall|j: int|
                    0 <= j < p@.len() ==> instrs@.contains(#[trigger] p@[j])))
                    ==> #[trigger] call_requires(found_it, (&p,)),
            forall|s: Seq<Instruction>|
                #![trigger s.len()]
                (1 <= s.len() < i && (forall|j: int|
                    0 <= j < s.len() ==> instrs@.contains(#[trigger] s[j]))) ==> exists|
                    w: Vec<Instruction>,
                |
                    w@ == s && call_ensures(found_it, (&w,), false),
        decreases 10 - i,
    {
        let mut buf: Vec<Instruction> = Vec::new();
        proof {
            assert forall|p: Vec<Instruction>|
                (p@.len() == buf@.len() + i && (forall|j: int|
                    0 <= j < p@.len() ==> instrs@.contains(#[trigger] p@[j]))) implies call_requires(
                found_it,
                (&p,),
            ) by {
                assert(1 <= p@.len() <= 9);
            }
        }
        let found = try_all(&found_it, &mut buf, &instrs, i);
        if found {
            proof {
                if forall|k: int| 0 <= k < instructions@.len() ==> (
                #[trigger] instructions@[k]).wf() {
                    lemma_vectorized_wf(instructions@, constants@, vars@);
                    assert forall|k: int| 0 <= k < buf@.len() implies (#[trigger] buf@[k]).wf() by {
                        assert(instrs@.contains(buf@[k]));
                        let w = choose|w: int| 0 <= w < instrs@.len() && instrs@[w] == buf@[k];
                        assert(instrs@[w].wf());
                    }
                }
            }
            return Some(buf);
        }
        proof {
            assert(refuses_all(found_it, Seq::<Instruction>::empty(), instrs@, i as int));
            assert forall|s: Seq<Instruction>|
                #![trigger s.len()]
                (1 <= s.len() < i + 1 && (forall|j: int|
                    0 <= j < s.len() ==> instrs@.contains(#[trigger] s[j]))) implies exists|
                w: Vec<Instruction>,
            | w@ == s && call_ensures(found_it, (&w,), false) by {
                if s.len() == i as int {
                    let w = choose|w: Vec<Instruction>|
                        w@ == Seq::<Instruction>::empty() + s && call_ensures(
                            found_it,
                            (&w,),
                            false,
                        );
                    assert(Seq::<Instruction>::empty() + s =~= s);
                    assert(w@ == s && call_ensures(found_it, (&w,), false));
                }
            }
        }
        i += 1;
    }
    None
}

} // verus!
