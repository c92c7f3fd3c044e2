//! Circuit execution planning and bookkeeping.
//!
//! The simulator owns the deterministic pseudo-random source and records
//! measured bits; the planner lowers each instruction to the elementary
//! kernel operations the numeric layer applies to the amplitude array.
//! Composite gates (Toffoli, Fredkin) expand here into their fixed
//! elementary sequences.

use vstd::prelude::*;
use vstd::string::StringExecFns;

use crate::circuit::{Instruction, InstrView};
use crate::error::QuasarError;
use crate::gate::{AngleBits, Gate, GateParams, GateType};

verus! {

/// Measurement results from one circuit execution: one slot per declared
/// classical bit, 0 unless a measure instruction wrote it.
pub struct MeasurementResult {
    /// Classical bit values (index -> value)
    pub bits: Vec<u8>,
}

/// The little-endian integer a bit record denotes: bit `i` of the result
/// is slot `i` of the record.
pub open spec fn bits_as_int(bits: Seq<u8>) -> u64
    decreases bits.len(),
{
    if bits.len() == 0 {
        0u64
    } else {
        bits_as_int(bits.drop_last()) | ((bits.last() as u64) << ((bits.len() - 1) as u64))
    }
}

impl MeasurementResult {
    /// Create a new measurement result with every bit clear.
    pub fn new(num_clbits: usize) -> (r: Self)
        ensures
            r.bits@ == Seq::new(num_clbits as nat, |i: int| 0u8),
    {
        let mut bits: Vec<u8> = Vec::new();
        let mut k: usize = 0;
        while k < num_clbits
            invariant
                k <= num_clbits,
                bits@ == Seq::new(k as nat, |i: int| 0u8),
            decreases num_clbits - k,
        {
            bits.push(0);
            k = k + 1;
            proof {
                assert(bits@ =~= Seq::new(k as nat, |i: int| 0u8));
            }
        }
        MeasurementResult { bits }
    }

    /// Get the result as a bitstring, one character per classical bit in
    /// index order: '0' for a clear bit, '1' for anything else.
    pub fn bitstring(&self) -> (s: String)
        ensures
            s@.len() == self.bits@.len(),
            forall|i: int|
                0 <= i < self.bits@.len() ==> s@[i] == (if self.bits@[i] == 0 {
                    '0'
                } else {
                    '1'
                }),
    {
        proof {
            reveal_strlit("0");
            reveal_strlit("1");
        }
        let mut s = String::new();
        let mut k: usize = 0;
        while k < self.bits.len()
            invariant
                k <= self.bits@.len(),
                s@.len() == k,
                forall|i: int|
                    0 <= i < k ==> s@[i] == (if self.bits@[i] == 0 {
                        '0'
                    } else {
                        '1'
                    }),
            decreases self.bits@.len() - k,
        {
            proof {
                reveal_strlit("0");
                reveal_strlit("1");
            }
            if self.bits[k] == 0 {
                s.append("0");
            } else {
                s.append("1");
            }
            k = k + 1;
        }
        s
    }

    /// Get the result as an integer, classical bit `i` at bit `i`
    /// (little-endian). The record must fit in 64 bits.
    pub fn as_int(&self) -> (n: u64)
        requires
            self.bits@.len() <= 64,
        ensures
            n == bits_as_int(self.bits@),
    {
        let mut acc: u64 = 0;
        let mut k: usize = 0;
        while k < self.bits.len()
            invariant
                k <= self.bits@.len(),
                self.bits@.len() <= 64,
                acc == bits_as_int(self.bits@.take(k as int)),
            decreases self.bits@.len() - k,
        {
            let b = self.bits[k];
            acc = acc | ((b as u64) << (k as u64));
            k = k + 1;
            proof {
                let cur = self.bits@.take(k as int);
                assert(cur.drop_last() =~= self.bits@.take(k - 1 as int));
                assert(cur.last() == self.bits@[k - 1 as int]);
            }
        }
        proof {
            assert(self.bits@.take(self.bits@.len() as int) =~= self.bits@);
        }
        acc
    }
}

/// The default pseudo-random seed used when none is supplied.
pub const DEFAULT_RNG_STATE: u64 = 0x853c49e6748fea9b;

/// One step of the xorshift64 generator.
pub open spec fn xorshift_step(x: u64) -> u64 {
    let a = x ^ (x << 13u64);
    let b = a ^ (a >> 7u64);
    b ^ (b << 17u64)
}

/// The quantum circuit simulator's deterministic state: the seed it was
/// built with (if any) and the current pseudo-random state.
///
/// The numeric layer drives it: it draws one raw 64-bit value per measure
/// or reset operation and maps it to a float in [0, 1).
#[derive(Clone, Debug)]
pub struct Simulator {
    seed: Option<u64>,
    rng_state: u64,
}

impl Simulator {
    /// The seed this simulator was constructed with, if one was supplied.
    pub closed spec fn spec_seed(self) -> Option<u64> {
        self.seed
    }

    /// The current pseudo-random state.
    pub closed spec fn spec_state(self) -> u64 {
        self.rng_state
    }

    /// Create a new simulator with the fixed default random state and no
    /// explicit seed.
    pub fn new() -> (r: Self)
        ensures
            r.spec_seed() is None,
            r.spec_state() == DEFAULT_RNG_STATE,
    {
        Simulator { seed: None, rng_state: DEFAULT_RNG_STATE }
    }

    /// Create a simulator with a specific seed for reproducibility.
    pub fn with_seed(seed: u64) -> (r: Self)
        ensures
            r.spec_seed() == Some(seed),
            r.spec_state() == seed,
    {
        Simulator { seed: Some(seed), rng_state: seed }
    }

    /// Advance the xorshift64 generator one step and return the new raw
    /// state. The draw sequence is a function of the seed alone.
    pub fn next_state(&mut self) -> (r: u64)
        ensures
            final(self).spec_state() == xorshift_step(old(self).spec_state()),
            final(self).spec_seed() == old(self).spec_seed(),
            r == final(self).spec_state(),
    {
        let mut x = self.rng_state;
        x = x ^ (x << 13u64);
        x = x ^ (x >> 7u64);
        x = x ^ (x << 17u64);
        self.rng_state = x;
        x
    }

    /// Rewind the generator to the explicit seed, if one was supplied;
    /// multi-shot sampling calls this before its first shot so that a
    /// seeded simulator reproduces the same counts every time.
    pub fn reseed(&mut self)
        ensures
            final(self).spec_seed() == old(self).spec_seed(),
            final(self).spec_state() == (match old(self).spec_seed() {
                Some(s) => s,
                None => old(self).spec_state(),
            }),
    {
        match self.seed {
            Some(s) => {
                self.rng_state = s;
            },
            None => {},
        }
    }
}

/// The 2x2 matrix a single-qubit kernel operation applies, by name;
/// rotation kinds carry their angle as a float bit pattern.
#[derive(Clone, Copy, Debug, PartialEq, Eq)]
pub enum MatrixKind {
    /// Identity matrix
    I,
    /// Pauli-X matrix
    X,
    /// Pauli-Y matrix
    Y,
    /// Pauli-Z matrix
    Z,
    /// Hadamard matrix
    H,
    /// S matrix
    S,
    /// S-dagger matrix
    Sdg,
    /// T matrix
    T,
    /// T-dagger matrix
    Tdg,
    /// X-rotation by the angle with this bit pattern
    Rx(AngleBits),
    /// Y-rotation by the angle with this bit pattern
    Ry(AngleBits),
    /// Z-rotation by the angle with this bit pattern
    Rz(AngleBits),
    /// Phase matrix for the angle with this bit pattern
    P(AngleBits),
    /// General unitary for the three angles with these bit patterns
    U(AngleBits, AngleBits, AngleBits),
}

/// One elementary operation on the amplitude array, the unit the numeric
/// layer executes. All indices have been bounds-checked by the planner.
#[derive(Clone, Copy, Debug, PartialEq, Eq)]
pub enum KernelOp {
    /// Apply a 2x2 matrix to one qubit.
    Single {
        /// Target qubit
        qubit: usize,
        /// Which matrix to apply
        kind: MatrixKind,
    },
    /// Apply a 2x2 matrix to a target qubit where a control qubit is 1.
    Controlled {
        /// Control qubit
        control: usize,
        /// Target qubit
        target: usize,
        /// Which matrix to apply
        kind: MatrixKind,
    },
    /// Exchange the amplitudes of two qubits (the 4x4 SWAP matrix).
    SwapPair {
        /// First qubit
        q0: usize,
        /// Second qubit
        q1: usize,
    },
    /// Measure one qubit, drawing one random value, optionally recording
    /// the outcome in a classical bit.
    Measure {
        /// Measured qubit
        qubit: usize,
        /// Classical bit to record into, if one was named
        clbit: Option<usize>,
    },
    /// Reset one qubit to the zero state, drawing one random value.
    Reset {
        /// Reset qubit
        qubit: usize,
    },
}

/// The matrix kind of a single-qubit gate, or None for multi-qubit and
/// non-unitary gates and for parameters not matching their declared shape.
pub open spec fn matrix_kind_of(g: Gate) -> Option<MatrixKind> {
    match g.gate_type {
        GateType::I => Some(MatrixKind::I),
        GateType::X => Some(MatrixKind::X),
        GateType::Y => Some(MatrixKind::Y),
        GateType::Z => Some(MatrixKind::Z),
        GateType::H => Some(MatrixKind::H),
        GateType::S => Some(MatrixKind::S),
        GateType::Sdg => Some(MatrixKind::Sdg),
        GateType::T => Some(MatrixKind::T),
        GateType::Tdg => Some(MatrixKind::Tdg),
        GateType::Rx => match g.params {
            GateParams::Angle(t) => Some(MatrixKind::Rx(t)),
            _ => None,
        },
        GateType::Ry => match g.params {
            GateParams::Angle(t) => Some(MatrixKind::Ry(t)),
            _ => None,
        },
        GateType::Rz => match g.params {
            GateParams::Angle(t) => Some(MatrixKind::Rz(t)),
            _ => None,
        },
        GateType::P => match g.params {
            GateParams::Angle(t) => Some(MatrixKind::P(t)),
            _ => None,
        },
        GateType::U => match g.params {
            GateParams::Angles3(t, p, l) => Some(MatrixKind::U(t, p, l)),
            _ => None,
        },
        _ => None,
    }
}

/// The fixed elementary sequence the Toffoli gate expands into: the
/// standard Clifford+T decomposition over controls `c1`, `c2` and target
/// `t`, ending with an S on `c2`.
pub open spec fn ccx_ops(c1: usize, c2: usize, t: usize) -> Seq<KernelOp> {
    seq![
        KernelOp::Single { qubit: t, kind: MatrixKind::H },
        KernelOp::Controlled { control: c2, target: t, kind: MatrixKind::X },
        KernelOp::Single { qubit: t, kind: MatrixKind::Tdg },
        KernelOp::Controlled { control: c1, target: t, kind: MatrixKind::X },
        KernelOp::Single { qubit: t, kind: MatrixKind::T },
        KernelOp::Controlled { control: c2, target: t, kind: MatrixKind::X },
        KernelOp::Single { qubit: t, kind: MatrixKind::Tdg },
        KernelOp::Controlled { control: c1, target: t, kind: MatrixKind::X },
        KernelOp::Single { qubit: c2, kind: MatrixKind::T },
        KernelOp::Single { qubit: t, kind: MatrixKind::T },
        KernelOp::Single { qubit: t, kind: MatrixKind::H },
        KernelOp::Controlled { control: c1, target: c2, kind: MatrixKind::X },
        KernelOp::Single { qubit: c2, kind: MatrixKind::Tdg },
        KernelOp::Controlled { control: c1, target: c2, kind: MatrixKind::X },
        KernelOp::Single { qubit: c1, kind: MatrixKind::T },
        KernelOp::Single { qubit: c2, kind: MatrixKind::S },
    ]
}

/// The fixed elementary sequence the Fredkin gate expands into:
/// CNOT(t2, t1), then the Toffoli expansion over (control, t1, t2), then
/// CNOT(t2, t1) again.
pub open spec fn cswap_ops(control: usize, t1: usize, t2: usize) -> Seq<KernelOp> {
    seq![KernelOp::Controlled { control: t2, target: t1, kind: MatrixKind::X }] + ccx_ops(
        control,
        t1,
        t2,
    ) + seq![KernelOp::Controlled { control: t2, target: t1, kind: MatrixKind::X }]
}

/// The first index in `s` at or above `bound`, if any.
pub open spec fn first_oob(s: Seq<usize>, bound: usize) -> Option<usize>
    decreases s.len(),
{
    if s.len() == 0 {
        None
    } else if s[0] >= bound {
        Some(s[0])
    } else {
        first_oob(s.drop_first(), bound)
    }
}

proof fn lemma_first_oob_hit(s: Seq<usize>, bound: usize, k: int)
    requires
        0 <= k < s.len(),
        forall|j: int| 0 <= j < k ==> s[j] < bound,
        s[k] >= bound,
    ensures
        first_oob(s, bound) == Some(s[k]),
    decreases k,
{
    if k > 0 {
        lemma_first_oob_hit(s.drop_first(), bound, k - 1);
    }
}

proof fn lemma_first_oob_none(s: Seq<usize>, bound: usize)
    requires
        forall|j: int| 0 <= j < s.len() ==> s[j] < bound,
    ensures
        first_oob(s, bound) is None,
    decreases s.len(),
{
    if s.len() > 0 {
        lemma_first_oob_none(s.drop_first(), bound);
    }
}

/// The error reported for an instruction that names fewer qubits than its
/// gate acts on.
pub open spec fn too_few_qubits_err() -> QuasarError {
    QuasarError::InvalidGateParams { gate: "instruction", message: "too few qubit operands" }
}

/// How an instruction's gate lowers to elementary kernel operations, its
/// indices already known to be in bounds.
pub open spec fn plan_gate(iv: InstrView) -> Result<Seq<KernelOp>, QuasarError> {
    let g = iv.gate;
    match g.gate_type {
        GateType::Barrier => Ok(Seq::empty()),
        GateType::Measure => if iv.qubits.len() < 1 {
            Err(too_few_qubits_err())
        } else {
            Ok(
                seq![
                    KernelOp::Measure {
                        qubit: iv.qubits[0],
                        clbit: if iv.clbits.len() > 0 {
                            Some(iv.clbits[0])
                        } else {
                            None
                        },
                    },
                ],
            )
        },
        GateType::Reset => if iv.qubits.len() < 1 {
            Err(too_few_qubits_err())
        } else {
            Ok(seq![KernelOp::Reset { qubit: iv.qubits[0] }])
        },
        GateType::CX => plan_controlled(iv, MatrixKind::X),
        GateType::CY => plan_controlled(iv, MatrixKind::Y),
        GateType::CZ => plan_controlled(iv, MatrixKind::Z),
        GateType::CH => plan_controlled(iv, MatrixKind::H),
        GateType::CP => match g.params {
            GateParams::Angle(t) => plan_controlled(iv, MatrixKind::P(t)),
            _ => Err(
                QuasarError::InvalidGateParams {
                    gate: "controlled-phase",
                    message: "missing its angle",
                },
            ),
        },
        GateType::Swap => if iv.qubits.len() < 2 {
            Err(too_few_qubits_err())
        } else {
            Ok(seq![KernelOp::SwapPair { q0: iv.qubits[0], q1: iv.qubits[1] }])
        },
        GateType::CCX => if iv.qubits.len() < 3 {
            Err(too_few_qubits_err())
        } else {
            Ok(ccx_ops(iv.qubits[0], iv.qubits[1], iv.qubits[2]))
        },
        GateType::CSwap => if iv.qubits.len() < 3 {
            Err(too_few_qubits_err())
        } else {
            Ok(cswap_ops(iv.qubits[0], iv.qubits[1], iv.qubits[2]))
        },
        GateType::ISwap | GateType::SqrtSwap | GateType::CU => Err(
            QuasarError::NotSupported { operation: "gate type not implemented" },
        ),
        _ => if iv.qubits.len() < 1 {
            Err(too_few_qubits_err())
        } else {
            match matrix_kind_of(g) {
                Some(kind) => Ok(seq![KernelOp::Single { qubit: iv.qubits[0], kind }]),
                None => Err(QuasarError::NotSupported { operation: "gate has no 2x2 matrix" }),
            }
        },
    }
}

/// Lowering of a two-qubit controlled gate applying the given matrix.
pub open spec fn plan_controlled(iv: InstrView, kind: MatrixKind) -> Result<
    Seq<KernelOp>,
    QuasarError,
> {
    if iv.qubits.len() < 2 {
        Err(too_few_qubits_err())
    } else {
        Ok(seq![KernelOp::Controlled { control: iv.qubits[0], target: iv.qubits[1], kind }])
    }
}

/// How one instruction lowers to elementary kernel operations against a
/// register of `nq` qubits and `nc` classical bits: the first qubit index
/// out of range is reported, then the first classical-bit index out of
/// range, then its gate is expanded by [`plan_gate`].
pub open spec fn plan_spec(iv: InstrView, nq: usize, nc: usize) -> Result<
    Seq<KernelOp>,
    QuasarError,
> {
    match first_oob(iv.qubits, nq) {
        Some(q) => Err(QuasarError::QubitOutOfRange { qubit: q, max: nq }),
        None => match first_oob(iv.clbits, nc) {
            Some(c) => Err(QuasarError::ClbitOutOfRange { clbit: c, max: nc }),
            None => plan_gate(iv),
        },
    }
}

/// Scan an index list for the first entry at or above `bound`.
fn find_oob(v: &Vec<usize>, bound: usize) -> (r: Option<usize>)
    ensures
        r == first_oob(v@, bound),
{
    let mut k: usize = 0;
    while k < v.len()
        invariant
            k <= v@.len(),
            forall|j: int| 0 <= j < k ==> v@[j] < bound,
        decreases v@.len() - k,
    {
        if v[k] >= bound {
            proof {
                lemma_first_oob_hit(v@, bound, k as int);
            }
            return Some(v[k]);
        }
        k = k + 1;
    }
    proof {
        lemma_first_oob_none(v@, bound);
    }
    None
}

/// Lower one instruction to the elementary kernel operations it performs
/// on a register of `num_qubits` qubits and `num_clbits` classical bits.
///
/// Every qubit and classical-bit index is validated here, at the dispatch
/// boundary; composite gates expand into their fixed elementary
/// sequences; an unimplemented gate, or one whose parameters do not match
/// their declared shape, is rejected. [`plan_spec`] states the result
/// exactly.
pub fn plan_instruction(inst: &Instruction, num_qubits: usize, num_clbits: usize) -> (r: Result<
    Vec<KernelOp>,
    QuasarError,
>)
    ensures
        match r {
            Ok(ops) => plan_spec(inst@, num_qubits, num_clbits) == Ok::<_, QuasarError>(ops@),
            Err(e) => plan_spec(inst@, num_qubits, num_clbits) == Err::<Seq<KernelOp>, _>(e),
        },
{
    if let Some(q) = find_oob(&inst.qubits, num_qubits) {
        return Err(QuasarError::QubitOutOfRange { qubit: q, max: num_qubits });
    }
    if let Some(c) = find_oob(&inst.clbits, num_clbits) {
        return Err(QuasarError::ClbitOutOfRange { clbit: c, max: num_clbits });
    }
    let mut ops: Vec<KernelOp> = Vec::new();
    match inst.gate.gate_type {
        GateType::Barrier => {
            proof {
                assert(ops@ =~= Seq::<KernelOp>::empty());
            }
        },
        GateType::Measure => {
            if inst.qubits.len() < 1 {
                return Err(
                    QuasarError::InvalidGateParams {
                        gate: "instruction",
                        message: "too few qubit operands",
                    },
                );
            }
            let clbit = if inst.clbits.len() > 0 {
                Some(inst.clbits[0])
            } else {
                None
            };
            ops.push(KernelOp::Measure { qubit: inst.qubits[0], clbit });
            proof {
                assert(ops@ =~= plan_gate(inst@)->Ok_0);
            }
        },
        GateType::Reset => {
            if inst.qubits.len() < 1 {
                return Err(
                    QuasarError::InvalidGateParams {
                        gate: "instruction",
                        message: "too few qubit operands",
                    },
                );
            }
            ops.push(KernelOp::Reset { qubit: inst.qubits[0] });
            proof {
                assert(ops@ =~= plan_gate(inst@)->Ok_0);
            }
        },
        GateType::CX => {
            push_controlled(&mut ops, inst, MatrixKind::X)?;
        },
        GateType::CY => {
            push_controlled(&mut ops, inst, MatrixKind::Y)?;
        },
        GateType::CZ => {
            push_controlled(&mut ops, inst, MatrixKind::Z)?;
        },
        GateType::CH => {
            push_controlled(&mut ops, inst, MatrixKind::H)?;
        },
        GateType::CP => {
            match inst.gate.params {
                GateParams::Angle(t) => {
                    push_controlled(&mut ops, inst, MatrixKind::P(t))?;
                },
                _ => {
                    return Err(
                        QuasarError::InvalidGateParams {
                            gate: "controlled-phase",
                            message: "missing its angle",
                        },
                    );
                },
            }
        },
        GateType::Swap => {
            if inst.qubits.len() < 2 {
                return Err(
                    QuasarError::InvalidGateParams {
                        gate: "instruction",
                        message: "too few qubit operands",
                    },
                );
            }
            ops.push(KernelOp::SwapPair { q0: inst.qubits[0], q1: inst.qubits[1] });
            proof {
                assert(ops@ =~= plan_gate(inst@)->Ok_0);
            }
        },
        GateType::CCX => {
            if inst.qubits.len() < 3 {
                return Err(
                    QuasarError::InvalidGateParams {
                        gate: "instruction",
                        message: "too few qubit operands",
                    },
                );
            }
            push_ccx(&mut ops, inst.qubits[0], inst.qubits[1], inst.qubits[2]);
        },
        GateType::CSwap => {
            if inst.qubits.len() < 3 {
                return Err(
                    QuasarError::InvalidGateParams {
                        gate: "instruction",
                        message: "too few qubit operands",
                    },
                );
            }
            let control = inst.qubits[0];
            let t1 = inst.qubits[1];
            let t2 = inst.qubits[2];
            ops.push(KernelOp::Controlled { control: t2, target: t1, kind: MatrixKind::X });
            push_ccx(&mut ops, control, t1, t2);
            ops.push(KernelOp::Controlled { control: t2, target: t1, kind: MatrixKind::X });
            proof {
                assert(ops@ =~= cswap_ops(control, t1, t2));
            }
        },
        GateType::ISwap | GateType::SqrtSwap | GateType::CU => {
            return Err(QuasarError::NotSupported { operation: "gate type not implemented" });
        },
        _ => {
            if inst.qubits.len() < 1 {
                return Err(
                    QuasarError::InvalidGateParams {
                        gate: "instruction",
                        message: "too few qubit operands",
                    },
                );
            }
            match single_matrix_kind(&inst.gate) {
                Some(kind) => {
                    ops.push(KernelOp::Single { qubit: inst.qubits[0], kind });
                    proof {
                        assert(ops@ =~= plan_gate(inst@)->Ok_0);
                    }
                },
                None => {
                    return Err(
                        QuasarError::NotSupported { operation: "gate has no 2x2 matrix" },
                    );
                },
            }
        },
    }
    Ok(ops)
}

/// Append the controlled-gate lowering for a two-qubit instruction.
fn push_controlled(ops: &mut Vec<KernelOp>, inst: &Instruction, kind: MatrixKind) -> (r: Result<
    (),
    QuasarError,
>)
    requires
        old(ops)@ == Seq::<KernelOp>::empty(),
    ensures
        match r {
            Ok(_) => plan_controlled(inst@, kind) == Ok::<_, QuasarError>(final(ops)@),
            Err(e) => plan_controlled(inst@, kind) == Err::<Seq<KernelOp>, _>(e) && final(ops)@
                == old(ops)@,
        },
{
    if inst.qubits.len() < 2 {
        return Err(
            QuasarError::InvalidGateParams {
                gate: "instruction",
                message: "too few qubit operands",
            },
        );
    }
    ops.push(KernelOp::Controlled { control: inst.qubits[0], target: inst.qubits[1], kind });
    proof {
        assert(ops@ =~= plan_controlled(inst@, kind)->Ok_0);
    }
    Ok(())
}

/// Append the fixed Toffoli expansion over (c1, c2, t).
fn push_ccx(ops: &mut Vec<KernelOp>, c1: usize, c2: usize, t: usize)
    ensures
        final(ops)@ == old(ops)@ + ccx_ops(c1, c2, t),
{
    ops.push(KernelOp::Single { qubit: t, kind: MatrixKind::H });
    ops.push(KernelOp::Controlled { control: c2, target: t, kind: MatrixKind::X });
    ops.push(KernelOp::Single { qubit: t, kind: MatrixKind::Tdg });
    ops.push(KernelOp::Controlled { control: c1, target: t, kind: MatrixKind::X });
    ops.push(KernelOp::Single { qubit: t, kind: MatrixKind::T });
    ops.push(KernelOp::Controlled { control: c2, target: t, kind: MatrixKind::X });
    ops.push(KernelOp::Single { qubit: t, kind: MatrixKind::Tdg });
    ops.push(KernelOp::Controlled { control: c1, target: t, kind: MatrixKind::X });
    ops.push(KernelOp::Single { qubit: c2, kind: MatrixKind::T });
    ops.push(KernelOp::Single { qubit: t, kind: MatrixKind::T });
    ops.push(KernelOp::Single { qubit: t, kind: MatrixKind::H });
    ops.push(KernelOp::Controlled { control: c1, target: c2, kind: MatrixKind::X });
    ops.push(KernelOp::Single { qubit: c2, kind: MatrixKind::Tdg });
    ops.push(KernelOp::Controlled { control: c1, target: c2, kind: MatrixKind::X });
    ops.push(KernelOp::Single { qubit: c1, kind: MatrixKind::T });
    ops.push(KernelOp::Single { qubit: c2, kind: MatrixKind::S });
    proof {
        assert(ops@ =~= old(ops)@ + ccx_ops(c1, c2, t));
    }
}

/// The matrix kind of a single-qubit gate, or None when it has no direct
/// 2x2 matrix.
pub fn single_matrix_kind(g: &Gate) -> (r: Option<MatrixKind>)
    ensures
        r == matrix_kind_of(*g),
{
    match g.gate_type {
        GateType::I => Some(MatrixKind::I),
        GateType::X => Some(MatrixKind::X),
        GateType::Y => Some(MatrixKind::Y),
        GateType::Z => Some(MatrixKind::Z),
        GateType::H => Some(MatrixKind::H),
        GateType::S => Some(MatrixKind::S),
        GateType::Sdg => Some(MatrixKind::Sdg),
        GateType::T => Some(MatrixKind::T),
        GateType::Tdg => Some(MatrixKind::Tdg),
        GateType::Rx => match g.params {
            GateParams::Angle(t) => Some(MatrixKind::Rx(t)),
            _ => None,
        },
        GateType::Ry => match g.params {
            GateParams::Angle(t) => Some(MatrixKind::Ry(t)),
            _ => None,
        },
        GateType::Rz => match g.params {
            GateParams::Angle(t) => Some(MatrixKind::Rz(t)),
            _ => None,
        },
        GateType::P => match g.params {
            GateParams::Angle(t) => Some(MatrixKind::P(t)),
            _ => None,
        },
        GateType::U => match g.params {
            GateParams::Angles3(t, p, l) => Some(MatrixKind::U(t, p, l)),
            _ => None,
        },
        _ => None,
    }
}

} // verus!
