//! Quantum circuit builder.
//!
//! Fluent API for constructing quantum circuits. A circuit is an ordered
//! instruction list over a declared number of qubits and classical bits;
//! nothing here touches amplitudes.

use vstd::pervasive::VecAdditionalExecFns;
use vstd::prelude::*;

use crate::error::QuasarError;
use crate::gate::{AngleBits, Gate, GateType, NUM_GATE_TYPES};

verus! {

/// A quantum instruction: gate + target qubits (+ classical bits).
#[derive(Debug)]
pub struct Instruction {
    /// Gate to apply
    pub gate: Gate,
    /// Target qubit indices
    pub qubits: Vec<usize>,
    /// Classical bit indices (for measurement)
    pub clbits: Vec<usize>,
}

/// Mathematical image of an [`Instruction`]: its gate plus the index
/// sequences it targets.
#[verifier::ext_equal]
pub ghost struct InstrView {
    /// Gate to apply
    pub gate: Gate,
    /// Target qubit indices
    pub qubits: Seq<usize>,
    /// Classical bit indices
    pub clbits: Seq<usize>,
}

impl View for Instruction {
    type V = InstrView;

    open spec fn view(&self) -> InstrView {
        InstrView { gate: self.gate, qubits: self.qubits@, clbits: self.clbits@ }
    }
}

/// The instruction a single-qubit (or single-target) gate produces.
pub open spec fn gate1(t: GateType, q: usize) -> InstrView {
    InstrView { gate: Gate::bare(t), qubits: seq![q], clbits: Seq::empty() }
}

/// The instruction a one-angle gate produces.
pub open spec fn gate1p(t: GateType, theta: AngleBits, q: usize) -> InstrView {
    InstrView {
        gate: Gate { gate_type: t, params: crate::gate::GateParams::Angle(theta) },
        qubits: seq![q],
        clbits: Seq::empty(),
    }
}

/// The instruction a two-qubit gate produces.
pub open spec fn gate2(t: GateType, a: usize, b: usize) -> InstrView {
    InstrView { gate: Gate::bare(t), qubits: seq![a, b], clbits: Seq::empty() }
}

/// The instruction a one-angle two-qubit gate produces.
pub open spec fn gate2p(t: GateType, theta: AngleBits, a: usize, b: usize) -> InstrView {
    InstrView {
        gate: Gate { gate_type: t, params: crate::gate::GateParams::Angle(theta) },
        qubits: seq![a, b],
        clbits: Seq::empty(),
    }
}

/// The instruction a three-qubit gate produces.
pub open spec fn gate3(t: GateType, a: usize, b: usize, c: usize) -> InstrView {
    InstrView { gate: Gate::bare(t), qubits: seq![a, b, c], clbits: Seq::empty() }
}

/// The instruction measuring qubit `q` into classical bit `c` produces.
pub open spec fn measure_iv(q: usize, c: usize) -> InstrView {
    InstrView { gate: Gate::bare(GateType::Measure), qubits: seq![q], clbits: seq![c] }
}

impl Instruction {
    /// Create a new instruction.
    pub fn new(gate: Gate, qubits: Vec<usize>) -> (r: Self)
        ensures
            r@ == (InstrView { gate, qubits: qubits@, clbits: Seq::empty() }),
    {
        Instruction { gate, qubits, clbits: Vec::new() }
    }

    /// Create an instruction with classical bits.
    pub fn with_clbits(gate: Gate, qubits: Vec<usize>, clbits: Vec<usize>) -> (r: Self)
        ensures
            r@ == (InstrView { gate, qubits: qubits@, clbits: clbits@ }),
    {
        Instruction { gate, qubits, clbits }
    }
}

/// A one-element index vector.
fn vec1(a: usize) -> (r: Vec<usize>)
    ensures
        r@ == seq![a],
{
    let mut r: Vec<usize> = Vec::new();
    r.push(a);
    proof {
        assert(r@ =~= seq![a]);
    }
    r
}

/// A two-element index vector.
fn vec2(a: usize, b: usize) -> (r: Vec<usize>)
    ensures
        r@ == seq![a, b],
{
    let mut r: Vec<usize> = Vec::new();
    r.push(a);
    r.push(b);
    proof {
        assert(r@ =~= seq![a, b]);
    }
    r
}

/// A three-element index vector.
fn vec3(a: usize, b: usize, c: usize) -> (r: Vec<usize>)
    ensures
        r@ == seq![a, b, c],
{
    let mut r: Vec<usize> = Vec::new();
    r.push(a);
    r.push(b);
    r.push(c);
    proof {
        assert(r@ =~= seq![a, b, c]);
    }
    r
}

/// Copy a vector of indices element by element.
fn copy_indices(v: &Vec<usize>) -> (r: Vec<usize>)
    ensures
        r@ == v@,
{
    let mut r: Vec<usize> = Vec::new();
    let mut k: usize = 0;
    while k < v.len()
        invariant
            k <= v.len(),
            r@ == v@.take(k as int),
        decreases v.len() - k,
    {
        r.push(v[k]);
        k = k + 1;
        proof {
            assert(r@ =~= v@.take(k as int));
        }
    }
    proof {
        assert(r@ =~= v@);
    }
    r
}

impl Clone for Instruction {
    /// Duplicate the instruction; the copy has the same view.
    fn clone(&self) -> (r: Self)
        ensures
            r@ == self@,
    {
        Instruction {
            gate: self.gate,
            qubits: copy_indices(&self.qubits),
            clbits: copy_indices(&self.clbits),
        }
    }
}

/// Whether every index an instruction references is in bounds for a
/// register of `nq` qubits and `nc` classical bits.
pub open spec fn inst_in_bounds(iv: InstrView, nq: usize, nc: usize) -> bool {
    &&& forall|k: int| 0 <= k < iv.qubits.len() ==> #[trigger] iv.qubits[k] < nq
    &&& forall|k: int| 0 <= k < iv.clbits.len() ==> #[trigger] iv.clbits[k] < nc
}

/// The views of a sequence of instructions, element by element.
pub open spec fn instr_views(v: Seq<Instruction>) -> Seq<InstrView> {
    v.map_values(|i: Instruction| i@)
}

/// Viewing a sequence of instructions keeps its length and views each
/// element in place.
pub proof fn lemma_instr_views_index(v: Seq<Instruction>, i: int)
    requires
        0 <= i < v.len(),
    ensures
        instr_views(v).len() == v.len(),
        instr_views(v)[i] == v[i]@,
{
}

/// Viewing a sequence of instructions commutes with appending one.
pub proof fn lemma_instr_views_push(v: Seq<Instruction>, inst: Instruction)
    ensures
        instr_views(v.push(inst)) == instr_views(v).push(inst@),
{
    assert(instr_views(v.push(inst)) =~~= instr_views(v).push(inst@));
}

/// Viewing a sequence of instructions commutes with taking a subrange.
pub proof fn lemma_instr_views_subrange(v: Seq<Instruction>, a: int, b: int)
    requires
        0 <= a <= b <= v.len(),
    ensures
        instr_views(v.subrange(a, b)) == instr_views(v).subrange(a, b),
{
    assert(instr_views(v.subrange(a, b)) =~~= instr_views(v).subrange(a, b));
}

/// Mathematical image of a [`Circuit`].
#[verifier::ext_equal]
pub ghost struct CircuitView {
    /// Number of qubits
    pub num_qubits: usize,
    /// Number of classical bits
    pub num_clbits: usize,
    /// Instructions in order
    pub instructions: Seq<InstrView>,
    /// Optional name
    pub name: Option<Seq<char>>,
}

/// Whether every instruction of a circuit references only indices in
/// bounds for its declared register sizes.
pub open spec fn circuit_wf(c: CircuitView) -> bool {
    forall|j: int|
        0 <= j < c.instructions.len() ==> inst_in_bounds(
            #[trigger] c.instructions[j],
            c.num_qubits,
            c.num_clbits,
        )
}

/// A quantum circuit: an ordered list of instructions over a declared
/// number of qubits and classical bits.
#[derive(Debug)]
pub struct Circuit {
    num_qubits: usize,
    num_clbits: usize,
    instructions: Vec<Instruction>,
    name: Option<String>,
}

impl View for Circuit {
    type V = CircuitView;

    closed spec fn view(&self) -> CircuitView {
        CircuitView {
            num_qubits: self.num_qubits,
            num_clbits: self.num_clbits,
            instructions: instr_views(self.instructions@),
            name: match self.name {
                Option::Some(s) => Option::Some(s@),
                Option::None => Option::None,
            },
        }
    }
}

/// The view a circuit has after appending one instruction.
pub open spec fn with_inst(c: CircuitView, iv: InstrView) -> CircuitView {
    CircuitView { instructions: c.instructions.push(iv), ..c }
}

impl Circuit {
    /// Whether every instruction of this circuit references only indices
    /// in bounds for its declared register sizes.
    pub open spec fn wf(self) -> bool {
        circuit_wf(self@)
    }

    /// Create a new circuit with the given number of qubits.
    pub fn new(num_qubits: usize) -> (r: Self)
        ensures
            r@ == (CircuitView {
                num_qubits,
                num_clbits: 0usize,
                instructions: Seq::empty(),
                name: Option::None,
            }),
    {
        let c = Circuit { num_qubits, num_clbits: 0, instructions: Vec::new(), name: Option::None };
        proof {
            assert(c@.instructions =~= Seq::<InstrView>::empty());
        }
        c
    }

    /// Create a circuit with qubits and classical bits.
    pub fn with_clbits(num_qubits: usize, num_clbits: usize) -> (r: Self)
        ensures
            r@ == (CircuitView {
                num_qubits,
                num_clbits,
                instructions: Seq::empty(),
                name: Option::None,
            }),
    {
        let c = Circuit { num_qubits, num_clbits, instructions: Vec::new(), name: Option::None };
        proof {
            assert(c@.instructions =~= Seq::<InstrView>::empty());
        }
        c
    }

    /// Set the circuit name.
    pub fn named(self, name: String) -> (r: Self)
        ensures
            r@ == (CircuitView { name: Option::Some(name@), ..self@ }),
    {
        Circuit { name: Option::Some(name), ..self }
    }

    /// Get the number of qubits.
    pub fn num_qubits(&self) -> (n: usize)
        ensures
            n == self@.num_qubits,
    {
        self.num_qubits
    }

    /// Get the circuit name, if one was set.
    pub fn name(&self) -> (r: Option<&String>)
        ensures
            match r {
                Some(s) => self@.name == Some(s@),
                None => self@.name is None,
            },
    {
        match &self.name {
            Some(s) => Some(s),
            None => None,
        }
    }

    /// Get the number of classical bits.
    pub fn num_clbits(&self) -> (n: usize)
        ensures
            n == self@.num_clbits,
    {
        self.num_clbits
    }

    /// Get the instructions.
    pub fn instructions(&self) -> (r: &[Instruction])
        ensures
            instr_views(r@) == self@.instructions,
    {
        self.instructions.as_slice()
    }

    /// Get the number of instructions.
    pub fn len(&self) -> (n: usize)
        ensures
            n == self@.instructions.len(),
    {
        self.instructions.len()
    }

    /// Check if the circuit is empty.
    pub fn is_empty(&self) -> (e: bool)
        ensures
            e == (self@.instructions.len() == 0),
    {
        self.instructions.len() == 0
    }

    /// Add a raw instruction.
    fn push(&mut self, inst: Instruction)
        ensures
            final(self)@ == with_inst(old(self)@, inst@),
    {
        self.instructions.push(inst);
        proof {
            assert(self@.instructions =~= old(self)@.instructions.push(inst@));
        }
    }

    /// Append a raw instruction.
    pub fn append(self, inst: Instruction) -> (r: Self)
        ensures
            r@ == with_inst(self@, inst@),
    {
        let mut c = self;
        c.push(inst);
        c
    }

    /// Apply identity gate.
    pub fn i(self, q: usize) -> (r: Self)
        ensures
            r@ == with_inst(self@, gate1(GateType::I, q)),
    {
        let mut c = self;
        c.push(Instruction::new(Gate::i(), vec1(q)));
        c
    }

    /// Apply Pauli-X (NOT) gate.
    pub fn x(self, q: usize) -> (r: Self)
        ensures
            r@ == with_inst(self@, gate1(GateType::X, q)),
    {
        let mut c = self;
        c.push(Instruction::new(Gate::x(), vec1(q)));
        c
    }

    /// Apply Pauli-Y gate.
    pub fn y(self, q: usize) -> (r: Self)
        ensures
            r@ == with_inst(self@, gate1(GateType::Y, q)),
    {
        let mut c = self;
        c.push(Instruction::new(Gate::y(), vec1(q)));
        c
    }

    /// Apply Pauli-Z gate.
    pub fn z(self, q: usize) -> (r: Self)
        ensures
            r@ == with_inst(self@, gate1(GateType::Z, q)),
    {
        let mut c = self;
        c.push(Instruction::new(Gate::z(), vec1(q)));
        c
    }

    /// Apply Hadamard gate.
    pub fn h(self, q: usize) -> (r: Self)
        ensures
            r@ == with_inst(self@, gate1(GateType::H, q)),
    {
        let mut c = self;
        c.push(Instruction::new(Gate::h(), vec1(q)));
        c
    }

    /// Apply S gate.
    pub fn s(self, q: usize) -> (r: Self)
        ensures
            r@ == with_inst(self@, gate1(GateType::S, q)),
    {
        let mut c = self;
        c.push(Instruction::new(Gate::s(), vec1(q)));
        c
    }

    /// Apply S-dagger gate.
    pub fn sdg(self, q: usize) -> (r: Self)
        ensures
            r@ == with_inst(self@, gate1(GateType::Sdg, q)),
    {
        let mut c = self;
        c.push(Instruction::new(Gate::sdg(), vec1(q)));
        c
    }

    /// Apply T gate.
    pub fn t(self, q: usize) -> (r: Self)
        ensures
            r@ == with_inst(self@, gate1(GateType::T, q)),
    {
        let mut c = self;
        c.push(Instruction::new(Gate::t(), vec1(q)));
        c
    }

    /// Apply T-dagger gate.
    pub fn tdg(self, q: usize) -> (r: Self)
        ensures
            r@ == with_inst(self@, gate1(GateType::Tdg, q)),
    {
        let mut c = self;
        c.push(Instruction::new(Gate::tdg(), vec1(q)));
        c
    }

    /// Apply rotation around X-axis by the angle whose bit pattern is `theta`.
    pub fn rx(self, theta: AngleBits, q: usize) -> (r: Self)
        ensures
            r@ == with_inst(self@, gate1p(GateType::Rx, theta, q)),
    {
        let mut c = self;
        c.push(Instruction::new(Gate::rx(theta), vec1(q)));
        c
    }

    /// Apply rotation around Y-axis by the angle whose bit pattern is `theta`.
    pub fn ry(self, theta: AngleBits, q: usize) -> (r: Self)
        ensures
            r@ == with_inst(self@, gate1p(GateType::Ry, theta, q)),
    {
        let mut c = self;
        c.push(Instruction::new(Gate::ry(theta), vec1(q)));
        c
    }

    /// Apply rotation around Z-axis by the angle whose bit pattern is `theta`.
    pub fn rz(self, theta: AngleBits, q: usize) -> (r: Self)
        ensures
            r@ == with_inst(self@, gate1p(GateType::Rz, theta, q)),
    {
        let mut c = self;
        c.push(Instruction::new(Gate::rz(theta), vec1(q)));
        c
    }

    /// Apply phase gate with the angle whose bit pattern is `theta`.
    pub fn p(self, theta: AngleBits, q: usize) -> (r: Self)
        ensures
            r@ == with_inst(self@, gate1p(GateType::P, theta, q)),
    {
        let mut c = self;
        c.push(Instruction::new(Gate::p(theta), vec1(q)));
        c
    }

    /// Apply general U gate with three angles (bit patterns).
    pub fn u(self, theta: AngleBits, phi: AngleBits, lambda: AngleBits, q: usize) -> (r: Self)
        ensures
            r@ == with_inst(
                self@,
                (InstrView {
                    gate: Gate {
                        gate_type: GateType::U,
                        params: crate::gate::GateParams::Angles3(theta, phi, lambda),
                    },
                    qubits: seq![q],
                    clbits: Seq::empty(),
                }),
            ),
    {
        let mut c = self;
        c.push(Instruction::new(Gate::u(theta, phi, lambda), vec1(q)));
        c
    }

    /// Apply CNOT (CX) gate.
    pub fn cx(self, control: usize, target: usize) -> (r: Self)
        ensures
            r@ == with_inst(self@, gate2(GateType::CX, control, target)),
    {
        let mut c = self;
        c.push(Instruction::new(Gate::cx(), vec2(control, target)));
        c
    }

    /// Apply CY gate.
    pub fn cy(self, control: usize, target: usize) -> (r: Self)
        ensures
            r@ == with_inst(self@, gate2(GateType::CY, control, target)),
    {
        let mut c = self;
        c.push(Instruction::new(Gate::cy(), vec2(control, target)));
        c
    }

    /// Apply CZ gate.
    pub fn cz(self, control: usize, target: usize) -> (r: Self)
        ensures
            r@ == with_inst(self@, gate2(GateType::CZ, control, target)),
    {
        let mut c = self;
        c.push(Instruction::new(Gate::cz(), vec2(control, target)));
        c
    }

    /// Apply CH gate.
    pub fn ch(self, control: usize, target: usize) -> (r: Self)
        ensures
            r@ == with_inst(self@, gate2(GateType::CH, control, target)),
    {
        let mut c = self;
        c.push(Instruction::new(Gate::ch(), vec2(control, target)));
        c
    }

    /// Apply controlled-phase gate with the angle whose bit pattern is `theta`.
    pub fn cp(self, theta: AngleBits, control: usize, target: usize) -> (r: Self)
        ensures
            r@ == with_inst(self@, gate2p(GateType::CP, theta, control, target)),
    {
        let mut c = self;
        c.push(Instruction::new(Gate::cp(theta), vec2(control, target)));
        c
    }

    /// Apply SWAP gate.
    pub fn swap(self, q1: usize, q2: usize) -> (r: Self)
        ensures
            r@ == with_inst(self@, gate2(GateType::Swap, q1, q2)),
    {
        let mut c = self;
        c.push(Instruction::new(Gate::swap(), vec2(q1, q2)));
        c
    }

    /// Apply Toffoli (CCX) gate.
    pub fn ccx(self, c1: usize, c2: usize, target: usize) -> (r: Self)
        ensures
            r@ == with_inst(self@, gate3(GateType::CCX, c1, c2, target)),
    {
        let mut c = self;
        c.push(Instruction::new(Gate::ccx(), vec3(c1, c2, target)));
        c
    }

    /// Apply Fredkin (CSWAP) gate.
    pub fn cswap(self, control: usize, t1: usize, t2: usize) -> (r: Self)
        ensures
            r@ == with_inst(self@, gate3(GateType::CSwap, control, t1, t2)),
    {
        let mut c = self;
        c.push(Instruction::new(Gate::cswap(), vec3(control, t1, t2)));
        c
    }

    /// Measure a qubit into a classical bit.
    pub fn measure(self, q: usize, c: usize) -> (r: Self)
        ensures
            r@ == with_inst(self@, measure_iv(q, c)),
    {
        let mut circ = self;
        circ.push(Instruction::with_clbits(Gate::measure(), vec1(q), vec1(c)));
        circ
    }

    /// Reset a qubit to the zero state.
    pub fn reset(self, q: usize) -> (r: Self)
        ensures
            r@ == with_inst(self@, gate1(GateType::Reset, q)),
    {
        let mut c = self;
        c.push(Instruction::new(Gate::reset(), vec1(q)));
        c
    }

    /// Add a barrier (synchronization point) across the given qubits.
    pub fn barrier(self, qubits: &[usize]) -> (r: Self)
        ensures
            r@ == with_inst(
                self@,
                (InstrView {
                    gate: Gate::bare(GateType::Barrier),
                    qubits: qubits@,
                    clbits: Seq::empty(),
                }),
            ),
    {
        let mut c = self;
        let mut v: Vec<usize> = Vec::new();
        let mut k: usize = 0;
        while k < qubits.len()
            invariant
                k <= qubits.len(),
                v@ == qubits@.take(k as int),
            decreases qubits.len() - k,
        {
            v.push(qubits[k]);
            k = k + 1;
            proof {
                assert(v@ =~= qubits@.take(k as int));
            }
        }
        proof {
            assert(v@ =~= qubits@);
        }
        c.push(Instruction::new(Gate::barrier(), v));
        c
    }

    /// Add a barrier across all qubits.
    pub fn barrier_all(self) -> (r: Self)
        ensures
            r@ == with_inst(
                self@,
                (InstrView {
                    gate: Gate::bare(GateType::Barrier),
                    qubits: Seq::new(self@.num_qubits as nat, |i: int| i as usize),
                    clbits: Seq::empty(),
                }),
            ),
    {
        let mut c = self;
        let n = c.num_qubits;
        let mut v: Vec<usize> = Vec::new();
        let mut k: usize = 0;
        while k < n
            invariant
                k <= n,
                v@ == Seq::new(k as nat, |i: int| i as usize),
            decreases n - k,
        {
            v.push(k);
            k = k + 1;
            proof {
                assert(v@ =~= Seq::new(k as nat, |i: int| i as usize));
            }
        }
        c.push(Instruction::new(Gate::barrier(), v));
        c
    }
}

/// The per-qubit critical-path table seen as mathematical naturals.
pub open spec fn nat_view(v: Seq<usize>) -> Seq<nat> {
    v.map_values(|x: usize| x as nat)
}

/// Depth recorded for qubit `q`, or 0 for an index outside the table.
pub open spec fn depth_at(state: Seq<nat>, q: usize) -> nat {
    if q < state.len() {
        state[q as int]
    } else {
        0
    }
}

/// Largest depth recorded for any of the given target qubits (0 if none).
pub open spec fn targets_max(state: Seq<nat>, qubits: Seq<usize>) -> nat
    decreases qubits.len(),
{
    if qubits.len() == 0 {
        0
    } else {
        let rest = targets_max(state, qubits.drop_last());
        let d = depth_at(state, qubits.last());
        if d > rest {
            d
        } else {
            rest
        }
    }
}

/// The depth table after advancing every target qubit to depth `m`.
pub open spec fn bump_targets(state: Seq<nat>, qubits: Seq<usize>, m: nat) -> Seq<nat>
    decreases qubits.len(),
{
    if qubits.len() == 0 {
        state
    } else {
        bump_targets(state, qubits.drop_last(), m).update(qubits.last() as int, m)
    }
}

/// The depth table after one instruction: barriers leave it unchanged;
/// any other instruction advances all its target qubits to one past the
/// deepest of them.
pub open spec fn depth_step(state: Seq<nat>, iv: InstrView) -> Seq<nat> {
    if iv.gate.gate_type == GateType::Barrier {
        state
    } else {
        bump_targets(state, iv.qubits, (targets_max(state, iv.qubits) + 1) as nat)
    }
}

/// The depth table after a whole instruction sequence, starting from all
/// zeros over `nq` qubits.
pub open spec fn depth_state(instrs: Seq<InstrView>, nq: usize) -> Seq<nat>
    decreases instrs.len(),
{
    if instrs.len() == 0 {
        Seq::new(nq as nat, |i: int| 0nat)
    } else {
        depth_step(depth_state(instrs.drop_last(), nq), instrs.last())
    }
}

/// Largest element of a sequence of naturals (0 if empty).
pub open spec fn seq_max_nat(s: Seq<nat>) -> nat
    decreases s.len(),
{
    if s.len() == 0 {
        0
    } else {
        let rest = seq_max_nat(s.drop_last());
        if s.last() > rest {
            s.last()
        } else {
            rest
        }
    }
}

/// Circuit depth: the critical-path length of the instruction list, i.e.
/// the largest per-qubit depth after every instruction has advanced its
/// targets in order. An empty circuit has depth 0.
pub open spec fn depth_spec(c: CircuitView) -> nat {
    if c.instructions.len() == 0 {
        0
    } else {
        seq_max_nat(depth_state(c.instructions, c.num_qubits))
    }
}

/// Number of instructions in `instrs` whose gate type has catalog
/// position `k`.
pub open spec fn count_of_type(instrs: Seq<InstrView>, k: int) -> nat
    decreases instrs.len(),
{
    if instrs.len() == 0 {
        0
    } else {
        count_of_type(instrs.drop_last(), k) + (if instrs.last().gate.gate_type.index_spec() == k {
            1nat
        } else {
            0nat
        })
    }
}

/// No gate type occurs more often than there are instructions.
proof fn lemma_count_of_type_le_len(instrs: Seq<InstrView>, k: int)
    ensures
        count_of_type(instrs, k) <= instrs.len(),
    decreases instrs.len(),
{
    if instrs.len() > 0 {
        lemma_count_of_type_le_len(instrs.drop_last(), k);
    }
}

/// The instruction list repeated `k` times.
pub open spec fn repeated(s: Seq<InstrView>, k: nat) -> Seq<InstrView>
    decreases k,
{
    if k == 0 {
        Seq::empty()
    } else {
        repeated(s, (k - 1) as nat) + s
    }
}

impl Circuit {
    /// Calculate circuit depth (critical path length).
    ///
    /// Every instruction advances each of its target qubits to one past
    /// the deepest of them; barriers are skipped. The result is the
    /// largest per-qubit depth, as [`depth_spec`] states.
    pub fn depth(&self) -> (d: usize)
        requires
            self.wf(),
        ensures
            d as nat == depth_spec(self@),
    {
        let ghost instrs = self@.instructions;
        let len = self.instructions.len();
        if len == 0 {
            return 0;
        }
        let nq = self.num_qubits;

        let mut qubit_depth: Vec<usize> = Vec::new();
        let mut k: usize = 0;
        while k < nq
            invariant
                k <= nq,
                qubit_depth@ == Seq::new(k as nat, |i: int| 0usize),
            decreases nq - k,
        {
            qubit_depth.push(0);
            k = k + 1;
            proof {
                assert(qubit_depth@ =~= Seq::new(k as nat, |i: int| 0usize));
            }
        }
        proof {
            assert(nat_view(qubit_depth@) =~= depth_state(instrs.take(0), nq));
        }

        let mut j: usize = 0;
        while j < len
            invariant
                self.wf(),
                j <= len,
                len == instrs.len(),
                instrs == self@.instructions,
                nq == self@.num_qubits,
                qubit_depth@.len() == nq,
                nat_view(qubit_depth@) == depth_state(instrs.take(j as int), nq),
                forall|i: int| 0 <= i < nq ==> #[trigger] qubit_depth@[i] <= j,
            decreases len - j,
        {
            let inst = &self.instructions[j];
            proof {
                assert(inst@ == instrs[j as int]);
                assert(inst_in_bounds(instrs[j as int], self@.num_qubits, self@.num_clbits));
            }
            if !matches!(inst.gate.gate_type, GateType::Barrier) {
                let ghost state0 = nat_view(qubit_depth@);
                let nt = inst.qubits.len();
                let mut mx: usize = 0;
                let mut k: usize = 0;
                while k < nt
                    invariant
                        k <= nt,
                        nt == inst@.qubits.len(),
                        forall|i: int| 0 <= i < inst@.qubits.len() ==> #[trigger] inst@.qubits[i] < nq,
                        qubit_depth@.len() == nq,
                        state0 == nat_view(qubit_depth@),
                        forall|i: int| 0 <= i < nq ==> #[trigger] qubit_depth@[i] <= j,
                        mx <= j,
                        mx as nat == targets_max(state0, inst@.qubits.take(k as int)),
                    decreases nt - k,
                {
                    let q = inst.qubits[k];
                    let dq = qubit_depth[q];
                    proof {
                        let pre = inst@.qubits.take(k as int);
                        let cur = inst@.qubits.take(k + 1 as int);
                        assert(cur.drop_last() =~= pre);
                        assert(cur.last() == inst@.qubits[k as int]);
                        assert(depth_at(state0, q) == dq as nat);
                    }
                    if dq > mx {
                        mx = dq;
                    }
                    k = k + 1;
                }
                proof {
                    assert(inst@.qubits.take(nt as int) =~= inst@.qubits);
                }
                let m = mx + 1;

                let mut k: usize = 0;
                while k < nt
                    invariant
                        k <= nt,
                        nt == inst@.qubits.len(),
                        forall|i: int| 0 <= i < inst@.qubits.len() ==> #[trigger] inst@.qubits[i] < nq,
                        qubit_depth@.len() == nq,
                        m <= j + 1,
                        nat_view(qubit_depth@) == bump_targets(state0, inst@.qubits.take(k as int), m as nat),
                        forall|i: int| 0 <= i < nq ==> #[trigger] qubit_depth@[i] <= j + 1,
                    decreases nt - k,
                {
                    let q = inst.qubits[k];
                    let ghost before = nat_view(qubit_depth@);
                    qubit_depth.set(q, m);
                    k = k + 1;
                    proof {
                        let pre = inst@.qubits.take(k - 1 as int);
                        let cur = inst@.qubits.take(k as int);
                        assert(cur.drop_last() =~= pre);
                        assert(cur.last() == inst@.qubits[k - 1 as int]);
                        assert(nat_view(qubit_depth@) =~= before.update(q as int, m as nat));
                    }
                }
                proof {
                    assert(inst@.qubits.take(nt as int) =~= inst@.qubits);
                    assert(instrs.take(j + 1 as int).drop_last() =~= instrs.take(j as int));
                    assert(instrs.take(j + 1 as int).last() == instrs[j as int]);
                }
            } else {
                proof {
                    assert(instrs.take(j + 1 as int).drop_last() =~= instrs.take(j as int));
                    assert(instrs.take(j + 1 as int).last() == instrs[j as int]);
                }
            }
            j = j + 1;
        }
        proof {
            assert(instrs.take(len as int) =~= instrs);
        }

        let ghost fin = nat_view(qubit_depth@);
        let mut mx: usize = 0;
        let mut k: usize = 0;
        while k < nq
            invariant
                k <= nq,
                qubit_depth@.len() == nq,
                fin == nat_view(qubit_depth@),
                mx as nat == seq_max_nat(fin.take(k as int)),
            decreases nq - k,
        {
            let dq = qubit_depth[k];
            proof {
                let pre = fin.take(k as int);
                let cur = fin.take(k + 1 as int);
                assert(cur.drop_last() =~= pre);
                assert(cur.last() == fin[k as int]);
            }
            if dq > mx {
                mx = dq;
            }
            k = k + 1;
        }
        proof {
            assert(fin.take(nq as int) =~= fin);
        }
        mx
    }

    /// Count gates by type.
    ///
    /// The result has one slot per catalog entry, indexed by
    /// [`GateType::index`]; slot `k` holds how many instructions carry the
    /// gate type at catalog position `k`.
    pub fn count_gates(&self) -> (counts: Vec<usize>)
        ensures
            counts@.len() == NUM_GATE_TYPES,
            forall|k: int|
                0 <= k < NUM_GATE_TYPES ==> #[trigger] counts@[k] as nat == count_of_type(
                    self@.instructions,
                    k,
                ),
    {
        let ghost instrs = self@.instructions;
        let mut counts: Vec<usize> = Vec::new();
        let mut k: usize = 0;
        while k < NUM_GATE_TYPES
            invariant
                k <= NUM_GATE_TYPES,
                counts@ == Seq::new(k as nat, |i: int| 0usize),
            decreases NUM_GATE_TYPES - k,
        {
            counts.push(0);
            k = k + 1;
            proof {
                assert(counts@ =~= Seq::new(k as nat, |i: int| 0usize));
            }
        }

        let len = self.instructions.len();
        let mut j: usize = 0;
        while j < len
            invariant
                j <= len,
                len == instrs.len(),
                instrs == self@.instructions,
                counts@.len() == NUM_GATE_TYPES,
                forall|k: int|
                    0 <= k < NUM_GATE_TYPES ==> #[trigger] counts@[k] as nat == count_of_type(
                        instrs.take(j as int),
                        k,
                    ),
            decreases len - j,
        {
            let inst = &self.instructions[j];
            let idx = inst.gate.gate_type.index();
            proof {
                assert(inst@ == instrs[j as int]);
                lemma_count_of_type_le_len(instrs.take(j as int), idx as int);
            }
            let c = counts[idx];
            counts.set(idx, c + 1);
            j = j + 1;
            proof {
                let cur = instrs.take(j as int);
                assert(cur.drop_last() =~= instrs.take(j - 1 as int));
                assert(cur.last() == instrs[j - 1 as int]);
            }
        }
        proof {
            assert(instrs.take(len as int) =~= instrs);
        }
        counts
    }

    /// How many instructions of the circuit carry the given gate type.
    pub fn count_of(&self, t: GateType) -> (n: usize)
        ensures
            n as nat == count_of_type(self@.instructions, t.index_spec()),
    {
        let counts = self.count_gates();
        counts[t.index()]
    }

    /// Measure all qubits, widening the classical register if needed.
    ///
    /// Qubit `q` is measured into classical bit `q`, in index order.
    pub fn measure_all(self) -> (r: Self)
        ensures
            r@.num_qubits == self@.num_qubits,
            r@.name == self@.name,
            r@.num_clbits == (if self@.num_clbits < self@.num_qubits {
                self@.num_qubits
            } else {
                self@.num_clbits
            }),
            r@.instructions == self@.instructions + Seq::new(
                self@.num_qubits as nat,
                |q: int| measure_iv(q as usize, q as usize),
            ),
    {
        let ghost orig = self@;
        let mut c = self;
        if c.num_clbits < c.num_qubits {
            c.num_clbits = c.num_qubits;
        }
        let n = c.num_qubits;
        let mut q: usize = 0;
        while q < n
            invariant
                q <= n,
                n == orig.num_qubits,
                c@.num_qubits == orig.num_qubits,
                c@.name == orig.name,
                c@.num_clbits == (if orig.num_clbits < orig.num_qubits {
                    orig.num_qubits
                } else {
                    orig.num_clbits
                }),
                c@.instructions == orig.instructions + Seq::new(
                    q as nat,
                    |i: int| measure_iv(i as usize, i as usize),
                ),
            decreases n - q,
        {
            c.push(Instruction::with_clbits(Gate::measure(), vec1(q), vec1(q)));
            q = q + 1;
            proof {
                assert(c@.instructions =~= orig.instructions + Seq::new(
                    q as nat,
                    |i: int| measure_iv(i as usize, i as usize),
                ));
            }
        }
        c
    }

    /// Append another circuit's instructions to this one.
    ///
    /// Fails with a qubit-count mismatch when the other circuit declares
    /// more qubits than this one; on success the result is this circuit
    /// followed by a copy of every instruction of the other.
    pub fn compose(self, other: &Circuit) -> (r: Result<Self, QuasarError>)
        ensures
            match r {
                Ok(c) => other@.num_qubits <= self@.num_qubits && c@ == (CircuitView {
                    instructions: self@.instructions + other@.instructions,
                    ..self@
                }),
                Err(e) => other@.num_qubits > self@.num_qubits && e == (QuasarError::QubitMismatch {
                    expected: self@.num_qubits,
                    got: other@.num_qubits,
                }),
            },
    {
        if other.num_qubits > self.num_qubits {
            return Err(
                QuasarError::QubitMismatch { expected: self.num_qubits, got: other.num_qubits },
            );
        }
        let ghost orig = self@;
        let ghost oi = other@.instructions;
        let mut c = self;
        let len = other.instructions.len();
        let mut j: usize = 0;
        while j < len
            invariant
                j <= len,
                len == oi.len(),
                oi == other@.instructions,
                c@ == (CircuitView { instructions: orig.instructions + oi.take(j as int), ..orig }),
            decreases len - j,
        {
            let inst = other.instructions[j].clone();
            proof {
                assert(inst@ == oi[j as int]);
            }
            c.push(inst);
            j = j + 1;
            proof {
                assert(c@.instructions =~= orig.instructions + oi.take(j as int));
            }
        }
        proof {
            assert(oi.take(len as int) =~= oi);
            assert(c@ =~= (CircuitView { instructions: orig.instructions + oi, ..orig }));
        }
        Ok(c)
    }

    /// Repeat the circuit `n` times.
    ///
    /// The instruction list of the result is the original list repeated
    /// `n` times; `n == 0` leaves the single original copy in place, as
    /// `n == 1` does.
    pub fn repeat(self, n: usize) -> (r: Self)
        ensures
            r@ == (CircuitView {
                instructions: repeated(
                    self@.instructions,
                    if n == 0 {
                        1nat
                    } else {
                        n as nat
                    },
                ),
                ..self@
            }),
    {
        let ghost orig = self@;
        let mut c = self;

        let mut snapshot: Vec<Instruction> = Vec::new();
        let olen = c.instructions.len();
        let mut k: usize = 0;
        while k < olen
            invariant
                k <= olen,
                olen == orig.instructions.len(),
                c@ == orig,
                instr_views(snapshot@) == orig.instructions.take(k as int),
            decreases olen - k,
        {
            proof {
                lemma_instr_views_index(c.instructions@, k as int);
            }
            let inst = c.instructions[k].clone();
            let ghost pre = snapshot@;
            snapshot.push(inst);
            k = k + 1;
            proof {
                lemma_instr_views_push(pre, inst);
                assert(instr_views(snapshot@) =~= orig.instructions.take(k as int));
            }
        }
        proof {
            assert(orig.instructions.take(olen as int) =~= orig.instructions);
            assert(repeated(orig.instructions, 0nat) =~= Seq::<InstrView>::empty());
            assert(repeated(orig.instructions, 1nat) =~= orig.instructions);
        }

        let mut t: usize = 1;
        while t < n
            invariant
                1 <= t,
                t <= n || t == 1,
                olen == orig.instructions.len(),
                instr_views(snapshot@) == orig.instructions,
                c@ == (CircuitView { instructions: repeated(orig.instructions, t as nat), ..orig }),
            decreases n - t,
        {
            let mut idx: usize = 0;
            while idx < olen
                invariant
                    idx <= olen,
                    olen == orig.instructions.len(),
                    instr_views(snapshot@) == orig.instructions,
                    c@ == (CircuitView {
                        instructions: repeated(orig.instructions, t as nat) + orig.instructions.take(
                            idx as int,
                        ),
                        ..orig
                    }),
                decreases olen - idx,
            {
                let inst = snapshot[idx].clone();
                proof {
                    assert(inst@ == orig.instructions[idx as int]);
                }
                c.push(inst);
                idx = idx + 1;
                proof {
                    assert(c@.instructions =~= repeated(orig.instructions, t as nat)
                        + orig.instructions.take(idx as int));
                }
            }
            t = t + 1;
            proof {
                assert(orig.instructions.take(olen as int) =~= orig.instructions);
                assert(c@.instructions =~= repeated(orig.instructions, t as nat));
            }
        }
        c
    }

    /// Reverse the instruction order of this circuit.
    ///
    /// Register sizes are kept; the name is dropped. Gates are not
    /// replaced by their inverses, only re-ordered.
    pub fn inverse(self) -> (r: Self)
        ensures
            r@.num_qubits == self@.num_qubits,
            r@.num_clbits == self@.num_clbits,
            r@.name is None,
            r@.instructions == self@.instructions.reverse(),
    {
        let ghost orig = self@.instructions;
        let ghost onq = self@.num_qubits;
        let ghost onc = self@.num_clbits;
        let mut src = self;
        let mut result = Circuit::with_clbits(src.num_qubits, src.num_clbits);
        while src.instructions.len() > 0
            invariant
                src@.instructions == orig.take(src@.instructions.len() as int),
                src@.num_qubits == onq,
                src@.num_clbits == onc,
                result@.num_qubits == onq,
                result@.num_clbits == onc,
                result@.name is None,
                src@.instructions.len() <= orig.len(),
                result@.instructions == orig.skip(src@.instructions.len() as int).reverse(),
            decreases src@.instructions.len(),
        {
            let ghost rem = src@.instructions.len() as int;
            let ghost prevec = src.instructions@;
            proof {
                lemma_instr_views_index(prevec, rem - 1);
                lemma_instr_views_subrange(prevec, 0, rem - 1);
            }
            let popped = src.instructions.pop();
            proof {
                assert(src@.instructions =~= orig.take(rem - 1));
            }
            match popped {
                Some(inst) => {
                    proof {
                        assert(inst@ == orig[rem - 1]);
                    }
                    result.push(inst);
                    proof {
                        assert(result@.instructions =~= orig.skip(rem - 1).reverse());
                    }
                },
                None => {
                    proof {
                        assert(false);
                    }
                },
            }
        }
        proof {
            assert(orig.skip(0).reverse() =~= orig.reverse());
        }
        result
    }
}

impl Clone for Circuit {
    /// Duplicate the circuit; the copy has the same view.
    fn clone(&self) -> (r: Self)
        ensures
            r@ == self@,
    {
        let mut insts: Vec<Instruction> = Vec::new();
        let len = self.instructions.len();
        let mut k: usize = 0;
        while k < len
            invariant
                k <= len,
                len == self@.instructions.len(),
                instr_views(insts@) == self@.instructions.take(k as int),
            decreases len - k,
        {
            proof {
                lemma_instr_views_index(self.instructions@, k as int);
            }
            let inst = self.instructions[k].clone();
            let ghost pre = insts@;
            insts.push(inst);
            k = k + 1;
            proof {
                lemma_instr_views_push(pre, inst);
                assert(instr_views(insts@) =~= self@.instructions.take(k as int));
            }
        }
        let name = match &self.name {
            Some(s) => Some(s.clone()),
            None => None,
        };
        let r = Circuit {
            num_qubits: self.num_qubits,
            num_clbits: self.num_clbits,
            instructions: insts,
            name,
        };
        proof {
            assert(self@.instructions.take(len as int) =~= self@.instructions);
            assert(r@ =~= self@);
        }
        r
    }
}


} // verus!
