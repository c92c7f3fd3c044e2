//! Classical basis-state semantics.
//!
//! The permutation gates X, CX, CCX, SWAP and CSWAP never create
//! superposition: on a basis state they only permute the basis index. This
//! module states that action on indices, proves their truth tables
//! from it, and evaluates circuits built purely from such gates.

use vstd::prelude::*;

use crate::circuit::{Circuit, InstrView};
use crate::gate::GateType;
use crate::indexing::{bit_set, MAX_QUBITS};

verus! {

/// The basis index with bit `q` flipped: the Pauli-X action on qubit `q`.
pub open spec fn flip_bit(i: usize, q: usize) -> usize {
    i ^ (1usize << q)
}

/// The CX (CNOT) action on a basis index: flip the target bit exactly
/// when the control bit is set.
pub open spec fn cx_basis(i: usize, c: usize, t: usize) -> usize {
    if bit_set(i, c) {
        flip_bit(i, t)
    } else {
        i
    }
}

/// The CCX (Toffoli) action on a basis index: flip the target bit exactly
/// when both control bits are set.
pub open spec fn ccx_basis(i: usize, c1: usize, c2: usize, t: usize) -> usize {
    if bit_set(i, c1) && bit_set(i, c2) {
        flip_bit(i, t)
    } else {
        i
    }
}

/// The SWAP action on a basis index: exchange bits `a` and `b`.
pub open spec fn swap_basis(i: usize, a: usize, b: usize) -> usize {
    if bit_set(i, a) == bit_set(i, b) {
        i
    } else {
        flip_bit(flip_bit(i, a), b)
    }
}

/// The CSWAP (Fredkin) action on a basis index: exchange bits `a` and `b`
/// exactly when the control bit is set.
pub open spec fn cswap_basis(i: usize, c: usize, a: usize, b: usize) -> usize {
    if bit_set(i, c) {
        swap_basis(i, a, b)
    } else {
        i
    }
}

/// Applying X twice to the same qubit returns every basis state to
/// itself: X is an involution.
pub proof fn lemma_x_involution(i: usize, q: usize)
    by (bit_vector)
    requires
        q < 30,
    ensures
        flip_bit(flip_bit(i, q), q) == i,
{
}

/// The CX truth table: the target bit of the result is the exclusive-or
/// of the input's control and target bits, the control bit and every
/// other bit are unchanged, and an input with the control clear passes
/// through whole.
pub proof fn lemma_cx_truth_table(i: usize, c: usize, t: usize)
    by (bit_vector)
    requires
        c < 30,
        t < 30,
        c != t,
    ensures
        bit_set(cx_basis(i, c, t), t) == (bit_set(i, t) != bit_set(i, c)),
        !bit_set(i, c) ==> cx_basis(i, c, t) == i,
        forall|q: usize| q < 30 && q != t ==> bit_set(cx_basis(i, c, t), q) == bit_set(i, q),
{
}

/// The CCX truth table: the target bit of the result is flipped exactly
/// when both control bits of the input are set, and every other bit is
/// unchanged.
pub proof fn lemma_ccx_truth_table(i: usize, c1: usize, c2: usize, t: usize)
    by (bit_vector)
    requires
        c1 < 30,
        c2 < 30,
        t < 30,
        c1 != t,
        c2 != t,
    ensures
        bit_set(ccx_basis(i, c1, c2, t), t) == (if bit_set(i, c1) && bit_set(i, c2) {
            !bit_set(i, t)
        } else {
            bit_set(i, t)
        }),
        forall|q: usize|
            q < 30 && q != t ==> bit_set(ccx_basis(i, c1, c2, t), q) == bit_set(i, q),
{
}

/// The SWAP truth table: the result carries the input's bit `b` at `a`
/// and the input's bit `a` at `b`, and every other bit is unchanged.
pub proof fn lemma_swap_bits(i: usize, a: usize, b: usize)
    by (bit_vector)
    requires
        a < 30,
        b < 30,
    ensures
        bit_set(swap_basis(i, a, b), a) == bit_set(i, b),
        bit_set(swap_basis(i, a, b), b) == bit_set(i, a),
        forall|q: usize|
            q < 30 && q != a && q != b ==> bit_set(swap_basis(i, a, b), q) == bit_set(i, q),
{
}

/// The classical action of one instruction on a basis index, or None for
/// a gate that is not a basis permutation (or lacks its operands).
pub open spec fn classical_step(i: usize, iv: InstrView) -> Option<usize> {
    match iv.gate.gate_type {
        GateType::Barrier => Some(i),
        GateType::I => if iv.qubits.len() >= 1 {
            Some(i)
        } else {
            None
        },
        GateType::X => if iv.qubits.len() >= 1 {
            Some(flip_bit(i, iv.qubits[0]))
        } else {
            None
        },
        GateType::CX => if iv.qubits.len() >= 2 {
            Some(cx_basis(i, iv.qubits[0], iv.qubits[1]))
        } else {
            None
        },
        GateType::Swap => if iv.qubits.len() >= 2 {
            Some(swap_basis(i, iv.qubits[0], iv.qubits[1]))
        } else {
            None
        },
        GateType::CCX => if iv.qubits.len() >= 3 {
            Some(ccx_basis(i, iv.qubits[0], iv.qubits[1], iv.qubits[2]))
        } else {
            None
        },
        GateType::CSwap => if iv.qubits.len() >= 3 {
            Some(cswap_basis(i, iv.qubits[0], iv.qubits[1], iv.qubits[2]))
        } else {
            None
        },
        _ => None,
    }
}

/// The classical run of an instruction sequence from basis index `i`:
/// each instruction permutes the index in turn; the run fails on the
/// first instruction that is not a basis permutation.
pub open spec fn basis_run_spec(instrs: Seq<InstrView>, i: usize) -> Option<usize>
    decreases instrs.len(),
{
    if instrs.len() == 0 {
        Some(i)
    } else {
        match classical_step(i, instrs[0]) {
            Some(i2) => basis_run_spec(instrs.drop_first(), i2),
            None => None,
        }
    }
}

/// Run a circuit built purely from basis-permutation gates (I, X, CX,
/// SWAP, CCX, CSWAP, Barrier) on the all-zero basis state and return the
/// final basis index, or None as soon as any other gate occurs.
///
/// On such circuits the full state-vector simulation holds probability 1
/// on exactly this index; the truth-table lemmas above describe each
/// step's bits.
pub fn basis_run(c: &Circuit) -> (r: Option<usize>)
    requires
        c.wf(),
        c@.num_qubits <= MAX_QUBITS,
    ensures
        r == basis_run_spec(c@.instructions, 0usize),
{
    let ghost all = c@.instructions;
    let insts = c.instructions();
    let mut cur: usize = 0;
    let mut j: usize = 0;
    proof {
        assert(all.skip(0) =~= all);
    }
    while j < insts.len()
        invariant
            j <= insts@.len(),
            crate::circuit::instr_views(insts@) == all,
            all == c@.instructions,
            c.wf(),
            c@.num_qubits <= MAX_QUBITS,
            basis_run_spec(all, 0usize) == basis_run_spec(all.skip(j as int), cur),
        decreases insts@.len() - j,
    {
        let inst = &insts[j];
        proof {
            crate::circuit::lemma_instr_views_index(insts@, j as int);
            assert(inst@ == all[j as int]);
            assert(crate::circuit::inst_in_bounds(all[j as int], c@.num_qubits, c@.num_clbits));
            assert(all.skip(j as int)[0] == all[j as int]);
            assert(all.skip(j as int).drop_first() =~= all.skip(j + 1 as int));
        }
        let step: Option<usize> = match inst.gate.gate_type {
            GateType::Barrier => Some(cur),
            GateType::I => {
                if inst.qubits.len() >= 1 {
                    Some(cur)
                } else {
                    None
                }
            },
            GateType::X => {
                if inst.qubits.len() >= 1 {
                    Some(cur ^ (1usize << inst.qubits[0]))
                } else {
                    None
                }
            },
            GateType::CX => {
                if inst.qubits.len() >= 2 {
                    let ctl = inst.qubits[0];
                    let tgt = inst.qubits[1];
                    if cur & (1usize << ctl) != 0 {
                        Some(cur ^ (1usize << tgt))
                    } else {
                        Some(cur)
                    }
                } else {
                    None
                }
            },
            GateType::Swap => {
                if inst.qubits.len() >= 2 {
                    let a = inst.qubits[0];
                    let b = inst.qubits[1];
                    if (cur & (1usize << a) != 0) == (cur & (1usize << b) != 0) {
                        Some(cur)
                    } else {
                        Some(cur ^ (1usize << a) ^ (1usize << b))
                    }
                } else {
                    None
                }
            },
            GateType::CCX => {
                if inst.qubits.len() >= 3 {
                    let c1 = inst.qubits[0];
                    let c2 = inst.qubits[1];
                    let tgt = inst.qubits[2];
                    if cur & (1usize << c1) != 0 && cur & (1usize << c2) != 0 {
                        Some(cur ^ (1usize << tgt))
                    } else {
                        Some(cur)
                    }
                } else {
                    None
                }
            },
            GateType::CSwap => {
                if inst.qubits.len() >= 3 {
                    let ctl = inst.qubits[0];
                    let a = inst.qubits[1];
                    let b = inst.qubits[2];
                    if cur & (1usize << ctl) != 0 {
                        if (cur & (1usize << a) != 0) == (cur & (1usize << b) != 0) {
                            Some(cur)
                        } else {
                            Some(cur ^ (1usize << a) ^ (1usize << b))
                        }
                    } else {
                        Some(cur)
                    }
                } else {
                    None
                }
            },
            _ => None,
        };
        proof {
            assert(step == classical_step(cur, all[j as int]));
        }
        match step {
            Some(next) => {
                cur = next;
            },
            None => {
                return None;
            },
        }
        j = j + 1;
    }
    proof {
        assert(all.skip(all.len() as int) =~= Seq::<InstrView>::empty());
    }
    Some(cur)
}


} // verus!
