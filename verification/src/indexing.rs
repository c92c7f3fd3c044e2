//! The index arithmetic behind the state-vector kernels.
//!
//! An n-qubit register has 2^n basis states; basis index `i` carries the
//! value of qubit `q` in bit `q`. Every gate kernel touches only the
//! amplitudes whose indices agree outside its target bits, so the numeric
//! layer walks lists of base indices produced here: the bases with the
//! target bit clear (single-qubit pairs), the bases with control set and
//! target clear (controlled pairs), and the bases with both target bits
//! clear (two-qubit quadruples).

use crate::error::QuasarError;
use vstd::arithmetic::power2::{
    lemma2_to64, lemma_pow2_pos, lemma_pow2_strictly_increases, lemma_pow2_unfold, pow2,
};
use vstd::prelude::*;

verus! {

/// Largest supported register size: the amplitude array of a register has
/// 2^n entries, so the size is capped.
pub const MAX_QUBITS: usize = 30;

/// Whether bit `q` of basis index `i` is set, i.e. whether qubit `q` has
/// value 1 in that basis state.
pub open spec fn bit_set(i: usize, q: usize) -> bool {
    i & (1usize << q) != 0
}

/// Reject a register larger than [`MAX_QUBITS`] qubits.
pub fn check_register_size(num_qubits: usize) -> (r: Result<(), QuasarError>)
    ensures
        match r {
            Ok(_) => num_qubits <= MAX_QUBITS,
            Err(e) => num_qubits > MAX_QUBITS && e == (QuasarError::CircuitTooLarge {
                qubits: num_qubits,
                max: MAX_QUBITS,
            }),
        },
{
    if num_qubits > MAX_QUBITS {
        Err(QuasarError::CircuitTooLarge { qubits: num_qubits, max: MAX_QUBITS })
    } else {
        Ok(())
    }
}

/// The dimension of an `num_qubits`-qubit register's amplitude array:
/// 2^num_qubits.
pub fn dimension_of(num_qubits: usize) -> (d: usize)
    requires
        num_qubits <= MAX_QUBITS,
    ensures
        d == pow2(num_qubits as nat),
{
    let mut d: usize = 1;
    let mut k: usize = 0;
    proof {
        lemma2_to64();
    }
    while k < num_qubits
        invariant
            k <= num_qubits,
            num_qubits <= MAX_QUBITS,
            d == pow2(k as nat),
        decreases num_qubits - k,
    {
        proof {
            lemma_pow2_unfold((k + 1) as nat);
            lemma2_to64();
            if k + 1 < 30 {
                lemma_pow2_strictly_increases((k + 1) as nat, 30nat);
            }
        }
        d = d * 2;
        k = k + 1;
    }
    d
}

/// The exact base-2 logarithm of a length, if the length is a power of
/// two.
pub open spec fn log2_exact(len: nat) -> Option<nat>
    decreases len,
{
    if len == 0 {
        None
    } else if len == 1 {
        Some(0nat)
    } else if len % 2 == 1 {
        None
    } else {
        match log2_exact(len / 2) {
            Some(n) => Some((n + 1) as nat),
            None => None,
        }
    }
}

/// The number of qubits a raw amplitude array of length `len` describes.
///
/// Succeeds with `n` exactly when `len == 2^n`; any other length (zero,
/// odd above one, or with a stray factor) is rejected with the dimension
/// error.
pub fn qubits_for_dimension(len: usize) -> (r: Result<usize, QuasarError>)
    ensures
        match r {
            Ok(n) => log2_exact(len as nat) == Some(n as nat) && len == pow2(n as nat),
            Err(e) => log2_exact(len as nat) is None && e == (QuasarError::StateDimensionMismatch {
                expected: 0,
                got: len,
            }),
        },
{
    if len == 0 {
        return Err(QuasarError::StateDimensionMismatch { expected: 0, got: len });
    }
    let mut d: usize = len;
    let mut n: usize = 0;
    proof {
        lemma2_to64();
        assert(d as nat * pow2(0nat) == len as nat);
    }
    while d > 1
        invariant
            1 <= d <= len,
            d as nat * pow2(n as nat) == len as nat,
            log2_exact(len as nat) == (match log2_exact(d as nat) {
                Some(m) => Some((m + n) as nat),
                None => None::<nat>,
            }),
        decreases d,
    {
        if d % 2 == 1 {
            return Err(QuasarError::StateDimensionMismatch { expected: 0, got: len });
        }
        proof {
            lemma_pow2_unfold((n + 1) as nat);
            assert((d as nat / 2) * (2 * pow2(n as nat)) == d as nat * pow2(n as nat))
                by (nonlinear_arith)
                requires
                    d as nat % 2 == 0,
            ;
            assert(pow2((n + 1) as nat) <= len as nat) by {
                lemma_pow2_pos((n + 1) as nat);
                assert(d as nat / 2 >= 1);
                assert((d as nat / 2) * pow2((n + 1) as nat) >= 1 * pow2((n + 1) as nat))
                    by (nonlinear_arith)
                    requires
                        d as nat / 2 >= 1,
                        pow2((n + 1) as nat) > 0,
                ;
            }
            if n + 1 >= 64 {
                lemma2_to64();
                vstd::arithmetic::power2::lemma2_to64_rest();
                if n + 1 > 64 {
                    lemma_pow2_strictly_increases(64nat, (n + 1) as nat);
                }
                assert(false);
            }
        }
        d = d / 2;
        n = n + 1;
    }
    proof {
        assert(d == 1);
        assert(log2_exact(1nat) == Some(0nat));
        assert(1nat * pow2(n as nat) == pow2(n as nat)) by (nonlinear_arith);
    }
    Ok(n)
}

/// All base indices for a single-qubit kernel on qubit `q`: the indices
/// below 2^num_qubits with bit `q` clear, in increasing order. Each pairs
/// with its partner index that has bit `q` set.
pub fn pair_bases(num_qubits: usize, q: usize) -> (r: Vec<usize>)
    requires
        num_qubits <= MAX_QUBITS,
        q < num_qubits,
    ensures
        forall|a: int, b: int| 0 <= a < b < r@.len() ==> r@[a] < r@[b],
        forall|k: int|
            0 <= k < r@.len() ==> #[trigger] r@[k] < pow2(num_qubits as nat) && !bit_set(r@[k], q),
        forall|j: usize|
            j < pow2(num_qubits as nat) && !bit_set(j, q) ==> #[trigger] r@.contains(j),
{
    let dim = dimension_of(num_qubits);
    let mask: usize = 1usize << q;
    let mut r: Vec<usize> = Vec::new();
    let mut i: usize = 0;
    while i < dim
        invariant
            i <= dim,
            dim == pow2(num_qubits as nat),
            mask == 1usize << q,
            forall|a: int, b: int| 0 <= a < b < r@.len() ==> r@[a] < r@[b],
            forall|k: int| 0 <= k < r@.len() ==> #[trigger] r@[k] < i && !bit_set(r@[k], q),
            forall|j: usize| j < i && !bit_set(j, q) ==> #[trigger] r@.contains(j),
        decreases dim - i,
    {
        if i & mask == 0 {
            let ghost rold = r@;
            r.push(i);
            proof {
                assert forall|j: usize| j < i + 1 && !bit_set(j, q) implies #[trigger] r@.contains(
                    j,
                ) by {
                    if j < i {
                        assert(rold.contains(j));
                        let k = choose|k: int| 0 <= k < rold.len() && rold[k] == j;
                        assert(r@[k] == j);
                    } else {
                        assert(r@[r@.len() - 1] == j);
                    }
                }
            }
        }
        i = i + 1;
    }
    r
}

/// All base indices for a controlled kernel with control `c` and target
/// `t`: the indices below 2^num_qubits with bit `c` set and bit `t`
/// clear, in increasing order. Each pairs with its partner index that has
/// bit `t` set; indices with the control clear are untouched by the
/// kernel.
pub fn controlled_bases(num_qubits: usize, c: usize, t: usize) -> (r: Vec<usize>)
    requires
        num_qubits <= MAX_QUBITS,
        c < num_qubits,
        t < num_qubits,
    ensures
        forall|a: int, b: int| 0 <= a < b < r@.len() ==> r@[a] < r@[b],
        forall|k: int|
            0 <= k < r@.len() ==> #[trigger] r@[k] < pow2(num_qubits as nat) && bit_set(r@[k], c)
                && !bit_set(r@[k], t),
        forall|j: usize|
            j < pow2(num_qubits as nat) && bit_set(j, c) && !bit_set(j, t)
                ==> #[trigger] r@.contains(j),
{
    let dim = dimension_of(num_qubits);
    let cmask: usize = 1usize << c;
    let tmask: usize = 1usize << t;
    let mut r: Vec<usize> = Vec::new();
    let mut i: usize = 0;
    while i < dim
        invariant
            i <= dim,
            dim == pow2(num_qubits as nat),
            cmask == 1usize << c,
            tmask == 1usize << t,
            forall|a: int, b: int| 0 <= a < b < r@.len() ==> r@[a] < r@[b],
            forall|k: int|
                0 <= k < r@.len() ==> #[trigger] r@[k] < i && bit_set(r@[k], c) && !bit_set(
                    r@[k],
                    t,
                ),
            forall|j: usize| j < i && bit_set(j, c) && !bit_set(j, t) ==> #[trigger] r@.contains(j),
        decreases dim - i,
    {
        if i & cmask != 0 && i & tmask == 0 {
            let ghost rold = r@;
            r.push(i);
            proof {
                assert forall|j: usize|
                    j < i + 1 && bit_set(j, c) && !bit_set(j, t) implies #[trigger] r@.contains(
                    j,
                ) by {
                    if j < i {
                        assert(rold.contains(j));
                        let k = choose|k: int| 0 <= k < rold.len() && rold[k] == j;
                        assert(r@[k] == j);
                    } else {
                        assert(r@[r@.len() - 1] == j);
                    }
                }
            }
        }
        i = i + 1;
    }
    r
}

/// All base indices for a two-qubit kernel on qubits `q0` and `q1`: the
/// indices below 2^num_qubits with both bits clear, in increasing order.
/// Each heads the quadruple formed by setting bit `q0`, bit `q1`, or
/// both.
pub fn quad_bases(num_qubits: usize, q0: usize, q1: usize) -> (r: Vec<usize>)
    requires
        num_qubits <= MAX_QUBITS,
        q0 < num_qubits,
        q1 < num_qubits,
    ensures
        forall|a: int, b: int| 0 <= a < b < r@.len() ==> r@[a] < r@[b],
        forall|k: int|
            0 <= k < r@.len() ==> #[trigger] r@[k] < pow2(num_qubits as nat) && !bit_set(r@[k], q0)
                && !bit_set(r@[k], q1),
        forall|j: usize|
            j < pow2(num_qubits as nat) && !bit_set(j, q0) && !bit_set(j, q1)
                ==> #[trigger] r@.contains(j),
{
    let dim = dimension_of(num_qubits);
    let mask0: usize = 1usize << q0;
    let mask1: usize = 1usize << q1;
    let mut r: Vec<usize> = Vec::new();
    let mut i: usize = 0;
    while i < dim
        invariant
            i <= dim,
            dim == pow2(num_qubits as nat),
            mask0 == 1usize << q0,
            mask1 == 1usize << q1,
            forall|a: int, b: int| 0 <= a < b < r@.len() ==> r@[a] < r@[b],
            forall|k: int|
                0 <= k < r@.len() ==> #[trigger] r@[k] < i && !bit_set(r@[k], q0) && !bit_set(
                    r@[k],
                    q1,
                ),
            forall|j: usize|
                j < i && !bit_set(j, q0) && !bit_set(j, q1) ==> #[trigger] r@.contains(j),
        decreases dim - i,
    {
        if i & mask0 == 0 && i & mask1 == 0 {
            let ghost rold = r@;
            r.push(i);
            proof {
                assert forall|j: usize|
                    j < i + 1 && !bit_set(j, q0) && !bit_set(j, q1) implies #[trigger] r@.contains(
                    j,
                ) by {
                    if j < i {
                        assert(rold.contains(j));
                        let k = choose|k: int| 0 <= k < rold.len() && rold[k] == j;
                        assert(r@[k] == j);
                    } else {
                        assert(r@[r@.len() - 1] == j);
                    }
                }
            }
        }
        i = i + 1;
    }
    r
}

} // verus!
