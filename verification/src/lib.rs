//! A quantum-circuit toolkit: gate catalog, circuit builder, instruction
//! planner, measurement bookkeeping, and the index arithmetic behind
//! state-vector simulation.
//!
//! The numeric (floating-point) evolution of amplitudes lives outside this
//! library; everything here is the classical structure around it: which
//! gates exist, what a circuit is, how an instruction is lowered to
//! elementary kernel operations, which amplitude indices a kernel touches,
//! and how measured bits are recorded and rendered.

pub mod basis;
pub mod circuit;
pub mod error;
pub mod gate;
pub mod indexing;
pub mod simulator;
pub mod text;
pub mod types;

pub use basis::basis_run;
pub use circuit::{Circuit, CircuitView, InstrView, Instruction};
pub use error::QuasarError;
pub use gate::{AngleBits, Gate, GateParams, GateType, NUM_GATE_TYPES};
pub use indexing::{
    check_register_size, controlled_bases, dimension_of, pair_bases, quad_bases,
    qubits_for_dimension, MAX_QUBITS,
};
pub use simulator::{
    plan_instruction, single_matrix_kind, KernelOp, MatrixKind, Simulator, DEFAULT_RNG_STATE,
};
pub use text::append_decimal;
pub use types::{HomayaError, Optimizable, StandardGate};
pub use types::{ClassicalBit, Qubit, QubitCount, ShotCount};
