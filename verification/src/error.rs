//! Error types for circuit construction and simulation planning.

use vstd::prelude::*;
use vstd::string::StringExecFns;

use crate::text::{append_decimal, dec_digits};

verus! {

/// Errors that can occur while building circuits or planning their
/// execution.
///
/// The numeric layer that evolves amplitudes has further failure modes of
/// its own (a raw state vector that is not unit-normalized, an invalid
/// probability); those carry floating-point payloads and are reported by
/// that layer, not here.
#[derive(Clone, Debug)]
#[allow(inconsistent_fields)]
pub enum QuasarError {
    /// Qubit index out of range.
    QubitOutOfRange {
        /// The invalid qubit index
        qubit: usize,
        /// Maximum valid index + 1
        max: usize,
    },
    /// Classical bit index out of range.
    ClbitOutOfRange {
        /// The invalid clbit index
        clbit: usize,
        /// Maximum valid index + 1
        max: usize,
    },
    /// Qubit count mismatch between circuits.
    QubitMismatch {
        /// Expected number of qubits
        expected: usize,
        /// Actual number of qubits
        got: usize,
    },
    /// Invalid gate parameters.
    InvalidGateParams {
        /// Gate name
        gate: &'static str,
        /// Error message
        message: &'static str,
    },
    /// Duplicate qubit in instruction.
    DuplicateQubit {
        /// The duplicated qubit index
        qubit: usize,
    },
    /// Circuit is too large for operation.
    CircuitTooLarge {
        /// Number of qubits
        qubits: usize,
        /// Maximum supported
        max: usize,
    },
    /// State vector dimension mismatch.
    StateDimensionMismatch {
        /// Expected dimension
        expected: usize,
        /// Actual dimension
        got: usize,
    },
    /// Operation not supported.
    NotSupported {
        /// Description of unsupported operation
        operation: &'static str,
    },
    /// Simulation error.
    SimulationError {
        /// Error message
        message: String,
    },
    /// Backend error.
    BackendError {
        /// Backend name
        backend: &'static str,
        /// Error message
        message: String,
    },
}

/// The rendered text of each error, as character sequences.
pub open spec fn quasar_message_spec(e: QuasarError) -> Seq<char> {
    match e {
        QuasarError::QubitOutOfRange { qubit, max } => "qubit index "@ + dec_digits(qubit as nat)
            + " out of range (max "@ + dec_digits((max - 1) as nat) + ")"@,
        QuasarError::ClbitOutOfRange { clbit, max } => "classical bit index "@ + dec_digits(
            clbit as nat,
        ) + " out of range (max "@ + dec_digits((max - 1) as nat) + ")"@,
        QuasarError::QubitMismatch { expected, got } => "qubit count mismatch: expected "@
            + dec_digits(expected as nat) + ", got "@ + dec_digits(got as nat),
        QuasarError::InvalidGateParams { gate, message } => "invalid parameters for "@ + gate@
            + ": "@ + message@,
        QuasarError::DuplicateQubit { qubit } => "duplicate qubit "@ + dec_digits(qubit as nat)
            + " in instruction"@,
        QuasarError::CircuitTooLarge { qubits, max } => "circuit with "@ + dec_digits(qubits as nat)
            + " qubits exceeds maximum of "@ + dec_digits(max as nat),
        QuasarError::StateDimensionMismatch { expected, got } => (
        "state dimension mismatch: expected "@ + dec_digits(expected as nat) + ", got "@
            + dec_digits(got as nat)),
        QuasarError::NotSupported { operation } => "operation not supported: "@ + operation@,
        QuasarError::SimulationError { message } => "simulation error: "@ + message@,
        QuasarError::BackendError { backend, message } => backend@ + " backend error: "@
            + message@,
    }
}

impl QuasarError {
    /// Render the error as text, exactly as [`quasar_message_spec`]
    /// states it.
    ///
    /// An out-of-range report quotes the largest valid index, so its bound
    /// must name at least one valid slot.
    pub fn message(&self) -> (s: String)
        requires
            self matches QuasarError::QubitOutOfRange { max, .. } ==> max >= 1,
            self matches QuasarError::ClbitOutOfRange { max, .. } ==> max >= 1,
        ensures
            s@ == quasar_message_spec(*self),
    {
        let mut s = String::new();
        match self {
            QuasarError::QubitOutOfRange { qubit, max } => {
                proof {
                    reveal_strlit("qubit index ");
                    reveal_strlit(" out of range (max ");
                    reveal_strlit(")");
                }
                s.append("qubit index ");
                append_decimal(&mut s, *qubit as u64);
                s.append(" out of range (max ");
                append_decimal(&mut s, (*max - 1) as u64);
                s.append(")");
            },
            QuasarError::ClbitOutOfRange { clbit, max } => {
                proof {
                    reveal_strlit("classical bit index ");
                    reveal_strlit(" out of range (max ");
                    reveal_strlit(")");
                }
                s.append("classical bit index ");
                append_decimal(&mut s, *clbit as u64);
                s.append(" out of range (max ");
                append_decimal(&mut s, (*max - 1) as u64);
                s.append(")");
            },
            QuasarError::QubitMismatch { expected, got } => {
                proof {
                    reveal_strlit("qubit count mismatch: expected ");
                    reveal_strlit(", got ");
                }
                s.append("qubit count mismatch: expected ");
                append_decimal(&mut s, *expected as u64);
                s.append(", got ");
                append_decimal(&mut s, *got as u64);
            },
            QuasarError::InvalidGateParams { gate, message } => {
                proof {
                    reveal_strlit("invalid parameters for ");
                    reveal_strlit(": ");
                }
                s.append("invalid parameters for ");
                s.append(gate);
                s.append(": ");
                s.append(message);
            },
            QuasarError::DuplicateQubit { qubit } => {
                proof {
                    reveal_strlit("duplicate qubit ");
                    reveal_strlit(" in instruction");
                }
                s.append("duplicate qubit ");
                append_decimal(&mut s, *qubit as u64);
                s.append(" in instruction");
            },
            QuasarError::CircuitTooLarge { qubits, max } => {
                proof {
                    reveal_strlit("circuit with ");
                    reveal_strlit(" qubits exceeds maximum of ");
                }
                s.append("circuit with ");
                append_decimal(&mut s, *qubits as u64);
                s.append(" qubits exceeds maximum of ");
                append_decimal(&mut s, *max as u64);
            },
            QuasarError::StateDimensionMismatch { expected, got } => {
                proof {
                    reveal_strlit("state dimension mismatch: expected ");
                    reveal_strlit(", got ");
                }
                s.append("state dimension mismatch: expected ");
                append_decimal(&mut s, *expected as u64);
                s.append(", got ");
                append_decimal(&mut s, *got as u64);
            },
            QuasarError::NotSupported { operation } => {
                proof {
                    reveal_strlit("operation not supported: ");
                }
                s.append("operation not supported: ");
                s.append(operation);
            },
            QuasarError::SimulationError { message } => {
                proof {
                    reveal_strlit("simulation error: ");
                }
                s.append("simulation error: ");
                s.append(message.as_str());
            },
            QuasarError::BackendError { backend, message } => {
                proof {
                    reveal_strlit(" backend error: ");
                }
                s.append(backend);
                s.append(" backend error: ");
                s.append(message.as_str());
            },
        }
        proof {
            assert(s@ =~= quasar_message_spec(*self));
        }
        s
    }
}

} // verus!
