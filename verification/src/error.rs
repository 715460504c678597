//! What estimation and optimization report when they fail.
use vstd::prelude::*;

verus! {

/// Why a simulation gave no usable estimate.
#[derive(Debug, PartialEq, Eq)]
pub enum SolanaClientExtError {
    /// The simulation did not say how many compute units were consumed.
    ComputeUnitsError(String),
    /// The simulation did not run.
    RpcError(String),
}

/// Why a message or a transaction was left as it was.
#[derive(Debug)]
pub enum OptimizeError<E> {
    /// The estimate failed.
    Estimate(E),
    /// The estimate does not fit the compute unit limit of an instruction.
    UnitsOutOfRange(std::num::TryFromIntError),
}

} // verus!
