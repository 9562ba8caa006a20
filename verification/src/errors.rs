//! The error taxonomy shared by both kernels.

use vstd::prelude::*;

verus! {

/// A kernel call either returns a complete output column or exactly one of
/// these errors; no partial output is ever produced.
#[derive(Clone, Copy, Debug, PartialEq, Eq, Structural)]
pub enum KernelError {
    /// A parameter violated its documented constraint; detected before any
    /// element is processed.
    InvalidParameter,
    /// The input column's type cannot be coerced to the required numeric type.
    TypeMismatch,
    /// Any other kernel-internal failure.
    ComputeError,
}

impl KernelError {
    /// A short human-readable description, for the host to surface.
    pub fn message(&self) -> (m: &'static str)
        ensures
            self is InvalidParameter ==> m@ == "invalid parameter"@,
            self is TypeMismatch ==> m@ == "type mismatch"@,
            self is ComputeError ==> m@ == "compute error"@,
    {
        match self {
            KernelError::InvalidParameter => "invalid parameter",
            KernelError::TypeMismatch => "type mismatch",
            KernelError::ComputeError => "compute error",
        }
    }
}

} // verus!
