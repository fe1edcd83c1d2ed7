use vstd::prelude::*;

use crate::address::Relocatable;
use crate::builtins::BuiltinId;

verus! {

/// The step of the run lifecycle that a runner has reached.
#[derive(Clone, Copy, Debug, PartialEq, Eq, Structural)]
pub enum Phase {
    Created,
    SegmentsInitialized,
    StackBuilt,
    EndedRun,
    DeductionsVerified,
    ReturnValuesRead,
    SecurityVerified,
    Relocated,
    Failed,
}

/// Every way a run can fail.
#[derive(Clone, Debug, PartialEq, Eq)]
pub enum RunnerError {
    /// A builtin of the program has no region and missing builtins are not tolerated.
    BuiltinInit { name: BuiltinId },
    /// A builtin name in an explicit ordering is not a known builtin.
    InvalidBuiltinName { index: usize },
    /// A builtin of the ordering has no registered region when building the stack.
    BuiltinNotFound { name: BuiltinId },
    /// A builtin of the ordering has no region and missing builtins are not tolerated.
    MissingBuiltin { name: BuiltinId },
    /// The placeholder cell of a tolerated missing builtin is not zero.
    BuiltinMismatch { name: BuiltinId },
    /// The stop-pointer cell of a builtin is absent or is not an address.
    NoStopPointer { name: BuiltinId },
    /// The stop pointer of a builtin does not point at the end of its segment.
    InvalidStopPointer { name: BuiltinId },
    /// A cell that must hold a value was never written.
    UnknownCell { address: Relocatable },
    /// A cell that must hold an integer holds an address.
    ExpectedInteger { address: Relocatable },
    /// The return offset reaches below the start of the stack segment.
    ReturnOffsetOutOfRange,
    /// A lifecycle step was requested in a phase that does not allow it.
    WrongPhase { expected: Phase, found: Phase },
    /// The execution engine reported a fault.
    Execution { message: String },
    /// The step budget was exhausted before the target pc was reached.
    ResourceExhausted,
    /// The table of deduced values does not have one row per builtin region.
    DeductionRowsMismatch { regions: usize, rows: usize },
    /// A builtin-owned cell disagrees with the value its rule deduces.
    InconsistentDeduction { address: Relocatable },
    /// The post-run security check failed.
    SecurityViolation { message: String },
    /// Relocation was requested a second time.
    AlreadyRelocated,
    /// The segment sizes do not fit on the flat address line.
    RelocationOverflow,
    /// A trace address lies in a segment that has no relocation base.
    UnknownSegment { address: Relocatable },
}

} // verus!
