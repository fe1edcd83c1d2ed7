use vstd::prelude::*;

use crate::address::{Cell, Felt, Relocatable};
use crate::builtins::{
    all_registered, builtins_stack, lookup, parse_builtin_order, pushed, read_return_values,
    verify_auto_deductions, walk, BuiltinId, BuiltinRegion,
};
use crate::error::{Phase, RunnerError};
use crate::builtins::{all_parse, deductions_hold, first_bad_name, first_unregistered, ids_of};
use crate::memory::{sizes_of, SegmentSpace};
use crate::relocation::{
    base_of, columns_match, entry_fits_sizes, trace_or_empty, relocate_with_sizes, relocated_by_sizes, trace_columns,
    RelocatedTraceEntry, TraceEntry, TraceTable,
};

verus! {

/// What the execution engine hands back after a run that reached its target.
#[derive(Clone, Debug)]
pub struct RunOutcome {
    pub memory: SegmentSpace,
    pub pc: Relocatable,
    pub ap: Relocatable,
    pub fp: Relocatable,
    pub trace: Vec<TraceEntry>,
}

/// Why the execution engine stopped short of its target.
#[derive(Clone, Debug, PartialEq, Eq)]
pub enum RunFailure {
    Engine { message: String },
    BudgetExhausted,
}

/// The state of one program run, driven through its phases in a fixed order:
/// segments, call stack, run, deductions, return values, security, relocation.
#[derive(Clone, Debug)]
pub struct PyCairoRunner {
    pub phase: Phase,
    /// The phase in which the first failing step was requested.
    pub failed_in: Option<Phase>,
    pub allow_missing_builtins: bool,
    pub builtins: Vec<BuiltinId>,
    pub regions: Vec<BuiltinRegion>,
    pub program_base: Option<Relocatable>,
    pub memory: SegmentSpace,
    pub pc: Relocatable,
    pub ap: Relocatable,
    pub fp: Relocatable,
    pub trace: Vec<TraceEntry>,
    pub relocated_trace: Option<Vec<RelocatedTraceEntry>>,
}

/// The error of a step requested in the wrong phase.
pub open spec fn wrong_phase(expected: Phase, found: Phase) -> Result<(), RunnerError> {
    Err(RunnerError::WrongPhase { expected, found })
}

/// Every builtin of the program has a region, unless missing ones are tolerated.
pub open spec fn builtins_available(regions: Seq<BuiltinRegion>, program: Seq<BuiltinId>, allow_missing: bool) -> bool {
    allow_missing || all_registered(regions, program)
}

/// The relocated trace is present and is the trace relocated with the layout
/// of the given segment sizes, entry for entry, in execution order.
pub open spec fn trace_relocated(rt: Option<Vec<RelocatedTraceEntry>>, sizes: Seq<usize>, trace: Seq<TraceEntry>) -> bool {
    match rt {
        Some(v) => v@.len() == trace.len() && forall|i: int| 0 <= i < trace.len() ==>
            relocated_by_sizes(sizes, trace[i], #[trigger] v@[i]),
        None => false,
    }
}

/// Two runner states hold the same run data: configuration, builtin order
/// and regions, program base, memory, registers and trace.
pub open spec fn same_data(a: PyCairoRunner, b: PyCairoRunner) -> bool {
    a.allow_missing_builtins == b.allow_missing_builtins && a.builtins@ == b.builtins@
        && a.regions@ == b.regions@ && a.program_base == b.program_base && same_machine(a, b)
}

/// Two runner states hold the same memory, registers and trace.
pub open spec fn same_machine(a: PyCairoRunner, b: PyCairoRunner) -> bool {
    a.memory@ == b.memory@ && a.pc == b.pc && a.ap == b.ap && a.fp == b.fp && a.trace@ == b.trace@
}

/// How a step leaves the phase and failure record: on success the next
/// phase with the record untouched, on failure the failed phase with the
/// phase of the failing step recorded.
pub open spec fn settled(old_s: PyCairoRunner, new_s: PyCairoRunner, failed: bool, next: Phase) -> bool {
    if failed {
        new_s.phase == Phase::Failed && new_s.failed_in == failure_record(old_s.phase, old_s.failed_in)
    } else {
        new_s.phase == next && new_s.failed_in == old_s.failed_in
    }
}

/// A failure of the deduction check.
pub open spec fn is_deduction_error(e: RunnerError) -> bool {
    e is InconsistentDeduction || e is DeductionRowsMismatch
}

/// The failure record after a failing step: the first failure is kept.
pub open spec fn failure_record(phase: Phase, failed_in: Option<Phase>) -> Option<Phase> {
    if failed_in is Some { failed_in } else { Some(phase) }
}

impl PyCairoRunner {
    /// The return walk of this run, started `offset` cells below `ap`.
    pub open spec fn return_walk(self, offset: usize) -> Result<Relocatable, RunnerError> {
        if offset <= self.ap.offset {
            walk(self.regions@, self.builtins@, self.memory@,
                Relocatable { segment_index: self.ap.segment_index, offset: (self.ap.offset - offset) as usize },
                self.allow_missing_builtins)
        } else {
            Err(RunnerError::ReturnOffsetOutOfRange)
        }
    }

    /// The segments and every trace address fit on the flat line.
    pub open spec fn relocation_fits(self) -> bool {
        base_of(sizes_of(self.memory@), self.memory@.len() as int) <= usize::MAX
            && forall|i: int| 0 <= i < self.trace@.len() ==>
                entry_fits_sizes(sizes_of(self.memory@), #[trigger] self.trace@[i])
    }

    /// Ends the run: records the phase of the failing step and enters the
    /// failed phase, leaving everything else as it was.
    fn fail(&mut self)
        ensures
            *final(self) == (PyCairoRunner {
                phase: Phase::Failed,
                failed_in: failure_record(old(self).phase, old(self).failed_in),
                ..*old(self)
            }),
    {
        if self.failed_in.is_none() {
            self.failed_in = Some(self.phase);
        }
        self.phase = Phase::Failed;
    }

    /// A runner for a program with the given builtins, in the created phase.
    pub fn new(builtins: Vec<BuiltinId>, allow_missing_builtins: bool) -> (r: PyCairoRunner)
        ensures
            r.phase == Phase::Created,
            r.failed_in is None,
            r.builtins@ == builtins@,
            r.allow_missing_builtins == allow_missing_builtins,
            r.regions@.len() == 0,
            r.program_base is None,
            r.relocated_trace is None,
            r.trace@.len() == 0,
    {
        let origin = Relocatable { segment_index: 0, offset: 0 };
        PyCairoRunner {
            phase: Phase::Created,
            failed_in: None,
            allow_missing_builtins,
            builtins,
            regions: Vec::new(),
            program_base: None,
            memory: SegmentSpace::new(),
            pc: origin,
            ap: origin,
            fp: origin,
            trace: Vec::new(),
            relocated_trace: None,
        }
    }

    /// Records the builtin regions allocated by the engine and the program's
    /// base. Every builtin of the program needs a region unless missing
    /// builtins are tolerated.
    pub fn initialize_segments(&mut self, regions: Vec<BuiltinRegion>, program_base: Relocatable) -> (r: Result<(), RunnerError>)
        ensures
            old(self).phase != Phase::Created ==> r == wrong_phase(Phase::Created, old(self).phase),
            old(self).phase == Phase::Created ==> (r is Ok <==> builtins_available(regions@, old(self).builtins@, old(self).allow_missing_builtins)),
            old(self).phase == Phase::Created && r is Err ==> exists|k: int| first_unregistered(regions@, old(self).builtins@, k)
                && r == Err::<(), RunnerError>(RunnerError::BuiltinInit { name: old(self).builtins@[k] }),
            settled(*old(self), *final(self), r is Err, Phase::SegmentsInitialized),
            r is Err ==> same_data(*old(self), *final(self)),
            r is Ok ==> final(self).regions@ == regions@ && final(self).program_base == Some(program_base),
            final(self).builtins@ == old(self).builtins@,
            final(self).allow_missing_builtins == old(self).allow_missing_builtins,
            same_machine(*old(self), *final(self)),
            final(self).relocated_trace == old(self).relocated_trace,
    {
        if self.phase != Phase::Created {
            let found = self.phase;
            self.fail();
            return Err(RunnerError::WrongPhase { expected: Phase::Created, found });
        }
        if !self.allow_missing_builtins {
            match builtins_stack(&regions, &self.builtins) {
                Ok(_) => {},
                Err(RunnerError::BuiltinNotFound { name }) => {
                    self.fail();
                    return Err(RunnerError::BuiltinInit { name });
                },
                Err(e) => {
                    self.fail();
                    return Err(e);
                },
            }
        }
        self.regions = regions;
        self.program_base = Some(program_base);
        self.phase = Phase::SegmentsInitialized;
        Ok(())
    }

    /// Builds the entrypoint call stack: the builtins' initial values, in the
    /// given order (or the program's), followed by the caller's arguments. An
    /// explicit order replaces the program's order for the rest of the run.
    pub fn initialize_vm(&mut self, stack: Vec<Cell>, ordered_builtins: Option<Vec<String>>) -> (r: Result<Vec<Cell>, RunnerError>)
        ensures
            old(self).phase != Phase::SegmentsInitialized ==> r == Err::<Vec<Cell>, RunnerError>(
                RunnerError::WrongPhase { expected: Phase::SegmentsInitialized, found: old(self).phase })
                && same_data(*old(self), *final(self)),
            settled(*old(self), *final(self), r is Err, Phase::StackBuilt),
            old(self).phase == Phase::SegmentsInitialized && ordered_builtins is None ==> (
                r is Ok <==> all_registered(old(self).regions@, old(self).builtins@))
                && final(self).builtins@ == old(self).builtins@,
            old(self).phase == Phase::SegmentsInitialized && ordered_builtins is None && r is Err ==>
                exists|k: int| first_unregistered(old(self).regions@, old(self).builtins@, k)
                    && r == Err::<Vec<Cell>, RunnerError>(RunnerError::BuiltinNotFound { name: old(self).builtins@[k] }),
            old(self).phase == Phase::SegmentsInitialized && ordered_builtins is Some ==> (r is Ok <==> (
                all_parse(ordered_builtins.unwrap()@) && all_registered(old(self).regions@, ids_of(ordered_builtins.unwrap()@)))),
            old(self).phase == Phase::SegmentsInitialized && ordered_builtins is Some && !all_parse(ordered_builtins.unwrap()@) ==>
                final(self).builtins@ == old(self).builtins@
                && exists|k: int| first_bad_name(ordered_builtins.unwrap()@, k)
                    && r == Err::<Vec<Cell>, RunnerError>(RunnerError::InvalidBuiltinName { index: k as usize }),
            old(self).phase == Phase::SegmentsInitialized && ordered_builtins is Some && all_parse(ordered_builtins.unwrap()@) ==>
                final(self).builtins@ == ids_of(ordered_builtins.unwrap()@),
            old(self).phase == Phase::SegmentsInitialized && ordered_builtins is Some && all_parse(ordered_builtins.unwrap()@) && r is Err ==>
                exists|k: int| first_unregistered(old(self).regions@, ids_of(ordered_builtins.unwrap()@), k)
                    && r == Err::<Vec<Cell>, RunnerError>(RunnerError::BuiltinNotFound { name: ids_of(ordered_builtins.unwrap()@)[k] }),
            r matches Ok(s) ==> s@ == pushed(final(self).regions@, final(self).builtins@) + stack@
                && all_registered(final(self).regions@, final(self).builtins@),
            final(self).regions@ == old(self).regions@,
            final(self).program_base == old(self).program_base,
            final(self).allow_missing_builtins == old(self).allow_missing_builtins,
            same_machine(*old(self), *final(self)),
            final(self).relocated_trace == old(self).relocated_trace,
    {
        if self.phase != Phase::SegmentsInitialized {
            let found = self.phase;
            self.fail();
            return Err(RunnerError::WrongPhase { expected: Phase::SegmentsInitialized, found });
        }
        match ordered_builtins {
            Some(names) => match parse_builtin_order(&names) {
                Ok(ids) => {
                    self.builtins = ids;
                },
                Err(e) => {
                    self.fail();
                    return Err(e);
                },
            },
            None => {},
        }
        match builtins_stack(&self.regions, &self.builtins) {
            Ok(s) => {
                let mut full = s;
                let mut args = stack;
                full.append(&mut args);
                self.phase = Phase::StackBuilt;
                Ok(full)
            },
            Err(e) => {
                self.fail();
                Err(e)
            },
        }
    }

    /// Records the engine's run to the target pc: on success the final memory,
    /// registers and trace; a fault or an exhausted budget ends the run.
    pub fn record_run(&mut self, outcome: Result<RunOutcome, RunFailure>) -> (r: Result<(), RunnerError>)
        ensures
            old(self).phase != Phase::StackBuilt ==> r == wrong_phase(Phase::StackBuilt, old(self).phase),
            old(self).phase == Phase::StackBuilt ==> match outcome {
                Ok(o) => r is Ok && final(self).memory@ == o.memory@ && final(self).trace@ == o.trace@
                    && final(self).ap == o.ap && final(self).fp == o.fp && final(self).pc == o.pc,
                Err(RunFailure::BudgetExhausted) => r == Err::<(), RunnerError>(RunnerError::ResourceExhausted),
                Err(RunFailure::Engine { message }) => r == Err::<(), RunnerError>(RunnerError::Execution { message }),
            },
            settled(*old(self), *final(self), r is Err, Phase::EndedRun),
            r is Err ==> same_data(*old(self), *final(self)),
            final(self).regions@ == old(self).regions@,
            final(self).builtins@ == old(self).builtins@,
            final(self).program_base == old(self).program_base,
            final(self).allow_missing_builtins == old(self).allow_missing_builtins,
            final(self).relocated_trace == old(self).relocated_trace,
    {
        if self.phase != Phase::StackBuilt {
            let found = self.phase;
            self.fail();
            return Err(RunnerError::WrongPhase { expected: Phase::StackBuilt, found });
        }
        match outcome {
            Ok(o) => {
                self.memory = o.memory;
                self.pc = o.pc;
                self.ap = o.ap;
                self.fp = o.fp;
                self.trace = o.trace;
                self.phase = Phase::EndedRun;
                Ok(())
            },
            Err(RunFailure::BudgetExhausted) => {
                self.fail();
                Err(RunnerError::ResourceExhausted)
            },
            Err(RunFailure::Engine { message }) => {
                self.fail();
                Err(RunnerError::Execution { message })
            },
        }
    }

    /// Checks every builtin-owned cell against the value its rule deduces
    /// (`deduced[k][j]` for cell `j` of region `k`, from the engine).
    pub fn verify_auto_deductions(&mut self, deduced: &Vec<Vec<Option<Cell>>>) -> (r: Result<(), RunnerError>)
        ensures
            old(self).phase != Phase::EndedRun ==> r == wrong_phase(Phase::EndedRun, old(self).phase),
            old(self).phase == Phase::EndedRun ==> (r is Ok <==> deductions_hold(old(self).regions@, old(self).memory@,
                deduced@.map_values(|v: Vec<Option<Cell>>| v@))),
            old(self).phase == Phase::EndedRun && r is Err ==> is_deduction_error(r->Err_0),
            settled(*old(self), *final(self), r is Err, Phase::DeductionsVerified),
            same_data(*old(self), *final(self)),
            final(self).relocated_trace == old(self).relocated_trace,
    {
        if self.phase != Phase::EndedRun {
            let found = self.phase;
            self.fail();
            return Err(RunnerError::WrongPhase { expected: Phase::EndedRun, found });
        }
        match verify_auto_deductions(&self.regions, &self.memory, deduced) {
            Ok(()) => {
                self.phase = Phase::DeductionsVerified;
                Ok(())
            },
            Err(e) => {
                self.fail();
                Err(e)
            },
        }
    }

    /// Walks the builtins' return pointers, `offset` cells below `ap`, in the
    /// reverse of the order the stack was built in; returns where the walk ended.
    pub fn read_return_values(&mut self, offset: usize) -> (r: Result<Relocatable, RunnerError>)
        ensures
            old(self).phase != Phase::DeductionsVerified ==> r == Err::<Relocatable, RunnerError>(
                RunnerError::WrongPhase { expected: Phase::DeductionsVerified, found: old(self).phase }),
            old(self).phase == Phase::DeductionsVerified ==> r == old(self).return_walk(offset),
            settled(*old(self), *final(self), r is Err, Phase::ReturnValuesRead),
            same_data(*old(self), *final(self)),
            final(self).relocated_trace == old(self).relocated_trace,
    {
        if self.phase != Phase::DeductionsVerified {
            let found = self.phase;
            self.fail();
            return Err(RunnerError::WrongPhase { expected: Phase::DeductionsVerified, found });
        }
        let r = read_return_values(&self.regions, &self.builtins, &self.memory, self.ap, offset, self.allow_missing_builtins);
        match r {
            Ok(_) => {
                self.phase = Phase::ReturnValuesRead;
            },
            Err(_) => {
                self.fail();
            },
        }
        r
    }

    /// Records the engine's security check of the finished run.
    pub fn verify_secure_runner(&mut self, verdict: Result<(), String>) -> (r: Result<(), RunnerError>)
        ensures
            old(self).phase != Phase::ReturnValuesRead ==> r == wrong_phase(Phase::ReturnValuesRead, old(self).phase),
            old(self).phase == Phase::ReturnValuesRead ==> match verdict {
                Ok(_) => r is Ok,
                Err(message) => r == Err::<(), RunnerError>(RunnerError::SecurityViolation { message }),
            },
            settled(*old(self), *final(self), r is Err, Phase::SecurityVerified),
            same_data(*old(self), *final(self)),
            final(self).relocated_trace == old(self).relocated_trace,
    {
        if self.phase != Phase::ReturnValuesRead {
            let found = self.phase;
            self.fail();
            return Err(RunnerError::WrongPhase { expected: Phase::ReturnValuesRead, found });
        }
        match verdict {
            Ok(()) => {
                self.phase = Phase::SecurityVerified;
                Ok(())
            },
            Err(message) => {
                self.fail();
                Err(RunnerError::SecurityViolation { message })
            },
        }
    }

    /// Relocates the trace onto the flat address line, segments laid out in
    /// order of creation from address 1. Allowed once, after the security check;
    /// a second call fails and leaves the runner as it was.
    pub fn relocate(&mut self) -> (r: Result<(), RunnerError>)
        ensures
            old(self).phase == Phase::Relocated ==> r == Err::<(), RunnerError>(RunnerError::AlreadyRelocated)
                && *final(self) == *old(self),
            old(self).phase != Phase::Relocated && old(self).phase != Phase::SecurityVerified ==>
                r == wrong_phase(Phase::SecurityVerified, old(self).phase),
            old(self).phase == Phase::SecurityVerified ==> (r is Ok <==> old(self).relocation_fits()),
            old(self).phase != Phase::Relocated ==> settled(*old(self), *final(self), r is Err, Phase::Relocated),
            r is Err ==> final(self).relocated_trace == old(self).relocated_trace,
            r is Ok ==> trace_relocated(final(self).relocated_trace, sizes_of(old(self).memory@), old(self).trace@),
            same_data(*old(self), *final(self)),
    {
        if self.phase == Phase::Relocated {
            return Err(RunnerError::AlreadyRelocated);
        }
        if self.phase != Phase::SecurityVerified {
            let found = self.phase;
            self.fail();
            return Err(RunnerError::WrongPhase { expected: Phase::SecurityVerified, found });
        }
        let sizes = self.memory.segment_sizes();
        match relocate_with_sizes(&sizes, &self.trace) {
            Ok(rt) => {
                self.relocated_trace = Some(rt);
                self.phase = Phase::Relocated;
                Ok(())
            },
            Err(e) => {
                self.fail();
                Err(e)
            },
        }
    }

    /// Runs the post-run pipeline in its fixed order: deductions, return
    /// values, security, relocation. The first failing step ends it.
    pub fn verify_and_relocate(&mut self, offset: usize, deduced: &Vec<Vec<Option<Cell>>>, security: Result<(), String>) -> (r: Result<(), RunnerError>)
        ensures
            old(self).phase != Phase::EndedRun ==> r == wrong_phase(Phase::EndedRun, old(self).phase),
            old(self).phase == Phase::EndedRun && !deductions_hold(old(self).regions@, old(self).memory@,
                deduced@.map_values(|v: Vec<Option<Cell>>| v@)) ==>
                r is Err && is_deduction_error(r->Err_0)
                && final(self).failed_in == failure_record(Phase::EndedRun, old(self).failed_in),
            old(self).phase == Phase::EndedRun && deductions_hold(old(self).regions@, old(self).memory@,
                deduced@.map_values(|v: Vec<Option<Cell>>| v@)) && old(self).return_walk(offset) is Err ==>
                r == Err::<(), RunnerError>(old(self).return_walk(offset)->Err_0)
                && final(self).failed_in == failure_record(Phase::DeductionsVerified, old(self).failed_in),
            old(self).phase == Phase::EndedRun && deductions_hold(old(self).regions@, old(self).memory@,
                deduced@.map_values(|v: Vec<Option<Cell>>| v@)) && old(self).return_walk(offset) is Ok && security is Err ==>
                r == Err::<(), RunnerError>(RunnerError::SecurityViolation { message: security->Err_0 })
                && final(self).failed_in == failure_record(Phase::ReturnValuesRead, old(self).failed_in),
            old(self).phase == Phase::EndedRun && deductions_hold(old(self).regions@, old(self).memory@,
                deduced@.map_values(|v: Vec<Option<Cell>>| v@)) && old(self).return_walk(offset) is Ok && security is Ok ==>
                (r is Ok <==> old(self).relocation_fits())
                && (r is Err ==> final(self).failed_in == failure_record(Phase::SecurityVerified, old(self).failed_in)),
            r is Ok ==> final(self).phase == Phase::Relocated && final(self).failed_in == old(self).failed_in
                && trace_relocated(final(self).relocated_trace, sizes_of(old(self).memory@), old(self).trace@),
            r is Err ==> final(self).phase == Phase::Failed && final(self).relocated_trace == old(self).relocated_trace,
            same_data(*old(self), *final(self)),
    {
        match self.verify_auto_deductions(deduced) {
            Ok(()) => {},
            Err(e) => return Err(e),
        }
        match self.read_return_values(offset) {
            Ok(_) => {},
            Err(e) => return Err(e),
        }
        match self.verify_secure_runner(security) {
            Ok(()) => {},
            Err(e) => return Err(e),
        }
        self.relocate()
    }

    pub fn program_base(&self) -> (r: Option<Relocatable>)
        ensures
            r == self.program_base,
    {
        self.program_base
    }

    /// The execution segment is the one created right after the program's.
    pub fn execution_base(&self) -> (r: Option<Relocatable>)
        ensures
            r == match self.program_base {
                Some(p) => if p.segment_index < usize::MAX {
                    Some(Relocatable { segment_index: (p.segment_index + 1) as usize, offset: 0 })
                } else {
                    None
                },
                None => None,
            },
    {
        match self.program_base {
            Some(p) => {
                if p.segment_index < usize::MAX {
                    Some(Relocatable { segment_index: p.segment_index + 1, offset: 0 })
                } else {
                    None
                }
            },
            None => None,
        }
    }

    pub fn ap(&self) -> (r: Relocatable)
        ensures
            r == self.ap,
    {
        self.ap
    }

    pub fn fp(&self) -> (r: Relocatable)
        ensures
            r == self.fp,
    {
        self.fp
    }

    pub fn pc(&self) -> (r: Relocatable)
        ensures
            r == self.pc,
    {
        self.pc
    }

    /// The relocated trace, empty before relocation.
    pub fn relocated_trace(&self) -> (r: Vec<RelocatedTraceEntry>)
        ensures
            r@ == trace_or_empty(self.relocated_trace),
    {
        match &self.relocated_trace {
            Some(rt) => {
                let mut out: Vec<RelocatedTraceEntry> = Vec::new();
                let mut i: usize = 0;
                while i < rt.len()
                    invariant
                        i <= rt@.len(),
                        out@ == rt@.take(i as int),
                    decreases rt@.len() - i,
                {
                    out.push(rt[i]);
                    proof {
                        assert(rt@.take(i + 1) =~= rt@.take(i as int).push(rt@[i as int]));
                    }
                    i = i + 1;
                }
                proof {
                    assert(rt@.take(rt@.len() as int) =~= rt@);
                }
                out
            },
            None => Vec::new(),
        }
    }

    /// The relocated trace as pc, ap and fp columns, empty before relocation.
    pub fn trace_df(&self) -> (r: TraceTable)
        ensures
            columns_match(r, trace_or_empty(self.relocated_trace)),
    {
        let rt = self.relocated_trace();
        trace_columns(&rt)
    }
}

} // verus!
