use cairo_runner_core::address::{Cell, Felt, Relocatable};
use cairo_runner_core::builtins::{
    builtins_stack, final_stack, parse_builtin_order, read_return_values, return_step,
    verify_auto_deductions, BuiltinId, BuiltinRegion,
};
use cairo_runner_core::error::{Phase, RunnerError};
use cairo_runner_core::memory::SegmentSpace;
use cairo_runner_core::relocation::{
    relocate_trace, relocation_table, trace_columns, RelocatedTraceEntry, TraceEntry,
};
use cairo_runner_core::runner::{PyCairoRunner, RunFailure, RunOutcome};

const OUTPUT: BuiltinId = BuiltinId { code: 0 };
const RANGE_CHECK: BuiltinId = BuiltinId { code: 1 };

fn addr(segment_index: usize, offset: usize) -> Relocatable {
    Relocatable::new(segment_index, offset)
}

fn num(v: u128) -> Option<Cell> {
    Some(Cell::Int(Felt::from_u128(v)))
}

fn ptr(segment_index: usize, offset: usize) -> Option<Cell> {
    Some(Cell::Addr(addr(segment_index, offset)))
}

fn region(name: BuiltinId, base: usize) -> BuiltinRegion {
    BuiltinRegion { name, base, included: true, cells_per_instance: 1, preloaded: false }
}

fn excluded(name: BuiltinId, base: usize) -> BuiltinRegion {
    BuiltinRegion { name, base, included: false, cells_per_instance: 1, preloaded: false }
}

fn space(segments: Vec<Vec<Option<Cell>>>) -> SegmentSpace {
    SegmentSpace { segments }
}

/// Program segment 0, execution 1, range check 2, output 3, return fp 4, end 5.
fn finished_memory() -> SegmentSpace {
    space(vec![
        vec![num(10), num(11)],
        vec![ptr(2, 0), ptr(3, 0), num(5), ptr(4, 0), ptr(5, 0), ptr(2, 1), ptr(3, 1)],
        vec![num(7)],
        vec![num(5)],
        vec![],
        vec![],
    ])
}

fn finished_trace() -> Vec<TraceEntry> {
    vec![
        TraceEntry { pc: addr(0, 0), ap: addr(1, 5), fp: addr(1, 5) },
        TraceEntry { pc: addr(0, 1), ap: addr(1, 7), fp: addr(1, 5) },
    ]
}

fn runner_after_run() -> PyCairoRunner {
    let mut runner = PyCairoRunner::new(vec![RANGE_CHECK, OUTPUT], false);
    runner
        .initialize_segments(vec![region(RANGE_CHECK, 2), region(OUTPUT, 3)], addr(0, 0))
        .unwrap();
    runner.initialize_vm(vec![Cell::Int(Felt::from_u128(5))], None).unwrap();
    runner
        .record_run(Ok(RunOutcome {
            memory: finished_memory(),
            pc: addr(5, 0),
            ap: addr(1, 7),
            fp: addr(1, 5),
            trace: finished_trace(),
        }))
        .unwrap();
    runner
}

#[test]
fn end_to_end_range_check_and_output() {
    let mut runner = PyCairoRunner::new(vec![], false);
    runner
        .initialize_segments(vec![region(RANGE_CHECK, 2), region(OUTPUT, 3)], addr(0, 0))
        .unwrap();
    let stack = runner
        .initialize_vm(
            vec![Cell::Int(Felt::from_u128(5))],
            Some(vec!["range_check_builtin".to_string(), "output_builtin".to_string()]),
        )
        .unwrap();
    assert_eq!(
        stack,
        vec![
            Cell::Addr(addr(2, 0)),
            Cell::Addr(addr(3, 0)),
            Cell::Int(Felt::from_u128(5))
        ]
    );
    assert_eq!(runner.builtins, vec![RANGE_CHECK, OUTPUT]);
    runner
        .record_run(Ok(RunOutcome {
            memory: finished_memory(),
            pc: addr(5, 0),
            ap: addr(1, 7),
            fp: addr(1, 5),
            trace: finished_trace(),
        }))
        .unwrap();
    runner.verify_auto_deductions(&vec![vec![], vec![]]).unwrap();
    let end = runner.read_return_values(0).unwrap();
    assert_eq!(end, addr(1, 5));
    runner.verify_secure_runner(Ok(())).unwrap();
    runner.relocate().unwrap();
    assert_eq!(runner.phase, Phase::Relocated);
    let rt = runner.relocated_trace();
    assert!(rt.len() >= 1);
    assert_eq!(
        rt,
        vec![
            RelocatedTraceEntry { pc: 1, ap: 8, fp: 8 },
            RelocatedTraceEntry { pc: 2, ap: 10, fp: 8 },
        ]
    );
    let table = runner.trace_df();
    assert_eq!(table.pc, vec![1, 2]);
    assert_eq!(table.ap, vec![8, 10]);
    assert_eq!(table.fp, vec![8, 8]);
}

#[test]
fn verify_and_relocate_composes_the_pipeline() {
    let mut runner = runner_after_run();
    assert_eq!(runner.verify_and_relocate(0, &vec![vec![], vec![]], Ok(())), Ok(()));
    assert_eq!(runner.phase, Phase::Relocated);
    assert_eq!(runner.relocated_trace().len(), 2);
}

#[test]
fn relocate_twice_fails_the_second_time() {
    let mut runner = runner_after_run();
    runner.verify_and_relocate(0, &vec![vec![], vec![]], Ok(())).unwrap();
    let first = runner.relocated_trace();
    assert_eq!(runner.relocate(), Err(RunnerError::AlreadyRelocated));
    assert_eq!(runner.phase, Phase::Relocated);
    assert_eq!(runner.failed_in, None);
    assert_eq!(runner.relocated_trace(), first);
    for e in first.iter() {
        assert!(e.pc >= 1 && e.ap >= 1 && e.fp >= 1);
    }
}

#[test]
fn relocate_before_verification_fails() {
    let mut runner = runner_after_run();
    assert_eq!(
        runner.relocate(),
        Err(RunnerError::WrongPhase { expected: Phase::SecurityVerified, found: Phase::EndedRun })
    );
    assert_eq!(runner.phase, Phase::Failed);
    assert_eq!(runner.failed_in, Some(Phase::EndedRun));
    assert!(runner.relocated_trace().is_empty());
}

#[test]
fn run_before_initialize_vm_fails() {
    let mut runner = PyCairoRunner::new(vec![OUTPUT], false);
    runner.initialize_segments(vec![region(OUTPUT, 2)], addr(0, 0)).unwrap();
    let outcome = RunOutcome {
        memory: SegmentSpace::new(),
        pc: addr(0, 0),
        ap: addr(1, 0),
        fp: addr(1, 0),
        trace: vec![],
    };
    assert_eq!(
        runner.record_run(Ok(outcome)),
        Err(RunnerError::WrongPhase { expected: Phase::StackBuilt, found: Phase::SegmentsInitialized })
    );
    assert_eq!(runner.phase, Phase::Failed);
}

#[test]
fn verify_and_relocate_before_run_fails() {
    let mut runner = PyCairoRunner::new(vec![OUTPUT], false);
    runner.initialize_segments(vec![region(OUTPUT, 2)], addr(0, 0)).unwrap();
    runner.initialize_vm(vec![], None).unwrap();
    assert_eq!(
        runner.verify_and_relocate(0, &vec![vec![], vec![]], Ok(())),
        Err(RunnerError::WrongPhase { expected: Phase::EndedRun, found: Phase::StackBuilt })
    );
    assert!(runner.relocated_trace().is_empty());
}

#[test]
fn engine_fault_and_budget_end_the_run() {
    let mut runner = PyCairoRunner::new(vec![], false);
    runner.initialize_segments(vec![], addr(0, 0)).unwrap();
    runner.initialize_vm(vec![], None).unwrap();
    let mut other = runner.clone();
    assert_eq!(
        runner.record_run(Err(RunFailure::Engine { message: "bad opcode".to_string() })),
        Err(RunnerError::Execution { message: "bad opcode".to_string() })
    );
    assert_eq!(runner.phase, Phase::Failed);
    assert_eq!(other.record_run(Err(RunFailure::BudgetExhausted)), Err(RunnerError::ResourceExhausted));
}

#[test]
fn security_violation_is_reported() {
    let mut runner = runner_after_run();
    assert_eq!(
        runner.verify_and_relocate(0, &vec![vec![], vec![]], Err("gap in segment".to_string())),
        Err(RunnerError::SecurityViolation { message: "gap in segment".to_string() })
    );
    assert_eq!(runner.phase, Phase::Failed);
    assert_eq!(runner.failed_in, Some(Phase::ReturnValuesRead));
    assert_eq!(
        runner.relocate(),
        Err(RunnerError::WrongPhase { expected: Phase::SecurityVerified, found: Phase::Failed })
    );
    assert_eq!(runner.failed_in, Some(Phase::ReturnValuesRead));
}

#[test]
fn missing_program_builtin_needs_tolerance() {
    let mut strict = PyCairoRunner::new(vec![RANGE_CHECK, OUTPUT], false);
    assert_eq!(
        strict.initialize_segments(vec![region(RANGE_CHECK, 2)], addr(0, 0)),
        Err(RunnerError::BuiltinInit { name: OUTPUT })
    );
    let mut lenient = PyCairoRunner::new(vec![RANGE_CHECK, OUTPUT], true);
    assert_eq!(lenient.initialize_segments(vec![region(RANGE_CHECK, 2)], addr(0, 0)), Ok(()));
    assert_eq!(lenient.program_base(), Some(addr(0, 0)));
    assert_eq!(lenient.execution_base(), Some(addr(1, 0)));
}

#[test]
fn deductions_with_index_rule() {
    let regions = vec![region(RANGE_CHECK, 1)];
    let index_rule: Vec<Vec<Option<Cell>>> =
        vec![(0..3u128).map(|i| Some(Cell::Int(Felt::from_u128(i)))).collect()];
    let good = space(vec![vec![], vec![num(0), num(1), num(2)]]);
    assert_eq!(verify_auto_deductions(&regions, &good, &index_rule), Ok(()));
    let partial = space(vec![vec![], vec![num(0), None, num(2)]]);
    assert_eq!(verify_auto_deductions(&regions, &partial, &index_rule), Ok(()));
    let bad = space(vec![vec![], vec![num(0), num(5), num(2)]]);
    assert_eq!(
        verify_auto_deductions(&regions, &bad, &index_rule),
        Err(RunnerError::InconsistentDeduction { address: addr(1, 1) })
    );
    let addr_cell = space(vec![vec![], vec![num(0), num(1), ptr(0, 0)]]);
    assert_eq!(
        verify_auto_deductions(&regions, &good, &vec![]),
        Err(RunnerError::DeductionRowsMismatch { regions: 1, rows: 0 })
    );
    assert_eq!(
        verify_auto_deductions(&regions, &addr_cell, &index_rule),
        Err(RunnerError::InconsistentDeduction { address: addr(1, 2) })
    );
}

#[test]
fn runner_deduction_failure_ends_the_run() {
    let mut runner = runner_after_run();
    let rule = vec![vec![Some(Cell::Int(Felt::from_u128(0)))], vec![]];
    assert_eq!(
        runner.verify_auto_deductions(&rule),
        Err(RunnerError::InconsistentDeduction { address: addr(2, 0) })
    );
    assert_eq!(runner.phase, Phase::Failed);
}

#[test]
fn missing_builtin_placeholder_zero_advances_one() {
    let mem = space(vec![vec![num(0), num(0), num(3)]]);
    assert_eq!(return_step(&vec![], OUTPUT, &mem, addr(0, 2), true), Ok(addr(0, 1)));
}

#[test]
fn missing_builtin_placeholder_nonzero_mismatch() {
    let mem = space(vec![vec![num(0), num(9)]]);
    assert_eq!(
        return_step(&vec![], OUTPUT, &mem, addr(0, 2), true),
        Err(RunnerError::BuiltinMismatch { name: OUTPUT })
    );
    assert_eq!(
        return_step(&vec![], OUTPUT, &mem, addr(0, 2), false),
        Err(RunnerError::MissingBuiltin { name: OUTPUT })
    );
    let holes = space(vec![vec![None, ptr(0, 0)]]);
    assert_eq!(
        return_step(&vec![], OUTPUT, &holes, addr(0, 1), true),
        Err(RunnerError::UnknownCell { address: addr(0, 0) })
    );
    assert_eq!(
        return_step(&vec![], OUTPUT, &holes, addr(0, 2), true),
        Err(RunnerError::ExpectedInteger { address: addr(0, 1) })
    );
}

#[test]
fn push_and_pop_orders_pair_up() {
    let regions = vec![region(OUTPUT, 3), region(RANGE_CHECK, 2)];
    let order = vec![RANGE_CHECK, OUTPUT];
    let pushed = builtins_stack(&regions, &order).unwrap();
    assert_eq!(pushed, vec![Cell::Addr(addr(2, 0)), Cell::Addr(addr(3, 0))]);
    let mem = finished_memory();
    let end = read_return_values(&regions, &order, &mem, addr(1, 7), 0, false).unwrap();
    assert_eq!(end, addr(1, 7 - pushed.len()));
    let swapped = vec![OUTPUT, RANGE_CHECK];
    assert_eq!(
        read_return_values(&regions, &swapped, &mem, addr(1, 7), 0, false),
        Err(RunnerError::InvalidStopPointer { name: RANGE_CHECK })
    );
}

#[test]
fn return_offset_below_stack_start() {
    let mem = finished_memory();
    assert_eq!(
        read_return_values(&vec![], &vec![], &mem, addr(1, 2), 3, false),
        Err(RunnerError::ReturnOffsetOutOfRange)
    );
    assert_eq!(read_return_values(&vec![], &vec![], &mem, addr(1, 2), 2, false), Ok(addr(1, 0)));
}

#[test]
fn final_stack_checks_stop_pointer() {
    let mem = finished_memory();
    let rc = region(RANGE_CHECK, 2);
    assert_eq!(final_stack(&rc, &mem, addr(1, 6)), Ok(addr(1, 5)));
    assert_eq!(final_stack(&rc, &mem, addr(1, 0)), Err(RunnerError::NoStopPointer { name: RANGE_CHECK }));
    assert_eq!(final_stack(&rc, &mem, addr(1, 3)), Err(RunnerError::NoStopPointer { name: RANGE_CHECK }));
    assert_eq!(final_stack(&rc, &mem, addr(1, 7)), Err(RunnerError::InvalidStopPointer { name: RANGE_CHECK }));
    let excluded = excluded(RANGE_CHECK, 2);
    assert_eq!(final_stack(&excluded, &mem, addr(1, 3)), Ok(addr(1, 3)));
}

#[test]
fn stack_needs_every_builtin_registered() {
    let regions = vec![region(OUTPUT, 3)];
    assert_eq!(
        builtins_stack(&regions, &vec![OUTPUT, RANGE_CHECK]),
        Err(RunnerError::BuiltinNotFound { name: RANGE_CHECK })
    );
    let excluded = vec![excluded(OUTPUT, 3)];
    assert_eq!(builtins_stack(&excluded, &vec![OUTPUT]), Ok(vec![]));
}

#[test]
fn builtin_names_parse_with_suffix() {
    let names = vec!["range_check_builtin".to_string(), "output_builtin".to_string()];
    assert_eq!(parse_builtin_order(&names), Ok(vec![RANGE_CHECK, OUTPUT]));
    let bad = vec!["output_builtin".to_string(), "range_check".to_string()];
    assert_eq!(parse_builtin_order(&bad), Err(RunnerError::InvalidBuiltinName { index: 1 }));
}

#[test]
fn invalid_ordering_fails_initialize_vm() {
    let mut runner = PyCairoRunner::new(vec![OUTPUT], false);
    runner.initialize_segments(vec![region(OUTPUT, 2)], addr(0, 0)).unwrap();
    assert_eq!(
        runner.initialize_vm(vec![], Some(vec!["nope".to_string()])),
        Err(RunnerError::InvalidBuiltinName { index: 0 })
    );
    assert_eq!(runner.phase, Phase::Failed);
}

#[test]
fn relocation_table_lays_segments_end_to_end() {
    assert_eq!(relocation_table(&vec![3, 4, 5]), Ok(vec![1, 4, 8]));
    assert_eq!(relocation_table(&vec![]), Ok(vec![]));
    assert_eq!(relocation_table(&vec![usize::MAX, 1]), Err(RunnerError::RelocationOverflow));
}

#[test]
fn trace_relocation_keeps_order() {
    let table = vec![1, 4, 8];
    let trace = vec![
        TraceEntry { pc: addr(0, 2), ap: addr(1, 0), fp: addr(1, 0) },
        TraceEntry { pc: addr(0, 0), ap: addr(2, 3), fp: addr(1, 1) },
    ];
    assert_eq!(
        relocate_trace(&table, &trace),
        Ok(vec![
            RelocatedTraceEntry { pc: 3, ap: 4, fp: 4 },
            RelocatedTraceEntry { pc: 1, ap: 11, fp: 5 },
        ])
    );
    let stray = vec![TraceEntry { pc: addr(3, 0), ap: addr(1, 0), fp: addr(1, 0) }];
    assert_eq!(relocate_trace(&table, &stray), Err(RunnerError::UnknownSegment { address: addr(3, 0) }));
    let columns = trace_columns(&vec![RelocatedTraceEntry { pc: 3, ap: 4, fp: 5 }]);
    assert_eq!((columns.pc, columns.ap, columns.fp), (vec![3], vec![4], vec![5]));
}

#[test]
fn segments_are_allocated_in_order() {
    let mut mem = SegmentSpace::new();
    assert_eq!(mem.add_segment(), 0);
    assert_eq!(mem.add_segment(), 1);
    assert_eq!(mem.num_segments(), 2);
    assert_eq!(mem.get(addr(1, 0)), None);
    assert_eq!(mem.segment_sizes(), vec![0, 0]);
}

#[test]
fn partly_written_instance_counts_whole() {
    let bitwise = BuiltinRegion { name: BuiltinId { code: 5 }, base: 1, included: true, cells_per_instance: 5, preloaded: false };
    let mut cells = vec![num(1); 8];
    cells.push(None);
    let mem = space(vec![vec![ptr(1, 10), ptr(1, 8)], cells]);
    assert_eq!(final_stack(&bitwise, &mem, addr(0, 1)), Ok(addr(0, 0)));
    assert_eq!(
        final_stack(&bitwise, &mem, addr(0, 2)),
        Err(RunnerError::InvalidStopPointer { name: BuiltinId { code: 5 } })
    );
}

#[test]
fn preloaded_instance_moves_the_stop_pointer() {
    let arena = BuiltinRegion { name: BuiltinId { code: 8 }, base: 1, included: true, cells_per_instance: 3, preloaded: true };
    let mem = space(vec![vec![ptr(1, 6), ptr(1, 3)], vec![num(0), num(0), num(0)]]);
    assert_eq!(final_stack(&arena, &mem, addr(0, 1)), Ok(addr(0, 0)));
    assert_eq!(
        final_stack(&arena, &mem, addr(0, 2)),
        Err(RunnerError::InvalidStopPointer { name: BuiltinId { code: 8 } })
    );
}

#[test]
fn missing_builtin_placeholder_needs_a_cell_below() {
    let mem = space(vec![vec![num(0)]]);
    assert_eq!(
        return_step(&vec![], OUTPUT, &mem, addr(0, 0), true),
        Err(RunnerError::NoStopPointer { name: OUTPUT })
    );
}

#[test]
fn failed_ordering_keeps_previous_builtins() {
    let mut runner = PyCairoRunner::new(vec![OUTPUT], false);
    runner.initialize_segments(vec![region(OUTPUT, 2)], addr(0, 0)).unwrap();
    let _ = runner.initialize_vm(vec![], Some(vec!["output_builtin".to_string(), "bogus".to_string()]));
    assert_eq!(runner.builtins, vec![OUTPUT]);
    assert_eq!(runner.failed_in, Some(Phase::SegmentsInitialized));
}
