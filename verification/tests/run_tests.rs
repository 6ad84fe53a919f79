use wark::cost::counts::OperationCounts;
use wark::cost::CostPoints;
use wark::run::{
    classify, complete, consumed, exit_error, stage_error, stdin_line, trap_error, trapped,
    try_complete,
    ExitStatus, RunError, RunRequest, Stage, StartOutcome, TrapKind,
};
use wasmer_types::TrapCode;

fn runtime_message(error: RunError) -> String {
    match error {
        RunError::RuntimeError(message) => message,
        other => panic!("not a runtime error: {:?}", other),
    }
}

#[test]
fn every_trap_but_unreachable_has_its_message() {
    let table = [
        (TrapKind::StackOverflow, "Stack overflow"),
        (TrapKind::HeapAccessOutOfBounds, "Heap access out of bounds"),
        (TrapKind::HeapMisaligned, "Heap misaligned"),
        (TrapKind::TableAccessOutOfBounds, "Table access out of bounds"),
        (TrapKind::IndirectCallToNull, "Indirect call to null"),
        (TrapKind::BadSignature, "Bad signature"),
        (TrapKind::IntegerOverflow, "Integer overflow"),
        (TrapKind::IntegerDivisionByZero, "Integer division by zero"),
        (TrapKind::BadConversionToInteger, "Bad conversion to integer"),
        (TrapKind::UnalignedAtomic, "Unaligned atomic"),
    ];
    for (kind, message) in table {
        for meter in [CostPoints::Remaining(5), CostPoints::Exhausted] {
            assert_eq!(runtime_message(trap_error(kind, &meter, 99)), message);
        }
    }
}

#[test]
fn unreachable_with_points_left_is_the_guests_fault() {
    let error = trap_error(TrapKind::UnreachableCodeReached, &CostPoints::Remaining(0), 10_000);
    assert_eq!(runtime_message(error), "Unreachable code reached.");
}

#[test]
fn unreachable_with_an_exhausted_meter_is_the_spending_limit() {
    let error = trap_error(TrapKind::UnreachableCodeReached, &CostPoints::Exhausted, 10_000);
    assert!(matches!(error, RunError::SpendingLimitExceeded(10_000)));
}

#[test]
fn a_return_completes_the_run() {
    assert!(classify(StartOutcome::Returned, 5, 4).is_ok());
}

#[test]
fn an_exit_with_success_completes_the_run() {
    assert!(classify(StartOutcome::Exited(ExitStatus::Success), 5, 4).is_ok());
    assert!(exit_error(ExitStatus::Success, 4).is_none());
}

#[test]
fn an_exit_with_toobig_is_the_memory_limit() {
    let judged = classify(StartOutcome::Exited(ExitStatus::Toobig), 5, 512);
    assert!(matches!(judged, Err(RunError::MemoryLimitExceeded(512))));
}

#[test]
fn an_exit_with_another_errno_names_it() {
    let judged = classify(StartOutcome::Exited(ExitStatus::Other("badf".to_string())), 5, 512);
    assert_eq!(runtime_message(judged.unwrap_err()), "Exited with errno badf");
}

#[test]
fn an_unknown_wasi_version_is_a_runtime_error() {
    let judged = classify(StartOutcome::UnknownWasiVersion, 5, 512);
    assert_eq!(runtime_message(judged.unwrap_err()), "Unknown WASI version");
}

#[test]
fn another_host_error_keeps_its_message() {
    let judged = classify(StartOutcome::HostError("the host fell over".to_string()), 5, 512);
    assert_eq!(runtime_message(judged.unwrap_err()), "the host fell over");
}

#[test]
fn a_trap_is_classified_with_the_meter_read_after_it() {
    let outcome = StartOutcome::Trapped {
        kind: TrapKind::UnreachableCodeReached,
        meter: CostPoints::Exhausted,
    };
    assert!(matches!(classify(outcome, 42, 1), Err(RunError::SpendingLimitExceeded(42))));
    let outcome = StartOutcome::Trapped {
        kind: TrapKind::HeapAccessOutOfBounds,
        meter: CostPoints::Exhausted,
    };
    assert_eq!(
        runtime_message(classify(outcome, 42, 1).unwrap_err()),
        "Heap access out of bounds"
    );
}

#[test]
fn every_trap_code_is_told_apart() {
    let table = [
        (TrapCode::StackOverflow, TrapKind::StackOverflow),
        (TrapCode::HeapAccessOutOfBounds, TrapKind::HeapAccessOutOfBounds),
        (TrapCode::HeapMisaligned, TrapKind::HeapMisaligned),
        (TrapCode::TableAccessOutOfBounds, TrapKind::TableAccessOutOfBounds),
        (TrapCode::IndirectCallToNull, TrapKind::IndirectCallToNull),
        (TrapCode::BadSignature, TrapKind::BadSignature),
        (TrapCode::IntegerOverflow, TrapKind::IntegerOverflow),
        (TrapCode::IntegerDivisionByZero, TrapKind::IntegerDivisionByZero),
        (TrapCode::BadConversionToInteger, TrapKind::BadConversionToInteger),
        (TrapCode::UnreachableCodeReached, TrapKind::UnreachableCodeReached),
        (TrapCode::UnalignedAtomic, TrapKind::UnalignedAtomic),
    ];
    for (code, expected) in table {
        match trapped(code, CostPoints::Remaining(3)) {
            StartOutcome::Trapped { kind, meter } => {
                assert_eq!(kind, expected);
                assert_eq!(meter, CostPoints::Remaining(3));
            }
            other => panic!("not a trap: {:?}", other),
        }
    }
}

#[test]
fn failures_of_the_streams_are_io_errors() {
    for stage in [Stage::WriteInput, Stage::DrainStdout, Stage::DrainStderr] {
        match stage_error(stage, "broken pipe".to_string()) {
            RunError::IOError(message) => assert_eq!(message, "broken pipe"),
            other => panic!("{:?}: {:?}", stage, other),
        }
    }
}

#[test]
fn failures_before_the_guest_runs_are_compile_errors() {
    for stage in [
        Stage::Compile,
        Stage::Environment,
        Stage::Imports,
        Stage::Instantiate,
        Stage::Initialize,
        Stage::ResolveStart,
    ] {
        match stage_error(stage, "no such export".to_string()) {
            RunError::CompileError(message) => assert_eq!(message, "no such export"),
            other => panic!("{:?}: {:?}", stage, other),
        }
    }
}

#[test]
fn the_input_is_written_with_one_newline() {
    assert_eq!(stdin_line("world"), "world\n");
    assert_eq!(stdin_line(""), "\n");
    assert_eq!(stdin_line("a\nb\n"), "a\nb\n\n");
    assert_eq!(stdin_line("h\u{e9}llo \u{1f600}"), "h\u{e9}llo \u{1f600}\n");
}

#[test]
fn the_cost_is_what_is_gone_from_the_budget() {
    assert_eq!(consumed(1_000_000, &CostPoints::Remaining(1_000_000)), 0);
    assert_eq!(consumed(1_000_000, &CostPoints::Remaining(999_987)), 13);
    assert_eq!(consumed(10, &CostPoints::Remaining(0)), 10);
    assert_eq!(consumed(u64::MAX, &CostPoints::Remaining(1)), u64::MAX - 1);
}

#[test]
fn a_completed_run_reports_cost_memory_and_streams() {
    let mut operations = OperationCounts::new();
    operations.increment("End".to_string());
    let result = complete(
        5000,
        4,
        &CostPoints::Remaining(4200),
        17,
        b"hello\n".to_vec(),
        vec![0xff, 0x00],
        operations,
    );
    assert_eq!(result.cost, 800);
    assert_eq!(result.memory, 2);
    assert_eq!(result.stdout, b"hello\n");
    assert_eq!(result.stderr, vec![0xff, 0x00]);
    assert_eq!(result.operations.get(&"End".to_string()), 1);
}

#[test]
fn a_run_without_memory_reports_no_megabytes() {
    let result = complete(
        7,
        1,
        &CostPoints::Remaining(7),
        0,
        Vec::new(),
        Vec::new(),
        OperationCounts::new(),
    );
    assert_eq!(result.cost, 0);
    assert_eq!(result.memory, 0);
    assert!(result.stdout.is_empty());
    assert!(result.stderr.is_empty());
}

#[test]
fn an_error_is_described_as_it_is_printed() {
    let errors = [
        RunError::SpendingLimitExceeded(10_000),
        RunError::SpendingLimitExceeded(0),
        RunError::SpendingLimitExceeded(u64::MAX),
        RunError::MemoryLimitExceeded(512),
        RunError::MemoryLimitExceeded(u32::MAX),
        RunError::RuntimeError("Stack overflow".to_string()),
        RunError::RuntimeError("a \"quoted\" word\nand a second line\t\\".to_string()),
        RunError::CompileError("Validation error: type mismatch (at offset 12)".to_string()),
        RunError::CompileError(String::new()),
        RunError::IOError("\u{1f600} caf\u{e9} \u{7f}\u{0}".to_string()),
    ];
    for error in errors {
        assert_eq!(error.describe(), format!("{:?}", error));
    }
}

#[test]
fn a_description_names_the_kind_and_the_limit() {
    assert_eq!(
        RunError::SpendingLimitExceeded(10_000).describe(),
        "SpendingLimitExceeded(10000)"
    );
    assert_eq!(RunError::MemoryLimitExceeded(4).describe(), "MemoryLimitExceeded(4)");
    assert_eq!(
        RunError::RuntimeError("Heap misaligned".to_string()).describe(),
        "RuntimeError(\"Heap misaligned\")"
    );
}

#[test]
fn a_request_holds_what_it_was_given() {
    let request = RunRequest {
        wasm: vec![0, 97, 115, 109].into_boxed_slice(),
        budget: 9,
        mem: 3,
        input: "in".to_string(),
    };
    assert_eq!(&request.wasm[..], b"\0asm");
    assert_eq!(request.budget, 9);
    assert_eq!(request.mem, 3);
    assert_eq!(request.input, "in");
}

#[test]
fn a_sound_reading_completes_the_run() {
    let result = try_complete(
        100,
        4,
        &CostPoints::Remaining(40),
        64,
        b"out".to_vec(),
        b"err".to_vec(),
        OperationCounts::new(),
    )
    .unwrap();
    assert_eq!(result.cost, 60);
    assert_eq!(result.memory, 4);
    assert_eq!(result.stdout, b"out");
    assert_eq!(result.stderr, b"err");
}

#[test]
fn an_unsound_reading_completes_nothing() {
    let exhausted = try_complete(
        100,
        4,
        &CostPoints::Exhausted,
        1,
        Vec::new(),
        Vec::new(),
        OperationCounts::new(),
    );
    assert!(exhausted.is_none());
    let more_than_budget = try_complete(
        100,
        4,
        &CostPoints::Remaining(101),
        1,
        Vec::new(),
        Vec::new(),
        OperationCounts::new(),
    );
    assert!(more_than_budget.is_none());
    let above_ceiling = try_complete(
        100,
        4,
        &CostPoints::Remaining(1),
        65,
        Vec::new(),
        Vec::new(),
        OperationCounts::new(),
    );
    assert!(above_ceiling.is_none());
    let too_many_pages = try_complete(
        100,
        u32::MAX,
        &CostPoints::Remaining(1),
        u32::MAX,
        Vec::new(),
        Vec::new(),
        OperationCounts::new(),
    );
    assert!(too_many_pages.is_none());
}
