//! One run of a module: what the host is asked, what it answers, and how the end
//! of the guest's `_start` is judged.

use vstd::prelude::*;
use vstd::string::StringExecFns;
use wasmer_types::TrapCode;

use crate::cost::counts::OperationCounts;
use crate::cost::CostPoints;
use crate::memory::{ceiling_in_pages, declared_megabytes, memory_refusal};
use crate::text::{debug_quoted, decimal, decimal_string, quoted};

verus! {

/// What is to be run, and within which limits.
#[derive(Debug)]
pub struct RunRequest {
    /// The WebAssembly binary to run.
    pub wasm: Box<[u8]>,
    /// The budget limit of the program.
    pub budget: u64,
    /// The memory limit of the program, in MB.
    pub mem: u32,
    /// The input to the program.
    pub input: String,
}

/// What a run that came to a good end used and wrote.
#[derive(Debug)]
pub struct RunResult {
    /// The cost of the program.
    pub cost: u64,
    /// The memory usage of the program, in MB.
    pub memory: u32,
    /// The stdout of the program.
    pub stdout: Vec<u8>,
    /// The stderr of the program.
    pub stderr: Vec<u8>,
    /// The operations counts of the program: occurrences in the module, not
    /// executions.
    pub operations: OperationCounts,
}

/// Why a run came to no good end.
#[derive(Debug)]
pub enum RunError {
    SpendingLimitExceeded(u64),
    MemoryLimitExceeded(u32),
    RuntimeError(String),
    CompileError(String),
    IOError(String),
}

/// A `RunError`, with its message as a sequence of characters.
pub enum Failure {
    SpendingLimitExceeded(u64),
    MemoryLimitExceeded(u32),
    RuntimeError(Seq<char>),
    CompileError(Seq<char>),
    IOError(Seq<char>),
}

impl View for RunError {
    type V = Failure;

    open spec fn view(&self) -> Failure {
        match self {
            RunError::SpendingLimitExceeded(budget) => Failure::SpendingLimitExceeded(*budget),
            RunError::MemoryLimitExceeded(ceiling) => Failure::MemoryLimitExceeded(*ceiling),
            RunError::RuntimeError(message) => Failure::RuntimeError(message@),
            RunError::CompileError(message) => Failure::CompileError(message@),
            RunError::IOError(message) => Failure::IOError(message@),
        }
    }
}

/// How an error is printed: the name of its kind, and in brackets the limit, or
/// the message as it is printed for debugging.
pub open spec fn described(failure: Failure) -> Seq<char> {
    match failure {
        Failure::SpendingLimitExceeded(budget) => "SpendingLimitExceeded("@ + decimal(
            budget as nat,
        ) + ")"@,
        Failure::MemoryLimitExceeded(ceiling) => "MemoryLimitExceeded("@ + decimal(
            ceiling as nat,
        ) + ")"@,
        Failure::RuntimeError(message) => "RuntimeError("@ + debug_quoted(message) + ")"@,
        Failure::CompileError(message) => "CompileError("@ + debug_quoted(message) + ")"@,
        Failure::IOError(message) => "IOError("@ + debug_quoted(message) + ")"@,
    }
}

impl RunError {
    /// How this error is printed.
    pub fn describe(&self) -> (text: String)
        ensures
            text@ == described(self@),
    {
        match self {
            RunError::SpendingLimitExceeded(budget) => String::from_str(
                "SpendingLimitExceeded(",
            ).concat(decimal_string(*budget).as_str()).concat(")"),
            RunError::MemoryLimitExceeded(ceiling) => String::from_str(
                "MemoryLimitExceeded(",
            ).concat(decimal_string(*ceiling as u64).as_str()).concat(")"),
            RunError::RuntimeError(message) => String::from_str("RuntimeError(").concat(
                quoted(message.as_str()).as_str(),
            ).concat(")"),
            RunError::CompileError(message) => String::from_str("CompileError(").concat(
                quoted(message.as_str()).as_str(),
            ).concat(")"),
            RunError::IOError(message) => String::from_str("IOError(").concat(
                quoted(message.as_str()).as_str(),
            ).concat(")"),
        }
    }
}

/// The steps of a run that can fail before or after the guest runs.
#[derive(Clone, Copy, Debug, PartialEq, Eq)]
pub enum Stage {
    /// Compiling the module bytes.
    Compile,
    /// Setting up the WASI environment.
    Environment,
    /// Collecting the imports of the module.
    Imports,
    /// Instantiating the module.
    Instantiate,
    /// Binding the WASI environment to the instance.
    Initialize,
    /// Writing the input to the guest's stdin.
    WriteInput,
    /// Looking up the `_start` export.
    ResolveStart,
    /// Reading what the guest wrote to stdout.
    DrainStdout,
    /// Reading what the guest wrote to stderr.
    DrainStderr,
}

/// Whether a failure at `stage` is one of reading or writing a stream.
pub open spec fn is_stream_stage(stage: Stage) -> bool {
    stage == Stage::WriteInput || stage == Stage::DrainStdout || stage == Stage::DrainStderr
}

/// The error for a failure at `stage` with the given message: an I/O error for
/// the three stream stages, a compile error for all the others.
pub open spec fn stage_failure(stage: Stage, message: Seq<char>) -> Failure {
    if is_stream_stage(stage) {
        Failure::IOError(message)
    } else {
        Failure::CompileError(message)
    }
}

/// The error for a failure at `stage` with the given message.
pub fn stage_error(stage: Stage, message: String) -> (error: RunError)
    ensures
        error@ == stage_failure(stage, message@),
{
    match stage {
        Stage::WriteInput | Stage::DrainStdout | Stage::DrainStderr => RunError::IOError(message),
        Stage::Compile
        | Stage::Environment
        | Stage::Imports
        | Stage::Instantiate
        | Stage::Initialize
        | Stage::ResolveStart => RunError::CompileError(message),
    }
}

/// Why the guest trapped.
#[derive(Clone, Copy, Debug, PartialEq, Eq)]
pub enum TrapKind {
    StackOverflow,
    HeapAccessOutOfBounds,
    HeapMisaligned,
    TableAccessOutOfBounds,
    IndirectCallToNull,
    BadSignature,
    IntegerOverflow,
    IntegerDivisionByZero,
    BadConversionToInteger,
    UnreachableCodeReached,
    UnalignedAtomic,
}

/// With which errno the guest exited.
#[derive(Debug)]
pub enum ExitStatus {
    /// The errno for success.
    Success,
    /// The errno for "argument list too long", which the guest's allocator
    /// reports when the memory ceiling is hit.
    Toobig,
    /// Any other errno, as it is printed.
    Other(String),
}

/// How the call of the guest's `_start` ended.
#[derive(Debug)]
pub enum StartOutcome {
    /// The call returned.
    Returned,
    /// The guest trapped; `meter` is the meter as read after the trap.
    Trapped { kind: TrapKind, meter: CostPoints },
    /// The guest exited through WASI.
    Exited(ExitStatus),
    /// The guest asked for a WASI version that the host does not know.
    UnknownWasiVersion,
    /// Any other error of the host, with its message.
    HostError(String),
}

/// The message for a trap other than a reached `unreachable`.
pub open spec fn trap_message(kind: TrapKind) -> Seq<char> {
    match kind {
        TrapKind::StackOverflow => "Stack overflow"@,
        TrapKind::HeapAccessOutOfBounds => "Heap access out of bounds"@,
        TrapKind::HeapMisaligned => "Heap misaligned"@,
        TrapKind::TableAccessOutOfBounds => "Table access out of bounds"@,
        TrapKind::IndirectCallToNull => "Indirect call to null"@,
        TrapKind::BadSignature => "Bad signature"@,
        TrapKind::IntegerOverflow => "Integer overflow"@,
        TrapKind::IntegerDivisionByZero => "Integer division by zero"@,
        TrapKind::BadConversionToInteger => "Bad conversion to integer"@,
        TrapKind::UnreachableCodeReached => "Unreachable code reached."@,
        TrapKind::UnalignedAtomic => "Unaligned atomic"@,
    }
}

/// The error for a trap. A reached `unreachable` is the guard's doing exactly
/// where the meter reads exhausted: then the budget was spent. Every other trap
/// is the guest's own fault.
pub open spec fn trap_failure(kind: TrapKind, meter: CostPoints, budget: u64) -> Failure {
    if kind == TrapKind::UnreachableCodeReached && meter is Exhausted {
        Failure::SpendingLimitExceeded(budget)
    } else {
        Failure::RuntimeError(trap_message(kind))
    }
}

/// The error for an exit through WASI; `None` for the exit that means success.
pub open spec fn exit_failure(status: ExitStatus, ceiling: u32) -> Option<Failure> {
    match status {
        ExitStatus::Success => None,
        ExitStatus::Toobig => Some(Failure::MemoryLimitExceeded(ceiling)),
        ExitStatus::Other(errno) => Some(Failure::RuntimeError("Exited with errno "@ + errno@)),
    }
}

/// The error that the end of `_start` stands for; `None` where the guest
/// completed.
pub open spec fn verdict(outcome: StartOutcome, budget: u64, ceiling: u32) -> Option<Failure> {
    match outcome {
        StartOutcome::Returned => None,
        StartOutcome::Trapped { kind, meter } => Some(trap_failure(kind, meter, budget)),
        StartOutcome::Exited(status) => exit_failure(status, ceiling),
        StartOutcome::UnknownWasiVersion => Some(Failure::RuntimeError("Unknown WASI version"@)),
        StartOutcome::HostError(message) => Some(Failure::RuntimeError(message@)),
    }
}

/// The error for a trap of the given kind, with the meter as read after it.
pub fn trap_error(kind: TrapKind, meter: &CostPoints, budget: u64) -> (error: RunError)
    ensures
        error@ == trap_failure(kind, *meter, budget),
{
    let message = match kind {
        TrapKind::StackOverflow => "Stack overflow",
        TrapKind::HeapAccessOutOfBounds => "Heap access out of bounds",
        TrapKind::HeapMisaligned => "Heap misaligned",
        TrapKind::TableAccessOutOfBounds => "Table access out of bounds",
        TrapKind::IndirectCallToNull => "Indirect call to null",
        TrapKind::BadSignature => "Bad signature",
        TrapKind::IntegerOverflow => "Integer overflow",
        TrapKind::IntegerDivisionByZero => "Integer division by zero",
        TrapKind::BadConversionToInteger => "Bad conversion to integer",
        TrapKind::UnreachableCodeReached => {
            match meter {
                CostPoints::Remaining(_) => "Unreachable code reached.",
                CostPoints::Exhausted => {
                    return RunError::SpendingLimitExceeded(budget);
                },
            }
        },
        TrapKind::UnalignedAtomic => "Unaligned atomic",
    };
    RunError::RuntimeError(String::from_str(message))
}

/// The error for an exit through WASI with the given errno, if it is one.
pub fn exit_error(status: ExitStatus, ceiling: u32) -> (error: Option<RunError>)
    ensures
        match error {
            Some(error) => exit_failure(status, ceiling) == Some(error@),
            None => exit_failure(status, ceiling) is None,
        },
{
    match status {
        ExitStatus::Success => None,
        ExitStatus::Toobig => Some(RunError::MemoryLimitExceeded(ceiling)),
        ExitStatus::Other(errno) => {
            let message = String::from_str("Exited with errno ").concat(errno.as_str());
            Some(RunError::RuntimeError(message))
        },
    }
}

/// Judges how `_start` ended: `Ok` where the guest completed, by returning or
/// by exiting with success, and otherwise the error that the end stands for.
pub fn classify(outcome: StartOutcome, budget: u64, ceiling: u32) -> (judged: Result<(), RunError>)
    ensures
        match judged {
            Ok(_) => verdict(outcome, budget, ceiling) is None,
            Err(error) => verdict(outcome, budget, ceiling) == Some(error@),
        },
{
    match outcome {
        StartOutcome::Returned => Ok(()),
        StartOutcome::Trapped { kind, meter } => Err(trap_error(kind, &meter, budget)),
        StartOutcome::Exited(status) => match exit_error(status, ceiling) {
            Some(error) => Err(error),
            None => Ok(()),
        },
        StartOutcome::UnknownWasiVersion => Err(
            RunError::RuntimeError(String::from_str("Unknown WASI version")),
        ),
        StartOutcome::HostError(message) => Err(RunError::RuntimeError(message)),
    }
}

/// A run ends with the spending limit exceeded only where the guest reached an
/// `unreachable` and the meter reads exhausted; the limit reported is the budget.
pub proof fn lemma_spending_limit_needs_exhausted_meter(
    outcome: StartOutcome,
    budget: u64,
    ceiling: u32,
    reported: u64,
)
    requires
        verdict(outcome, budget, ceiling) == Some(Failure::SpendingLimitExceeded(reported)),
    ensures
        outcome == (StartOutcome::Trapped {
            kind: TrapKind::UnreachableCodeReached,
            meter: CostPoints::Exhausted,
        }),
        reported == budget,
{
}

/// A run ends with the memory limit exceeded only where the guest exited with
/// the errno `Toobig`; the limit reported is the ceiling.
pub proof fn lemma_memory_limit_needs_toobig(
    outcome: StartOutcome,
    budget: u64,
    ceiling: u32,
    reported: u32,
)
    requires
        verdict(outcome, budget, ceiling) == Some(Failure::MemoryLimitExceeded(reported)),
    ensures
        outcome == StartOutcome::Exited(ExitStatus::Toobig),
        reported == ceiling,
{
}

/// A module that declares more pages at least than a ceiling of `megabytes`
/// allows is refused by the tunables, and a refusal while the module is
/// instantiated is a compile error.
pub proof fn lemma_oversize_memory_is_compile_error(
    megabytes: u32,
    minimum: u32,
    message: Seq<char>,
)
    requires
        ceiling_in_pages(megabytes) <= u32::MAX,
        minimum > ceiling_in_pages(megabytes),
    ensures
        memory_refusal(minimum, ceiling_in_pages(megabytes) as u32) is Some,
        stage_failure(Stage::Instantiate, message) == Failure::CompileError(message),
{
}

#[verifier::external_type_specification]
#[verifier::external_body]
pub struct ExTrapCode(TrapCode);

/// Tells the variants of `wasmer_types::TrapCode` apart.
#[verifier::external_body]
fn trap_kind(code: TrapCode) -> TrapKind {
    match code {
        TrapCode::StackOverflow => TrapKind::StackOverflow,
        TrapCode::HeapAccessOutOfBounds => TrapKind::HeapAccessOutOfBounds,
        TrapCode::HeapMisaligned => TrapKind::HeapMisaligned,
        TrapCode::TableAccessOutOfBounds => TrapKind::TableAccessOutOfBounds,
        TrapCode::IndirectCallToNull => TrapKind::IndirectCallToNull,
        TrapCode::BadSignature => TrapKind::BadSignature,
        TrapCode::IntegerOverflow => TrapKind::IntegerOverflow,
        TrapCode::IntegerDivisionByZero => TrapKind::IntegerDivisionByZero,
        TrapCode::BadConversionToInteger => TrapKind::BadConversionToInteger,
        TrapCode::UnreachableCodeReached => TrapKind::UnreachableCodeReached,
        TrapCode::UnalignedAtomic => TrapKind::UnalignedAtomic,
    }
}

/// How `_start` ended where the guest trapped with `code` and the meter read
/// `meter` afterwards.
pub fn trapped(code: TrapCode, meter: CostPoints) -> (outcome: StartOutcome)
    ensures
        outcome matches StartOutcome::Trapped { kind: _, meter: read } && read == meter,
{
    StartOutcome::Trapped { kind: trap_kind(code), meter }
}

/// What is written to the guest's stdin: the input and a newline.
pub fn stdin_line(input: &str) -> (line: String)
    ensures
        line@ == input@.push('\n'),
{
    proof {
        reveal_strlit("\n");
    }
    let line = String::from_str(input).concat("\n");
    assert(line@ =~= input@.push('\n'));
    line
}

/// The cost of a run that completed: what is gone from the budget.
pub open spec fn spent(budget: u64, left: u64) -> int {
    budget - left
}

/// The cost of a run that completed, from the meter as read afterwards. A meter
/// that reads exhausted, or more points than the budget, after the guest
/// completed shows a broken guard, and is left out.
pub fn consumed(budget: u64, meter: &CostPoints) -> (cost: u64)
    requires
        meter matches CostPoints::Remaining(left) && left <= budget,
    ensures
        cost == spent(budget, meter->Remaining_0),
        cost <= budget,
{
    match meter {
        CostPoints::Remaining(left) => budget - *left,
        CostPoints::Exhausted => 0,
    }
}

/// The result of a run that completed, from the limits asked for, the meter and
/// the minimum of the instance's memory in pages as read afterwards, what the
/// guest wrote, and the histogram of the module.
pub fn complete(
    budget: u64,
    ceiling: u32,
    meter: &CostPoints,
    pages: u32,
    stdout: Vec<u8>,
    stderr: Vec<u8>,
    operations: OperationCounts,
) -> (result: RunResult)
    requires
        sound_reading(budget, ceiling, *meter, pages),
    ensures
        result.cost == spent(budget, meter->Remaining_0),
        result.cost <= budget,
        result.memory == declared_megabytes(pages),
        result.memory <= ceiling,
        result.stdout == stdout,
        result.stderr == stderr,
        result.operations == operations,
{
    RunResult {
        cost: consumed(budget, meter),
        memory: crate::memory::declared_mb(pages),
        stdout,
        stderr,
        operations,
    }
}

/// Whether what was read after the guest completed is what a sound guard and
/// sound tunables leave: the meter reads no more points than the budget, and
/// the memory declares no more megabytes than the ceiling.
pub open spec fn sound_reading(budget: u64, ceiling: u32, meter: CostPoints, pages: u32) -> bool {
    &&& meter matches CostPoints::Remaining(left) && left <= budget
    &&& pages <= u32::MAX - 15
    &&& declared_megabytes(pages) <= ceiling
}

/// The result of a run that completed, as `complete` gives it, where what was
/// read is sound; `None` where it is not.
pub fn try_complete(
    budget: u64,
    ceiling: u32,
    meter: &CostPoints,
    pages: u32,
    stdout: Vec<u8>,
    stderr: Vec<u8>,
    operations: OperationCounts,
) -> (result: Option<RunResult>)
    ensures
        result is Some <==> sound_reading(budget, ceiling, *meter, pages),
        result matches Some(result) ==> {
            &&& result.cost == spent(budget, meter->Remaining_0)
            &&& result.cost <= budget
            &&& result.memory == declared_megabytes(pages)
            &&& result.memory <= ceiling
            &&& result.stdout == stdout
            &&& result.stderr == stderr
            &&& result.operations == operations
        },
{
    match meter {
        CostPoints::Remaining(left) => {
            if *left > budget || pages > u32::MAX - 15 {
                return None;
            }
            if crate::memory::declared_mb(pages) > ceiling {
                return None;
            }
            Some(complete(budget, ceiling, meter, pages, stdout, stderr, operations))
        },
        CostPoints::Exhausted => None,
    }
}

} // verus!
