//! Judging a submission against several specifications: what is run for each,
//! and what is reported of each run.

use vstd::prelude::*;
use vstd::string::StringExecFns;
use vstd::utf8::{decode_utf8, valid_utf8};

use crate::judger::{FetchRequest, Input, InputPlan, JudgeSpec, Judger, Output, Plan};
use crate::run::{RunError, RunRequest, RunResult};
use crate::server::payload::{decode_module, module_of};
use crate::text::{boxed, text_of_utf8};

verus! {

/// A submission to be judged.
#[derive(Debug)]
pub struct JudgeSubmission {
    /// The base64-encoded WebAssembly binary
    pub wasm: String,
    /// Judge specifications
    pub specs: Vec<JudgeSpec>,
    /// Callback URL to send the results to (optional)
    pub callback: Option<String>,
}

/// Why a specification was not met, by the step that failed.
#[derive(Debug)]
pub enum JudgeException {
    Spec(String),
    Input(String),
    Execution(String),
    Output(String),
}

/// What became of one specification.
#[derive(Debug)]
pub struct JudgeResult {
    pub success: bool,
    pub cost: Option<u64>,
    pub memory: Option<u32>,
    pub message: Option<String>,
    pub exception: Option<JudgeException>,
}

/// What became of a submission: one result for each specification, or the reason
/// why nothing was judged.
#[derive(Debug)]
pub struct JudgeResults {
    pub results: Vec<JudgeResult>,
    pub error: Option<String>,
}

/// A submission whose module was decoded.
#[derive(Debug)]
pub struct JudgeJob {
    pub wasm: Box<[u8]>,
    pub specs: Vec<JudgeSpec>,
    pub callback: Option<String>,
}

/// What is done first for a specification.
#[derive(Debug)]
pub enum FirstStep {
    /// Nothing is run: the specification is not sound.
    Reject(String),
    /// The input has to be fetched.
    Fetch(FetchRequest),
    /// The program is run on this input.
    Run(Input),
}

/// How far a specification came.
#[derive(Debug)]
pub enum SpecRun {
    /// The specification was not sound.
    Rejected(String),
    /// The input could not be had.
    Unfed(String),
    /// The program was run.
    Ran { spec: JudgeSpec, input: Input, result: Result<RunResult, RunError> },
}

/// A `JudgeException` over sequences of characters.
pub enum Exception {
    Spec(Seq<char>),
    Input(Seq<char>),
    Execution(Seq<char>),
    Output(Seq<char>),
}

/// A `JudgeResult` over sequences of characters.
pub struct Judgement {
    pub success: bool,
    pub cost: Option<u64>,
    pub memory: Option<u32>,
    pub message: Option<Seq<char>>,
    pub exception: Option<Exception>,
}

impl View for JudgeException {
    type V = Exception;

    open spec fn view(&self) -> Exception {
        match self {
            JudgeException::Spec(reason) => Exception::Spec(reason@),
            JudgeException::Input(reason) => Exception::Input(reason@),
            JudgeException::Execution(reason) => Exception::Execution(reason@),
            JudgeException::Output(reason) => Exception::Output(reason@),
        }
    }
}

impl View for JudgeResult {
    type V = Judgement;

    open spec fn view(&self) -> Judgement {
        Judgement {
            success: self.success,
            cost: self.cost,
            memory: self.memory,
            message: match self.message {
                Some(message) => Some(message@),
                None => None,
            },
            exception: match self.exception {
                Some(exception) => Some(exception@),
                None => None,
            },
        }
    }
}

/// The judgement for a specification whose program was not run to a good end.
pub open spec fn unmet(exception: Exception) -> Judgement {
    Judgement {
        success: false,
        cost: None,
        memory: None,
        message: None,
        exception: Some(exception),
    }
}

/// The short name of the kind of an error of a run.
pub open spec fn error_code(error: RunError) -> Seq<char> {
    match error {
        RunError::SpendingLimitExceeded(_) => "SLE"@,
        RunError::MemoryLimitExceeded(_) => "MLE"@,
        RunError::RuntimeError(_) => "RE"@,
        RunError::CompileError(_) => "CE"@,
        RunError::IOError(_) => "IOE"@,
    }
}

/// The judgement for a specification that came as far as `run`.
pub open spec fn judged(run: SpecRun) -> Judgement {
    match run {
        SpecRun::Rejected(reason) => unmet(Exception::Spec(reason@)),
        SpecRun::Unfed(reason) => unmet(Exception::Input(reason@)),
        SpecRun::Ran { spec, input, result } => match result {
            Ok(result) => match spec.complaint(
                input.stdin@,
                decode_utf8(result.stdout@),
                decode_utf8(result.stderr@),
            ) {
                Some(complaint) => Judgement {
                    success: false,
                    cost: Some(result.cost),
                    memory: Some(result.memory),
                    message: None,
                    exception: Some(Exception::Output(complaint)),
                },
                None => Judgement {
                    success: true,
                    cost: Some(result.cost),
                    memory: Some(result.memory),
                    message: None,
                    exception: None,
                },
            },
            Err(error) => unmet(Exception::Execution(error_code(error))),
        },
    }
}

/// Whether the streams of a run can be judged as text: both are valid UTF-8.
pub open spec fn readable(run: SpecRun) -> bool {
    run matches SpecRun::Ran { result: Ok(result), .. } ==> valid_utf8(result.stdout@)
        && valid_utf8(result.stderr@)
}

impl JudgeResult {
    /// The result for a specification whose program was not run to a good end.
    pub fn unmet(exception: JudgeException) -> (result: JudgeResult)
        ensures
            result@ == unmet(exception@),
    {
        JudgeResult {
            success: false,
            cost: None,
            memory: None,
            message: None,
            exception: Some(exception),
        }
    }
}

impl JudgeResults {
    /// The answer to a submission of which nothing was judged, with the reason.
    pub fn refused(reason: String) -> (answer: JudgeResults)
        ensures
            answer.results@.len() == 0,
            answer.error is Some,
            answer.error->0@ == reason@,
    {
        JudgeResults { results: Vec::new(), error: Some(reason) }
    }

    /// The answer to a submission whose results will be sent to its callback.
    pub fn pending() -> (answer: JudgeResults)
        ensures
            answer.results@.len() == 0,
            answer.error is None,
    {
        JudgeResults { results: Vec::new(), error: None }
    }
}

/// The answer to a submission that could not be read, for the given reason.
pub fn unreadable(reason: &str) -> (answer: JudgeResults)
    ensures
        answer.results@.len() == 0,
        answer.error is Some,
        answer.error->0@ == "Invalid submission. Error parsing JSON: "@ + reason@,
{
    JudgeResults::refused(
        String::from_str("Invalid submission. Error parsing JSON: ").concat(reason),
    )
}

/// The job for a submission whose module text was decoded to `module`, or the
/// answer that refuses it where there is no module.
pub fn judge_decoded(submission: JudgeSubmission, module: Option<Vec<u8>>) -> (job: Result<
    JudgeJob,
    JudgeResults,
>)
    ensures
        match job {
            Ok(job) => {
                &&& module is Some
                &&& job.wasm@ == module->0@
                &&& job.specs == submission.specs
                &&& job.callback == submission.callback
            },
            Err(answer) => {
                &&& module is None
                &&& answer.results@.len() == 0
                &&& answer.error is Some
                &&& answer.error->0@ == "Invalid submission. Error decoding base64."@
            },
        },
{
    match module {
        Some(wasm) => Ok(
            JudgeJob { wasm: boxed(wasm), specs: submission.specs, callback: submission.callback },
        ),
        None => Err(
            JudgeResults::refused(String::from_str("Invalid submission. Error decoding base64.")),
        ),
    }
}

/// The job for a submission, or the answer that refuses it where its module is
/// not base64.
pub fn judge(submission: JudgeSubmission) -> (job: Result<JudgeJob, JudgeResults>)
    ensures
        match job {
            Ok(job) => {
                &&& module_of(submission.wasm@) == Some(job.wasm@)
                &&& job.specs == submission.specs
                &&& job.callback == submission.callback
            },
            Err(answer) => {
                &&& module_of(submission.wasm@) is None
                &&& answer.results@.len() == 0
                &&& answer.error is Some
                &&& answer.error->0@ == "Invalid submission. Error decoding base64."@
            },
        },
{
    let module = decode_module(submission.wasm.as_str());
    judge_decoded(submission, module)
}

impl JudgeJob {
    /// What is answered before the job is run: with a callback, that the results
    /// are pending; without one, nothing yet.
    pub fn answer_ahead(&self) -> (answer: Option<JudgeResults>)
        ensures
            answer is Some <==> self.callback is Some,
            answer is Some ==> answer->0.results@.len() == 0 && answer->0.error is None,
    {
        if self.callback.is_some() {
            Some(JudgeResults::pending())
        } else {
            None
        }
    }
}

/// What is done first for a specification: it is checked, and where it is sound
/// its input is taken from it or is to be fetched.
pub fn first_step(spec: &JudgeSpec) -> (step: FirstStep)
    ensures
        match step {
            FirstStep::Reject(reason) => spec.objection() == Some(reason@),
            FirstStep::Fetch(request) => spec.objection() is None && spec.input_plan()
                == InputPlan::Fetch(request)@,
            FirstStep::Run(input) => spec.objection() is None && spec.input_plan() == Plan::Ready(
                input.stdin@,
            ),
        },
{
    if let Err(reason) = spec.check_spec() {
        return FirstStep::Reject(reason);
    }
    assert(spec.has_input());
    match spec.make_input() {
        InputPlan::Ready(input) => FirstStep::Run(input),
        InputPlan::Fetch(request) => FirstStep::Fetch(request),
    }
}

/// The request to run the module for a specification on its input, within the
/// specification's limits.
pub fn run_request(spec: &JudgeSpec, wasm: Box<[u8]>, input: &Input) -> (request: RunRequest)
    ensures
        request.wasm == wasm,
        request.budget == spec.run_limits().0,
        request.mem == spec.run_limits().1,
        request.input@ == input.stdin@,
{
    let (cost_limit, memory_limit) = spec.limits();
    RunRequest { wasm, budget: cost_limit, mem: memory_limit, input: input.stdin.clone() }
}

/// The short name of the kind of an error of a run.
pub fn exception_code(error: &RunError) -> (code: &'static str)
    ensures
        code@ == error_code(*error),
{
    match error {
        RunError::SpendingLimitExceeded(_) => "SLE",
        RunError::MemoryLimitExceeded(_) => "MLE",
        RunError::RuntimeError(_) => "RE",
        RunError::CompileError(_) => "CE",
        RunError::IOError(_) => "IOE",
    }
}

/// The result for a specification that came as far as `run`; `None` where the
/// program wrote a stream that is not valid UTF-8, which cannot be judged as
/// text.
pub fn judge_run(run: SpecRun) -> (result: Option<JudgeResult>)
    ensures
        result is Some <==> readable(run),
        result matches Some(result) ==> result@ == judged(run),
{
    match run {
        SpecRun::Rejected(reason) => Some(JudgeResult::unmet(JudgeException::Spec(reason))),
        SpecRun::Unfed(reason) => Some(JudgeResult::unmet(JudgeException::Input(reason))),
        SpecRun::Ran { spec, input, result } => match result {
            Ok(result) => {
                let cost = result.cost;
                let memory = result.memory;
                let stdout = match text_of_utf8(result.stdout) {
                    Some(text) => text,
                    None => {
                        return None;
                    },
                };
                let stderr = match text_of_utf8(result.stderr) {
                    Some(text) => text,
                    None => {
                        return None;
                    },
                };
                let output = Output { stdout, stderr };
                match spec.judge_output(&input, &output) {
                    Err(complaint) => Some(
                        JudgeResult {
                            success: false,
                            cost: Some(cost),
                            memory: Some(memory),
                            message: None,
                            exception: Some(JudgeException::Output(complaint)),
                        },
                    ),
                    Ok(_) => Some(
                        JudgeResult {
                            success: true,
                            cost: Some(cost),
                            memory: Some(memory),
                            message: None,
                            exception: None,
                        },
                    ),
                }
            },
            Err(error) => Some(
                JudgeResult::unmet(
                    JudgeException::Execution(String::from_str(exception_code(&error))),
                ),
            ),
        },
    }
}

/// Whether every one of `runs` can be judged.
pub open spec fn all_readable(runs: Seq<SpecRun>) -> bool {
    forall|i: int| 0 <= i < runs.len() ==> readable(#[trigger] runs[i])
}

/// The results for a submission, one for each specification, in their order;
/// `None` where one of the runs cannot be judged.
pub fn run_specs(runs: Vec<SpecRun>) -> (answer: Option<JudgeResults>)
    ensures
        answer is Some <==> all_readable(runs@),
        answer matches Some(answer) ==> {
            &&& answer.error is None
            &&& answer.results@.len() == runs@.len()
            &&& forall|i: int|
                0 <= i < runs@.len() ==> (#[trigger] answer.results@[i])@ == judged(runs@[i])
        },
{
    let mut results: Vec<JudgeResult> = Vec::new();
    for run in it: runs
        invariant
            it.seq() == runs@,
            results@.len() == it.index(),
            forall|i: int| 0 <= i < it.index() ==> readable(#[trigger] runs@[i]),
            forall|i: int| 0 <= i < it.index() ==> (#[trigger] results@[i])@ == judged(runs@[i]),
    {
        match judge_run(run) {
            Some(result) => {
                results.push(result);
            },
            None => {
                assert(!readable(runs@[it.index() as int]));
                return None;
            },
        }
    }
    Some(JudgeResults { results, error: None })
}

} // verus!
