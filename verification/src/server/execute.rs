//! Running one submission: which submissions are accepted, and how the end of
//! the run is reported.

use vstd::prelude::*;
use vstd::string::StringExecFns;
use vstd::utf8::{decode_utf8, valid_utf8};

use crate::run::{described, RunError, RunRequest, RunResult};
use crate::server::payload::{decode_module, module_of};
use crate::text::{boxed, text_of_utf8};

verus! {

/// An incoming code submission.
#[derive(Debug)]
pub struct Submission {
    /// The module, as base64 text.
    pub wasm: String,
    pub input: String,
    pub cost: u64,
    pub memory: u32,
}

/// What is answered to a submission.
#[derive(Debug)]
pub struct ExecutionResult {
    pub success: bool,
    pub cost: Option<u64>,
    pub memory: Option<u32>,
    pub stdout: Option<String>,
    pub stderr: Option<String>,
    pub message: Option<String>,
}

/// An `ExecutionResult` over sequences of characters.
pub struct Answer {
    pub success: bool,
    pub cost: Option<u64>,
    pub memory: Option<u32>,
    pub stdout: Option<Seq<char>>,
    pub stderr: Option<Seq<char>>,
    pub message: Option<Seq<char>>,
}

/// The characters of a text that may be absent.
pub open spec fn chars_of_option(text: Option<String>) -> Option<Seq<char>> {
    match text {
        Some(text) => Some(text@),
        None => None,
    }
}

impl View for ExecutionResult {
    type V = Answer;

    open spec fn view(&self) -> Answer {
        Answer {
            success: self.success,
            cost: self.cost,
            memory: self.memory,
            stdout: chars_of_option(self.stdout),
            stderr: chars_of_option(self.stderr),
            message: chars_of_option(self.message),
        }
    }
}

/// The answer that tells of a failure: nothing but the message.
pub open spec fn failed(message: Seq<char>) -> Answer {
    Answer {
        success: false,
        cost: None,
        memory: None,
        stdout: None,
        stderr: None,
        message: Some(message),
    }
}

/// What is wrong with a submission whose module text stands for `module`; `None`
/// where the submission is accepted. The cost limit is checked first, then the
/// memory limit, then the module.
pub open spec fn objection(
    submission: Submission,
    module: Option<Seq<u8>>,
    max_cost: u64,
    max_memory: u32,
) -> Option<Seq<char>> {
    if submission.cost > max_cost {
        Some("Invalid cost limit"@)
    } else if submission.memory > max_memory {
        Some("Invalid memory limit"@)
    } else if module is None {
        Some("Invalid wasm"@)
    } else {
        None
    }
}

/// The bytes of a module that may be absent.
pub open spec fn bytes_of_option(module: Option<Vec<u8>>) -> Option<Seq<u8>> {
    match module {
        Some(bytes) => Some(bytes@),
        None => None,
    }
}

/// The text that stands for a stream in an answer: the stream itself where it is
/// valid UTF-8, else a note that it is not.
pub open spec fn stream_text(bytes: Seq<u8>, note: Seq<char>) -> Seq<char> {
    if valid_utf8(bytes) {
        decode_utf8(bytes)
    } else {
        note
    }
}

/// The answer to a submission whose run ended as `outcome`.
pub open spec fn reported(outcome: Result<RunResult, RunError>) -> Answer {
    match outcome {
        Ok(result) => Answer {
            success: true,
            cost: Some(result.cost),
            memory: Some(result.memory),
            stdout: Some(
                stream_text(
                    result.stdout@,
                    "Failed to decode stdout, it may contain invalid UTF-8"@,
                ),
            ),
            stderr: Some(
                stream_text(
                    result.stderr@,
                    "Failed to decode stderr, it may contain invalid UTF-8"@,
                ),
            ),
            message: None,
        },
        Err(error) => failed(described(error@)),
    }
}

impl ExecutionResult {
    /// The answer that tells of a failure.
    pub fn failure(message: String) -> (answer: ExecutionResult)
        ensures
            answer@ == failed(message@),
    {
        ExecutionResult {
            success: false,
            cost: None,
            memory: None,
            stdout: None,
            stderr: None,
            message: Some(message),
        }
    }
}

/// The answer to a submission that could not be read, for the given reason.
pub fn unreadable(reason: &str) -> (answer: ExecutionResult)
    ensures
        answer@ == failed("Invalid submission. Error parsing JSON: "@ + reason@),
{
    ExecutionResult::failure(
        String::from_str("Invalid submission. Error parsing JSON: ").concat(reason),
    )
}

/// Accepts or refuses a submission whose module text was decoded to `module`:
/// the request to run, where the limits are within the service's own and there
/// is a module, else the answer that says what is wrong.
pub fn accept_decoded(
    submission: Submission,
    module: Option<Vec<u8>>,
    max_cost: u64,
    max_memory: u32,
) -> (accepted: Result<RunRequest, ExecutionResult>)
    ensures
        match accepted {
            Ok(request) => {
                &&& objection(submission, bytes_of_option(module), max_cost, max_memory) is None
                &&& Some(request.wasm@) == bytes_of_option(module)
                &&& request.budget == submission.cost
                &&& request.mem == submission.memory
                &&& request.input@ == submission.input@
            },
            Err(answer) => {
                &&& objection(submission, bytes_of_option(module), max_cost, max_memory) is Some
                &&& answer@ == failed(
                    objection(submission, bytes_of_option(module), max_cost, max_memory)->0,
                )
            },
        },
{
    if submission.cost > max_cost {
        return Err(ExecutionResult::failure(String::from_str("Invalid cost limit")));
    }
    if submission.memory > max_memory {
        return Err(ExecutionResult::failure(String::from_str("Invalid memory limit")));
    }
    let wasm = match module {
        Some(wasm) => boxed(wasm),
        None => {
            return Err(ExecutionResult::failure(String::from_str("Invalid wasm")));
        },
    };
    Ok(
        RunRequest {
            wasm,
            budget: submission.cost,
            mem: submission.memory,
            input: submission.input,
        },
    )
}

/// Accepts or refuses a submission: the request to run, where its limits are
/// within the service's own and its module is base64, else the answer that says
/// what is wrong with it.
pub fn accept(submission: Submission, max_cost: u64, max_memory: u32) -> (accepted: Result<
    RunRequest,
    ExecutionResult,
>)
    ensures
        match accepted {
            Ok(request) => {
                &&& objection(submission, module_of(submission.wasm@), max_cost, max_memory)
                    is None
                &&& Some(request.wasm@) == module_of(submission.wasm@)
                &&& request.budget == submission.cost
                &&& request.mem == submission.memory
                &&& request.input@ == submission.input@
            },
            Err(answer) => {
                &&& objection(submission, module_of(submission.wasm@), max_cost, max_memory)
                    is Some
                &&& answer@ == failed(
                    objection(submission, module_of(submission.wasm@), max_cost, max_memory)->0,
                )
            },
        },
{
    let module = if submission.cost <= max_cost && submission.memory <= max_memory {
        decode_module(submission.wasm.as_str())
    } else {
        None
    };
    accept_decoded(submission, module, max_cost, max_memory)
}

fn stream(bytes: Vec<u8>, note: &str) -> (text: String)
    ensures
        text@ == stream_text(bytes@, note@),
{
    match text_of_utf8(bytes) {
        Some(text) => text,
        None => String::from_str(note),
    }
}

/// The answer to a submission whose run ended as `outcome`.
pub fn report(outcome: Result<RunResult, RunError>) -> (answer: ExecutionResult)
    ensures
        answer@ == reported(outcome),
{
    match outcome {
        Ok(result) => ExecutionResult {
            success: true,
            cost: Some(result.cost),
            memory: Some(result.memory),
            stdout: Some(
                stream(result.stdout, "Failed to decode stdout, it may contain invalid UTF-8"),
            ),
            stderr: Some(
                stream(result.stderr, "Failed to decode stderr, it may contain invalid UTF-8"),
            ),
            message: None,
        },
        Err(error) => ExecutionResult::failure(error.describe()),
    }
}

} // verus!
