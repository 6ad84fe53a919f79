//! Judging: what a judge specification asks to be run, and whether what came
//! out is what it expects.

pub mod io_fast;

use vstd::prelude::*;
use vstd::string::StringExecFns;

use crate::judger::io_fast::FastIOJudgeSpec;

verus! {

/// What the program is given.
#[derive(Debug)]
pub struct Input {
    pub stdin: String,
}

/// What the program wrote.
#[derive(Debug)]
pub struct Output {
    pub stdout: String,
    pub stderr: String,
}

/// A request to fetch the input from a URL.
#[derive(Debug)]
pub struct FetchRequest {
    pub url: String,
    /// The value of the `Authorization` header, where one is to be sent.
    pub authorization: Option<String>,
}

/// How the input of a run is to be had.
#[derive(Debug)]
pub enum InputPlan {
    /// The input is at hand.
    Ready(Input),
    /// The input has to be fetched.
    Fetch(FetchRequest),
}

/// How fetching an input failed.
#[derive(Debug)]
pub enum FetchFailure {
    /// The request failed; the message says how.
    Request(String),
    /// The answer could not be read as text; the message says why.
    Body(String),
}

/// An `InputPlan` over sequences of characters.
pub enum Plan {
    Ready(Seq<char>),
    Fetch { url: Seq<char>, authorization: Option<Seq<char>> },
}

impl View for InputPlan {
    type V = Plan;

    open spec fn view(&self) -> Plan {
        match self {
            InputPlan::Ready(input) => Plan::Ready(input.stdin@),
            InputPlan::Fetch(request) => Plan::Fetch {
                url: request.url@,
                authorization: match request.authorization {
                    Some(value) => Some(value@),
                    None => None,
                },
            },
        }
    }
}

/// A judge specification.
#[derive(Debug)]
pub enum JudgeSpec {
    IOFast(FastIOJudgeSpec),
}

/// What a judge specification answers.
pub trait Judger {
    /// What is wrong with the specification; `None` where nothing is.
    spec fn objection(&self) -> Option<Seq<char>>;

    /// Whether the specification says where the input comes from.
    spec fn has_input(&self) -> bool;

    /// How the input is to be had.
    spec fn input_plan(&self) -> Plan;

    /// What is wrong with what the program wrote to stdout and stderr when given
    /// `stdin`; `None` where it is as expected.
    spec fn complaint(&self, stdin: Seq<char>, stdout: Seq<char>, stderr: Seq<char>) -> Option<
        Seq<char>,
    >;

    /// The limits of cost and memory for the run.
    spec fn run_limits(&self) -> (u64, u32);

    /// Checks the specification before anything is run.
    fn check_spec(&self) -> (checked: Result<(), String>)
        ensures
            match checked {
                Ok(_) => self.objection() is None,
                Err(message) => self.objection() == Some(message@),
            },
    ;

    /// Says how the input of the run is to be had.
    fn make_input(&self) -> (plan: InputPlan)
        requires
            self.has_input(),
        ensures
            plan@ == self.input_plan(),
    ;

    /// Judges what the program wrote.
    fn judge_output(&self, input: &Input, output: &Output) -> (judged: Result<(), String>)
        ensures
            match judged {
                Ok(_) => self.complaint(input.stdin@, output.stdout@, output.stderr@) is None,
                Err(message) => self.complaint(input.stdin@, output.stdout@, output.stderr@)
                    == Some(message@),
            },
    ;

    /// The limits of cost and memory for the run.
    fn limits(&self) -> (limits: (u64, u32))
        ensures
            limits == self.run_limits(),
    ;
}

impl Judger for JudgeSpec {
    open spec fn objection(&self) -> Option<Seq<char>> {
        match self {
            JudgeSpec::IOFast(spec) => spec.objection(),
        }
    }

    open spec fn has_input(&self) -> bool {
        match self {
            JudgeSpec::IOFast(spec) => spec.has_input(),
        }
    }

    open spec fn input_plan(&self) -> Plan {
        match self {
            JudgeSpec::IOFast(spec) => spec.input_plan(),
        }
    }

    open spec fn complaint(
        &self,
        stdin: Seq<char>,
        stdout: Seq<char>,
        stderr: Seq<char>,
    ) -> Option<Seq<char>> {
        match self {
            JudgeSpec::IOFast(spec) => spec.complaint(stdin, stdout, stderr),
        }
    }

    open spec fn run_limits(&self) -> (u64, u32) {
        match self {
            JudgeSpec::IOFast(spec) => spec.run_limits(),
        }
    }

    fn check_spec(&self) -> (checked: Result<(), String>) {
        match self {
            JudgeSpec::IOFast(spec) => spec.check_spec(),
        }
    }

    fn make_input(&self) -> (plan: InputPlan) {
        match self {
            JudgeSpec::IOFast(spec) => spec.make_input(),
        }
    }

    fn judge_output(&self, input: &Input, output: &Output) -> (judged: Result<(), String>) {
        match self {
            JudgeSpec::IOFast(spec) => spec.judge_output(input, output),
        }
    }

    fn limits(&self) -> (limits: (u64, u32)) {
        match self {
            JudgeSpec::IOFast(spec) => spec.limits(),
        }
    }
}

/// The message for a fetch that failed.
pub open spec fn fetch_failure_message(failure: FetchFailure) -> Seq<char> {
    match failure {
        FetchFailure::Request(reason) => "Error fetching input: "@ + reason@,
        FetchFailure::Body(reason) => "Error reading input: "@ + reason@,
    }
}

/// The input that a fetch brought, or the message for its failure.
pub fn fetched_input(outcome: Result<String, FetchFailure>) -> (input: Result<Input, String>)
    ensures
        match outcome {
            Ok(text) => input is Ok && input->Ok_0.stdin@ == text@,
            Err(failure) => input is Err && input->Err_0@ == fetch_failure_message(failure),
        },
{
    match outcome {
        Ok(text) => Ok(Input { stdin: text }),
        Err(FetchFailure::Request(reason)) => Err(
            String::from_str("Error fetching input: ").concat(reason.as_str()),
        ),
        Err(FetchFailure::Body(reason)) => Err(
            String::from_str("Error reading input: ").concat(reason.as_str()),
        ),
    }
}

} // verus!
