//! The fast I/O judge: the program is given one input, and what it writes to
//! stdout is compared by its SHA-256 digest.

use vstd::prelude::*;
use vstd::string::StringExecFns;
use vstd::utf8::encode_utf8;

use crate::judger::{FetchRequest, Input, InputPlan, Judger, Output, Plan};
use crate::text::{
    chars_of, decimal, decimal_string, join_lines, joined, lines, split_lines, string_of, trim,
    trim_end, trimmed, trimmed_end,
};

verus! {

/// The highest cost limit that a specification may ask for.
pub const MAX_COST: u64 = 1_000_000_000;

/// The highest memory limit, in MB, that a specification may ask for.
pub const MAX_MEMORY: u32 = 2048;

#[derive(Debug)]
pub struct FastIOJudgeSpec {
    /// The input string
    pub input: Option<String>,
    /// The URL to fetch the input from
    pub input_url: Option<String>,
    /// The token used to authenticate the input URL
    pub input_auth: Option<String>,
    /// The expected output hash
    pub output_hash: String,
    /// The maximum cost of the program
    pub cost: u64,
    /// The maximum memory of the program
    pub memory: u32,
}

/// The SHA-256 digest of `bytes`, as 64 lower-case hexadecimal digits.
pub uninterp spec fn sha256_digest(bytes: Seq<u8>) -> Seq<char>;

/// `sha256::digest` on a slice of bytes: the SHA-256 digest of the bytes, in
/// hexadecimal.
#[verifier::external_body]
fn sha256_hex(bytes: &[u8]) -> (hex: String)
    ensures
        hex@ == sha256_digest(bytes@),
{
    sha256::digest(bytes)
}

/// What is compared of an output: its lines, each without the white space at its
/// end, put together again, and the whole without the white space around it.
pub open spec fn normalized(text: Seq<char>) -> Seq<char> {
    trimmed(joined(lines(text).map_values(|line: Seq<char>| trimmed_end(line))))
}

/// The digest by which an output is compared.
pub open spec fn output_digest(stdout: Seq<char>) -> Seq<char> {
    sha256_digest(encode_utf8(normalized(stdout)))
}

/// What is compared of an output.
pub fn normalize(text: &str) -> (normal: String)
    ensures
        normal@ == normalized(text@),
{
    let chars = chars_of(text);
    let pieces = split_lines(&chars);
    let mut stripped: Vec<Vec<char>> = Vec::new();
    let mut i: usize = 0;
    while i < pieces.len()
        invariant
            i <= pieces@.len(),
            stripped@.len() == i,
            forall|k: int| 0 <= k < i ==> (#[trigger] stripped@[k])@ == trimmed_end(pieces@[k]@),
        decreases pieces@.len() - i,
    {
        stripped.push(trim_end(&pieces[i]));
        i = i + 1;
    }
    assert(crate::text::pieces_of(stripped@) =~= lines(text@).map_values(
        |line: Seq<char>| trimmed_end(line),
    )) by {
        assert(crate::text::pieces_of(pieces@) == lines(text@));
        assert forall|k: int| 0 <= k < stripped@.len() implies crate::text::pieces_of(
            stripped@,
        )[k] == lines(text@).map_values(|line: Seq<char>| trimmed_end(line))[k] by {
            assert(crate::text::pieces_of(pieces@)[k] == pieces@[k]@);
        }
    }
    let whole = join_lines(&stripped);
    let normal = trim(&whole);
    string_of(&normal)
}

/// The digest by which `stdout` is compared.
pub fn digest_output(stdout: &str) -> (digest: String)
    ensures
        digest@ == output_digest(stdout@),
{
    let normal = normalize(stdout);
    sha256_hex(normal.as_str().as_bytes())
}

/// The message for a cost limit above the maximum.
pub open spec fn cost_objection(cost: u64) -> Seq<char> {
    "Invalid cost limit, got "@ + decimal(cost as nat) + ", max is 1,000,000,000"@
}

/// The message for a memory limit above the maximum.
pub open spec fn memory_objection(memory: u32) -> Seq<char> {
    "Invalid memory limit, got "@ + decimal(memory as nat) + ", max is 2,048"@
}

/// The message for an output with another digest than expected.
pub open spec fn mismatch(expected: Seq<char>, actual: Seq<char>) -> Seq<char> {
    "Output hash mismatch. Expected "@ + expected + ", got "@ + actual
}

/// The value of the `Authorization` header for a token.
pub open spec fn bearer(token: Seq<char>) -> Seq<char> {
    "Bearer "@ + token
}

impl FastIOJudgeSpec {
    /// Judges an output by its digest: fine where it is the expected one, else
    /// the message that names both.
    pub fn judge_digest(&self, output_hash: String) -> (judged: Result<(), String>)
        ensures
            match judged {
                Ok(_) => output_hash@ == self.output_hash@,
                Err(message) => output_hash@ != self.output_hash@ && message@ == mismatch(
                    self.output_hash@,
                    output_hash@,
                ),
            },
    {
        if output_hash != self.output_hash {
            let message = String::from_str("Output hash mismatch. Expected ").concat(
                self.output_hash.as_str(),
            ).concat(", got ").concat(output_hash.as_str());
            return Err(message);
        }
        Ok(())
    }
}

impl Judger for FastIOJudgeSpec {
    /// The limits are checked first, cost before memory, then that an input or
    /// a URL is given.
    open spec fn objection(&self) -> Option<Seq<char>> {
        if self.cost > MAX_COST {
            Some(cost_objection(self.cost))
        } else if self.memory > MAX_MEMORY {
            Some(memory_objection(self.memory))
        } else if self.input is None && self.input_url is None {
            Some("Must provide either input or input_url"@)
        } else {
            None
        }
    }

    open spec fn has_input(&self) -> bool {
        self.input is Some || self.input_url is Some
    }

    /// An input given in the specification is taken before a URL.
    open spec fn input_plan(&self) -> Plan {
        if self.input is Some {
            Plan::Ready(self.input->0@)
        } else {
            Plan::Fetch {
                url: self.input_url->0@,
                authorization: match self.input_auth {
                    Some(token) => Some(bearer(token@)),
                    None => None,
                },
            }
        }
    }

    /// Only stdout is judged, by its digest.
    open spec fn complaint(
        &self,
        stdin: Seq<char>,
        stdout: Seq<char>,
        stderr: Seq<char>,
    ) -> Option<Seq<char>> {
        if output_digest(stdout) == self.output_hash@ {
            None
        } else {
            Some(mismatch(self.output_hash@, output_digest(stdout)))
        }
    }

    open spec fn run_limits(&self) -> (u64, u32) {
        (self.cost, self.memory)
    }

    fn check_spec(&self) -> (checked: Result<(), String>) {
        if self.cost > MAX_COST {
            let message = String::from_str("Invalid cost limit, got ").concat(
                decimal_string(self.cost).as_str(),
            ).concat(", max is 1,000,000,000");
            return Err(message);
        }
        if self.memory > MAX_MEMORY {
            let message = String::from_str("Invalid memory limit, got ").concat(
                decimal_string(self.memory as u64).as_str(),
            ).concat(", max is 2,048");
            return Err(message);
        }
        if self.input.is_none() && self.input_url.is_none() {
            return Err(String::from_str("Must provide either input or input_url"));
        }
        Ok(())
    }

    fn make_input(&self) -> (plan: InputPlan) {
        if let Some(input) = &self.input {
            return InputPlan::Ready(Input { stdin: input.clone() });
        }
        let authorization = match &self.input_auth {
            Some(token) => Some(String::from_str("Bearer ").concat(token.as_str())),
            None => None,
        };
        let url = self.input_url.as_ref().unwrap().clone();
        InputPlan::Fetch(FetchRequest { url, authorization })
    }

    fn judge_output(&self, _input: &Input, output: &Output) -> (judged: Result<(), String>) {
        self.judge_digest(digest_output(output.stdout.as_str()))
    }

    fn limits(&self) -> (limits: (u64, u32)) {
        (self.cost, self.memory)
    }
}

} // verus!
