use wark::judger::io_fast::{digest_output, FastIOJudgeSpec, MAX_COST, MAX_MEMORY};
use wark::judger::{fetched_input, FetchFailure, Input, InputPlan, JudgeSpec, Judger, Output};

const HELLO_DIGEST: &str = "2cf24dba5fb0a30e26e83b2ac5b9e29e1b161e5c1fa7425e73043362938b9824";
const EMPTY_DIGEST: &str = "e3b0c44298fc1c149afbf4c8996fb92427ae41e4649b934ca495991b7852b855";

fn spec() -> FastIOJudgeSpec {
    FastIOJudgeSpec {
        input: Some("1 2\n".to_string()),
        input_url: None,
        input_auth: None,
        output_hash: HELLO_DIGEST.to_string(),
        cost: 1_000_000,
        memory: 64,
    }
}

fn output(stdout: &str) -> Output {
    Output { stdout: stdout.to_string(), stderr: String::new() }
}

fn input() -> Input {
    Input { stdin: "1 2\n".to_string() }
}

#[test]
fn a_sound_specification_passes_the_check() {
    assert_eq!(spec().check_spec(), Ok(()));
    assert_eq!(JudgeSpec::IOFast(spec()).check_spec(), Ok(()));
}

#[test]
fn the_limits_may_be_at_their_maximum() {
    assert_eq!(MAX_COST, 1_000_000_000);
    assert_eq!(MAX_MEMORY, 2048);
    let spec = FastIOJudgeSpec { cost: 1_000_000_000, memory: 2048, ..spec() };
    assert_eq!(spec.check_spec(), Ok(()));
}

#[test]
fn a_cost_limit_above_the_maximum_is_named() {
    let spec = FastIOJudgeSpec { cost: 1_000_000_001, ..spec() };
    assert_eq!(
        spec.check_spec(),
        Err("Invalid cost limit, got 1000000001, max is 1,000,000,000".to_string())
    );
}

#[test]
fn a_memory_limit_above_the_maximum_is_named() {
    let spec = FastIOJudgeSpec { memory: 2049, ..spec() };
    assert_eq!(
        spec.check_spec(),
        Err("Invalid memory limit, got 2049, max is 2,048".to_string())
    );
}

#[test]
fn the_cost_limit_is_checked_before_the_memory_limit() {
    let spec = FastIOJudgeSpec {
        cost: u64::MAX,
        memory: u32::MAX,
        input: None,
        input_url: None,
        ..spec()
    };
    assert_eq!(
        spec.check_spec(),
        Err("Invalid cost limit, got 18446744073709551615, max is 1,000,000,000".to_string())
    );
    let spec = FastIOJudgeSpec { memory: u32::MAX, input: None, input_url: None, ..spec };
    assert_eq!(
        FastIOJudgeSpec { cost: 5, ..spec }.check_spec(),
        Err("Invalid memory limit, got 4294967295, max is 2,048".to_string())
    );
}

#[test]
fn a_specification_without_input_or_url_is_refused() {
    let spec = FastIOJudgeSpec { input: None, input_url: None, ..spec() };
    assert_eq!(spec.check_spec(), Err("Must provide either input or input_url".to_string()));
    let spec = FastIOJudgeSpec {
        input: None,
        input_url: Some("https://example.org/in".to_string()),
        ..spec
    };
    assert_eq!(spec.check_spec(), Ok(()));
}

#[test]
fn an_input_at_hand_is_taken() {
    match spec().make_input() {
        InputPlan::Ready(input) => assert_eq!(input.stdin, "1 2\n"),
        other => panic!("{:?}", other),
    }
}

#[test]
fn an_input_at_hand_is_taken_before_a_url() {
    let spec = FastIOJudgeSpec { input_url: Some("https://example.org/in".to_string()), ..spec() };
    assert!(matches!(JudgeSpec::IOFast(spec).make_input(), InputPlan::Ready(_)));
}

#[test]
fn an_input_behind_a_url_is_to_be_fetched() {
    let spec = FastIOJudgeSpec {
        input: None,
        input_url: Some("https://example.org/in".to_string()),
        ..spec()
    };
    match spec.make_input() {
        InputPlan::Fetch(request) => {
            assert_eq!(request.url, "https://example.org/in");
            assert_eq!(request.authorization, None);
        }
        other => panic!("{:?}", other),
    }
}

#[test]
fn a_token_is_sent_as_a_bearer() {
    let spec = FastIOJudgeSpec {
        input: None,
        input_url: Some("https://example.org/in".to_string()),
        input_auth: Some("s3cr3t".to_string()),
        ..spec()
    };
    match spec.make_input() {
        InputPlan::Fetch(request) => {
            assert_eq!(request.authorization, Some("Bearer s3cr3t".to_string()))
        }
        other => panic!("{:?}", other),
    }
}

#[test]
fn what_was_fetched_is_the_input() {
    let input = fetched_input(Ok("3 4\n".to_string())).unwrap();
    assert_eq!(input.stdin, "3 4\n");
}

#[test]
fn a_failed_fetch_says_which_part_failed() {
    assert_eq!(
        fetched_input(Err(FetchFailure::Request("connection refused".to_string()))).unwrap_err(),
        "Error fetching input: connection refused"
    );
    assert_eq!(
        fetched_input(Err(FetchFailure::Body("invalid utf-8".to_string()))).unwrap_err(),
        "Error reading input: invalid utf-8"
    );
}

#[test]
fn the_digest_is_the_sha256_of_the_normal_output() {
    assert_eq!(digest_output("hello"), HELLO_DIGEST);
    assert_eq!(digest_output("hello\n"), HELLO_DIGEST);
    assert_eq!(digest_output("  hello \r\n\n"), HELLO_DIGEST);
    assert_eq!(digest_output(""), EMPTY_DIGEST);
    assert_eq!(digest_output(" \n\t\n"), EMPTY_DIGEST);
    assert_ne!(digest_output("hello world"), HELLO_DIGEST);
    assert_eq!(
        digest_output("abc"),
        "ba7816bf8f01cfea414140de5dae2223b00361a396177a9cb410ff61f20015ad"
    );
}

#[test]
fn the_digest_is_taken_of_the_utf8_bytes() {
    assert_eq!(
        digest_output("caf\u{e9}\n"),
        sha256::digest("caf\u{e9}".as_bytes())
    );
    assert_eq!(digest_output("a \nb\n"), sha256::digest("a\nb"));
}

#[test]
fn an_output_with_the_expected_digest_is_fine() {
    assert_eq!(spec().judge_output(&input(), &output("hello\n")), Ok(()));
    assert_eq!(
        JudgeSpec::IOFast(spec()).judge_output(&input(), &output("\thello  \n\n")),
        Ok(())
    );
}

#[test]
fn stderr_and_stdin_are_not_judged() {
    let written = Output { stdout: "hello".to_string(), stderr: "warning: x".to_string() };
    assert_eq!(spec().judge_output(&Input { stdin: String::new() }, &written), Ok(()));
}

#[test]
fn an_output_with_another_digest_names_both() {
    assert_eq!(
        spec().judge_output(&input(), &output("")),
        Err(format!("Output hash mismatch. Expected {}, got {}", HELLO_DIGEST, EMPTY_DIGEST))
    );
}

#[test]
fn the_expected_digest_is_compared_as_it_is_written() {
    let spec = FastIOJudgeSpec { output_hash: HELLO_DIGEST.to_uppercase(), ..spec() };
    assert_eq!(
        spec.judge_output(&input(), &output("hello")),
        Err(format!(
            "Output hash mismatch. Expected {}, got {}",
            HELLO_DIGEST.to_uppercase(),
            HELLO_DIGEST
        ))
    );
}

#[test]
fn a_digest_is_judged_against_the_expected_one() {
    assert_eq!(spec().judge_digest(HELLO_DIGEST.to_string()), Ok(()));
    assert_eq!(
        spec().judge_digest("00".to_string()),
        Err(format!("Output hash mismatch. Expected {}, got 00", HELLO_DIGEST))
    );
}

#[test]
fn the_limits_are_the_cost_and_the_memory() {
    assert_eq!(spec().limits(), (1_000_000, 64));
    assert_eq!(JudgeSpec::IOFast(FastIOJudgeSpec { cost: 3, memory: 9, ..spec() }).limits(), (3, 9));
}
