use neotoaster::delivery::Reply;
use neotoaster::engine::env_new;
use neotoaster::pipeline::run_command;
use neotoaster::stages::{run_ticks, tokenize_yolol, YololInput};

fn b(s: &str) -> Vec<u8> {
    s.as_bytes().to_vec()
}

fn say(reply: Reply) -> Vec<u8> {
    match reply {
        Reply::Say(t) => t,
        Reply::SendFile { .. } => panic!("expected an inline reply"),
    }
}

fn starts_with(hay: &[u8], prefix: &str) -> bool {
    hay.len() >= prefix.len() && &hay[..prefix.len()] == prefix.as_bytes()
}

fn strip_whitespace(s: &[u8]) -> Vec<u8> {
    s.iter()
        .copied()
        .filter(|c| !c.is_ascii_whitespace())
        .collect()
}

/// Pulls the reconstructed code out of a "Reconstructed code: ```...```" reply.
fn reconstructed(reply: Reply) -> Vec<u8> {
    let t = say(reply);
    let prefix = "Reconstructed code: ```";
    assert!(starts_with(&t, prefix));
    assert!(t.ends_with(b"```"));
    t[prefix.len()..t.len() - 3].to_vec()
}

#[test]
fn reconstructed_source_matches_two_line_program() {
    let reply = run_command(b"-oy ```\nx=1 y=2\nz=3\n```");
    let code = reconstructed(reply);
    assert_eq!(strip_whitespace(&code), strip_whitespace(b"x=1 y=2\nz=3"));
}

#[test]
fn emit_source_is_idempotent_on_its_own_output() {
    let reply = run_command(b"-oy ```\nx=1 y=2\nz=3\n```");
    let code = reconstructed(reply);
    let mut msg = b("-oy ```\n");
    msg.extend_from_slice(&code);
    msg.extend_from_slice(b"```");
    let again = run_command(&msg);
    let code2 = reconstructed(again);
    assert_eq!(strip_whitespace(&code), strip_whitespace(&code2));
}

/// Pulls the JSON out of a "Cylon AST of program:..." reply.
fn cylon_json(reply: Reply) -> Vec<u8> {
    let t = say(reply);
    let prefix = "Cylon AST of program:\n```json\n";
    assert!(starts_with(&t, prefix));
    assert!(t.ends_with(b"\n```"));
    t[prefix.len()..t.len() - 4].to_vec()
}

#[test]
fn interchange_ast_round_trips() {
    let first = cylon_json(run_command(b"-oc ```\nx=1 y=2\n```"));
    let mut msg = b("-ic -oc ```\n");
    msg.extend_from_slice(&first);
    msg.extend_from_slice(b"\n```");
    let second = cylon_json(run_command(&msg));
    let v1: serde_json::Value = serde_json::from_slice(&first).unwrap();
    let v2: serde_json::Value = serde_json::from_slice(&second).unwrap();
    assert_eq!(v1["program"], v2["program"]);
}

#[test]
fn emit_source_from_interchange_ast() {
    let json = cylon_json(run_command(b"-oc ```\nx=1\n```"));
    let mut msg = b("-ic -oy ```\n");
    msg.extend_from_slice(&json);
    msg.extend_from_slice(b"\n```");
    let code = reconstructed(run_command(&msg));
    assert_eq!(strip_whitespace(&code), strip_whitespace(b"x=1"));
}

#[test]
fn long_execution_output_becomes_attachment() {
    let mut msg = b("```\n");
    let filler = "a".repeat(150);
    for i in 0..19 {
        msg.extend_from_slice(format!("x{}=\"{}\"\n", i, filler).as_bytes());
    }
    msg.extend_from_slice(b"```");
    match run_command(&msg) {
        Reply::SendFile {
            filename,
            data,
            note,
        } => {
            assert_eq!(filename, b("toaster_output.txt"));
            assert_eq!(note, b("The output was too long! Here's a file instead"));
            assert!(data.len() > 1900);
        }
        Reply::Say(_) => panic!("expected an attachment"),
    }
}

#[test]
fn backtick_in_payload_is_refused() {
    let reply = run_command(b"-oy ```\nx=1`\n```");
    assert_eq!(
        say(reply),
        b("Your supplied code contains some backticks! No trying to break the output code blocks ;)")
    );
}

#[test]
fn long_interchange_ast_becomes_attachment() {
    let mut msg = b("-oc ```\n");
    for i in 0..30 {
        msg.extend_from_slice(format!("v{}=1 w{}=2\n", i, i).as_bytes());
    }
    msg.extend_from_slice(b"```");
    match run_command(&msg) {
        Reply::SendFile {
            filename,
            data,
            note,
        } => {
            assert_eq!(filename, b("cylon_ast.json"));
            assert_eq!(note, b("The code was too long! Here's a file instead"));
            assert!(data.len() > 1900);
            let v: serde_json::Value = serde_json::from_slice(&data).unwrap();
            assert!(v["program"].is_object());
        }
        Reply::Say(_) => panic!("expected an attachment"),
    }
}

#[test]
fn zero_tick_execution_still_renders_environment() {
    let t = say(run_command(b"--ticks 0 ```\nx=1\n```"));
    assert!(starts_with(&t, "Output environment from execution: ```"));
    let text = String::from_utf8(t).unwrap();
    assert!(text.contains(" nanoseconds, "));
    assert!(!text.contains("Key: 'x'"));
}

#[test]
fn timing_report_can_be_disabled() {
    let t = say(run_command(b"-nte --ticks 0 ```\nx=1\n```"));
    let text = String::from_utf8(t).unwrap();
    assert!(!text.contains("nanoseconds"));
}

#[test]
fn execution_runs_the_program() {
    let t = say(run_command(b"--ticks 3 ```\nx=x+1\n```"));
    let text = String::from_utf8(t).unwrap();
    assert!(text.contains("Key: 'x', Value: '3'"), "{}", text);
}

#[test]
fn tick_budget_zero_runs_nothing() {
    let mut env = env_new(b"Bot");
    let lines = vec![b("x=1")];
    assert_eq!(run_ticks(&mut env, &lines, 0), 0);
}

#[test]
fn empty_program_runs_nothing() {
    let mut env = env_new(b"Bot");
    let lines: Vec<Vec<u8>> = Vec::new();
    assert_eq!(run_ticks(&mut env, &lines, 50), 0);
}

#[test]
fn execution_from_interchange_ast_is_refused() {
    let json = cylon_json(run_command(b"-oc ```\nx=1\n```"));
    let mut msg = b("-ic ```\n");
    msg.extend_from_slice(&json);
    msg.extend_from_slice(b"\n```");
    assert_eq!(
        say(run_command(&msg)),
        b("Execution from Cylon AST not yet supported! Psst, try outputting yolol then using it as input ;)")
    );
}

#[test]
fn tokens_from_interchange_ast_are_refused() {
    let json = cylon_json(run_command(b"-oc ```\nx=1\n```"));
    let mut msg = b("-ic -ot ```\n");
    msg.extend_from_slice(&json);
    msg.extend_from_slice(b"\n```");
    assert_eq!(say(run_command(&msg)), b("Can't tokenize a Cylon AST!"));
}

#[test]
fn malformed_interchange_ast_reports_deserializer_error() {
    let t = say(run_command(b"-ic -oc ```\nnot json at all\n```"));
    assert!(starts_with(
        &t,
        "Converting Cylon AST json to internal representation failed with error: ```"
    ));
}

#[test]
fn tokenizer_failure_is_reported() {
    let t = say(run_command(b"-ot ```\n~\n```"));
    assert!(starts_with(&t, "Tokenizer failure: ```"));
}

#[test]
fn parser_failure_is_reported() {
    let t = say(run_command(b"-oa ```\nx=\n```"));
    assert!(starts_with(&t, "Parser failure: ```"));
}

#[test]
fn token_dump_is_debug_quoted() {
    let t = say(run_command(b"-ot ```\nx=1\n```"));
    assert!(starts_with(&t, "Tokenized program: ```\""));
}

#[test]
fn ast_dump_is_debug_quoted() {
    let t = say(run_command(b"-oa ```\nx=1\n```"));
    assert!(starts_with(&t, "Parsed program: ```\""));
}

#[test]
fn message_without_payload_reports_missing_arguments() {
    assert_eq!(
        say(run_command(b"")),
        b("Unable to get an argument! Might not have supplied any args...")
    );
}

#[test]
fn payload_without_fence_reports_code_block_error() {
    assert_eq!(
        say(run_command(b"-oy x=1")),
        b("Your supplied code isn't properly put into a code block. Be sure to surround it with triple backticks!")
    );
}

#[test]
fn number_with_two_dots_is_refused() {
    assert_eq!(
        say(run_command(b"-ot ```\nx=1.2.3\n```")),
        b("Your code holds a number the engine can't handle! Use at most one decimal point and at most 35 digits before it")
    );
}

#[test]
fn oversized_number_is_refused() {
    let mut msg = b("-oy ```\nx=");
    msg.extend_from_slice("9".repeat(36).as_bytes());
    msg.extend_from_slice(b"\n```");
    let t = say(run_command(&msg));
    assert!(starts_with(&t, "Your code holds a number the engine can't handle!"));
}

#[test]
fn widest_accepted_number_still_tokenizes() {
    let mut msg = b("-ot ```\nx=");
    msg.extend_from_slice("9".repeat(35).as_bytes());
    msg.extend_from_slice(b"\n```");
    let t = say(run_command(&msg));
    assert!(starts_with(&t, "Tokenized program: ```"));
}

#[test]
fn execution_refuses_a_bad_number_line() {
    let t = say(run_command(b"```\nx=1.2.3\n```"));
    assert!(starts_with(&t, "Your code holds a number the engine can't handle!"));
}

#[test]
fn dotted_number_inside_string_is_fine() {
    let t = say(run_command(b"-ot ```\nx=\"1.2.3\"\n```"));
    assert!(starts_with(&t, "Tokenized program: ```"));
}

#[test]
fn dotted_number_inside_comment_is_fine() {
    let t = say(run_command(b"-oy ```\nx=1 //v1.2.3\n```"));
    assert!(starts_with(&t, "Reconstructed code: ```"));
}

#[test]
fn comment_inside_if_is_refused_for_interchange_output() {
    assert_eq!(
        say(run_command(b"-oc ```\nif x then y=1 //note\nend\n```")),
        b("Comments inside an if block can't be converted to the Cylon AST! Remove them and try again")
    );
}

#[test]
fn top_level_comment_still_converts_to_interchange_ast() {
    let json = cylon_json(run_command(b"-oc ```\nx=1 //note\n```"));
    let v: serde_json::Value = serde_json::from_slice(&json).unwrap();
    assert_eq!(v["program"]["lines"][0]["comment"], "note");
}

#[test]
fn tokenize_helper_refuses_interchange_and_bad_numbers() {
    assert!(tokenize_yolol(YololInput::Yolol(b("x=1"))).is_ok());
    assert_eq!(
        tokenize_yolol(YololInput::Yolol(b("x=1.2.3"))).unwrap_err(),
        b("Your code holds a number the engine can't handle! Use at most one decimal point and at most 35 digits before it")
    );
}
