//! The five pipeline stages: execute, re-emit source, emit the interchange
//! AST, emit the debug AST, and emit tokens; with the shared tokenize and
//! parse steps.

use vstd::prelude::*;

use crate::engine::{
    ast_debug_of, cylon_json_of, cylon_json_src, cylon_ser_err, cylon_to_json, env_next_line,
    env_set_next_line, env_set_val, execute_line_step, from_cylon, parse_err, parse_src,
    render_ast_debug_src, render_program_debug, render_source, render_source_src,
    render_tokens_src, src_of, tok_err, tokenize_src, tokens_debug_of, CylonEmitError,
    EngineError,
};
use crate::guard::{comments_convertible, safe_number_runs, scan_source};
use crate::text::{
    ascii_seq, dec_bytes, lines_of, lit, push_all, split_lines, u128_to_dec, vecs_view, wrap_text,
};

verus! {

/// The tagged input of one invocation: raw source text, or an already
/// deserialized interchange AST.
pub enum YololInput {
    Yolol(Vec<u8>),
    CylonAst(cylon_ast::CylonRoot),
}

/// The error for tokenizing an already-parsed interchange AST.
pub open spec fn msg_cant_tokenize() -> Seq<u8> {
    ascii_seq("Can't tokenize a Cylon AST!"@)
}

/// The error for executing from an interchange AST.
pub open spec fn msg_exec_from_cylon() -> Seq<u8> {
    ascii_seq(
        "Execution from Cylon AST not yet supported! Psst, try outputting yolol then using it as input ;)"@,
    )
}

/// A lexical failure, carrying the engine's message.
pub open spec fn tok_fail_msg(e: Seq<u8>) -> Seq<u8> {
    ascii_seq("Tokenizer failure: ```"@) + e + ascii_seq("```"@)
}

/// A syntactic failure, carrying the engine's message.
pub open spec fn parse_fail_msg(e: Seq<u8>) -> Seq<u8> {
    ascii_seq("Parser failure: ```"@) + e + ascii_seq("```"@)
}

/// A serialization failure, carrying the serializer's message.
pub open spec fn ser_fail_msg(e: Seq<u8>) -> Seq<u8> {
    ascii_seq("Converting AST to Cylon AST failed with error: ```"@) + e + ascii_seq("```"@)
}

/// The refusal of a source whose numeric literals the engine cannot hold.
pub open spec fn msg_bad_number() -> Seq<u8> {
    ascii_seq(
        "Your code holds a number the engine can't handle! Use at most one decimal point and at most 35 digits before it"@,
    )
}

/// The refusal of interchange-AST output for a comment that would sit
/// inside an `if` body, which the conversion cannot carry.
pub open spec fn msg_comment_in_cylon() -> Seq<u8> {
    ascii_seq("Comments inside an if block can't be converted to the Cylon AST! Remove them and try again"@)
}

fn bad_number_text() -> (r: Vec<u8>)
    ensures
        r@ == msg_bad_number(),
{
    proof {
        reveal_strlit(
            "Your code holds a number the engine can't handle! Use at most one decimal point and at most 35 digits before it",
        );
        assert(
            ("Your code holds a number the engine can't handle! Use at most one decimal point and at most 35 digits before it").is_ascii()
        );
    }
    lit(
        "Your code holds a number the engine can't handle! Use at most one decimal point and at most 35 digits before it",
    )
}

fn comment_in_cylon_text() -> (r: Vec<u8>)
    ensures
        r@ == msg_comment_in_cylon(),
{
    proof {
        reveal_strlit("Comments inside an if block can't be converted to the Cylon AST! Remove them and try again");
        assert(
            ("Comments inside an if block can't be converted to the Cylon AST! Remove them and try again").is_ascii()
        );
    }
    lit("Comments inside an if block can't be converted to the Cylon AST! Remove them and try again")
}

fn cant_tokenize_text() -> (r: Vec<u8>)
    ensures
        r@ == msg_cant_tokenize(),
{
    proof {
        reveal_strlit("Can't tokenize a Cylon AST!");
        assert(("Can't tokenize a Cylon AST!").is_ascii());
    }
    lit("Can't tokenize a Cylon AST!")
}

fn exec_from_cylon_text() -> (r: Vec<u8>)
    ensures
        r@ == msg_exec_from_cylon(),
{
    proof {
        reveal_strlit(
            "Execution from Cylon AST not yet supported! Psst, try outputting yolol then using it as input ;)",
        );
        assert(
            ("Execution from Cylon AST not yet supported! Psst, try outputting yolol then using it as input ;)").is_ascii()
        );
    }
    lit(
        "Execution from Cylon AST not yet supported! Psst, try outputting yolol then using it as input ;)",
    )
}

fn tok_fail_text(e: &[u8]) -> (r: Vec<u8>)
    ensures
        r@ == tok_fail_msg(e@),
{
    proof {
        reveal_strlit("Tokenizer failure: ```");
        reveal_strlit("```");
        assert(("Tokenizer failure: ```").is_ascii());
        assert(("```").is_ascii());
    }
    wrap_text("Tokenizer failure: ```", e, "```")
}

fn parse_fail_text(e: &[u8]) -> (r: Vec<u8>)
    ensures
        r@ == parse_fail_msg(e@),
{
    proof {
        reveal_strlit("Parser failure: ```");
        reveal_strlit("```");
        assert(("Parser failure: ```").is_ascii());
        assert(("```").is_ascii());
    }
    wrap_text("Parser failure: ```", e, "```")
}

fn ser_fail_text(e: &[u8]) -> (r: Vec<u8>)
    ensures
        r@ == ser_fail_msg(e@),
{
    proof {
        reveal_strlit("Converting AST to Cylon AST failed with error: ```");
        reveal_strlit("```");
        assert(("Converting AST to Cylon AST failed with error: ```").is_ascii());
        assert(("```").is_ascii());
    }
    wrap_text("Converting AST to Cylon AST failed with error: ```", e, "```")
}

/// Tokenizes raw source through the external lexer; an interchange AST has
/// no token stream and is refused.
pub fn tokenize_yolol(input: YololInput) -> (r: Result<Vec<yoloxide::types::Token>, Vec<u8>>)
    ensures
        match input {
            YololInput::CylonAst(_) => r matches Err(e) && e@ == msg_cant_tokenize(),
            YololInput::Yolol(code) => if !safe_number_runs(code@) {
                r matches Err(e) && e@ == msg_bad_number()
            } else {
                match tok_err(code@) {
                    None => r is Ok,
                    Some(m) => r matches Err(e) && e@ == tok_fail_msg(m),
                }
            },
        },
{
    match input {
        YololInput::CylonAst(_) => Err(cant_tokenize_text()),
        YololInput::Yolol(code) => {
            let (nums_ok, _) = scan_source(code.as_slice());
            if !nums_ok {
                return Err(bad_number_text());
            }
            match tokenize_src(code.as_slice()) {
                Ok(t) => Ok(t),
                Err(e) => Err(tok_fail_text(e.as_slice())),
            }
        },
    }
}

/// Parses the input into the engine's program representation: raw source
/// goes through the lexer and parser; an interchange AST is converted
/// directly, its conversion error passed through unchanged.
pub fn parse_yolol(input: YololInput) -> (r: Result<yoloxide::types::ast::program::Program, Vec<u8>>)
    ensures
        match input {
            YololInput::Yolol(code) => {
                &&& !safe_number_runs(code@) ==> (r matches Err(e) && e@ == msg_bad_number())
                &&& safe_number_runs(code@) ==> (tok_err(code@) matches Some(m) ==> r matches Err(
                    e,
                ) && e@ == tok_fail_msg(m))
                &&& safe_number_runs(code@) && tok_err(code@) is None ==> (parse_err(code@)
                    matches Some(m) ==> r matches Err(e) && e@ == parse_fail_msg(m))
                &&& safe_number_runs(code@) && tok_err(code@) is None && parse_err(code@) is None
                    ==> r is Ok
            },
            YololInput::CylonAst(_) => true,
        },
{
    match input {
        YololInput::CylonAst(root) => from_cylon(root),
        YololInput::Yolol(code) => {
            let (nums_ok, _) = scan_source(code.as_slice());
            if !nums_ok {
                return Err(bad_number_text());
            }
            match parse_src(code.as_slice()) {
                Ok(p) => Ok(p),
                Err(EngineError::Lex(m)) => Err(tok_fail_text(m.as_slice())),
                Err(EngineError::Syntax(m)) => Err(parse_fail_text(m.as_slice())),
            }
        },
    }
}

/// The re-emit-source stage: parse, then render back to source text. For
/// raw source the re-emission is pinned to the engine's named rendering.
pub fn output_yolol(input: YololInput) -> (r: Result<Vec<u8>, Vec<u8>>)
    ensures
        match input {
            YololInput::Yolol(code) => {
                &&& !safe_number_runs(code@) ==> (r matches Err(e) && e@ == msg_bad_number())
                &&& safe_number_runs(code@) ==> (tok_err(code@) matches Some(m) ==> r matches Err(
                    e,
                ) && e@ == tok_fail_msg(m))
                &&& safe_number_runs(code@) && tok_err(code@) is None ==> (parse_err(code@)
                    matches Some(m) ==> r matches Err(e) && e@ == parse_fail_msg(m))
                &&& safe_number_runs(code@) && tok_err(code@) is None && parse_err(code@) is None
                    ==> (r matches Ok(v) && v@ == src_of(code@))
            },
            YololInput::CylonAst(_) => true,
        },
{
    match input {
        YololInput::CylonAst(root) => match parse_yolol(YololInput::CylonAst(root)) {
            Ok(prog) => Ok(render_source(&prog)),
            Err(e) => Err(e),
        },
        YololInput::Yolol(code) => {
            let (nums_ok, _) = scan_source(code.as_slice());
            if !nums_ok {
                return Err(bad_number_text());
            }
            match render_source_src(code.as_slice()) {
                Ok(v) => Ok(v),
                Err(EngineError::Lex(m)) => Err(tok_fail_text(m.as_slice())),
                Err(EngineError::Syntax(m)) => Err(parse_fail_text(m.as_slice())),
            }
        },
    }
}

/// The debug-AST stage: parse, then render the program's debug structure.
/// For raw source the dump is pinned to the engine's named rendering.
pub fn output_ast(input: YololInput) -> (r: Result<Vec<u8>, Vec<u8>>)
    ensures
        match input {
            YololInput::Yolol(code) => {
                &&& !safe_number_runs(code@) ==> (r matches Err(e) && e@ == msg_bad_number())
                &&& safe_number_runs(code@) ==> (tok_err(code@) matches Some(m) ==> r matches Err(
                    e,
                ) && e@ == tok_fail_msg(m))
                &&& safe_number_runs(code@) && tok_err(code@) is None ==> (parse_err(code@)
                    matches Some(m) ==> r matches Err(e) && e@ == parse_fail_msg(m))
                &&& safe_number_runs(code@) && tok_err(code@) is None && parse_err(code@) is None
                    ==> (r matches Ok(v) && v@ == ast_debug_of(code@))
            },
            YololInput::CylonAst(_) => true,
        },
{
    match input {
        YololInput::CylonAst(root) => match parse_yolol(YololInput::CylonAst(root)) {
            Ok(prog) => Ok(render_program_debug(&prog)),
            Err(e) => Err(e),
        },
        YololInput::Yolol(code) => {
            let (nums_ok, _) = scan_source(code.as_slice());
            if !nums_ok {
                return Err(bad_number_text());
            }
            match render_ast_debug_src(code.as_slice()) {
                Ok(v) => Ok(v),
                Err(EngineError::Lex(m)) => Err(tok_fail_text(m.as_slice())),
                Err(EngineError::Syntax(m)) => Err(parse_fail_text(m.as_slice())),
            }
        },
    }
}

/// The token-dump stage: tokenize, then render the token sequence. For raw
/// source the dump is pinned to the engine's named rendering.
pub fn output_tokens(input: YololInput) -> (r: Result<Vec<u8>, Vec<u8>>)
    ensures
        match input {
            YololInput::CylonAst(_) => r matches Err(e) && e@ == msg_cant_tokenize(),
            YololInput::Yolol(code) => if !safe_number_runs(code@) {
                r matches Err(e) && e@ == msg_bad_number()
            } else {
                match tok_err(code@) {
                    None => r matches Ok(v) && v@ == tokens_debug_of(code@),
                    Some(m) => r matches Err(e) && e@ == tok_fail_msg(m),
                }
            },
        },
{
    match input {
        YololInput::CylonAst(_) => Err(cant_tokenize_text()),
        YololInput::Yolol(code) => {
            let (nums_ok, _) = scan_source(code.as_slice());
            if !nums_ok {
                return Err(bad_number_text());
            }
            match render_tokens_src(code.as_slice()) {
                Ok(v) => Ok(v),
                Err(e) => Err(tok_fail_text(e.as_slice())),
            }
        },
    }
}

/// The interchange-AST stage: an interchange input is serialized as it is;
/// raw source is parsed and converted first, its serialized form pinned to
/// the engine's named rendering. The interchange conversion cannot carry a
/// comment inside an `if` body, so raw source with comments is refused.
pub fn output_cylon_ast(input: YololInput) -> (r: Result<Vec<u8>, Vec<u8>>)
    ensures
        match input {
            YololInput::Yolol(code) => {
                &&& !safe_number_runs(code@) ==> (r matches Err(e) && e@ == msg_bad_number())
                &&& safe_number_runs(code@) && !comments_convertible(code@) ==> (r matches Err(
                    e,
                ) && e@ == msg_comment_in_cylon())
                &&& safe_number_runs(code@) && comments_convertible(code@) ==> (tok_err(code@)
                    matches Some(m) ==> r matches Err(e) && e@ == tok_fail_msg(m))
                &&& safe_number_runs(code@) && comments_convertible(code@) && tok_err(code@)
                    is None ==> (parse_err(code@) matches Some(m) ==> r matches Err(e) && e@
                    == parse_fail_msg(m))
                &&& safe_number_runs(code@) && comments_convertible(code@) && tok_err(code@)
                    is None && parse_err(code@) is None ==> match cylon_ser_err(code@) {
                    Some(m) => r matches Err(e) && e@ == ser_fail_msg(m),
                    None => r matches Ok(v) && v@ == cylon_json_of(code@),
                }
            },
            YololInput::CylonAst(_) => r is Err ==> exists|se: Seq<u8>| r->Err_0@ == ser_fail_msg(
                se,
            ),
        },
{
    match input {
        YololInput::CylonAst(root) => match cylon_to_json(&root) {
            Ok(out) => Ok(out),
            Err(e) => {
                let ghost raw = e@;
                let msg = ser_fail_text(e.as_slice());
                proof {
                    assert(msg@ == ser_fail_msg(raw));
                }
                Err(msg)
            },
        },
        YololInput::Yolol(code) => {
            let (nums_ok, comments_ok) = scan_source(code.as_slice());
            if !nums_ok {
                return Err(bad_number_text());
            }
            if !comments_ok {
                return Err(comment_in_cylon_text());
            }
            match cylon_json_src(code.as_slice()) {
                Ok(v) => Ok(v),
                Err(CylonEmitError::Lex(m)) => Err(tok_fail_text(m.as_slice())),
                Err(CylonEmitError::Syntax(m)) => Err(parse_fail_text(m.as_slice())),
                Err(CylonEmitError::Ser(m)) => Err(ser_fail_text(m.as_slice())),
            }
        },
    }
}

/// The program counter a tick runs with, given the counter the environment
/// holds and the line count: out of range restarts at line 1, in range
/// stays.
pub open spec fn effective_pc(pc: int, n: int) -> int {
    if pc <= 0 || pc > n {
        1
    } else {
        pc
    }
}

/// Law: at every tick of a program with `n >= 1` lines, a program counter
/// given as zero or negative, or beyond the last line, is reset to line 1
/// before executing; any counter already in range is kept; and the line
/// executed always lies in range.
pub proof fn lemma_pc_recovery(pc: int, n: int)
    requires
        n >= 1,
    ensures
        pc <= 0 || pc > n ==> effective_pc(pc, n) == 1,
        1 <= pc <= n ==> effective_pc(pc, n) == pc,
        1 <= effective_pc(pc, n) <= n,
{
}

/// The per-tick program-counter recovery rule, exactly `effective_pc`.
pub fn clamp_pc(pc: i64, line_count: usize) -> (r: i64)
    requires
        line_count >= 1,
    ensures
        r as int == effective_pc(pc as int, line_count as int),
        pc <= 0 || pc as int > line_count as int ==> r == 1,
        1 <= pc as int <= line_count as int ==> r == pc,
        1 <= r as int <= line_count as int,
{
    if pc <= 0 {
        1
    } else if pc as u64 > line_count as u64 {
        1
    } else {
        pc
    }
}

/// Whether every line's numeric runs are ones the engine's lexer can hold.
pub open spec fn all_lines_safe(ls: Seq<Seq<u8>>) -> bool {
    forall|k: int| 0 <= k < ls.len() ==> safe_number_runs(#[trigger] ls[k])
}

/// Runs the fixed tick loop against the environment: each tick clamps the
/// program counter into range, stores it back, and executes that line.
/// Exactly `tick_limit` lines run — none when the budget is zero — and a
/// program with no lines runs nothing at all.
pub fn run_ticks(
    env: &mut yoloxide::environment::Environment,
    lines: &Vec<Vec<u8>>,
    tick_limit: u32,
) -> (executed: u32)
    requires
        all_lines_safe(vecs_view(lines@)),
    ensures
        executed == if lines@.len() == 0 {
            0u32
        } else {
            tick_limit
        },
{
    if lines.len() == 0 {
        return 0;
    }
    let mut t: u32 = 0;
    while t < tick_limit
        invariant
            t <= tick_limit,
            lines@.len() >= 1,
            all_lines_safe(vecs_view(lines@)),
        decreases tick_limit - t,
    {
        let pc = env_next_line(env);
        let pc = clamp_pc(pc, lines.len());
        env_set_next_line(env, pc);
        let idx = (pc - 1) as usize;
        proof {
            assert(safe_number_runs(vecs_view(lines@)[idx as int]));
        }
        execute_line_step(env, lines[idx].as_slice());
        t += 1;
    }
    tick_limit
}

/// The reserved variable that carries the elapsed-time report.
pub open spec fn exec_time_var() -> Seq<u8> {
    ascii_seq("::execution_time"@)
}

/// The elapsed-time report, from the four duration readings.
pub open spec fn timing_line(n: nat, u: nat, m: nat, s: nat) -> Seq<u8> {
    dec_bytes(n) + ascii_seq(" nanoseconds, "@) + dec_bytes(u) + ascii_seq(" microseconds, "@)
        + dec_bytes(m) + ascii_seq(" milliseconds, "@) + dec_bytes(s) + ascii_seq(" seconds"@)
}

/// Renders the elapsed-time report.
pub fn timing_text(n: u128, u: u128, m: u128, s: u64) -> (r: Vec<u8>)
    ensures
        r@ == timing_line(n as nat, u as nat, m as nat, s as nat),
{
    proof {
        reveal_strlit(" nanoseconds, ");
        reveal_strlit(" microseconds, ");
        reveal_strlit(" milliseconds, ");
        reveal_strlit(" seconds");
        assert((" nanoseconds, ").is_ascii());
        assert((" microseconds, ").is_ascii());
        assert((" milliseconds, ").is_ascii());
        assert((" seconds").is_ascii());
    }
    let mut r = u128_to_dec(n);
    let part = lit(" nanoseconds, ");
    push_all(&mut r, part.as_slice());
    let d = u128_to_dec(u);
    push_all(&mut r, d.as_slice());
    let part = lit(" microseconds, ");
    push_all(&mut r, part.as_slice());
    let d = u128_to_dec(m);
    push_all(&mut r, d.as_slice());
    let part = lit(" milliseconds, ");
    push_all(&mut r, part.as_slice());
    let d = u128_to_dec(s as u128);
    push_all(&mut r, d.as_slice());
    let part = lit(" seconds");
    push_all(&mut r, part.as_slice());
    proof {
        assert(r@ =~= timing_line(n as nat, u as nat, m as nat, s as nat));
    }
    r
}

/// The execution stage: splits raw source into lines, runs the tick loop,
/// and, unless timing was disabled, stores the elapsed-time report in the
/// environment under the reserved variable. An interchange AST cannot be
/// executed and is refused; raw source always executes.
#[verifier::loop_isolation(false)]
pub fn output_execution(
    input: YololInput,
    num_ticks: u32,
    env: &mut yoloxide::environment::Environment,
    time_execution: bool,
) -> (r: Result<(), Vec<u8>>)
    ensures
        match input {
            YololInput::CylonAst(_) => r matches Err(e) && e@ == msg_exec_from_cylon(),
            YololInput::Yolol(code) => if all_lines_safe(lines_of(code@)) {
                r is Ok
            } else {
                r matches Err(e) && e@ == msg_bad_number()
            },
        },
{
    let code = match input {
        YololInput::Yolol(code) => code,
        YololInput::CylonAst(_) => {
            return Err(exec_from_cylon_text());
        },
    };
    let lines = split_lines(code.as_slice());
    let mut i: usize = 0;
    while i < lines.len()
        invariant
            0 <= i <= lines@.len(),
            vecs_view(lines@) == lines_of(code@),
            forall|k: int| 0 <= k < i ==> safe_number_runs(#[trigger] vecs_view(lines@)[k]),
        decreases lines@.len() - i,
    {
        let (nums_ok, _) = scan_source(lines[i].as_slice());
        if !nums_ok {
            proof {
                assert(!safe_number_runs(lines_of(code@)[i as int]));
                assert((i as int) < lines_of(code@).len());
                assert(!all_lines_safe(lines_of(code@)));
            }
            return Err(bad_number_text());
        }
        proof {
            assert(safe_number_runs(vecs_view(lines@)[i as int]));
        }
        i += 1;
    }
    let start = std::time::Instant::now();
    let _ = run_ticks(env, &lines, num_ticks);
    if time_execution {
        let elapsed = start.elapsed();
        let report = timing_text(
            elapsed.as_nanos(),
            elapsed.as_micros(),
            elapsed.as_millis(),
            elapsed.as_secs(),
        );
        proof {
            reveal_strlit("::execution_time");
            assert(("::execution_time").is_ascii());
        }
        let name = lit("::execution_time");
        env_set_val(env, name.as_slice(), report.as_slice());
    }
    Ok(())
}

} // verus!
