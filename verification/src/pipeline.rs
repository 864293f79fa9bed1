//! The command entry point: a single pass from the raw message to the
//! outbound reply — configuration, extraction, the backtick check, input
//! resolution, the selected stage, and delivery.

use vstd::prelude::*;

use crate::config::{
    arg_tokens, default_config, parse_from, split_args, ArgCursor, InputFlag, OutputFlag,
    YololConfig,
};
use crate::delivery::{
    cylon_file_name, cylon_reply_msg, deliver_cylon, deliver_execution, exec_file_name,
    exec_reply_msg, msg_too_long_code, msg_too_long_output, Reply, REPLY_LIMIT,
};
use crate::engine::{
    ast_debug_of, cylon_from_json, cylon_json_err, cylon_json_of, cylon_ser_err,
    debug_format_bytes, debug_quoted, env_new, env_render, parse_err, src_of, tok_err,
    tokens_debug_of,
};
use crate::extract::{
    contains_backtick, extract_input, extract_spec, has_backtick, msg_not_code_block,
};
use crate::guard::{comments_convertible, safe_number_runs};
use crate::stages::{
    all_lines_safe, msg_bad_number, msg_cant_tokenize, msg_comment_in_cylon, msg_exec_from_cylon,
    output_ast, output_cylon_ast, output_execution, output_tokens, output_yolol, parse_fail_msg,
    ser_fail_msg, tok_fail_msg, YololInput,
};
use crate::text::{ascii_seq, copy_range, lines_of, lit, vecs_view, wrap_text};

verus! {

/// The token byte sequences of a message.
pub open spec fn spec_tokens(msg: Seq<u8>) -> Seq<Seq<u8>> {
    arg_tokens(msg).map_values(|p: (int, Seq<u8>)| p.1)
}

/// The raw payload left after the consumed flag tokens: from the first
/// unconsumed token's first byte to the end of the message, or empty when
/// every token was consumed.
pub open spec fn payload_spec(msg: Seq<u8>, stop: int) -> Seq<u8> {
    if 0 <= stop < arg_tokens(msg).len() {
        msg.subrange(arg_tokens(msg)[stop].0, msg.len() as int)
    } else {
        Seq::empty()
    }
}

/// The backtick-in-payload error.
pub open spec fn msg_backticks() -> Seq<u8> {
    ascii_seq(
        "Your supplied code contains some backticks! No trying to break the output code blocks ;)"@,
    )
}

/// The interchange-AST deserialization error, around the deserializer's
/// message.
pub open spec fn cylon_deser_fail_msg(e: Seq<u8>) -> Seq<u8> {
    ascii_seq("Converting Cylon AST json to internal representation failed with error: ```"@) + e
        + ascii_seq("```"@)
}

/// The inline reply around reconstructed source.
pub open spec fn recon_code_msg(out: Seq<u8>) -> Seq<u8> {
    ascii_seq("Reconstructed code: ```"@) + out + ascii_seq("```"@)
}

/// The inline reply around a debug AST dump, quoted once more as a text
/// value.
pub open spec fn parsed_prog_msg(out: Seq<u8>) -> Seq<u8> {
    ascii_seq("Parsed program: ```"@) + debug_quoted(out) + ascii_seq("```"@)
}

/// The inline reply around a token dump, quoted once more as a text value.
pub open spec fn tokens_prog_msg(out: Seq<u8>) -> Seq<u8> {
    ascii_seq("Tokenized program: ```"@) + debug_quoted(out) + ascii_seq("```"@)
}

/// The engine's terminal error for a raw source, if any: a lexical failure
/// in the tokenizer template, else a syntactic failure in the parser
/// template.
pub open spec fn engine_err(code: Seq<u8>) -> Option<Seq<u8>> {
    if tok_err(code) is Some {
        Some(tok_fail_msg(tok_err(code)->0))
    } else if parse_err(code) is Some {
        Some(parse_fail_msg(parse_err(code)->0))
    } else {
        None
    }
}

/// Whether `r` delivers the execution rendering `out` by the size rule:
/// inline in its template up to the limit, else as the named attachment.
pub open spec fn is_exec_delivery(r: Reply, out: Seq<u8>) -> bool {
    (r matches Reply::Say(t) && out.len() <= REPLY_LIMIT && t@ == exec_reply_msg(out)) || (
    r matches Reply::SendFile { filename, data, note } && out.len() > REPLY_LIMIT && filename@
        == exec_file_name() && data@ == out && note@ == msg_too_long_output())
}

/// Whether `r` delivers the interchange-AST rendering `out` by the size
/// rule: inline in its template up to the limit, else as the named
/// attachment.
pub open spec fn is_cylon_delivery(r: Reply, out: Seq<u8>) -> bool {
    (r matches Reply::Say(t) && out.len() <= REPLY_LIMIT && t@ == cylon_reply_msg(out)) || (
    r matches Reply::SendFile { filename, data, note } && out.len() > REPLY_LIMIT && filename@
        == cylon_file_name() && data@ == out && note@ == msg_too_long_code())
}

/// The reply owed to a raw-source invocation that reached its stage: stage
/// errors are exact; a successful rendering, whose bytes only the engine
/// knows, stands inside the exact template and delivery rule of its output
/// kind.
pub open spec fn raw_reply_ok(c: YololConfig, code: Seq<u8>, r: Reply) -> bool {
    match c.output {
        OutputFlag::Execution => if !all_lines_safe(lines_of(code)) {
            r matches Reply::Say(t) && t@ == msg_bad_number()
        } else {
            exists|out: Seq<u8>| #[trigger] is_exec_delivery(r, out)
        },
        OutputFlag::Yolol => if !safe_number_runs(code) {
            r matches Reply::Say(t) && t@ == msg_bad_number()
        } else {
            match engine_err(code) {
                Some(m) => r matches Reply::Say(t) && t@ == m,
                None => r matches Reply::Say(t) && t@ == recon_code_msg(src_of(code)),
            }
        },
        OutputFlag::Ast => if !safe_number_runs(code) {
            r matches Reply::Say(t) && t@ == msg_bad_number()
        } else {
            match engine_err(code) {
                Some(m) => r matches Reply::Say(t) && t@ == m,
                None => r matches Reply::Say(t) && t@ == parsed_prog_msg(ast_debug_of(code)),
            }
        },
        OutputFlag::Tokens => if !safe_number_runs(code) {
            r matches Reply::Say(t) && t@ == msg_bad_number()
        } else {
            match tok_err(code) {
                Some(m) => r matches Reply::Say(t) && t@ == tok_fail_msg(m),
                None => r matches Reply::Say(t) && t@ == tokens_prog_msg(tokens_debug_of(code)),
            }
        },
        OutputFlag::CylonAst => if !safe_number_runs(code) {
            r matches Reply::Say(t) && t@ == msg_bad_number()
        } else if !comments_convertible(code) {
            r matches Reply::Say(t) && t@ == msg_comment_in_cylon()
        } else {
            match engine_err(code) {
                Some(m) => r matches Reply::Say(t) && t@ == m,
                None => match cylon_ser_err(code) {
                    Some(m) => r matches Reply::Say(t) && t@ == ser_fail_msg(m),
                    None => is_cylon_delivery(r, cylon_json_of(code)),
                },
            }
        },
    }
}

/// The reply owed to an interchange-AST invocation that reached its stage:
/// the stages that refuse such input refuse it exactly; the others rest
/// with the engine's conversion, but keep the reply shape of their output
/// kind.
pub open spec fn cylon_reply_ok(c: YololConfig, r: Reply) -> bool {
    match c.output {
        OutputFlag::Execution => r matches Reply::Say(t) && t@ == msg_exec_from_cylon(),
        OutputFlag::Tokens => r matches Reply::Say(t) && t@ == msg_cant_tokenize(),
        OutputFlag::Yolol => r is Say,
        OutputFlag::Ast => r is Say,
        OutputFlag::CylonAst => r is Say || (r matches Reply::SendFile { filename, data, note }
            && filename@ == cylon_file_name() && note@ == msg_too_long_code()),
    }
}

fn backticks_text() -> (r: Vec<u8>)
    ensures
        r@ == msg_backticks(),
{
    proof {
        reveal_strlit(
            "Your supplied code contains some backticks! No trying to break the output code blocks ;)",
        );
        assert(
            ("Your supplied code contains some backticks! No trying to break the output code blocks ;)").is_ascii()
        );
    }
    lit(
        "Your supplied code contains some backticks! No trying to break the output code blocks ;)",
    )
}

fn cylon_deser_fail_text(e: &[u8]) -> (r: Vec<u8>)
    ensures
        r@ == cylon_deser_fail_msg(e@),
{
    proof {
        reveal_strlit("Converting Cylon AST json to internal representation failed with error: ```");
        reveal_strlit("```");
        assert(
            ("Converting Cylon AST json to internal representation failed with error: ```").is_ascii()
        );
        assert(("```").is_ascii());
    }
    wrap_text("Converting Cylon AST json to internal representation failed with error: ```", e, "```")
}

/// Processes one command invocation: parses flags, extracts the fenced
/// payload, refuses stray backticks, resolves the tagged input, runs the
/// selected stage, and chooses the delivery, reporting any failure as an
/// inline reply.
pub fn run_command(msg: &[u8]) -> (r: Reply)
    ensures
        match parse_from(spec_tokens(msg@), 0, default_config()) {
            Err(m) => r matches Reply::Say(t) && t@ == m,
            Ok(p) => match extract_spec(payload_spec(msg@, p.1)) {
                None => r matches Reply::Say(t) && t@ == msg_not_code_block(),
                Some(body) => if has_backtick(body) {
                    r matches Reply::Say(t) && t@ == msg_backticks()
                } else if p.0.input is CylonAst {
                    match cylon_json_err(body) {
                        Some(m) => r matches Reply::Say(t) && t@ == cylon_deser_fail_msg(m),
                        None => cylon_reply_ok(p.0, r),
                    }
                } else {
                    raw_reply_ok(p.0, body, r)
                },
            },
        },
{
    let (starts, toks) = split_args(msg);
    let ghost stoks = spec_tokens(msg@);
    proof {
        assert forall|k: int| 0 <= k < toks@.len() implies vecs_view(toks@)[k] == stoks[k] by {
            assert(starts@[k] as int == arg_tokens(msg@)[k].0);
        }
        assert(vecs_view(toks@) =~= stoks);
    }
    let mut cursor = ArgCursor::new(toks);
    let config = match YololConfig::parse_args(&mut cursor) {
        Ok(c) => c,
        Err(e) => {
            return Reply::Say(e);
        },
    };
    proof {
        if cursor.pos < starts@.len() {
            assert(starts@[cursor.pos as int] as int == arg_tokens(msg@)[cursor.pos as int].0);
            assert(starts@[cursor.pos as int] < msg@.len());
        }
    }
    let rest: Vec<u8> = if cursor.pos < starts.len() {
        copy_range(msg, starts[cursor.pos], msg.len())
    } else {
        Vec::new()
    };
    proof {
        assert(rest@ =~= payload_spec(msg@, cursor.pos as int));
    }
    let body = match extract_input(rest.as_slice()) {
        Ok(b) => b,
        Err(e) => {
            return Reply::Say(e);
        },
    };
    if contains_backtick(body.as_slice()) {
        return Reply::Say(backticks_text());
    }
    let ghost body_bytes = body@;
    let input = match config.input {
        InputFlag::Yolol => YololInput::Yolol(body),
        InputFlag::CylonAst => match cylon_from_json(body.as_slice()) {
            Ok(root) => YololInput::CylonAst(root),
            Err(e) => {
                return Reply::Say(cylon_deser_fail_text(e.as_slice()));
            },
        },
    };
    match config.output {
        OutputFlag::Execution => {
            let name = bot_name_text();
            let mut env = env_new(name.as_slice());
            match output_execution(input, config.num_ticks, &mut env, config.time_execution) {
                Ok(_) => {
                    let out = env_render(&env);
                    let ghost ov = out@;
                    let reply = deliver_execution(out);
                    proof {
                        assert(is_exec_delivery(reply, ov));
                    }
                    reply
                },
                Err(e) => Reply::Say(e),
            }
        },
        OutputFlag::Yolol => match output_yolol(input) {
            Ok(o) => {
                proof {
                    reveal_strlit("Reconstructed code: ```");
                    reveal_strlit("```");
                    assert(("Reconstructed code: ```").is_ascii());
                    assert(("```").is_ascii());
                }
                let reply = Reply::Say(wrap_text("Reconstructed code: ```", o.as_slice(), "```"));
                proof {
                    assert(reply matches Reply::Say(t) && t@ == recon_code_msg(o@));
                }
                reply
            },
            Err(e) => Reply::Say(e),
        },
        OutputFlag::CylonAst => match output_cylon_ast(input) {
            Ok(o) => {
                let ghost ov = o@;
                let reply = deliver_cylon(o);
                proof {
                    assert(is_cylon_delivery(reply, ov));
                }
                reply
            },
            Err(e) => Reply::Say(e),
        },
        OutputFlag::Ast => match output_ast(input) {
            Ok(o) => {
                let q = debug_format_bytes(o.as_slice());
                proof {
                    reveal_strlit("Parsed program: ```");
                    reveal_strlit("```");
                    assert(("Parsed program: ```").is_ascii());
                    assert(("```").is_ascii());
                }
                let reply = Reply::Say(wrap_text("Parsed program: ```", q.as_slice(), "```"));
                proof {
                    assert(reply matches Reply::Say(t) && t@ == parsed_prog_msg(o@));
                }
                reply
            },
            Err(e) => Reply::Say(e),
        },
        OutputFlag::Tokens => match output_tokens(input) {
            Ok(o) => {
                let q = debug_format_bytes(o.as_slice());
                proof {
                    reveal_strlit("Tokenized program: ```");
                    reveal_strlit("```");
                    assert(("Tokenized program: ```").is_ascii());
                    assert(("```").is_ascii());
                }
                let reply = Reply::Say(wrap_text("Tokenized program: ```", q.as_slice(), "```"));
                proof {
                    assert(reply matches Reply::Say(t) && t@ == tokens_prog_msg(o@));
                }
                reply
            },
            Err(e) => Reply::Say(e),
        },
    }
}

fn bot_name_text() -> (r: Vec<u8>)
    ensures
        r@ == ascii_seq("Bot"@),
{
    proof {
        reveal_strlit("Bot");
        assert(("Bot").is_ascii());
    }
    lit("Bot")
}

} // verus!
