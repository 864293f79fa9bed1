//! Reply delivery: inline text up to a fixed size, a named file attachment
//! beyond it. The payload is never truncated; the threshold only selects
//! the delivery mechanism.

use vstd::prelude::*;

use crate::text::{ascii_seq, lit, wrap_text};

verus! {

/// The largest payload that still goes inline.
pub const REPLY_LIMIT: usize = 1900;

/// An outbound message: an inline reply, or a named byte attachment with a
/// short explanatory note.
pub enum Reply {
    Say(Vec<u8>),
    SendFile { filename: Vec<u8>, data: Vec<u8>, note: Vec<u8> },
}

/// The inline reply around an execution rendering.
pub open spec fn exec_reply_msg(out: Seq<u8>) -> Seq<u8> {
    ascii_seq("Output environment from execution: ```"@) + out + ascii_seq("```"@)
}

/// The attachment name for execution output.
pub open spec fn exec_file_name() -> Seq<u8> {
    ascii_seq("toaster_output.txt"@)
}

/// The note beside an execution-output attachment.
pub open spec fn msg_too_long_output() -> Seq<u8> {
    ascii_seq("The output was too long! Here's a file instead"@)
}

/// The inline reply around an interchange-AST rendering.
pub open spec fn cylon_reply_msg(out: Seq<u8>) -> Seq<u8> {
    ascii_seq("Cylon AST of program:\n```json\n"@) + out + ascii_seq("\n```"@)
}

/// The attachment name for interchange-AST output.
pub open spec fn cylon_file_name() -> Seq<u8> {
    ascii_seq("cylon_ast.json"@)
}

/// The note beside an interchange-AST attachment.
pub open spec fn msg_too_long_code() -> Seq<u8> {
    ascii_seq("The code was too long! Here's a file instead"@)
}

/// Chooses delivery for the execution stage's rendering: up to the size
/// limit the rendering goes inline in a fenced block; beyond it, unchanged,
/// as a named attachment with a short note.
pub fn deliver_execution(output: Vec<u8>) -> (r: Reply)
    ensures
        output@.len() <= REPLY_LIMIT ==> (r matches Reply::Say(t) && t@ == exec_reply_msg(output@)),
        output@.len() > REPLY_LIMIT ==> (r matches Reply::SendFile { filename, data, note }
            && filename@ == exec_file_name() && data@ == output@ && note@
            == msg_too_long_output()),
{
    proof {
        reveal_strlit("Output environment from execution: ```");
        reveal_strlit("```");
        reveal_strlit("toaster_output.txt");
        reveal_strlit("The output was too long! Here's a file instead");
        assert(("Output environment from execution: ```").is_ascii());
        assert(("```").is_ascii());
        assert(("toaster_output.txt").is_ascii());
        assert(("The output was too long! Here's a file instead").is_ascii());
    }
    if output.len() > REPLY_LIMIT {
        Reply::SendFile {
            filename: lit("toaster_output.txt"),
            data: output,
            note: lit("The output was too long! Here's a file instead"),
        }
    } else {
        Reply::Say(wrap_text("Output environment from execution: ```", output.as_slice(), "```"))
    }
}

/// Chooses delivery for the interchange-AST stage's rendering, as
/// `deliver_execution` does for execution output, with its own fence tag,
/// attachment name, and note.
pub fn deliver_cylon(output: Vec<u8>) -> (r: Reply)
    ensures
        output@.len() <= REPLY_LIMIT ==> (r matches Reply::Say(t) && t@ == cylon_reply_msg(
            output@,
        )),
        output@.len() > REPLY_LIMIT ==> (r matches Reply::SendFile { filename, data, note }
            && filename@ == cylon_file_name() && data@ == output@ && note@ == msg_too_long_code()),
{
    proof {
        reveal_strlit("Cylon AST of program:\n```json\n");
        reveal_strlit("\n```");
        reveal_strlit("cylon_ast.json");
        reveal_strlit("The code was too long! Here's a file instead");
        assert(("Cylon AST of program:\n```json\n").is_ascii());
        assert(("\n```").is_ascii());
        assert(("cylon_ast.json").is_ascii());
        assert(("The code was too long! Here's a file instead").is_ascii());
    }
    if output.len() > REPLY_LIMIT {
        Reply::SendFile {
            filename: lit("cylon_ast.json"),
            data: output,
            note: lit("The code was too long! Here's a file instead"),
        }
    } else {
        Reply::Say(wrap_text("Cylon AST of program:\n```json\n", output.as_slice(), "\n```"))
    }
}

} // verus!
