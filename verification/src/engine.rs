//! The trusted boundary around the external language engine and its
//! interchange format: type declarations, named results, and the wrappers
//! through which the verified pipeline calls out.

use vstd::prelude::*;

use yoloxide::environment::ContextMap;

use crate::guard::{comments_convertible, safe_number_runs};

verus! {

/// The external execution environment: program counter, variables, and a
/// human-readable rendering.
#[verifier::external_type_specification]
#[verifier::external_body]
pub struct ExEnvironment(yoloxide::environment::Environment);

/// The external lexer's token.
#[verifier::external_type_specification]
#[verifier::external_body]
pub struct ExToken(yoloxide::types::Token);

/// The external parser's program representation.
#[verifier::external_type_specification]
#[verifier::external_body]
pub struct ExProgram(yoloxide::types::ast::program::Program);

/// The root of the interchange AST.
#[verifier::external_type_specification]
#[verifier::external_body]
pub struct ExCylonRoot(cylon_ast::CylonRoot);

/// A point in time, for the elapsed-time report.
#[verifier::external_type_specification]
#[verifier::external_body]
pub struct ExInstant(std::time::Instant);

/// A failure inside the external engine: the lexer refused the source, or
/// the parser refused the token stream. Each carries the engine's own
/// message bytes.
pub enum EngineError {
    Lex(Vec<u8>),
    Syntax(Vec<u8>),
}

/// What tokenizing a source text yields: nothing on success, the engine's
/// error text otherwise. The outcome depends on the source bytes alone.
pub uninterp spec fn tok_err(code: Seq<u8>) -> Option<Seq<u8>>;

/// What parsing the token stream of a source text yields: nothing on
/// success, the engine's error text otherwise. Meaningful where `tok_err`
/// is `None`; the outcome depends on the source bytes alone.
pub uninterp spec fn parse_err(code: Seq<u8>) -> Option<Seq<u8>>;

/// What deserializing an interchange-AST text yields: nothing on success,
/// the deserializer's error text otherwise. The outcome depends on the text
/// alone.
pub uninterp spec fn cylon_json_err(text: Seq<u8>) -> Option<Seq<u8>>;

/// Relies on yoloxide::tokenizer::tokenize: whether a source tokenizes, and
/// the error text it reports otherwise, depend on the source text alone.
/// The lexer aborts on a numeric run its number type cannot hold, so unsafe
/// numeric runs are excluded.
#[verifier::external_body]
pub fn tokenize_src(code: &[u8]) -> (r: Result<Vec<yoloxide::types::Token>, Vec<u8>>)
    requires
        safe_number_runs(code@),
    ensures
        match r {
            Ok(_) => tok_err(code@) is None,
            Err(e) => tok_err(code@) == Some(e@),
        },
{
    let text = String::from_utf8_lossy(code).into_owned();
    match yoloxide::tokenizer::tokenize(text) {
        Ok(t) => Ok(t),
        Err(e) => Err(e.into_bytes()),
    }
}

/// Relies on yoloxide::tokenizer::tokenize and yoloxide::parser::parse_program:
/// whether a source parses, and the reported error text, depend on the
/// source text alone; a lexical failure is told apart from a syntactic one.
/// The lexer aborts on a numeric run its number type cannot hold, so unsafe
/// numeric runs are excluded.
#[verifier::external_body]
pub fn parse_src(code: &[u8]) -> (r: Result<yoloxide::types::ast::program::Program, EngineError>)
    requires
        safe_number_runs(code@),
    ensures
        match r {
            Ok(_) => tok_err(code@) is None && parse_err(code@) is None,
            Err(e) => match e {
                EngineError::Lex(m) => tok_err(code@) == Some(m@),
                EngineError::Syntax(m) => tok_err(code@) is None && parse_err(code@) == Some(m@),
            },
        },
{
    let text = String::from_utf8_lossy(code).into_owned();
    let tokens = match yoloxide::tokenizer::tokenize(text) {
        Ok(t) => t,
        Err(e) => return Err(EngineError::Lex(e.into_bytes())),
    };
    let mut window = yoloxide::types::VecWindow::new(tokens, 0);
    match yoloxide::parser::parse_program(&mut window) {
        Ok(p) => Ok(p),
        Err(e) => Err(EngineError::Syntax(e.to_string().into_bytes())),
    }
}

/// Relies on the Display impl of yoloxide's Program: the reconstructed
/// source text of a parsed program.
#[verifier::external_body]
pub fn render_source(p: &yoloxide::types::ast::program::Program) -> (r: Vec<u8>) {
    format!("{}", p).into_bytes()
}

/// Relies on the Debug impl of yoloxide's Program.
#[verifier::external_body]
pub fn render_program_debug(p: &yoloxide::types::ast::program::Program) -> (r: Vec<u8>) {
    format!("{:?}", p).into_bytes()
}

/// What std's Debug formatting makes of a text: quoted, with specials
/// escaped. The rendering depends on the bytes alone.
pub uninterp spec fn debug_quoted(s: Seq<u8>) -> Seq<u8>;

/// Relies on std's Debug impl for str.
#[verifier::external_body]
pub fn debug_format_bytes(s: &[u8]) -> (r: Vec<u8>)
    ensures
        r@ == debug_quoted(s@),
{
    format!("{:?}", String::from_utf8_lossy(s)).into_bytes()
}

/// A failure while emitting the interchange AST from raw source: the lexer
/// or parser refused the source, or the serializer refused the converted
/// root. Each carries the reporting crate's own message bytes.
pub enum CylonEmitError {
    Lex(Vec<u8>),
    Syntax(Vec<u8>),
    Ser(Vec<u8>),
}

/// The source text that the engine re-emits for a source that parses. It
/// depends on the source bytes alone.
pub uninterp spec fn src_of(code: Seq<u8>) -> Seq<u8>;

/// The debug rendering of the program parsed from a source. It depends on
/// the source bytes alone.
pub uninterp spec fn ast_debug_of(code: Seq<u8>) -> Seq<u8>;

/// The debug rendering of the token stream of a source. It depends on the
/// source bytes alone.
pub uninterp spec fn tokens_debug_of(code: Seq<u8>) -> Seq<u8>;

/// The serialized interchange AST of a source that parses and converts. It
/// depends on the source bytes alone: a freshly converted root carries
/// fixed metadata.
pub uninterp spec fn cylon_json_of(code: Seq<u8>) -> Seq<u8>;

/// What serializing the converted root of a source yields: nothing on
/// success, the serializer's error text otherwise. Meaningful where the
/// source parses; it depends on the source bytes alone.
pub uninterp spec fn cylon_ser_err(code: Seq<u8>) -> Option<Seq<u8>>;

/// Relies on yoloxide::tokenizer::tokenize, yoloxide::parser::parse_program
/// and the Display impl of yoloxide's Program: the source a parsed program
/// re-emits depends on the source bytes alone.
#[verifier::external_body]
pub fn render_source_src(code: &[u8]) -> (r: Result<Vec<u8>, EngineError>)
    requires
        safe_number_runs(code@),
    ensures
        match r {
            Ok(v) => tok_err(code@) is None && parse_err(code@) is None && v@ == src_of(code@),
            Err(e) => match e {
                EngineError::Lex(m) => tok_err(code@) == Some(m@),
                EngineError::Syntax(m) => tok_err(code@) is None && parse_err(code@) == Some(m@),
            },
        },
{
    let text = String::from_utf8_lossy(code).into_owned();
    let tokens = match yoloxide::tokenizer::tokenize(text) {
        Ok(t) => t,
        Err(e) => return Err(EngineError::Lex(e.into_bytes())),
    };
    let mut window = yoloxide::types::VecWindow::new(tokens, 0);
    match yoloxide::parser::parse_program(&mut window) {
        Ok(p) => Ok(format!("{}", p).into_bytes()),
        Err(e) => Err(EngineError::Syntax(e.to_string().into_bytes())),
    }
}

/// Relies on yoloxide::tokenizer::tokenize, yoloxide::parser::parse_program
/// and the Debug impl of yoloxide's Program: the debug dump of a parsed
/// program depends on the source bytes alone.
#[verifier::external_body]
pub fn render_ast_debug_src(code: &[u8]) -> (r: Result<Vec<u8>, EngineError>)
    requires
        safe_number_runs(code@),
    ensures
        match r {
            Ok(v) => tok_err(code@) is None && parse_err(code@) is None && v@ == ast_debug_of(
                code@,
            ),
            Err(e) => match e {
                EngineError::Lex(m) => tok_err(code@) == Some(m@),
                EngineError::Syntax(m) => tok_err(code@) is None && parse_err(code@) == Some(m@),
            },
        },
{
    let text = String::from_utf8_lossy(code).into_owned();
    let tokens = match yoloxide::tokenizer::tokenize(text) {
        Ok(t) => t,
        Err(e) => return Err(EngineError::Lex(e.into_bytes())),
    };
    let mut window = yoloxide::types::VecWindow::new(tokens, 0);
    match yoloxide::parser::parse_program(&mut window) {
        Ok(p) => Ok(format!("{:?}", p).into_bytes()),
        Err(e) => Err(EngineError::Syntax(e.to_string().into_bytes())),
    }
}

/// Relies on yoloxide::tokenizer::tokenize and the Debug impl of yoloxide's
/// Token: the debug dump of the token stream depends on the source bytes
/// alone.
#[verifier::external_body]
pub fn render_tokens_src(code: &[u8]) -> (r: Result<Vec<u8>, Vec<u8>>)
    requires
        safe_number_runs(code@),
    ensures
        match r {
            Ok(v) => tok_err(code@) is None && v@ == tokens_debug_of(code@),
            Err(e) => tok_err(code@) == Some(e@),
        },
{
    let text = String::from_utf8_lossy(code).into_owned();
    match yoloxide::tokenizer::tokenize(text) {
        Ok(t) => Ok(format!("{:?}", t).into_bytes()),
        Err(e) => Err(e.into_bytes()),
    }
}

/// Relies on yoloxide::tokenizer::tokenize, yoloxide::parser::parse_program,
/// yoloxide's conversion into the interchange program, cylon_ast's
/// CylonRoot::new and serde_json::to_string: the serialized interchange AST
/// of a source depends on the source bytes alone. The conversion aborts on
/// a comment inside an `if` body, so such sources are excluded.
#[verifier::external_body]
pub fn cylon_json_src(code: &[u8]) -> (r: Result<Vec<u8>, CylonEmitError>)
    requires
        safe_number_runs(code@),
        comments_convertible(code@),
    ensures
        match r {
            Ok(v) => tok_err(code@) is None && parse_err(code@) is None && cylon_ser_err(code@)
                is None && v@ == cylon_json_of(code@),
            Err(e) => match e {
                CylonEmitError::Lex(m) => tok_err(code@) == Some(m@),
                CylonEmitError::Syntax(m) => tok_err(code@) is None && parse_err(code@) == Some(
                    m@,
                ),
                CylonEmitError::Ser(m) => tok_err(code@) is None && parse_err(code@) is None
                    && cylon_ser_err(code@) == Some(m@),
            },
        },
{
    let text = String::from_utf8_lossy(code).into_owned();
    let tokens = match yoloxide::tokenizer::tokenize(text) {
        Ok(t) => t,
        Err(e) => return Err(CylonEmitError::Lex(e.into_bytes())),
    };
    let mut window = yoloxide::types::VecWindow::new(tokens, 0);
    let prog = match yoloxide::parser::parse_program(&mut window) {
        Ok(p) => p,
        Err(e) => return Err(CylonEmitError::Syntax(e.to_string().into_bytes())),
    };
    let root = cylon_ast::CylonRoot::new(prog.into());
    match serde_json::to_string(&root) {
        Ok(out) => Ok(out.into_bytes()),
        Err(e) => Err(CylonEmitError::Ser(e.to_string().into_bytes())),
    }
}

/// Relies on yoloxide's TryFrom conversion of an interchange program into
/// its own program representation, whose error is a plain message.
#[verifier::external_body]
pub fn from_cylon(root: cylon_ast::CylonRoot) -> (r: Result<
    yoloxide::types::ast::program::Program,
    Vec<u8>,
>) {
    let conv: Result<yoloxide::types::ast::program::Program, String> = root.program.try_into();
    match conv {
        Ok(p) => Ok(p),
        Err(e) => Err(e.into_bytes()),
    }
}

/// Relies on serde_json::to_string over the interchange AST's Serialize
/// impl.
#[verifier::external_body]
pub fn cylon_to_json(root: &cylon_ast::CylonRoot) -> (r: Result<Vec<u8>, Vec<u8>>) {
    match serde_json::to_string(root) {
        Ok(s) => Ok(s.into_bytes()),
        Err(e) => Err(e.to_string().into_bytes()),
    }
}

/// Relies on serde_json::from_str over the interchange AST's Deserialize
/// impl: whether a text deserializes, and the error text otherwise, depend
/// on the text alone.
#[verifier::external_body]
pub fn cylon_from_json(text: &[u8]) -> (r: Result<cylon_ast::CylonRoot, Vec<u8>>)
    ensures
        match r {
            Ok(_) => cylon_json_err(text@) is None,
            Err(e) => cylon_json_err(text@) == Some(e@),
        },
{
    let text = String::from_utf8_lossy(text);
    match serde_json::from_str::<cylon_ast::CylonRoot>(&text) {
        Ok(root) => Ok(root),
        Err(e) => Err(e.to_string().into_bytes()),
    }
}

/// Relies on yoloxide's Environment::new.
#[verifier::external_body]
pub fn env_new(name: &[u8]) -> (r: yoloxide::environment::Environment) {
    yoloxide::environment::Environment::new(&String::from_utf8_lossy(name))
}

/// Relies on the public `next_line` field of yoloxide's Environment: the
/// 1-based line the interpreter will run next.
#[verifier::external_body]
pub fn env_next_line(env: &yoloxide::environment::Environment) -> (r: i64) {
    env.next_line
}

/// Relies on the public `next_line` field of yoloxide's Environment.
#[verifier::external_body]
pub fn env_set_next_line(env: &mut yoloxide::environment::Environment, line: i64) {
    env.next_line = line;
}

/// Relies on yoloxide::execute_line: runs one line against the environment,
/// which advances its own program counter. The call tokenizes the line, and
/// the lexer aborts on a numeric run its number type cannot hold, so unsafe
/// numeric runs are excluded.
#[verifier::external_body]
pub fn execute_line_step(env: &mut yoloxide::environment::Environment, line: &[u8])
    requires
        safe_number_runs(line@),
{
    yoloxide::execute_line(env, String::from_utf8_lossy(line).into_owned());
}

/// Relies on yoloxide's ContextMap::set_val for Environment: stores a string
/// value under a variable name.
#[verifier::external_body]
pub fn env_set_val(env: &mut yoloxide::environment::Environment, name: &[u8], value: &[u8]) {
    env.set_val(
        String::from_utf8_lossy(name).into_owned(),
        yoloxide::types::ast::value::LiteralValue::StringVal(
            String::from_utf8_lossy(value).into_owned(),
        ),
    );
}

/// Relies on the Display impl of yoloxide's Environment: the human-readable
/// rendering of its state.
#[verifier::external_body]
pub fn env_render(env: &yoloxide::environment::Environment) -> (r: Vec<u8>) {
    env.to_string().into_bytes()
}

/// Relies on std::time::Instant::now.
pub assume_specification[ std::time::Instant::now ]() -> (r: std::time::Instant)
;

/// Relies on std::time::Instant::elapsed.
pub assume_specification[ std::time::Instant::elapsed ](start: &std::time::Instant) -> (r:
    std::time::Duration)
;

/// Relies on std::time::Duration::as_nanos.
pub assume_specification[ std::time::Duration::as_nanos ](d: &std::time::Duration) -> (r: u128)
;

/// Relies on std::time::Duration::as_micros.
pub assume_specification[ std::time::Duration::as_micros ](d: &std::time::Duration) -> (r: u128)
;

/// Relies on std::time::Duration::as_millis.
pub assume_specification[ std::time::Duration::as_millis ](d: &std::time::Duration) -> (r: u128)
;

/// Relies on std::time::Duration::as_secs.
pub assume_specification[ std::time::Duration::as_secs ](d: &std::time::Duration) -> (r: u64)
;

} // verus!
