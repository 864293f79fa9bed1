//! Pipeline configuration: the argument cursor, the flag table, and the
//! configuration parser.

use vstd::prelude::*;

use crate::text::{
    ascii_seq, bytes_eq, is_u32_token, lit, parse_u32, u32_token_value, vecs_view, NEWLINE, SPACE,
};

verus! {

/// Which form the payload is taken to be in.
#[derive(Debug, Clone, Copy, PartialEq, Eq, Structural)]
pub enum InputFlag {
    Yolol,
    CylonAst,
}

/// Which stage the pipeline runs.
#[derive(Debug, Clone, Copy, PartialEq, Eq, Structural)]
pub enum OutputFlag {
    Execution,
    Yolol,
    CylonAst,
    Ast,
    Tokens,
}

/// One invocation's immutable pipeline configuration.
#[derive(Debug, Clone, Copy, PartialEq, Eq, Structural)]
pub struct YololConfig {
    pub input: InputFlag,
    pub output: OutputFlag,
    pub time_execution: bool,
    pub num_ticks: u32,
}

/// The configuration before any flag is applied.
pub open spec fn default_config() -> YololConfig {
    YololConfig { input: InputFlag::Yolol, output: OutputFlag::Execution, time_execution: true, num_ticks: 1000u32 }
}

/// Whether `b` separates argument tokens.
pub open spec fn is_delim(b: u8) -> bool {
    b == SPACE || b == NEWLINE
}

/// The argument tokens of `s[i..]`, each with the index of its first byte,
/// given the token bytes `cur` begun at `cur_start` before `i`. Tokens are
/// the maximal non-empty runs between spaces and newlines.
pub open spec fn tokens_acc(s: Seq<u8>, i: int, cur: Seq<u8>, cur_start: int) -> Seq<(int, Seq<u8>)>
    decreases s.len() - i,
{
    if i >= s.len() {
        if cur.len() == 0 {
            Seq::empty()
        } else {
            seq![(cur_start, cur)]
        }
    } else if is_delim(s[i]) {
        if cur.len() == 0 {
            tokens_acc(s, i + 1, Seq::empty(), i + 1)
        } else {
            seq![(cur_start, cur)] + tokens_acc(s, i + 1, Seq::empty(), i + 1)
        }
    } else {
        tokens_acc(s, i + 1, cur.push(s[i]), if cur.len() == 0 { i } else { cur_start })
    }
}

/// The argument tokens of `s`, with their starting offsets.
pub open spec fn arg_tokens(s: Seq<u8>) -> Seq<(int, Seq<u8>)> {
    tokens_acc(s, 0, Seq::empty(), 0)
}

/// Splits a raw message into argument tokens, returning each token's
/// starting offset alongside its bytes.
pub fn split_args(msg: &[u8]) -> (r: (Vec<usize>, Vec<Vec<u8>>))
    ensures
        r.0@.len() == arg_tokens(msg@).len(),
        r.1@.len() == arg_tokens(msg@).len(),
        forall|k: int|
            0 <= k < r.0@.len() ==> #[trigger] r.0@[k] as int == arg_tokens(msg@)[k].0
                && r.1@[k]@ == arg_tokens(msg@)[k].1,
        forall|k: int| 0 <= k < r.0@.len() ==> #[trigger] r.0@[k] < msg@.len(),
{
    let ghost total = arg_tokens(msg@);
    let mut starts: Vec<usize> = Vec::new();
    let mut toks: Vec<Vec<u8>> = Vec::new();
    let ghost done: Seq<(int, Seq<u8>)> = Seq::empty();
    let mut done_v = Ghost(done);
    let mut cur: Vec<u8> = Vec::new();
    let mut cs: usize = 0;
    let mut i: usize = 0;
    proof {
        assert(done_v@ + tokens_acc(msg@, 0, cur@, 0) =~= total);
    }
    while i < msg.len()
        invariant
            0 <= i <= msg@.len(),
            cs <= i,
            cur@.len() > 0 ==> cs < i,
            total == arg_tokens(msg@),
            done_v@ + tokens_acc(msg@, i as int, cur@, cs as int) == total,
            starts@.len() == done_v@.len(),
            toks@.len() == done_v@.len(),
            forall|k: int|
                0 <= k < done_v@.len() ==> #[trigger] starts@[k] as int == done_v@[k].0
                    && toks@[k]@ == done_v@[k].1,
            forall|k: int| 0 <= k < done_v@.len() ==> #[trigger] starts@[k] < msg@.len(),
        decreases msg@.len() - i,
    {
        let b = msg[i];
        if b == SPACE || b == NEWLINE {
            if cur.len() > 0 {
                let ghost old_done = done_v@;
                proof {
                    done_v@ = done_v@.push((cs as int, cur@));
                    assert(old_done + tokens_acc(msg@, i as int, cur@, cs as int) =~= done_v@
                        + tokens_acc(msg@, i + 1, Seq::empty(), i + 1));
                }
                starts.push(cs);
                toks.push(cur);
                cur = Vec::new();
            } else {
                proof {
                    assert(tokens_acc(msg@, i as int, cur@, cs as int) =~= tokens_acc(
                        msg@,
                        i + 1,
                        Seq::empty(),
                        i + 1,
                    ));
                }
            }
            proof {
                assert(cur@ =~= Seq::<u8>::empty());
            }
            cs = i + 1;
        } else {
            let ghost pre = cur@;
            let ghost pre_cs = cs as int;
            if cur.len() == 0 {
                cs = i;
            }
            cur.push(b);
            proof {
                assert(tokens_acc(msg@, i as int, pre, pre_cs) =~= tokens_acc(
                    msg@,
                    i + 1,
                    cur@,
                    cs as int,
                ));
            }
        }
        i += 1;
    }
    if cur.len() > 0 {
        let ghost old_done = done_v@;
        proof {
            done_v@ = done_v@.push((cs as int, cur@));
            assert(old_done + tokens_acc(msg@, msg@.len() as int, cur@, cs as int) =~= done_v@);
        }
        starts.push(cs);
        toks.push(cur);
    } else {
        proof {
            assert(done_v@ + tokens_acc(msg@, msg@.len() as int, cur@, cs as int) =~= done_v@);
        }
    }
    (starts, toks)
}

/// A cursor over the argument tokens, as the parser consumes them.
pub struct ArgCursor {
    pub tokens: Vec<Vec<u8>>,
    pub pos: usize,
}

impl ArgCursor {
    /// The cursor never points past the end of the token list.
    pub open spec fn wf(self) -> bool {
        self.pos <= self.tokens@.len()
    }

    /// The token byte sequences.
    pub open spec fn toks(self) -> Seq<Seq<u8>> {
        vecs_view(self.tokens@)
    }

    /// A fresh cursor at the first of the given tokens.
    pub fn new(tokens: Vec<Vec<u8>>) -> (r: ArgCursor)
        ensures
            r.wf(),
            r.toks() == vecs_view(tokens@),
            r.pos == 0,
    {
        ArgCursor { tokens, pos: 0 }
    }
}

/// Whether `t` selects the interchange-AST input form.
pub open spec fn sets_input_cylon(t: Seq<u8>) -> bool {
    t == ascii_seq("--input=cylon_ast"@) || t == ascii_seq("-ic"@)
}

/// The output kind selected by `t`, if any.
pub open spec fn sets_output(t: Seq<u8>) -> Option<OutputFlag> {
    if t == ascii_seq("--output=yolol"@) || t == ascii_seq("--output=code"@) || t == ascii_seq(
        "-oy"@,
    ) {
        Some(OutputFlag::Yolol)
    } else if t == ascii_seq("--output=cylon_ast"@) || t == ascii_seq("-oc"@) {
        Some(OutputFlag::CylonAst)
    } else if t == ascii_seq("--output=ast"@) || t == ascii_seq("--output=parsed"@) || t
        == ascii_seq("-oa"@) {
        Some(OutputFlag::Ast)
    } else if t == ascii_seq("--output=tokens"@) || t == ascii_seq("-ot"@) {
        Some(OutputFlag::Tokens)
    } else {
        None
    }
}

/// The timing setting selected by `t`, if any.
pub open spec fn sets_timing(t: Seq<u8>) -> Option<bool> {
    if t == ascii_seq("--no-time-execution"@) || t == ascii_seq("-nte"@) {
        Some(false)
    } else if t == ascii_seq("--time-execution"@) || t == ascii_seq("-te"@) {
        Some(true)
    } else {
        None
    }
}

/// Whether `t` is the tick-budget flag, which consumes the next token too.
pub open spec fn is_ticks_flag(t: Seq<u8>) -> bool {
    t == ascii_seq("--ticks"@)
}

/// Whether `t` is any recognized flag token.
pub open spec fn recognized(t: Seq<u8>) -> bool {
    sets_input_cylon(t) || sets_output(t) is Some || sets_timing(t) is Some || is_ticks_flag(t)
}

/// The parser's error when the token stream runs out.
pub open spec fn msg_no_args() -> Seq<u8> {
    ascii_seq("Unable to get an argument! Might not have supplied any args..."@)
}

/// The parser's error when the tick count does not parse.
pub open spec fn msg_ticks_nan() -> Seq<u8> {
    ascii_seq(
        "Ticks were not specified in a way that could be turned into a u32! Please give a real number"@,
    )
}

/// The parser's error when nothing follows the tick-budget flag.
pub open spec fn msg_ticks_missing() -> Seq<u8> {
    ascii_seq(
        "Number of ticks not specified after `--ticks` argument! Use it like `--ticks 20`, which would run 20 ticks"@,
    )
}

/// What configuration parsing yields from `toks[i..]` starting from `c`:
/// either the finished configuration with the index of the first payload
/// token, or an error message. Recognized tokens apply in order; the first
/// unrecognized token stops parsing without error; running out of tokens,
/// or a missing or malformed tick count, is an error.
pub open spec fn parse_from(toks: Seq<Seq<u8>>, i: int, c: YololConfig) -> Result<
    (YololConfig, int),
    Seq<u8>,
>
    decreases toks.len() - i,
{
    if i < 0 || i >= toks.len() {
        Err(msg_no_args())
    } else if sets_input_cylon(toks[i]) {
        parse_from(toks, i + 1, YololConfig { input: InputFlag::CylonAst, ..c })
    } else if sets_output(toks[i]) is Some {
        parse_from(toks, i + 1, YololConfig { output: sets_output(toks[i])->0, ..c })
    } else if sets_timing(toks[i]) is Some {
        parse_from(toks, i + 1, YololConfig { time_execution: sets_timing(toks[i])->0, ..c })
    } else if is_ticks_flag(toks[i]) {
        if i + 1 >= toks.len() {
            Err(msg_ticks_missing())
        } else if !is_u32_token(toks[i + 1]) {
            Err(msg_ticks_nan())
        } else {
            parse_from(toks, i + 2, YololConfig { num_ticks: u32_token_value(toks[i + 1]) as u32, ..c })
        }
    } else {
        Ok((c, i))
    }
}

/// Compares a token against an ASCII flag literal.
fn tok_matches(t: &Vec<u8>, s: &str) -> (r: bool)
    requires
        s.is_ascii(),
    ensures
        r <==> t@ == ascii_seq(s@),
{
    let f = lit(s);
    bytes_eq(t.as_slice(), f.as_slice())
}

impl YololConfig {
    /// The configuration with all defaults: raw-source input, execution
    /// output, timing on, a budget of 1000 ticks.
    pub fn new() -> (r: Self)
        ensures
            r == default_config(),
    {
        YololConfig {
            input: InputFlag::Yolol,
            output: OutputFlag::Execution,
            time_execution: true,
            num_ticks: 1000,
        }
    }

    /// Consumes recognized flag tokens from the cursor and returns the
    /// resulting configuration, leaving the cursor on the first payload
    /// token; exactly as `parse_from` describes.
    #[verifier::loop_isolation(false)]
    pub fn parse_args(args: &mut ArgCursor) -> (r: Result<YololConfig, Vec<u8>>)
        requires
            old(args).wf(),
        ensures
            final(args).wf(),
            final(args).toks() == old(args).toks(),
            match parse_from(old(args).toks(), old(args).pos as int, default_config()) {
                Ok(p) => r matches Ok(c) && c == p.0 && final(args).pos as int == p.1,
                Err(m) => r matches Err(e) && e@ == m,
            },
    {
        proof {
            reveal_strlit("--input=cylon_ast");
            reveal_strlit("-ic");
            reveal_strlit("--output=yolol");
            reveal_strlit("--output=code");
            reveal_strlit("-oy");
            reveal_strlit("--output=cylon_ast");
            reveal_strlit("-oc");
            reveal_strlit("--output=ast");
            reveal_strlit("--output=parsed");
            reveal_strlit("-oa");
            reveal_strlit("--output=tokens");
            reveal_strlit("-ot");
            reveal_strlit("--no-time-execution");
            reveal_strlit("-nte");
            reveal_strlit("--time-execution");
            reveal_strlit("-te");
            reveal_strlit("--ticks");
            assert(("--input=cylon_ast").is_ascii());
            assert(("-ic").is_ascii());
            assert(("--output=yolol").is_ascii());
            assert(("--output=code").is_ascii());
            assert(("-oy").is_ascii());
            assert(("--output=cylon_ast").is_ascii());
            assert(("-oc").is_ascii());
            assert(("--output=ast").is_ascii());
            assert(("--output=parsed").is_ascii());
            assert(("-oa").is_ascii());
            assert(("--output=tokens").is_ascii());
            assert(("-ot").is_ascii());
            assert(("--no-time-execution").is_ascii());
            assert(("-nte").is_ascii());
            assert(("--time-execution").is_ascii());
            assert(("-te").is_ascii());
            assert(("--ticks").is_ascii());
        }
        let ghost toks0 = old(args).toks();
        let ghost pos0 = old(args).pos as int;
        let mut config = YololConfig::new();
        loop
            invariant
                args.wf(),
                args.toks() == toks0,
                parse_from(toks0, pos0, default_config()) == parse_from(
                    toks0,
                    args.pos as int,
                    config,
                ),
            decreases toks0.len() - args.pos + 1,
        {
            if args.pos >= args.tokens.len() {
                return Err(no_args_text());
            }
            let t = &args.tokens[args.pos];
            if tok_matches(t, "--input=cylon_ast") || tok_matches(t, "-ic") {
                config.input = InputFlag::CylonAst;
                args.pos = args.pos + 1;
            } else if tok_matches(t, "--output=yolol") || tok_matches(t, "--output=code")
                || tok_matches(t, "-oy") {
                config.output = OutputFlag::Yolol;
                args.pos = args.pos + 1;
            } else if tok_matches(t, "--output=cylon_ast") || tok_matches(t, "-oc") {
                config.output = OutputFlag::CylonAst;
                args.pos = args.pos + 1;
            } else if tok_matches(t, "--output=ast") || tok_matches(t, "--output=parsed")
                || tok_matches(t, "-oa") {
                config.output = OutputFlag::Ast;
                args.pos = args.pos + 1;
            } else if tok_matches(t, "--output=tokens") || tok_matches(t, "-ot") {
                config.output = OutputFlag::Tokens;
                args.pos = args.pos + 1;
            } else if tok_matches(t, "--no-time-execution") || tok_matches(t, "-nte") {
                config.time_execution = false;
                args.pos = args.pos + 1;
            } else if tok_matches(t, "--time-execution") || tok_matches(t, "-te") {
                config.time_execution = true;
                args.pos = args.pos + 1;
            } else if tok_matches(t, "--ticks") {
                if args.pos + 1 >= args.tokens.len() {
                    return Err(ticks_missing_text());
                }
                let num = &args.tokens[args.pos + 1];
                match parse_u32(num.as_slice()) {
                    Some(n) => {
                        config.num_ticks = n;
                        args.pos = args.pos + 2;
                    },
                    None => {
                        return Err(ticks_nan_text());
                    },
                }
            } else {
                return Ok(config);
            }
        }
    }
}

/// Whether every token of `toks` belongs to a recognized flag unit: simple
/// flags stand alone, the tick-budget flag is followed by a decimal count.
pub open spec fn all_recognized(toks: Seq<Seq<u8>>) -> bool
    decreases toks.len(),
{
    if toks.len() == 0 {
        true
    } else if sets_input_cylon(toks[0]) || sets_output(toks[0]) is Some || sets_timing(toks[0]) is Some {
        all_recognized(toks.skip(1))
    } else if is_ticks_flag(toks[0]) {
        toks.len() >= 2 && is_u32_token(toks[1]) && all_recognized(toks.skip(2))
    } else {
        false
    }
}

/// The configuration after the recognized flags of `toks` apply to `c`, in
/// order, each overriding whatever its category held before.
pub open spec fn apply_flags(c: YololConfig, toks: Seq<Seq<u8>>) -> YololConfig
    decreases toks.len(),
{
    if toks.len() == 0 {
        c
    } else if sets_input_cylon(toks[0]) {
        apply_flags(YololConfig { input: InputFlag::CylonAst, ..c }, toks.skip(1))
    } else if sets_output(toks[0]) is Some {
        apply_flags(YololConfig { output: sets_output(toks[0])->0, ..c }, toks.skip(1))
    } else if sets_timing(toks[0]) is Some {
        apply_flags(YololConfig { time_execution: sets_timing(toks[0])->0, ..c }, toks.skip(1))
    } else if is_ticks_flag(toks[0]) && toks.len() >= 2 {
        apply_flags(YololConfig { num_ticks: u32_token_value(toks[1]) as u32, ..c }, toks.skip(2))
    } else {
        c
    }
}

/// Law: a stream of recognized flag tokens, stopped by an unrecognized
/// token, parses without error; every given flag's effect is applied
/// exactly once, in order, and parsing stops exactly at the stopper.
pub proof fn lemma_parse_recognized(toks: Seq<Seq<u8>>, i: int, j: int, c: YololConfig)
    requires
        0 <= i <= j < toks.len(),
        all_recognized(toks.subrange(i, j)),
        !recognized(toks[j]),
    ensures
        parse_from(toks, i, c) == Ok::<(YololConfig, int), Seq<u8>>(
            (apply_flags(c, toks.subrange(i, j)), j),
        ),
    decreases j - i,
{
    let f = toks.subrange(i, j);
    if i == j {
        assert(f.len() == 0);
    } else {
        assert(f[0] == toks[i]);
        if sets_input_cylon(toks[i]) {
            assert(f.skip(1) =~= toks.subrange(i + 1, j));
            lemma_parse_recognized(toks, i + 1, j, YololConfig { input: InputFlag::CylonAst, ..c });
        } else if sets_output(toks[i]) is Some {
            assert(f.skip(1) =~= toks.subrange(i + 1, j));
            lemma_parse_recognized(
                toks,
                i + 1,
                j,
                YololConfig { output: sets_output(toks[i])->0, ..c },
            );
        } else if sets_timing(toks[i]) is Some {
            assert(f.skip(1) =~= toks.subrange(i + 1, j));
            lemma_parse_recognized(
                toks,
                i + 1,
                j,
                YololConfig { time_execution: sets_timing(toks[i])->0, ..c },
            );
        } else {
            assert(is_ticks_flag(toks[i]));
            assert(f.len() >= 2 && is_u32_token(f[1]));
            assert(f[1] == toks[i + 1]);
            assert(f.skip(2) =~= toks.subrange(i + 2, j));
            lemma_parse_recognized(
                toks,
                i + 2,
                j,
                YololConfig { num_ticks: u32_token_value(toks[i + 1]) as u32, ..c },
            );
        }
    }
}

/// Law: applying two recognized flag streams in sequence equals applying
/// the first, then the second; so whatever a later flag sets stands,
/// whatever earlier flags of its category set.
pub proof fn lemma_apply_flags_append(c: YololConfig, a: Seq<Seq<u8>>, b: Seq<Seq<u8>>)
    requires
        all_recognized(a),
    ensures
        apply_flags(c, a + b) == apply_flags(apply_flags(c, a), b),
    decreases a.len(),
{
    if a.len() == 0 {
        assert(a + b =~= b);
    } else {
        assert((a + b)[0] == a[0]);
        if sets_input_cylon(a[0]) {
            assert((a + b).skip(1) =~= a.skip(1) + b);
            lemma_apply_flags_append(YololConfig { input: InputFlag::CylonAst, ..c }, a.skip(1), b);
        } else if sets_output(a[0]) is Some {
            assert((a + b).skip(1) =~= a.skip(1) + b);
            lemma_apply_flags_append(
                YololConfig { output: sets_output(a[0])->0, ..c },
                a.skip(1),
                b,
            );
        } else if sets_timing(a[0]) is Some {
            assert((a + b).skip(1) =~= a.skip(1) + b);
            lemma_apply_flags_append(
                YololConfig { time_execution: sets_timing(a[0])->0, ..c },
                a.skip(1),
                b,
            );
        } else {
            assert(is_ticks_flag(a[0]) && a.len() >= 2);
            assert((a + b)[1] == a[1]);
            assert((a + b).skip(2) =~= a.skip(2) + b);
            lemma_apply_flags_append(
                YololConfig { num_ticks: u32_token_value(a[1]) as u32, ..c },
                a.skip(2),
                b,
            );
        }
    }
}

/// No token that selects an output kind is an input-form token.
proof fn lemma_output_not_input(t: Seq<u8>, o: OutputFlag)
    requires
        sets_output(t) == Some(o),
    ensures
        !sets_input_cylon(t),
{
    reveal_strlit("--input=cylon_ast");
    reveal_strlit("-ic");
    reveal_strlit("--output=yolol");
    reveal_strlit("--output=code");
    reveal_strlit("-oy");
    reveal_strlit("--output=cylon_ast");
    reveal_strlit("-oc");
    reveal_strlit("--output=ast");
    reveal_strlit("--output=parsed");
    reveal_strlit("-oa");
    reveal_strlit("--output=tokens");
    reveal_strlit("-ot");
    assert(ascii_seq("--input=cylon_ast"@).len() == 17);
    assert(ascii_seq("-ic"@).len() == 3);
    assert(ascii_seq("--output=yolol"@).len() == 14);
    assert(ascii_seq("--output=code"@).len() == 13);
    assert(ascii_seq("-oy"@).len() == 3);
    assert(ascii_seq("--output=cylon_ast"@).len() == 18);
    assert(ascii_seq("-oc"@).len() == 3);
    assert(ascii_seq("--output=ast"@).len() == 12);
    assert(ascii_seq("--output=parsed"@).len() == 15);
    assert(ascii_seq("-oa"@).len() == 3);
    assert(ascii_seq("--output=tokens"@).len() == 15);
    assert(ascii_seq("-ot"@).len() == 3);
    assert(ascii_seq("-oy"@)[1] != ascii_seq("-ic"@)[1]);
    assert(ascii_seq("-oc"@)[1] != ascii_seq("-ic"@)[1]);
    assert(ascii_seq("-oa"@)[1] != ascii_seq("-ic"@)[1]);
    assert(ascii_seq("-ot"@)[1] != ascii_seq("-ic"@)[1]);
}

/// Law: the last output flag of a recognized flag stream decides the
/// output kind, whatever output flags came before it.
pub proof fn lemma_last_output_flag_wins(
    c: YololConfig,
    flags: Seq<Seq<u8>>,
    t: Seq<u8>,
    o: OutputFlag,
)
    requires
        all_recognized(flags),
        sets_output(t) == Some(o),
    ensures
        apply_flags(c, flags.push(t)).output == o,
{
    assert(flags.push(t) =~= flags + seq![t]);
    lemma_apply_flags_append(c, flags, seq![t]);
    let c2 = apply_flags(c, flags);
    lemma_output_not_input(t, o);
    assert(seq![t][0] == t);
    assert(seq![t].skip(1) =~= Seq::<Seq<u8>>::empty());
    let c3 = YololConfig { output: o, ..c2 };
    assert(apply_flags(c2, seq![t]) == apply_flags(c3, seq![t].skip(1)));
    assert(apply_flags(c3, seq![t].skip(1)) == c3);
}

/// The out-of-arguments error text.
pub fn no_args_text() -> (r: Vec<u8>)
    ensures
        r@ == msg_no_args(),
{
    proof {
        reveal_strlit("Unable to get an argument! Might not have supplied any args...");
        assert(("Unable to get an argument! Might not have supplied any args...").is_ascii());
    }
    lit("Unable to get an argument! Might not have supplied any args...")
}

/// The malformed-tick-count error text.
pub fn ticks_nan_text() -> (r: Vec<u8>)
    ensures
        r@ == msg_ticks_nan(),
{
    proof {
        reveal_strlit(
            "Ticks were not specified in a way that could be turned into a u32! Please give a real number",
        );
        assert(
            ("Ticks were not specified in a way that could be turned into a u32! Please give a real number").is_ascii()
        );
    }
    lit("Ticks were not specified in a way that could be turned into a u32! Please give a real number")
}

/// The missing-tick-count error text.
pub fn ticks_missing_text() -> (r: Vec<u8>)
    ensures
        r@ == msg_ticks_missing(),
{
    proof {
        reveal_strlit(
            "Number of ticks not specified after `--ticks` argument! Use it like `--ticks 20`, which would run 20 ticks",
        );
        assert(
            ("Number of ticks not specified after `--ticks` argument! Use it like `--ticks 20`, which would run 20 ticks").is_ascii()
        );
    }
    lit("Number of ticks not specified after `--ticks` argument! Use it like `--ticks 20`, which would run 20 ticks")
}

} // verus!
