//! Source safety scan. The engine's lexer aborts the process on a numeric
//! literal it cannot represent, and the interchange conversion aborts on a
//! comment inside an `if` body; the pipeline must refuse such sources with
//! an error reply instead. This module scans the raw bytes the way the
//! lexer walks them — skipping comments, identifiers, data fields and
//! strings — and judges every numeric run and every comment position.

use vstd::prelude::*;

use crate::text::{is_digit, NEWLINE};

verus! {

/// Byte value of '/'.
pub const SLASH: u8 = 47;

/// Byte value of '"'.
pub const QUOTE: u8 = 34;

/// Byte value of ':'.
pub const COLON: u8 = 58;

/// Byte value of '.'.
pub const DOT: u8 = 46;

/// Byte value of '0'.
pub const ZERO: u8 = 48;

/// Whether `b` can begin an identifier: a letter or an underscore.
pub open spec fn is_ident_start(b: u8) -> bool {
    b == 95 || (65 <= b <= 90) || (97 <= b <= 122)
}

/// Whether `b` can continue an identifier: a letter, digit or underscore.
pub open spec fn is_ident_char(b: u8) -> bool {
    is_ident_start(b) || is_digit(b)
}

/// Whether `b` is a printable ASCII byte, as a string literal may hold.
pub open spec fn is_printable(b: u8) -> bool {
    32 <= b <= 126
}

/// The number of dots in `run[i..]`.
pub open spec fn dots_from(run: Seq<u8>, i: int) -> int
    decreases run.len() - i,
{
    if i < 0 || i >= run.len() {
        0
    } else {
        (if run[i] == DOT {
            1int
        } else {
            0int
        }) + dots_from(run, i + 1)
    }
}

/// The first position at or after `i` holding a dot, or the end.
pub open spec fn dot_or_end(run: Seq<u8>, i: int) -> int
    decreases run.len() - i,
{
    if i < 0 || i >= run.len() || run[i] == DOT {
        i
    } else {
        dot_or_end(run, i + 1)
    }
}

/// The first position at or after `i` not holding a '0', or the end.
pub open spec fn nonzero_or_end(run: Seq<u8>, i: int) -> int
    decreases run.len() - i,
{
    if i < 0 || i >= run.len() || run[i] != ZERO {
        i
    } else {
        nonzero_or_end(run, i + 1)
    }
}

/// Whether the engine's number parser accepts a numeric run (digits and
/// dots, beginning with a digit) without aborting: at most one dot, and at
/// most 35 significant digits before it, so that the whole part both parses
/// and survives the fixed-point shift.
pub open spec fn num_run_safe(run: Seq<u8>) -> bool {
    dots_from(run, 0) <= 1 && dot_or_end(run, 0) <= nonzero_or_end(run, 0) + 35
}

/// Whether a two-byte identifier spells the `if` keyword, in any case.
pub open spec fn is_if_word(run: Seq<u8>) -> bool {
    run.len() == 2 && (run[0] == 105 || run[0] == 73) && (run[1] == 102 || run[1] == 70)
}

/// Where the scan stands: between tokens, inside a comment, an identifier,
/// a data field, a string, or a numeric run.
#[derive(Debug, Clone, Copy, PartialEq, Eq, Structural)]
pub enum ScanMode {
    Top,
    Comment,
    Ident,
    DataIdent,
    Str,
    Num,
}

/// What the scan concluded: whether every numeric run is safe, and whether
/// no comment can reach the interchange conversion inside an `if` body.
pub struct ScanVerdict {
    pub numbers_ok: bool,
    pub comments_ok: bool,
}

/// The rank that lets a mode fall back to `Top` at the same position.
pub open spec fn mode_rank(mode: ScanMode) -> int {
    if mode == ScanMode::Top {
        0
    } else {
        1
    }
}

/// The scan of `s[i..]` in `mode`, with the bytes `run` of the identifier
/// or numeric run begun before `i`, and `armed` whether an `if` word has
/// appeared since the last bare newline (a newline inside a comment is
/// swallowed by the lexer and does not end the logical line).
pub open spec fn scan_from(s: Seq<u8>, i: int, mode: ScanMode, run: Seq<u8>, armed: bool) -> ScanVerdict
    decreases s.len() - i, mode_rank(mode),
{
    if i < 0 || i >= s.len() {
        ScanVerdict { numbers_ok: !(mode == ScanMode::Num) || num_run_safe(run), comments_ok: true }
    } else {
        let b = s[i];
        match mode {
            ScanMode::Top => {
                if b == SLASH && i + 1 < s.len() && s[i + 1] == SLASH {
                    let rest = scan_from(s, i + 2, ScanMode::Comment, Seq::empty(), armed);
                    ScanVerdict {
                        numbers_ok: rest.numbers_ok,
                        comments_ok: !armed && rest.comments_ok,
                    }
                } else if is_ident_start(b) {
                    scan_from(s, i + 1, ScanMode::Ident, seq![b], armed)
                } else if b == COLON && i + 1 < s.len() && is_ident_char(s[i + 1]) {
                    scan_from(s, i + 1, ScanMode::DataIdent, Seq::empty(), armed)
                } else if b == QUOTE && i + 1 < s.len() && is_printable(s[i + 1]) {
                    scan_from(s, i + 1, ScanMode::Str, Seq::empty(), armed)
                } else if is_digit(b) {
                    scan_from(s, i + 1, ScanMode::Num, seq![b], armed)
                } else if b == NEWLINE {
                    scan_from(s, i + 1, ScanMode::Top, Seq::empty(), false)
                } else {
                    scan_from(s, i + 1, ScanMode::Top, Seq::empty(), armed)
                }
            },
            ScanMode::Comment => {
                if b == NEWLINE {
                    scan_from(s, i + 1, ScanMode::Top, Seq::empty(), armed)
                } else {
                    scan_from(s, i + 1, ScanMode::Comment, Seq::empty(), armed)
                }
            },
            ScanMode::Ident => {
                if is_ident_char(b) {
                    scan_from(s, i + 1, ScanMode::Ident, run.push(b), armed)
                } else {
                    scan_from(s, i, ScanMode::Top, Seq::empty(), armed || is_if_word(run))
                }
            },
            ScanMode::DataIdent => {
                if is_ident_char(b) {
                    scan_from(s, i + 1, ScanMode::DataIdent, Seq::empty(), armed)
                } else {
                    scan_from(s, i, ScanMode::Top, Seq::empty(), armed)
                }
            },
            ScanMode::Str => {
                if b == QUOTE {
                    scan_from(s, i + 1, ScanMode::Top, Seq::empty(), armed)
                } else if is_printable(b) {
                    scan_from(s, i + 1, ScanMode::Str, Seq::empty(), armed)
                } else {
                    scan_from(s, i, ScanMode::Top, Seq::empty(), armed)
                }
            },
            ScanMode::Num => {
                if is_digit(b) || b == DOT {
                    scan_from(s, i + 1, ScanMode::Num, run.push(b), armed)
                } else {
                    let rest = scan_from(s, i, ScanMode::Top, Seq::empty(), armed);
                    ScanVerdict {
                        numbers_ok: num_run_safe(run) && rest.numbers_ok,
                        comments_ok: rest.comments_ok,
                    }
                }
            },
        }
    }
}

/// The scan of a whole source text.
pub open spec fn source_scan(s: Seq<u8>) -> ScanVerdict {
    scan_from(s, 0, ScanMode::Top, Seq::empty(), false)
}

/// Whether every numeric run of the source is one the engine's lexer can
/// absorb without aborting.
pub open spec fn safe_number_runs(s: Seq<u8>) -> bool {
    source_scan(s).numbers_ok
}

/// Whether no comment of the source can reach the interchange conversion
/// inside an `if` body.
pub open spec fn comments_convertible(s: Seq<u8>) -> bool {
    source_scan(s).comments_ok
}

/// Judges one numeric run, exactly as `num_run_safe` does.
fn num_run_ok(run: &[u8]) -> (r: bool)
    ensures
        r == num_run_safe(run@),
{
    let n: usize = run.len();
    let mut dots: usize = 0;
    let mut i: usize = 0;
    while i < n
        invariant
            0 <= i <= n,
            n == run@.len(),
            dots <= i,
            dots + dots_from(run@, i as int) == dots_from(run@, 0),
        decreases n - i,
    {
        if run[i] == DOT {
            dots += 1;
        }
        i += 1;
    }
    let mut j: usize = 0;
    while j < n && run[j] != DOT
        invariant
            0 <= j <= n,
            n == run@.len(),
            dot_or_end(run@, 0) == dot_or_end(run@, j as int),
        decreases n - j,
    {
        j += 1;
    }
    let mut k: usize = 0;
    while k < n && run[k] == ZERO
        invariant
            0 <= k <= n,
            n == run@.len(),
            nonzero_or_end(run@, 0) == nonzero_or_end(run@, k as int),
        decreases n - k,
    {
        k += 1;
    }
    dots <= 1 && (j <= k || j - k <= 35)
}

/// Scans a source text and returns whether its numeric runs are safe and
/// whether its comments stay clear of `if` bodies, exactly as `source_scan`
/// concludes.
pub fn scan_source(s: &[u8]) -> (r: (bool, bool))
    ensures
        r.0 == safe_number_runs(s@),
        r.1 == comments_convertible(s@),
{
    let n: usize = s.len();
    let mut i: usize = 0;
    let mut mode = ScanMode::Top;
    let mut run: Vec<u8> = Vec::new();
    let mut armed = false;
    let mut num_ok = true;
    let mut com_ok = true;
    while i < n
        invariant
            0 <= i <= n,
            n == s@.len(),
            source_scan(s@).numbers_ok == (num_ok && scan_from(
                s@,
                i as int,
                mode,
                run@,
                armed,
            ).numbers_ok),
            source_scan(s@).comments_ok == (com_ok && scan_from(
                s@,
                i as int,
                mode,
                run@,
                armed,
            ).comments_ok),
            !(mode == ScanMode::Ident) && !(mode == ScanMode::Num) ==> run@ == Seq::<u8>::empty(),
        decreases n - i, mode_rank(mode),
    {
        let b = s[i];
        let ghost pre_run = run@;
        match mode {
            ScanMode::Top => {
                if b == SLASH && i + 1 < n && s[i + 1] == SLASH {
                    com_ok = com_ok && !armed;
                    mode = ScanMode::Comment;
                    i += 2;
                } else if b == 95 || (65 <= b && b <= 90) || (97 <= b && b <= 122) {
                    mode = ScanMode::Ident;
                    run.push(b);
                    proof {
                        assert(run@ =~= seq![b]);
                    }
                    i += 1;
                } else if b == COLON && i + 1 < n && (s[i + 1] == 95 || (65 <= s[i + 1] && s[i + 1]
                    <= 90) || (97 <= s[i + 1] && s[i + 1] <= 122) || (48 <= s[i + 1] && s[i + 1]
                    <= 57)) {
                    mode = ScanMode::DataIdent;
                    i += 1;
                } else if b == QUOTE && i + 1 < n && 32 <= s[i + 1] && s[i + 1] <= 126 {
                    mode = ScanMode::Str;
                    i += 1;
                } else if 48 <= b && b <= 57 {
                    mode = ScanMode::Num;
                    run.push(b);
                    proof {
                        assert(run@ =~= seq![b]);
                    }
                    i += 1;
                } else if b == NEWLINE {
                    armed = false;
                    i += 1;
                } else {
                    i += 1;
                }
            },
            ScanMode::Comment => {
                if b == NEWLINE {
                    mode = ScanMode::Top;
                }
                i += 1;
            },
            ScanMode::Ident => {
                if b == 95 || (65 <= b && b <= 90) || (97 <= b && b <= 122) || (48 <= b && b
                    <= 57) {
                    run.push(b);
                    i += 1;
                } else {
                    let iff = run.len() == 2 && (run[0] == 105 || run[0] == 73) && (run[1] == 102
                        || run[1] == 70);
                    armed = armed || iff;
                    run = Vec::new();
                    mode = ScanMode::Top;
                    proof {
                        assert(run@ =~= Seq::<u8>::empty());
                    }
                }
            },
            ScanMode::DataIdent => {
                if b == 95 || (65 <= b && b <= 90) || (97 <= b && b <= 122) || (48 <= b && b
                    <= 57) {
                    i += 1;
                } else {
                    mode = ScanMode::Top;
                }
            },
            ScanMode::Str => {
                if b == QUOTE {
                    mode = ScanMode::Top;
                    i += 1;
                } else if 32 <= b && b <= 126 {
                    i += 1;
                } else {
                    mode = ScanMode::Top;
                }
            },
            ScanMode::Num => {
                if (48 <= b && b <= 57) || b == DOT {
                    run.push(b);
                    i += 1;
                } else {
                    let ok = num_run_ok(run.as_slice());
                    num_ok = num_ok && ok;
                    run = Vec::new();
                    mode = ScanMode::Top;
                    proof {
                        assert(run@ =~= Seq::<u8>::empty());
                    }
                }
            },
        }
    }
    if matches!(mode, ScanMode::Num) {
        let ok = num_run_ok(run.as_slice());
        num_ok = num_ok && ok;
    }
    (num_ok, com_ok)
}

} // verus!
