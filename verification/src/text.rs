//! Byte-level text primitives shared by the whole pipeline.
//!
//! All user-facing text is handled as UTF-8 bytes. The fixed fragments the
//! bot emits are ASCII, so their byte sequences are fully determined by the
//! corresponding string literals.

use vstd::prelude::*;

verus! {

/// Byte value of '`'.
pub const BACKTICK: u8 = 96;

/// Byte value of '\n'.
pub const NEWLINE: u8 = 10;

/// Byte value of ' '.
pub const SPACE: u8 = 32;

/// Byte value of '\r'.
pub const CARRIAGE_RETURN: u8 = 13;

/// The bytes of an ASCII string, character by character.
pub open spec fn ascii_seq(s: Seq<char>) -> Seq<u8> {
    Seq::new(s.len(), |i: int| s[i] as u8)
}

/// The bytes of an ASCII string literal.
pub fn lit(s: &str) -> (r: Vec<u8>)
    requires
        s.is_ascii(),
    ensures
        r@ == ascii_seq(s@),
{
    broadcast use vstd::string::is_ascii_spec_bytes;

    let r = s.as_bytes_vec();
    proof {
        assert(r@ =~= ascii_seq(s@));
    }
    r
}

/// Byte-wise equality of two byte slices.
pub fn bytes_eq(a: &[u8], b: &[u8]) -> (r: bool)
    ensures
        r <==> a@ == b@,
{
    if a.len() != b.len() {
        proof {
            assert(a@.len() != b@.len());
        }
        return false;
    }
    let n: usize = a.len();
    let mut i: usize = 0;
    while i < n
        invariant
            n == a@.len() && n == b@.len(),
            0 <= i <= n,
            forall|j: int| 0 <= j < i ==> a@[j] == b@[j],
        decreases n - i,
    {
        if a[i] != b[i] {
            return false;
        }
        i += 1;
    }
    proof {
        assert(a@ =~= b@);
    }
    true
}

/// Appends all of `src` to `dst`.
pub fn push_all(dst: &mut Vec<u8>, src: &[u8])
    ensures
        final(dst)@ == old(dst)@ + src@,
{
    let n: usize = src.len();
    let mut i: usize = 0;
    while i < n
        invariant
            n == src@.len(),
            0 <= i <= n,
            dst@ == old(dst)@ + src@.take(i as int),
        decreases n - i,
    {
        dst.push(src[i]);
        proof {
            assert(old(dst)@ + src@.take(i + 1) =~= (old(dst)@ + src@.take(i as int)).push(
                src@[i as int],
            ));
        }
        i += 1;
    }
    proof {
        assert(old(dst)@ + src@.take(n as int) =~= old(dst)@ + src@);
    }
}

/// `prefix`, then `mid`, then `suffix`, as one byte vector. The fixed
/// fragments must be ASCII so their bytes are exactly their characters.
pub fn wrap_text(prefix: &str, mid: &[u8], suffix: &str) -> (r: Vec<u8>)
    requires
        prefix.is_ascii(),
        suffix.is_ascii(),
    ensures
        r@ == ascii_seq(prefix@) + mid@ + ascii_seq(suffix@),
{
    let mut r = lit(prefix);
    push_all(&mut r, mid);
    let suf = lit(suffix);
    push_all(&mut r, suf.as_slice());
    r
}

/// Whether `b` is an ASCII decimal digit.
pub open spec fn is_digit(b: u8) -> bool {
    48 <= b <= 57
}

/// Whether every byte of `s` is an ASCII decimal digit.
pub open spec fn all_digits(s: Seq<u8>) -> bool {
    forall|i: int| 0 <= i < s.len() ==> is_digit(#[trigger] s[i])
}

/// The numeric value of a sequence of ASCII decimal digits.
pub open spec fn digits_value(s: Seq<u8>) -> nat
    decreases s.len(),
{
    if s.len() == 0 {
        0
    } else {
        digits_value(s.drop_last()) * 10 + (s.last() - 48) as nat
    }
}

/// The digit part of a decimal token: a single leading '+' is permitted.
pub open spec fn u32_token_digits(t: Seq<u8>) -> Seq<u8> {
    if t.len() > 0 && t[0] == 43 {
        t.skip(1)
    } else {
        t
    }
}

/// Whether `t` is accepted as an unsigned 32-bit decimal number: a non-empty
/// digit run, optionally preceded by '+', whose value fits in a `u32`.
pub open spec fn is_u32_token(t: Seq<u8>) -> bool {
    u32_token_digits(t).len() > 0 && all_digits(u32_token_digits(t)) && digits_value(
        u32_token_digits(t),
    ) <= u32::MAX
}

/// The value of a decimal token accepted by `is_u32_token`.
pub open spec fn u32_token_value(t: Seq<u8>) -> nat {
    digits_value(u32_token_digits(t))
}

/// The value of a digit prefix never exceeds the value of the whole run.
proof fn lemma_digits_value_prefix(s: Seq<u8>, k: int)
    requires
        0 <= k <= s.len(),
    ensures
        digits_value(s.take(k)) <= digits_value(s),
    decreases s.len(),
{
    if k < s.len() {
        assert(s.take(k) =~= s.drop_last().take(k));
        lemma_digits_value_prefix(s.drop_last(), k);
    } else {
        assert(s.take(k) =~= s);
    }
}

/// Parses a decimal `u32` token, exactly as `is_u32_token` describes.
pub fn parse_u32(t: &[u8]) -> (r: Option<u32>)
    ensures
        match r {
            Some(n) => is_u32_token(t@) && n == u32_token_value(t@),
            None => !is_u32_token(t@),
        },
{
    let mut start: usize = 0;
    if t.len() > 0 && t[0] == 43 {
        start = 1;
    }
    let ghost d = u32_token_digits(t@);
    proof {
        assert(d =~= t@.skip(start as int));
    }
    if start == t.len() {
        return None;
    }
    let n: usize = t.len();
    let mut acc: u64 = 0;
    let mut i: usize = start;
    while i < n
        invariant
            n == t@.len(),
            start <= i <= n,
            d == t@.skip(start as int),
            d == u32_token_digits(t@),
            d.len() == n - start,
            forall|j: int| start <= j < i ==> is_digit(#[trigger] t@[j]),
            acc == digits_value(d.take(i - start)),
            acc <= u32::MAX,
        decreases n - i,
    {
        let b = t[i];
        if b < 48 || b > 57 {
            proof {
                assert(d[i - start] == t@[i as int]);
                assert(!is_digit(d[i - start]));
                assert(!all_digits(d));
                assert(!is_u32_token(t@));
            }
            return None;
        }
        acc = acc * 10 + (b - 48) as u64;
        proof {
            let j = i + 1 - start;
            assert(d.take(j).drop_last() =~= d.take(i - start));
            assert(d.take(j).last() == t@[i as int]);
        }
        if acc > 0xFFFF_FFFF {
            proof {
                assert(digits_value(d.take(i + 1 - start)) == acc);
                lemma_digits_value_prefix(d, i + 1 - start);
                assert(digits_value(d) >= acc);
                assert(!is_u32_token(t@));
            }
            return None;
        }
        i += 1;
    }
    proof {
        assert(d.take(n - start) =~= d);
        assert(forall|j: int| 0 <= j < d.len() ==> d[j] == t@[start + j]);
    }
    Some(acc as u32)
}

/// The decimal digits of `n`, most significant first.
pub open spec fn dec_bytes(n: nat) -> Seq<u8>
    decreases n,
{
    if n < 10 {
        seq![(48 + n) as u8]
    } else {
        dec_bytes(n / 10).push((48 + n % 10) as u8)
    }
}

/// Renders `n` in decimal.
pub fn u128_to_dec(n: u128) -> (r: Vec<u8>)
    ensures
        r@ == dec_bytes(n as nat),
    decreases n,
{
    let d: u8 = (n % 10) as u8 + 48;
    if n < 10 {
        let mut v: Vec<u8> = Vec::new();
        v.push(d);
        proof {
            assert(v@ =~= dec_bytes(n as nat));
        }
        v
    } else {
        let mut v = u128_to_dec(n / 10);
        v.push(d);
        v
    }
}

/// Copies `s[a..b]` into a fresh vector.
pub fn copy_range(s: &[u8], a: usize, b: usize) -> (r: Vec<u8>)
    requires
        a <= b <= s@.len(),
    ensures
        r@ == s@.subrange(a as int, b as int),
{
    let mut r: Vec<u8> = Vec::new();
    let mut i: usize = a;
    while i < b
        invariant
            a <= i <= b <= s@.len(),
            r@ == s@.subrange(a as int, i as int),
        decreases b - i,
    {
        r.push(s[i]);
        proof {
            assert(s@.subrange(a as int, i + 1) =~= s@.subrange(a as int, i as int).push(
                s@[i as int],
            ));
        }
        i += 1;
    }
    r
}

/// A line with a trailing carriage return removed, as `str::lines` does.
pub open spec fn strip_cr(l: Seq<u8>) -> Seq<u8> {
    if l.len() > 0 && l.last() == CARRIAGE_RETURN {
        l.drop_last()
    } else {
        l
    }
}

/// The lines of `s[i..]`, given the bytes `cur` of the line begun before `i`:
/// lines are separated by '\n', each loses one trailing '\r', and a final
/// newline does not open an empty last line.
pub open spec fn lines_acc(s: Seq<u8>, i: int, cur: Seq<u8>) -> Seq<Seq<u8>>
    decreases s.len() - i,
{
    if i >= s.len() {
        if cur.len() == 0 {
            Seq::empty()
        } else {
            seq![strip_cr(cur)]
        }
    } else if s[i] == NEWLINE {
        seq![strip_cr(cur)] + lines_acc(s, i + 1, Seq::empty())
    } else {
        lines_acc(s, i + 1, cur.push(s[i]))
    }
}

/// The lines of `s`, as `str::lines` yields them.
pub open spec fn lines_of(s: Seq<u8>) -> Seq<Seq<u8>> {
    lines_acc(s, 0, Seq::empty())
}

/// The views of a sequence of byte vectors.
pub open spec fn vecs_view(v: Seq<Vec<u8>>) -> Seq<Seq<u8>> {
    Seq::new(v.len(), |k: int| v[k]@)
}

fn strip_cr_exec(l: Vec<u8>) -> (r: Vec<u8>)
    ensures
        r@ == strip_cr(l@),
{
    let mut l = l;
    if l.len() > 0 && l[l.len() - 1] == CARRIAGE_RETURN {
        l.pop();
    }
    l
}

/// Splits `src` into lines, exactly as `str::lines` does on the
/// corresponding text.
pub fn split_lines(src: &[u8]) -> (r: Vec<Vec<u8>>)
    ensures
        vecs_view(r@) == lines_of(src@),
{
    let ghost total = lines_of(src@);
    let mut out: Vec<Vec<u8>> = Vec::new();
    let mut cur: Vec<u8> = Vec::new();
    let mut i: usize = 0;
    proof {
        assert(vecs_view(out@) + lines_acc(src@, 0, cur@) =~= total);
    }
    while i < src.len()
        invariant
            0 <= i <= src@.len(),
            total == lines_of(src@),
            vecs_view(out@) + lines_acc(src@, i as int, cur@) == total,
        decreases src@.len() - i,
    {
        let b = src[i];
        if b == NEWLINE {
            let ghost old_out = out@;
            let ghost old_cur = cur@;
            let line = strip_cr_exec(cur);
            cur = Vec::new();
            out.push(line);
            proof {
                assert(vecs_view(out@) =~= vecs_view(old_out).push(strip_cr(old_cur)));
                assert(vecs_view(old_out) + lines_acc(src@, i as int, old_cur) =~= vecs_view(out@)
                    + lines_acc(src@, i + 1, cur@));
            }
        } else {
            cur.push(b);
        }
        i += 1;
    }
    if cur.len() > 0 {
        let ghost old_out = out@;
        let ghost old_cur = cur@;
        let line = strip_cr_exec(cur);
        out.push(line);
        proof {
            assert(vecs_view(out@) =~= vecs_view(old_out).push(strip_cr(old_cur)));
            assert(vecs_view(old_out) + lines_acc(src@, src@.len() as int, old_cur) =~= vecs_view(
                out@,
            ));
        }
    } else {
        proof {
            assert(vecs_view(out@) + lines_acc(src@, src@.len() as int, cur@) =~= vecs_view(out@));
        }
    }
    out
}

} // verus!
