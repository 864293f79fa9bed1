//! Code extraction: recognizing a fenced code block and returning its body.
//!
//! The accepted shape is: any leading newlines, an opening triple-backtick
//! fence with an optional lowercase language tag ended by a newline, the
//! body, and a closing triple-backtick fence that ends the text. The body is
//! everything between the opening fence line and the final three backticks.

use vstd::prelude::*;

use crate::text::{ascii_seq, copy_range, lit, BACKTICK, NEWLINE};

verus! {

/// Whether `b` is a lowercase ASCII letter, as a language tag is made of.
pub open spec fn is_lower(b: u8) -> bool {
    97 <= b <= 122
}

/// The first position at or after `i` that does not hold a newline.
pub open spec fn skip_newlines(s: Seq<u8>, i: int) -> int
    decreases s.len() - i,
{
    if 0 <= i < s.len() && s[i] == NEWLINE {
        skip_newlines(s, i + 1)
    } else {
        i
    }
}

/// The first position at or after `i` that does not hold a lowercase letter.
pub open spec fn lang_end(s: Seq<u8>, i: int) -> int
    decreases s.len() - i,
{
    if 0 <= i < s.len() && is_lower(s[i]) {
        lang_end(s, i + 1)
    } else {
        i
    }
}

proof fn lemma_skip_newlines_bounds(s: Seq<u8>, i: int)
    requires
        0 <= i <= s.len(),
    ensures
        i <= skip_newlines(s, i) <= s.len(),
    decreases s.len() - i,
{
    if i < s.len() && s[i] == NEWLINE {
        lemma_skip_newlines_bounds(s, i + 1);
    }
}

proof fn lemma_lang_end_bounds(s: Seq<u8>, i: int)
    requires
        0 <= i <= s.len(),
    ensures
        i <= lang_end(s, i) <= s.len(),
    decreases s.len() - i,
{
    if i < s.len() && is_lower(s[i]) {
        lemma_lang_end_bounds(s, i + 1);
    }
}

/// The three bytes of a fence.
pub open spec fn fence_bytes() -> Seq<u8> {
    ascii_seq("```"@)
}

/// The body of `s` if `s` is a fenced code block, and nothing otherwise:
/// after any leading newlines an opening fence must stand, optionally
/// followed by a lowercase language tag ended by a newline; the text must
/// end with a closing fence; the body is what lies between.
pub open spec fn extract_spec(s: Seq<u8>) -> Option<Seq<u8>> {
    let i = skip_newlines(s, 0);
    if i + 3 <= s.len() && s.subrange(i, i + 3) == fence_bytes() {
        let j = lang_end(s, i + 3);
        let b = if j < s.len() && s[j] == NEWLINE {
            j + 1
        } else {
            i + 3
        };
        let t = s.subrange(b, s.len() as int);
        if t.len() >= 3 && t.subrange(t.len() - 3, t.len() as int) == fence_bytes() {
            Some(t.subrange(0, t.len() - 3))
        } else {
            None
        }
    } else {
        None
    }
}

/// The error text shown when the payload is not a fenced code block.
pub open spec fn msg_not_code_block() -> Seq<u8> {
    ascii_seq(
        "Your supplied code isn't properly put into a code block. Be sure to surround it with triple backticks!"@,
    )
}

/// The not-a-code-block error text.
pub fn fence_error_text() -> (r: Vec<u8>)
    ensures
        r@ == msg_not_code_block(),
{
    proof {
        reveal_strlit(
            "Your supplied code isn't properly put into a code block. Be sure to surround it with triple backticks!",
        );
        assert(
            ("Your supplied code isn't properly put into a code block. Be sure to surround it with triple backticks!").is_ascii()
        );
    }
    lit(
        "Your supplied code isn't properly put into a code block. Be sure to surround it with triple backticks!",
    )
}

/// Extracts the body of a fenced code block, exactly as `extract_spec`
/// describes, and otherwise reports that the payload is not a code block.
#[verifier::loop_isolation(false)]
pub fn extract_input(input: &[u8]) -> (r: Result<Vec<u8>, Vec<u8>>)
    ensures
        match extract_spec(input@) {
            Some(body) => r matches Ok(v) && v@ == body,
            None => r matches Err(e) && e@ == msg_not_code_block(),
        },
{
    proof {
        reveal_strlit("```");
        lemma_skip_newlines_bounds(input@, 0);
    }
    let n: usize = input.len();
    let mut i: usize = 0;
    while i < n && input[i] == NEWLINE
        invariant
            0 <= i <= n,
            skip_newlines(input@, 0) == skip_newlines(input@, i as int),
        decreases n - i,
    {
        i += 1;
    }
    let ghost i0 = skip_newlines(input@, 0);
    proof {
        assert(i0 == i);
    }
    if n - i < 3 || input[i] != BACKTICK || input[i + 1] != BACKTICK || input[i + 2] != BACKTICK {
        proof {
            if i0 + 3 <= input@.len() {
                assert(input@.subrange(i0, i0 + 3)[0] == input@[i0]);
                assert(input@.subrange(i0, i0 + 3)[1] == input@[i0 + 1]);
                assert(input@.subrange(i0, i0 + 3)[2] == input@[i0 + 2]);
                assert(fence_bytes()[0] == BACKTICK);
            }
        }
        return Err(fence_error_text());
    }
    proof {
        assert(input@.subrange(i0, i0 + 3) =~= fence_bytes());
        lemma_lang_end_bounds(input@, i0 + 3);
    }
    let mut j: usize = i + 3;
    while j < n && 97 <= input[j] && input[j] <= 122
        invariant
            i + 3 <= j <= n,
            lang_end(input@, i0 + 3) == lang_end(input@, j as int),
        decreases n - j,
    {
        j += 1;
    }
    proof {
        assert(lang_end(input@, i0 + 3) == j);
    }
    let b: usize = if j < n && input[j] == NEWLINE {
        j + 1
    } else {
        i + 3
    };
    let ghost t = input@.subrange(b as int, n as int);
    if n - b < 3 {
        return Err(fence_error_text());
    }
    if input[n - 3] != BACKTICK || input[n - 2] != BACKTICK || input[n - 1] != BACKTICK {
        proof {
            assert(t.subrange(t.len() - 3, t.len() as int)[0] == input@[n - 3]);
            assert(t.subrange(t.len() - 3, t.len() as int)[1] == input@[n - 2]);
            assert(t.subrange(t.len() - 3, t.len() as int)[2] == input@[n - 1]);
        }
        return Err(fence_error_text());
    }
    proof {
        assert(t.subrange(t.len() - 3, t.len() as int) =~= fence_bytes());
    }
    let body = copy_range(input, b, n - 3);
    proof {
        assert(body@ =~= t.subrange(0, t.len() - 3));
    }
    Ok(body)
}

/// Whether `s` holds a backtick anywhere.
pub open spec fn has_backtick(s: Seq<u8>) -> bool {
    exists|k: int| 0 <= k < s.len() && s[k] == BACKTICK
}

/// Scans for a backtick.
pub fn contains_backtick(s: &[u8]) -> (r: bool)
    ensures
        r == has_backtick(s@),
{
    let n: usize = s.len();
    let mut i: usize = 0;
    while i < n
        invariant
            0 <= i <= n,
            n == s@.len(),
            forall|j: int| 0 <= j < i ==> s@[j] != BACKTICK,
        decreases n - i,
    {
        if s[i] == BACKTICK {
            return true;
        }
        i += 1;
    }
    false
}

/// Law: wrapping any body in an opening fence line and a closing fence and
/// extracting returns exactly that body.
pub proof fn lemma_fence_round_trip(body: Seq<u8>)
    ensures
        extract_spec(ascii_seq("```\n"@) + body + ascii_seq("```"@)) == Some(body),
{
    reveal_strlit("```\n");
    reveal_strlit("```");
    let open = ascii_seq("```\n"@);
    let close = ascii_seq("```"@);
    let w = open + body + close;
    assert(open.len() == 4);
    assert(close.len() == 3);
    assert(w.len() == body.len() + 7);
    assert(w[0] == BACKTICK && w[1] == BACKTICK && w[2] == BACKTICK && w[3] == NEWLINE);
    assert(skip_newlines(w, 0) == 0);
    assert(w.subrange(0, 3) =~= fence_bytes());
    assert(!is_lower(w[3]));
    assert(lang_end(w, 3) == 3);
    let t = w.subrange(4, w.len() as int);
    assert(t =~= body + close);
    assert(t.len() == body.len() + 3);
    assert(t.subrange(t.len() - 3, t.len() as int) =~= fence_bytes());
    assert(t.subrange(0, t.len() - 3) =~= body);
}

} // verus!
