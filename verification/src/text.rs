//! Whitespace tokenizing and digit parsing.
//!
//! Execute command lines are split into a command and its arguments on
//! whitespace, and the kernel's resource-controller reports are read as
//! whitespace-separated tokens with decimal counters.

use vstd::prelude::*;

verus! {

/// The whitespace characters tokens are split on.
pub open spec fn is_space(c: char) -> bool {
    c == ' ' || c == '\t' || c == '\n' || c == '\r' || c == '\u{b}' || c == '\u{c}'
}

fn is_space_exec(c: char) -> (r: bool)
    ensures
        r == is_space(c),
{
    c == ' ' || c == '\t' || c == '\n' || c == '\r' || c == '\u{b}' || c == '\u{c}'
}

/// The first position at or after `i` that is not whitespace (or the end).
pub open spec fn skip_spaces(s: Seq<char>, i: int) -> int
    recommends
        0 <= i <= s.len(),
    decreases s.len() - i,
{
    if 0 <= i < s.len() && is_space(s[i]) {
        skip_spaces(s, i + 1)
    } else {
        i
    }
}

/// The first position at or after `i` that is whitespace (or the end):
/// where the token starting at `i` ends.
pub open spec fn token_end(s: Seq<char>, i: int) -> int
    recommends
        0 <= i <= s.len(),
    decreases s.len() - i,
{
    if 0 <= i < s.len() && !is_space(s[i]) {
        token_end(s, i + 1)
    } else {
        i
    }
}

pub proof fn lemma_skip_spaces_bounds(s: Seq<char>, i: int)
    requires
        0 <= i <= s.len(),
    ensures
        i <= skip_spaces(s, i) <= s.len(),
        skip_spaces(s, i) < s.len() ==> !is_space(s[skip_spaces(s, i)]),
    decreases s.len() - i,
{
    if i < s.len() && is_space(s[i]) {
        lemma_skip_spaces_bounds(s, i + 1);
    }
}

pub proof fn lemma_token_end_bounds(s: Seq<char>, i: int)
    requires
        0 <= i <= s.len(),
    ensures
        i <= token_end(s, i) <= s.len(),
        i < s.len() && !is_space(s[i]) ==> token_end(s, i) > i,
    decreases s.len() - i,
{
    if i < s.len() && !is_space(s[i]) {
        lemma_token_end_bounds(s, i + 1);
    }
}

/// The whitespace-separated tokens of `s` from position `i` on.
pub open spec fn tokens_from(s: Seq<char>, i: int) -> Seq<Seq<char>>
    recommends
        0 <= i <= s.len(),
    decreases s.len() - i,
    when 0 <= i <= s.len()
    via tokens_from_decreases
{
    if skip_spaces(s, i) >= s.len() {
        seq![]
    } else {
        seq![s.subrange(skip_spaces(s, i), token_end(s, skip_spaces(s, i)))] + tokens_from(
            s,
            token_end(s, skip_spaces(s, i)),
        )
    }
}

#[via_fn]
proof fn tokens_from_decreases(s: Seq<char>, i: int) {
    lemma_skip_spaces_bounds(s, i);
    if skip_spaces(s, i) < s.len() {
        lemma_token_end_bounds(s, skip_spaces(s, i));
    }
}

/// The whitespace-separated tokens of `s`.
pub open spec fn tokens(s: Seq<char>) -> Seq<Seq<char>> {
    tokens_from(s, 0)
}

/// Skipping spaces twice is skipping them once.
pub proof fn lemma_skip_spaces_idempotent(s: Seq<char>, i: int)
    requires
        0 <= i <= s.len(),
    ensures
        skip_spaces(s, skip_spaces(s, i)) == skip_spaces(s, i),
{
    lemma_skip_spaces_bounds(s, i);
}

/// The tokens from `i` are the tokens from the first non-space position at
/// or after `i`.
pub proof fn lemma_tokens_from_skip(s: Seq<char>, i: int)
    requires
        0 <= i <= s.len(),
    ensures
        tokens_from(s, i) == tokens_from(s, skip_spaces(s, i)),
{
    lemma_skip_spaces_bounds(s, i);
    lemma_skip_spaces_idempotent(s, i);
}

fn skip_spaces_exec(s: &str, i: usize, n: usize) -> (r: usize)
    requires
        n == s@.len(),
        i <= n,
    ensures
        r as int == skip_spaces(s@, i as int),
    decreases n - i,
{
    if i < n && is_space_exec(s.get_char(i)) {
        skip_spaces_exec(s, i + 1, n)
    } else {
        i
    }
}

fn token_end_exec(s: &str, i: usize, n: usize) -> (r: usize)
    requires
        n == s@.len(),
        i <= n,
    ensures
        r as int == token_end(s@, i as int),
    decreases n - i,
{
    if i < n && !is_space_exec(s.get_char(i)) {
        token_end_exec(s, i + 1, n)
    } else {
        i
    }
}

/// Splits `s` into its whitespace-separated tokens.
pub fn split_tokens(s: &str) -> (r: Vec<String>)
    ensures
        r.deep_view() == tokens(s@),
{
    let n = s.unicode_len();
    let mut toks: Vec<String> = Vec::new();
    let mut i = skip_spaces_exec(s, 0, n);
    proof {
        lemma_tokens_from_skip(s@, 0);
        lemma_skip_spaces_bounds(s@, 0);
    }
    while i < n
        invariant
            n == s@.len(),
            i <= n,
            i as int == skip_spaces(s@, i as int),
            toks.deep_view() + tokens_from(s@, i as int) =~~= tokens(s@),
        decreases n - i,
    {
        let e = token_end_exec(s, i, n);
        proof {
            lemma_token_end_bounds(s@, i as int);
        }
        let tok: String = s.substring_char(i, e).to_owned();
        let ghost pre = toks.deep_view();
        toks.push(tok);
        proof {
            assert(tokens_from(s@, i as int) == seq![s@.subrange(i as int, e as int)]
                + tokens_from(s@, e as int));
            lemma_tokens_from_skip(s@, e as int);
            assert(toks.deep_view() =~~= pre + seq![s@.subrange(i as int, e as int)]);
        }
        i = skip_spaces_exec(s, e, n);
        proof {
            lemma_skip_spaces_bounds(s@, e as int);
            lemma_skip_spaces_idempotent(s@, e as int);
            assert(toks.deep_view() + tokens_from(s@, i as int) =~~= tokens(s@));
        }
    }
    proof {
        assert(tokens_from(s@, i as int) =~= Seq::<Seq<char>>::empty());
        assert(toks.deep_view() =~~= tokens(s@));
    }
    toks
}

/// The numeric value of a decimal digit character, ten for any other
/// character.
pub open spec fn digit_value(c: char) -> nat {
    if '0' <= c <= '9' {
        ((c as int) - ('0' as int)) as nat
    } else {
        10
    }
}

/// Whether every character of `s` is a decimal digit.
pub open spec fn all_digits(s: Seq<char>) -> bool {
    forall|i: int| 0 <= i < s.len() ==> digit_value(#[trigger] s[i]) < 10
}

/// The value of the decimal numeral `s` continued from the accumulator
/// `acc`.
pub open spec fn decimal_value_from(s: Seq<char>, i: int, acc: nat) -> nat
    recommends
        0 <= i <= s.len(),
    decreases s.len() - i,
{
    if 0 <= i < s.len() {
        decimal_value_from(s, i + 1, acc * 10 + digit_value(s[i]))
    } else {
        acc
    }
}

/// The value of the decimal numeral `s`.
pub open spec fn decimal_value(s: Seq<char>) -> nat {
    decimal_value_from(s, 0, 0)
}

/// Continuing a numeral can only grow the accumulated value.
pub proof fn lemma_decimal_value_grows(s: Seq<char>, i: int, acc: nat)
    requires
        0 <= i <= s.len(),
    ensures
        decimal_value_from(s, i, acc) >= acc,
    decreases s.len() - i,
{
    if i < s.len() {
        assert(acc * 10 + digit_value(s[i]) >= acc) by (nonlinear_arith);
        lemma_decimal_value_grows(s, i + 1, acc * 10 + digit_value(s[i]));
    }
}

/// Parses a nonempty all-digit string as an unsigned decimal number.
/// Returns `None` when the string is empty, holds a non-digit, or denotes a
/// value too large for the result type.
pub fn parse_u64(s: &str) -> (r: Option<u64>)
    ensures
        match r {
            Some(v) => {
                &&& s@.len() > 0
                &&& all_digits(s@)
                &&& v as nat == decimal_value(s@)
            },
            None => s@.len() == 0 || !all_digits(s@) || decimal_value(s@) > u64::MAX,
        },
{
    let n = s.unicode_len();
    if n == 0 {
        return None;
    }
    let mut acc: u64 = 0;
    let mut i: usize = 0;
    while i < n
        invariant
            n == s@.len(),
            i <= n,
            all_digits(s@.subrange(0, i as int)),
            decimal_value(s@) == decimal_value_from(s@, i as int, acc as nat),
        decreases n - i,
    {
        let c = s.get_char(i);
        if !('0' <= c && c <= '9') {
            proof {
                assert(digit_value(s@[i as int]) == 10);
                assert(!all_digits(s@));
            }
            return None;
        }
        let d: u64 = (c as u32 as u64) - ('0' as u32 as u64);
        proof {
            assert(d as nat == digit_value(s@[i as int]));
        }
        if acc > (u64::MAX - d) / 10 {
            proof {
                assert(acc as nat * 10 + d as nat > u64::MAX) by (nonlinear_arith)
                    requires
                        acc as nat > ((u64::MAX - d) as nat) / 10,
                        d < 10,
                ;
                lemma_decimal_value_grows(s@, i as int + 1, acc as nat * 10 + d as nat);
            }
            return None;
        }
        proof {
            assert(acc as nat * 10 + d as nat <= u64::MAX) by (nonlinear_arith)
                requires
                    acc as nat <= ((u64::MAX - d) as nat) / 10,
                    d < 10,
            ;
        }
        acc = acc * 10 + d;
        proof {
            assert(all_digits(s@.subrange(0, (i + 1) as int)));
        }
        i = i + 1;
    }
    proof {
        assert(s@.subrange(0, n as int) =~= s@);
        assert(all_digits(s@));
    }
    Some(acc)
}

} // verus!
