//! Pixel sizes: parsing `"<digits>px"` attribute values, CSS shorthand
//! expansion for padding, border widths, and the width-propagation formula
//! `current = container - horizontal border - horizontal padding`.

use vstd::prelude::*;
use vstd::string::StringExecFns;
use crate::numbers::{dec_value, is_digit_char, digit_val};
use crate::strings::{is_space_char, exec_is_space};

verus! {

/// Pixel values are capped below ten million; larger widths have no meaning
/// for an email layout and the cap keeps every sum inside `u32`.
pub const MAX_PIXEL: u32 = 10000000;

/// `10^n`.
pub open spec fn pow10(n: nat) -> nat
    decreases n,
{
    if n == 0 {
        1
    } else {
        10 * pow10((n - 1) as nat)
    }
}

proof fn lemma_dec_value_bound(s: Seq<char>)
    requires
        forall|i: int| 0 <= i < s.len() ==> is_digit_char(s[i]),
    ensures
        dec_value(s) < pow10(s.len()),
    decreases s.len(),
{
    if s.len() > 0 {
        assert(forall|i: int|
            0 <= i < s.drop_last().len() ==> is_digit_char(#[trigger] s.drop_last()[i]));
        lemma_dec_value_bound(s.drop_last());
        assert(digit_val(s.last()) <= 9);
    }
}

/// A well-formed pixel literal: one to seven decimal digits followed by
/// `px`.
pub open spec fn is_pixel_str(s: Seq<char>) -> bool {
    &&& 3 <= s.len() <= 9
    &&& s[s.len() - 2] == 'p'
    &&& s[s.len() - 1] == 'x'
    &&& forall|i: int| 0 <= i < s.len() - 2 ==> is_digit_char(s[i])
}

/// Numeric value of a pixel literal.
pub open spec fn pixel_value(s: Seq<char>) -> nat {
    dec_value(s.take(s.len() - 2))
}

/// Result of parsing a pixel literal: the value for a well-formed literal,
/// nothing otherwise.
pub open spec fn parse_pixel_spec(s: Seq<char>) -> Option<u32> {
    if is_pixel_str(s) {
        Some(pixel_value(s) as u32)
    } else {
        None
    }
}

/// Parses a `"<digits>px"` literal.
pub fn parse_pixel(s: &str) -> (r: Option<u32>)
    ensures
        r == parse_pixel_spec(s@),
        r is Some ==> r.unwrap() < MAX_PIXEL,
{
    let n = s.unicode_len();
    if n < 3 || n > 9 {
        return None;
    }
    if s.get_char(n - 2) != 'p' || s.get_char(n - 1) != 'x' {
        return None;
    }
    let digits = n - 2;
    let mut v: u32 = 0;
    let mut i: usize = 0;
    while i < digits
        invariant
            n == s@.len(),
            3 <= n <= 9,
            digits == n - 2,
            i <= digits,
            forall|j: int| 0 <= j < i ==> is_digit_char(s@[j]),
            v == dec_value(s@.take(i as int)),
            v < pow10(i as nat),
        decreases digits - i,
    {
        let c = s.get_char(i);
        if !('0' <= c && c <= '9') {
            return None;
        }
        proof {
            assert(s@.take(i as int + 1).drop_last() =~= s@.take(i as int));
            assert(s@.take(i as int + 1).last() == s@[i as int]);
            lemma_dec_value_bound(s@.take(i as int + 1));
            lemma_pow10_7();
            assert(pow10((i + 1) as nat) <= pow10(7)) by {
                lemma_pow10_mono((i + 1) as nat, 7);
            }
        }
        v = v * 10 + (c as u32 - 48);
        i = i + 1;
    }
    proof {
        assert(s@.take(digits as int) =~= s@.take(s@.len() - 2));
        lemma_dec_value_bound(s@.take(s@.len() - 2));
        lemma_pow10_7();
        lemma_pow10_mono(digits as nat, 7);
    }
    Some(v)
}

proof fn lemma_pow10_7()
    ensures
        pow10(7) == 10000000,
{
    reveal_with_fuel(pow10, 8);
}

proof fn lemma_pow10_mono(a: nat, b: nat)
    requires
        a <= b,
    ensures
        pow10(a) <= pow10(b),
    decreases b,
{
    if a < b {
        lemma_pow10_mono(a, (b - 1) as nat);
    }
}

/// The whitespace-separated tokens of `s`, empty tokens dropped.
pub open spec fn split_ws_acc(s: Seq<char>, cur: Seq<char>, acc: Seq<Seq<char>>) -> Seq<Seq<char>>
    decreases s.len(),
{
    if s.len() == 0 {
        if cur.len() > 0 {
            acc.push(cur)
        } else {
            acc
        }
    } else if is_space_char(s[0]) {
        split_ws_acc(
            s.skip(1),
            Seq::empty(),
            if cur.len() > 0 {
                acc.push(cur)
            } else {
                acc
            },
        )
    } else {
        split_ws_acc(s.skip(1), cur.push(s[0]), acc)
    }
}

/// The whitespace-separated tokens of `s`.
pub open spec fn split_ws(s: Seq<char>) -> Seq<Seq<char>> {
    split_ws_acc(s, Seq::empty(), Seq::empty())
}

/// Splits `s` at whitespace into its tokens.
pub fn split_whitespace_tokens(s: &str) -> (r: Vec<String>)
    ensures
        r.deep_view() == split_ws(s@),
{
    let n = s.unicode_len();
    let mut acc: Vec<String> = Vec::new();
    let mut i: usize = 0;
    let mut start: usize = 0;
    let mut in_tok: bool = false;
    proof {
        assert(s@.skip(0) =~= s@);
        assert(acc.deep_view() =~~= Seq::<Seq<char>>::empty());
    }
    while i < n
        invariant
            n == s@.len(),
            i <= n,
            in_tok ==> start < i,
            split_ws(s@) == split_ws_acc(
                s@.skip(i as int),
                if in_tok {
                    s@.subrange(start as int, i as int)
                } else {
                    Seq::empty()
                },
                acc.deep_view(),
            ),
        decreases n - i,
    {
        let ghost cur: Seq<char> = if in_tok {
            s@.subrange(start as int, i as int)
        } else {
            Seq::empty()
        };
        let c = s.get_char(i);
        proof {
            assert(s@.skip(i as int)[0] == s@[i as int]);
            assert(s@.skip(i as int).skip(1) =~= s@.skip(i as int + 1));
        }
        if exec_is_space(c) {
            if in_tok {
                let tok = s.substring_char(start, i).to_owned();
                let ghost pre = acc.deep_view();
                acc.push(tok);
                proof {
                    assert(acc.deep_view() =~~= pre.push(cur));
                    assert(cur.len() > 0);
                    assert(split_ws_acc(s@.skip(i as int), cur, pre) == split_ws_acc(
                        s@.skip(i as int + 1),
                        Seq::empty(),
                        pre.push(cur),
                    ));
                }
                in_tok = false;
            } else {
                proof {
                    assert(split_ws_acc(s@.skip(i as int), cur, acc.deep_view()) == split_ws_acc(
                        s@.skip(i as int + 1),
                        Seq::empty(),
                        acc.deep_view(),
                    ));
                }
            }
        } else {
            if !in_tok {
                start = i;
                in_tok = true;
            }
            proof {
                assert(!is_space_char(s@[i as int]));
                assert(split_ws_acc(s@.skip(i as int), cur, acc.deep_view()) == split_ws_acc(
                    s@.skip(i as int + 1),
                    cur.push(s@[i as int]),
                    acc.deep_view(),
                ));
                assert(cur.push(s@[i as int]) =~= s@.subrange(start as int, i as int + 1));
            }
        }
        i = i + 1;
    }
    proof {
        assert(s@.skip(n as int) =~= Seq::<char>::empty());
    }
    if in_tok {
        let tok = s.substring_char(start, n).to_owned();
        let ghost pre = acc.deep_view();
        acc.push(tok);
        proof {
            assert(acc.deep_view() =~~= pre.push(s@.subrange(start as int, n as int)));
        }
    }
    acc
}

/// Pixel value of a token, zero when it is not a pixel literal.
pub open spec fn px_or_zero(tok: Seq<char>) -> u32 {
    match parse_pixel_spec(tok) {
        Some(v) => v,
        None => 0,
    }
}

/// Width of the first token of a border value such as `"2px solid #000"`;
/// zero when the value carries no leading pixel width.
pub open spec fn border_pixel_spec(s: Seq<char>) -> u32 {
    if split_ws(s).len() > 0 {
        px_or_zero(split_ws(s)[0])
    } else {
        0
    }
}

/// Pixel width of a border attribute value.
pub fn border_pixel(s: &str) -> (r: u32)
    ensures
        r == border_pixel_spec(s@),
        r < MAX_PIXEL,
{
    let toks = split_whitespace_tokens(s);
    if toks.len() == 0 {
        return 0;
    }
    match parse_pixel(toks[0].as_str()) {
        Some(v) => v,
        None => 0,
    }
}

/// Left and right components of a CSS padding shorthand: one token sets
/// every side, two set vertical then horizontal, three set top, horizontal,
/// bottom, and four set top, right, bottom, left.
pub open spec fn shorthand_left_right(s: Seq<char>) -> (u32, u32) {
    let toks = split_ws(s);
    if toks.len() == 1 {
        (px_or_zero(toks[0]), px_or_zero(toks[0]))
    } else if toks.len() == 2 || toks.len() == 3 {
        (px_or_zero(toks[1]), px_or_zero(toks[1]))
    } else if toks.len() == 4 {
        (px_or_zero(toks[3]), px_or_zero(toks[1]))
    } else {
        (0, 0)
    }
}

/// Left and right pixel widths of a padding shorthand value.
pub fn shorthand_horizontal(s: &str) -> (r: (u32, u32))
    ensures
        r == shorthand_left_right(s@),
        r.0 < MAX_PIXEL && r.1 < MAX_PIXEL,
{
    let toks = split_whitespace_tokens(s);
    if toks.len() == 1 {
        let v = px_or_zero_exec(toks[0].as_str());
        (v, v)
    } else if toks.len() == 2 || toks.len() == 3 {
        let v = px_or_zero_exec(toks[1].as_str());
        (v, v)
    } else if toks.len() == 4 {
        let l = px_or_zero_exec(toks[3].as_str());
        let r = px_or_zero_exec(toks[1].as_str());
        (l, r)
    } else {
        (0, 0)
    }
}

fn px_or_zero_exec(s: &str) -> (r: u32)
    ensures
        r == px_or_zero(s@),
        r < MAX_PIXEL,
{
    match parse_pixel(s) {
        Some(v) => v,
        None => 0,
    }
}

/// The pixel rendering `<digits>px` of a width.
pub open spec fn px_str(w: u32) -> Seq<char> {
    crate::numbers::dec_seq(w as nat) + "px"@
}

/// The pixel rendering of an optional width.
pub open spec fn opt_px_str(w: Option<u32>) -> Option<Seq<char>> {
    match w {
        Some(v) => Some(px_str(v)),
        None => None,
    }
}

/// Renders a width as `<digits>px`.
pub fn px_string(w: u32) -> (r: String)
    ensures
        r@ == px_str(w),
{
    let mut s = crate::numbers::decimal_string(w as u64);
    s.append("px");
    s
}

} // verus!
