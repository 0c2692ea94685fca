//! Byte-level scanning primitives: pattern search, whitespace and digit
//! runs, and decimal values of digit runs.  The worker's structured
//! output and device capability strings are interpreted with these.

use vstd::prelude::*;

verus! {

/// An ASCII decimal digit.
pub open spec fn is_digit_byte(b: u8) -> bool {
    48 <= b <= 57
}

/// The numeric value of an ASCII digit.
pub open spec fn digit_of(b: u8) -> nat
    recommends
        is_digit_byte(b),
{
    (b - 48) as nat
}

/// Every byte of `s` is an ASCII digit.
pub open spec fn all_digits(s: Seq<u8>) -> bool {
    forall|i: int| 0 <= i < s.len() ==> is_digit_byte(s[i])
}

/// The decimal value of a run of ASCII digits, most significant first.
pub open spec fn digits_value(s: Seq<u8>) -> nat
    decreases s.len(),
{
    if s.len() == 0 {
        0
    } else {
        digits_value(s.drop_last()) * 10 + digit_of(s.last())
    }
}

/// JSON insignificant whitespace.
pub open spec fn is_ws_byte(b: u8) -> bool {
    b == 32 || b == 9 || b == 10 || b == 13
}

/// `pat` occurs in `s` starting at index `i`.
pub open spec fn matches_at(s: Seq<u8>, pat: Seq<u8>, i: int) -> bool {
    0 <= i && i + pat.len() <= s.len() && s.subrange(i, i + pat.len() as int) =~= pat
}

/// The first index at or after `i` where `pat` occurs in `s`.
pub open spec fn spec_find(s: Seq<u8>, pat: Seq<u8>, i: int) -> Option<int>
    decreases s.len() - i,
    when 0 <= i <= s.len()
{
    if i + pat.len() <= s.len() {
        if matches_at(s, pat, i) {
            Some(i)
        } else {
            spec_find(s, pat, i + 1)
        }
    } else {
        None
    }
}

/// What `spec_find` returns is the first occurrence, and `None` means
/// there is none at or after `i`.
pub proof fn lemma_spec_find_characterises(s: Seq<u8>, pat: Seq<u8>, i: int)
    requires
        0 <= i <= s.len(),
    ensures
        match spec_find(s, pat, i) {
            Some(j) => i <= j && matches_at(s, pat, j) && forall|k: int|
                i <= k < j ==> !matches_at(s, pat, k),
            None => forall|k: int| i <= k ==> !matches_at(s, pat, k),
        },
    decreases s.len() - i,
{
    if i + pat.len() <= s.len() {
        if !matches_at(s, pat, i) {
            assert(pat.len() > 0) by {
                if pat.len() == 0 {
                    assert(s.subrange(i, i) =~= pat);
                }
            };
            lemma_spec_find_characterises(s, pat, i + 1);
        }
    }
}

/// The end of the run of ASCII digits that starts at `i`.
pub open spec fn spec_digit_end(s: Seq<u8>, i: int) -> int
    decreases s.len() - i,
    when 0 <= i <= s.len()
{
    if i < s.len() && is_digit_byte(s[i]) {
        spec_digit_end(s, i + 1)
    } else {
        i
    }
}

/// The first index at or after `i` that holds no whitespace.
pub open spec fn spec_skip_ws(s: Seq<u8>, i: int) -> int
    decreases s.len() - i,
    when 0 <= i <= s.len()
{
    if i < s.len() && is_ws_byte(s[i]) {
        spec_skip_ws(s, i + 1)
    } else {
        i
    }
}

pub proof fn lemma_digit_end_bounds(s: Seq<u8>, i: int)
    requires
        0 <= i <= s.len(),
    ensures
        i <= spec_digit_end(s, i) <= s.len(),
        forall|k: int| i <= k < spec_digit_end(s, i) ==> is_digit_byte(s[k]),
    decreases s.len() - i,
{
    if i < s.len() && is_digit_byte(s[i]) {
        lemma_digit_end_bounds(s, i + 1);
    }
}

/// Whether `pat` occurs at index `i` of `s`.
pub fn match_at(s: &[u8], pat: &[u8], i: usize) -> (r: bool)
    requires
        i + pat@.len() <= s@.len(),
    ensures
        r == matches_at(s@, pat@, i as int),
{
    let n: usize = pat.len();
    let slen: usize = s.len();
    let mut j: usize = 0;
    while j < n
        invariant
            n == pat@.len(),
            slen == s@.len(),
            i + n <= slen,
            0 <= j <= n,
            forall|k: int| 0 <= k < j ==> s@[i + k] == pat@[k],
        decreases n - j,
    {
        if s[i + j] != pat[j] {
            proof {
                assert(s@.subrange(i as int, i + pat@.len() as int)[j as int] != pat@[j as int]);
            }
            return false;
        }
        j = j + 1;
    }
    proof {
        assert(s@.subrange(i as int, i + pat@.len() as int) =~= pat@);
    }
    true
}

/// The first occurrence of `pat` in `s`, if any.
pub fn find_pattern(s: &[u8], pat: &[u8]) -> (r: Option<usize>)
    ensures
        match r {
            Some(i) => spec_find(s@, pat@, 0) == Some(i as int),
            None => spec_find(s@, pat@, 0) is None,
        },
{
    if pat.len() > s.len() {
        return None;
    }
    if pat.len() == 0 {
        proof {
            assert(matches_at(s@, pat@, 0));
        }
        return Some(0);
    }
    let slen: usize = s.len();
    let last_start: usize = slen - pat.len();
    let mut i: usize = 0;
    while i <= last_start
        invariant
            1 <= pat@.len() <= s@.len(),
            slen == s@.len(),
            last_start == s@.len() - pat@.len(),
            last_start < slen,
            0 <= i <= last_start + 1,
            spec_find(s@, pat@, 0) == spec_find(s@, pat@, i as int),
        decreases last_start + 1 - i,
    {
        if match_at(s, pat, i) {
            return Some(i);
        }
        proof {
            assert(spec_find(s@, pat@, i as int) == spec_find(s@, pat@, i + 1));
        }
        i = i + 1;
    }
    None
}

/// Whether `pat` occurs anywhere in `s`.
pub fn contains_pattern(s: &[u8], pat: &[u8]) -> (r: bool)
    ensures
        r == exists|i: int| matches_at(s@, pat@, i),
{
    proof {
        lemma_spec_find_characterises(s@, pat@, 0);
    }
    match find_pattern(s, pat) {
        Some(i) => {
            proof {
                assert(matches_at(s@, pat@, i as int));
            }
            true
        },
        None => false,
    }
}

/// The end of the digit run starting at `i`.
pub fn digit_end(s: &[u8], i: usize) -> (r: usize)
    requires
        i <= s@.len(),
    ensures
        r as int == spec_digit_end(s@, i as int),
        i <= r <= s@.len(),
{
    let mut j: usize = i;
    loop
        invariant
            i <= j <= s@.len(),
            spec_digit_end(s@, i as int) == spec_digit_end(s@, j as int),
        ensures
            j as int == spec_digit_end(s@, i as int),
        decreases s@.len() - j,
    {
        if j < s.len() && {
            let b = s[j];
            48 <= b && b <= 57
        } {
            j = j + 1;
        } else {
            return j;
        }
    }
}

/// The first non-whitespace index at or after `i`.
pub fn skip_ws(s: &[u8], i: usize) -> (r: usize)
    requires
        i <= s@.len(),
    ensures
        r as int == spec_skip_ws(s@, i as int),
        i <= r <= s@.len(),
{
    let mut j: usize = i;
    loop
        invariant
            i <= j <= s@.len(),
            spec_skip_ws(s@, i as int) == spec_skip_ws(s@, j as int),
        ensures
            j as int == spec_skip_ws(s@, i as int),
        decreases s@.len() - j,
    {
        if j < s.len() && {
            let b = s[j];
            b == 32 || b == 9 || b == 10 || b == 13
        } {
            j = j + 1;
        } else {
            return j;
        }
    }
}

/// A longer digit run never has a smaller value.
pub proof fn lemma_digits_value_prefix_le(s: Seq<u8>, n: int)
    requires
        0 <= n <= s.len(),
    ensures
        digits_value(s.take(n)) <= digits_value(s),
    decreases s.len() - n,
{
    if n < s.len() {
        lemma_digits_value_prefix_le(s.drop_last(), n);
        assert(s.drop_last().take(n) =~= s.take(n));
    } else {
        assert(s.take(n) =~= s);
    }
}

/// A run of `k` digits is worth less than ten to the `k`.
pub proof fn lemma_digits_value_bound(s: Seq<u8>)
    requires
        all_digits(s),
    ensures
        digits_value(s) < pow10(s.len()),
    decreases s.len(),
{
    if s.len() > 0 {
        assert(all_digits(s.drop_last()));
        lemma_digits_value_bound(s.drop_last());
    }
}

/// Ten to the power `k`.
pub open spec fn pow10(k: nat) -> nat
    decreases k,
{
    if k == 0 {
        1
    } else {
        10 * pow10((k - 1) as nat)
    }
}

/// The decimal value of the digit run `s.subrange(start, end)`, or
/// `None` when it exceeds `u64::MAX`.
pub fn digits_to_value(s: &[u8], start: usize, end: usize) -> (r: Option<u64>)
    requires
        start <= end <= s@.len(),
        forall|k: int| start <= k < end ==> is_digit_byte(s@[k]),
    ensures
        match r {
            Some(v) => v as nat == digits_value(s@.subrange(start as int, end as int)),
            None => digits_value(s@.subrange(start as int, end as int)) > u64::MAX,
        },
{
    let ghost whole: Seq<u8> = s@.subrange(start as int, end as int);
    let mut v: u64 = 0;
    let mut i: usize = start;
    while i < end
        invariant
            start <= i <= end <= s@.len(),
            forall|k: int| start <= k < end ==> is_digit_byte(s@[k]),
            whole == s@.subrange(start as int, end as int),
            v as nat == digits_value(s@.subrange(start as int, i as int)),
        decreases end - i,
    {
        let b: u8 = s[i];
        let d: u64 = (b - 48) as u64;
        let ghost prefix: Seq<u8> = s@.subrange(start as int, i as int);
        let ghost next: Seq<u8> = s@.subrange(start as int, i + 1);
        proof {
            assert(next.drop_last() =~= prefix);
            assert(next.last() == s@[i as int]);
        }
        let scaled: Option<u64> = v.checked_mul(10);
        let v2: u64 = match scaled {
            Some(x) => match x.checked_add(d) {
                Some(y) => y,
                None => {
                    proof {
                        lemma_digits_value_prefix_le(whole, i + 1 - start);
                        assert(whole.take(i + 1 - start) =~= next);
                    }
                    return None;
                },
            },
            None => {
                proof {
                    lemma_digits_value_prefix_le(whole, i + 1 - start);
                    assert(whole.take(i + 1 - start) =~= next);
                }
                return None;
            },
        };
        v = v2;
        i = i + 1;
    }
    proof {
        assert(s@.subrange(start as int, i as int) =~= whole);
    }
    Some(v)
}

/// Powers of ten multiply as their exponents add.
pub proof fn lemma_pow10_adds(a: nat, b: nat)
    ensures
        pow10(a) * pow10(b) == pow10(a + b),
    decreases a,
{
    if a == 0 {
        assert(pow10(a) == 1);
        assert(pow10(a) * pow10(b) == pow10(b)) by (nonlinear_arith)
            requires
                pow10(a) == 1,
        ;
    } else {
        lemma_pow10_adds((a - 1) as nat, b);
        assert(pow10(a) * pow10(b) == 10 * (pow10((a - 1) as nat) * pow10(b)))
            by (nonlinear_arith)
            requires
                pow10(a) == 10 * pow10((a - 1) as nat),
        ;
    }
}

/// The value, in millionths, of a fractional digit run: digits beyond
/// the sixth are dropped; shorter runs scale up.
pub open spec fn spec_frac_micro(f: Seq<u8>) -> nat {
    if f.len() >= 6 {
        digits_value(f.take(6))
    } else {
        digits_value(f) * pow10((6 - f.len()) as nat)
    }
}

/// An exponent marker: fixed-point reading cannot honor it, so a token
/// it follows is refused rather than misread.
pub open spec fn is_exponent_byte(b: u8) -> bool {
    b == 101 || b == 69
}

/// The value, in millionths, of the decimal number token at `i`: one or
/// more digits, optionally followed by a point and one or more digits.
/// `None` when no such token starts at `i`, or when an exponent marker
/// follows the token.
pub open spec fn spec_number_micro_at(s: Seq<u8>, i: int) -> Option<nat>
    recommends
        0 <= i <= s.len(),
{
    let e = spec_digit_end(s, i);
    if e == i {
        None
    } else {
        let whole = digits_value(s.subrange(i, e));
        if e < s.len() && s[e] == 46 {
            let f = spec_digit_end(s, e + 1);
            if f == e + 1 {
                None
            } else if f < s.len() && is_exponent_byte(s[f]) {
                None
            } else {
                Some(whole * 1000000 + spec_frac_micro(s.subrange(e + 1, f)))
            }
        } else if e < s.len() && is_exponent_byte(s[e]) {
            None
        } else {
            Some(whole * 1000000)
        }
    }
}

/// Ten to the power `k` for small `k`.
fn pow10_small(k: usize) -> (r: u64)
    requires
        k <= 6,
    ensures
        r as nat == pow10(k as nat),
        r <= 1000000,
{
    proof {
        reveal_with_fuel(pow10, 7);
    }
    match k {
        0 => 1,
        1 => 10,
        2 => 100,
        3 => 1000,
        4 => 10000,
        5 => 100000,
        _ => 1000000,
    }
}

/// The value, in millionths, of the fractional digit run
/// `s.subrange(start, end)`.
fn frac_micro_value(s: &[u8], start: usize, end: usize) -> (v: u64)
    requires
        start <= end <= s@.len(),
        forall|k: int| start <= k < end ==> is_digit_byte(s@[k]),
    ensures
        v as nat == spec_frac_micro(s@.subrange(start as int, end as int)),
        v < 1000000,
{
    let ghost f: Seq<u8> = s@.subrange(start as int, end as int);
    let width: usize = if end - start >= 6 {
        6
    } else {
        end - start
    };
    let take_end: usize = start + width;
    let ghost taken: Seq<u8> = s@.subrange(start as int, take_end as int);
    proof {
        assert(all_digits(taken));
        lemma_digits_value_bound(taken);
        reveal_with_fuel(pow10, 7);
    }
    let base: u64 = match digits_to_value(s, start, take_end) {
        Some(v) => v,
        None => {
            proof {
                assert(false);
            }
            0
        },
    };
    let scale: u64 = pow10_small(6 - width);
    proof {
        lemma_pow10_adds(width as nat, (6 - width) as nat);
        reveal_with_fuel(pow10, 7);
    }
    assert(base * scale < 1000000) by (nonlinear_arith)
        requires
            (base as nat) < pow10(width as nat),
            scale as nat == pow10((6 - width) as nat),
            pow10(width as nat) * pow10((6 - width) as nat) == 1000000,
    ;
    let v: u64 = base * scale;
    proof {
        if f.len() >= 6 {
            assert(f.take(6) =~= taken);
            assert(v as nat == digits_value(taken) * 1) by (nonlinear_arith)
                requires
                    v as nat == digits_value(taken) * pow10(0),
                    pow10(0) == 1,
            ;
        } else {
            assert(taken =~= f);
        }
    }
    v
}

/// Parses the number token at `i` into millionths, `None` when no token
/// starts there, an exponent marker follows it, or its value exceeds
/// `u64::MAX` millionths.
pub fn parse_number_micro(s: &[u8], i: usize) -> (r: Option<u64>)
    requires
        i <= s@.len(),
    ensures
        match r {
            Some(v) => spec_number_micro_at(s@, i as int) == Some(v as nat),
            None => spec_number_micro_at(s@, i as int) is None || (spec_number_micro_at(
                s@,
                i as int,
            ) matches Some(n) && n > u64::MAX),
        },
{
    let e: usize = digit_end(s, i);
    proof {
        lemma_digit_end_bounds(s@, i as int);
    }
    if e == i {
        return None;
    }
    let ghost whole_digits: Seq<u8> = s@.subrange(i as int, e as int);
    let whole: u64 = match digits_to_value(s, i, e) {
        Some(v) => v,
        None => {
            assert(digits_value(whole_digits) <= digits_value(whole_digits) * 1000000)
                by (nonlinear_arith)
                requires
                    digits_value(whole_digits) >= 0,
            ;
            return None;
        },
    };
    let frac: u64 = if e < s.len() && s[e] == 46 {
        let f: usize = digit_end(s, e + 1);
        proof {
            lemma_digit_end_bounds(s@, e + 1);
        }
        if f == e + 1 {
            return None;
        }
        if f < s.len() && {
            let b = s[f];
            b == 101 || b == 69
        } {
            return None;
        }
        frac_micro_value(s, e + 1, f)
    } else {
        if e < s.len() && {
            let b = s[e];
            b == 101 || b == 69
        } {
            return None;
        }
        0
    };
    let scaled: u64 = match whole.checked_mul(1000000) {
        Some(x) => x,
        None => {
            return None;
        },
    };
    match scaled.checked_add(frac) {
        Some(total) => Some(total),
        None => None,
    }
}

} // verus!
