//! Numbers written in text: signed decimal and unsigned hexadecimal.

use vstd::prelude::*;

verus! {

pub open spec fn is_digit(b: u8) -> bool {
    0x30 <= b <= 0x39
}

/// Value of the hexadecimal digit `b`, either case; `None` for other bytes.
pub open spec fn hex_digit(b: u8) -> Option<int> {
    if 0x30 <= b <= 0x39 {
        Some(b - 0x30)
    } else if 0x61 <= b <= 0x66 {
        Some(b - 0x61 + 10)
    } else if 0x41 <= b <= 0x46 {
        Some(b - 0x41 + 10)
    } else {
        None
    }
}

/// Value of the decimal digits `s`, most significant first.
pub open spec fn decimal_value(s: Seq<u8>) -> int
    decreases s.len(),
{
    if s.len() == 0 {
        0
    } else {
        decimal_value(s.drop_last()) * 10 + (s.last() - 0x30)
    }
}

/// Value of the hexadecimal digits `s`, most significant first.
pub open spec fn hex_value(s: Seq<u8>) -> int
    decreases s.len(),
{
    if s.len() == 0 {
        0
    } else {
        hex_value(s.drop_last()) * 16 + hex_digit(s.last()).unwrap_or(0)
    }
}

/// `s` without its leading sign, if it has one.
pub open spec fn signed_digits(s: Seq<u8>) -> Seq<u8> {
    if s.len() > 0 && (s[0] == 0x2d || s[0] == 0x2b) {
        s.skip(1)
    } else {
        s
    }
}

/// `s` without its leading `+`, if it has one.
pub open spec fn unsigned_digits(s: Seq<u8>) -> Seq<u8> {
    if s.len() > 0 && s[0] == 0x2b {
        s.skip(1)
    } else {
        s
    }
}

/// `s` is a signed decimal `i32` as Rust's `str::parse` reads it: an optional
/// `+` or `-`, then one or more digits, the value in range.
pub open spec fn parse_i32_spec(s: Seq<u8>) -> Option<i32> {
    let neg = s.len() > 0 && s[0] == 0x2d;
    let digits = signed_digits(s);
    let v = if neg {
        -decimal_value(digits)
    } else {
        decimal_value(digits)
    };
    if digits.len() > 0 && (forall|i: int| 0 <= i < digits.len() ==> is_digit(#[trigger] digits[i]))
        && i32::MIN <= v <= i32::MAX {
        Some(v as i32)
    } else {
        None
    }
}

/// `s` is an unsigned hexadecimal `usize` as `usize::from_str_radix(s, 16)`
/// reads it: an optional `+`, then one or more hex digits, the value in range.
pub open spec fn parse_hex_spec(s: Seq<u8>) -> Option<usize> {
    let digits = unsigned_digits(s);
    if digits.len() > 0 && (forall|i: int|
        0 <= i < digits.len() ==> #[trigger] hex_digit(digits[i]) is Some) && hex_value(digits)
        <= usize::MAX {
        Some(hex_value(digits) as usize)
    } else {
        None
    }
}

proof fn lemma_decimal_step(s: Seq<u8>, i: int)
    requires
        0 <= i < s.len(),
    ensures
        decimal_value(s.take(i + 1)) == decimal_value(s.take(i)) * 10 + (s[i] - 0x30),
{
    assert(s.take(i + 1).drop_last() =~= s.take(i));
}

proof fn lemma_hex_step(s: Seq<u8>, i: int)
    requires
        0 <= i < s.len(),
    ensures
        hex_value(s.take(i + 1)) == hex_value(s.take(i)) * 16 + hex_digit(s[i]).unwrap_or(0),
{
    assert(s.take(i + 1).drop_last() =~= s.take(i));
}

proof fn lemma_decimal_grows(s: Seq<u8>, i: int, j: int)
    requires
        0 <= i <= j <= s.len(),
        forall|k: int| 0 <= k < s.len() ==> is_digit(#[trigger] s[k]),
    ensures
        0 <= decimal_value(s.take(i)) <= decimal_value(s.take(j)),
    decreases j - i,
{
    if i < j {
        lemma_decimal_grows(s, i, j - 1);
        lemma_decimal_step(s, j - 1);
        lemma_decimal_nonneg(s, j - 1);
    } else {
        lemma_decimal_nonneg(s, i);
    }
}

proof fn lemma_decimal_nonneg(s: Seq<u8>, i: int)
    requires
        0 <= i <= s.len(),
        forall|k: int| 0 <= k < s.len() ==> is_digit(#[trigger] s[k]),
    ensures
        0 <= decimal_value(s.take(i)),
    decreases i,
{
    if i > 0 {
        lemma_decimal_nonneg(s, i - 1);
        lemma_decimal_step(s, i - 1);
    }
}

proof fn lemma_hex_grows(s: Seq<u8>, i: int, j: int)
    requires
        0 <= i <= j <= s.len(),
    ensures
        0 <= hex_value(s.take(i)) <= hex_value(s.take(j)),
    decreases j - i,
{
    if i < j {
        lemma_hex_grows(s, i, j - 1);
        lemma_hex_step(s, j - 1);
    } else {
        lemma_hex_nonneg(s, i);
    }
}

proof fn lemma_hex_nonneg(s: Seq<u8>, i: int)
    requires
        0 <= i <= s.len(),
    ensures
        0 <= hex_value(s.take(i)),
    decreases i,
{
    if i > 0 {
        lemma_hex_nonneg(s, i - 1);
        lemma_hex_step(s, i - 1);
    }
}

/// Reads a signed decimal `i32`, as `str::parse::<i32>` does.
pub fn parse_i32(s: &[u8]) -> (r: Option<i32>)
    ensures
        r == parse_i32_spec(s@),
{
    let n = s.len();
    let neg = n > 0 && s[0] == 0x2d;
    let start: usize = if n > 0 && (s[0] == 0x2d || s[0] == 0x2b) {
        1
    } else {
        0
    };
    let ghost digits = s@.skip(start as int);
    proof {
        if start == 0 {
            assert(digits =~= s@);
        }
    }
    if start >= n {
        proof {
            assert(digits.len() == 0);
        }
        return None;
    }
    // the magnitude read so far; anything above 2^31 fits neither sign
    let limit: u64 = 0x8000_0000;
    let mut acc: u64 = 0;
    let mut i: usize = start;
    while i < n
        invariant
            start <= i <= n,
            n == s@.len(),
            digits == s@.skip(start as int),
            forall|k: int| 0 <= k < i - start ==> is_digit(#[trigger] digits[k]),
            acc == decimal_value(digits.take(i - start)),
            acc <= limit,
            limit == 0x8000_0000,
            digits == signed_digits(s@),
        decreases n - i,
    {
        let b = s[i];
        proof {
            assert(digits[i - start] == b);
        }
        if b < 0x30 || b > 0x39 {
            proof {
                let d = signed_digits(s@);
                assert(d == digits);
                assert(!is_digit(d[i - start]));
            }
            return None;
        }
        proof {
            lemma_decimal_step(digits, i - start);
            assert(acc * 10 <= 0x8000_0000 * 10) by (nonlinear_arith)
                requires
                    acc <= 0x8000_0000,
            ;
        }
        let next = acc * 10 + (b - 0x30) as u64;
        if next > limit {
            proof {
                assert forall|k: int| 0 <= k < i - start + 1 implies is_digit(
                    #[trigger] digits.take(i - start + 1)[k],
                ) by {}
                let d = signed_digits(s@);
                assert(d == digits);
                if forall|k: int| 0 <= k < d.len() ==> is_digit(#[trigger] d[k]) {
                    lemma_decimal_grows(digits, i - start + 1, digits.len() as int);
                    assert(digits.take(digits.len() as int) =~= digits);
                }
            }
            return None;
        }
        acc = next;
        i = i + 1;
    }
    proof {
        assert(digits.take(n - start) =~= digits);
    }
    if neg {
        Some((0 - acc as i64) as i32)
    } else if acc > 0x7fff_ffff {
        None
    } else {
        Some(acc as i32)
    }
}

/// Reads an unsigned hexadecimal `usize`, as `usize::from_str_radix(s, 16)` does.
pub fn parse_hex(s: &[u8]) -> (r: Option<usize>)
    ensures
        r == parse_hex_spec(s@),
{
    let n = s.len();
    let start: usize = if n > 0 && s[0] == 0x2b {
        1
    } else {
        0
    };
    let ghost digits = s@.skip(start as int);
    proof {
        if start == 0 {
            assert(digits =~= s@);
        }
    }
    if start >= n {
        proof {
            assert(digits.len() == 0);
        }
        return None;
    }
    let mut acc: usize = 0;
    let mut i: usize = start;
    while i < n
        invariant
            start <= i <= n,
            n == s@.len(),
            digits == s@.skip(start as int),
            forall|k: int| 0 <= k < i - start ==> #[trigger] hex_digit(digits[k]) is Some,
            acc == hex_value(digits.take(i - start)),
            digits == unsigned_digits(s@),
        decreases n - i,
    {
        let b = s[i];
        proof {
            assert(digits[i - start] == b);
            lemma_hex_step(digits, i - start);
        }
        let d: usize = if 0x30 <= b && b <= 0x39 {
            (b - 0x30) as usize
        } else if 0x61 <= b && b <= 0x66 {
            (b - 0x61 + 10) as usize
        } else if 0x41 <= b && b <= 0x46 {
            (b - 0x41 + 10) as usize
        } else {
            proof {
                let dd = unsigned_digits(s@);
                assert(dd == digits);
                assert(hex_digit(dd[i - start]) is None);
            }
            return None;
        };
        if acc > (usize::MAX - d) / 16 {
            proof {
                let m = usize::MAX - d;
                assert(acc * 16 + d > usize::MAX) by (nonlinear_arith)
                    requires
                        acc > m / 16,
                        m == usize::MAX - d,
                        0 <= d < 16,
                ;
                assert(hex_value(digits.take(i - start + 1)) > usize::MAX);
                lemma_hex_grows(digits, i - start + 1, digits.len() as int);
                assert(digits.take(digits.len() as int) =~= digits);
                let dd = unsigned_digits(s@);
                assert(dd == digits);
                assert(hex_value(dd) > usize::MAX);
            }
            return None;
        }
        proof {
            let m = usize::MAX - d;
            assert(acc * 16 + d <= usize::MAX) by (nonlinear_arith)
                requires
                    acc <= m / 16,
                    m == usize::MAX - d,
                    0 <= d < 16,
            ;
        }
        acc = acc * 16 + d;
        i = i + 1;
    }
    proof {
        assert(digits.take(n - start) =~= digits);
    }
    Some(acc)
}

} // verus!
