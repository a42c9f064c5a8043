//! Canonical decimal text of integers, as ASCII bytes.

use vstd::prelude::*;

verus! {

/// The ASCII byte of the decimal digit `d`, for `0 <= d <= 9`.
pub open spec fn digit(d: int) -> u8 {
    (48 + d) as u8
}

/// Whether `b` is one of the bytes `'0'..='9'`.
pub open spec fn is_digit(b: u8) -> bool {
    48 <= b <= 57
}

/// The decimal text of a natural number: no sign, no leading zero, `"0"` for zero.
pub open spec fn decimal_nat(n: nat) -> Seq<u8>
    decreases n,
{
    if n < 10 {
        seq![digit(n as int)]
    } else {
        decimal_nat(n / 10).push(digit((n % 10) as int))
    }
}

/// The decimal text of an integer: `decimal_nat`, behind a `'-'` when negative.
pub open spec fn decimal(i: int) -> Seq<u8> {
    if i < 0 {
        seq![45u8] + decimal_nat((-i) as nat)
    } else {
        decimal_nat(i as nat)
    }
}

/// The number that a sequence of digit bytes spells, most significant first.
pub open spec fn digits_value(s: Seq<u8>) -> nat
    decreases s.len(),
{
    if s.len() == 0 {
        0
    } else {
        (digits_value(s.drop_last()) * 10 + (s.last() - 48)) as nat
    }
}

/// Whether `s` is the canonical text of some natural number.
pub open spec fn is_canonical_nat(s: Seq<u8>) -> bool {
    &&& s.len() >= 1
    &&& forall|i: int| 0 <= i < s.len() ==> is_digit(#[trigger] s[i])
    &&& (s.len() == 1 || s[0] != 48)
}

/// `decimal_nat(n)` is canonical and spells `n`.
pub proof fn lemma_decimal_nat_canonical(n: nat)
    ensures
        is_canonical_nat(decimal_nat(n)),
        digits_value(decimal_nat(n)) == n,
        n == 0 <==> decimal_nat(n) == seq![48u8],
    decreases n,
{
    reveal_with_fuel(digits_value, 2);
    if n < 10 {
        assert(decimal_nat(n).drop_last() =~= Seq::<u8>::empty());
        if decimal_nat(n) == seq![48u8] {
            assert(decimal_nat(n)[0] == 48u8);
        }
    } else {
        let head = decimal_nat(n / 10);
        lemma_decimal_nat_canonical(n / 10);
        let s = decimal_nat(n);
        assert(s.drop_last() =~= head);
        assert(s[0] == head[0]);
        if s == seq![48u8] {
            assert(s.len() == 1);
        }
    }
}

/// A canonical digit sequence is the decimal text of the number it spells.
pub proof fn lemma_canonical_is_decimal(s: Seq<u8>)
    requires
        is_canonical_nat(s),
    ensures
        decimal_nat(digits_value(s)) == s,
    decreases s.len(),
{
    reveal_with_fuel(digits_value, 2);
    if s.len() == 1 {
        assert(s.drop_last() =~= Seq::<u8>::empty());
        assert(decimal_nat(digits_value(s)) =~= s);
    } else {
        let head = s.drop_last();
        assert(is_canonical_nat(head)) by {
            assert forall|i: int| 0 <= i < head.len() implies is_digit(#[trigger] head[i]) by {
                assert(head[i] == s[i]);
            }
            assert(head[0] == s[0]);
        }
        lemma_canonical_is_decimal(head);
        lemma_leading_digit_value(head);
        let v = digits_value(head);
        let d = (s.last() - 48) as nat;
        assert(is_digit(s[s.len() - 1]));
        assert(digits_value(s) == v * 10 + d);
        assert(v >= 1);
        assert((v * 10 + d) / 10 == v && (v * 10 + d) % 10 == d) by (nonlinear_arith)
            requires
                d < 10,
        ;
        assert(decimal_nat(digits_value(s)) =~= s);
    }
}

/// A digit sequence that does not start with `'0'` spells a positive number.
proof fn lemma_leading_digit_value(s: Seq<u8>)
    requires
        s.len() >= 1,
        forall|i: int| 0 <= i < s.len() ==> is_digit(#[trigger] s[i]),
        s[0] != 48,
    ensures
        digits_value(s) >= 1,
    decreases s.len(),
{
    reveal_with_fuel(digits_value, 2);
    if s.len() == 1 {
        assert(s.drop_last() =~= Seq::<u8>::empty());
        assert(is_digit(s[0]));
    } else {
        let head = s.drop_last();
        assert forall|i: int| 0 <= i < head.len() implies is_digit(#[trigger] head[i]) by {
            assert(head[i] == s[i]);
        }
        assert(head[0] == s[0]);
        lemma_leading_digit_value(head);
        assert(is_digit(s[s.len() - 1]));
    }
}

/// Two natural numbers with the same decimal text are equal.
pub proof fn lemma_decimal_nat_injective(a: nat, b: nat)
    requires
        decimal_nat(a) == decimal_nat(b),
    ensures
        a == b,
{
    lemma_decimal_nat_canonical(a);
    lemma_decimal_nat_canonical(b);
}

/// The text of an integer starts with `'-'` exactly when the integer is negative.
pub proof fn lemma_decimal_sign(i: int)
    ensures
        decimal(i).len() >= 1,
        i < 0 <==> decimal(i)[0] == 45u8,
        i < 0 ==> decimal(i).subrange(1, decimal(i).len() as int) == decimal_nat((-i) as nat),
{
    if i < 0 {
        let rest = decimal_nat((-i) as nat);
        assert(decimal(i).subrange(1, decimal(i).len() as int) =~= rest);
    } else {
        lemma_decimal_nat_canonical(i as nat);
        assert(is_digit(decimal_nat(i as nat)[0]));
    }
}

/// Two integers with the same decimal text are equal.
pub proof fn lemma_decimal_injective(a: int, b: int)
    requires
        decimal(a) == decimal(b),
    ensures
        a == b,
{
    lemma_decimal_sign(a);
    lemma_decimal_sign(b);
    if a < 0 {
        lemma_decimal_nat_injective((-a) as nat, (-b) as nat);
    } else {
        lemma_decimal_nat_injective(a as nat, b as nat);
    }
}

/// Appends the decimal text of `n` to `buf`.
pub fn push_decimal_u64(buf: &mut Vec<u8>, n: u64)
    ensures
        final(buf)@ == old(buf)@ + decimal_nat(n as nat),
    decreases n,
{
    if n >= 10 {
        push_decimal_u64(buf, n / 10);
    }
    let d: u8 = (n % 10) as u8;
    buf.push(48u8 + d);
    assert(buf@ =~= old(buf)@ + decimal_nat(n as nat));
}

/// Appends the decimal text of `i` to `buf`.
pub fn push_decimal_i64(buf: &mut Vec<u8>, i: i64)
    ensures
        final(buf)@ == old(buf)@ + decimal(i as int),
{
    if i < 0 {
        buf.push(45u8);
        let magnitude: u64 = if i == i64::MIN {
            0x8000_0000_0000_0000u64
        } else {
            (-i) as u64
        };
        push_decimal_u64(buf, magnitude);
        assert(buf@ =~= old(buf)@ + decimal(i as int));
    } else {
        push_decimal_u64(buf, i as u64);
    }
}

/// A prefix of a digit sequence spells no more than the whole sequence.
proof fn lemma_prefix_value(s: Seq<u8>, k: int)
    requires
        0 <= k <= s.len(),
        forall|i: int| 0 <= i < s.len() ==> is_digit(#[trigger] s[i]),
    ensures
        digits_value(s.take(k)) <= digits_value(s),
    decreases s.len(),
{
    if k == s.len() {
        assert(s.take(k) =~= s);
    } else {
        let head = s.drop_last();
        assert forall|i: int| 0 <= i < head.len() implies is_digit(#[trigger] head[i]) by {
            assert(head[i] == s[i]);
        }
        lemma_prefix_value(head, k);
        assert(head.take(k) =~= s.take(k));
        assert(is_digit(s[s.len() - 1]));
    }
}

/// Whether `s` is one digit or more and nothing else.
pub open spec fn is_digits(s: Seq<u8>) -> bool {
    &&& s.len() >= 1
    &&& forall|i: int| 0 <= i < s.len() ==> is_digit(#[trigger] s[i])
}

/// Reads `s[from..to]` as a number no larger than `max`, written in digits;
/// leading zeros are taken.
///
/// Returns the number that the window spells when the window is made of
/// digits and spells no more than `max`, and `None` otherwise.
pub fn parse_digits(s: &[u8], from: usize, to: usize, max: u64) -> (r: Option<u64>)
    requires
        from <= to <= s.len(),
    ensures
        ({
            let window = s@.subrange(from as int, to as int);
            r == if is_digits(window) && digits_value(window) <= max {
                Some(digits_value(window) as u64)
            } else {
                None
            }
        }),
{
    let ghost window = s@.subrange(from as int, to as int);
    if from == to {
        return None;
    }
    let mut value: u64 = 0;
    let mut i: usize = from;
    while i < to
        invariant
            from <= i <= to <= s.len(),
            window == s@.subrange(from as int, to as int),
            forall|j: int| 0 <= j < i - from ==> is_digit(#[trigger] window[j]),
            value == digits_value(window.take(i - from)),
            value <= max,
        decreases to - i,
    {
        let b: u8 = s[i];
        let ghost k = i - from;
        assert(window[k] == b);
        if b < 48u8 || b > 57u8 {
            return None;
        }
        let d: u64 = (b - 48u8) as u64;
        let ghost next = window.take(k + 1);
        assert(next.drop_last() =~= window.take(k));
        assert(digits_value(next) == value * 10 + d);
        if d > max || value > (max - d) / 10 {
            proof {
                assert(value * 10 + d > max) by (nonlinear_arith)
                    requires
                        d > max || value > (max - d) / 10,
                        d >= 0,
                        value >= 0,
                ;
                if is_digits(window) {
                    lemma_prefix_value(window, k + 1);
                }
            }
            return None;
        }
        assert(value * 10 + d <= max) by (nonlinear_arith)
            requires
                d <= max,
                value <= (max - d) / 10,
        ;
        value = value * 10 + d;
        i = i + 1;
    }
    assert(window.take(to - from) =~= window);
    Some(value)
}

/// Reads `s[from..to]` as the canonical decimal text of a number no larger than `max`.
///
/// Returns the number when the window is exactly `decimal_nat` of it, and
/// `None` when it is the text of no number up to `max`.
pub fn parse_decimal_nat(s: &[u8], from: usize, to: usize, max: u64) -> (r: Option<u64>)
    requires
        from <= to <= s.len(),
    ensures
        match r {
            Some(n) => n <= max && s@.subrange(from as int, to as int) == decimal_nat(n as nat),
            None => forall|n: nat|
                n <= max ==> s@.subrange(from as int, to as int) != #[trigger] decimal_nat(n),
        },
{
    let ghost window = s@.subrange(from as int, to as int);
    let leading_zero = to - from > 1 && s[from] == 48u8;
    let parsed = if leading_zero {
        None
    } else {
        parse_digits(s, from, to, max)
    };
    proof {
        match parsed {
            Some(n) => {
                assert(window[0] == s@[from as int]);
                lemma_canonical_is_decimal(window);
            },
            None => {
                assert forall|n: nat| n <= max implies window != #[trigger] decimal_nat(n) by {
                    lemma_decimal_nat_canonical(n);
                    if window == decimal_nat(n) {
                        assert(window[0] == s@[from as int]);
                    }
                }
            },
        }
    }
    parsed
}

/// Reads `s[from..to]` as the canonical decimal text of an `i32`.
///
/// Returns the number when the window is exactly `decimal` of it, and `None`
/// when it is the text of no `i32`.
pub fn parse_decimal_i32(s: &[u8], from: usize, to: usize) -> (r: Option<i32>)
    requires
        from <= to <= s.len(),
    ensures
        match r {
            Some(i) => s@.subrange(from as int, to as int) == decimal(i as int),
            None => forall|i: int|
                i32::MIN <= i <= i32::MAX ==> s@.subrange(from as int, to as int)
                    != #[trigger] decimal(i),
        },
{
    let ghost window = s@.subrange(from as int, to as int);
    if from < to && s[from] == 45u8 {
        let ghost rest = s@.subrange(from + 1, to as int);
        assert(window =~= seq![45u8] + rest);
        assert(rest =~= window.subrange(1, window.len() as int));
        match parse_decimal_nat(s, from + 1, to, 0x8000_0000u64) {
            Some(m) => {
                if m == 0 {
                    proof {
                        assert forall|i: int| i32::MIN <= i <= i32::MAX implies window
                            != #[trigger] decimal(i) by {
                            lemma_decimal_sign(i);
                            if window == decimal(i) {
                                lemma_decimal_nat_injective((-i) as nat, 0);
                            }
                        }
                    }
                    None
                } else if m == 0x8000_0000u64 {
                    Some(i32::MIN)
                } else {
                    Some(-(m as i32))
                }
            },
            None => {
                proof {
                    assert forall|i: int| i32::MIN <= i <= i32::MAX implies window
                        != #[trigger] decimal(i) by {
                        lemma_decimal_sign(i);
                        if window == decimal(i) {
                            assert(rest == decimal_nat((-i) as nat));
                        }
                    }
                }
                None
            },
        }
    } else {
        match parse_decimal_nat(s, from, to, 0x7fff_ffffu64) {
            Some(m) => Some(m as i32),
            None => {
                proof {
                    assert forall|i: int| i32::MIN <= i <= i32::MAX implies window
                        != #[trigger] decimal(i) by {
                        lemma_decimal_sign(i);
                        if window == decimal(i) {
                            assert(window[0] == s@[from as int]);
                            assert(window == decimal_nat(i as nat));
                        }
                    }
                }
                None
            },
        }
    }
}

} // verus!
