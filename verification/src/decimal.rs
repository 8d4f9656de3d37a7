//! Decimal text of 32-bit signed integers, as header values carry them.

use vstd::prelude::*;
use crate::text::{chars_of, string_of};

verus! {

/// Whether every character of `s` is an ASCII digit.
pub open spec fn all_digits(s: Seq<char>) -> bool {
    forall|i: int| 0 <= i < s.len() ==> '0' <= #[trigger] s[i] <= '9'
}

/// The value of the digit `c`.
pub open spec fn digit_value(c: char) -> int {
    (c as int) - ('0' as int)
}

/// The number that the digits `s` spell, most significant first.
pub open spec fn digits_value(s: Seq<char>) -> int
    decreases s.len(),
{
    if s.len() == 0 {
        0
    } else {
        digits_value(s.drop_last()) * 10 + digit_value(s.last())
    }
}

/// A string split into its sign (`true` for `-`) and the text after it.
pub open spec fn sign_split(s: Seq<char>) -> (bool, Seq<char>) {
    if s.len() > 0 && (s[0] == '-' || s[0] == '+') {
        (s[0] == '-', s.subrange(1, s.len() as int))
    } else {
        (false, s)
    }
}

/// The `i32` that the sign and digits denote, if they are digits and in range.
pub open spec fn signed_digits_i32(neg: bool, ds: Seq<char>) -> Option<i32> {
    let v = if neg {
        -digits_value(ds)
    } else {
        digits_value(ds)
    };
    if ds.len() == 0 || !all_digits(ds) || v < i32::MIN || v > i32::MAX {
        None
    } else {
        Some(v as i32)
    }
}

/// The `i32` a string denotes in `str::parse::<i32>`'s grammar: an optional
/// `+` or `-` followed by at least one ASCII digit, in range.
pub open spec fn decimal_i32(s: Seq<char>) -> Option<i32> {
    signed_digits_i32(sign_split(s).0, sign_split(s).1)
}

proof fn lemma_digits_value_nonneg(s: Seq<char>)
    requires
        all_digits(s),
    ensures
        digits_value(s) >= 0,
    decreases s.len(),
{
    if s.len() > 0 {
        assert(all_digits(s.drop_last()));
        lemma_digits_value_nonneg(s.drop_last());
        assert('0' <= s[s.len() - 1] <= '9');
    }
}

/// Parses `s` as a decimal `i32`, with the grammar of `str::parse::<i32>`.
pub fn parse_i32(s: &str) -> (r: Option<i32>)
    ensures
        r == decimal_i32(s@),
{
    let cs = chars_of(s);
    let n = cs.len();
    let mut start: usize = 0;
    let mut neg = false;
    if n > 0 && (cs[0] == '-' || cs[0] == '+') {
        neg = cs[0] == '-';
        start = 1;
    }
    let ghost ds = cs@.subrange(start as int, n as int);
    assert(sign_split(s@) == (neg, ds)) by {
        if start == 0 {
            assert(ds =~= s@);
        }
    }
    if start == n {
        return None;
    }
    // The magnitude is accumulated up to one past the largest allowed value.
    let limit: u64 = if neg { 2147483648 } else { 2147483647 };
    let mut acc: u64 = 0;
    let mut i: usize = start;
    while i < n
        invariant
            start <= i <= n,
            n == cs@.len(),
            cs@ == s@,
            ds == cs@.subrange(start as int, n as int),
            sign_split(s@) == (neg, ds),
            limit == (if neg { 2147483648u64 } else { 2147483647u64 }),
            acc <= limit,
            all_digits(cs@.subrange(start as int, i as int)),
            acc == digits_value(cs@.subrange(start as int, i as int)),
        decreases n - i,
    {
        let c = cs[i];
        if c < '0' || c > '9' {
            assert(ds[i - start] == c);
            assert(!all_digits(ds));
            return None;
        }
        let d = (c as u32 - '0' as u32) as u64;
        let ghost prefix = cs@.subrange(start as int, i + 1);
        assert(prefix.drop_last() =~= cs@.subrange(start as int, i as int));
        assert(all_digits(prefix));
        if acc > (limit - d) / 10 {
            // Every later digit only makes the magnitude larger.
            proof {
                lemma_digits_value_nonneg(cs@.subrange(start as int, i as int));
                assert(digits_value(prefix) == acc * 10 + d);
                assert(acc * 10 + d > limit) by (nonlinear_arith)
                    requires
                        acc > (limit - d) / 10,
                        d <= 9,
                        limit >= 9,
                ;
                assert(ds.subrange(0, (i + 1 - start) as int) =~= prefix);
                lemma_digits_value_grows(ds, (i + 1 - start) as int);
                assert(all_digits(ds) ==> digits_value(ds) > limit);
            }
            return None;
        }
        acc = acc * 10 + d;
        i = i + 1;
    }
    assert(cs@.subrange(start as int, n as int) == ds);
    if neg {
        Some((0i64 - acc as i64) as i32)
    } else {
        Some(acc as i32)
    }
}

/// Extending a digit string never makes its value smaller.
proof fn lemma_digits_value_grows(s: Seq<char>, k: int)
    requires
        0 <= k <= s.len(),
        all_digits(s.subrange(0, k)),
    ensures
        all_digits(s) ==> digits_value(s) >= digits_value(s.subrange(0, k)),
    decreases s.len() - k,
{
    if all_digits(s) && k < s.len() {
        assert(all_digits(s.subrange(0, k + 1)));
        lemma_digits_value_grows(s, k + 1);
        let p = s.subrange(0, k + 1);
        assert(p.drop_last() =~= s.subrange(0, k));
        lemma_digits_value_nonneg(s.subrange(0, k));
        assert('0' <= p.last() <= '9');
        assert(digits_value(p) >= digits_value(s.subrange(0, k)));
    } else if all_digits(s) {
        assert(s.subrange(0, k) =~= s);
    }
}

/// The decimal digits of a non-negative number, most significant first.
pub open spec fn digits_of(n: nat) -> Seq<char>
    decreases n,
{
    if n < 10 {
        seq![(('0' as int) + n) as char]
    } else {
        digits_of(n / 10) + seq![(('0' as int) + n % 10) as char]
    }
}

/// The decimal text of `n`, with a leading `-` when negative.
pub open spec fn decimal_text(n: int) -> Seq<char> {
    if n < 0 {
        seq!['-'] + digits_of((-n) as nat)
    } else {
        digits_of(n as nat)
    }
}

proof fn lemma_digits_of(k: nat)
    ensures
        digits_of(k).len() >= 1,
        all_digits(digits_of(k)),
        digits_value(digits_of(k)) == k,
    decreases k,
{
    if k < 10 {
        let c = (('0' as int) + k) as char;
        assert(c as int == ('0' as int) + k);
        assert(digits_of(k) =~= seq![c]);
        assert(seq![c].drop_last() =~= Seq::<char>::empty());
        assert(digits_value(Seq::<char>::empty()) == 0);
        assert(digits_value(seq![c]) == digits_value(seq![c].drop_last()) * 10 + digit_value(c));
    } else {
        let q = (k / 10) as nat;
        let c = (('0' as int) + k % 10) as char;
        lemma_digits_of(q);
        assert(c as int == ('0' as int) + k % 10);
        let d = digits_of(k);
        assert(d =~= digits_of(q) + seq![c]);
        assert(d.drop_last() =~= digits_of(q));
        assert(d.last() == c);
        assert(digits_value(d) == digits_value(d.drop_last()) * 10 + digit_value(c));
        assert(q * 10 + k % 10 == k) by (nonlinear_arith)
            requires
                q == k / 10,
        ;
        assert forall|i: int| 0 <= i < d.len() implies '0' <= #[trigger] d[i] <= '9' by {
            if i < d.len() - 1 {
                assert(d[i] == digits_of(q)[i]);
            }
        }
    }
}

/// The decimal text of a 32-bit integer reads back as that integer: what
/// [`i32_to_decimal`] writes, [`parse_i32`] gives back.
pub proof fn lemma_decimal_roundtrip(n: i32)
    ensures
        decimal_i32(decimal_text(n as int)) == Some(n),
{
    if n < 0 {
        let k = (-(n as int)) as nat;
        lemma_digits_of(k);
        let t = decimal_text(n as int);
        assert(t =~= seq!['-'] + digits_of(k));
        assert(t.subrange(1, t.len() as int) =~= digits_of(k));
    } else {
        let k = n as nat;
        lemma_digits_of(k);
        let d = digits_of(k);
        assert('0' <= d[0] <= '9');
    }
}

/// Appends the decimal digits of `m` to `out`.
fn push_digits(out: &mut Vec<char>, m: u64)
    ensures
        final(out)@ == old(out)@ + digits_of(m as nat),
    decreases m,
{
    if m >= 10 {
        push_digits(out, m / 10);
    }
    out.push(char_of_digit((m % 10) as u32));
    assert(out@ =~= old(out)@ + digits_of(m as nat));
}

/// The decimal text of `n`, as `format!("{n}")` writes it.
pub fn i32_to_decimal(n: i32) -> (r: String)
    ensures
        r@ == decimal_text(n as int),
{
    let mut out: Vec<char> = Vec::new();
    if n < 0 {
        out.push('-');
        push_digits(&mut out, (0i64 - n as i64) as u64);
    } else {
        push_digits(&mut out, n as u64);
    }
    assert(out@ =~= decimal_text(n as int));
    string_of(out.as_slice())
}

/// The decimal text of the unsigned `n`, as `format!("{n}")` writes it.
pub fn u64_to_decimal(n: u64) -> (r: String)
    ensures
        r@ == digits_of(n as nat),
{
    let mut out: Vec<char> = Vec::new();
    push_digits(&mut out, n);
    assert(out@ =~= digits_of(n as nat));
    string_of(out.as_slice())
}

/// The character of the digit `d`.
fn char_of_digit(d: u32) -> (c: char)
    requires
        d < 10,
    ensures
        c as int == ('0' as int) + d,
{
    match d {
        0 => '0',
        1 => '1',
        2 => '2',
        3 => '3',
        4 => '4',
        5 => '5',
        6 => '6',
        7 => '7',
        8 => '8',
        _ => '9',
    }
}

} // verus!
