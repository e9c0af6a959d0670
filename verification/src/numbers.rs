//! Decimal and big-endian integer codecs used for identifiers on the wire.

use vstd::prelude::*;
use vstd::string::*;

verus! {

/// A character between `'0'` and `'9'`.
pub open spec fn is_digit(c: char) -> bool {
    '0' <= c && c <= '9'
}

/// The number a decimal digit character stands for.
pub open spec fn digit_value(c: char) -> nat {
    (c as int - '0' as int) as nat
}

/// The character of a decimal digit below ten.
pub open spec fn digit_char(d: nat) -> char {
    ((d + '0' as nat) as u32) as char
}

/// Every character of `s` is a decimal digit.
pub open spec fn all_digits(s: Seq<char>) -> bool {
    forall|i: int| 0 <= i < s.len() ==> #[trigger] is_digit(s[i])
}

/// The value of a sequence of decimal digits, most significant first.
pub open spec fn digits_value(s: Seq<char>) -> nat
    decreases s.len(),
{
    if s.len() == 0 {
        0
    } else {
        digits_value(s.drop_last()) * 10 + digit_value(s.last())
    }
}

/// What parsing `s` as an unsigned 64-bit integer gives: an optional leading
/// `+` followed by at least one decimal digit, with a value that fits.
pub open spec fn spec_parse_u64(s: Seq<char>) -> Option<u64> {
    let digits = if s.len() > 0 && s[0] == '+' { s.drop_first() } else { s };
    if digits.len() > 0 && all_digits(digits) && digits_value(digits) <= u64::MAX {
        Some(digits_value(digits) as u64)
    } else {
        None
    }
}

/// The shortest decimal representation of `n`.
pub open spec fn decimal_digits(n: nat) -> Seq<char>
    decreases n,
{
    if n < 10 {
        seq![digit_char(n)]
    } else {
        decimal_digits(n / 10).push(digit_char(n % 10))
    }
}

/// The value of bytes read as a big-endian unsigned number.
pub open spec fn be_value(s: Seq<u8>) -> nat
    decreases s.len(),
{
    if s.len() == 0 {
        0
    } else {
        be_value(s.drop_last()) * 256 + s.last() as nat
    }
}

proof fn lemma_digit_char_roundtrip(d: nat)
    requires
        d < 10,
    ensures
        is_digit(digit_char(d)),
        digit_value(digit_char(d)) == d,
{
}

/// Adding digits never makes the value smaller.
proof fn lemma_digits_value_prefix(s: Seq<char>, j: int)
    requires
        all_digits(s),
        0 <= j <= s.len(),
    ensures
        digits_value(s.take(j)) <= digits_value(s),
    decreases s.len(),
{
    if j < s.len() {
        let t = s.drop_last();
        assert(all_digits(t)) by {
            assert forall|i: int| 0 <= i < t.len() implies #[trigger] is_digit(t[i]) by {
                assert(t[i] == s[i]);
            }
        }
        lemma_digits_value_prefix(t, j);
        assert(t.take(j) =~= s.take(j));
    } else {
        assert(s.take(j) =~= s);
    }
}

/// The decimal representation consists of digits and denotes the number.
proof fn lemma_decimal_digits(n: nat)
    ensures
        all_digits(decimal_digits(n)),
        digits_value(decimal_digits(n)) == n,
        decimal_digits(n).len() > 0,
        decimal_digits(n)[0] != '+',
    decreases n,
{
    if n < 10 {
        lemma_digit_char_roundtrip(n);
        assert(decimal_digits(n).drop_last() =~= Seq::<char>::empty());
        assert(digits_value(Seq::<char>::empty()) == 0);
        assert(digits_value(decimal_digits(n)) == digits_value(decimal_digits(n).drop_last()) * 10
            + digit_value(decimal_digits(n).last()));
    } else {
        lemma_decimal_digits(n / 10);
        lemma_digit_char_roundtrip(n % 10);
        let s = decimal_digits(n);
        let p = decimal_digits(n / 10);
        assert(s.drop_last() =~= p);
        assert(all_digits(s)) by {
            assert forall|i: int| 0 <= i < s.len() implies #[trigger] is_digit(s[i]) by {
                if i < p.len() {
                    assert(s[i] == p[i]);
                }
            }
        }
        assert(s[0] == p[0]);
        assert(s.last() == digit_char(n % 10));
        assert((n / 10) * 10 + n % 10 == n) by (nonlinear_arith);
        assert(digits_value(s) == digits_value(s.drop_last()) * 10 + digit_value(s.last()));
    }
}

/// Printing a number in decimal and parsing the text back gives the number.
pub proof fn lemma_parse_decimal_roundtrip(n: u64)
    ensures
        spec_parse_u64(decimal_digits(n as nat)) == Some(n),
{
    lemma_decimal_digits(n as nat);
}

/// Parses a decimal unsigned 64-bit integer as `u64::from_str` does: an
/// optional `+`, then one or more digits, without overflow.
pub fn parse_u64(s: &str) -> (r: Option<u64>)
    ensures
        r == spec_parse_u64(s@),
{
    let len = s.unicode_len();
    let mut start: usize = 0;
    if len > 0 && s.get_char(0) == '+' {
        start = 1;
    }
    let ghost digits = if s@.len() > 0 && s@[0] == '+' { s@.drop_first() } else { s@ };
    assert(digits =~= s@.subrange(start as int, len as int));
    if start >= len {
        return None;
    }
    let mut acc: u64 = 0;
    let mut i: usize = start;
    while i < len
        invariant
            start <= i <= len,
            len == s@.len(),
            digits =~= s@.subrange(start as int, len as int),
            digits == (if s@.len() > 0 && s@[0] == '+' { s@.drop_first() } else { s@ }),
            forall|k: int| 0 <= k < i - start ==> #[trigger] is_digit(digits[k]),
            acc as nat == digits_value(digits.take(i - start)),
        decreases len - i,
    {
        let c = s.get_char(i);
        assert(c == digits[i - start]);
        if !('0' <= c && c <= '9') {
            assert(!is_digit(digits[i - start]));
            assert(!all_digits(digits));
            return None;
        }
        let d = (c as u32 - '0' as u32) as u64;
        assert(digits.take(i - start + 1).drop_last() =~= digits.take(i - start));
        assert(digits.take(i - start + 1).last() == c);
        match acc.checked_mul(10) {
            None => {
                proof {
                    if all_digits(digits) {
                        lemma_digits_value_prefix(digits, i - start + 1);
                    }
                }
                return None;
            },
            Some(m) => match m.checked_add(d) {
                None => {
                    proof {
                        if all_digits(digits) {
                            lemma_digits_value_prefix(digits, i - start + 1);
                        }
                    }
                    return None;
                },
                Some(v) => {
                    acc = v;
                },
            },
        }
        i = i + 1;
    }
    assert(digits.take(len - start) =~= digits);
    Some(acc)
}

/// The one-character text of a decimal digit.
fn digit_text(d: u64) -> (t: &'static str)
    requires
        d < 10,
    ensures
        t@ == seq![digit_char(d as nat)],
{
    proof {
        reveal_strlit("0");
        reveal_strlit("1");
        reveal_strlit("2");
        reveal_strlit("3");
        reveal_strlit("4");
        reveal_strlit("5");
        reveal_strlit("6");
        reveal_strlit("7");
        reveal_strlit("8");
        reveal_strlit("9");
    }
    match d {
        0 => "0",
        1 => "1",
        2 => "2",
        3 => "3",
        4 => "4",
        5 => "5",
        6 => "6",
        7 => "7",
        8 => "8",
        _ => "9",
    }
}

/// Formats `n` in decimal, as `n.to_string()` does.
pub fn u64_to_decimal(n: u64) -> (s: String)
    ensures
        s@ == decimal_digits(n as nat),
{
    // collect the quotients n, n / 10, n / 100, ... down to a single digit
    let mut quotients: Vec<u64> = Vec::new();
    let mut q: u64 = n;
    quotients.push(q);
    while q >= 10
        invariant
            quotients@.len() > 0,
            quotients@.last() == q,
            forall|k: int| 0 <= k < quotients@.len() - 1 ==> #[trigger] quotients@[k] >= 10
                && quotients@[k + 1] == quotients@[k] / 10,
            quotients@[0] == n,
        decreases q,
    {
        q = q / 10;
        quotients.push(q);
    }
    let mut out = String::new();
    let mut j: usize = quotients.len();
    while j > 0
        invariant
            0 <= j <= quotients@.len(),
            quotients@.len() > 0,
            quotients@.last() < 10,
            forall|k: int| 0 <= k < quotients@.len() - 1 ==> #[trigger] quotients@[k] >= 10
                && quotients@[k + 1] == quotients@[k] / 10,
            quotients@[0] == n,
            j < quotients@.len() ==> out@ == decimal_digits(quotients@[j as int] as nat),
            j == quotients@.len() ==> out@ == Seq::<char>::empty(),
        decreases j,
    {
        let v = quotients[j - 1];
        if j == quotients.len() {
            out.append(digit_text(v));
            assert(out@ =~= decimal_digits(v as nat));
        } else {
            let next = quotients[j];
            assert(next == v / 10);
            out.append(digit_text(v % 10));
            assert(out@ =~= decimal_digits(v as nat));
        }
        j = j - 1;
    }
    out
}

/// `256` raised to the power `i`.
pub open spec fn pow256(i: nat) -> nat
    decreases i,
{
    if i == 0 {
        1
    } else {
        pow256((i - 1) as nat) * 256
    }
}

proof fn lemma_pow256_small(i: nat)
    requires
        i <= 8,
    ensures
        pow256(i) <= 0x1_0000_0000_0000_0000,
{
    reveal_with_fuel(pow256, 9);
}

/// Reads exactly eight bytes as a big-endian `u64`, as `u64::from_be_bytes`
/// after a length check does; any other length gives `None`.
pub fn u64_from_be_slice(bytes: &[u8]) -> (r: Option<u64>)
    ensures
        bytes@.len() == 8 ==> r == Some(be_value(bytes@) as u64),
        bytes@.len() != 8 ==> r is None,
        r matches Some(v) ==> v as nat == be_value(bytes@),
{
    if bytes.len() != 8 {
        return None;
    }
    let mut acc: u64 = 0;
    let mut i: usize = 0;
    while i < 8
        invariant
            0 <= i <= 8,
            bytes@.len() == 8,
            acc as nat == be_value(bytes@.take(i as int)),
            acc as nat + 1 <= pow256(i as nat),
        decreases 8 - i,
    {
        let b = bytes[i];
        proof {
            lemma_pow256_small((i + 1) as nat);
            let p = pow256(i as nat);
            assert(pow256((i + 1) as nat) == p * 256);
            assert(acc * 256 + b + 1 <= p * 256) by (nonlinear_arith)
                requires
                    acc + 1 <= p,
                    b <= 255,
            ;
        }
        acc = acc * 256 + b as u64;
        assert(bytes@.take(i as int + 1).drop_last() =~= bytes@.take(i as int));
        i = i + 1;
    }
    assert(bytes@.take(8) =~= bytes@);
    Some(acc)
}

} // verus!
