//! Decimal text: rendering numbers for messages and reading them back.

use vstd::prelude::*;
use vstd::string::StringExecFns;

verus! {

/// The character of decimal digit `d`.
pub open spec fn digit_char(d: nat) -> char {
    (d + 48) as char
}

/// The decimal representation of `n`, without leading zeros.
pub open spec fn decimal(n: nat) -> Seq<char>
    decreases n,
{
    if n < 10 {
        seq![digit_char(n)]
    } else {
        decimal(n / 10).push(digit_char(n % 10))
    }
}

/// The items of `bytes` in decimal, separated by `", "`.
pub open spec fn byte_items(bytes: Seq<u8>) -> Seq<char>
    decreases bytes.len(),
{
    if bytes.len() == 0 {
        Seq::empty()
    } else if bytes.len() == 1 {
        decimal(bytes[0] as nat)
    } else {
        byte_items(bytes.drop_last()) + ", "@ + decimal(bytes.last() as nat)
    }
}

/// `bytes` as a bracketed list, as `{:?}` prints a byte array.
pub open spec fn byte_list(bytes: Seq<u8>) -> Seq<char> {
    "["@ + byte_items(bytes) + "]"@
}

fn digit_str(d: u64) -> (s: &'static str)
    requires
        d < 10,
    ensures
        s@ == seq![digit_char(d as nat)],
{
    proof {
        reveal_strlit("0");
        reveal_strlit("1");
        reveal_strlit("2");
        reveal_strlit("3");
        reveal_strlit("4");
        reveal_strlit("5");
        reveal_strlit("6");
        reveal_strlit("7");
        reveal_strlit("8");
        reveal_strlit("9");
    }
    if d == 0 {
        "0"
    } else if d == 1 {
        "1"
    } else if d == 2 {
        "2"
    } else if d == 3 {
        "3"
    } else if d == 4 {
        "4"
    } else if d == 5 {
        "5"
    } else if d == 6 {
        "6"
    } else if d == 7 {
        "7"
    } else if d == 8 {
        "8"
    } else {
        "9"
    }
}

/// Appends the decimal representation of `n`.
pub fn push_decimal(s: &mut String, n: u64)
    ensures
        final(s)@ == old(s)@ + decimal(n as nat),
    decreases n,
{
    if n < 10 {
        s.append(digit_str(n));
    } else {
        push_decimal(s, n / 10);
        s.append(digit_str(n % 10));
        assert(decimal(n as nat) == decimal((n / 10) as nat).push(digit_char((n % 10) as nat)));
    }
}

/// Appends `bytes` as a bracketed decimal list.
pub fn push_byte_list(s: &mut String, bytes: &[u8])
    ensures
        final(s)@ == old(s)@ + byte_list(bytes@),
{
    s.append("[");
    let ghost start = s@;
    let n = bytes.len();
    let mut i: usize = 0;
    while i < n
        invariant
            n == bytes@.len(),
            i <= n,
            s@ == start + byte_items(bytes@.subrange(0, i as int)),
        decreases n - i,
    {
        proof {
            let t = bytes@.subrange(0, i + 1);
            assert(t.drop_last() =~= bytes@.subrange(0, i as int));
            assert(t.last() == bytes@[i as int]);
        }
        if i > 0 {
            s.append(", ");
        }
        push_decimal(s, bytes[i] as u64);
        i = i + 1;
        proof {
            let t = bytes@.subrange(0, i as int);
            if i == 1 {
                assert(s@ =~= start + byte_items(t));
            } else {
                assert(s@ =~= start + byte_items(t));
            }
        }
    }
    assert(bytes@.subrange(0, n as int) =~= bytes@);
    s.append("]");
    assert(s@ =~= old(s)@ + byte_list(bytes@));
}

/// The characters of a string slice.
pub(crate) fn chars_of(s: &str) -> (v: Vec<char>)
    ensures
        v@ == s@,
{
    let mut v: Vec<char> = Vec::new();
    for c in it: s.chars()
        invariant
            v@ == it.seq().subrange(0, it.index() as int),
            it.seq() == s@,
    {
        v.push(c);
    }
    v
}

/// Whether every character of `s` is an ASCII digit.
pub open spec fn all_digits(s: Seq<char>) -> bool {
    forall|i: int| 0 <= i < s.len() ==> '0' <= #[trigger] s[i] <= '9'
}

/// The number that the decimal digits `s` spell.
pub open spec fn digits_value(s: Seq<char>) -> nat
    decreases s.len(),
{
    if s.len() == 0 {
        0
    } else {
        digits_value(s.drop_last()) * 10 + (s.last() as nat - '0' as nat) as nat
    }
}

/// The `u64` that `s` spells in decimal, as `str::parse::<u64>` reads it:
/// an optional `+`, then one or more ASCII digits, of a value that fits in
/// 64 bits.
pub open spec fn parsed_u64(s: Seq<char>) -> Option<u64> {
    let d = if s.len() > 0 && s[0] == '+' {
        s.drop_first()
    } else {
        s
    };
    if d.len() > 0 && all_digits(d) && digits_value(d) <= u64::MAX {
        Some(digits_value(d) as u64)
    } else {
        None
    }
}

proof fn lemma_digits_value_grows(s: Seq<char>, i: int)
    requires
        all_digits(s),
        0 <= i <= s.len(),
    ensures
        digits_value(s.subrange(0, i)) <= digits_value(s),
    decreases s.len() - i,
{
    if i < s.len() {
        lemma_digits_value_grows(s, i + 1);
        let t = s.subrange(0, i + 1);
        assert(t.drop_last() =~= s.subrange(0, i));
        assert('0' <= t.last() <= '9');
    } else {
        assert(s.subrange(0, i) =~= s);
    }
}

/// Reads a decimal `u64` the way `str::parse::<u64>` does.
pub fn parse_u64(text: &str) -> (r: Option<u64>)
    ensures
        r == parsed_u64(text@),
{
    let chars = chars_of(text);
    let n = chars.len();
    let start: usize = if n > 0 && chars[0] == '+' {
        1
    } else {
        0
    };
    let ghost d = if text@.len() > 0 && text@[0] == '+' {
        text@.drop_first()
    } else {
        text@
    };
    assert(d =~= chars@.subrange(start as int, n as int));
    if start == n {
        return None;
    }
    let mut acc: u128 = 0;
    let mut i: usize = start;
    while i < n
        invariant
            n == chars@.len(),
            start <= i <= n,
            d == chars@.subrange(start as int, n as int),
            d == (if text@.len() > 0 && text@[0] == '+' {
                text@.drop_first()
            } else {
                text@
            }),
            all_digits(chars@.subrange(start as int, i as int)),
            acc == digits_value(chars@.subrange(start as int, i as int)),
            acc <= u64::MAX,
        decreases n - i,
    {
        let c = chars[i];
        proof {
            let t = chars@.subrange(start as int, i + 1);
            assert(t.drop_last() =~= chars@.subrange(start as int, i as int));
            assert(t.last() == c);
        }
        if !('0' <= c && c <= '9') {
            proof {
                assert(d[i - start] == c);
                assert(!all_digits(d));
            }
            return None;
        }
        let digit = (c as u32 - '0' as u32) as u128;
        acc = acc * 10 + digit;
        i = i + 1;
        proof {
            let t = chars@.subrange(start as int, i as int);
            assert(t.drop_last() =~= chars@.subrange(start as int, i - 1));
            assert(t.last() == c);
            assert(acc == digits_value(t));
            assert forall|k: int| 0 <= k < t.len() implies '0' <= #[trigger] t[k] <= '9' by {
                if k < t.len() - 1 {
                    assert(t[k] == chars@.subrange(start as int, i - 1)[k]);
                }
            }
        }
        if acc > u64::MAX as u128 {
            proof {
                if all_digits(d) {
                    lemma_digits_value_grows(d, i - start);
                    assert(d.subrange(0, i - start) =~= chars@.subrange(start as int, i as int));
                }
            }
            return None;
        }
    }
    assert(chars@.subrange(start as int, n as int) =~= d);
    Some(acc as u64)
}

} // verus!
