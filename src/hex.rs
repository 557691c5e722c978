//! Hexadecimal numerals as `u32::from_str_radix(_, 16)` reads them: an
//! optional `+`, then one or more digits of either case.

use vstd::prelude::*;
use vstd::string::*;

verus! {

pub open spec fn is_hex_digit(c: char) -> bool {
    ('0' <= c && c <= '9') || ('a' <= c && c <= 'f') || ('A' <= c && c <= 'F')
}

pub open spec fn hex_digit_value(c: char) -> int {
    if '0' <= c && c <= '9' {
        c as int - '0' as int
    } else if 'a' <= c && c <= 'f' {
        c as int - 'a' as int + 10
    } else {
        c as int - 'A' as int + 10
    }
}

pub open spec fn all_hex(s: Seq<char>) -> bool {
    forall|i: int| 0 <= i < s.len() ==> is_hex_digit(#[trigger] s[i])
}

/// The number that the digits `s` spell, most significant first.
pub open spec fn hex_value(s: Seq<char>) -> int
    decreases s.len(),
{
    if s.len() == 0 {
        0
    } else {
        16 * hex_value(s.drop_last()) + hex_digit_value(s.last())
    }
}

/// The digits of a numeral: what follows a leading `+`, if there is one.
pub open spec fn hex_digits_of(s: Seq<char>) -> Seq<char> {
    if s.len() > 0 && s[0] == '+' {
        s.drop_first()
    } else {
        s
    }
}

/// The value of the numeral `s`, or `None` where it has no digit, holds a
/// character that is not a digit, or does not fit in 32 bits.
pub open spec fn hex_numeral_value(s: Seq<char>) -> Option<u32> {
    let d = hex_digits_of(s);
    if d.len() > 0 && all_hex(d) && hex_value(d) <= u32::MAX as int {
        Some(hex_value(d) as u32)
    } else {
        None
    }
}

/// Extending a run of digits never lowers its value.
proof fn lemma_hex_value_grows(s: Seq<char>, k: int)
    requires
        all_hex(s),
        0 <= k <= s.len(),
    ensures
        hex_value(s.take(k)) <= hex_value(s),
    decreases s.len(),
{
    if k < s.len() {
        let t = s.drop_last();
        assert(all_hex(t)) by {
            assert forall|i: int| 0 <= i < t.len() implies is_hex_digit(#[trigger] t[i]) by {
                assert(t[i] == s[i]);
            }
        }
        lemma_hex_value_grows(t, k);
        assert(t.take(k) =~= s.take(k));
        lemma_hex_value_nonneg(t);
        assert(is_hex_digit(s[s.len() - 1]));
    } else {
        assert(s.take(k) =~= s);
    }
}

proof fn lemma_hex_value_nonneg(s: Seq<char>)
    requires
        all_hex(s),
    ensures
        hex_value(s) >= 0,
    decreases s.len(),
{
    if s.len() > 0 {
        let t = s.drop_last();
        assert(all_hex(t)) by {
            assert forall|i: int| 0 <= i < t.len() implies is_hex_digit(#[trigger] t[i]) by {
                assert(t[i] == s[i]);
            }
        }
        lemma_hex_value_nonneg(t);
        assert(is_hex_digit(s[s.len() - 1]));
    }
}

/// The value of a single digit character, if it is one.
fn digit_value(c: char) -> (r: Option<u32>)
    ensures
        is_hex_digit(c) <==> r is Some,
        r matches Some(v) ==> v as int == hex_digit_value(c) && v < 16,
{
    if '0' <= c && c <= '9' {
        Some((c as u32) - ('0' as u32))
    } else if 'a' <= c && c <= 'f' {
        Some((c as u32) - ('a' as u32) + 10)
    } else if 'A' <= c && c <= 'F' {
        Some((c as u32) - ('A' as u32) + 10)
    } else {
        None
    }
}

/// Reads a hexadecimal numeral into a `u32`.
pub fn parse_hex(src: &str) -> (r: Option<u32>)
    ensures
        r == hex_numeral_value(src@),
{
    let len = src.unicode_len();
    let mut start: usize = 0;
    if len > 0 && src.get_char(0) == '+' {
        start = 1;
    }
    let ghost d = hex_digits_of(src@);
    assert(d =~= src@.subrange(start as int, len as int));
    if start == len {
        return None;
    }
    let mut acc: u32 = 0;
    let mut i: usize = start;
    while i < len
        invariant
            start <= i <= len,
            len == src@.len(),
            d == src@.subrange(start as int, len as int),
            d == hex_digits_of(src@),
            all_hex(d.take(i - start)),
            acc as int == hex_value(d.take(i - start)),
        decreases len - i,
    {
        let c = src.get_char(i);
        let ghost k = i - start;
        assert(d[k] == c);
        assert(d.take(k + 1).drop_last() =~= d.take(k));
        match digit_value(c) {
            None => {
                assert(!all_hex(d)) by {
                    assert(!is_hex_digit(d[k]));
                }
                return None;
            },
            Some(v) => {
                if acc > (0xFFFF_FFFFu32 - v) / 16 {
                    proof {
                        assert(d.take(k + 1).last() == c);
                        assert(hex_value(d.take(k + 1)) == 16 * acc + v);
                        assert(16 * acc + v > u32::MAX) by (nonlinear_arith)
                            requires
                                acc > (0xFFFF_FFFFu32 - v) / 16,
                                v < 16,
                        ;
                        if all_hex(d) {
                            lemma_hex_value_grows(d, k + 1);
                        }
                    }
                    return None;
                }
                acc = acc * 16 + v;
                proof {
                    assert(all_hex(d.take(k + 1))) by {
                        assert forall|j: int| 0 <= j < k + 1 implies is_hex_digit(
                            #[trigger] d.take(k + 1)[j],
                        ) by {
                            if j < k {
                                assert(d.take(k + 1)[j] == d.take(k)[j]);
                            }
                        }
                    }
                }
            },
        }
        i = i + 1;
    }
    assert(d.take(len - start) =~= d);
    Some(acc)
}

} // verus!
