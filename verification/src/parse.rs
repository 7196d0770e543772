//! Decimal integer parsing for configuration and header values, with an
//! exact characterization of which strings parse and to what value.

use vstd::prelude::*;
use vstd::string::*;

verus! {

/// `c` is a decimal digit.
pub open spec fn spec_is_digit(c: char) -> bool {
    48 <= c as u32 <= 57
}

/// Numeric value of the digit `c`.
pub open spec fn spec_digit_val(c: char) -> int {
    (c as u32) - 48
}

/// Every character of `s` is a decimal digit.
pub open spec fn spec_all_digits(s: Seq<char>) -> bool {
    forall|i: int| 0 <= i < s.len() ==> spec_is_digit(#[trigger] s[i])
}

/// The value of `s` read as a decimal numeral, most significant digit first.
pub open spec fn spec_digits_val(s: Seq<char>) -> int
    decreases s.len(),
{
    if s.len() == 0 {
        0
    } else {
        spec_digits_val(s.drop_last()) * 10 + spec_digit_val(s.last())
    }
}

/// A numeral of digits only is never negative.
pub proof fn lemma_digits_val_nonneg(s: Seq<char>)
    requires
        spec_all_digits(s),
    ensures
        spec_digits_val(s) >= 0,
    decreases s.len(),
{
    if s.len() > 0 {
        lemma_digits_val_nonneg(s.drop_last());
    }
}

/// Reading one more digit multiplies the numeral's value by ten and adds
/// that digit.
pub proof fn lemma_digits_val_extend(s: Seq<char>, lo: int, i: int)
    requires
        0 <= lo <= i < s.len(),
    ensures
        spec_digits_val(s.subrange(lo, i + 1)) == spec_digits_val(s.subrange(lo, i)) * 10
            + spec_digit_val(s[i]),
{
    let a = s.subrange(lo, i + 1);
    assert(a.drop_last() =~= s.subrange(lo, i));
}

/// Extending a numeral of digits to the right never decreases its value.
pub proof fn lemma_digits_val_prefix_le(s: Seq<char>, lo: int, i: int)
    requires
        0 <= lo <= i <= s.len(),
        spec_all_digits(s.subrange(lo, s.len() as int)),
    ensures
        spec_digits_val(s.subrange(lo, i)) <= spec_digits_val(s.subrange(lo, s.len() as int)),
    decreases s.len() - i,
{
    if i < s.len() {
        assert(spec_all_digits(s.subrange(lo, i))) by {
            assert(forall|k: int| 0 <= k < i - lo ==> #[trigger] s.subrange(lo, i)[k] == s.subrange(
                lo,
                s.len() as int,
            )[k]);
        }
        lemma_digits_val_nonneg(s.subrange(lo, i));
        lemma_digits_val_extend(s, lo, i);
        assert(spec_is_digit(s[i])) by {
            assert(s.subrange(lo, s.len() as int)[i - lo] == s[i]);
        }
        lemma_digits_val_prefix_le(s, lo, i + 1);
    } else {
        assert(s.subrange(lo, i) =~= s.subrange(lo, s.len() as int));
    }
}

/// `s` is a valid decimal numeral for a `u64`: non-empty, digits only, and
/// in range.
pub open spec fn spec_parses_u64(s: Seq<char>) -> bool {
    &&& s.len() > 0
    &&& spec_all_digits(s)
    &&& spec_digits_val(s) <= u64::MAX
}

/// Parses a decimal `u64`, accepting exactly the non-empty all-digit
/// strings whose value fits.
pub fn parse_u64(s: &str) -> (r: Option<u64>)
    ensures
        r is Some <==> spec_parses_u64(s@),
        r is Some ==> r->Some_0 == spec_digits_val(s@),
{
    let n = s.unicode_len();
    if n == 0 {
        return None;
    }
    let mut acc: u64 = 0;
    let mut i: usize = 0;
    while i < n
        invariant
            0 <= i <= n,
            n == s@.len(),
            spec_all_digits(s@.subrange(0, i as int)),
            acc == spec_digits_val(s@.subrange(0, i as int)),
        decreases n - i,
    {
        let c = s.get_char(i);
        let d = c as u32;
        if d < 48 || d > 57 {
            proof {
                assert(!spec_is_digit(s@[i as int]));
            }
            return None;
        }
        let dv = (d - 48) as u64;
        proof {
            lemma_digits_val_extend(s@, 0, i as int);
        }
        if acc > (u64::MAX - dv) / 10 {
            proof {
                lemma_digits_val_nonneg(s@.subrange(0, i as int));
                assert(spec_digits_val(s@.subrange(0, i as int + 1)) > u64::MAX);
                if spec_all_digits(s@) {
                    lemma_digits_val_prefix_le(s@, 0, i as int + 1);
                    assert(s@.subrange(0, s@.len() as int) =~= s@);
                }
            }
            return None;
        }
        acc = acc * 10 + dv;
        proof {
            assert(forall|k: int| 0 <= k < i + 1 ==> #[trigger] s@.subrange(0, i as int + 1)[k]
                == s@[k]);
        }
        i = i + 1;
    }
    proof {
        assert(s@.subrange(0, n as int) =~= s@);
    }
    Some(acc)
}

/// `s` begins with an explicit sign character.
pub open spec fn spec_has_sign(s: Seq<char>) -> bool {
    s.len() > 0 && (s[0] == '+' || s[0] == '-')
}

/// `s` denotes a negative number.
pub open spec fn spec_is_neg(s: Seq<char>) -> bool {
    s.len() > 0 && s[0] == '-'
}

/// The digits of `s`, with any leading sign removed.
pub open spec fn spec_digits_part(s: Seq<char>) -> Seq<char> {
    if spec_has_sign(s) {
        s.subrange(1, s.len() as int)
    } else {
        s
    }
}

/// `s` is a valid decimal numeral for an `i32`: an optional single sign,
/// then at least one digit, with the signed value in range.
pub open spec fn spec_parses_i32(s: Seq<char>) -> bool {
    let d = spec_digits_part(s);
    &&& d.len() > 0
    &&& spec_all_digits(d)
    &&& if spec_is_neg(s) {
        spec_digits_val(d) <= 0x8000_0000
    } else {
        spec_digits_val(d) <= 0x7fff_ffff
    }
}

/// The signed value `s` denotes.
pub open spec fn spec_i32_val(s: Seq<char>) -> int {
    if spec_is_neg(s) {
        -spec_digits_val(spec_digits_part(s))
    } else {
        spec_digits_val(spec_digits_part(s))
    }
}

/// Parses a decimal `i32` with an optional leading sign, accepting exactly
/// the numerals whose value fits.
pub fn parse_i32(s: &str) -> (r: Option<i32>)
    ensures
        r is Some <==> spec_parses_i32(s@),
        r is Some ==> r->Some_0 == spec_i32_val(s@),
{
    let n = s.unicode_len();
    if n == 0 {
        return None;
    }
    let c0 = s.get_char(0);
    let neg = c0 == '-';
    let start: usize = if c0 == '-' || c0 == '+' {
        1
    } else {
        0
    };
    if start == n {
        return None;
    }
    let limit: u64 = if neg {
        0x8000_0000
    } else {
        0x7fff_ffff
    };
    let ghost dpart = spec_digits_part(s@);
    proof {
        assert(dpart =~= s@.subrange(start as int, n as int));
    }
    let mut acc: u64 = 0;
    let mut i: usize = start;
    while i < n
        invariant
            start <= i <= n,
            n == s@.len(),
            start < n,
            start == if spec_has_sign(s@) { 1int } else { 0int },
            neg == spec_is_neg(s@),
            limit == if neg { 0x8000_0000u64 } else { 0x7fff_ffffu64 },
            dpart == s@.subrange(start as int, n as int),
            dpart == spec_digits_part(s@),
            spec_all_digits(s@.subrange(start as int, i as int)),
            acc == spec_digits_val(s@.subrange(start as int, i as int)),
            acc <= limit,
        decreases n - i,
    {
        let c = s.get_char(i);
        let d = c as u32;
        if d < 48 || d > 57 {
            proof {
                assert(dpart[i - start as int] == s@[i as int]);
                assert(!spec_all_digits(dpart));
            }
            return None;
        }
        let dv = (d - 48) as u64;
        proof {
            lemma_digits_val_extend(s@, start as int, i as int);
        }
        if acc > (limit - dv) / 10 {
            proof {
                lemma_digits_val_nonneg(s@.subrange(start as int, i as int));
                assert(spec_digits_val(s@.subrange(start as int, i as int + 1)) > limit);
                if spec_all_digits(dpart) {
                    lemma_digits_val_prefix_le(s@, start as int, i as int + 1);
                }
            }
            return None;
        }
        acc = acc * 10 + dv;
        proof {
            assert(forall|k: int| 0 <= k < i + 1 - start ==> #[trigger] s@.subrange(
                start as int,
                i as int + 1,
            )[k] == s@[k + start]);
        }
        i = i + 1;
    }
    if neg {
        let v: i64 = -(acc as i64);
        Some(v as i32)
    } else {
        Some(acc as i32)
    }
}

} // verus!
