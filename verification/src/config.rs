//! Configuration values: decimal parsing with silent fallback to
//! defaults, and the threshold configuration consumed by the checks.

use vstd::prelude::*;
use vstd::assert_by_contradiction;
use vstd::string::StrSliceExecFns;

use crate::opt_text;

verus! {

/// A decimal digit.
pub open spec fn is_dec_digit(c: char) -> bool {
    '0' <= c && c <= '9'
}

/// The numeric value of one decimal digit.
pub open spec fn digit_value(c: char) -> int {
    c as int - '0' as int
}

/// Whether the text consists of decimal digits only.
pub open spec fn all_dec_digits(s: Seq<char>) -> bool {
    forall|i: int| 0 <= i < s.len() ==> is_dec_digit(#[trigger] s[i])
}

/// The number written by a sequence of decimal digits, most significant
/// digit first.
pub open spec fn dec_value(s: Seq<char>) -> int
    decreases s.len(),
{
    if s.len() == 0 {
        0
    } else {
        dec_value(s.drop_last()) * 10 + digit_value(s.last())
    }
}

/// Whether the text is a plain decimal number that fits in a `u64`:
/// non-empty, digits only, value at most `u64::MAX`.
pub open spec fn parses_as_u64(s: Seq<char>) -> bool {
    s.len() > 0 && all_dec_digits(s) && dec_value(s) <= u64::MAX
}

proof fn lemma_dec_value_nonneg(s: Seq<char>)
    requires
        all_dec_digits(s),
    ensures
        dec_value(s) >= 0,
    decreases s.len(),
{
    if s.len() > 0 {
        assert(all_dec_digits(s.drop_last()));
        lemma_dec_value_nonneg(s.drop_last());
    }
}

proof fn lemma_dec_value_prefix(s: Seq<char>, i: int)
    requires
        all_dec_digits(s),
        0 <= i <= s.len(),
    ensures
        dec_value(s.take(i)) <= dec_value(s),
    decreases s.len() - i,
{
    if i < s.len() {
        assert(s.take(i + 1).drop_last() =~= s.take(i));
        assert(all_dec_digits(s.take(i)));
        lemma_dec_value_nonneg(s.take(i));
        assert(dec_value(s.take(i + 1)) == dec_value(s.take(i)) * 10 + digit_value(s[i]));
        lemma_dec_value_prefix(s, i + 1);
    } else {
        assert(s.take(i) =~= s);
    }
}

/// Parses a plain decimal number. Returns `Some` exactly when the text
/// is non-empty, all decimal digits, and its value fits in a `u64`; a
/// sign, a space or any other character makes the text unparsable.
pub fn parse_u64(s: &str) -> (r: Option<u64>)
    ensures
        r is Some <==> parses_as_u64(s@),
        r is Some ==> r->0 == dec_value(s@),
{
    if !s.is_ascii() {
        proof {
            assert_by_contradiction!(!all_dec_digits(s@), {
                assert forall|j: int| 0 <= j < s@.len() implies '\0' <= #[trigger] s@[j]
                    <= '\u{7f}' by {
                    assert(is_dec_digit(s@[j]));
                }
            });
        }
        return None;
    }
    let len: usize = s.unicode_len();
    if len == 0 {
        return None;
    }
    let mut value: u64 = 0;
    let mut i: usize = 0;
    while i < len
        invariant
            0 <= i <= len,
            len == s@.len(),
            s.is_ascii(),
            all_dec_digits(s@.take(i as int)),
            value == dec_value(s@.take(i as int)),
        decreases len - i,
    {
        let b: u8 = s.get_ascii(i);
        if b < 48 || b > 57 {
            proof {
                assert(s@[i as int] as u8 == b);
                assert(!is_dec_digit(s@[i as int]));
            }
            return None;
        }
        let d: u64 = (b - 48) as u64;
        proof {
            assert(s@.take(i + 1).drop_last() =~= s@.take(i as int));
            assert(is_dec_digit(s@[i as int]));
            assert(digit_value(s@[i as int]) == d);
            assert(all_dec_digits(s@.take(i + 1)));
            assert(dec_value(s@.take(i + 1)) == value * 10 + d);
        }
        if value > u64::MAX / 10 || (value == u64::MAX / 10 && d > u64::MAX % 10) {
            proof {
                assert(value * 10 + d > u64::MAX) by (nonlinear_arith)
                    requires
                        value > u64::MAX / 10 || (value == u64::MAX / 10 && d > u64::MAX % 10),
                        value >= 0,
                        0 <= d <= 9,
                ;
                if all_dec_digits(s@) {
                    lemma_dec_value_prefix(s@, i + 1);
                }
            }
            return None;
        }
        proof {
            assert(value * 10 + d <= u64::MAX) by (nonlinear_arith)
                requires
                    value <= u64::MAX / 10,
                    !(value == u64::MAX / 10 && d > u64::MAX % 10),
                    value >= 0,
                    0 <= d <= 9,
            ;
        }
        value = value * 10 + d;
        i = i + 1;
    }
    proof {
        assert(s@.take(len as int) =~= s@);
    }
    Some(value)
}

/// The value a configuration entry yields: the parsed number where the
/// entry is present and parsable, the documented default otherwise.
/// A parse failure is silently treated as "unset", never as an error.
pub open spec fn with_default_spec(raw: Option<Seq<char>>, default: u64) -> u64 {
    match raw {
        Option::Some(s) => if parses_as_u64(s) {
            dec_value(s) as u64
        } else {
            default
        },
        Option::None => default,
    }
}

/// Reads one configuration entry, falling back to its default when the
/// entry is absent or unparsable.
pub fn parse_with_default(raw: &Option<String>, default: u64) -> (v: u64)
    ensures
        v == with_default_spec(opt_text(*raw), default),
{
    match raw {
        Option::None => default,
        Option::Some(s) => match parse_u64(s.as_str()) {
            Option::Some(v) => v,
            Option::None => default,
        },
    }
}

} // verus!
