//! Rendering of percentages and notification messages as text.

use vstd::prelude::*;
use vstd::string::StringExecFns;

use crate::config::all_dec_digits;
use crate::config::dec_value;
use crate::config::digit_value;
use crate::config::is_dec_digit;

verus! {

/// The character for one decimal digit.
pub open spec fn digit_char(d: int) -> char {
    if d == 0 {
        '0'
    } else if d == 1 {
        '1'
    } else if d == 2 {
        '2'
    } else if d == 3 {
        '3'
    } else if d == 4 {
        '4'
    } else if d == 5 {
        '5'
    } else if d == 6 {
        '6'
    } else if d == 7 {
        '7'
    } else if d == 8 {
        '8'
    } else {
        '9'
    }
}

/// The decimal rendering of a non-negative number: most significant
/// digit first, no leading zeros except for the number zero itself.
pub open spec fn dec_seq(n: int) -> Seq<char>
    recommends
        n >= 0,
    decreases n,
{
    if n < 10 {
        seq![digit_char(n)]
    } else {
        dec_seq(n / 10).push(digit_char(n % 10))
    }
}

fn digit_str(d: u64) -> (s: &'static str)
    requires
        d < 10,
    ensures
        s@ =~= seq![digit_char(d as int)],
{
    proof {
        reveal_strlit("0");
        reveal_strlit("1");
        reveal_strlit("2");
        reveal_strlit("3");
        reveal_strlit("4");
        reveal_strlit("5");
        reveal_strlit("6");
        reveal_strlit("7");
        reveal_strlit("8");
        reveal_strlit("9");
    }
    if d == 0 {
        "0"
    } else if d == 1 {
        "1"
    } else if d == 2 {
        "2"
    } else if d == 3 {
        "3"
    } else if d == 4 {
        "4"
    } else if d == 5 {
        "5"
    } else if d == 6 {
        "6"
    } else if d == 7 {
        "7"
    } else if d == 8 {
        "8"
    } else {
        "9"
    }
}

/// Renders a number in decimal.
pub fn dec_string(n: u64) -> (s: String)
    ensures
        s@ == dec_seq(n as int),
    decreases n,
{
    if n < 10 {
        let mut s = String::new();
        s.append(digit_str(n));
        proof {
            assert(s@ =~= dec_seq(n as int));
        }
        s
    } else {
        let mut s = dec_string(n / 10);
        s.append(digit_str(n % 10));
        proof {
            assert(s@ =~= dec_seq(n as int));
        }
        s
    }
}

/// Law: the decimal rendering consists of digits only, and reading it
/// back as a number yields the number it was rendered from.
pub proof fn lemma_dec_seq_round_trip(n: int)
    requires
        n >= 0,
    ensures
        all_dec_digits(dec_seq(n)),
        dec_value(dec_seq(n)) == n,
    decreases n,
{
    if n < 10 {
        assert(is_dec_digit(digit_char(n)));
        assert(dec_seq(n).drop_last() =~= Seq::<char>::empty());
        assert(dec_seq(n).last() == digit_char(n));
        assert(digit_value(digit_char(n)) == n);
        assert(dec_value(Seq::<char>::empty()) == 0);
        assert(dec_value(dec_seq(n)) == dec_value(dec_seq(n).drop_last()) * 10 + digit_value(
            dec_seq(n).last(),
        ));
    } else {
        lemma_dec_seq_round_trip(n / 10);
        assert(dec_seq(n).drop_last() =~= dec_seq(n / 10));
        assert(dec_seq(n).last() == digit_char(n % 10));
        assert(digit_value(digit_char(n % 10)) == n % 10);
        assert(dec_value(dec_seq(n)) == dec_value(dec_seq(n).drop_last()) * 10 + digit_value(
            dec_seq(n).last(),
        ));
        assert forall|i: int| 0 <= i < dec_seq(n).len() implies is_dec_digit(
            #[trigger] dec_seq(n)[i],
        ) by {
            if i < dec_seq(n).len() - 1 {
                assert(dec_seq(n)[i] == dec_seq(n / 10)[i]);
            }
        }
    }
}

/// The compact percentage summary, a decimal number followed by `%`.
pub open spec fn percent_summary_seq(p: int) -> Seq<char> {
    dec_seq(p) + "%"@
}

/// Renders the compact percentage summary for a check result.
pub fn percent_summary(p: u64) -> (s: String)
    ensures
        s@ == percent_summary_seq(p as int),
{
    let mut s = dec_string(p);
    s.append("%");
    s
}

/// A notification message: a fixed prefix, the percentage in decimal,
/// and a fixed suffix.
pub open spec fn message_seq(prefix: Seq<char>, p: int, suffix: Seq<char>) -> Seq<char> {
    prefix + dec_seq(p) + suffix
}

/// Renders a notification message around the percentage `p`.
pub fn build_message(prefix: &str, p: u64, suffix: &str) -> (s: String)
    ensures
        s@ == message_seq(prefix@, p as int, suffix@),
{
    let mut s = String::from_str(prefix);
    let digits = dec_string(p);
    s.append(digits.as_str());
    s.append(suffix);
    proof {
        assert(s@ =~= message_seq(prefix@, p as int, suffix@));
    }
    s
}

} // verus!
