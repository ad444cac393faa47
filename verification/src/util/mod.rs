use vstd::prelude::*;

pub mod error;

verus! {

use crate::util::error::Error;

/// The result of the library's fallible operations.
pub type HikaruResult<T> = Result<T, Error>;

/// Milliseconds in a year, a day, an hour, a minute and a second, largest first.
pub const TIME_PERIOD_TABLE: [u64; 5] = [31536000000, 86400000, 3600000, 60000, 1000];

/// The unit labels of `TIME_PERIOD_TABLE`, in the same order.
pub const TIME_PERIOD_LABELS: [&'static str; 5] = ["year", "d", "h", "min", "s"];

/// The character of a decimal digit.
pub open spec fn digit_char(d: nat) -> char {
    if d == 0 { '0' }
    else if d == 1 { '1' }
    else if d == 2 { '2' }
    else if d == 3 { '3' }
    else if d == 4 { '4' }
    else if d == 5 { '5' }
    else if d == 6 { '6' }
    else if d == 7 { '7' }
    else if d == 8 { '8' }
    else { '9' }
}

/// The decimal digits of a number, most significant first, without leading zeros.
pub open spec fn spec_decimal(n: nat) -> Seq<char>
    decreases n,
{
    if n < 10 {
        seq![digit_char(n)]
    } else {
        spec_decimal(n / 10).push(digit_char(n % 10))
    }
}

/// A period of milliseconds in its largest unit that it exceeds, rounded down:
/// years, days, hours, minutes or seconds, and plain milliseconds when it
/// exceeds none of them.
pub open spec fn spec_format_time_period(period: u64) -> Seq<char> {
    if period > 31536000000 {
        spec_decimal((period / 31536000000) as nat) + "year"@
    } else if period > 86400000 {
        spec_decimal((period / 86400000) as nat) + "d"@
    } else if period > 3600000 {
        spec_decimal((period / 3600000) as nat) + "h"@
    } else if period > 60000 {
        spec_decimal((period / 60000) as nat) + "min"@
    } else if period > 1000 {
        spec_decimal((period / 1000) as nat) + "s"@
    } else {
        spec_decimal(period as nat) + "ms"@
    }
}

/// The number that a string of decimal digits stands for, read in base 10,
/// each character counting as its distance from '0'.
pub open spec fn decimal_value(digits: Seq<char>) -> int
    decreases digits.len(),
{
    if digits.len() == 0 {
        0
    } else {
        decimal_value(digits.drop_last()) * 10 + (digits.last() as int - '0' as int)
    }
}

/// The character of each decimal digit is the one that many places after '0'.
pub proof fn lemma_digit_char_is_ascii_digit(d: nat)
    requires
        d < 10,
    ensures
        digit_char(d) as int == '0' as int + d,
{
}

/// The digits written for a number are decimal digits, the first of them
/// not '0' unless the number is 0, and read back in base 10 as the number.
pub proof fn lemma_decimal_reads_back(n: nat)
    ensures
        decimal_value(spec_decimal(n)) == n,
        spec_decimal(n).len() > 0,
        forall|i: int| 0 <= i < spec_decimal(n).len() ==>
            '0' <= #[trigger] spec_decimal(n)[i] && spec_decimal(n)[i] <= '9',
        n >= 10 ==> spec_decimal(n)[0] != '0',
    decreases n,
{
    lemma_digit_char_is_ascii_digit(n % 10);
    if n >= 10 {
        lemma_decimal_reads_back(n / 10);
        let prefix = spec_decimal(n / 10);
        assert(spec_decimal(n).drop_last() =~= prefix);
        assert(spec_decimal(n)[0] == prefix[0]);
        assert(n == (n / 10) * 10 + n % 10) by (nonlinear_arith);
        assert(spec_decimal(n).last() == digit_char(n % 10));
        assert(decimal_value(spec_decimal(n))
            == decimal_value(prefix) * 10 + (digit_char(n % 10) as int - '0' as int));
        assert forall|i: int| 0 <= i < spec_decimal(n).len() implies
            '0' <= #[trigger] spec_decimal(n)[i] && spec_decimal(n)[i] <= '9' by {
            if i < prefix.len() {
                assert(spec_decimal(n)[i] == prefix[i]);
            }
        }
        if n / 10 >= 10 {
        } else {
            lemma_digit_char_is_ascii_digit(n / 10);
        }
    } else {
        assert(spec_decimal(n).drop_last() =~= Seq::<char>::empty());
        assert(decimal_value(Seq::<char>::empty()) == 0);
        assert(decimal_value(spec_decimal(n))
            == decimal_value(spec_decimal(n).drop_last()) * 10 + (digit_char(n) as int - '0' as int));
    }
}

/// A period is shown in the largest of a year (365 days), a day, an hour, a
/// minute and a second that it exceeds, as the whole number of that unit it
/// holds, and in milliseconds when it exceeds none of them.
pub proof fn lemma_time_period_units(period: u64)
    ensures
        period > 365 * 24 * 60 * 60 * 1000 ==> spec_format_time_period(period)
            == spec_decimal((period as int / (365int * 24 * 60 * 60 * 1000)) as nat) + "year"@,
        24 * 60 * 60 * 1000 < period <= 365 * 24 * 60 * 60 * 1000 ==> spec_format_time_period(period)
            == spec_decimal((period as int / (24int * 60 * 60 * 1000)) as nat) + "d"@,
        60 * 60 * 1000 < period <= 24 * 60 * 60 * 1000 ==> spec_format_time_period(period)
            == spec_decimal((period as int / (60int * 60 * 1000)) as nat) + "h"@,
        60 * 1000 < period <= 60 * 60 * 1000 ==> spec_format_time_period(period)
            == spec_decimal((period as int / (60int * 1000)) as nat) + "min"@,
        1000 < period <= 60 * 1000 ==> spec_format_time_period(period)
            == spec_decimal((period as int / 1000int) as nat) + "s"@,
        period <= 1000 ==> spec_format_time_period(period) == spec_decimal(period as nat) + "ms"@,
{
}

fn digit_str(d: u64) -> (s: &'static str)
    requires
        d < 10,
    ensures
        s@ == seq![digit_char(d as nat)],
{
    if d == 0 {
        proof { reveal_strlit("0"); }
        "0"
    } else if d == 1 {
        proof { reveal_strlit("1"); }
        "1"
    } else if d == 2 {
        proof { reveal_strlit("2"); }
        "2"
    } else if d == 3 {
        proof { reveal_strlit("3"); }
        "3"
    } else if d == 4 {
        proof { reveal_strlit("4"); }
        "4"
    } else if d == 5 {
        proof { reveal_strlit("5"); }
        "5"
    } else if d == 6 {
        proof { reveal_strlit("6"); }
        "6"
    } else if d == 7 {
        proof { reveal_strlit("7"); }
        "7"
    } else if d == 8 {
        proof { reveal_strlit("8"); }
        "8"
    } else {
        proof { reveal_strlit("9"); }
        "9"
    }
}

/// Appends the decimal digits of `n` to `s`.
pub fn push_decimal(s: &mut String, n: u64)
    ensures
        final(s)@ == old(s)@ + spec_decimal(n as nat),
    decreases n,
{
    if n >= 10 {
        push_decimal(s, n / 10);
    }
    s.append(digit_str(n % 10));
    assert(s@ =~= old(s)@ + spec_decimal(n as nat));
}

/// Shows a period of milliseconds in the largest unit that it exceeds.
pub fn format_time_period(period: u64) -> (res: String)
    ensures
        res@ == spec_format_time_period(period),
{
    let mut index: usize = 0;
    while index < 5
        invariant
            index <= 5,
            forall|j: int| 0 <= j < index ==> period <= #[trigger] TIME_PERIOD_TABLE@[j],
        decreases 5 - index,
    {
        let it = TIME_PERIOD_TABLE[index];
        if period > it {
            let mut res = String::new();
            push_decimal(&mut res, period / it);
            res.append(TIME_PERIOD_LABELS[index]);
            return res;
        }
        index = index + 1;
    }
    let mut res = String::new();
    push_decimal(&mut res, period);
    res.append("ms");
    res
}

} // verus!
