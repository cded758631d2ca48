//! Text readouts for render progress: decimal numerals, sample counts
//! abbreviated with one decimal place (`"1.5K"`, `"2.0M"`), and elapsed time
//! as zero-padded `hh:mm:ss`.

use vstd::prelude::*;
use vstd::string::StringExecFns;

verus! {

/// The decimal digit character for `d` (`0 <= d <= 9`).
pub open spec fn spec_digit(d: int) -> char {
    if d == 0 {
        '0'
    } else if d == 1 {
        '1'
    } else if d == 2 {
        '2'
    } else if d == 3 {
        '3'
    } else if d == 4 {
        '4'
    } else if d == 5 {
        '5'
    } else if d == 6 {
        '6'
    } else if d == 7 {
        '7'
    } else if d == 8 {
        '8'
    } else {
        '9'
    }
}

/// The decimal numeral of `n`, most significant digit first, no leading zeros
/// (a single `'0'` for zero).
pub open spec fn spec_decimal(n: int) -> Seq<char>
    decreases n,
{
    if n < 10 {
        seq![spec_digit(n)]
    } else {
        spec_decimal(n / 10).push(spec_digit(n % 10))
    }
}

fn digit_str(d: u64) -> (r: &'static str)
    requires
        d < 10,
    ensures
        r@ == seq![spec_digit(d as int)],
{
    proof {
        reveal_strlit("0");
        reveal_strlit("1");
        reveal_strlit("2");
        reveal_strlit("3");
        reveal_strlit("4");
        reveal_strlit("5");
        reveal_strlit("6");
        reveal_strlit("7");
        reveal_strlit("8");
        reveal_strlit("9");
    }
    let r: &'static str = if d == 0 {
        "0"
    } else if d == 1 {
        "1"
    } else if d == 2 {
        "2"
    } else if d == 3 {
        "3"
    } else if d == 4 {
        "4"
    } else if d == 5 {
        "5"
    } else if d == 6 {
        "6"
    } else if d == 7 {
        "7"
    } else {
        "8"
    };
    let r: &'static str = if d == 9 {
        "9"
    } else {
        r
    };
    proof {
        assert(r@ =~= seq![spec_digit(d as int)]);
    }
    r
}

/// The decimal numeral of `n` as a string.
pub fn decimal_u64(n: u64) -> (r: String)
    ensures
        r@ == spec_decimal(n as int),
    decreases n,
{
    if n < 10 {
        String::from_str(digit_str(n))
    } else {
        let mut s = decimal_u64(n / 10);
        s.append(digit_str(n % 10));
        proof {
            assert(s@ =~= spec_decimal(n as int));
        }
        s
    }
}

/// `n` in tenths of a unit whose tenth part is `tenth`, rounded half up:
/// the integer nearest to `10 * n / (10 * tenth)`.
pub open spec fn spec_tenths(n: int, tenth: int) -> int {
    n / tenth + if n % tenth >= tenth / 2 {
        1int
    } else {
        0int
    }
}

/// `n` scaled to a unit whose tenth part is `tenth`, shown with one decimal
/// place: `"12.3"` for `n` between 12.25 and 12.35 units.
pub open spec fn spec_scaled(n: int, tenth: int) -> Seq<char> {
    let t = spec_tenths(n, tenth);
    spec_decimal(t / 10) + seq!['.'] + seq![spec_digit(t % 10)]
}

fn scaled(n: u64, tenth: u64, suffix: &str) -> (r: String)
    requires
        10 <= tenth,
    ensures
        r@ == spec_scaled(n as int, tenth as int) + suffix@,
{
    let bump: u64 = if n % tenth >= tenth / 2 {
        1
    } else {
        0
    };
    proof {
        assert(n as int / tenth as int <= n as int / 10) by (nonlinear_arith)
            requires
                10 <= tenth,
                0 <= n,
        ;
    }
    let t: u64 = n / tenth + bump;
    let mut s = decimal_u64(t / 10);
    s.append(".");
    s.append(digit_str(t % 10));
    s.append(suffix);
    proof {
        reveal_strlit(".");
        assert(s@ =~= spec_scaled(n as int, tenth as int) + suffix@);
    }
    s
}

/// The abbreviated readout of a sample count: counts below one thousand are
/// shown in full, larger ones with one decimal place and a `K`, `M` or `B`
/// suffix, rounded half up.
pub open spec fn spec_fmt_samples(n: int) -> Seq<char> {
    if n >= 1000000000 {
        spec_scaled(n, 100000000) + seq!['B']
    } else if n >= 1000000 {
        spec_scaled(n, 100000) + seq!['M']
    } else if n >= 1000 {
        spec_scaled(n, 100) + seq!['K']
    } else {
        spec_decimal(n)
    }
}

/// Abbreviates a sample count for the progress readout.
pub fn fmt_samples(samples: u64) -> (r: String)
    ensures
        r@ == spec_fmt_samples(samples as int),
{
    proof {
        reveal_strlit("B");
        reveal_strlit("M");
        reveal_strlit("K");
    }
    if samples >= 1000000000 {
        let r = scaled(samples, 100000000, "B");
        proof {
            assert(r@ =~= spec_fmt_samples(samples as int));
        }
        r
    } else if samples >= 1000000 {
        let r = scaled(samples, 100000, "M");
        proof {
            assert(r@ =~= spec_fmt_samples(samples as int));
        }
        r
    } else if samples >= 1000 {
        let r = scaled(samples, 100, "K");
        proof {
            assert(r@ =~= spec_fmt_samples(samples as int));
        }
        r
    } else {
        decimal_u64(samples)
    }
}

/// `n` zero-padded to at least two decimal digits.
pub open spec fn spec_pad2(n: int) -> Seq<char> {
    if n < 10 {
        seq!['0', spec_digit(n)]
    } else {
        spec_decimal(n)
    }
}

fn pad2(n: u64) -> (r: String)
    ensures
        r@ == spec_pad2(n as int),
{
    if n < 10 {
        let mut s = String::from_str("0");
        s.append(digit_str(n));
        proof {
            reveal_strlit("0");
            assert(s@ =~= spec_pad2(n as int));
        }
        s
    } else {
        decimal_u64(n)
    }
}

/// A second count as `hh:mm:ss`, each part zero-padded to two digits
/// (hours keep all their digits past two).
pub open spec fn spec_hms(total: int) -> Seq<char> {
    spec_pad2(total / 3600) + seq![':'] + spec_pad2((total % 3600) / 60) + seq![':'] + spec_pad2(
        total % 60,
    )
}

/// Formats an elapsed whole-second count as `hh:mm:ss`.
pub fn fmt_hms(total_seconds: u64) -> (r: String)
    ensures
        r@ == spec_hms(total_seconds as int),
{
    let mut s = pad2(total_seconds / 3600);
    s.append(":");
    let minutes = pad2((total_seconds % 3600) / 60);
    s.append(minutes.as_str());
    s.append(":");
    let seconds = pad2(total_seconds % 60);
    s.append(seconds.as_str());
    proof {
        reveal_strlit(":");
        assert(s@ =~= spec_hms(total_seconds as int));
    }
    s
}

} // verus!
