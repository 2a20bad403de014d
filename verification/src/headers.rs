//! Freshness headers: the `Cache-Control` and `Retry-After` values a
//! response carries, with verified decimal rendering of the seconds.

use vstd::prelude::*;

verus! {

/// The character of one decimal digit.
pub open spec fn spec_digit_char(d: int) -> char
    recommends
        0 <= d <= 9,
{
    if d == 0 {
        '0'
    } else if d == 1 {
        '1'
    } else if d == 2 {
        '2'
    } else if d == 3 {
        '3'
    } else if d == 4 {
        '4'
    } else if d == 5 {
        '5'
    } else if d == 6 {
        '6'
    } else if d == 7 {
        '7'
    } else if d == 8 {
        '8'
    } else {
        '9'
    }
}

/// The decimal rendering of a non-negative integer, without leading zeros
/// (a single zero for zero itself).
pub open spec fn spec_decimal(n: int) -> Seq<char>
    recommends
        n >= 0,
    decreases n,
{
    if n < 10 {
        seq![spec_digit_char(n)]
    } else {
        spec_decimal(n / 10).push(spec_digit_char(n % 10))
    }
}

fn digit_str(d: u64) -> (r: &'static str)
    requires
        d <= 9,
    ensures
        r@ == seq![spec_digit_char(d as int)],
{
    proof {
        reveal_strlit("0");
        reveal_strlit("1");
        reveal_strlit("2");
        reveal_strlit("3");
        reveal_strlit("4");
        reveal_strlit("5");
        reveal_strlit("6");
        reveal_strlit("7");
        reveal_strlit("8");
        reveal_strlit("9");
    }
    let r: &'static str = if d == 0 {
        "0"
    } else if d == 1 {
        "1"
    } else if d == 2 {
        "2"
    } else if d == 3 {
        "3"
    } else if d == 4 {
        "4"
    } else if d == 5 {
        "5"
    } else if d == 6 {
        "6"
    } else if d == 7 {
        "7"
    } else if d == 8 {
        "8"
    } else {
        "9"
    };
    proof {
        assert(r@ =~= seq![spec_digit_char(d as int)]);
    }
    r
}

fn push_decimal(n: u64, out: &mut String)
    ensures
        final(out)@ == old(out)@ + spec_decimal(n as int),
    decreases n,
{
    let ghost start = out@;
    if n >= 10 {
        push_decimal(n / 10, out);
    }
    let digit = digit_str(n % 10);
    out.append(digit);
    proof {
        assert(out@ =~= start + spec_decimal(n as int));
    }
}

/// Renders a number of seconds as its decimal digits.
pub fn decimal_string(n: u64) -> (r: String)
    ensures
        r@ == spec_decimal(n as int),
{
    let mut s = String::new();
    push_decimal(n, &mut s);
    proof {
        assert(s@ =~= spec_decimal(n as int));
    }
    s
}

/// Adds a `Cache-Control` header with the value set to
/// `public, max-age=<seconds>`.
#[derive(Debug)]
pub struct CacheControl<R>(pub u64, pub R);

/// Adds a `Retry-After` header with the value set to the seconds.
#[derive(Debug)]
pub struct RetryAfter<R>(pub u64, pub R);

impl<R> CacheControl<R> {
    /// The header value: `public, max-age=` followed by the seconds.
    pub fn header_value(&self) -> (r: String)
        ensures
            r@ == "public, max-age="@ + spec_decimal(self.0 as int),
    {
        let mut s: String = "public, max-age=".to_owned();
        push_decimal(self.0, &mut s);
        s
    }
}

impl<R> RetryAfter<R> {
    /// The header value: the seconds in decimal.
    pub fn header_value(&self) -> (r: String)
        ensures
            r@ == spec_decimal(self.0 as int),
    {
        decimal_string(self.0)
    }
}

} // verus!
