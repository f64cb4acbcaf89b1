use vstd::prelude::*;
use vstd::string::*;

verus! {

/// The character of a decimal digit.
pub open spec fn digit_char(d: nat) -> char {
    "0123456789"@[d as int]
}

/// The decimal digits of a natural number, most significant first.
pub open spec fn decimal_digits(n: nat) -> Seq<char>
    decreases n,
{
    if n < 10 {
        seq![digit_char(n)]
    } else {
        decimal_digits(n / 10).push(digit_char(n % 10))
    }
}

/// Writes a number in decimal.
pub fn decimal_text(n: u128) -> (r: String)
    ensures
        r@ == decimal_digits(n as nat),
    decreases n,
{
    let digits: &str = "0123456789";
    proof { reveal_strlit("0123456789"); }
    let d = (n % 10) as usize;
    let last = digits.substring_char(d, d + 1);
    assert(last@ =~= seq![digit_char(d as nat)]);
    if n < 10 {
        String::from_str(last)
    } else {
        let mut r = decimal_text(n / 10);
        r.append(last);
        r
    }
}

/// How an amount held in hundredths reads: the whole part, then a point and
/// the hundredths without trailing zeros, where any are left (`40`, `12.5`,
/// `-0.07`).
pub open spec fn amount_text(cents: int) -> Seq<char> {
    let sign = if cents < 0 { "-"@ } else { ""@ };
    let m = if cents < 0 { -cents } else { cents };
    let whole = decimal_digits((m / 100) as nat);
    let frac = m % 100;
    let tail = if frac == 0 {
        ""@
    } else if frac % 10 == 0 {
        seq!['.', digit_char((frac / 10) as nat)]
    } else {
        seq!['.', digit_char((frac / 10) as nat), digit_char((frac % 10) as nat)]
    };
    sign + whole + tail
}

/// Renders an amount held in hundredths as `amount_text` says.
pub fn format_amount(cents: i128) -> (r: String)
    ensures
        r@ == amount_text(cents as int),
{
    let m: u128 = if cents < 0 {
        (0 - (cents + 1)) as u128 + 1
    } else {
        cents as u128
    };
    let mut r = if cents < 0 { String::from_str("-") } else { String::from_str("") };
    let whole = decimal_text(m / 100);
    r.append(whole.as_str());
    let frac: u128 = m % 100;
    let digits: &str = "0123456789";
    proof { reveal_strlit("0123456789"); }
    if frac != 0 {
        r.append(".");
        r.append(digits.substring_char((frac / 10) as usize, (frac / 10 + 1) as usize));
        if frac % 10 != 0 {
            r.append(digits.substring_char((frac % 10) as usize, (frac % 10 + 1) as usize));
        }
    }
    proof {
        reveal_strlit("-");
        reveal_strlit("");
        reveal_strlit(".");
        assert(r@ =~= amount_text(cents as int));
    }
    r
}

} // verus!
