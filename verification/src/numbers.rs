//! Numbers kept in millionths, as text.
use crate::meters::abs;
use crate::text::{concat2, concat3, decimal, round_div, rounded_div, wide_decimal_str};
use vstd::prelude::*;
use vstd::string::*;

verus! {

/// A number below 100 with two digits.
pub open spec fn two_digits(n: nat) -> Seq<char> {
    if n < 10 {
        "0"@ + decimal(n)
    } else {
        decimal(n)
    }
}

fn two_digits_str(n: u128) -> (s: String)
    ensures
        s@ == two_digits(n as nat),
{
    if n < 10 {
        concat2("0", wide_decimal_str(n).as_str())
    } else {
        wide_decimal_str(n)
    }
}

/// A number of hundredths with two decimals.
pub open spec fn hundredths(n: nat) -> Seq<char> {
    decimal(n / 100) + "."@ + two_digits(n % 100)
}

pub fn hundredths_str(n: u128) -> (s: String)
    ensures
        s@ == hundredths(n as nat),
{
    concat3(wide_decimal_str(n / 100).as_str(), ".", two_digits_str(n % 100).as_str())
}

fn magnitude(n: i64) -> (m: u128)
    ensures
        m == abs(n as int),
{
    if n < 0 {
        (-(n as i128)) as u128
    } else {
        n as u128
    }
}

/// A number of millionths with its sign and two decimals.
pub open spec fn signed2(n: int) -> Seq<char> {
    (if n < 0 {
        "-"@
    } else {
        "+"@
    }) + hundredths(round_div(abs(n), 10_000))
}

pub fn signed2_str(n: i64) -> (s: String)
    ensures
        s@ == signed2(n as int),
{
    let h: String = hundredths_str(rounded_div(magnitude(n), 10_000));
    if n < 0 {
        concat2("-", h.as_str())
    } else {
        concat2("+", h.as_str())
    }
}

/// A number of millionths with two decimals.
pub open spec fn plain2(n: int) -> Seq<char> {
    (if n < 0 {
        "-"@
    } else {
        ""@
    }) + hundredths(round_div(abs(n), 10_000))
}

pub fn plain2_str(n: i64) -> (s: String)
    ensures
        s@ == plain2(n as int),
{
    let h: String = hundredths_str(rounded_div(magnitude(n), 10_000));
    if n < 0 {
        concat2("-", h.as_str())
    } else {
        concat2("", h.as_str())
    }
}

/// A number of thousandths with three decimals.
pub open spec fn thousandths(n: nat) -> Seq<char> {
    let r = n % 1000;
    decimal(n / 1000) + "."@ + (if r < 10 {
        "00"@
    } else if r < 100 {
        "0"@
    } else {
        ""@
    }) + decimal(r)
}

/// A number of millionths with three decimals.
pub open spec fn plain3(n: int) -> Seq<char> {
    (if n < 0 {
        "-"@
    } else {
        ""@
    }) + thousandths(round_div(abs(n), 1000))
}

pub fn plain3_str(n: i64) -> (s: String)
    ensures
        s@ == plain3(n as int),
{
    let t: u128 = rounded_div(magnitude(n), 1000);
    let r: u128 = t % 1000;
    let zeros: &str = if r < 10 {
        "00"
    } else if r < 100 {
        "0"
    } else {
        ""
    };
    let head: String = concat3(wide_decimal_str(t / 1000).as_str(), ".", zeros);
    let m: String = concat2(head.as_str(), wide_decimal_str(r).as_str());
    if n < 0 {
        concat2("-", m.as_str())
    } else {
        concat2("", m.as_str())
    }
}

/// A number of millionths with one decimal.
pub open spec fn plain1(n: int) -> Seq<char> {
    let t = round_div(abs(n), 100_000);
    (if n < 0 {
        "-"@
    } else {
        ""@
    }) + decimal(t / 10) + "."@ + decimal(t % 10)
}

pub fn plain1_str(n: i64) -> (s: String)
    ensures
        s@ == plain1(n as int),
{
    let t: u128 = rounded_div(magnitude(n), 100_000);
    let whole: String = concat2(
        if n < 0 {
            "-"
        } else {
            ""
        },
        wide_decimal_str(t / 10).as_str(),
    );
    concat3(whole.as_str(), ".", wide_decimal_str(t % 10).as_str())
}

/// A number of millionths as a percentage with its sign and one decimal.
pub open spec fn signed_percent1(n: int) -> Seq<char> {
    crate::meters::signed_tenths(n < 0, round_div(abs(n), 1000)) + "%"@
}

pub fn signed_percent1_str(n: i64) -> (s: String)
    ensures
        s@ == signed_percent1(n as int),
{
    let t: u128 = rounded_div(magnitude(n), 1000);
    concat2(crate::meters::signed_tenths_str(n < 0, t).as_str(), "%")
}

/// A whole number with its sign.
pub open spec fn signed_whole_number(n: int) -> Seq<char> {
    (if n < 0 {
        "-"@
    } else {
        "+"@
    }) + decimal(abs(n))
}

pub fn signed_whole_number_str(n: i64) -> (s: String)
    ensures
        s@ == signed_whole_number(n as int),
{
    let m: String = wide_decimal_str(magnitude(n));
    if n < 0 {
        concat2("-", m.as_str())
    } else {
        concat2("+", m.as_str())
    }
}

/// The decimals of a fraction in units of so many decimals, without the zeros at
/// their end.
pub open spec fn decimals(f: nat, width: nat) -> Seq<char>
    decreases width,
{
    if width == 0 {
        Seq::empty()
    } else if f == 0 {
        Seq::empty()
    } else {
        let unit = pow10((width - 1) as nat);
        decimal(f / unit) + decimals(f % unit, (width - 1) as nat)
    }
}

/// Ten to so many.
pub open spec fn pow10(n: nat) -> nat
    decreases n,
{
    if n == 0 {
        1
    } else {
        10 * pow10((n - 1) as nat)
    }
}

fn decimals_of(f: u128, width: u32, unit: u128) -> (s: String)
    requires
        width <= 6,
        unit == pow10(width as nat),
        f < unit,
    ensures
        s@ == decimals(f as nat, width as nat),
    decreases width,
{
    if width == 0 || f == 0 {
        let s: String = String::new();
        assert(s@ =~= Seq::<char>::empty());
        return s;
    }
    let u: u128 = unit / 10;
    assert(u == pow10((width - 1) as nat));
    assert(u > 0) by {
        lemma_pow10((width - 1) as nat);
    }
    let rest: String = decimals_of(f % u, width - 1, u);
    concat2(wide_decimal_str(f / u).as_str(), rest.as_str())
}

proof fn lemma_pow10(n: nat)
    ensures
        pow10(n) > 0,
    decreases n,
{
    if n > 0 {
        lemma_pow10((n - 1) as nat);
    }
}

/// A number of millionths with as many decimals as it has.
pub open spec fn shortest(n: int) -> Seq<char> {
    let whole = (if n < 0 {
        "-"@
    } else {
        ""@
    }) + decimal(abs(n) / 1_000_000);
    if abs(n) % 1_000_000 == 0 {
        whole
    } else {
        whole + "."@ + decimals(abs(n) % 1_000_000, 6)
    }
}

pub fn shortest_str(n: i64) -> (s: String)
    ensures
        s@ == shortest(n as int),
{
    let m: u128 = magnitude(n);
    let whole: String = concat2(
        if n < 0 {
            "-"
        } else {
            ""
        },
        wide_decimal_str(m / 1_000_000).as_str(),
    );
    if m % 1_000_000 == 0 {
        whole
    } else {
        proof {
            reveal_with_fuel(pow10, 7);
        }
        let tail: String = decimals_of(m % 1_000_000, 6, 1_000_000);
        concat3(whole.as_str(), ".", tail.as_str())
    }
}

/// A number of millionths with as many decimals as it has, and at least one; or
/// `None`.
pub open spec fn debug_number(n: Option<i64>) -> Seq<char> {
    match n {
        None => "None"@,
        Some(v) => "Some("@ + shortest(v as int) + (if abs(v as int) % 1_000_000 == 0 {
            ".0)"@
        } else {
            ")"@
        }),
    }
}

pub fn debug_number_str(n: Option<i64>) -> (s: String)
    ensures
        s@ == debug_number(n),
{
    match n {
        None => "None".to_owned(),
        Some(v) => {
            let tail: &str = if magnitude(v) % 1_000_000 == 0 {
                ".0)"
            } else {
                ")"
            };
            concat3("Some(", shortest_str(v).as_str(), tail)
        },
    }
}

/// So many milliseconds in whole seconds; what rounds to nothing keeps its sign.
pub open spec fn seconds(ms: int) -> Seq<char> {
    (if ms < 0 {
        "-"@
    } else {
        ""@
    }) + decimal(round_div(abs(ms), 1000)) + "s"@
}

pub fn seconds_str(ms: i128) -> (s: String)
    requires
        -0x1_0000_0000_0000_0000 <= ms <= 0x1_0000_0000_0000_0000,
    ensures
        s@ == seconds(ms as int),
{
    let m: u128 = if ms < 0 {
        (-ms) as u128
    } else {
        ms as u128
    };
    concat3(
        if ms < 0 {
            "-"
        } else {
            ""
        },
        wide_decimal_str(rounded_div(m, 1000)).as_str(),
        "s",
    )
}

} // verus!
