//! Numbers on the screen can be read back from their texts.
use crate::numbers::{hundredths, plain2, signed2, signed_whole_number, thousandths};
use crate::screens::clock;
use crate::text::{all_digits, decimal, digits_value, signed_decimal};
use vstd::prelude::*;

verus! {

/// The digits of a number write that number.
pub proof fn decimal_reads_back(n: nat)
    ensures
        digits_value(decimal(n)) == n,
        all_digits(decimal(n)),
        decimal(n).len() > 0,
        n < 10 ==> decimal(n).len() == 1,
        10 <= n < 100 ==> decimal(n).len() == 2,
        100 <= n < 1000 ==> decimal(n).len() == 3,
    decreases n,
{
    if n >= 10 {
        decimal_reads_back(n / 10);
        assert(decimal(n).drop_last() =~= decimal(n / 10));
    } else {
        assert(decimal(n).drop_last() =~= Seq::<char>::empty());
        assert(digits_value(decimal(n).drop_last()) == 0);
    }
}

/// Different numbers are written differently.
pub proof fn decimals_differ(a: nat, b: nat)
    ensures
        a != b ==> decimal(a) != decimal(b),
{
    decimal_reads_back(a);
    decimal_reads_back(b);
}

/// The number written by an optional minus and digits.
pub open spec fn signed_value(s: Seq<char>) -> int {
    if s.len() > 0 && s[0] == '-' {
        -(digits_value(s.skip(1)) as int)
    } else {
        digits_value(s) as int
    }
}

pub proof fn signed_decimal_reads_back(n: int)
    ensures
        signed_value(signed_decimal(n)) == n,
{
    reveal_strlit("-");
    if n < 0 {
        decimal_reads_back((-n) as nat);
        assert(signed_decimal(n).skip(1) =~= decimal((-n) as nat));
    } else {
        decimal_reads_back(n as nat);
        assert(crate::text::is_digit(decimal(n as nat)[0]));
    }
}

/// A whole number with its sign always before it: the sign is that of the number,
/// and the digits after it are its size.
pub proof fn signed_whole_reads_back(n: int)
    ensures
        signed_whole_number(n).len() > 1,
        signed_whole_number(n)[0] == (if n < 0 {
            '-'
        } else {
            '+'
        }),
        digits_value(signed_whole_number(n).skip(1)) == (if n < 0 {
            -n
        } else {
            n
        }),
{
    reveal_strlit("-");
    reveal_strlit("+");
    let m = if n < 0 {
        (-n) as nat
    } else {
        n as nat
    };
    decimal_reads_back(m);
    assert(signed_whole_number(n).skip(1) =~= decimal(m));
}

/// The seconds that a text like `4:05` stands for.
pub open spec fn clock_value(s: Seq<char>) -> nat {
    digits_value(s.take(s.len() - 3)) * 60 + digits_value(s.skip(s.len() - 2))
}

/// Minutes and seconds stand for the time they were written of, with two digits
/// after the colon.
pub proof fn clock_reads_back(seconds: nat)
    ensures
        clock(seconds).len() >= 4,
        clock(seconds)[clock(seconds).len() - 3] == ':',
        clock_value(clock(seconds)) == seconds,
        digits_value(clock(seconds).skip(clock(seconds).len() - 2)) < 60,
{
    reveal_strlit(":");
    reveal_strlit("0");
    let s = seconds % 60;
    let m = seconds / 60;
    decimal_reads_back(m);
    decimal_reads_back(s);
    let tail = if s < 10 {
        "0"@ + decimal(s)
    } else {
        decimal(s)
    };
    assert(tail.len() == 2);
    if s < 10 {
        reveal_with_fuel(digits_value, 4);
        assert(tail.drop_last() =~= "0"@);
        assert("0"@.drop_last() =~= Seq::<char>::empty());
        assert(digits_value("0"@) == 0);
        assert(decimal(s).drop_last() =~= Seq::<char>::empty());
        assert(digits_value(tail) == s);
    }
    let c = clock(seconds);
    assert(c =~= decimal(m) + ":"@ + tail);
    assert(c.take(c.len() - 3) =~= decimal(m));
    assert(c.skip(c.len() - 2) =~= tail);
}

/// The number of hundredths that a text like `1.05` stands for.
pub open spec fn hundredths_value(s: Seq<char>) -> nat {
    digits_value(s.take(s.len() - 3)) * 100 + digits_value(s.skip(s.len() - 2))
}

pub proof fn hundredths_read_back(n: nat)
    ensures
        hundredths(n).len() >= 4,
        hundredths(n)[hundredths(n).len() - 3] == '.',
        hundredths_value(hundredths(n)) == n,
        crate::text::is_digit(hundredths(n)[0]),
{
    reveal_strlit(".");
    reveal_strlit("0");
    let r = n % 100;
    decimal_reads_back(n / 100);
    decimal_reads_back(r);
    let tail = crate::numbers::two_digits(r);
    assert(tail.len() == 2);
    if r < 10 {
        reveal_with_fuel(digits_value, 4);
        assert(tail.drop_last() =~= "0"@);
        assert("0"@.drop_last() =~= Seq::<char>::empty());
        assert(digits_value("0"@) == 0);
        assert(decimal(r).drop_last() =~= Seq::<char>::empty());
        assert(digits_value(tail) == r);
    }
    let c = hundredths(n);
    assert(c =~= decimal(n / 100) + "."@ + tail);
    assert(c.take(c.len() - 3) =~= decimal(n / 100));
    assert(c.skip(c.len() - 2) =~= tail);
    assert(c[0] == decimal(n / 100)[0]);
}

/// A level with two decimals is off by half of the last one at most, and has the
/// sign of the level.
pub proof fn levels_are_shown(n: int)
    ensures
        plain2(n).len() >= 4,
        n < 0 <==> plain2(n)[0] == '-',
        ({
            let shown = hundredths_value(
                if n < 0 {
                    plain2(n).skip(1)
                } else {
                    plain2(n)
                },
            );
            let size = if n < 0 {
                -n
            } else {
                n
            };
            -5_000 <= shown * 10_000 - size <= 5_000
        }),
        signed2(n)[0] == (if n < 0 {
            '-'
        } else {
            '+'
        }),
        signed2(n).skip(1) == (if n < 0 {
            plain2(n).skip(1)
        } else {
            plain2(n)
        }),
{
    reveal_strlit("-");
    reveal_strlit("+");
    reveal_strlit("");
    let size = crate::meters::abs(n);
    let h = crate::text::round_div(size, 10_000);
    hundredths_read_back(h);
    assert(signed2(n).skip(1) =~= hundredths(h));
    if n < 0 {
        assert(plain2(n).skip(1) =~= hundredths(h));
    } else {
        assert(plain2(n) =~= hundredths(h));
    }
}

/// Every digit of a number has ten times the value of the one behind it.
pub proof fn digits_have_their_place(s: Seq<char>, c: char)
    requires
        crate::text::is_digit(c),
    ensures
        digits_value(s.push(c)) == 10 * digits_value(s) + (c as int - '0' as int),
        digits_value(Seq::<char>::empty()) == 0,
{
    assert(s.push(c).drop_last() =~= s);
}

/// Text that reads as a number of thousandths.
pub open spec fn thousandths_value(s: Seq<char>) -> nat {
    digits_value(s.take(s.len() - 4)) * 1000 + digits_value(s.skip(s.len() - 3))
}

pub proof fn thousandths_read_back(n: nat)
    ensures
        thousandths(n).len() >= 5,
        thousandths(n)[thousandths(n).len() - 4] == '.',
        thousandths_value(thousandths(n)) == n,
{
    reveal_strlit(".");
    reveal_strlit("0");
    reveal_strlit("00");
    reveal_strlit("");
    let r = n % 1000;
    decimal_reads_back(n / 1000);
    decimal_reads_back(r);
    let s = thousandths(n);
    let head = decimal(n / 1000);
    assert("."@.len() == 1 && "0"@.len() == 1 && "00"@.len() == 2 && ""@.len() == 0);
    assert(s.take(s.len() - 4) =~= head);
    let tail = s.skip(s.len() - 3);
    if r < 10 {
        assert(tail =~= "00"@ + decimal(r));
        lemma_leading_zero("0"@ + decimal(r));
        assert("00"@ + decimal(r) =~= "0"@ + ("0"@ + decimal(r)));
        lemma_leading_zero(decimal(r));
    } else if r < 100 {
        assert(tail =~= "0"@ + decimal(r));
        lemma_leading_zero(decimal(r));
    } else {
        assert(tail =~= decimal(r));
    }
}

proof fn lemma_leading_zero(s: Seq<char>)
    ensures
        digits_value("0"@ + s) == digits_value(s),
    decreases s.len(),
{
    reveal_strlit("0");
    if s.len() > 0 {
        lemma_leading_zero(s.drop_last());
        assert(("0"@ + s).drop_last() =~= "0"@ + s.drop_last());
        assert(("0"@ + s).last() == s.last());
    } else {
        let zero = "0"@ + s;
        assert(zero.len() == 1 && zero.last() == '0');
        assert(zero.drop_last() =~= s);
    }
}

} // verus!
